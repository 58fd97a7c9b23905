//! The addresses the handlers redirect to.
use vstd::prelude::*;
use vstd::string::*;
use crate::text::{owned, push_char, push_signed_decimal, signed_decimal};

verus! {

/// `/<owner>/<repo>`.
pub open spec fn repo_url_text(owner: Seq<char>, repo: Seq<char>) -> Seq<char> {
    seq!['/'] + owner + seq!['/'] + repo
}

/// `/<owner>/<repo><section>`, where `section` starts with `/-/`.
pub open spec fn section_url_text(owner: Seq<char>, repo: Seq<char>, section: Seq<char>) -> Seq<char> {
    repo_url_text(owner, repo) + section
}

/// `/<owner>/<repo><section>/<number>`.
pub open spec fn item_url_text(owner: Seq<char>, repo: Seq<char>, section: Seq<char>, number: int) -> Seq<char> {
    section_url_text(owner, repo, section) + seq!['/'] + signed_decimal(number)
}

/// The page of a repository.
pub fn repo_url(owner: &str, repo: &str) -> (u: String)
    ensures
        u@ == repo_url_text(owner@, repo@),
{
    let mut u = String::new();
    push_char(&mut u, '/');
    u.append(owner);
    push_char(&mut u, '/');
    u.append(repo);
    proof {
        assert(u@ =~= repo_url_text(owner@, repo@));
    }
    u
}

/// A section of a repository, such as `/-/labels`.
pub fn section_url(owner: &str, repo: &str, section: &str) -> (u: String)
    ensures
        u@ == section_url_text(owner@, repo@, section@),
{
    let mut u = repo_url(owner, repo);
    u.append(section);
    u
}

/// A numbered item within a section, such as issue 7.
pub fn item_url(owner: &str, repo: &str, section: &str, number: i32) -> (u: String)
    ensures
        u@ == item_url_text(owner@, repo@, section@, number as int),
{
    let mut u = section_url(owner, repo, section);
    push_char(&mut u, '/');
    push_signed_decimal(&mut u, number as i64);
    proof {
        assert(u@ =~= item_url_text(owner@, repo@, section@, number as int));
    }
    u
}

/// A path below a fixed prefix: `<prefix><name>`.
pub fn prefixed(prefix: &str, name: &str) -> (u: String)
    ensures
        u@ == prefix@ + name@,
{
    let mut u = owned(prefix);
    u.append(name);
    u
}

} // verus!

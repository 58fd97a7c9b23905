//! Where a repository lives on disk, and which branch it opens on.
use vstd::prelude::*;
use vstd::string::*;
use crate::text::{owned, push_char};

verus! {

/// Joining `p` onto a Unix path, as `PathBuf::push` does: an absolute `p`
/// replaces the path; otherwise `p` is appended, with a `/` in between when
/// the path is non-empty and does not already end in one.
pub open spec fn path_join(base: Seq<char>, p: Seq<char>) -> Seq<char> {
    if p.len() > 0 && p[0] == '/' {
        p
    } else if base.len() > 0 && base.last() != '/' {
        base + seq!['/'] + p
    } else {
        base + p
    }
}

/// The on-disk location of a bare repository:
/// `<data_dir>/repositories/<owner_id>/<repo_name>.git`.
pub open spec fn repo_location(data_dir: Seq<char>, owner_id: Seq<char>, repo_name: Seq<char>) -> Seq<char> {
    path_join(path_join(path_join(data_dir, "repositories"@), owner_id), repo_name + ".git"@)
}

fn join_onto(base: &mut String, p: &str)
    ensures
        final(base)@ == path_join(old(base)@, p@),
{
    let pc = crate::text::chars_of(p);
    if pc.len() > 0 && pc[0] == '/' {
        *base = owned(p);
    } else {
        let bc = crate::text::chars_of(base.as_str());
        if bc.len() > 0 && bc[bc.len() - 1] != '/' {
            push_char(base, '/');
        }
        base.append(p);
        proof {
            if bc@.len() > 0 && bc@.last() != '/' {
                assert(final(base)@ =~= old(base)@ + seq!['/'] + p@) by {
                    assert(bc@ == old(base)@);
                }
            }
        }
    }
}

/// The path of a repository's bare git directory under the data directory.
pub fn repo_path(data_dir: &str, owner_id: &str, repo_name: &str) -> (path: String)
    ensures
        path@ == repo_location(data_dir@, owner_id@, repo_name@),
{
    let mut path = owned(data_dir);
    join_onto(&mut path, "repositories");
    join_onto(&mut path, owner_id);
    let mut leaf = owned(repo_name);
    leaf.append(".git");
    join_onto(&mut path, leaf.as_str());
    path
}

/// The branch a repository opens on: the short name of HEAD when HEAD
/// resolves and has one, `main` otherwise.
pub fn default_branch(head_shorthand: Option<String>) -> (b: String)
    ensures
        match head_shorthand {
            Some(h) => b@ == h@,
            None => b@ == "main"@,
        },
{
    match head_shorthand {
        Some(h) => h,
        None => owned("main"),
    }
}

/// The location of a repository whose owner id is non-empty and free of
/// `/`, and whose name starts with something other than `/`, spelled out.
pub proof fn lemma_repo_location_shape(d: Seq<char>, o: Seq<char>, n: Seq<char>)
    requires
        o.len() > 0,
        forall|i: int| 0 <= i < o.len() ==> o[i] != '/',
        n.len() == 0 || n[0] != '/',
    ensures
        repo_location(d, o, n) == path_join(d, "repositories"@) + seq!['/'] + o + seq!['/'] + n + ".git"@,
{
    reveal_strlit("repositories");
    reveal_strlit(".git");
    let p = path_join(d, "repositories"@);
    assert(p.len() > 0 && p.last() == 's');
    let a = path_join(p, o);
    assert(a =~= p + seq!['/'] + o);
    assert(a.last() == o.last());
    let leaf = n + ".git"@;
    assert(leaf[0] != '/');
    assert(path_join(a, leaf) =~= p + seq!['/'] + o + seq!['/'] + n + ".git"@);
}

/// Repositories never share a directory: for owner ids that are non-empty
/// and free of `/`, and names free of `/` (as every name that follows the
/// repository-name rule is), equal locations mean equal owners and equal
/// names.
pub proof fn lemma_repo_location_injective(
    d: Seq<char>,
    o1: Seq<char>,
    n1: Seq<char>,
    o2: Seq<char>,
    n2: Seq<char>,
)
    requires
        o1.len() > 0,
        o2.len() > 0,
        forall|i: int| 0 <= i < o1.len() ==> o1[i] != '/',
        forall|i: int| 0 <= i < o2.len() ==> o2[i] != '/',
        forall|i: int| 0 <= i < n1.len() ==> n1[i] != '/',
        forall|i: int| 0 <= i < n2.len() ==> n2[i] != '/',
        repo_location(d, o1, n1) == repo_location(d, o2, n2),
    ensures
        o1 == o2,
        n1 == n2,
{
    lemma_repo_location_shape(d, o1, n1);
    lemma_repo_location_shape(d, o2, n2);
    let p = path_join(d, "repositories"@);
    let l1 = p + seq!['/'] + o1 + seq!['/'] + n1 + ".git"@;
    let l2 = p + seq!['/'] + o2 + seq!['/'] + n2 + ".git"@;
    let x1 = o1 + seq!['/'] + n1;
    let x2 = o2 + seq!['/'] + n2;
    reveal_strlit(".git");
    let k: int = p.len() + 1int;
    assert(x1 =~= l1.subrange(k, l1.len() - 4int));
    assert(x2 =~= l2.subrange(k, l2.len() - 4int));
    assert(x1 == x2);
    if o1.len() < o2.len() {
        assert(x1[o1.len() as int] == '/');
        assert(x2[o1.len() as int] == o2[o1.len() as int]);
        assert(false);
    } else if o2.len() < o1.len() {
        assert(x2[o2.len() as int] == '/');
        assert(x1[o2.len() as int] == o1[o2.len() as int]);
        assert(false);
    }
    assert(o1 =~= x1.subrange(0, o1.len() as int));
    assert(o2 =~= x2.subrange(0, o2.len() as int));
    assert(n1 =~= x1.subrange(o1.len() + 1int, x1.len() as int));
    assert(n2 =~= x2.subrange(o2.len() + 1int, x2.len() as int));
}

} // verus!

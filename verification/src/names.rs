//! The rules for user, group and repository names.
use vstd::prelude::*;
use vstd::string::*;
use vstd::utf8::encode_utf8;

verus! {

/// Whether a character is Unicode alphabetic or numeric
/// (the result of `char::is_alphanumeric`).
pub uninterp spec fn alphanumeric(c: char) -> bool;

/// An ASCII letter or digit.
pub open spec fn ascii_alphanumeric(c: char) -> bool {
    ('a' <= c && c <= 'z') || ('A' <= c && c <= 'Z') || ('0' <= c && c <= '9')
}

/// A letter or digit in the sense of `char::is_alphanumeric`: among ASCII
/// characters exactly the letters and digits, elsewhere as Unicode decides.
pub open spec fn letter_or_digit(c: char) -> bool {
    if (c as u32) < 128 {
        ascii_alphanumeric(c)
    } else {
        alphanumeric(c)
    }
}

/// Whether `c` is alphabetic or numeric in Unicode.
/// Calls `char::is_alphanumeric`. The claim is that the result is the named
/// Unicode property and that, on ASCII characters, exactly the letters and
/// digits qualify, as the documentation's definition through the
/// Alphabetic and Numeric properties gives.
#[verifier::external_body]
pub(crate) fn is_alphanumeric(c: char) -> (b: bool)
    ensures
        b == letter_or_digit(c),
        b == alphanumeric(c),
{
    c.is_alphanumeric()
}

/// The length in bytes of the UTF-8 encoding (what `str::len` counts).
pub open spec fn byte_len(s: Seq<char>) -> nat {
    encode_utf8(s).len()
}

/// The length in bytes of the UTF-8 encoding of a string.
pub fn utf8_length(s: &str) -> (n: u128)
    ensures
        n == byte_len(s@),
{
    let cs = crate::text::chars_of(s);
    let mut i = cs.len();
    let mut total: u128 = 0;
    proof {
        assert(cs@.len() == cs.len());
        assert(cs@.subrange(i as int, cs@.len() as int) =~= Seq::<char>::empty());
    }
    while i > 0
        invariant
            cs@ == s@,
            i <= cs@.len(),
            cs@.len() <= usize::MAX,
            total == byte_len(cs@.subrange(i as int, cs@.len() as int)),
            total <= 4 * (cs@.len() - i),
        decreases i,
    {
        let c = cs[i - 1];
        let v = c as u32;
        let w: u128 = if v <= 0x7F { 1 } else if v <= 0x7FF { 2 } else if v <= 0xFFFF { 3 } else { 4 };
        proof {
            let tail = cs@.subrange(i as int, cs@.len() as int);
            let longer = cs@.subrange(i - 1, cs@.len() as int);
            assert(longer.drop_first() =~= tail);
            assert(longer[0] == c);
            assert(encode_utf8(longer) == vstd::utf8::encode_scalar(c as u32) + encode_utf8(tail));
            vstd::utf8::char_is_scalar(c);
            assert(vstd::utf8::encode_scalar(c as u32).len() == w);
        }
        total = total + w;
        i = i - 1;
    }
    proof {
        assert(cs@.subrange(0, cs@.len() as int) =~= cs@);
    }
    total
}

/// A character allowed in user and group names.
pub open spec fn handle_char(c: char) -> bool {
    letter_or_digit(c) || c == '-' || c == '_'
}

/// A character allowed in repository names: those of handles and `.`.
pub open spec fn repo_name_char(c: char) -> bool {
    handle_char(c) || c == '.'
}

/// Every character of `s` is a handle character.
pub open spec fn all_handle_chars(s: Seq<char>) -> bool {
    forall|i: int| 0 <= i < s.len() ==> handle_char(#[trigger] s[i])
}

/// Every character of `s` may stand in a repository name.
pub open spec fn all_repo_name_chars(s: Seq<char>) -> bool {
    forall|i: int| 0 <= i < s.len() ==> repo_name_char(#[trigger] s[i])
}

/// A username: 3 to 64 bytes of letters, digits, `-` and `_`.
pub open spec fn valid_username(s: Seq<char>) -> bool {
    3 <= byte_len(s) <= 64 && all_handle_chars(s)
}

/// A group name: 3 to 128 bytes of letters, digits, `-` and `_`.
pub open spec fn valid_group_name(s: Seq<char>) -> bool {
    3 <= byte_len(s) <= 128 && all_handle_chars(s)
}

/// A repository name: 1 to 128 bytes of letters, digits, `-`, `_` and `.`.
pub open spec fn valid_repo_name(s: Seq<char>) -> bool {
    1 <= byte_len(s) <= 128 && all_repo_name_chars(s)
}

/// Whether every character of `s` is a handle character, or, with
/// `allow_dot`, a repository-name character.
pub fn only_name_chars(s: &str, allow_dot: bool) -> (b: bool)
    ensures
        b == (if allow_dot { all_repo_name_chars(s@) } else { all_handle_chars(s@) }),
{
    let cs = crate::text::chars_of(s);
    let mut i: usize = 0;
    while i < cs.len()
        invariant
            cs@ == s@,
            i <= cs@.len(),
            forall|j: int| 0 <= j < i ==> (if allow_dot { repo_name_char(cs@[j]) } else { handle_char(cs@[j]) }),
        decreases cs@.len() - i,
    {
        let c = cs[i];
        let ok = is_alphanumeric(c) || c == '-' || c == '_' || (allow_dot && c == '.');
        if !ok {
            return false;
        }
        i = i + 1;
    }
    true
}

/// Every valid username is a valid group name, and every valid group name
/// is a valid repository name.
pub proof fn lemma_name_rules_nest(s: Seq<char>)
    ensures
        valid_username(s) ==> valid_group_name(s),
        valid_group_name(s) ==> valid_repo_name(s),
{
}

/// No valid repository name holds a `/`, so a name never reaches into
/// another directory.
pub proof fn lemma_repo_name_has_no_slash(s: Seq<char>)
    requires
        valid_repo_name(s),
    ensures
        forall|i: int| 0 <= i < s.len() ==> s[i] != '/',
{
    assert forall|i: int| 0 <= i < s.len() implies s[i] != '/' by {
        assert(repo_name_char(s[i]));
    }
}

} // verus!

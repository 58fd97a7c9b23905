//! Wiki routes and the slugs that name wiki pages.
use vstd::prelude::*;
use vstd::string::*;
use crate::names::ascii_alphanumeric;
use crate::text::{chars_of, push_char};
use crate::urls::{section_url, section_url_text};

verus! {

/// The repository a wiki route addresses.
pub struct WRepoParams {
    pub owner: String,
    pub repo: String,
}

/// The fields of a wiki page being saved.
pub struct WikiForm {
    pub title: String,
    pub content: String,
}

impl WRepoParams {
    /// The wiki page with the given slug.
    pub fn page_url(&self, slug: &str) -> (u: String)
        ensures
            u@ == section_url_text(self.owner@, self.repo@, "/-/wiki/"@) + slug@,
    {
        let mut u = section_url(self.owner.as_str(), self.repo.as_str(), "/-/wiki/");
        u.append(slug);
        u
    }
}

/// The lowercase form of an ASCII letter; other characters are unchanged.
pub open spec fn ascii_lower(c: char) -> char {
    if 'A' <= c && c <= 'Z' { ((c as u32) + 32) as char } else { c }
}

/// The slug built so far (`acc`), with a separator owed (`pending`), once
/// the characters `rest` are added: letters and digits are kept, in
/// lowercase; every run of other characters becomes one `-` between two
/// kept characters.
pub open spec fn slug_from(acc: Seq<char>, pending: bool, rest: Seq<char>) -> Seq<char>
    decreases rest.len(),
{
    if rest.len() == 0 {
        acc
    } else if ascii_alphanumeric(rest[0]) {
        let sep = if pending && acc.len() > 0 { seq!['-'] } else { Seq::<char>::empty() };
        slug_from(acc + sep + seq![ascii_lower(rest[0])], false, rest.drop_first())
    } else {
        slug_from(acc, true, rest.drop_first())
    }
}

/// The slug of a wiki page title: its ASCII letters and digits in
/// lowercase, each run of other characters turned into a single `-`, with
/// none at either end.
pub open spec fn slug_text(title: Seq<char>) -> Seq<char> {
    slug_from(Seq::<char>::empty(), false, title)
}

/// The slug that names a wiki page with this title.
pub fn slugify(title: &str) -> (slug: String)
    ensures
        slug@ == slug_text(title@),
{
    let cs = chars_of(title);
    let mut slug = String::new();
    let mut pending = false;
    let mut i: usize = 0;
    proof {
        assert(cs@.subrange(0, cs@.len() as int) =~= title@);
        assert(slug@ =~= Seq::<char>::empty());
    }
    while i < cs.len()
        invariant
            cs@ == title@,
            i <= cs@.len(),
            slug_from(slug@, pending, cs@.subrange(i as int, cs@.len() as int)) == slug_text(title@),
        decreases cs@.len() - i,
    {
        let c = cs[i];
        let ghost rest = cs@.subrange(i as int, cs@.len() as int);
        let ghost before = slug@;
        let ghost was_pending = pending;
        proof {
            assert(rest.drop_first() =~= cs@.subrange(i + 1, cs@.len() as int));
            assert(rest[0] == c);
        }
        let alnum = ('a' <= c && c <= 'z') || ('A' <= c && c <= 'Z') || ('0' <= c && c <= '9');
        if alnum {
            let sep = pending && slug.as_str().unicode_len() > 0;
            if sep {
                push_char(&mut slug, '-');
            }
            let lower = if 'A' <= c && c <= 'Z' { (((c as u32) + 32) as u8) as char } else { c };
            push_char(&mut slug, lower);
            pending = false;
            proof {
                assert(lower == ascii_lower(c));
                let sq = if was_pending && before.len() > 0 { seq!['-'] } else { Seq::<char>::empty() };
                assert(slug@ =~= before + sq + seq![ascii_lower(c)]);
            }
        } else {
            pending = true;
        }
        i = i + 1;
    }
    slug
}

/// The lowercased ASCII letters and digits of a text, in order.
pub open spec fn kept_chars(s: Seq<char>) -> Seq<char>
    decreases s.len(),
{
    if s.len() == 0 {
        Seq::<char>::empty()
    } else if ascii_alphanumeric(s[0]) {
        seq![ascii_lower(s[0])] + kept_chars(s.drop_first())
    } else {
        kept_chars(s.drop_first())
    }
}

/// A text with every `-` taken out.
pub open spec fn without_dashes(s: Seq<char>) -> Seq<char>
    decreases s.len(),
{
    if s.len() == 0 {
        Seq::<char>::empty()
    } else if s[0] == '-' {
        without_dashes(s.drop_first())
    } else {
        seq![s[0]] + without_dashes(s.drop_first())
    }
}

proof fn lemma_without_dashes_concat(a: Seq<char>, b: Seq<char>)
    ensures
        without_dashes(a + b) == without_dashes(a) + without_dashes(b),
    decreases a.len(),
{
    if a.len() == 0 {
        assert(a + b =~= b);
        assert(without_dashes(a) + without_dashes(b) =~= without_dashes(b));
    } else {
        assert((a + b).drop_first() =~= a.drop_first() + b);
        lemma_without_dashes_concat(a.drop_first(), b);
        if a[0] != '-' {
            assert(seq![a[0]] + (without_dashes(a.drop_first()) + without_dashes(b))
                =~= seq![a[0]] + without_dashes(a.drop_first()) + without_dashes(b));
        }
    }
}

proof fn lemma_slug_from_keeps(acc: Seq<char>, pending: bool, rest: Seq<char>)
    ensures
        without_dashes(slug_from(acc, pending, rest)) == without_dashes(acc) + kept_chars(rest),
    decreases rest.len(),
{
    if rest.len() == 0 {
        assert(without_dashes(acc) + Seq::<char>::empty() =~= without_dashes(acc));
    } else if ascii_alphanumeric(rest[0]) {
        let c = ascii_lower(rest[0]);
        let sep = if pending && acc.len() > 0 { seq!['-'] } else { Seq::<char>::empty() };
        lemma_slug_from_keeps(acc + sep + seq![c], false, rest.drop_first());
        lemma_without_dashes_concat(acc + sep, seq![c]);
        lemma_without_dashes_concat(acc, sep);
        assert(without_dashes(sep) =~= Seq::<char>::empty()) by {
            if sep.len() > 0 {
                assert(sep[0] == '-');
                assert(sep.drop_first() =~= Seq::<char>::empty());
                assert(without_dashes(Seq::<char>::empty()) == Seq::<char>::empty());
            }
        }
        assert(c != '-');
        assert(seq![c][0] == c);
        assert(seq![c].drop_first() =~= Seq::<char>::empty());
        assert(without_dashes(Seq::<char>::empty()) == Seq::<char>::empty());
        assert(without_dashes(seq![c]) =~= seq![c] + Seq::<char>::empty());
        assert(without_dashes(seq![c]) =~= seq![c]);
        assert(without_dashes(acc) + Seq::<char>::empty() =~= without_dashes(acc));
        assert(without_dashes(acc) + seq![c] + kept_chars(rest.drop_first())
            =~= without_dashes(acc) + (seq![c] + kept_chars(rest.drop_first())));
    } else {
        lemma_slug_from_keeps(acc, true, rest.drop_first());
    }
}

/// A slug keeps every ASCII letter and digit of the title, lowercased and
/// in order, and nothing else but `-` separators: taking the `-` out of the
/// slug leaves exactly the title's letters and digits.
pub proof fn lemma_slug_keeps_letters_and_digits(title: Seq<char>)
    ensures
        without_dashes(slug_text(title)) == kept_chars(title),
{
    lemma_slug_from_keeps(Seq::<char>::empty(), false, title);
    assert(without_dashes(Seq::<char>::empty()) + kept_chars(title) =~= kept_chars(title));
}

/// A character a slug may hold: a lowercase ASCII letter, a digit or `-`.
pub open spec fn slug_char(c: char) -> bool {
    ('a' <= c && c <= 'z') || ('0' <= c && c <= '9') || c == '-'
}

/// The shape of a slug: only slug characters, no `-` at either end, and
/// never two `-` in a row.
pub open spec fn slug_shaped(s: Seq<char>) -> bool {
    &&& forall|i: int| 0 <= i < s.len() ==> slug_char(#[trigger] s[i])
    &&& s.len() > 0 ==> s[0] != '-' && s.last() != '-'
    &&& forall|i: int| 0 <= i < s.len() - 1 ==> !(#[trigger] s[i] == '-' && s[i + 1] == '-')
}

proof fn lemma_lower_is_slug_char(c: char)
    requires
        ascii_alphanumeric(c),
    ensures
        slug_char(ascii_lower(c)),
        ascii_lower(c) != '-',
{
    if 'A' <= c && c <= 'Z' {
        let v = (c as u32) + 32;
        assert(97 <= v <= 122);
        assert(ascii_lower(c) == v as char);
        assert('a' <= (v as char) && (v as char) <= 'z');
    }
}

proof fn lemma_slug_from_shaped(acc: Seq<char>, pending: bool, rest: Seq<char>)
    requires
        slug_shaped(acc),
    ensures
        slug_shaped(slug_from(acc, pending, rest)),
    decreases rest.len(),
{
    if rest.len() > 0 {
        if ascii_alphanumeric(rest[0]) {
            let c = ascii_lower(rest[0]);
            lemma_lower_is_slug_char(rest[0]);
            let sep = if pending && acc.len() > 0 { seq!['-'] } else { Seq::<char>::empty() };
            let next = acc + sep + seq![c];
            assert forall|i: int| 0 <= i < next.len() implies slug_char(#[trigger] next[i]) by {
                if i < acc.len() {
                    assert(next[i] == acc[i]);
                }
            }
            assert forall|i: int| 0 <= i < next.len() - 1 implies !(#[trigger] next[i] == '-' && next[i + 1] == '-') by {
                if i < acc.len() - 1 {
                    assert(next[i] == acc[i] && next[i + 1] == acc[i + 1]);
                } else if i == acc.len() - 1 {
                    assert(next[i] == acc.last());
                }
            }
            if acc.len() > 0 {
                assert(next[0] == acc[0]);
            }
            assert(next.last() == c);
            lemma_slug_from_shaped(next, false, rest.drop_first());
        } else {
            lemma_slug_from_shaped(acc, true, rest.drop_first());
        }
    }
}

/// A slug is made of lowercase ASCII letters, digits and `-` only, never
/// starts or ends with `-`, and never holds two `-` in a row.
pub proof fn lemma_slug_shape(title: Seq<char>)
    ensures
        slug_shaped(slug_text(title)),
{
    lemma_slug_from_shaped(Seq::<char>::empty(), false, title);
}

} // verus!

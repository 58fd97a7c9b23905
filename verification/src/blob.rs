//! Facts about a file's contents and name: the language its extension
//! suggests, whether it looks binary, and a human-readable size.
use vstd::prelude::*;
use vstd::string::*;
use crate::text::{chars_of, sub_chars, string_from_chars, chars_equal, owned, push_char, push_decimal, push_signed_decimal, decimal, signed_decimal, digit_char};

verus! {

/// Index of the last occurrence of `c` in `s`, or -1 when there is none.
pub open spec fn last_index_of(s: Seq<char>, c: char) -> int
    decreases s.len(),
{
    if s.len() == 0 {
        -1
    } else if s.last() == c {
        s.len() - 1
    } else {
        last_index_of(s.drop_last(), c)
    }
}

/// The final name of a Unix path, as `Path::file_name` yields it: the last
/// `/`-separated segment, skipping empty segments and `.`; none when that
/// segment is `..` or when no segment remains.
pub open spec fn file_name(s: Seq<char>) -> Option<Seq<char>>
    decreases s.len(),
{
    let k = last_index_of(s, '/');
    let seg = s.subrange(k + 1, s.len() as int);
    if seg.len() == 0 || seg == seq!['.'] {
        if k < 0 {
            None
        } else {
            proof {
                lemma_last_index_bounds(s, '/');
            }
            file_name(s.subrange(0, k))
        }
    } else if seg == seq!['.', '.'] {
        None
    } else {
        Some(seg)
    }
}

/// The extension of a file name, as `Path::extension` yields it: the text
/// after the last `.`, unless there is no `.` or the only leading `.` makes
/// the name a hidden file.
pub open spec fn name_extension(name: Seq<char>) -> Option<Seq<char>> {
    let k = last_index_of(name, '.');
    if k <= 0 {
        None
    } else {
        Some(name.subrange(k + 1, name.len() as int))
    }
}

/// The extension of a Unix path (`Path::new(p).extension()`).
pub open spec fn path_extension(p: Seq<char>) -> Option<Seq<char>> {
    match file_name(p) {
        Some(name) => name_extension(name),
        None => None,
    }
}

/// The language name shown for a file extension.
pub open spec fn language_for_extension(e: Seq<char>) -> Option<Seq<char>> {
    if e == "rs"@ { Some("rust"@) }
    else if e == "py"@ { Some("python"@) }
    else if e == "js"@ { Some("javascript"@) }
    else if e == "ts"@ { Some("typescript"@) }
    else if e == "go"@ { Some("go"@) }
    else if e == "java"@ { Some("java"@) }
    else if e == "c"@ || e == "h"@ { Some("c"@) }
    else if e == "cpp"@ || e == "hpp"@ { Some("cpp"@) }
    else if e == "html"@ || e == "htm"@ { Some("html"@) }
    else if e == "css"@ { Some("css"@) }
    else if e == "json"@ { Some("json"@) }
    else if e == "xml"@ { Some("xml"@) }
    else if e == "yaml"@ || e == "yml"@ { Some("yaml"@) }
    else if e == "toml"@ { Some("toml"@) }
    else if e == "md"@ || e == "markdown"@ { Some("markdown"@) }
    else if e == "sh"@ || e == "bash"@ { Some("bash"@) }
    else if e == "sql"@ { Some("sql"@) }
    else { None }
}

/// The language of a path: that of its extension, where it has one
/// (a path without an extension is looked up as the empty extension).
pub open spec fn language_of_path(p: Seq<char>) -> Option<Seq<char>> {
    match path_extension(p) {
        Some(e) => language_for_extension(e),
        None => language_for_extension(Seq::empty()),
    }
}

fn last_index(cs: &Vec<char>, end: usize, c: char) -> (k: Option<usize>)
    requires
        end <= cs@.len(),
    ensures
        match k {
            Some(i) => i == last_index_of(cs@.subrange(0, end as int), c),
            None => last_index_of(cs@.subrange(0, end as int), c) == -1,
        },
    decreases end,
{
    if end == 0 {
        None
    } else if cs[end - 1] == c {
        Some(end - 1)
    } else {
        proof {
            assert(cs@.subrange(0, end as int).drop_last() =~= cs@.subrange(0, end - 1));
        }
        last_index(cs, end - 1, c)
    }
}

pub proof fn lemma_last_index_bounds(s: Seq<char>, c: char)
    ensures
        -1 <= last_index_of(s, c) < s.len(),
        last_index_of(s, c) >= 0 ==> s[last_index_of(s, c)] == c,
    decreases s.len(),
{
    if s.len() > 0 && s.last() != c {
        lemma_last_index_bounds(s.drop_last(), c);
    }
}

/// Bounds `[start, end)` of the file name within `cs[0..end0]`, if any.
fn file_name_bounds(cs: &Vec<char>, end0: usize) -> (r: Option<(usize, usize)>)
    requires
        end0 <= cs@.len(),
    ensures
        match r {
            Some((a, b)) => a <= b <= end0 && file_name(cs@.subrange(0, end0 as int))
                == Some(cs@.subrange(a as int, b as int)),
            None => file_name(cs@.subrange(0, end0 as int)) is None,
        },
    decreases end0,
{
    let ghost s = cs@.subrange(0, end0 as int);
    let found = last_index(cs, end0, '/');
    proof {
        lemma_last_index_bounds(s, '/');
    }
    let ghost k = last_index_of(s, '/');
    let start: usize = match found {
        Some(i) => i + 1,
        None => 0,
    };
    let len = end0 - start;
    let ghost seg = s.subrange(k + 1, s.len() as int);
    proof {
        assert(seg =~= cs@.subrange(start as int, end0 as int));
    }
    if len == 0 || (len == 1 && cs[start] == '.') {
        proof {
            assert(len == 1 && cs[start as int] == '.' ==> seg =~= seq!['.']);
        }
        match found {
            None => None,
            Some(i) => {
                proof {
                    assert(s.subrange(0, k) =~= cs@.subrange(0, i as int));
                }
                file_name_bounds(cs, i)
            }
        }
    } else if len == 2 && cs[start] == '.' && cs[start + 1] == '.' {
        proof {
            assert(seg =~= seq!['.', '.']);
        }
        None
    } else {
        proof {
            assert(seg != seq!['.']) by {
                if seg == seq!['.'] {
                    assert(seg.len() == 1);
                    assert(cs@[start as int] == seg[0]);
                }
            }
            assert(seg != seq!['.', '.']) by {
                if seg == seq!['.', '.'] {
                    assert(seg.len() == 2);
                    assert(cs@[start as int] == seg[0]);
                    assert(cs@[start + 1] == seg[1]);
                }
            }
        }
        Some((start, end0))
    }
}

/// The extension of a Unix path, as `Path::extension` computes it.
pub fn file_extension(path: &str) -> (r: Option<String>)
    ensures
        match path_extension(path@) {
            Some(e) => r is Some && r->0@ == e,
            None => r is None,
        },
{
    let cs = chars_of(path);
    proof {
        assert(cs@.subrange(0, cs@.len() as int) =~= cs@);
    }
    match file_name_bounds(&cs, cs.len()) {
        None => None,
        Some((a, b)) => {
            let name = sub_chars(&cs, a, b);
            let found = last_index(&name, name.len(), '.');
            proof {
                assert(name@.subrange(0, name@.len() as int) =~= name@);
                lemma_last_index_bounds(name@, '.');
            }
            match found {
                Some(k) if k > 0 => Some(string_from_chars(&name, k + 1, name.len())),
                _ => None,
            }
        }
    }
}

fn language_for_chars(e: &Vec<char>) -> (r: Option<String>)
    ensures
        match language_for_extension(e@) {
            Some(l) => r is Some && r->0@ == l,
            None => r is None,
        },
{
    if chars_equal(e, "rs") {
        return Some(owned("rust"));
    }
    if chars_equal(e, "py") {
        return Some(owned("python"));
    }
    if chars_equal(e, "js") {
        return Some(owned("javascript"));
    }
    if chars_equal(e, "ts") {
        return Some(owned("typescript"));
    }
    if chars_equal(e, "go") {
        return Some(owned("go"));
    }
    if chars_equal(e, "java") {
        return Some(owned("java"));
    }
    if chars_equal(e, "c") {
        return Some(owned("c"));
    }
    if chars_equal(e, "h") {
        return Some(owned("c"));
    }
    if chars_equal(e, "cpp") {
        return Some(owned("cpp"));
    }
    if chars_equal(e, "hpp") {
        return Some(owned("cpp"));
    }
    if chars_equal(e, "html") {
        return Some(owned("html"));
    }
    if chars_equal(e, "htm") {
        return Some(owned("html"));
    }
    if chars_equal(e, "css") {
        return Some(owned("css"));
    }
    if chars_equal(e, "json") {
        return Some(owned("json"));
    }
    if chars_equal(e, "xml") {
        return Some(owned("xml"));
    }
    if chars_equal(e, "yaml") {
        return Some(owned("yaml"));
    }
    if chars_equal(e, "yml") {
        return Some(owned("yaml"));
    }
    if chars_equal(e, "toml") {
        return Some(owned("toml"));
    }
    if chars_equal(e, "md") {
        return Some(owned("markdown"));
    }
    if chars_equal(e, "markdown") {
        return Some(owned("markdown"));
    }
    if chars_equal(e, "sh") {
        return Some(owned("bash"));
    }
    if chars_equal(e, "bash") {
        return Some(owned("bash"));
    }
    if chars_equal(e, "sql") {
        return Some(owned("sql"));
    }
    None
}

/// The language a file's extension suggests, or none.
pub fn detect_language(path: &str) -> (r: Option<String>)
    ensures
        match language_of_path(path@) {
            Some(l) => r is Some && r->0@ == l,
            None => r is None,
        },
{
    let ext = match file_extension(path) {
        Some(e) => chars_of(e.as_str()),
        None => Vec::new(),
    };
    proof {
        if path_extension(path@) is None {
            assert(ext@ =~= Seq::<char>::empty());
        }
    }
    language_for_chars(&ext)
}

/// Whether a NUL byte occurs among the first 8000 bytes.
pub open spec fn looks_binary(data: Seq<u8>) -> bool {
    exists|i: int| 0 <= i < data.len() && i < 8000 && data[i] == 0
}

/// Whether the content looks binary: a NUL byte among its first 8000 bytes.
pub fn is_binary(data: &[u8]) -> (b: bool)
    ensures
        b == looks_binary(data@),
{
    let n = data.len();
    let limit: usize = if n < 8000 { n } else { 8000 };
    let mut i: usize = 0;
    while i < limit
        invariant
            n == data@.len(),
            limit <= n,
            limit <= 8000,
            limit == n || limit == 8000,
            i <= limit,
            forall|j: int| 0 <= j < i ==> data@[j] != 0,
        decreases limit - i,
    {
        if data[i] == 0 {
            return true;
        }
        i = i + 1;
    }
    false
}

/// `n / d` rounded to the nearest integer, ties to the even neighbour.
pub open spec fn div_round_even(n: nat, d: nat) -> nat
    recommends
        d > 0,
{
    let q = n / d;
    let r = n % d;
    if 2 * r > d || (2 * r == d && q % 2 == 1) {
        q + 1
    } else {
        q
    }
}

/// Spacing of the double-precision floats in the binade that holds `b`
/// (for `b` below 2^64): 1 below 2^53, doubling with each binade above.
pub open spec fn f64_spacing(b: nat) -> nat {
    if b < 0x20_0000_0000_0000 { 1 }
    else if b < 0x40_0000_0000_0000 { 2 }
    else if b < 0x80_0000_0000_0000 { 4 }
    else if b < 0x100_0000_0000_0000 { 8 }
    else if b < 0x200_0000_0000_0000 { 16 }
    else if b < 0x400_0000_0000_0000 { 32 }
    else if b < 0x800_0000_0000_0000 { 64 }
    else if b < 0x1000_0000_0000_0000 { 128 }
    else if b < 0x2000_0000_0000_0000 { 256 }
    else if b < 0x4000_0000_0000_0000 { 512 }
    else if b < 0x8000_0000_0000_0000 { 1024 }
    else { 2048 }
}

/// The double nearest to a non-negative integer below 2^64, ties to even
/// (the value of `b as f64`).
pub open spec fn nearest_f64(b: nat) -> nat {
    div_round_even(b, f64_spacing(b)) * f64_spacing(b)
}

/// A tenths count rendered with one decimal place, such as `12.5`.
pub open spec fn tenths_text(q: nat) -> Seq<char> {
    decimal(q / 10) + seq!['.', digit_char(q % 10)]
}

/// The size label: bytes below 1 KiB as an integer, larger sizes in KB, MB
/// or GB with one decimal, as `{:.1}` renders the double `bytes / unit`
/// (rounded to the nearest tenth, ties to even; in the GB range `bytes` is
/// first rounded to a double).
pub open spec fn size_text(bytes: int) -> Seq<char> {
    if bytes < 1024 {
        signed_decimal(bytes) + " B"@
    } else if bytes < 1048576 {
        tenths_text(div_round_even((bytes * 10) as nat, 1024)) + " KB"@
    } else if bytes < 1073741824 {
        tenths_text(div_round_even((bytes * 10) as nat, 1048576)) + " MB"@
    } else {
        tenths_text(div_round_even(nearest_f64(bytes as nat) * 10, 1073741824)) + " GB"@
    }
}

fn round_even_div(n: u128, d: u128) -> (q: u128)
    requires
        0 < d < 0x1_0000_0000_0000_0000,
        n < 0x1_0000_0000_0000_0000_0000,
    ensures
        q == div_round_even(n as nat, d as nat),
{
    let q = n / d;
    let r = n % d;
    if 2 * r > d || (2 * r == d && q % 2 == 1) {
        q + 1
    } else {
        q
    }
}

fn push_tenths(out: &mut String, q: u128)
    requires
        q < 0x1_0000_0000_0000_0000,
    ensures
        final(out)@ == old(out)@ + tenths_text(q as nat),
{
    push_decimal(out, (q / 10) as u64);
    push_char(out, '.');
    let d = (q % 10) as u64;
    push_decimal(out, d);
    proof {
        assert(decimal(d as nat) =~= seq![digit_char(d as nat)]);
        assert(out@ =~= old(out)@ + tenths_text(q as nat));
    }
}

/// A human-readable size such as `512 B`, `1.5 KB` or `2.0 GB`.
pub fn format_size(bytes: i64) -> (s: String)
    ensures
        s@ == size_text(bytes as int),
{
    let mut s = String::new();
    if bytes < 1024 {
        push_signed_decimal(&mut s, bytes);
        s.append(" B");
    } else if bytes < 1048576 {
        let q = round_even_div((bytes as u128) * 10, 1024);
        push_tenths(&mut s, q);
        s.append(" KB");
    } else if bytes < 1073741824 {
        let q = round_even_div((bytes as u128) * 10, 1048576);
        push_tenths(&mut s, q);
        s.append(" MB");
    } else {
        let b = bytes as u128;
        let spacing: u128 = if b < 0x20_0000_0000_0000 { 1 }
            else if b < 0x40_0000_0000_0000 { 2 }
            else if b < 0x80_0000_0000_0000 { 4 }
            else if b < 0x100_0000_0000_0000 { 8 }
            else if b < 0x200_0000_0000_0000 { 16 }
            else if b < 0x400_0000_0000_0000 { 32 }
            else if b < 0x800_0000_0000_0000 { 64 }
            else if b < 0x1000_0000_0000_0000 { 128 }
            else if b < 0x2000_0000_0000_0000 { 256 }
            else if b < 0x4000_0000_0000_0000 { 512 }
            else { 1024 };
        let f = round_even_div(b, spacing) * spacing;
        assert(f <= b + spacing) by (nonlinear_arith)
            requires f == div_round_even(b as nat, spacing as nat) * spacing, spacing > 0;
        let q = round_even_div(f * 10, 1073741824);
        push_tenths(&mut s, q);
        s.append(" GB");
    }
    s
}

/// The language depends on the extension alone: two paths with the same
/// extension get the same language, wherever they lie.
pub proof fn lemma_language_by_extension(p: Seq<char>, q: Seq<char>)
    requires
        path_extension(p) == path_extension(q),
    ensures
        language_of_path(p) == language_of_path(q),
{
}

/// Only the first 8000 bytes decide whether content looks binary: content
/// that agrees on them gets the same verdict, whatever follows.
pub proof fn lemma_binary_prefix(a: Seq<u8>, b: Seq<u8>)
    requires
        a.len() >= 8000,
        b.len() >= 8000,
        a.subrange(0, 8000) == b.subrange(0, 8000),
    ensures
        looks_binary(a) == looks_binary(b),
{
    if looks_binary(a) {
        let i = choose|i: int| 0 <= i < a.len() && i < 8000 && a[i] == 0;
        assert(b[i] == a.subrange(0, 8000)[i]);
    }
    if looks_binary(b) {
        let i = choose|i: int| 0 <= i < b.len() && i < 8000 && b[i] == 0;
        assert(a[i] == b.subrange(0, 8000)[i]);
    }
}

/// Sizes below 1 KiB are shown as a count of bytes, larger ones in the unit
/// of their magnitude.
pub proof fn lemma_size_units(bytes: int)
    ensures
        bytes < 1024 ==> " B"@.is_suffix_of(size_text(bytes)),
        1024 <= bytes < 1048576 ==> " KB"@.is_suffix_of(size_text(bytes)),
        1048576 <= bytes < 1073741824 ==> " MB"@.is_suffix_of(size_text(bytes)),
        1073741824 <= bytes ==> " GB"@.is_suffix_of(size_text(bytes)),
{
    if bytes < 1024 {
        lemma_suffix_of_concat(signed_decimal(bytes), " B"@);
    } else if bytes < 1048576 {
        lemma_suffix_of_concat(tenths_text(div_round_even((bytes * 10) as nat, 1024)), " KB"@);
    } else if bytes < 1073741824 {
        lemma_suffix_of_concat(tenths_text(div_round_even((bytes * 10) as nat, 1048576)), " MB"@);
    } else {
        lemma_suffix_of_concat(tenths_text(div_round_even(nearest_f64(bytes as nat) * 10, 1073741824)), " GB"@);
    }
}

proof fn lemma_suffix_of_concat(a: Seq<char>, b: Seq<char>)
    ensures
        b.is_suffix_of(a + b),
{
    assert(b =~= (a + b).subrange(a.len() as int, (a + b).len() as int));
}

/// The extension table: a path whose extension is one of these gets the
/// language named beside it (`rs` is Rust, `go` is Go, `h` is C, `yml` is
/// YAML, `sh` is Bash, ...), and a path without an extension gets none.
pub proof fn lemma_language_table(p: Seq<char>)
    ensures
        path_extension(p) == Some("rs"@) ==> language_of_path(p) == Some("rust"@),
        path_extension(p) == Some("py"@) ==> language_of_path(p) == Some("python"@),
        path_extension(p) == Some("js"@) ==> language_of_path(p) == Some("javascript"@),
        path_extension(p) == Some("ts"@) ==> language_of_path(p) == Some("typescript"@),
        path_extension(p) == Some("go"@) ==> language_of_path(p) == Some("go"@),
        path_extension(p) == Some("java"@) ==> language_of_path(p) == Some("java"@),
        path_extension(p) == Some("c"@) ==> language_of_path(p) == Some("c"@),
        path_extension(p) == Some("h"@) ==> language_of_path(p) == Some("c"@),
        path_extension(p) == Some("cpp"@) ==> language_of_path(p) == Some("cpp"@),
        path_extension(p) == Some("hpp"@) ==> language_of_path(p) == Some("cpp"@),
        path_extension(p) == Some("html"@) ==> language_of_path(p) == Some("html"@),
        path_extension(p) == Some("htm"@) ==> language_of_path(p) == Some("html"@),
        path_extension(p) == Some("css"@) ==> language_of_path(p) == Some("css"@),
        path_extension(p) == Some("json"@) ==> language_of_path(p) == Some("json"@),
        path_extension(p) == Some("xml"@) ==> language_of_path(p) == Some("xml"@),
        path_extension(p) == Some("yaml"@) ==> language_of_path(p) == Some("yaml"@),
        path_extension(p) == Some("yml"@) ==> language_of_path(p) == Some("yaml"@),
        path_extension(p) == Some("toml"@) ==> language_of_path(p) == Some("toml"@),
        path_extension(p) == Some("md"@) ==> language_of_path(p) == Some("markdown"@),
        path_extension(p) == Some("markdown"@) ==> language_of_path(p) == Some("markdown"@),
        path_extension(p) == Some("sh"@) ==> language_of_path(p) == Some("bash"@),
        path_extension(p) == Some("bash"@) ==> language_of_path(p) == Some("bash"@),
        path_extension(p) == Some("sql"@) ==> language_of_path(p) == Some("sql"@),
        path_extension(p) is None ==> language_of_path(p) is None,
{
    reveal_strlit("bash");
    reveal_strlit("c");
    reveal_strlit("cpp");
    reveal_strlit("css");
    reveal_strlit("go");
    reveal_strlit("h");
    reveal_strlit("hpp");
    reveal_strlit("htm");
    reveal_strlit("html");
    reveal_strlit("java");
    reveal_strlit("js");
    reveal_strlit("json");
    reveal_strlit("markdown");
    reveal_strlit("md");
    reveal_strlit("py");
    reveal_strlit("rs");
    reveal_strlit("sh");
    reveal_strlit("sql");
    reveal_strlit("toml");
    reveal_strlit("ts");
    reveal_strlit("xml");
    reveal_strlit("yaml");
    reveal_strlit("yml");
    assert("rs"@.len() == 2);
    assert("py"@.len() == 2);
    assert("js"@.len() == 2);
    assert("ts"@.len() == 2);
    assert("go"@.len() == 2);
    assert("java"@.len() == 4);
    assert("c"@.len() == 1);
    assert("h"@.len() == 1);
    assert("cpp"@.len() == 3);
    assert("hpp"@.len() == 3);
    assert("html"@.len() == 4);
    assert("htm"@.len() == 3);
    assert("css"@.len() == 3);
    assert("json"@.len() == 4);
    assert("xml"@.len() == 3);
    assert("yaml"@.len() == 4);
    assert("yml"@.len() == 3);
    assert("toml"@.len() == 4);
    assert("md"@.len() == 2);
    assert("markdown"@.len() == 8);
    assert("sh"@.len() == 2);
    assert("bash"@.len() == 4);
    assert("sql"@.len() == 3);
    assert("py"@[0] != "rs"@[0]);
    assert("js"@[0] != "rs"@[0]);
    assert("js"@[0] != "py"@[0]);
    assert("ts"@[0] != "rs"@[0]);
    assert("ts"@[0] != "py"@[0]);
    assert("ts"@[0] != "js"@[0]);
    assert("go"@[0] != "rs"@[0]);
    assert("go"@[0] != "py"@[0]);
    assert("go"@[0] != "js"@[0]);
    assert("go"@[0] != "ts"@[0]);
    assert("h"@[0] != "c"@[0]);
    assert("hpp"@[0] != "cpp"@[0]);
    assert("html"@[0] != "java"@[0]);
    assert("htm"@[0] != "cpp"@[0]);
    assert("htm"@[1] != "hpp"@[1]);
    assert("css"@[1] != "cpp"@[1]);
    assert("css"@[0] != "hpp"@[0]);
    assert("css"@[0] != "htm"@[0]);
    assert("json"@[1] != "java"@[1]);
    assert("json"@[0] != "html"@[0]);
    assert("xml"@[0] != "cpp"@[0]);
    assert("xml"@[0] != "hpp"@[0]);
    assert("xml"@[0] != "htm"@[0]);
    assert("xml"@[0] != "css"@[0]);
    assert("yaml"@[0] != "java"@[0]);
    assert("yaml"@[0] != "html"@[0]);
    assert("yaml"@[0] != "json"@[0]);
    assert("yml"@[0] != "cpp"@[0]);
    assert("yml"@[0] != "hpp"@[0]);
    assert("yml"@[0] != "htm"@[0]);
    assert("yml"@[0] != "css"@[0]);
    assert("yml"@[0] != "xml"@[0]);
    assert("toml"@[0] != "java"@[0]);
    assert("toml"@[0] != "html"@[0]);
    assert("toml"@[0] != "json"@[0]);
    assert("toml"@[0] != "yaml"@[0]);
    assert("md"@[0] != "rs"@[0]);
    assert("md"@[0] != "py"@[0]);
    assert("md"@[0] != "js"@[0]);
    assert("md"@[0] != "ts"@[0]);
    assert("md"@[0] != "go"@[0]);
    assert("sh"@[0] != "rs"@[0]);
    assert("sh"@[0] != "py"@[0]);
    assert("sh"@[0] != "js"@[0]);
    assert("sh"@[0] != "ts"@[0]);
    assert("sh"@[0] != "go"@[0]);
    assert("sh"@[0] != "md"@[0]);
    assert("bash"@[0] != "java"@[0]);
    assert("bash"@[0] != "html"@[0]);
    assert("bash"@[0] != "json"@[0]);
    assert("bash"@[0] != "yaml"@[0]);
    assert("bash"@[0] != "toml"@[0]);
    assert("sql"@[0] != "cpp"@[0]);
    assert("sql"@[0] != "hpp"@[0]);
    assert("sql"@[0] != "htm"@[0]);
    assert("sql"@[0] != "css"@[0]);
    assert("sql"@[0] != "xml"@[0]);
    assert("sql"@[0] != "yml"@[0]);
    assert(language_for_extension("rs"@) == Some("rust"@));
    assert(language_for_extension("py"@) == Some("python"@));
    assert(language_for_extension("js"@) == Some("javascript"@));
    assert(language_for_extension("ts"@) == Some("typescript"@));
    assert(language_for_extension("go"@) == Some("go"@));
    assert(language_for_extension("java"@) == Some("java"@));
    assert(language_for_extension("c"@) == Some("c"@));
    assert(language_for_extension("h"@) == Some("c"@));
    assert(language_for_extension("cpp"@) == Some("cpp"@));
    assert(language_for_extension("hpp"@) == Some("cpp"@));
    assert(language_for_extension("html"@) == Some("html"@));
    assert(language_for_extension("htm"@) == Some("html"@));
    assert(language_for_extension("css"@) == Some("css"@));
    assert(language_for_extension("json"@) == Some("json"@));
    assert(language_for_extension("xml"@) == Some("xml"@));
    assert(language_for_extension("yaml"@) == Some("yaml"@));
    assert(language_for_extension("yml"@) == Some("yaml"@));
    assert(language_for_extension("toml"@) == Some("toml"@));
    assert(language_for_extension("md"@) == Some("markdown"@));
    assert(language_for_extension("markdown"@) == Some("markdown"@));
    assert(language_for_extension("sh"@) == Some("bash"@));
    assert(language_for_extension("bash"@) == Some("bash"@));
    assert(language_for_extension("sql"@) == Some("sql"@));
    assert(language_for_extension(Seq::<char>::empty()) is None);
}

} // verus!

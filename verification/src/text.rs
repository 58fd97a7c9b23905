//! Text building blocks: decimal and hexadecimal rendering, character
//! classes, and appending to strings.
use vstd::prelude::*;
use vstd::string::*;

verus! {

/// Appends one character to the end of a string.
/// Calls `String::push`, whose documentation says it appends the char.
#[verifier::external_body]
pub(crate) fn push_char(s: &mut String, c: char)
    ensures
        final(s)@ == old(s)@.push(c),
{
    s.push(c);
}

/// The lowercase form of a string (the result of `str::to_lowercase`).
pub uninterp spec fn lowercase(s: Seq<char>) -> Seq<char>;

/// The lowercase form of a string.
/// Calls `str::to_lowercase`; the claim is that the result is the named
/// function of the input.
#[verifier::external_body]
pub(crate) fn to_lowercase(s: &str) -> (r: String)
    ensures
        r@ == lowercase(s@),
{
    s.to_lowercase()
}

/// The ASCII digit for a value below ten.
pub open spec fn digit_char(d: nat) -> char {
    if d == 0 { '0' }
    else if d == 1 { '1' }
    else if d == 2 { '2' }
    else if d == 3 { '3' }
    else if d == 4 { '4' }
    else if d == 5 { '5' }
    else if d == 6 { '6' }
    else if d == 7 { '7' }
    else if d == 8 { '8' }
    else { '9' }
}

/// The lowercase hexadecimal digit for a value below sixteen.
pub open spec fn hex_digit_char(d: nat) -> char {
    if d < 10 { digit_char(d) }
    else if d == 10 { 'a' }
    else if d == 11 { 'b' }
    else if d == 12 { 'c' }
    else if d == 13 { 'd' }
    else if d == 14 { 'e' }
    else { 'f' }
}

/// Decimal notation of a natural number, without leading zeros.
pub open spec fn decimal(n: nat) -> Seq<char>
    decreases n,
{
    if n < 10 {
        seq![digit_char(n)]
    } else {
        decimal(n / 10).push(digit_char(n % 10))
    }
}

/// Decimal notation of an integer, with a leading '-' when negative.
pub open spec fn signed_decimal(n: int) -> Seq<char> {
    if n < 0 {
        seq!['-'] + decimal((-n) as nat)
    } else {
        decimal(n as nat)
    }
}

/// Lowercase hexadecimal notation of a natural number, without leading zeros.
pub open spec fn hex(n: nat) -> Seq<char>
    decreases n,
{
    if n < 16 {
        seq![hex_digit_char(n)]
    } else {
        hex(n / 16).push(hex_digit_char(n % 16))
    }
}

/// `n` copies of '0'.
pub open spec fn zeros(n: nat) -> Seq<char> {
    Seq::new(n, |i: int| '0')
}

/// Lowercase hexadecimal notation padded with zeros to at least four digits
/// (the `{:04x}` format).
pub open spec fn hex4(n: nat) -> Seq<char> {
    if hex(n).len() < 4 {
        zeros((4 - hex(n).len()) as nat) + hex(n)
    } else {
        hex(n)
    }
}

/// The value of a lowercase hexadecimal digit.
pub open spec fn hex_digit_value(c: char) -> int {
    if '0' <= c && c <= '9' {
        c as int - '0' as int
    } else {
        c as int - 'a' as int + 10
    }
}

/// The number a string of hexadecimal digits denotes.
pub open spec fn hex_value(s: Seq<char>) -> int
    decreases s.len(),
{
    if s.len() == 0 {
        0
    } else {
        hex_value(s.drop_last()) * 16 + hex_digit_value(s.last())
    }
}

/// A lowercase hexadecimal digit.
pub open spec fn is_hex_digit(c: char) -> bool {
    ('0' <= c && c <= '9') || ('a' <= c && c <= 'f')
}

/// A hex digit reads back as the value it was written for.
pub proof fn lemma_hex_digit(d: nat)
    requires
        d < 16,
    ensures
        hex_digit_value(hex_digit_char(d)) == d,
        is_hex_digit(hex_digit_char(d)),
{
}

/// Reading back the hex notation of a number gives the number; the digits
/// are lowercase hex digits, and below `16^k` there are at most `k`.
pub proof fn lemma_hex_roundtrip(n: nat)
    ensures
        hex_value(hex(n)) == n,
        hex(n).len() >= 1,
        forall|i: int| 0 <= i < hex(n).len() ==> is_hex_digit(#[trigger] hex(n)[i]),
        n < 16 ==> hex(n).len() == 1,
        n < 256 ==> hex(n).len() <= 2,
        n < 4096 ==> hex(n).len() <= 3,
        n < 65536 ==> hex(n).len() <= 4,
    decreases n,
{
    lemma_hex_digit(n % 16);
    if n < 16 {
        assert(hex(n).drop_last() =~= Seq::<char>::empty());
        assert(hex_value(Seq::<char>::empty()) == 0);
    } else {
        lemma_hex_roundtrip(n / 16);
        assert(hex(n).drop_last() =~= hex(n / 16));
        assert(n == (n / 16) * 16 + n % 16) by (nonlinear_arith);
        assert forall|i: int| 0 <= i < hex(n).len() implies is_hex_digit(#[trigger] hex(n)[i]) by {
            if i < hex(n).len() - 1 {
                assert(hex(n)[i] == hex(n / 16)[i]);
            }
        }
    }
}

/// Leading zeros do not change the value of a hex string.
pub proof fn lemma_hex_value_zeros(k: nat, s: Seq<char>)
    ensures
        hex_value(zeros(k) + s) == hex_value(s),
    decreases s.len(), k,
{
    if s.len() == 0 {
        assert(zeros(k) + s =~= zeros(k));
        if k > 0 {
            assert(zeros(k).drop_last() =~= zeros((k - 1) as nat));
            lemma_hex_value_zeros((k - 1) as nat, s);
            assert(zeros((k - 1) as nat) + s =~= zeros((k - 1) as nat));
        }
    } else {
        assert((zeros(k) + s).drop_last() =~= zeros(k) + s.drop_last());
        lemma_hex_value_zeros(k, s.drop_last());
    }
}

/// Below 65536, the padded notation has exactly four hex digits and reads
/// back as the number.
pub proof fn lemma_hex4_roundtrip(n: nat)
    requires
        n < 65536,
    ensures
        hex4(n).len() == 4,
        hex_value(hex4(n)) == n,
        forall|i: int| 0 <= i < 4 ==> is_hex_digit(#[trigger] hex4(n)[i]),
{
    lemma_hex_roundtrip(n);
    if hex(n).len() < 4 {
        lemma_hex_value_zeros((4 - hex(n).len()) as nat, hex(n));
        assert forall|i: int| 0 <= i < 4 implies is_hex_digit(#[trigger] hex4(n)[i]) by {
            let z = (4 - hex(n).len()) as int;
            if i < z {
                assert(hex4(n)[i] == '0');
            } else {
                assert(hex4(n)[i] == hex(n)[i - z]);
            }
        }
    }
}

fn digit(d: u64) -> (c: char)
    requires
        d < 16,
    ensures
        c == hex_digit_char(d as nat),
{
    match d {
        0 => '0',
        1 => '1',
        2 => '2',
        3 => '3',
        4 => '4',
        5 => '5',
        6 => '6',
        7 => '7',
        8 => '8',
        9 => '9',
        10 => 'a',
        11 => 'b',
        12 => 'c',
        13 => 'd',
        14 => 'e',
        _ => 'f',
    }
}

/// Appends the decimal notation of `n` to `out`.
pub fn push_decimal(out: &mut String, n: u64)
    ensures
        final(out)@ == old(out)@ + decimal(n as nat),
    decreases n,
{
    if n >= 10 {
        push_decimal(out, n / 10);
    }
    push_char(out, digit(n % 10));
    proof {
        assert(hex_digit_char((n % 10) as nat) == digit_char((n % 10) as nat));
    }
}

/// Appends the decimal notation of `n` to `out`, with '-' for negatives.
pub fn push_signed_decimal(out: &mut String, n: i64)
    ensures
        final(out)@ == old(out)@ + signed_decimal(n as int),
{
    if n < 0 {
        push_char(out, '-');
        let magnitude: u64 = if n == i64::MIN {
            9223372036854775808u64
        } else {
            (-n) as u64
        };
        push_decimal(out, magnitude);
    } else {
        push_decimal(out, n as u64);
    }
}

/// Appends the lowercase hexadecimal notation of `n` to `out`.
pub fn push_hex(out: &mut String, n: u64)
    ensures
        final(out)@ == old(out)@ + hex(n as nat),
    decreases n,
{
    if n >= 16 {
        push_hex(out, n / 16);
    }
    push_char(out, digit(n % 16));
}

/// Appends `n` in lowercase hexadecimal, zero-padded to four digits.
pub fn push_hex4(out: &mut String, n: u64)
    ensures
        final(out)@ == old(out)@ + hex4(n as nat),
{
    let mut digits = String::new();
    push_hex(&mut digits, n);
    let count = digits.as_str().unicode_len();
    let mut i = count;
    while i < 4
        invariant
            count <= i <= 4 || (count > 4 && i == count),
            count == hex(n as nat).len(),
            out@ == old(out)@ + zeros((i - count) as nat),
        decreases 4 - i,
    {
        push_char(out, '0');
        i = i + 1;
        proof {
            assert(zeros((i - count) as nat) =~= zeros((i - 1 - count) as nat).push('0'));
        }
    }
    out.append(digits.as_str());
    proof {
        if hex(n as nat).len() < 4 {
            assert(i == 4);
        } else {
            assert(zeros(0) =~= Seq::<char>::empty());
        }
        assert(out@ =~= old(out)@ + hex4(n as nat));
    }
}

/// The characters of a string slice, in order.
pub fn chars_of(s: &str) -> (v: Vec<char>)
    ensures
        v@ == s@,
{
    let n = s.unicode_len();
    let mut v: Vec<char> = Vec::new();
    let mut i: usize = 0;
    while i < n
        invariant
            n == s@.len(),
            i <= n,
            v@ == s@.subrange(0, i as int),
        decreases n - i,
    {
        v.push(s.get_char(i));
        i = i + 1;
        proof {
            assert(v@ =~= s@.subrange(0, i as int));
        }
    }
    proof {
        assert(s@.subrange(0, n as int) =~= s@);
    }
    v
}

/// A string holding the characters of `cs[from..to]`.
pub fn string_from_chars(cs: &Vec<char>, from: usize, to: usize) -> (s: String)
    requires
        from <= to <= cs@.len(),
    ensures
        s@ == cs@.subrange(from as int, to as int),
{
    let mut s = String::new();
    let mut i = from;
    while i < to
        invariant
            from <= i <= to <= cs@.len(),
            s@ == cs@.subrange(from as int, i as int),
        decreases to - i,
    {
        push_char(&mut s, cs[i]);
        i = i + 1;
        proof {
            assert(s@ =~= cs@.subrange(from as int, i as int));
        }
    }
    s
}

/// A copy of `cs[from..to]`.
pub fn sub_chars(cs: &Vec<char>, from: usize, to: usize) -> (r: Vec<char>)
    requires
        from <= to <= cs@.len(),
    ensures
        r@ == cs@.subrange(from as int, to as int),
{
    let mut r: Vec<char> = Vec::new();
    let mut i = from;
    while i < to
        invariant
            from <= i <= to <= cs@.len(),
            r@ == cs@.subrange(from as int, i as int),
        decreases to - i,
    {
        r.push(cs[i]);
        i = i + 1;
        proof {
            assert(r@ =~= cs@.subrange(from as int, i as int));
        }
    }
    r
}

/// Whether a character sequence spells exactly the given string slice.
pub fn chars_equal(cs: &Vec<char>, lit: &str) -> (b: bool)
    ensures
        b == (cs@ == lit@),
{
    let n = lit.unicode_len();
    if cs.len() != n {
        return false;
    }
    let mut i: usize = 0;
    while i < n
        invariant
            n == lit@.len(),
            cs@.len() == n,
            i <= n,
            forall|j: int| 0 <= j < i ==> cs@[j] == lit@[j],
        decreases n - i,
    {
        if cs[i] != lit.get_char(i) {
            return false;
        }
        i = i + 1;
    }
    proof {
        assert(cs@ =~= lit@);
    }
    true
}

/// Whether two string slices hold the same characters.
pub fn str_equal(a: &str, b: &str) -> (r: bool)
    ensures
        r == (a@ == b@),
{
    let cs = chars_of(a);
    chars_equal(&cs, b)
}

/// A new string with the contents of a string slice.
pub fn owned(s: &str) -> (r: String)
    ensures
        r@ == s@,
{
    String::from_str(s)
}

/// Whether a string ends with the given suffix.
pub fn ends_with(s: &str, suffix: &str) -> (b: bool)
    ensures
        b == suffix@.is_suffix_of(s@),
{
    let a = chars_of(s);
    let t = chars_of(suffix);
    if t.len() > a.len() {
        return false;
    }
    let off = a.len() - t.len();
    let mut i: usize = 0;
    while i < t.len()
        invariant
            a@ == s@,
            t@ == suffix@,
            off + t@.len() == a@.len(),
            a@.len() <= usize::MAX,
            i <= t@.len(),
            forall|j: int| 0 <= j < i ==> a@[off + j] == t@[j],
        decreases t@.len() - i,
    {
        if a[off + i] != t[i] {
            proof {
                assert(s@.subrange(off as int, s@.len() as int)[i as int] != suffix@[i as int]);
            }
            return false;
        }
        i = i + 1;
    }
    proof {
        assert(suffix@ =~= s@.subrange(off as int, s@.len() as int));
    }
    true
}

} // verus!

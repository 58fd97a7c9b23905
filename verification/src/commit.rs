//! Commit summaries: the first line of a message, abbreviated ids, how long
//! ago a commit was made, history pages and per-file change counts.
use vstd::prelude::*;
use vstd::string::*;
use crate::text::{chars_of, owned, push_signed_decimal, signed_decimal, string_from_chars};
use chrono::TimeZone;

verus! {

/// One changed file of a commit, with the insertion and deletion counts.
#[derive(Debug, Clone, PartialEq, Eq)]
pub struct FileChange {
    pub filename: String,
    pub additions: usize,
    pub deletions: usize,
}

/// A commit as git reports it: its id in hex, its time in seconds since the
/// Unix epoch, and the author and message where they are valid UTF-8.
#[derive(Debug, Clone, PartialEq, Eq)]
pub struct RawCommit {
    pub sha: String,
    pub time: i64,
    pub author_name: Option<String>,
    pub author_email: Option<String>,
    pub message: Option<String>,
}

/// A commit as the history page lists it.
#[derive(Debug, Clone, PartialEq, Eq)]
pub struct CommitInfo {
    pub sha: String,
    pub short_sha: String,
    pub message: String,
    pub author_name: String,
    pub author_email: String,
    pub timestamp: i64,
    pub formatted_time: String,
}

/// A commit as its own page shows it.
#[derive(Debug, Clone, PartialEq, Eq)]
pub struct CommitDetail {
    pub sha: String,
    pub short_sha: String,
    pub message: String,
    pub message_full: String,
    pub author_name: String,
    pub author_email: String,
    pub timestamp: i64,
    pub parent_shas: Vec<String>,
    pub files_changed: Vec<FileChange>,
}

/// Index of the first occurrence of `c` in `s`, or -1 when there is none.
pub open spec fn first_index_of(s: Seq<char>, c: char) -> int
    decreases s.len(),
{
    if s.len() == 0 {
        -1
    } else if s[0] == c {
        0
    } else {
        let k = first_index_of(s.drop_first(), c);
        if k < 0 { -1 } else { k + 1 }
    }
}

/// The first line of a text, as `str::lines().next()` gives it (empty for
/// an empty text): everything before the first `\n`, without a `\r` right
/// before that `\n`; the whole text when there is no `\n`.
pub open spec fn first_line_text(s: Seq<char>) -> Seq<char> {
    let k = first_index_of(s, '\n');
    if k < 0 {
        s
    } else if k > 0 && s[k - 1] == '\r' {
        s.subrange(0, k - 1)
    } else {
        s.subrange(0, k)
    }
}

proof fn lemma_first_index_bounds(s: Seq<char>, c: char)
    ensures
        -1 <= first_index_of(s, c) < s.len(),
        first_index_of(s, c) >= 0 ==> s[first_index_of(s, c)] == c,
        forall|i: int| 0 <= i < first_index_of(s, c) || (first_index_of(s, c) < 0 && 0 <= i < s.len()) ==> s[i] != c,
    decreases s.len(),
{
    if s.len() > 0 && s[0] != c {
        lemma_first_index_bounds(s.drop_first(), c);
        assert forall|i: int| 0 <= i < first_index_of(s, c) || (first_index_of(s, c) < 0 && 0 <= i < s.len()) implies s[i] != c by {
            if i > 0 {
                assert(s[i] == s.drop_first()[i - 1]);
            }
        }
    }
}

/// The first line of a text.
pub fn first_line(text: &str) -> (line: String)
    ensures
        line@ == first_line_text(text@),
{
    let cs = chars_of(text);
    let mut i: usize = 0;
    while i < cs.len()
        invariant
            cs@ == text@,
            i <= cs@.len(),
            forall|j: int| 0 <= j < i ==> cs@[j] != '\n',
        decreases cs@.len() - i,
    {
        if cs[i] == '\n' {
            proof {
                lemma_first_index_bounds(text@, '\n');
                let k = first_index_of(text@, '\n');
                assert(k == i as int) by {
                    if k < 0 || k > i {
                        assert(text@[i as int] != '\n');
                    }
                }
            }
            if i > 0 && cs[i - 1] == '\r' {
                return string_from_chars(&cs, 0, i - 1);
            } else {
                return string_from_chars(&cs, 0, i);
            }
        }
        i = i + 1;
    }
    proof {
        lemma_first_index_bounds(text@, '\n');
        let k = first_index_of(text@, '\n');
        if k >= 0 {
            assert(text@[k] == '\n');
        }
        assert(cs@.subrange(0, cs@.len() as int) =~= cs@);
    }
    string_from_chars(&cs, 0, cs.len())
}

/// The abbreviated id shown for a commit: its first eight characters.
pub fn short_sha(sha: &str) -> (s: String)
    requires
        sha@.len() >= 8,
    ensures
        s@ == sha@.subrange(0, 8),
{
    let cs = chars_of(sha);
    string_from_chars(&cs, 0, 8)
}

/// The first commit of history page `page` (counting from 1), with
/// `per_page` commits a page.
pub fn commit_skip(page: u32, per_page: u32) -> (skip: usize)
    requires
        page >= 1,
        (page - 1) * per_page <= u32::MAX,
    ensures
        skip == (page - 1) * per_page,
{
    ((page - 1) * per_page) as usize
}

/// History pages follow each other without gap or overlap: page `p + 1`
/// starts where page `p` ends.
pub proof fn lemma_pages_adjacent(page: nat, per_page: nat)
    requires
        page >= 1,
    ensures
        ((page + 1) - 1) * per_page == (page - 1) * per_page + per_page,
{
    assert(((page + 1) - 1) * per_page == (page - 1) * per_page + per_page) by (nonlinear_arith);
}

/// Integer division rounding toward zero, as Rust's `/` on signed integers.
pub open spec fn div_toward_zero(a: int, b: int) -> int
    recommends
        b > 0,
{
    if a >= 0 { a / b } else { -((-a) / b) }
}

/// Whole seconds from the instant `then` (whole seconds) to the instant
/// `now` (`now_secs` seconds and `now_nanos` nanoseconds), rounded toward
/// zero, as chrono's `(now - then).num_seconds()` counts them.
pub open spec fn elapsed_seconds(now_secs: int, now_nanos: int, then: int) -> int {
    let d = now_secs - then;
    if d < 0 && now_nanos > 0 { d + 1 } else { d }
}

/// How long ago something was, from the whole seconds elapsed: hours below
/// a day, days below thirty days, the calendar date otherwise.
pub open spec fn age_text(elapsed: int, date: Seq<char>) -> Seq<char> {
    let hours = div_toward_zero(elapsed, 3600);
    let days = div_toward_zero(elapsed, 86400);
    if hours < 24 {
        signed_decimal(hours) + " hours ago"@
    } else if days < 30 {
        signed_decimal(days) + " days ago"@
    } else {
        date
    }
}

/// The UTC calendar date of a Unix timestamp as `YYYY-MM-DD`, or none when
/// the timestamp is out of chrono's range (the result of
/// `Utc.timestamp_opt(ts, 0).single()` formatted with `%Y-%m-%d`).
pub uninterp spec fn utc_date_text(ts: int) -> Option<Seq<char>>;

/// The UTC calendar date of a Unix timestamp.
/// Calls `Utc.timestamp_opt(ts, 0).single()` and formats the date with
/// `%Y-%m-%d`; the claim is that the result is the named function of the
/// timestamp.
#[verifier::external_body]
fn utc_date(ts: i64) -> (d: Option<String>)
    ensures
        match utc_date_text(ts as int) {
            Some(t) => d is Some && d->0@ == t,
            None => d is None,
        },
{
    chrono::Utc.timestamp_opt(ts, 0).single().map(|dt| dt.format("%Y-%m-%d").to_string())
}

/// Whole seconds from `then` to now, given the current instant.
pub fn seconds_since(now_secs: i64, now_nanos: u32, then: i64) -> (e: i128)
    ensures
        e == elapsed_seconds(now_secs as int, now_nanos as int, then as int),
{
    let d = (now_secs as i128) - (then as i128);
    if d < 0 && now_nanos > 0 { d + 1 } else { d }
}

fn div_toward_zero_exec(a: i128, b: i128) -> (q: i128)
    requires
        b > 0,
        a > i128::MIN,
    ensures
        q == div_toward_zero(a as int, b as int),
{
    if a >= 0 { a / b } else { -((-a) / b) }
}

/// The age label of a commit, from the whole seconds elapsed since it and
/// its calendar date.
pub fn age_label(elapsed: i128, date: String) -> (label: String)
    requires
        -0x2_0000_0000_0000_0000 <= elapsed <= 0x2_0000_0000_0000_0000,
    ensures
        label@ == age_text(elapsed as int, date@),
{
    let hours = div_toward_zero_exec(elapsed, 3600);
    let days = div_toward_zero_exec(elapsed, 86400);
    if hours < 24 {
        let mut s = String::new();
        push_signed_decimal(&mut s, hours as i64);
        s.append(" hours ago");
        s
    } else if days < 30 {
        let mut s = String::new();
        push_signed_decimal(&mut s, days as i64);
        s.append(" days ago");
        s
    } else {
        date
    }
}

/// A commit's listing entry at the current instant, or none when its time
/// is out of range (such commits are left out of the history page). The
/// author defaults to `Unknown` with an empty email, the message to empty,
/// and only its first line is kept.
pub fn commit_info(raw: RawCommit, now_secs: i64, now_nanos: u32) -> (info: Option<CommitInfo>)
    requires
        raw.sha@.len() >= 8,
    ensures
        match utc_date_text(raw.time as int) {
            None => info is None,
            Some(date) => info matches Some(c) && {
                &&& c.sha == raw.sha
                &&& c.short_sha@ == raw.sha@.subrange(0, 8)
                &&& c.message@ == first_line_text(match raw.message { Some(m) => m@, None => Seq::empty() })
                &&& c.author_name@ == (match raw.author_name { Some(n) => n@, None => "Unknown"@ })
                &&& c.author_email@ == (match raw.author_email { Some(e) => e@, None => Seq::empty() })
                &&& c.timestamp == raw.time
                &&& c.formatted_time@ == age_text(elapsed_seconds(now_secs as int, now_nanos as int, raw.time as int), date)
            },
        },
{
    let date = match utc_date(raw.time) {
        Some(d) => d,
        None => return None,
    };
    let elapsed = seconds_since(now_secs, now_nanos, raw.time);
    let formatted_time = age_label(elapsed, date);
    let message = match &raw.message {
        Some(m) => first_line(m.as_str()),
        None => first_line(""),
    };
    proof {
        if raw.message is None {
            assert(""@.len() == 0) by { reveal_strlit(""); }
            assert(""@ =~= Seq::<char>::empty()) by { reveal_strlit(""); }
        }
    }
    let short = short_sha(raw.sha.as_str());
    Some(CommitInfo {
        sha: raw.sha,
        short_sha: short,
        message,
        author_name: match raw.author_name {
            Some(n) => n,
            None => owned("Unknown"),
        },
        author_email: match raw.author_email {
            Some(e) => e,
            None => String::new(),
        },
        timestamp: raw.time,
        formatted_time,
    })
}

/// The files a commit changed, as its page lists them: one entry for each of
/// the first `count` changes, named after the change's new path (empty past
/// the end of `names`), each carrying the totals of the whole diff.
pub fn file_changes(names: &Vec<String>, count: usize, insertions: usize, deletions: usize) -> (v: Vec<FileChange>)
    ensures
        v@.len() == count,
        forall|i: int| 0 <= i < count ==> {
            &&& (#[trigger] v@[i]).filename@ == (if i < names@.len() { names@[i]@ } else { Seq::<char>::empty() })
            &&& v@[i].additions == insertions
            &&& v@[i].deletions == deletions
        },
{
    let mut v: Vec<FileChange> = Vec::new();
    let mut i: usize = 0;
    while i < count
        invariant
            i <= count,
            v@.len() == i,
            forall|j: int| 0 <= j < i ==> {
                &&& (#[trigger] v@[j]).filename@ == (if j < names@.len() { names@[j]@ } else { Seq::<char>::empty() })
                &&& v@[j].additions == insertions
                &&& v@[j].deletions == deletions
            },
        decreases count - i,
    {
        let filename = if i < names.len() { names[i].clone() } else { String::new() };
        v.push(FileChange { filename, additions: insertions, deletions });
        i = i + 1;
    }
    v
}

/// A commit's own page: the first line and the full message, the author
/// (defaulting to `Unknown` with an empty email), its parents and changes.
/// A commit time out of the calendar's range is shown as the current time
/// `now_secs`.
pub fn commit_detail(raw: RawCommit, parent_shas: Vec<String>, files_changed: Vec<FileChange>, now_secs: i64) -> (d: CommitDetail)
    requires
        raw.sha@.len() >= 8,
    ensures
        d.sha == raw.sha,
        d.short_sha@ == raw.sha@.subrange(0, 8),
        d.message@ == first_line_text(match raw.message { Some(m) => m@, None => Seq::empty() }),
        d.message_full@ == (match raw.message { Some(m) => m@, None => Seq::empty() }),
        d.author_name@ == (match raw.author_name { Some(n) => n@, None => "Unknown"@ }),
        d.author_email@ == (match raw.author_email { Some(e) => e@, None => Seq::empty() }),
        d.timestamp == (if utc_date_text(raw.time as int) is Some { raw.time } else { now_secs }),
        d.parent_shas == parent_shas,
        d.files_changed == files_changed,
{
    let full = match raw.message {
        Some(m) => m,
        None => String::new(),
    };
    let message = first_line(full.as_str());
    let short = short_sha(raw.sha.as_str());
    let timestamp = match utc_date(raw.time) {
        Some(_) => raw.time,
        None => now_secs,
    };
    CommitDetail {
        sha: raw.sha,
        short_sha: short,
        message,
        message_full: full,
        author_name: match raw.author_name {
            Some(n) => n,
            None => owned("Unknown"),
        },
        author_email: match raw.author_email {
            Some(e) => e,
            None => String::new(),
        },
        timestamp,
        parent_shas,
        files_changed,
    }
}

} // verus!

use gitrust::commit::{
    age_label, commit_detail, commit_info, commit_skip, file_changes, first_line, seconds_since, short_sha,
    FileChange, RawCommit,
};
use gitrust::diff::{diff_file, diff_line, status_label, DeltaKind, DiffLine};

const SHA: &str = "0123456789abcdef0123456789abcdef01234567";

fn raw(time: i64, msg: Option<&str>, name: Option<&str>, email: Option<&str>) -> RawCommit {
    RawCommit {
        sha: SHA.to_string(),
        time,
        author_name: name.map(|s| s.to_string()),
        author_email: email.map(|s| s.to_string()),
        message: msg.map(|s| s.to_string()),
    }
}

#[test]
fn first_lines_match_str_lines() {
    for t in ["", "one", "one\ntwo", "one\r\ntwo", "\nrest", "a\r", "a\rb\nc", "\r\n", "x\n", "ü\n"] {
        assert_eq!(first_line(t), t.lines().next().unwrap_or(""), "{:?}", t);
    }
}

#[test]
fn short_ids_and_pages() {
    assert_eq!(short_sha(SHA), "01234567");
    assert_eq!(commit_skip(1, 20), 0);
    assert_eq!(commit_skip(2, 20), 20);
    assert_eq!(commit_skip(5, 30), 120);
    // consecutive pages meet
    assert_eq!(commit_skip(3, 20) + 20, commit_skip(4, 20));
}

#[test]
fn calendar_dates() {
    let far = 10_000_000_000i64;
    let date = |t: i64| commit_info(raw(t, None, None, None), far, 0).map(|c| c.formatted_time);
    assert_eq!(date(0), Some("1970-01-01".to_string()));
    assert_eq!(date(1_700_000_000), Some("2023-11-14".to_string()));
    assert_eq!(date(-86_400), Some("1969-12-31".to_string()));
    assert_eq!(date(i64::MAX), None);
}

#[test]
fn elapsed_seconds_round_toward_zero() {
    assert_eq!(seconds_since(100, 0, 40), 60);
    assert_eq!(seconds_since(100, 500, 40), 60);
    assert_eq!(seconds_since(100, 0, 160), -60);
    assert_eq!(seconds_since(100, 500, 160), -59);
}

#[test]
fn age_labels() {
    assert_eq!(age_label(0, "d".into()), "0 hours ago");
    assert_eq!(age_label(3599, "d".into()), "0 hours ago");
    assert_eq!(age_label(7200, "d".into()), "2 hours ago");
    assert_eq!(age_label(23 * 3600 + 59, "d".into()), "23 hours ago");
    assert_eq!(age_label(24 * 3600, "d".into()), "1 days ago");
    assert_eq!(age_label(29 * 86400 + 1, "d".into()), "29 days ago");
    assert_eq!(age_label(30 * 86400, "2020-01-01".into()), "2020-01-01");
    assert_eq!(age_label(-7200, "d".into()), "-2 hours ago");
    assert_eq!(age_label(-5000, "d".into()), "-1 hours ago");
}

#[test]
fn history_entries() {
    let now = 1_700_000_000i64;
    let c = commit_info(raw(now - 7200, Some("Fix bug\n\nDetails"), Some("Ann"), Some("ann@x.org")), now, 0).unwrap();
    assert_eq!(c.sha, SHA);
    assert_eq!(c.short_sha, "01234567");
    assert_eq!(c.message, "Fix bug");
    assert_eq!(c.author_name, "Ann");
    assert_eq!(c.author_email, "ann@x.org");
    assert_eq!(c.timestamp, now - 7200);
    assert_eq!(c.formatted_time, "2 hours ago");
    let d = commit_info(raw(0, None, None, None), now, 0).unwrap();
    assert_eq!(d.message, "");
    assert_eq!(d.author_name, "Unknown");
    assert_eq!(d.author_email, "");
    assert_eq!(d.formatted_time, "1970-01-01");
    assert!(commit_info(raw(i64::MAX, None, None, None), now, 0).is_none());
}

#[test]
fn commit_pages() {
    let files = file_changes(&vec!["a.rs".to_string(), "b.rs".to_string()], 3, 10, 4);
    assert_eq!(files, vec![
        FileChange { filename: "a.rs".into(), additions: 10, deletions: 4 },
        FileChange { filename: "b.rs".into(), additions: 10, deletions: 4 },
        FileChange { filename: "".into(), additions: 10, deletions: 4 },
    ]);
    assert!(file_changes(&Vec::new(), 0, 1, 1).is_empty());
    let d = commit_detail(raw(42, Some("Title\r\nBody"), None, Some("e@x")), vec!["p1".into()], files.clone(), 777);
    assert_eq!(d.message, "Title");
    assert_eq!(d.message_full, "Title\r\nBody");
    assert_eq!(d.author_name, "Unknown");
    assert_eq!(d.author_email, "e@x");
    assert_eq!(d.timestamp, 42);
    assert_eq!(d.parent_shas, vec!["p1".to_string()]);
    assert_eq!(d.files_changed, files);
    let e = commit_detail(raw(i64::MAX, None, None, None), Vec::new(), Vec::new(), 777);
    assert_eq!(e.timestamp, 777);
    assert_eq!(e.message_full, "");
}

#[test]
fn diff_pieces() {
    assert_eq!(status_label(&DeltaKind::Added), "added");
    assert_eq!(status_label(&DeltaKind::Deleted), "deleted");
    assert_eq!(status_label(&DeltaKind::Modified), "modified");
    assert_eq!(status_label(&DeltaKind::Renamed), "renamed");
    assert_eq!(status_label(&DeltaKind::Other), "unknown");
    assert_eq!(diff_line('+', None, Some(3), "x".into()),
        DiffLine { line_type: "add".into(), old_lineno: Some(0), new_lineno: Some(3), content: "x".into() });
    assert_eq!(diff_line('-', Some(2), None, "y".into()).line_type, "del");
    assert_eq!(diff_line(' ', Some(1), Some(1), "z".into()).line_type, "context");
    assert_eq!(diff_line('=', Some(1), Some(1), "z".into()).line_type, "context");
    let f = diff_file(None, Some("new.rs".into()), DeltaKind::Added, vec![]);
    assert_eq!(f.old_path, "");
    assert_eq!(f.new_path, "new.rs");
    assert_eq!(f.status, "added");
}

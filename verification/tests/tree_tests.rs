use gitrust::markdown::{render_markdown, render_optional};
use gitrust::tree::{
    entry_path, file_entry, find_readme, is_readme_name, is_root_path, list_tree, readme_html, sort_entries,
    EntryKind, FileEntry, TreeItem,
};

fn entry(name: &str, kind: &str) -> FileEntry {
    FileEntry { name: name.to_string(), path: name.to_string(), entry_type: kind.to_string(), size: None }
}

fn names(v: &[FileEntry]) -> Vec<String> {
    v.iter().map(|e| e.name.clone()).collect()
}

#[test]
fn entry_paths() {
    assert!(is_root_path(""));
    assert!(is_root_path("/"));
    assert!(!is_root_path("//"));
    assert!(!is_root_path("src"));
    assert_eq!(entry_path("", "a.rs"), "a.rs");
    assert_eq!(entry_path("/", "a.rs"), "a.rs");
    assert_eq!(entry_path("src", "a.rs"), "src/a.rs");
    assert_eq!(entry_path("src/", "a.rs"), "src/a.rs");
    assert_eq!(entry_path("src///", "a.rs"), "src/a.rs");
    assert_eq!(entry_path("//", "a.rs"), "/a.rs");
    assert_eq!(entry_path("a/b", "c"), "a/b/c");
}

#[test]
fn entries_by_kind() {
    let d = file_entry("src", "util".to_string(), EntryKind::Tree, Some(10));
    assert_eq!(d, FileEntry { name: "util".into(), path: "src/util".into(), entry_type: "directory".into(), size: None });
    let f = file_entry("", "main.rs".to_string(), EntryKind::Blob, Some(120));
    assert_eq!(f, FileEntry { name: "main.rs".into(), path: "main.rs".into(), entry_type: "file".into(), size: Some(120) });
    let f2 = file_entry("", "gone.rs".to_string(), EntryKind::Blob, None);
    assert_eq!(f2.size, None);
    let o = file_entry("x", "sub".to_string(), EntryKind::Other, Some(3));
    assert_eq!(o.entry_type, "unknown");
    assert_eq!(o.size, None);
}

#[test]
fn directories_first_then_names_ignoring_case() {
    let v = vec![
        entry("zeta.txt", "file"),
        entry("Beta", "directory"),
        entry("alpha.md", "file"),
        entry("src", "directory"),
        entry("README.md", "file"),
        entry("Cargo.toml", "file"),
    ];
    let s = sort_entries(v);
    assert_eq!(names(&s), vec!["Beta", "src", "alpha.md", "Cargo.toml", "README.md", "zeta.txt"]);
}

#[test]
fn sorting_keeps_equal_names_in_order_and_agrees_with_std() {
    let v = vec![
        FileEntry { name: "a".into(), path: "1".into(), entry_type: "file".into(), size: Some(1) },
        FileEntry { name: "A".into(), path: "2".into(), entry_type: "file".into(), size: Some(2) },
        FileEntry { name: "b".into(), path: "3".into(), entry_type: "directory".into(), size: None },
        FileEntry { name: "a".into(), path: "4".into(), entry_type: "file".into(), size: Some(3) },
    ];
    let s = sort_entries(v.clone());
    let paths: Vec<String> = s.iter().map(|e| e.path.clone()).collect();
    assert_eq!(paths, vec!["3", "1", "2", "4"]);
    let mut expected = v;
    expected.sort_by(|a, b| {
        if a.entry_type == b.entry_type {
            a.name.to_lowercase().cmp(&b.name.to_lowercase())
        } else if a.entry_type == "directory" {
            std::cmp::Ordering::Less
        } else {
            std::cmp::Ordering::Greater
        }
    });
    assert_eq!(s, expected);
}

#[test]
fn sorting_many_names_matches_std() {
    let raw = ["Ä", "a", "ä", "B", "_x", "-y", "0", "Z", "é", "E", "e", "bb", "b", "ba", "", "aa"];
    let mut v = Vec::new();
    for (i, n) in raw.iter().enumerate() {
        let kind = if i % 3 == 0 { "directory" } else { "file" };
        v.push(FileEntry { name: n.to_string(), path: i.to_string(), entry_type: kind.into(), size: None });
    }
    let s = sort_entries(v.clone());
    let mut expected = v;
    expected.sort_by(|a, b| {
        if a.entry_type == b.entry_type {
            a.name.to_lowercase().cmp(&b.name.to_lowercase())
        } else if a.entry_type == "directory" {
            std::cmp::Ordering::Less
        } else {
            std::cmp::Ordering::Greater
        }
    });
    assert_eq!(s, expected);
    assert!(sort_entries(Vec::new()).is_empty());
}

#[test]
fn listing_builds_and_sorts() {
    let items = vec![
        TreeItem { name: "lib.rs".into(), kind: EntryKind::Blob, blob_size: Some(42) },
        TreeItem { name: "bin".into(), kind: EntryKind::Tree, blob_size: None },
        TreeItem { name: "Build.rs".into(), kind: EntryKind::Blob, blob_size: Some(7) },
    ];
    let l = list_tree("src/", items);
    assert_eq!(l, vec![
        FileEntry { name: "bin".into(), path: "src/bin".into(), entry_type: "directory".into(), size: None },
        FileEntry { name: "Build.rs".into(), path: "src/Build.rs".into(), entry_type: "file".into(), size: Some(7) },
        FileEntry { name: "lib.rs".into(), path: "src/lib.rs".into(), entry_type: "file".into(), size: Some(42) },
    ]);
}

#[test]
fn readme_names() {
    for n in ["README.md", "readme.markdown", "Readme", "README.TXT"] {
        assert!(is_readme_name(n), "{}", n);
    }
    for n in ["README.rst", "readme.md.bak", "docs", "READ.me"] {
        assert!(!is_readme_name(n), "{}", n);
    }
}

#[test]
fn readme_is_first_match_in_listing_order() {
    let v = sort_entries(vec![
        entry("readme.txt", "file"),
        entry("README.md", "file"),
        entry("src", "directory"),
    ]);
    let i = find_readme(&v).unwrap();
    assert_eq!(v[i].name, "README.md");
    assert_eq!(find_readme(&vec![entry("main.rs", "file")]), None);
    assert_eq!(find_readme(&Vec::new()), None);
    // a directory with a README name is found like a file
    let w = vec![entry("README", "directory"), entry("readme.md", "file")];
    assert_eq!(find_readme(&w), Some(0));
}

#[test]
fn readme_html_by_kind() {
    assert_eq!(readme_html("README.txt", "plain <b>text</b>"), "<pre>plain <b>text</b></pre>");
    assert_eq!(readme_html("README", ""), "<pre></pre>");
    assert_eq!(readme_html("README.md", "hello *world*"), "<p>hello <em>world</em></p>\n");
    assert_eq!(readme_html("ReadMe.MARKDOWN", "hello *world*"), render_markdown("hello *world*"));
}

#[test]
fn markdown_renders_and_cleans() {
    assert_eq!(render_markdown("hello *world*"), "<p>hello <em>world</em></p>\n");
    assert_eq!(render_markdown("~~gone~~"), "<p><del>gone</del></p>\n");
    let html = render_markdown("<script>alert(1)</script>\n\nok");
    assert!(!html.contains("<script"));
    assert!(html.contains("<p>ok</p>"));
    let table = render_markdown("| a | b |\n|---|---|\n| 1 | 2 |\n");
    assert!(table.contains("<table>"));
    assert!(table.contains("<td>1</td>"));
    let code = render_markdown("```rust\nfn main() {}\n```\n");
    assert!(code.contains("<pre"));
    assert!(code.contains("main"));
    assert_eq!(render_markdown(""), "");
}

#[test]
fn optional_markdown() {
    assert_eq!(render_optional(&None), None);
    assert_eq!(render_optional(&Some("*x*".to_string())), Some("<p><em>x</em></p>\n".to_string()));
}

#[test]
fn sorted_form_does_not_depend_on_input_order() {
    let a = vec![
        entry("zeta", "file"),
        entry("Alpha", "file"),
        entry("docs", "directory"),
        entry("beta", "file"),
        entry("Assets", "directory"),
    ];
    let mut b = a.clone();
    b.reverse();
    let mut c = a.clone();
    c.rotate_left(2);
    let sa = sort_entries(a);
    assert_eq!(sa, sort_entries(b));
    assert_eq!(sa, sort_entries(c));
    assert_eq!(names(&sa), vec!["Assets", "docs", "Alpha", "beta", "zeta"]);
}

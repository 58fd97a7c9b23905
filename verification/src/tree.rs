//! Directory listings: entries, their paths, the listing order, and the
//! README shown on a repository's front page.
use vstd::prelude::*;
use vstd::string::*;
use vstd::utf8::encode_utf8;
use crate::markdown::{render_markdown, rendered_markdown};
use crate::text::{chars_of, ends_with, lowercase, owned, push_char, str_equal, string_from_chars, to_lowercase};

verus! {

broadcast use vstd::seq_lib::group_to_multiset_ensures;

/// An entry of a directory listing: its name, its path from the repository
/// root, `directory`, `file` or `unknown`, and its size for files.
#[derive(Debug, Clone, PartialEq, Eq)]
pub struct FileEntry {
    pub name: String,
    pub path: String,
    pub entry_type: String,
    pub size: Option<i64>,
}

/// What a tree entry points at in git.
#[derive(Debug, Clone, PartialEq, Eq)]
pub enum EntryKind {
    Tree,
    Blob,
    Other,
}

/// The label of an entry kind.
pub open spec fn entry_type_text(kind: EntryKind) -> Seq<char> {
    match kind {
        EntryKind::Tree => "directory"@,
        EntryKind::Blob => "file"@,
        EntryKind::Other => "unknown"@,
    }
}

/// A path with every trailing `/` removed (`trim_end_matches('/')`).
pub open spec fn trim_trailing_slashes(s: Seq<char>) -> Seq<char>
    decreases s.len(),
{
    if s.len() > 0 && s.last() == '/' {
        trim_trailing_slashes(s.drop_last())
    } else {
        s
    }
}

/// The path of an entry named `name` in directory `dir`: the name alone at
/// the root (`dir` empty or `/`), `dir` without trailing slashes, `/` and
/// the name elsewhere.
pub open spec fn entry_path_text(dir: Seq<char>, name: Seq<char>) -> Seq<char> {
    if dir.len() == 0 || dir == seq!['/'] {
        name
    } else {
        trim_trailing_slashes(dir) + seq!['/'] + name
    }
}

/// Whether a path names the repository root.
pub fn is_root_path(dir: &str) -> (b: bool)
    ensures
        b == (dir@.len() == 0 || dir@ == seq!['/']),
{
    let cs = chars_of(dir);
    proof {
        if cs@.len() == 1 && cs@[0] == '/' {
            assert(cs@ =~= seq!['/']);
        }
    }
    cs.len() == 0 || (cs.len() == 1 && cs[0] == '/')
}

/// The path of an entry named `name` listed in directory `dir`.
pub fn entry_path(dir: &str, name: &str) -> (p: String)
    ensures
        p@ == entry_path_text(dir@, name@),
{
    if is_root_path(dir) {
        return owned(name);
    }
    let cs = chars_of(dir);
    let mut end = cs.len();
    proof {
        assert(cs@.subrange(0, end as int) =~= cs@);
    }
    while end > 0 && cs[end - 1] == '/'
        invariant
            end <= cs@.len(),
            trim_trailing_slashes(cs@.subrange(0, end as int)) == trim_trailing_slashes(dir@),
            cs@ == dir@,
        decreases end,
    {
        proof {
            assert(cs@.subrange(0, end as int).drop_last() =~= cs@.subrange(0, end - 1));
        }
        end = end - 1;
    }
    let mut p = string_from_chars(&cs, 0, end);
    push_char(&mut p, '/');
    p.append(name);
    p
}

/// An entry listed in directory `dir`; only files carry a size, the one
/// looked up for them.
pub fn file_entry(dir: &str, name: String, kind: EntryKind, blob_size: Option<i64>) -> (e: FileEntry)
    ensures
        e.name == name,
        e.path@ == entry_path_text(dir@, name@),
        e.entry_type@ == entry_type_text(kind),
        e.size == (if kind is Blob { blob_size } else { None }),
{
    let path = entry_path(dir, name.as_str());
    let (entry_type, size) = match kind {
        EntryKind::Tree => (owned("directory"), None),
        EntryKind::Blob => (owned("file"), blob_size),
        EntryKind::Other => (owned("unknown"), None),
    };
    FileEntry { name, path, entry_type, size }
}

/// `a` is below `b` at position `k`: they agree before `k`, and there `a`
/// ends while `b` goes on, or `a` has the smaller byte.
pub open spec fn bytes_lt_at(a: Seq<u8>, b: Seq<u8>, k: int) -> bool {
    &&& 0 <= k <= a.len()
    &&& k <= b.len()
    &&& forall|j: int| 0 <= j < k ==> a[j] == b[j]
    &&& ((k == a.len() && k < b.len()) || (k < a.len() && k < b.len() && a[k] < b[k]))
}

/// Lexicographic order on byte strings (the order of `str` and `String`).
pub open spec fn bytes_lt(a: Seq<u8>, b: Seq<u8>) -> bool {
    exists|k: int| #[trigger] bytes_lt_at(a, b, k)
}

/// No byte string is below itself.
pub proof fn lemma_bytes_lt_irreflexive(a: Seq<u8>)
    ensures
        !bytes_lt(a, a),
{
}

/// Lexicographic order is transitive.
pub proof fn lemma_bytes_lt_transitive(a: Seq<u8>, b: Seq<u8>, c: Seq<u8>)
    requires
        bytes_lt(a, b),
        bytes_lt(b, c),
    ensures
        bytes_lt(a, c),
{
    let k1 = choose|k: int| #[trigger] bytes_lt_at(a, b, k);
    let k2 = choose|k: int| #[trigger] bytes_lt_at(b, c, k);
    if k1 < k2 {
        assert(bytes_lt_at(a, c, k1));
    } else if k2 < k1 {
        assert(bytes_lt_at(a, c, k2));
    } else {
        assert(bytes_lt_at(a, c, k1));
    }
}

/// Of two different byte strings one is below the other.
pub proof fn lemma_bytes_lt_total(a: Seq<u8>, b: Seq<u8>)
    requires
        a != b,
    ensures
        bytes_lt(a, b) || bytes_lt(b, a),
{
    if a.len() <= b.len() && (forall|j: int| 0 <= j < a.len() ==> a[j] == b[j]) {
        if a.len() == b.len() {
            assert(a =~= b);
        }
        assert(bytes_lt_at(a, b, a.len() as int));
    } else if b.len() <= a.len() && (forall|j: int| 0 <= j < b.len() ==> a[j] == b[j]) {
        if a.len() == b.len() {
            assert(a =~= b);
        }
        assert(bytes_lt_at(b, a, b.len() as int));
    } else {
        let k = choose|k: int| 0 <= k < a.len() && k < b.len() && a[k] != b[k] && (forall|j: int| 0 <= j < k ==> a[j] == b[j]);
        assert(exists|k: int| 0 <= k < a.len() && k < b.len() && a[k] != b[k]);
        lemma_first_difference(a, b);
        if a[k] < b[k] {
            assert(bytes_lt_at(a, b, k));
        } else {
            assert(bytes_lt_at(b, a, k));
        }
    }
}

/// Two byte strings that differ somewhere within both have a first such
/// position.
proof fn lemma_first_difference(a: Seq<u8>, b: Seq<u8>)
    requires
        exists|k: int| 0 <= k < a.len() && k < b.len() && a[k] != b[k],
    ensures
        exists|k: int| 0 <= k < a.len() && k < b.len() && a[k] != b[k] && (forall|j: int| 0 <= j < k ==> a[j] == b[j]),
    decreases a.len(),
{
    if a[0] != b[0] {
        assert(0 < a.len() && 0 < b.len() && a[0] != b[0] && (forall|j: int| 0 <= j < 0 ==> a[j] == b[j]));
    } else {
        let k0 = choose|k: int| 0 <= k < a.len() && k < b.len() && a[k] != b[k];
        assert(a.drop_first()[k0 - 1] == a[k0] && b.drop_first()[k0 - 1] == b[k0]);
        lemma_first_difference(a.drop_first(), b.drop_first());
        let k = choose|k: int| 0 <= k < a.drop_first().len() && k < b.drop_first().len()
            && a.drop_first()[k] != b.drop_first()[k]
            && (forall|j: int| 0 <= j < k ==> a.drop_first()[j] == b.drop_first()[j]);
        assert forall|j: int| 0 <= j < k + 1 implies a[j] == b[j] by {
            if j > 0 {
                assert(a[j] == a.drop_first()[j - 1]);
                assert(b[j] == b.drop_first()[j - 1]);
            }
        }
        assert(a[k + 1] == a.drop_first()[k]);
        assert(b[k + 1] == b.drop_first()[k]);
    }
}

/// The listing rank of an entry: directories first, everything else after.
pub open spec fn entry_rank(e: FileEntry) -> int {
    if e.entry_type@ == "directory"@ { 0 } else { 1 }
}

/// The sort key of an entry's name: the bytes of its lowercase form.
pub open spec fn name_key(e: FileEntry) -> Seq<u8> {
    encode_utf8(lowercase(e.name@))
}

/// `a` is listed strictly before `b`: a directory before anything else,
/// otherwise by lowercase name.
pub open spec fn listed_before(a: FileEntry, b: FileEntry) -> bool {
    entry_rank(a) < entry_rank(b) || (entry_rank(a) == entry_rank(b) && bytes_lt(name_key(a), name_key(b)))
}

/// Entries in listing order: no entry is listed before one ahead of it.
pub open spec fn in_listing_order(s: Seq<FileEntry>) -> bool {
    forall|i: int, j: int| 0 <= i < j < s.len() ==> !listed_before(#[trigger] s[j], #[trigger] s[i])
}

proof fn lemma_listed_before_transitive(a: FileEntry, b: FileEntry, c: FileEntry)
    requires
        listed_before(a, b),
        listed_before(b, c),
    ensures
        listed_before(a, c),
{
    if entry_rank(a) == entry_rank(b) && entry_rank(b) == entry_rank(c) {
        lemma_bytes_lt_transitive(name_key(a), name_key(b), name_key(c));
    }
}

/// Two entries take the same place in a listing: the same rank and the same
/// lowercase name.
pub open spec fn same_place(a: FileEntry, b: FileEntry) -> bool {
    entry_rank(a) == entry_rank(b) && name_key(a) == name_key(b)
}

/// The entries of `s` that take the same place as `e`, in their order in `s`.
pub open spec fn peers(s: Seq<FileEntry>, e: FileEntry) -> Seq<FileEntry> {
    s.filter(|x: FileEntry| same_place(x, e))
}

/// An entry listed before another is listed before any third one, unless
/// that third one is listed before the other.
proof fn lemma_listed_before_weak(a: FileEntry, b: FileEntry, c: FileEntry)
    requires
        listed_before(a, b),
    ensures
        listed_before(a, c) || listed_before(c, b),
{
    if entry_rank(a) == entry_rank(b) && entry_rank(c) == entry_rank(a) {
        if name_key(c) != name_key(a) {
            lemma_bytes_lt_total(name_key(a), name_key(c));
            if bytes_lt(name_key(c), name_key(a)) {
                lemma_bytes_lt_transitive(name_key(c), name_key(a), name_key(b));
            }
        }
    }
}

/// Entries that take the same place are listed before one another in
/// neither direction.
proof fn lemma_same_place_unordered(a: FileEntry, b: FileEntry)
    requires
        same_place(a, b),
    ensures
        !listed_before(a, b),
        !listed_before(b, a),
{
    lemma_bytes_lt_irreflexive(name_key(a));
}

proof fn lemma_filter_none(s: Seq<FileEntry>, pred: spec_fn(FileEntry) -> bool)
    requires
        forall|i: int| 0 <= i < s.len() ==> !pred(#[trigger] s[i]),
    ensures
        s.filter(pred) == Seq::<FileEntry>::empty(),
    decreases s.len(),
{
    reveal(Seq::filter);
    if s.len() > 0 {
        lemma_filter_none(s.drop_last(), pred);
    }
}

/// Inserting an entry in front of all those listed after it leaves the
/// order of its peers as it was, with it last among them.
proof fn lemma_insert_keeps_peers(s: Seq<FileEntry>, x: FileEntry, p: int, e: FileEntry)
    requires
        0 <= p <= s.len(),
        forall|i: int| p <= i < s.len() ==> listed_before(x, #[trigger] s[i]),
    ensures
        peers(s.insert(p, x), e) == (if same_place(x, e) { peers(s, e).push(x) } else { peers(s, e) }),
{
    let pred = |y: FileEntry| same_place(y, e);
    let front = s.subrange(0, p);
    let back = s.subrange(p, s.len() as int);
    assert(s =~= front + back);
    assert(s.insert(p, x) =~= front.push(x) + back);
    Seq::filter_distributes_over_add(front, back, pred);
    Seq::filter_distributes_over_add(front.push(x), back, pred);
    front.lemma_filter_push(x, pred);
    if same_place(x, e) {
        assert forall|i: int| 0 <= i < back.len() implies !pred(#[trigger] back[i]) by {
            assert(back[i] == s[p + i]);
            assert(listed_before(x, s[p + i]));
            if same_place(back[i], e) {
                assert(same_place(x, back[i]));
                lemma_same_place_unordered(x, back[i]);
            }
        }
        lemma_filter_none(back, pred);
        assert(back.filter(pred) + Seq::<FileEntry>::empty() =~= back.filter(pred));
        assert(front.filter(pred).push(x) + back.filter(pred) =~= front.filter(pred).push(x));
        assert(front.filter(pred) + back.filter(pred) =~= front.filter(pred));
    }
}

/// Whether byte string `a` is below `b`.
fn bytes_less(a: &[u8], b: &[u8]) -> (r: bool)
    ensures
        r == bytes_lt(a@, b@),
{
    let mut i: usize = 0;
    while i < a.len() && i < b.len()
        invariant
            i <= a@.len(),
            i <= b@.len(),
            forall|j: int| 0 <= j < i ==> a@[j] == b@[j],
        decreases a@.len() - i,
    {
        if a[i] != b[i] {
            if a[i] < b[i] {
                assert(bytes_lt_at(a@, b@, i as int));
                return true;
            } else {
                proof {
                    assert(bytes_lt_at(b@, a@, i as int));
                    if bytes_lt(a@, b@) {
                        lemma_bytes_lt_transitive(a@, b@, a@);
                    }
                }
                return false;
            }
        }
        i = i + 1;
    }
    if i == a.len() && i < b.len() {
        assert(bytes_lt_at(a@, b@, i as int));
        true
    } else {
        proof {
            if bytes_lt(a@, b@) {
                let k = choose|k: int| #[trigger] bytes_lt_at(a@, b@, k);
                if k < i {
                    assert(a@[k] == b@[k]);
                }
            }
        }
        false
    }
}

/// Whether the first entry, with the given lowercase name, is listed
/// strictly before the second.
fn entry_listed_before(a: &FileEntry, a_lower: &String, b: &FileEntry, b_lower: &String) -> (r: bool)
    requires
        a_lower@ == lowercase(a.name@),
        b_lower@ == lowercase(b.name@),
    ensures
        r == listed_before(*a, *b),
{
    let ra: u8 = if str_equal(a.entry_type.as_str(), "directory") { 0 } else { 1 };
    let rb: u8 = if str_equal(b.entry_type.as_str(), "directory") { 0 } else { 1 };
    if ra != rb {
        ra < rb
    } else {
        bytes_less(a_lower.as_str().as_bytes(), b_lower.as_str().as_bytes())
    }
}

/// Sorts a directory listing: directories first, then by name compared in
/// lowercase. Entries that compare equal keep their relative order.
pub fn sort_entries(entries: Vec<FileEntry>) -> (sorted: Vec<FileEntry>)
    ensures
        sorted_form(sorted@, entries@),
{
    let ghost input = entries@;
    let mut rest = entries;
    let mut out: Vec<FileEntry> = Vec::new();
    let mut keys: Vec<String> = Vec::new();
    let n = rest.len();
    let mut k: usize = 0;
    while k < n
        invariant
            n == input.len(),
            k <= n,
            rest@ == input.subrange(k as int, n as int),
            out@.to_multiset() == input.subrange(0, k as int).to_multiset(),
            keys@.len() == out@.len(),
            forall|i: int| 0 <= i < out@.len() ==> (#[trigger] keys@[i])@ == lowercase(out@[i].name@),
            in_listing_order(out@),
            forall|e: FileEntry| #[trigger] peers(out@, e) == peers(input.subrange(0, k as int), e),
        decreases n - k,
    {
        let e = rest.remove(0);
        let key = to_lowercase(e.name.as_str());
        let mut p: usize = 0;
        while p < out.len() && !entry_listed_before(&e, &key, &out[p], &keys[p])
            invariant
                p <= out@.len(),
                keys@.len() == out@.len(),
                forall|i: int| 0 <= i < out@.len() ==> (#[trigger] keys@[i])@ == lowercase(out@[i].name@),
                key@ == lowercase(e.name@),
                forall|i: int| 0 <= i < p ==> !listed_before(e, #[trigger] out@[i]),
            decreases out@.len() - p,
        {
            p = p + 1;
        }
        let ghost old_out = out@;
        let ghost old_keys = keys@;
        proof {
            assert forall|i: int, j: int| 0 <= i < j < old_out.len() + 1 implies
                !listed_before(#[trigger] old_out.insert(p as int, e)[j], #[trigger] old_out.insert(p as int, e)[i]) by {
                let s = old_out.insert(p as int, e);
                if i < p && j == p {
                    assert(s[j] == e && s[i] == old_out[i]);
                } else if i == p {
                    assert(s[i] == e && s[j] == old_out[j - 1]);
                    assert(listed_before(e, old_out[p as int]));
                    if listed_before(old_out[j - 1], e) {
                        lemma_listed_before_transitive(old_out[j - 1], e, old_out[p as int]);
                        if j - 1 == p {
                            lemma_bytes_lt_irreflexive(name_key(old_out[p as int]));
                        }
                    }
                } else if j < p {
                    assert(s[i] == old_out[i] && s[j] == old_out[j]);
                } else if i < p {
                    assert(s[i] == old_out[i] && s[j] == old_out[j - 1]);
                } else {
                    assert(s[i] == old_out[i - 1] && s[j] == old_out[j - 1]);
                }
            }
            assert forall|i: int| p <= i < old_out.len() implies listed_before(e, #[trigger] old_out[i]) by {
                if i > p {
                    assert(!listed_before(old_out[i], old_out[p as int]));
                    lemma_listed_before_weak(e, old_out[p as int], old_out[i]);
                }
            }
            assert(input.subrange(0, k + 1) =~= input.subrange(0, k as int).push(e));
            assert forall|x: FileEntry| #[trigger] peers(old_out.insert(p as int, e), x) == peers(input.subrange(0, k + 1), x) by {
                lemma_insert_keeps_peers(old_out, e, p as int, x);
                input.subrange(0, k as int).lemma_filter_push(e, |y: FileEntry| same_place(y, x));
            }
        }
        out.insert(p, e);
        keys.insert(p, key);
        proof {
            assert(input.subrange(0, k + 1) =~= input.subrange(0, k as int).push(input[k as int]));
            assert(rest@ =~= input.subrange(k + 1, n as int));
            assert forall|i: int| 0 <= i < out@.len() implies (#[trigger] keys@[i])@ == lowercase(out@[i].name@) by {
                if i > p {
                    assert(keys@[i] == old_keys[i - 1]);
                }
            }
        }
        k = k + 1;
    }
    proof {
        assert(input.subrange(0, n as int) =~= input);
    }
    out
}

/// What git tells of one entry of a tree: its name, what it points at, and
/// for a blob the size that could be looked up.
#[derive(Debug, Clone, PartialEq, Eq)]
pub struct TreeItem {
    pub name: String,
    pub kind: EntryKind,
    pub blob_size: Option<i64>,
}

/// `e` is the listing entry of `item` in directory `dir`.
pub open spec fn entry_of(e: FileEntry, dir: Seq<char>, item: TreeItem) -> bool {
    &&& e.name@ == item.name@
    &&& e.path@ == entry_path_text(dir, item.name@)
    &&& e.entry_type@ == entry_type_text(item.kind)
    &&& e.size == (if item.kind is Blob { item.blob_size } else { None })
}

/// `built` holds, in order, the listing entries of `items` in `dir`.
pub open spec fn entries_of(built: Seq<FileEntry>, dir: Seq<char>, items: Seq<TreeItem>) -> bool {
    &&& built.len() == items.len()
    &&& forall|i: int| 0 <= i < items.len() ==> entry_of(#[trigger] built[i], dir, items[i])
}

/// `r` is the sorted form of `built`: the same entries, each as often, in
/// listing order, with entries that take the same place in their order in
/// `built`.
pub open spec fn sorted_form(r: Seq<FileEntry>, built: Seq<FileEntry>) -> bool {
    &&& in_listing_order(r)
    &&& r.to_multiset() == built.to_multiset()
    &&& forall|e: FileEntry| #[trigger] peers(r, e) == peers(built, e)
}

/// `r` is the listing of `items` in `dir`: their entries, each once, in
/// listing order; entries that take the same place keep the order of
/// `items`.
pub open spec fn listing_of(r: Seq<FileEntry>, dir: Seq<char>, items: Seq<TreeItem>) -> bool {
    exists|built: Seq<FileEntry>| entries_of(built, dir, items) && #[trigger] sorted_form(r, built)
}

/// The listing of directory `dir` from the entries git holds for it:
/// directories first, then by lowercase name.
pub fn list_tree(dir: &str, items: Vec<TreeItem>) -> (r: Vec<FileEntry>)
    ensures
        listing_of(r@, dir@, items@),
{
    let ghost input = items@;
    let n = items.len();
    let mut rest = items;
    let mut built: Vec<FileEntry> = Vec::new();
    let mut k: usize = 0;
    while k < n
        invariant
            n == input.len(),
            k <= n,
            rest@ == input.subrange(k as int, n as int),
            built@.len() == k,
            forall|i: int| 0 <= i < k ==> entry_of(#[trigger] built@[i], dir@, input[i]),
        decreases n - k,
    {
        let item = rest.remove(0);
        proof {
            assert(item == input[k as int]);
        }
        let e = file_entry(dir, item.name, item.kind, item.blob_size);
        built.push(e);
        proof {
            assert(rest@ =~= input.subrange(k + 1, n as int));
        }
        k = k + 1;
    }
    let ghost b = built@;
    let r = sort_entries(built);
    proof {
        assert(entries_of(b, dir@, input));
    }
    r
}

/// A README file name, in any case: `readme.md`, `readme.markdown`,
/// `readme` or `readme.txt`.
pub open spec fn readme_name(name: Seq<char>) -> bool {
    let l = lowercase(name);
    l == "readme.md"@ || l == "readme.markdown"@ || l == "readme"@ || l == "readme.txt"@
}

/// Whether a file name is that of a README.
pub fn is_readme_name(name: &str) -> (b: bool)
    ensures
        b == readme_name(name@),
{
    let l = to_lowercase(name);
    let l = l.as_str();
    str_equal(l, "readme.md") || str_equal(l, "readme.markdown") || str_equal(l, "readme")
        || str_equal(l, "readme.txt")
}

/// The README of a listing: the first entry, in listing order, with a
/// README name.
pub fn find_readme(entries: &Vec<FileEntry>) -> (r: Option<usize>)
    ensures
        match r {
            Some(i) => i < entries@.len() && readme_name(entries@[i as int].name@)
                && forall|j: int| 0 <= j < i ==> !readme_name(#[trigger] entries@[j].name@),
            None => forall|j: int| 0 <= j < entries@.len() ==> !readme_name(#[trigger] entries@[j].name@),
        },
{
    let mut i: usize = 0;
    while i < entries.len()
        invariant
            i <= entries@.len(),
            forall|j: int| 0 <= j < i ==> !readme_name(#[trigger] entries@[j].name@),
        decreases entries@.len() - i,
    {
        if is_readme_name(entries[i].name.as_str()) {
            return Some(i);
        }
        i = i + 1;
    }
    None
}

/// A README rendered as Markdown: its lowercase name ends in `.md` or
/// `.markdown`.
pub open spec fn markdown_readme(name: Seq<char>) -> bool {
    ".md"@.is_suffix_of(lowercase(name)) || ".markdown"@.is_suffix_of(lowercase(name))
}

/// The HTML shown for a README: Markdown rendered, any other text inside
/// `<pre>` as it stands.
pub open spec fn readme_html_text(name: Seq<char>, content: Seq<char>) -> Seq<char> {
    if markdown_readme(name) {
        rendered_markdown(content)
    } else {
        "<pre>"@ + content + "</pre>"@
    }
}

/// The HTML shown on a repository's front page for its README.
pub fn readme_html(name: &str, content: &str) -> (html: String)
    ensures
        html@ == readme_html_text(name@, content@),
{
    let l = to_lowercase(name);
    if ends_with(l.as_str(), ".md") || ends_with(l.as_str(), ".markdown") {
        render_markdown(content)
    } else {
        let mut html = owned("<pre>");
        html.append(content);
        html.append("</pre>");
        html
    }
}

/// In a listing, every directory comes before every entry that is not one.
pub proof fn lemma_directories_first(s: Seq<FileEntry>, i: int, j: int)
    requires
        in_listing_order(s),
        0 <= i < j < s.len(),
        s[j].entry_type@ == "directory"@,
    ensures
        s[i].entry_type@ == "directory"@,
{
    if s[i].entry_type@ != "directory"@ {
        assert(listed_before(s[j], s[i]));
    }
}

/// Entries listed before one another in neither direction take the same
/// place.
proof fn lemma_unordered_same_place(a: FileEntry, b: FileEntry)
    requires
        !listed_before(a, b),
        !listed_before(b, a),
    ensures
        same_place(a, b),
{
    if name_key(a) != name_key(b) {
        lemma_bytes_lt_total(name_key(a), name_key(b));
    }
}

/// A listing is fully determined by what it holds: two sequences in
/// listing order with the same entries, as often each, and the same order
/// among entries that take the same place, are equal. So the sorted form of
/// a listing is unique.
pub proof fn lemma_sorted_form_unique(a: Seq<FileEntry>, b: Seq<FileEntry>, built: Seq<FileEntry>)
    requires
        sorted_form(a, built),
        sorted_form(b, built),
    ensures
        a == b,
{
    lemma_listing_determined(a, b);
}

proof fn lemma_listing_determined(a: Seq<FileEntry>, b: Seq<FileEntry>)
    requires
        in_listing_order(a),
        in_listing_order(b),
        a.to_multiset() == b.to_multiset(),
        forall|e: FileEntry| #[trigger] peers(a, e) == peers(b, e),
    ensures
        a == b,
    decreases a.len(),
{
    if a.len() == 0 {
        assert(b.to_multiset().len() == 0);
        assert(b =~= a);
        return;
    }
    if b.len() == 0 {
        assert(a.to_multiset().len() == 0);
        assert(false);
    }
    let x = a.last();
    let y = b.last();
    let a1 = a.drop_last();
    let b1 = b.drop_last();
    assert(a =~= a1.push(x));
    assert(b =~= b1.push(y));
    // the last entries take the same place
    assert(a.to_multiset().count(x) > 0);
    assert(b.contains(x));
    let j = choose|j: int| 0 <= j < b.len() && b[j] == x;
    if j < b.len() - 1 {
        assert(!listed_before(b[b.len() - 1], b[j]));
    }
    assert(!listed_before(y, x));
    assert(b.to_multiset().count(y) > 0);
    assert(a.contains(y));
    let i = choose|i: int| 0 <= i < a.len() && a[i] == y;
    if i < a.len() - 1 {
        assert(!listed_before(a[a.len() - 1], a[i]));
    }
    assert(!listed_before(x, y));
    lemma_unordered_same_place(x, y);
    // so they are the last peer of `x` in both, hence equal
    let px = |z: FileEntry| same_place(z, x);
    a1.lemma_filter_push(x, px);
    b1.lemma_filter_push(y, px);
    assert(peers(a, x) == peers(a1, x).push(x));
    assert(peers(b, x) == peers(b1, x).push(y));
    assert(peers(a, x).last() == x);
    assert(peers(b, x).last() == y);
    assert(x == y);
    // what remains agrees as well
    assert(a1.to_multiset() == a.to_multiset().remove(x));
    assert(b1.to_multiset() == b.to_multiset().remove(x));
    assert forall|e: FileEntry| #[trigger] peers(a1, e) == peers(b1, e) by {
        let pe = |z: FileEntry| same_place(z, e);
        a1.lemma_filter_push(x, pe);
        b1.lemma_filter_push(x, pe);
        if same_place(x, e) {
            assert(peers(a1, e) =~= peers(a, e).drop_last());
            assert(peers(b1, e) =~= peers(b, e).drop_last());
        }
    }
    assert forall|p: int, q: int| 0 <= p < q < a1.len() implies !listed_before(#[trigger] a1[q], #[trigger] a1[p]) by {
        assert(a1[q] == a[q] && a1[p] == a[p]);
    }
    assert forall|p: int, q: int| 0 <= p < q < b1.len() implies !listed_before(#[trigger] b1[q], #[trigger] b1[p]) by {
        assert(b1[q] == b[q] && b1[p] == b[p]);
    }
    lemma_listing_determined(a1, b1);
}

} // verus!

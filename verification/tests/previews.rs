//! The preview of a directory, walked over directories that are held in memory.

use oxide_sloc::order::{sort_entries, DirEntry, EntryKind};
use oxide_sloc::preview::{
    begin_preview, finish_preview, preview_failed, unreadable_directory, working_dir_failed,
    Preview, PreviewRequest, MAX_DEPTH, MAX_ENTRIES,
};
use oxide_sloc::tree::{PreviewBudget, TreeWalk};

type Listing = Vec<(u64, &'static str, EntryKind)>;

const SCAN: &str = r#"<span class="badge badge-scan">likely scanned</span>"#;
const SKIP: &str = r#"<span class="badge badge-skip">skipped by default</span>"#;
const DIR: &str = r#"<span class="badge badge-dir">dir</span>"#;
const MORE: &str =
    "\n<span class=\"entry entry-more\">... preview truncated for readability ...</span>";

fn entries(list: &Listing) -> Vec<DirEntry> {
    list.iter()
        .map(|e| DirEntry { id: e.0, name: e.1.to_string(), kind: e.2 })
        .collect()
}

fn request(exists: bool, gitmodules: bool) -> PreviewRequest {
    PreviewRequest {
        exists,
        root: "/srv/<app>".to_string(),
        root_name: Some("<app>".to_string()),
        working_dir: "/home/o'neil".to_string(),
        has_gitmodules: gitmodules,
        root_id: 0,
    }
}

fn head(root_name: &str, hint: &str) -> String {
    format!(
        "{}{}{}{}{}{}{}{}{}{}",
        r#"<div class="preview-head"><div><strong>Working OxideSLOC directory</strong><div class="preview-code">/home/o&#39;neil</div></div>"#,
        r#"<div style="margin-top:10px"><strong>Selected project path</strong><div class="preview-code">/srv/&lt;app&gt;</div></div></div>"#,
        r#"<div class="preview-legend"><span class="badge badge-scan">likely scanned</span>"#,
        r#"<span class="badge badge-skip">skipped by default</span><span class="badge badge-unsupported">unsupported</span></div>"#,
        hint,
        r#"<div class="preview-note">This preview is heuristic. It highlights what the current build is most likely to scan by default, but final results still depend on ignore rules, globs, generated/minified detection, and supported language analyzers.</div>"#,
        r#"<div class="tree-shell"><pre class="tree">"#,
        r#"<span class="entry entry-dir">"#,
        root_name,
        "/</span>"
    )
}

/// Walks over the listings, whose indices are the handles, and returns the walk at its end with
/// the handles that were read; `None` where a directory without a listing is asked for.
fn drive(mut walk: TreeWalk, first: Option<u64>, listings: &[Listing]) -> (Option<TreeWalk>, Vec<u64>) {
    let mut read = Vec::new();
    let mut wanted = first;
    loop {
        if let Some(id) = wanted {
            read.push(id);
            match listings.get(id as usize) {
                Some(list) => walk.supply(entries(list)),
                None => return (None, read),
            }
        }
        wanted = walk.advance();
        if wanted.is_none() {
            return (Some(walk), read);
        }
    }
}

fn preview(listings: &[Listing]) -> (String, Vec<u64>) {
    match begin_preview(&request(true, false)) {
        Preview::Done(_) => panic!("the path exists"),
        Preview::Walking(walk) => {
            let (ended, read) = drive(walk, Some(0), listings);
            (finish_preview(ended.unwrap()), read)
        }
    }
}

fn lines(page: &str) -> Vec<&str> {
    let tree = page.split(r#"<pre class="tree">"#).nth(1).unwrap();
    tree.trim_end_matches("</pre></div>").split('\n').skip(1).collect()
}

fn numbered(count: usize) -> Listing {
    (0..count)
        .map(|i| (1000 + i as u64, &*format!("f{:04}.py", i).leak(), EntryKind::File))
        .collect()
}

#[test]
fn a_missing_path_is_reported() {
    match begin_preview(&request(false, true)) {
        Preview::Done(page) => assert_eq!(
            page,
            r#"<div class="preview-error">Path does not exist: <code>/srv/&lt;app&gt;</code></div>"#
        ),
        Preview::Walking(_) => panic!("the path does not exist"),
    }
}

#[test]
fn an_empty_directory_shows_its_name_only() {
    let (page, read) = preview(&[vec![]]);
    assert_eq!(page, format!("{}</pre></div>", head("&lt;app&gt;", "")));
    assert_eq!(read, vec![0]);
}

#[test]
fn a_root_without_a_name_is_shown_by_its_path() {
    let mut unnamed = request(true, false);
    unnamed.root_name = None;
    match begin_preview(&unnamed) {
        Preview::Done(_) => panic!("the path exists"),
        Preview::Walking(walk) => {
            let (ended, _) = drive(walk, Some(0), &[vec![]]);
            assert_eq!(
                finish_preview(ended.unwrap()),
                format!("{}</pre></div>", head("/srv/&lt;app&gt;", ""))
            );
        }
    }
}

#[test]
fn a_gitmodules_file_gives_a_hint() {
    let hint = r#"<div class="preview-note preview-note-warn"><strong>Workspace hint:</strong> a <code>.gitmodules</code> file was detected here. This path looks like a good candidate for future workspace/submodule mode, where each submodule becomes its own project report.</div>"#;
    match begin_preview(&request(true, true)) {
        Preview::Done(_) => panic!("the path exists"),
        Preview::Walking(walk) => {
            let (ended, _) = drive(walk, Some(0), &[vec![]]);
            assert_eq!(
                finish_preview(ended.unwrap()),
                format!("{}</pre></div>", head("&lt;app&gt;", hint))
            );
        }
    }
}

#[test]
fn entries_are_listed_depth_first_in_order() {
    let (page, read) = preview(&[
        vec![
            (10, "main.PY", EntryKind::File),
            (1, "Lib", EntryKind::Directory),
            (11, "a&b.png", EntryKind::File),
            (12, "link", EntryKind::Other),
            (13, "gone", EntryKind::Unknown),
        ],
        vec![(14, "x.c", EntryKind::File)],
    ]);
    assert_eq!(
        page,
        format!(
            "{}{}{}{}{}</pre></div>",
            head("&lt;app&gt;", ""),
            format!("\n  <span class=\"entry entry-skip\">a&amp;b.png {}</span>", SKIP),
            format!("\n  <span class=\"entry entry-dir \">Lib/ {}</span>", DIR),
            format!("\n    <span class=\"entry entry-scan\">x.c {}</span>", SCAN),
            format!("\n  <span class=\"entry entry-scan\">main.PY {}</span>", SCAN),
        )
    );
    assert_eq!(read, vec![0, 1]);
}

#[test]
fn a_skipped_directory_is_one_line_and_is_not_read() {
    let (page, read) = preview(&[vec![
        (1, "target", EntryKind::Directory),
        (2, ".git", EntryKind::Directory),
        (3, "node_modules", EntryKind::Directory),
    ]]);
    assert_eq!(read, vec![0]);
    let shown = lines(&page);
    assert_eq!(shown.len(), 3);
    assert_eq!(
        shown[0],
        format!("  <span class=\"entry entry-dir entry-skip\">.git/ {}</span>", SKIP)
    );
    assert!(shown[1].contains("node_modules/") && shown[2].contains("target/"));
}

#[test]
fn the_last_level_lists_directories_without_reading_them() {
    assert_eq!(MAX_DEPTH, 4);
    let (page, read) = preview(&[
        vec![(1, "a", EntryKind::Directory)],
        vec![(2, "b", EntryKind::Directory)],
        vec![(3, "c", EntryKind::Directory)],
        vec![(4, "d", EntryKind::Directory), (5, "e.py", EntryKind::File)],
        vec![(6, "never.py", EntryKind::File)],
    ]);
    assert_eq!(read, vec![0, 1, 2, 3]);
    let shown = lines(&page);
    assert_eq!(shown.len(), 5);
    assert_eq!(shown[3], format!("        <span class=\"entry entry-dir \">d/ {}</span>", DIR));
    assert_eq!(shown[4], format!("        <span class=\"entry entry-scan\">e.py {}</span>", SCAN));
}

#[test]
fn a_long_listing_is_cut_short() {
    assert_eq!(MAX_ENTRIES, 220);
    let (page, _) = preview(&[numbered(221)]);
    assert!(page.ends_with(&format!("{}</pre></div>", MORE)));
    let shown = lines(&page);
    assert_eq!(shown.len(), 221);
    assert!(shown[219].contains("f0219.py"));
    assert!(!page.contains("f0220.py"));
}

#[test]
fn a_listing_of_exactly_the_limit_counts_as_cut_short() {
    let (page, _) = preview(&[numbered(220)]);
    assert!(page.ends_with(&format!("{}</pre></div>", MORE)));
    let (page, _) = preview(&[numbered(219)]);
    assert!(!page.contains("entry-more"));
    assert_eq!(lines(&page).len(), 219);
}

#[test]
fn nothing_is_read_once_the_limit_is_reached() {
    let mut listing = numbered(219);
    listing.push((1, "zz", EntryKind::Directory));
    let (page, read) = preview(&[listing, vec![(7, "inner.py", EntryKind::File)]]);
    assert_eq!(read, vec![0]);
    assert!(page.contains("zz/"));
    assert!(!page.contains("inner.py"));
}

#[test]
fn entries_that_are_neither_count_for_nothing() {
    let mut listing = numbered(219);
    for i in 0..50 {
        listing.push((2000 + i, "a-socket", EntryKind::Other));
    }
    let (page, _) = preview(&[listing]);
    assert!(!page.contains("entry-more"));
    assert!(!page.contains("a-socket"));
}

#[test]
fn a_directory_that_cannot_be_read_ends_the_walk() {
    match begin_preview(&request(true, false)) {
        Preview::Done(_) => panic!("the path exists"),
        Preview::Walking(walk) => {
            let (ended, read) = drive(walk, Some(0), &[vec![(9, "secret", EntryKind::Directory)]]);
            assert!(ended.is_none());
            assert_eq!(read, vec![0, 9]);
        }
    }
    let message = unreadable_directory("/srv/<app>/secret");
    assert_eq!(message, "failed to read directory /srv/<app>/secret");
    assert_eq!(
        preview_failed(&message),
        r#"<div class="preview-error">Preview failed: failed to read directory /srv/&lt;app&gt;/secret</div>"#
    );
}

#[test]
fn a_walk_that_cannot_go_on_keeps_its_lines() {
    let budget = PreviewBudget { shown: 0, max_entries: 50, max_depth: 4 };
    let mut walk = TreeWalk::new("start".to_string(), 0, budget);
    walk.supply(entries(&vec![
        (5, "a.py", EntryKind::File),
        (6, "b", EntryKind::Directory),
        (7, "c.py", EntryKind::File),
    ]));
    assert_eq!(walk.advance(), Some(6));
    let (text, shown) = walk.finish();
    assert_eq!(shown, 2);
    assert_eq!(text.matches('\n').count(), shown);
    assert_eq!(
        text,
        format!(
            "start\n  <span class=\"entry entry-scan\">a.py {}</span>\n  <span class=\"entry entry-dir \">b/ {}</span>",
            SCAN, DIR
        )
    );
}

#[test]
fn a_missing_working_directory_is_reported() {
    assert_eq!(
        working_dir_failed("No such file & so on"),
        r#"<div class="preview-error">Failed to resolve current directory: No such file &amp; so on</div>"#
    );
}

#[test]
fn a_walk_without_levels_reads_nothing() {
    let budget = PreviewBudget { shown: 0, max_entries: 5, max_depth: 0 };
    let (ended, read) = drive(TreeWalk::new("start".to_string(), 3, budget), None, &[]);
    assert!(read.is_empty());
    assert_eq!(ended.unwrap().finish(), ("start".to_string(), 0));
}

#[test]
fn entries_are_sorted_by_lower_case_name() {
    let sorted = sort_entries(entries(&vec![
        (1, "b", EntryKind::File),
        (2, "C", EntryKind::File),
        (3, "a", EntryKind::Directory),
        (4, "É", EntryKind::File),
        (5, "_", EntryKind::File),
        (6, "Ab", EntryKind::File),
        (7, "", EntryKind::File),
    ]));
    let ids: Vec<u64> = sorted.iter().map(|e| e.id).collect();
    assert_eq!(ids, vec![7, 5, 3, 6, 1, 2, 4]);
}

#[test]
fn entries_with_equal_keys_keep_their_order() {
    let sorted = sort_entries(entries(&vec![
        (1, "Makefile", EntryKind::File),
        (2, "a", EntryKind::File),
        (3, "makefile", EntryKind::File),
        (4, "MAKEFILE", EntryKind::File),
    ]));
    let ids: Vec<u64> = sorted.iter().map(|e| e.id).collect();
    assert_eq!(ids, vec![2, 1, 3, 4]);
}

//! Names, paths and form fields.

use oxide_sloc::classify::{classify_dir, classify_file};
use oxide_sloc::forms::split_patterns;
use oxide_sloc::html::{escape_html, put_markup};
use oxide_sloc::paths::{
    display_path, file_url, file_url_of_text, label_of_name, place, resolve_output_root,
    resolve_preview_path, sanitize_project_label, PathChoice,
};
use oxide_sloc::text::{
    ascii_lower, chars_of, decimal, joined, lower, put_number, same_text, signed_decimal,
    text_between, trim, white_space,
};

const SCAN: &str = r#"<span class="badge badge-scan">likely scanned</span>"#;
const SKIP: &str = r#"<span class="badge badge-skip">skipped by default</span>"#;
const UNSUPPORTED: &str = r#"<span class="badge badge-unsupported">unsupported</span>"#;
const DIR: &str = r#"<span class="badge badge-dir">dir</span>"#;

fn given(choice: PathChoice) -> String {
    match choice {
        PathChoice::AsGiven(path) => path,
        PathChoice::UnderWorkingDir(_) => panic!("taken below the working directory"),
    }
}

fn below(choice: PathChoice) -> String {
    match choice {
        PathChoice::UnderWorkingDir(path) => path,
        PathChoice::AsGiven(_) => panic!("taken as given"),
    }
}

#[test]
fn escape_html_replaces_the_five_characters() {
    assert_eq!(
        escape_html("<a href=\"x\">Tom & 'Jerry'</a>"),
        "&lt;a href=&quot;x&quot;&gt;Tom &amp; &#39;Jerry&#39;&lt;/a&gt;"
    );
    assert_eq!(escape_html(""), "");
    assert_eq!(escape_html("plain é 漢"), "plain é 漢");
}

#[test]
fn escape_html_escapes_entities_again() {
    assert_eq!(escape_html("&amp;"), "&amp;amp;");
    assert_eq!(escape_html("&lt;"), "&amp;lt;");
}

#[test]
fn put_markup_writes_an_apostrophe_in_hexadecimal() {
    let mut out = String::from("> ");
    put_markup(&mut out, "a<b> & \"c\" 'd' é");
    assert_eq!(out, "> a&lt;b&gt; &amp; &quot;c&quot; &#x27;d&#x27; é");
}

#[test]
fn escaped_text_holds_no_markup() {
    let escaped = escape_html("<>\"'&<>\"'&");
    assert!(!escaped.contains('<') && !escaped.contains('>'));
    assert!(!escaped.contains('"') && !escaped.contains('\''));
    let mut out = String::new();
    put_markup(&mut out, "<>\"'&");
    assert_eq!(out, "&lt;&gt;&quot;&#x27;&amp;");
}

#[test]
fn directories_that_are_skipped() {
    for name in [".git", "node_modules", "target"] {
        let status = classify_dir(name);
        assert_eq!(status.css_class, "entry-skip");
        assert_eq!(status.badge_html, SKIP);
        assert!(status.skip_children);
    }
}

#[test]
fn other_directories_are_shown() {
    for name in ["src", "Target", ".github", "targets", ""] {
        let status = classify_dir(name);
        assert_eq!(status.css_class, "");
        assert_eq!(status.badge_html, DIR);
        assert!(!status.skip_children);
    }
}

#[test]
fn files_that_are_likely_scanned() {
    for name in [
        "a.c", "a.h", "a.cpp", "a.cxx", "a.cc", "a.hpp", "a.hh", "a.hxx", "a.cs", "a.py", "a.sh",
        "a.bash", "a.zsh", "a.ksh", "a.ps1", "a.psm1", "a.psd1", "A.PY", ".c",
    ] {
        let status = classify_file(name);
        assert_eq!(status.css_class, "entry-scan", "{}", name);
        assert_eq!(status.badge_html, SCAN);
        assert!(!status.skip_children);
    }
}

#[test]
fn files_that_are_skipped() {
    for name in [
        "a.min.js", "Cargo.lock", "a.png", "a.jpg", "a.jpeg", "a.gif", "a.zip", "a.pdf", "A.PNG",
    ] {
        let status = classify_file(name);
        assert_eq!(status.css_class, "entry-skip", "{}", name);
        assert_eq!(status.badge_html, SKIP);
        assert!(!status.skip_children);
    }
}

#[test]
fn files_that_are_unsupported() {
    for name in ["a.rs", "a.js", "README", "", "c", "py", "a.cd", "a.py.bak"] {
        let status = classify_file(name);
        assert_eq!(status.css_class, "entry-unsupported", "{}", name);
        assert_eq!(status.badge_html, UNSUPPORTED);
        assert!(!status.skip_children);
    }
}

#[test]
fn the_case_of_a_file_name_does_not_matter() {
    assert_eq!(classify_file("MAIN.Cpp").css_class, classify_file("main.cPP").css_class);
    assert_eq!(classify_file("X.MIN.JS").css_class, "entry-skip");
}

#[test]
fn patterns_are_split_at_commas_and_line_ends() {
    assert_eq!(
        split_patterns(Some(" src/** , *.py\r\n\n tests/* ,,\t\n")),
        vec!["src/**", "*.py", "tests/*"]
    );
    assert_eq!(split_patterns(Some("a b")), vec!["a b"]);
}

#[test]
fn absent_and_blank_fields_have_no_patterns() {
    assert!(split_patterns(None).is_empty());
    assert!(split_patterns(Some("")).is_empty());
    assert!(split_patterns(Some(" ,\n , \u{3000}")).is_empty());
}

#[test]
fn commas_and_line_feeds_separate_alike() {
    assert_eq!(split_patterns(Some("a,b,c")), split_patterns(Some("a\nb\nc")));
}

#[test]
fn joined_patterns_are_read_back() {
    let list = vec!["src/**".to_string(), "*.py".to_string(), "x y".to_string()];
    assert_eq!(split_patterns(Some(joined(&list, ",").as_str())), list);
}

#[test]
fn a_carriage_return_inside_a_line_stays() {
    assert_eq!(split_patterns(Some("a\rb\r\nc\r")), vec!["a\rb", "c"]);
}

#[test]
fn project_labels() {
    assert_eq!(sanitize_project_label("/home/me/My Project"), "my-project");
    assert_eq!(sanitize_project_label("My_Project.v2/"), "my-project-v2");
    assert_eq!(sanitize_project_label("a/b/./"), "b");
    assert_eq!(sanitize_project_label("--x--"), "x");
    assert_eq!(sanitize_project_label("a//b"), "b");
}

#[test]
fn a_colon_is_a_character_like_others() {
    assert_eq!(sanitize_project_label(":x"), "x");
    assert_eq!(sanitize_project_label("/srv/a:b"), "a-b");
    assert_eq!(sanitize_project_label("ab:c"), "ab-c");
}

#[test]
fn drives_shares_and_backslashes_are_cut_as_the_platform_does() {
    let windows = std::path::MAIN_SEPARATOR == '\\';
    for (path, cut_by_windows, cut_at_slashes) in [
        ("C:\\Users\\me\\My Repo", "my-repo", "c--users-me-my-repo"),
        ("C:repo", "repo", "c-repo"),
        ("C:\\", "project", "c"),
        ("a\\b\\", "b", "a-b"),
        ("\\\\host\\share\\repo", "repo", "host-share-repo"),
        ("\\\\host\\share", "project", "host-share"),
        ("//host/share/repo", "repo", "repo"),
        ("//host/share", "project", "share"),
    ] {
        let expected = if windows { cut_by_windows } else { cut_at_slashes };
        assert_eq!(sanitize_project_label(path), expected, "{}", path);
    }
}

#[test]
fn a_path_in_upper_case_has_the_same_label() {
    for path in ["/srv/My App/", "a/b/./", "é:x", "..", "x.v2", "c:\\my repo", "\\\\host\\share\\x"] {
        assert_eq!(
            sanitize_project_label(&path.to_ascii_uppercase()),
            sanitize_project_label(path)
        );
        let label = sanitize_project_label(path);
        assert_eq!(sanitize_project_label(&label), label);
    }
}

#[test]
fn paths_without_a_usable_name_are_called_project() {
    for path in ["", "/", "..", "a/..", ".", "---", "/tmp/***", "漢字"] {
        assert_eq!(sanitize_project_label(path), "project", "{}", path);
    }
}

#[test]
fn a_label_is_its_own_label() {
    for label in ["project", "my-project", "a1-b2"] {
        assert_eq!(sanitize_project_label(label), label);
        assert_eq!(label_of_name(Some(label)), label);
    }
    assert_eq!(label_of_name(None), "project");
    assert_eq!(label_of_name(Some("-É-")), "project");
    assert_eq!(label_of_name(Some("A--B")), "a--b");
}

#[test]
fn shown_paths() {
    assert_eq!(display_path("/tmp/é".as_bytes()), "/tmp/é");
    assert_eq!(display_path(&[0x2f, 0x61, 0xff, 0x62]), "/a\u{fffd}b");
    assert_eq!(display_path(&[]), "");
}

#[test]
fn file_addresses() {
    assert_eq!(file_url(b"/tmp/report.html"), "file:///tmp/report.html");
    assert_eq!(file_url(b"C:\\out\\report.html"), "file:///C:/out/report.html");
    assert_eq!(file_url(b"\\\\host\\x"), "file:////host/x");
    assert_eq!(file_url(b"report.html"), "file:///report.html");
    assert_eq!(file_url(b""), "file:///");
    assert_eq!(file_url(&[0x2f, 0xff]), "file:///\u{fffd}");
}

#[test]
fn file_addresses_of_shown_paths() {
    assert_eq!(file_url_of_text("/a b"), "file:///a b");
    assert_eq!(file_url_of_text("a\\b"), "file:///a/b");
}

#[test]
fn output_directories() {
    assert_eq!(below(resolve_output_root(None)), "out/web");
    assert_eq!(below(resolve_output_root(Some("  \t"))), "out/web");
    assert_eq!(below(resolve_output_root(Some(" my/out "))), "my/out");
}

#[test]
fn preview_directories() {
    assert_eq!(below(resolve_preview_path(None)), "samples/basic");
    assert_eq!(given(resolve_preview_path(Some("  "))), "samples/basic");
    assert_eq!(below(resolve_preview_path(Some(" src "))), "src");
}

#[test]
fn absolute_paths_are_taken_as_given() {
    let absolute = if std::path::Path::new("/srv").is_absolute() {
        "/srv"
    } else {
        "C:\\srv"
    };
    assert_eq!(given(resolve_output_root(Some(absolute))), absolute);
    assert_eq!(given(resolve_preview_path(Some(absolute))), absolute);
}

#[test]
fn a_path_is_placed_by_whether_it_is_absolute() {
    assert_eq!(given(place("x".to_string(), true)), "x");
    assert_eq!(below(place("/x".to_string(), false)), "/x");
}

#[test]
fn trimming_takes_unicode_white_space() {
    assert_eq!(trim("\u{a0} a b \u{2029}\r\n"), "a b");
    assert_eq!(trim("\u{200b}a"), "\u{200b}a");
    assert_eq!(trim(" \t "), "");
    for u in 0u32..0x3100 {
        if let Some(c) = char::from_u32(u) {
            assert_eq!(white_space(c), c.is_whitespace(), "{:x}", u);
        }
    }
}

#[test]
fn lower_case_is_ascii_only() {
    assert_eq!(ascii_lower("ÀBÇ xYz"), "ÀbÇ xyz");
    assert_eq!(lower('Z'), 'z');
    assert_eq!(lower('É'), 'É');
}

#[test]
fn numbers_in_decimal() {
    assert_eq!(decimal(0), "0");
    assert_eq!(decimal(1_000_203), "1000203");
    assert_eq!(decimal(u64::MAX), "18446744073709551615");
    let mut out = String::from("n=");
    put_number(&mut out, 42);
    assert_eq!(out, "n=42");
    assert_eq!(signed_decimal(-21), "-21");
    assert_eq!(signed_decimal(i32::MIN), "-2147483648");
    assert_eq!(signed_decimal(7), "7");
}

#[test]
fn pieces_of_text() {
    let chars = chars_of("héllo");
    assert_eq!(chars.len(), 5);
    assert_eq!(text_between(&chars, 1, 3), "él");
    assert_eq!(text_between(&chars, 2, 2), "");
    assert!(same_text("a", "a"));
    assert!(!same_text("a", "A"));
    assert_eq!(joined(&vec![], "; "), "");
    assert_eq!(joined(&vec!["x".to_string(), "y".to_string()], "; "), "x; y");
}

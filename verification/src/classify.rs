//! What the preview says of a directory or a file, by its name.

use vstd::prelude::*;

use crate::text::{ascii_lower, chars_of, law_lower_case_of_parts, lowered, same_text};

verus! {

/// How an entry of the preview is marked, and whether its children are shown.
pub struct PreviewStatus {
    pub css_class: &'static str,
    pub badge_html: &'static str,
    pub skip_children: bool,
}

/// The model of a [`PreviewStatus`].
#[verifier::ext_equal]
pub struct StatusView {
    pub css_class: Seq<char>,
    pub badge_html: Seq<char>,
    pub skip_children: bool,
}

impl View for PreviewStatus {
    type V = StatusView;

    open spec fn view(&self) -> StatusView {
        StatusView {
            css_class: self.css_class@,
            badge_html: self.badge_html@,
            skip_children: self.skip_children,
        }
    }
}

/// The endings of the files that a scan most likely counts.
pub open spec fn scanned_endings() -> Seq<Seq<char>> {
    seq![
        ".c"@,
        ".h"@,
        ".cpp"@,
        ".cxx"@,
        ".cc"@,
        ".hpp"@,
        ".hh"@,
        ".hxx"@,
        ".cs"@,
        ".py"@,
        ".sh"@,
        ".bash"@,
        ".zsh"@,
        ".ksh"@,
        ".ps1"@,
        ".psm1"@,
        ".psd1"@,
    ]
}

/// The endings of the files that a scan leaves out by default.
pub open spec fn skipped_endings() -> Seq<Seq<char>> {
    seq![
        ".min.js"@,
        ".lock"@,
        ".png"@,
        ".jpg"@,
        ".jpeg"@,
        ".gif"@,
        ".zip"@,
        ".pdf"@,
    ]
}

/// Whether `s` ends with one of the given endings.
pub open spec fn ends_with_one_of(s: Seq<char>, endings: Seq<Seq<char>>) -> bool {
    exists|i: int| 0 <= i < endings.len() && (#[trigger] endings[i]).is_suffix_of(s)
}

/// Whether a directory of this name is left out by default, with all it holds.
pub open spec fn skipped_directory(name: Seq<char>) -> bool {
    name == ".git"@ || name == "node_modules"@ || name == "target"@
}

/// How a directory of this name is marked.
pub open spec fn directory_status(name: Seq<char>) -> StatusView {
    if skipped_directory(name) {
        StatusView {
            css_class: "entry-skip"@,
            badge_html: "<span class=\"badge badge-skip\">skipped by default</span>"@,
            skip_children: true,
        }
    } else {
        StatusView {
            css_class: ""@,
            badge_html: "<span class=\"badge badge-dir\">dir</span>"@,
            skip_children: false,
        }
    }
}

/// How a file of this name is marked; the case of ASCII letters does not matter.
pub open spec fn file_status(name: Seq<char>) -> StatusView {
    if ends_with_one_of(lowered(name), scanned_endings()) {
        StatusView {
            css_class: "entry-scan"@,
            badge_html: "<span class=\"badge badge-scan\">likely scanned</span>"@,
            skip_children: false,
        }
    } else if ends_with_one_of(lowered(name), skipped_endings()) {
        StatusView {
            css_class: "entry-skip"@,
            badge_html: "<span class=\"badge badge-skip\">skipped by default</span>"@,
            skip_children: false,
        }
    } else {
        StatusView {
            css_class: "entry-unsupported"@,
            badge_html: "<span class=\"badge badge-unsupported\">unsupported</span>"@,
            skip_children: false,
        }
    }
}

/// Whether a text, given as its characters, ends with `ending`.
fn ends_with(chars: &Vec<char>, ending: &str) -> (r: bool)
    ensures
        r == ending@.is_suffix_of(chars@),
{
    let tail = chars_of(ending);
    if tail.len() > chars.len() {
        return false;
    }
    let start: usize = chars.len() - tail.len();
    let mut i: usize = 0;
    while i < tail.len()
        invariant
            i <= tail@.len() <= chars@.len(),
            tail@ == ending@,
            start + tail@.len() == chars.len(),
            forall|j: int| 0 <= j < i ==> tail@[j] == chars@[start + j],
        decreases tail@.len() - i,
    {
        if tail[i] != chars[start + i] {
            proof {
                let end = chars@.subrange(start as int, chars@.len() as int);
                assert(end[i as int] == chars@[start + i]);
                assert(!tail@.is_suffix_of(chars@));
            }
            return false;
        }
        i = i + 1;
    }
    assert(tail@ == chars@.subrange(start as int, chars@.len() as int));
    true
}

/// Whether a text, given as its characters, ends with one of the endings.
fn ends_with_any(chars: &Vec<char>, endings: &Vec<&'static str>) -> (r: bool)
    ensures
        r == ends_with_one_of(chars@, endings@.map_values(|e: &'static str| e@)),
{
    let ghost list = endings@.map_values(|e: &'static str| e@);
    let mut i: usize = 0;
    while i < endings.len()
        invariant
            i <= endings@.len(),
            list == endings@.map_values(|e: &'static str| e@),
            forall|j: int| 0 <= j < i ==> !(#[trigger] list[j]).is_suffix_of(chars@),
        decreases endings@.len() - i,
    {
        if ends_with(chars, endings[i]) {
            assert(list[i as int].is_suffix_of(chars@));
            return true;
        }
        i = i + 1;
    }
    false
}

/// How the preview marks a directory of this name.
pub fn classify_dir(name: &str) -> (r: PreviewStatus)
    ensures
        r@ == directory_status(name@),
{
    if same_text(name, ".git") || same_text(name, "node_modules") || same_text(name, "target") {
        PreviewStatus {
            css_class: "entry-skip",
            badge_html: "<span class=\"badge badge-skip\">skipped by default</span>",
            skip_children: true,
        }
    } else {
        PreviewStatus {
            css_class: "",
            badge_html: "<span class=\"badge badge-dir\">dir</span>",
            skip_children: false,
        }
    }
}

/// How the preview marks a file of this name.
pub fn classify_file(name: &str) -> (r: PreviewStatus)
    ensures
        r@ == file_status(name@),
{
    let lower = ascii_lower(name);
    let chars = chars_of(lower.as_str());
    let scanned: Vec<&'static str> = vec![
        ".c",
        ".h",
        ".cpp",
        ".cxx",
        ".cc",
        ".hpp",
        ".hh",
        ".hxx",
        ".cs",
        ".py",
        ".sh",
        ".bash",
        ".zsh",
        ".ksh",
        ".ps1",
        ".psm1",
        ".psd1",
    ];
    assert(scanned@.map_values(|e: &'static str| e@) == scanned_endings());
    let skipped: Vec<&'static str> = vec![
        ".min.js",
        ".lock",
        ".png",
        ".jpg",
        ".jpeg",
        ".gif",
        ".zip",
        ".pdf",
    ];
    assert(skipped@.map_values(|e: &'static str| e@) == skipped_endings());
    if ends_with_any(&chars, &scanned) {
        PreviewStatus {
            css_class: "entry-scan",
            badge_html: "<span class=\"badge badge-scan\">likely scanned</span>",
            skip_children: false,
        }
    } else if ends_with_any(&chars, &skipped) {
        PreviewStatus {
            css_class: "entry-skip",
            badge_html: "<span class=\"badge badge-skip\">skipped by default</span>",
            skip_children: false,
        }
    } else {
        PreviewStatus {
            css_class: "entry-unsupported",
            badge_html: "<span class=\"badge badge-unsupported\">unsupported</span>",
            skip_children: false,
        }
    }
}

/// The letter case of a file's name does not change how the file is marked.
pub proof fn law_file_status_ignores_case(a: Seq<char>, b: Seq<char>)
    requires
        lowered(a) == lowered(b),
    ensures
        file_status(a) == file_status(b),
{
}

/// Whether an ending is that of a language which is counted: C, C++, C#, Python, Shell or
/// PowerShell.
pub open spec fn is_source_ending(e: Seq<char>) -> bool {
    ||| e == ".c"@ || e == ".h"@
    ||| e == ".cpp"@ || e == ".cxx"@ || e == ".cc"@ || e == ".hpp"@ || e == ".hh"@ || e == ".hxx"@
    ||| e == ".cs"@
    ||| e == ".py"@
    ||| e == ".sh"@ || e == ".bash"@ || e == ".zsh"@ || e == ".ksh"@
    ||| e == ".ps1"@ || e == ".psm1"@ || e == ".psd1"@
}

/// Whether an ending is that of minified, lock, picture, archive or PDF files.
pub open spec fn is_left_out_ending(e: Seq<char>) -> bool {
    ||| e == ".min.js"@
    ||| e == ".lock"@
    ||| e == ".png"@ || e == ".jpg"@ || e == ".jpeg"@ || e == ".gif"@
    ||| e == ".zip"@
    ||| e == ".pdf"@
}

/// The characters of the endings.
proof fn lemma_endings()
    ensures
        ".c"@ =~= seq!['.', 'c'],
        ".h"@ =~= seq!['.', 'h'],
        ".cpp"@ =~= seq!['.', 'c', 'p', 'p'],
        ".cxx"@ =~= seq!['.', 'c', 'x', 'x'],
        ".cc"@ =~= seq!['.', 'c', 'c'],
        ".hpp"@ =~= seq!['.', 'h', 'p', 'p'],
        ".hh"@ =~= seq!['.', 'h', 'h'],
        ".hxx"@ =~= seq!['.', 'h', 'x', 'x'],
        ".cs"@ =~= seq!['.', 'c', 's'],
        ".py"@ =~= seq!['.', 'p', 'y'],
        ".sh"@ =~= seq!['.', 's', 'h'],
        ".bash"@ =~= seq!['.', 'b', 'a', 's', 'h'],
        ".zsh"@ =~= seq!['.', 'z', 's', 'h'],
        ".ksh"@ =~= seq!['.', 'k', 's', 'h'],
        ".ps1"@ =~= seq!['.', 'p', 's', '1'],
        ".psm1"@ =~= seq!['.', 'p', 's', 'm', '1'],
        ".psd1"@ =~= seq!['.', 'p', 's', 'd', '1'],
        ".min.js"@ =~= seq!['.', 'm', 'i', 'n', '.', 'j', 's'],
        ".lock"@ =~= seq!['.', 'l', 'o', 'c', 'k'],
        ".png"@ =~= seq!['.', 'p', 'n', 'g'],
        ".jpg"@ =~= seq!['.', 'j', 'p', 'g'],
        ".jpeg"@ =~= seq!['.', 'j', 'p', 'e', 'g'],
        ".gif"@ =~= seq!['.', 'g', 'i', 'f'],
        ".zip"@ =~= seq!['.', 'z', 'i', 'p'],
        ".pdf"@ =~= seq!['.', 'p', 'd', 'f'],
{
    reveal_strlit(".c");
    reveal_strlit(".h");
    reveal_strlit(".cpp");
    reveal_strlit(".cxx");
    reveal_strlit(".cc");
    reveal_strlit(".hpp");
    reveal_strlit(".hh");
    reveal_strlit(".hxx");
    reveal_strlit(".cs");
    reveal_strlit(".py");
    reveal_strlit(".sh");
    reveal_strlit(".bash");
    reveal_strlit(".zsh");
    reveal_strlit(".ksh");
    reveal_strlit(".ps1");
    reveal_strlit(".psm1");
    reveal_strlit(".psd1");
    reveal_strlit(".min.js");
    reveal_strlit(".lock");
    reveal_strlit(".png");
    reveal_strlit(".jpg");
    reveal_strlit(".jpeg");
    reveal_strlit(".gif");
    reveal_strlit(".zip");
    reveal_strlit(".pdf");
}

/// The list of the endings that are counted holds each of them.
proof fn lemma_source_endings_listed(e: Seq<char>)
    ensures
        is_source_ending(e) <==> scanned_endings().contains(e),
{
    let list = scanned_endings();
    assert(list.len() == 17);
    assert(list[0] == ".c"@ && list[1] == ".h"@ && list[2] == ".cpp"@ && list[3] == ".cxx"@);
    assert(list[4] == ".cc"@ && list[5] == ".hpp"@ && list[6] == ".hh"@ && list[7] == ".hxx"@);
    assert(list[8] == ".cs"@ && list[9] == ".py"@ && list[10] == ".sh"@ && list[11] == ".bash"@);
    assert(list[12] == ".zsh"@ && list[13] == ".ksh"@ && list[14] == ".ps1"@);
    assert(list[15] == ".psm1"@ && list[16] == ".psd1"@);
}

proof fn lemma_left_out_endings_listed(e: Seq<char>)
    ensures
        is_left_out_ending(e) <==> skipped_endings().contains(e),
{
    let list = skipped_endings();
    assert(list.len() == 8);
    assert(list[0] == ".min.js"@ && list[1] == ".lock"@ && list[2] == ".png"@);
    assert(list[3] == ".jpg"@ && list[4] == ".jpeg"@ && list[5] == ".gif"@);
    assert(list[6] == ".zip"@ && list[7] == ".pdf"@);
}

/// A text ends with one of some endings exactly where it is something and that ending.
proof fn lemma_ends_with_one_of(s: Seq<char>, endings: Seq<Seq<char>>, stem: Seq<char>, e: Seq<char>)
    ensures
        endings.contains(e) && s == stem + e ==> ends_with_one_of(s, endings),
        ends_with_one_of(s, endings) ==> exists|t: Seq<char>, x: Seq<char>|
            endings.contains(x) && s == #[trigger] (t + x),
{
    if endings.contains(e) && s == stem + e {
        let i = choose|i: int| 0 <= i < endings.len() && endings[i] == e;
        assert(s.subrange(s.len() - e.len(), s.len() as int) == e);
        assert(endings[i].is_suffix_of(s));
    }
    if ends_with_one_of(s, endings) {
        let i = choose|i: int| 0 <= i < endings.len() && (#[trigger] endings[i]).is_suffix_of(s);
        let x = endings[i];
        let t = s.take(s.len() - x.len());
        assert(s == t + x);
        assert(endings.contains(x));
    }
}

/// Whatever stands before it, a file whose name ends in the ending of a counted language, in
/// letters of either case, is marked as likely scanned.
pub proof fn law_source_files_are_scanned(stem: Seq<char>, ending: Seq<char>)
    requires
        is_source_ending(lowered(ending)),
    ensures
        file_status(stem + ending).css_class == "entry-scan"@,
        file_status(stem + ending).badge_html
            == "<span class=\"badge badge-scan\">likely scanned</span>"@,
        !file_status(stem + ending).skip_children,
{
    law_lower_case_of_parts(stem, ending);
    lemma_source_endings_listed(lowered(ending));
    lemma_ends_with_one_of(
        lowered(stem + ending),
        scanned_endings(),
        lowered(stem),
        lowered(ending),
    );
}

/// No text ends in both kinds of ending.
proof fn lemma_endings_exclude(t: Seq<char>, x: Seq<char>, stem: Seq<char>, e: Seq<char>)
    requires
        is_source_ending(x),
        is_left_out_ending(e),
    ensures
        t + x != stem + e,
{
    lemma_endings();
    if t + x == stem + e {
        let s = t + x;
        let n = s.len();
        assert(s[n - 1] == x[x.len() - 1]);
        assert(s[n - 1] == e[e.len() - 1]);
        assert(s[n - 2] == x[x.len() - 2]);
        assert(s[n - 2] == e[e.len() - 2]);
    }
}

/// Whatever stands before it, a file whose name ends in the ending of a minified, lock, picture,
/// archive or PDF file, in letters of either case, is marked as skipped by default.
pub proof fn law_other_known_files_are_skipped(stem: Seq<char>, ending: Seq<char>)
    requires
        is_left_out_ending(lowered(ending)),
    ensures
        file_status(stem + ending).css_class == "entry-skip"@,
        file_status(stem + ending).badge_html
            == "<span class=\"badge badge-skip\">skipped by default</span>"@,
        !file_status(stem + ending).skip_children,
{
    let s = lowered(stem + ending);
    let e = lowered(ending);
    law_lower_case_of_parts(stem, ending);
    lemma_left_out_endings_listed(e);
    lemma_ends_with_one_of(s, skipped_endings(), lowered(stem), e);
    lemma_ends_with_one_of(s, scanned_endings(), lowered(stem), e);
    if ends_with_one_of(s, scanned_endings()) {
        let (t, x) = choose|t: Seq<char>, x: Seq<char>|
            scanned_endings().contains(x) && s == #[trigger] (t + x);
        lemma_source_endings_listed(x);
        lemma_endings_exclude(t, x, lowered(stem), e);
    }
}

/// A file is marked as likely scanned or as skipped only where its name, in lower case, ends in
/// one of the endings for that; every other file is marked as unsupported.
pub proof fn law_marks_come_from_endings(name: Seq<char>)
    ensures
        file_status(name).css_class == "entry-scan"@ ==> exists|stem: Seq<char>, e: Seq<char>|
            is_source_ending(e) && lowered(name) == #[trigger] (stem + e),
        file_status(name).css_class == "entry-skip"@ ==> exists|stem: Seq<char>, e: Seq<char>|
            is_left_out_ending(e) && lowered(name) == #[trigger] (stem + e),
        file_status(name).css_class == "entry-scan"@ || file_status(name).css_class
            == "entry-skip"@ || (file_status(name).css_class == "entry-unsupported"@
            && file_status(name).badge_html
            == "<span class=\"badge badge-unsupported\">unsupported</span>"@),
        !file_status(name).skip_children,
{
    reveal_strlit("entry-scan");
    reveal_strlit("entry-skip");
    reveal_strlit("entry-unsupported");
    assert("entry-scan"@[7] == 'c' && "entry-skip"@[7] == 'k');
    assert("entry-unsupported"@.len() == 17 && "entry-scan"@.len() == 10);
    assert("entry-skip"@.len() == 10);
    let s = lowered(name);
    let none = Seq::<char>::empty();
    lemma_ends_with_one_of(s, scanned_endings(), none, none);
    lemma_ends_with_one_of(s, skipped_endings(), none, none);
    if ends_with_one_of(s, scanned_endings()) {
        let (t, x) = choose|t: Seq<char>, x: Seq<char>|
            scanned_endings().contains(x) && s == #[trigger] (t + x);
        lemma_source_endings_listed(x);
        assert(s == t + x);
    } else if ends_with_one_of(s, skipped_endings()) {
        let (t, x) = choose|t: Seq<char>, x: Seq<char>|
            skipped_endings().contains(x) && s == #[trigger] (t + x);
        lemma_left_out_endings_listed(x);
        assert(s == t + x);
    }
}

/// Exactly the directories `.git`, `node_modules` and `target` are skipped with all they hold, by
/// their whole names and in this case of letters; any other is shown as a directory.
pub proof fn law_three_directories_are_skipped(name: Seq<char>)
    ensures
        ({
            let status = directory_status(name);
            if name == ".git"@ || name == "node_modules"@ || name == "target"@ {
                &&& status.skip_children
                &&& status.css_class == "entry-skip"@
                &&& status.badge_html
                    == "<span class=\"badge badge-skip\">skipped by default</span>"@
            } else {
                &&& !status.skip_children
                &&& status.css_class == ""@
                &&& status.badge_html == "<span class=\"badge badge-dir\">dir</span>"@
            }
        }),
{
}

/// What is shown of an entry is what its status holds.
pub proof fn law_status_is_what_it_holds(status: PreviewStatus)
    ensures
        status@.css_class == status.css_class@,
        status@.badge_html == status.badge_html@,
        status@.skip_children == status.skip_children,
{
}

} // verus!

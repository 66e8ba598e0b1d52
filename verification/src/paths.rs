//! Paths as text: how they are shown, named, and told apart.
//!
//! A path of the operating system is held as its raw bytes where it is only shown or handed
//! back, and as text where it comes out of a form.

use vstd::prelude::*;
use vstd::utf8::{decode_utf8, valid_utf8};

use crate::text::{
    chars_of, is_blank, is_white_space, law_trimming_keeps_what_is_between, lower, lower_char,
    text_between, trim, trimmed,
};

verus! {

/// Bytes as text, with the replacement character for what is no valid UTF-8: what
/// `String::from_utf8_lossy` returns.
pub uninterp spec fn lossy_utf8(bytes: Seq<u8>) -> Seq<char>;

/// `String::from_utf8_lossy`: the text of valid UTF-8, and otherwise the text in which the
/// replacement character stands for each invalid part. How the invalid parts are cut is left to
/// the name of the result.
#[verifier::external_body]
fn from_utf8_lossy(bytes: &[u8]) -> (text: String)
    ensures
        text@ == lossy_utf8(bytes@),
        valid_utf8(bytes@) ==> text@ == decode_utf8(bytes@),
{
    String::from_utf8_lossy(bytes).into_owned()
}

/// Whether a path begins with a drive of Windows: a letter and a colon.
pub open spec fn begins_with_drive(path: Seq<char>) -> bool {
    path.len() >= 2 && (('a' <= path[0] <= 'z') || ('A' <= path[0] <= 'Z')) && path[1] == ':'
}

/// Whether the current platforms agree on how a path is cut into components: it holds no
/// backslash, and begins neither with a drive nor with two slashes.
pub open spec fn is_portable(path: Seq<char>) -> bool {
    &&& !path.contains('\\')
    &&& !begins_with_drive(path)
    &&& !(path.len() >= 2 && path[0] == '/' && path[1] == '/')
}

/// Where the last component of a path begins: behind its last slash.
pub open spec fn last_start(path: Seq<char>) -> int
    decreases path.len(),
{
    if path.len() == 0 || path.last() == '/' {
        path.len() as int
    } else {
        last_start(path.drop_last())
    }
}

/// The last component begins inside the path, and within a path that ends in a name, before its
/// end.
pub proof fn lemma_last_start(path: Seq<char>)
    ensures
        0 <= last_start(path) <= path.len(),
        path.len() > 0 && path.last() != '/' ==> last_start(path) < path.len(),
    decreases path.len(),
{
    if path.len() > 0 && path.last() != '/' {
        lemma_last_start(path.drop_last());
    }
}

/// The last component of a path that is cut at its slashes, where that is a name. Slashes at the
/// end are left out, and so is a last component `.`; a path that ends in `..` has no name.
pub open spec fn last_name(path: Seq<char>) -> Option<Seq<char>>
    decreases path.len(),
{
    if path.len() == 0 {
        None
    } else if path.last() == '/' {
        last_name(path.drop_last())
    } else {
        proof {
            lemma_last_start(path);
        }
        let start = last_start(path);
        let part = path.skip(start);
        if part == ".."@ {
            None
        } else if part == "."@ {
            last_name(path.take(start))
        } else {
            Some(part)
        }
    }
}

/// The contents of a string that may be absent.
pub open spec fn opt_text(s: Option<String>) -> Option<Seq<char>> {
    match s {
        Some(t) => Some(t@),
        None => None,
    }
}

/// Whether a character separates the components of a path on Windows.
pub open spec fn is_separator(c: char) -> bool {
    c == '/' || c == '\\'
}

/// Whether a path begins with two characters that separate components on Windows.
pub open spec fn begins_with_two_separators(path: Seq<char>) -> bool {
    path.len() >= 2 && is_separator(path[0]) && is_separator(path[1])
}

/// Where the component that begins at `from` ends: before the next separator of Windows.
pub open spec fn component_end(path: Seq<char>, from: int) -> int
    decreases path.len() - from,
{
    if from >= path.len() || is_separator(path[from]) {
        from
    } else {
        component_end(path, from + 1)
    }
}

/// Where the server of a path such as `\\server\share\x` ends.
pub open spec fn server_end(path: Seq<char>) -> int {
    component_end(path, 2)
}

/// Where the share of a path such as `\\server\share\x` ends.
pub open spec fn share_end(path: Seq<char>) -> int {
    component_end(path, server_end(path) + 1)
}

/// Whether a path begins with a server and a share. A server is not called `?` or `.`, which
/// stand for other things there.
pub open spec fn begins_with_share(path: Seq<char>) -> bool {
    &&& begins_with_two_separators(path)
    &&& server_end(path) > 2
    &&& share_end(path) > server_end(path) + 1
    &&& !(server_end(path) == 3 && (path[2] == '?' || path[2] == '.'))
}

/// A path without the drive or the share with which it begins.
pub open spec fn without_prefix(path: Seq<char>) -> Seq<char> {
    if begins_with_drive(path) {
        path.skip(2)
    } else if begins_with_share(path) {
        path.skip(share_end(path))
    } else {
        path
    }
}

/// A path with slashes in place of backslashes.
pub open spec fn with_slashes(path: Seq<char>) -> Seq<char> {
    path.map_values(|c: char| if c == '\\' { '/' } else { c })
}

/// The last component of a path that is cut as Windows cuts it: behind a drive or a share, at
/// slashes and backslashes.
pub open spec fn last_windows_name(path: Seq<char>) -> Option<Seq<char>> {
    last_name(with_slashes(without_prefix(path)))
}

/// Whether a path is cut in one of two ways: at its slashes, or as Windows cuts it. Left out are
/// those that begin with two separators and no share.
pub open spec fn has_two_cuts(path: Seq<char>) -> bool {
    !begins_with_two_separators(path) || begins_with_share(path)
}

/// What can be said of the last component of a path on any platform.
pub open spec fn may_be_named(path: Seq<char>, name: Option<Seq<char>>) -> bool {
    &&& name matches Some(n) ==> n.len() > 0
    &&& is_portable(path) ==> name == last_name(path)
    &&& has_two_cuts(path) ==> name == last_name(path) || name == last_windows_name(path)
}

/// `Path::file_name`, with `OsStr::to_str`: the final component of a path, where that is a name.
/// It is never empty. It is the last component, with repeated and trailing separators and `.` left
/// out, of the path cut at its slashes, or of the path cut as Windows does: behind its drive or
/// its server and share, at slashes and backslashes. On a path that both cut alike it is that
/// name. Which of the two it is depends on the platform and is left unsaid, and so is the name in
/// a path that begins with two separators and no server and share, such as `\\?\x`.
#[verifier::external_body]
fn file_name(path: &str) -> (name: Option<String>)
    ensures
        may_be_named(path@, opt_text(name)),
{
    match std::path::Path::new(path).file_name() {
        Some(name) => name.to_str().map(str::to_owned),
        None => None,
    }
}

/// `Path::is_absolute`: whether a path is absolute on the current platform. No platform calls a
/// path absolute that begins with neither a slash nor a backslash and holds no colon; of the
/// others nothing is said, since the platforms differ.
#[verifier::external_body]
fn is_absolute(path: &str) -> (r: bool)
    ensures
        r ==> may_be_absolute(path@),
{
    std::path::Path::new(path).is_absolute()
}

/// Whether some platform may call a path absolute.
pub open spec fn may_be_absolute(path: Seq<char>) -> bool {
    path.len() > 0 && (path[0] == '/' || path[0] == '\\' || path.contains(':'))
}

/// A path, given as its raw bytes, as it is shown.
pub fn display_path(path: &[u8]) -> (r: String)
    ensures
        r@ == lossy_utf8(path@),
        valid_utf8(path@) ==> r@ == decode_utf8(path@),
{
    from_utf8_lossy(path)
}

/// The `file:` address of a shown path.
pub open spec fn file_address(path: Seq<char>) -> Seq<char> {
    let slashed = with_slashes(path);
    if slashed.len() > 0 && slashed[0] == '/' {
        "file://"@ + slashed
    } else {
        "file:///"@ + slashed
    }
}

/// The `file:` address of a path that is given as it is shown.
pub fn file_url_of_text(path: &str) -> (url: String)
    ensures
        url@ == file_address(path@),
{
    let chars = chars_of(path);
    let mut url = if chars.len() > 0 && (chars[0] == '/' || chars[0] == '\\') {
        "file://".to_owned()
    } else {
        "file:///".to_owned()
    };
    let ghost scheme = url@;
    let mut i: usize = 0;
    assert(url@ == scheme + with_slashes(chars@.take(0)));
    while i < chars.len()
        invariant
            i <= chars@.len(),
            url@ == scheme + with_slashes(chars@.take(i as int)),
        decreases chars@.len() - i,
    {
        let c = chars[i];
        url.push(if c == '\\' { '/' } else { c });
        i = i + 1;
        assert(chars@.take(i as int) == chars@.take(i - 1).push(c));
        assert(url@ == scheme + with_slashes(chars@.take(i as int)));
    }
    proof {
        assert(chars@.take(chars@.len() as int) == chars@);
        if chars@.len() > 0 {
            assert(with_slashes(path@)[0] == if path@[0] == '\\' { '/' } else { path@[0] });
        }
    }
    url
}

/// The `file:` address of a path, given as its raw bytes.
pub fn file_url(path: &[u8]) -> (url: String)
    ensures
        url@ == file_address(lossy_utf8(path@)),
        valid_utf8(path@) ==> url@ == file_address(decode_utf8(path@)),
{
    let shown = display_path(path);
    file_url_of_text(shown.as_str())
}

/// Whether a character is an ASCII letter or digit.
pub open spec fn is_ascii_alphanumeric(c: char) -> bool {
    ('a' <= c <= 'z') || ('A' <= c <= 'Z') || ('0' <= c <= '9')
}

/// What stands for a character in a label: its lower case for an ASCII letter or digit, and a
/// hyphen for any other.
pub open spec fn label_char(c: char) -> char {
    if is_ascii_alphanumeric(c) {
        lower_char(c)
    } else {
        '-'
    }
}

/// `s` without the hyphens at its two ends.
pub open spec fn without_outer_hyphens(s: Seq<char>) -> Seq<char>
    decreases s.len(),
{
    if s.len() > 0 && s.first() == '-' {
        without_outer_hyphens(s.drop_first())
    } else if s.len() > 0 && s.last() == '-' {
        without_outer_hyphens(s.drop_last())
    } else {
        s
    }
}

/// The label of a project whose directory has this name, or no name at all.
pub open spec fn project_label(name: Option<Seq<char>>) -> Seq<char> {
    let candidate = match name {
        Some(n) => n,
        None => "project"@,
    };
    let compact = without_outer_hyphens(candidate.map_values(|c: char| label_char(c)));
    if compact.len() == 0 {
        "project"@
    } else {
        compact
    }
}

/// The label of a project whose directory has this name, or no name at all.
pub fn label_of_name(name: Option<&str>) -> (label: String)
    ensures
        label@ == project_label(
            match name {
                Some(n) => Some(n@),
                None => None,
            },
        ),
{
    let candidate = chars_of(
        match name {
            Some(n) => n,
            None => "project",
        },
    );
    let ghost mapped = candidate@.map_values(|c: char| label_char(c));
    let mut value: Vec<char> = Vec::new();
    let mut i: usize = 0;
    while i < candidate.len()
        invariant
            i <= candidate@.len(),
            mapped == candidate@.map_values(|c: char| label_char(c)),
            value@ == mapped.take(i as int),
        decreases candidate@.len() - i,
    {
        let c = candidate[i];
        if ('a' <= c && c <= 'z') || ('A' <= c && c <= 'Z') || ('0' <= c && c <= '9') {
            value.push(lower(c));
        } else {
            value.push('-');
        }
        i = i + 1;
        assert(mapped.take(i as int) == mapped.take(i - 1).push(label_char(c)));
    }
    assert(value@ == mapped);
    let mut from: usize = 0;
    let mut to: usize = value.len();
    assert(value@.subrange(0, to as int) == mapped);
    while from < to && value[from] == '-'
        invariant
            from <= to <= value@.len(),
            without_outer_hyphens(value@.subrange(from as int, to as int))
                == without_outer_hyphens(mapped),
        decreases to - from,
    {
        proof {
            let now = value@.subrange(from as int, to as int);
            assert(now.drop_first() == value@.subrange(from + 1, to as int));
            assert(now.first() == value@[from as int]);
        }
        from = from + 1;
    }
    while from < to && value[to - 1] == '-'
        invariant
            from <= to <= value@.len(),
            from < to ==> value@[from as int] != '-',
            without_outer_hyphens(value@.subrange(from as int, to as int))
                == without_outer_hyphens(mapped),
        decreases to - from,
    {
        proof {
            let now = value@.subrange(from as int, to as int);
            assert(now.drop_last() == value@.subrange(from as int, to - 1));
            assert(now.first() == value@[from as int]);
            assert(now.last() == value@[to - 1]);
        }
        to = to - 1;
    }
    proof {
        let now = value@.subrange(from as int, to as int);
        if from < to {
            assert(now.first() == value@[from as int]);
            assert(now.last() == value@[to - 1]);
        }
        assert(without_outer_hyphens(now) == now);
    }
    if from == to {
        "project".to_owned()
    } else {
        text_between(&value, from, to)
    }
}

/// The label of the project at this path: the last component of the path, in lower case, with a
/// hyphen for every character that is no ASCII letter or digit and none at the two ends;
/// `project` where nothing is left.
pub fn sanitize_project_label(raw: &str) -> (label: String)
    ensures
        exists|name: Option<Seq<char>>| #[trigger]
            may_be_named(raw@, name) && label@ == project_label(name),
        is_portable(raw@) ==> label@ == project_label(last_name(raw@)),
{
    let name = file_name(raw);
    assert(may_be_named(raw@, opt_text(name)));
    match &name {
        Some(n) => label_of_name(Some(n.as_str())),
        None => label_of_name(None),
    }
}

/// Where a path that came out of a form leads: it is taken as it is, or below the working
/// directory.
pub enum PathChoice {
    AsGiven(String),
    UnderWorkingDir(String),
}

impl PathChoice {
    /// The path itself.
    pub open spec fn path(self) -> Seq<char> {
        match self {
            PathChoice::AsGiven(p) => p@,
            PathChoice::UnderWorkingDir(p) => p@,
        }
    }
}

/// The given text without the white space around it, or `default` where nothing is left.
pub open spec fn given_or(raw: Option<Seq<char>>, default: Seq<char>) -> Seq<char> {
    match raw {
        Some(r) => if trimmed(r).len() == 0 {
            default
        } else {
            trimmed(r)
        },
        None => default,
    }
}

/// The contents of a text that may be absent.
pub open spec fn opt_str(s: Option<&str>) -> Option<Seq<char>> {
    match s {
        Some(t) => Some(t@),
        None => None,
    }
}

/// Where a path leads, once it is known whether it is absolute.
pub fn place(path: String, absolute: bool) -> (r: PathChoice)
    ensures
        r.path() == path@,
        r is AsGiven <==> absolute,
{
    if absolute {
        PathChoice::AsGiven(path)
    } else {
        PathChoice::UnderWorkingDir(path)
    }
}

/// What can be said on any platform of where the runs of a form are saved.
pub open spec fn may_be_output_root(raw: Option<Seq<char>>, r: PathChoice) -> bool {
    &&& r.path() == given_or(raw, "out/web"@)
    &&& r.path() == "out/web"@ ==> r is UnderWorkingDir
    &&& r is AsGiven ==> may_be_absolute(r.path())
}

/// Where the runs of a form are saved: in the given directory, or in `out/web` where none is
/// given; below the working directory unless the path is absolute.
pub fn resolve_output_root(raw: Option<&str>) -> (r: PathChoice)
    ensures
        may_be_output_root(opt_str(raw), r),
        r.path() == given_or(opt_str(raw), "out/web"@),
        r.path() == "out/web"@ ==> r is UnderWorkingDir,
        r is AsGiven ==> may_be_absolute(r.path()),
{
    proof {
        reveal_strlit("out/web");
    }
    let default = "out/web".to_owned();
    let path = match raw {
        None => default,
        Some(r) => {
            let value = trim(r);
            if value.as_str().is_empty() {
                default
            } else {
                value
            }
        },
    };
    let absolute = is_absolute(path.as_str());
    place(path, absolute)
}

/// Which directory a preview shows: the given one, below the working directory unless the path
/// is absolute; `samples/basic`, as it is, where none is given after trimming.
pub fn resolve_preview_path(raw: Option<&str>) -> (r: PathChoice)
    ensures
        r.path() == given_or(opt_str(raw), "samples/basic"@),
        raw matches Some(t) ==> trimmed(t@).len() == 0 ==> r is AsGiven,
        raw is None ==> r is UnderWorkingDir,
        r is AsGiven ==> may_be_absolute(r.path()) || (raw is Some && trimmed(raw->0@).len() == 0),
{
    proof {
        reveal_strlit("samples/basic");
    }
    match raw {
        None => {
            let path = "samples/basic".to_owned();
            let absolute = is_absolute(path.as_str());
            place(path, absolute)
        },
        Some(text) => {
            let path = trim(text);
            if path.as_str().is_empty() {
                PathChoice::AsGiven("samples/basic".to_owned())
            } else {
                let absolute = is_absolute(path.as_str());
                place(path, absolute)
            }
        },
    }
}

/// Dropping outer hyphens leaves a text with none at its ends, made of characters of the text.
proof fn lemma_outer_hyphens(s: Seq<char>)
    ensures
        ({
            let r = without_outer_hyphens(s);
            &&& r.len() > 0 ==> r.first() != '-' && r.last() != '-'
            &&& forall|i: int| 0 <= i < r.len() ==> s.contains(#[trigger] r[i])
        }),
    decreases s.len(),
{
    let r = without_outer_hyphens(s);
    if s.len() > 0 && s.first() == '-' {
        lemma_outer_hyphens(s.drop_first());
        assert forall|i: int| 0 <= i < r.len() implies s.contains(#[trigger] r[i]) by {
            assert(s.drop_first().contains(r[i]));
            let j = choose|j: int| 0 <= j < s.drop_first().len() && s.drop_first()[j] == r[i];
            assert(s[j + 1] == r[i]);
        }
    } else if s.len() > 0 && s.last() == '-' {
        lemma_outer_hyphens(s.drop_last());
        assert forall|i: int| 0 <= i < r.len() implies s.contains(#[trigger] r[i]) by {
            assert(s.drop_last().contains(r[i]));
            let j = choose|j: int| 0 <= j < s.drop_last().len() && s.drop_last()[j] == r[i];
            assert(s[j] == r[i]);
        }
    } else {
        assert forall|i: int| 0 <= i < r.len() implies s.contains(#[trigger] r[i]) by {
            assert(s[i] == r[i]);
        }
    }
}

/// The characters of a label.
pub open spec fn is_label_char(c: char) -> bool {
    ('a' <= c <= 'z') || ('0' <= c <= '9') || c == '-'
}

/// Whether a text can serve as a label: it is not empty, holds only lower-case ASCII letters,
/// digits and hyphens, and has no hyphen at its ends.
pub open spec fn is_label(s: Seq<char>) -> bool {
    &&& s.len() > 0
    &&& s.first() != '-'
    &&& s.last() != '-'
    &&& forall|i: int| 0 <= i < s.len() ==> is_label_char(#[trigger] s[i])
}

/// Whatever the directory of a project is called, its label is fit to name a directory.
pub proof fn law_project_label_is_label(name: Option<Seq<char>>)
    ensures
        is_label(project_label(name)),
{
    reveal_strlit("project");
    let candidate = match name {
        Some(n) => n,
        None => "project"@,
    };
    let mapped = candidate.map_values(|c: char| label_char(c));
    let compact = without_outer_hyphens(mapped);
    lemma_outer_hyphens(mapped);
    assert forall|i: int| 0 <= i < compact.len() implies is_label_char(#[trigger] compact[i]) by {
        assert(mapped.contains(compact[i]));
        let j = choose|j: int| 0 <= j < mapped.len() && mapped[j] == compact[i];
        assert(mapped[j] == label_char(candidate[j]));
    }
}

/// The label of a project in a directory that is named like a label is that name; so making a
/// label of a label changes nothing.
pub proof fn law_label_of_label(label: Seq<char>)
    requires
        is_label(label),
    ensures
        is_portable(label),
        project_label(last_name(label)) == label,
{
    assert forall|c: char| label.contains(c) implies is_label_char(c) by {
        let i = choose|i: int| 0 <= i < label.len() && label[i] == c;
        assert(is_label_char(label[i]));
    }
    assert(label[0] == label.first());
    assert(label.last() == label[label.len() - 1]);
    lemma_no_slash(label);
    assert(label.skip(0) == label);
    reveal_strlit(".");
    reveal_strlit("..");
    assert(label != ".."@ && label != "."@) by {
        assert(is_label_char(label[0]));
        assert(".."@[0] == '.' && "."@[0] == '.');
    }
    assert(last_name(label) == Some(label));
    let mapped = label.map_values(|c: char| label_char(c));
    assert forall|i: int| 0 <= i < label.len() implies mapped[i] == #[trigger] label[i] by {
        assert(is_label_char(label[i]));
    }
    assert(mapped == label);
    assert(without_outer_hyphens(label) == label);
}

/// Making a label of the label of any project changes nothing.
pub proof fn law_label_is_stable(name: Option<Seq<char>>)
    ensures
        is_portable(project_label(name)),
        project_label(last_name(project_label(name))) == project_label(name),
{
    law_project_label_is_label(name);
    law_label_of_label(project_label(name));
}

/// The ASCII upper case of `c`; every other character stays as it is.
pub open spec fn upper_char(c: char) -> char {
    if 'a' <= c <= 'z' {
        (c as u8 - 32) as char
    } else {
        c
    }
}

/// `s` with its ASCII letters in upper case.
pub open spec fn uppered(s: Seq<char>) -> Seq<char> {
    s.map_values(|c: char| upper_char(c))
}

/// Upper case leaves the slashes where they are.
proof fn lemma_last_start_uppered(path: Seq<char>)
    ensures
        last_start(uppered(path)) == last_start(path),
    decreases path.len(),
{
    if path.len() > 0 && path.last() != '/' {
        lemma_last_start_uppered(path.drop_last());
        assert(uppered(path).drop_last() == uppered(path.drop_last()));
    }
}

/// The last name of a path in upper case is the last name of the path, in upper case.
proof fn lemma_last_name_uppered(path: Seq<char>)
    ensures
        last_name(uppered(path)) == match last_name(path) {
            Some(name) => Some(uppered(name)),
            None => None,
        },
    decreases path.len(),
{
    if path.len() > 0 {
        let up = uppered(path);
        assert(up.last() == upper_char(path.last()));
        if path.last() == '/' {
            lemma_last_name_uppered(path.drop_last());
            assert(up.drop_last() == uppered(path.drop_last()));
        } else {
            lemma_last_start(path);
            lemma_last_start_uppered(path);
            let start = last_start(path);
            let part = path.skip(start);
            assert(up.skip(start) == uppered(part));
            assert(up.take(start) == uppered(path.take(start)));
            lemma_last_name_uppered(path.take(start));
            reveal_strlit(".");
            reveal_strlit("..");
            lemma_uppered_dots(part, "."@);
            lemma_uppered_dots(part, ".."@);
        }
    }
}

/// A text is made of dots alone exactly where its upper case is.
proof fn lemma_uppered_dots(part: Seq<char>, dots: Seq<char>)
    requires
        forall|i: int| 0 <= i < dots.len() ==> #[trigger] dots[i] == '.',
    ensures
        uppered(part) == dots <==> part == dots,
{
    if part == dots {
        assert(uppered(part) == dots);
    }
    if uppered(part) == dots {
        assert forall|i: int| 0 <= i < part.len() implies part[i] == #[trigger] dots[i] by {
            assert(uppered(part)[i] == upper_char(part[i]));
        }
        assert(part == dots);
    }
}

/// Upper case leaves the separators where they are.
proof fn lemma_component_end_uppered(path: Seq<char>, from: int)
    requires
        0 <= from,
    ensures
        component_end(uppered(path), from) == component_end(path, from),
        component_end(path, from) >= from,
    decreases path.len() - from,
{
    if from < path.len() {
        assert(uppered(path)[from] == upper_char(path[from]));
        if !is_separator(path[from]) {
            lemma_component_end_uppered(path, from + 1);
        }
    }
}

/// A component that begins inside a path ends there.
proof fn lemma_component_end(path: Seq<char>, from: int)
    requires
        0 <= from <= path.len(),
    ensures
        from <= component_end(path, from) <= path.len(),
    decreases path.len() - from,
{
    if from < path.len() && !is_separator(path[from]) {
        lemma_component_end(path, from + 1);
    }
}

/// Upper case leaves the prefix of a path as long as it is.
proof fn lemma_without_prefix_uppered(path: Seq<char>)
    ensures
        begins_with_two_separators(uppered(path)) == begins_with_two_separators(path),
        begins_with_share(uppered(path)) == begins_with_share(path),
        without_prefix(uppered(path)) == uppered(without_prefix(path)),
{
    let up = uppered(path);
    if path.len() >= 2 {
        assert(up[0] == upper_char(path[0]) && up[1] == upper_char(path[1]));
        lemma_component_end_uppered(path, 2);
        lemma_component_end(path, 2);
        let server = server_end(path);
        lemma_component_end_uppered(path, server + 1);
        if server < path.len() {
            lemma_component_end(path, server + 1);
        }
        if server == 3 {
            assert(up[2] == upper_char(path[2]));
        }
        assert(up.skip(2) == uppered(path.skip(2)));
        if begins_with_share(path) {
            assert(server < path.len());
            assert(up.skip(share_end(path)) == uppered(path.skip(share_end(path))));
        }
    }
}

/// Names that differ only in case have the same label.
proof fn lemma_label_uppered(name: Seq<char>)
    ensures
        project_label(Some(uppered(name))) == project_label(Some(name)),
{
    assert(uppered(name).map_values(|c: char| label_char(c)) == name.map_values(
        |c: char| label_char(c),
    ));
}

/// A path in upper case leads to the same label as the path itself, whichever way the path is cut,
/// and is cut alike on all platforms where the path is.
pub proof fn law_label_ignores_case(path: Seq<char>)
    ensures
        is_portable(path) ==> is_portable(uppered(path)),
        has_two_cuts(uppered(path)) == has_two_cuts(path),
        project_label(last_name(uppered(path))) == project_label(last_name(path)),
        project_label(last_windows_name(uppered(path))) == project_label(last_windows_name(path)),
{
    let up = uppered(path);
    if is_portable(path) {
        assert forall|i: int| 0 <= i < up.len() implies up[i] != '\\' by {
            assert(up[i] == upper_char(path[i]));
            assert(path.contains(path[i]));
        }
        if path.len() >= 2 {
            assert(up[0] == upper_char(path[0]) && up[1] == upper_char(path[1]));
        }
    }
    lemma_last_name_uppered(path);
    if let Some(name) = last_name(path) {
        lemma_label_uppered(name);
    }
    lemma_without_prefix_uppered(path);
    let slashed = with_slashes(without_prefix(path));
    assert(with_slashes(uppered(without_prefix(path))) == uppered(slashed));
    lemma_last_name_uppered(slashed);
    if let Some(name) = last_name(slashed) {
        lemma_label_uppered(name);
    }
}

/// A path that all platforms cut alike has one name: both cuts give it.
pub proof fn law_portable_path_has_one_name(path: Seq<char>)
    requires
        is_portable(path),
    ensures
        has_two_cuts(path),
        last_windows_name(path) == last_name(path),
{
    if path.len() >= 2 {
        assert(path.contains(path[0]) && path.contains(path[1]));
    }
    assert(without_prefix(path) == path);
    assert forall|i: int| 0 <= i < path.len() implies with_slashes(path)[i] == path[i] by {
        assert(path.contains(path[i]));
    }
    assert(with_slashes(path) == path);
}

/// A path without a slash is one component.
proof fn lemma_no_slash(path: Seq<char>)
    requires
        !path.contains('/'),
    ensures
        path.len() > 0 ==> path.last() != '/',
        last_start(path) == 0,
    decreases path.len(),
{
    if path.len() > 0 {
        assert(path.last() == path[path.len() - 1]);
        assert forall|i: int| 0 <= i < path.len() - 1 implies path.drop_last()[i] != '/' by {
            assert(path.contains(path[i]));
        }
        lemma_no_slash(path.drop_last());
    }
}

/// The address of a path begins with `file:///` and holds no backslash.
pub proof fn law_file_address_is_absolute(path: Seq<char>)
    ensures
        "file:///"@.is_prefix_of(file_address(path)),
        !file_address(path).contains('\\'),
{
    reveal_strlit("file://");
    reveal_strlit("file:///");
    let url = file_address(path);
    let slashed = with_slashes(path);
    if slashed.len() > 0 && slashed[0] == '/' {
        assert("file:///"@ == url.subrange(0, 8));
    } else {
        assert("file:///"@ == url.subrange(0, 8));
    }
    assert forall|i: int| 0 <= i < url.len() implies url[i] != '\\' by {
        let head = url.len() - slashed.len();
        if i >= head {
            assert(url[i] == slashed[i - head]);
        }
    }
}

/// Whether a text can be the name of a directory: it is not empty, holds no slash, and is neither
/// `.` nor `..`.
pub open spec fn is_plain_name(name: Seq<char>) -> bool {
    name.len() > 0 && !name.contains('/') && name != "."@ && name != ".."@
}

/// Where the last component begins behind a slash.
proof fn lemma_last_start_behind(dir: Seq<char>, name: Seq<char>)
    requires
        !name.contains('/'),
    ensures
        last_start(dir + seq!['/'] + name) == dir.len() + 1,
    decreases name.len(),
{
    let path = dir + seq!['/'] + name;
    if name.len() == 0 {
        assert(path.last() == '/');
    } else {
        assert(path.last() == name[name.len() - 1]);
        assert(name.contains(name[name.len() - 1]));
        let rest = name.drop_last();
        assert forall|i: int| 0 <= i < rest.len() implies rest[i] != '/' by {
            assert(name.contains(name[i]));
        }
        assert(path.drop_last() == dir + seq!['/'] + rest);
        lemma_last_start_behind(dir, rest);
    }
}

/// The name of a path is what stands behind its last slash, whatever stands before it; slashes and
/// `/.` behind it change nothing, and a path that ends in `..` has no name.
pub proof fn law_name_stands_behind_the_last_slash(dir: Seq<char>, name: Seq<char>)
    requires
        is_plain_name(name),
    ensures
        last_name(name) == Some(name),
        last_name(dir + seq!['/'] + name) == Some(name),
        last_name(dir + seq!['/']) == last_name(dir),
        last_name(dir + seq!['/', '.']) == last_name(dir),
        last_name(dir + seq!['/', '.', '.']) is None,
        last_name(seq![]) is None,
        last_name(seq!['.']) is None,
        last_name(seq!['.', '.']) is None,
{
    reveal_strlit(".");
    reveal_strlit("..");
    let dot = seq!['.'];
    let dots = seq!['.', '.'];
    assert("."@ == dot && ".."@ == dots);
    let empty = Seq::<char>::empty();
    let start = dir.len() as int + 1;
    // A name alone.
    lemma_no_slash(name);
    assert(name.skip(0) == name);
    // A name behind a slash.
    let path = dir + seq!['/'] + name;
    lemma_last_start_behind(dir, name);
    assert(path.last() == name[name.len() - 1]);
    assert(name.contains(name[name.len() - 1]));
    assert(path.skip(start) == name);
    // A slash at the end.
    let slashed = dir + seq!['/'];
    assert(slashed.drop_last() == dir);
    assert(slashed.last() == '/');
    // `/.` at the end.
    let here = dir + seq!['/', '.'];
    assert(here == dir + seq!['/'] + dot);
    assert(!dot.contains('/') && !dots.contains('/'));
    lemma_last_start_behind(dir, dot);
    assert(here.last() == '.');
    assert(here.skip(start) == dot);
    assert(here.take(start) == slashed);
    assert(dot != dots) by {
        assert(dot.len() == 1 && dots.len() == 2);
    }
    assert(last_name(here) == last_name(slashed));
    // `/..` at the end.
    let up = dir + seq!['/', '.', '.'];
    assert(up == dir + seq!['/'] + dots);
    lemma_last_start_behind(dir, dots);
    assert(up.last() == '.');
    assert(up.skip(start) == dots);
    // Dots alone.
    lemma_no_slash(dot);
    lemma_no_slash(dots);
    assert(dot.skip(0) == dot && dots.skip(0) == dots);
    assert(dot.take(0) == empty);
    assert(last_name(empty) is None);
    assert(last_name(dot) == last_name(dot.take(0)));
}

/// As Windows cuts it, the name of a path is what stands behind its last slash or backslash,
/// whatever stands before it and whether or not the path begins with a drive; and a drive alone,
/// or a drive and a separator, has no name.
pub proof fn law_windows_name_stands_behind_the_last_separator(
    drive: char,
    dir: Seq<char>,
    sep: char,
    name: Seq<char>,
)
    requires
        is_plain_name(name),
        !name.contains('\\'),
        sep == '/' || sep == '\\',
        ('a' <= drive <= 'z') || ('A' <= drive <= 'Z'),
    ensures
        last_windows_name(seq![drive, ':'] + dir + seq![sep] + name) == Some(name),
        last_windows_name(seq![drive, ':'] + name) == Some(name),
        last_windows_name(seq![drive, ':']) is None,
        last_windows_name(seq![drive, ':', sep]) is None,
        !begins_with_drive(dir + seq![sep] + name) && !begins_with_two_separators(
            dir + seq![sep] + name,
        ) ==> last_windows_name(dir + seq![sep] + name) == Some(name),
{
    let root = seq![drive, ':'];
    let empty = Seq::<char>::empty();
    let behind = dir + seq![sep] + name;
    assert forall|i: int| 0 <= i < name.len() implies with_slashes(name)[i] == name[i] by {
        assert(name.contains(name[i]));
    }
    assert(with_slashes(name) == name);
    assert(with_slashes(behind) == with_slashes(dir) + seq!['/'] + name);
    law_name_stands_behind_the_last_slash(with_slashes(dir), name);
    let p1 = root + dir + seq![sep] + name;
    assert(p1[0] == drive && p1[1] == ':');
    assert(p1.skip(2) == behind);
    let p2 = root + name;
    assert(p2[0] == drive && p2[1] == ':');
    assert(p2.skip(2) == name);
    assert(root.skip(2) == empty);
    assert(with_slashes(empty) == empty);
    let p3 = seq![drive, ':', sep];
    assert(p3.skip(2) == seq![sep]);
    assert(with_slashes(seq![sep]) == empty + seq!['/']);
    law_name_stands_behind_the_last_slash(empty, name);
}

/// Behind a server and a share, Windows cuts a path as any other: what stands behind the last
/// separator is the name, and the server and the share alone have none.
pub proof fn law_shares_have_no_name(
    server: Seq<char>,
    share: Seq<char>,
    dir: Seq<char>,
    sep: char,
    name: Seq<char>,
)
    requires
        is_plain_name(name),
        !name.contains('\\'),
        sep == '/' || sep == '\\',
        is_plain_name(server) && !server.contains('\\') && server != seq!['?'],
        share.len() > 0 && !share.contains('/') && !share.contains('\\'),
    ensures
        ({
            let prefix = seq![sep, sep] + server + seq![sep] + share;
            &&& begins_with_share(prefix)
            &&& last_windows_name(prefix) is None
            &&& begins_with_share(prefix + seq![sep] + dir + seq![sep] + name)
            &&& last_windows_name(prefix + seq![sep] + dir + seq![sep] + name) == Some(name)
        }),
{
    let prefix = seq![sep, sep] + server + seq![sep] + share;
    let tail = seq![sep] + dir + seq![sep] + name;
    let path = prefix + seq![sep] + dir + seq![sep] + name;
    let empty = Seq::<char>::empty();
    reveal_strlit(".");
    assert(server != seq!['.']) by {
        assert("."@ == seq!['.']);
    }
    lemma_share_prefix(server, share, sep, empty);
    assert(prefix + empty == prefix);
    assert(prefix.skip(prefix.len() as int) == empty);
    assert(with_slashes(empty) == empty);
    lemma_share_prefix(server, share, sep, tail);
    assert(path == prefix + tail);
    assert(path.skip(prefix.len() as int) == tail);
    assert forall|i: int| 0 <= i < name.len() implies with_slashes(name)[i] == name[i] by {
        assert(name.contains(name[i]));
    }
    assert(with_slashes(name) == name);
    assert(with_slashes(tail) == with_slashes(seq![sep] + dir) + seq!['/'] + name);
    law_name_stands_behind_the_last_slash(with_slashes(seq![sep] + dir), name);
}

/// A component without separators ends at the next one, or at the end.
proof fn lemma_component_ends(a: Seq<char>, part: Seq<char>, rest: Seq<char>, from: int)
    requires
        !part.contains('/') && !part.contains('\\'),
        rest.len() > 0 ==> is_separator(rest[0]),
        a.len() <= from <= a.len() + part.len(),
    ensures
        component_end(a + part + rest, from) == a.len() + part.len(),
    decreases a.len() + part.len() - from,
{
    let path = a + part + rest;
    if from < a.len() + part.len() {
        assert(path[from] == part[from - a.len()]);
        assert(part.contains(part[from - a.len()]));
        lemma_component_ends(a, part, rest, from + 1);
    } else if rest.len() > 0 {
        assert(path[from] == rest[0]);
    }
}

proof fn lemma_share_prefix(server: Seq<char>, share: Seq<char>, sep: char, rest: Seq<char>)
    requires
        sep == '/' || sep == '\\',
        server.len() > 0 && !server.contains('/') && !server.contains('\\'),
        server != seq!['?'] && server != seq!['.'],
        share.len() > 0 && !share.contains('/') && !share.contains('\\'),
        rest.len() > 0 ==> is_separator(rest[0]),
    ensures
        ({
            let prefix = seq![sep, sep] + server + seq![sep] + share;
            &&& begins_with_share(prefix + rest)
            &&& !begins_with_drive(prefix + rest)
            &&& share_end(prefix + rest) == prefix.len()
        }),
{
    let two = seq![sep, sep];
    let prefix = two + server + seq![sep] + share;
    let path = prefix + rest;
    assert(path[0] == sep && path[1] == sep);
    let after_server = seq![sep] + share + rest;
    assert(path == two + server + after_server);
    lemma_component_ends(two, server, after_server, 2);
    let start = two + server + seq![sep];
    assert(path == start + share + rest);
    lemma_component_ends(start, share, rest, start.len() as int);
    if server_end(path) == 3 {
        assert(path[2] == server[0]);
        assert(server == seq![server[0]]);
    }
}

/// Whether a character is an ASCII letter or digit, by its number.
pub open spec fn counts_for_label(c: char) -> bool {
    let u = c as int;
    (48 <= u <= 57) || (65 <= u <= 90) || (97 <= u <= 122)
}

/// Whether `label` is what a label makes of the characters of `name` from the index `at` on: small
/// letters for letters, digits for digits, and hyphens for the rest.
pub open spec fn is_label_of_part(label: Seq<char>, name: Seq<char>, at: int) -> bool {
    &&& 0 <= at
    &&& at + label.len() <= name.len()
    &&& forall|i: int|
        #![trigger label[i]]
        0 <= i < label.len() ==> {
            let u = name[at + i] as int;
            if !counts_for_label(name[at + i]) {
                label[i] == '-'
            } else if 65 <= u <= 90 {
                label[i] as int == u + 32
            } else {
                label[i] == name[at + i]
            }
        }
}

proof fn lemma_outer_hyphens_part(s: Seq<char>) -> (at: int)
    ensures
        0 <= at,
        at + without_outer_hyphens(s).len() <= s.len(),
        forall|i: int|
            0 <= i < without_outer_hyphens(s).len() ==> #[trigger] without_outer_hyphens(s)[i]
                == s[at + i],
        forall|i: int|
            0 <= i < s.len() && (i < at || i >= at + without_outer_hyphens(s).len())
                ==> #[trigger] s[i] == '-',
    decreases s.len(),
{
    let r = without_outer_hyphens(s);
    if s.len() > 0 && s.first() == '-' {
        let inner = s.drop_first();
        let at = lemma_outer_hyphens_part(inner);
        assert forall|i: int| 0 <= i < r.len() implies #[trigger] r[i] == s[at + 1 + i] by {
            assert(r[i] == inner[at + i]);
        }
        assert forall|i: int| 0 <= i < s.len() && (i < at + 1 || i >= at + 1 + r.len()) implies
            #[trigger] s[i] == '-' by {
            if i > 0 {
                assert(s[i] == inner[i - 1]);
            }
        }
        at + 1
    } else if s.len() > 0 && s.last() == '-' {
        let inner = s.drop_last();
        let at = lemma_outer_hyphens_part(inner);
        assert forall|i: int| 0 <= i < r.len() implies #[trigger] r[i] == s[at + i] by {
            assert(r[i] == inner[at + i]);
        }
        assert forall|i: int| 0 <= i < s.len() && (i < at || i >= at + r.len()) implies
            #[trigger] s[i] == '-' by {
            if i < s.len() - 1 {
                assert(s[i] == inner[i]);
            }
        }
        at
    } else {
        0
    }
}

/// The label of a name runs from the first to the last ASCII letter or digit of the name, keeps
/// the digits, turns letters into small ones, and has a hyphen for every other character between
/// them. A name without letters and digits, and no name, have the label `project`.
pub proof fn law_label_spans_letters_and_digits(name: Seq<char>)
    ensures
        (forall|i: int| 0 <= i < name.len() ==> !counts_for_label(#[trigger] name[i]))
            ==> project_label(Some(name)) == "project"@,
        (exists|i: int| 0 <= i < name.len() && counts_for_label(#[trigger] name[i])) ==> {
            let label = project_label(Some(name));
            exists|at: int|
                #![trigger is_label_of_part(label, name, at)]
                is_label_of_part(label, name, at) && label.len() > 0 && counts_for_label(name[at])
                    && counts_for_label(name[at + label.len() - 1]) && (forall|i: int|
                    0 <= i < name.len() && counts_for_label(#[trigger] name[i]) ==> at <= i < at
                        + label.len())
        },
        project_label(None) == "project"@,
{
    let mapped = name.map_values(|c: char| label_char(c));
    let compact = without_outer_hyphens(mapped);
    let at = lemma_outer_hyphens_part(mapped);
    lemma_outer_hyphens(mapped);
    assert forall|i: int| 0 <= i < name.len() implies (#[trigger] mapped[i] == '-'
        <==> !counts_for_label(name[i])) by {
        assert(mapped[i] == label_char(name[i]));
    }
    if exists|i: int| 0 <= i < name.len() && counts_for_label(#[trigger] name[i]) {
        let j = choose|i: int| 0 <= i < name.len() && counts_for_label(#[trigger] name[i]);
        assert(mapped[j] != '-');
        assert(at <= j < at + compact.len());
        let label = project_label(Some(name));
        assert(label == compact);
        assert(is_label_of_part(label, name, at)) by {
            assert forall|i: int| 0 <= i < label.len() implies {
                let u = name[at + i] as int;
                if !counts_for_label(name[at + i]) {
                    #[trigger] label[i] == '-'
                } else if 65 <= u <= 90 {
                    label[i] as int == u + 32
                } else {
                    label[i] == name[at + i]
                }
            } by {
                assert(label[i] == mapped[at + i]);
            }
        }
        assert(label[0] == mapped[at]);
        assert(label[label.len() - 1] == mapped[at + label.len() - 1]);
        assert forall|i: int| 0 <= i < name.len() && counts_for_label(#[trigger] name[i]) implies
            at <= i < at + label.len() by {
            assert(mapped[i] != '-');
        }
    } else {
        if compact.len() > 0 {
            assert(compact[0] == mapped[at]);
            assert(!counts_for_label(name[at]));
        }
    }
    reveal_strlit("project");
    let p = "project"@;
    let mp = p.map_values(|c: char| label_char(c));
    assert(mp == p);
    assert(without_outer_hyphens(p) == p);
}

/// The address of a path is `file:`, two slashes, a third one where the path does not begin with a
/// slash or backslash, and then the path, character by character, with a slash for each backslash.
pub proof fn law_file_address_ends_with_the_path(path: Seq<char>)
    ensures
        ({
            let url = file_address(path);
            let head = if path.len() > 0 && (path[0] == '/' || path[0] == '\\') {
                "file://"@
            } else {
                "file:///"@
            };
            &&& url.len() == head.len() + path.len()
            &&& url.take(head.len() as int) == head
            &&& forall|i: int|
                #![trigger path[i]]
                0 <= i < path.len() ==> url[head.len() + i] == if path[i] == '\\' {
                    '/'
                } else {
                    path[i]
                }
        }),
{
    let slashed = with_slashes(path);
    if path.len() > 0 {
        assert(slashed[0] == if path[0] == '\\' { '/' } else { path[0] });
    }
    let url = file_address(path);
    let head = if path.len() > 0 && (path[0] == '/' || path[0] == '\\') {
        "file://"@
    } else {
        "file:///"@
    };
    assert(url == head + slashed);
    assert(url.take(head.len() as int) == head);
    assert forall|i: int|
        #![trigger path[i]]
        0 <= i < path.len() implies url[head.len() + i] == if path[i] == '\\' {
        '/'
    } else {
        path[i]
    } by {
        assert(url[head.len() + i] == slashed[i]);
    }
}

/// Where a path leads, it is the path that is told, whichever way it is taken; and a path that is not
/// absolute on any platform is taken below the working directory.
pub proof fn law_output_root_is_the_given_path(raw: Option<Seq<char>>, r: PathChoice)
    requires
        may_be_output_root(raw, r),
    ensures
        r matches PathChoice::AsGiven(path) ==> path@ == given_or(raw, "out/web"@),
        r matches PathChoice::UnderWorkingDir(path) ==> path@ == given_or(raw, "out/web"@),
        ({
            let path = given_or(raw, "out/web"@);
            path.len() > 0 && path[0] != '/' && path[0] != '\\' && !path.contains(':')
                ==> r is UnderWorkingDir
        }),
{
}

/// What a field gives is what stands between the white space around it; a field that is blank or
/// absent gives the default.
pub proof fn law_fields_give_what_they_hold(
    before: Seq<char>,
    value: Seq<char>,
    after: Seq<char>,
    default: Seq<char>,
)
    requires
        is_blank(before),
        is_blank(after),
        value.len() > 0 ==> !is_white_space(value[0]) && !is_white_space(value[value.len() - 1]),
    ensures
        given_or(Some(before + value + after), default) == if value.len() > 0 {
            value
        } else {
            default
        },
        given_or(None, default) == default,
{
    law_trimming_keeps_what_is_between(before, value, after);
}

} // verus!

//! Where a browser that can print a page to PDF is looked for.
//!
//! The search lists candidates in order of preference; which of them are files is found out by
//! whoever runs it.

use vstd::prelude::*;

verus! {

/// A directory under which Windows keeps installed programs.
#[derive(Clone, Copy, PartialEq, Eq, Structural, Debug)]
pub enum WindowsBase {
    ProgramFiles,
    ProgramFilesX86,
    LocalAppData,
}

/// A place where a browser may be: a path that was given, a file name in one of the directories
/// of the search path (by its index there), or a path below a directory of Windows.
#[derive(Debug)]
pub enum BrowserCandidate {
    Given(String),
    InSearchPath { dir: usize, name: String },
    Installed { base: WindowsBase, path: &'static str },
}

/// The model of a [`BrowserCandidate`].
pub enum CandidateView {
    Given(Seq<char>),
    InSearchPath { dir: nat, name: Seq<char> },
    Installed { base: WindowsBase, path: Seq<char> },
}

impl View for BrowserCandidate {
    type V = CandidateView;

    open spec fn view(&self) -> CandidateView {
        match self {
            BrowserCandidate::Given(path) => CandidateView::Given(path@),
            BrowserCandidate::InSearchPath { dir, name } => CandidateView::InSearchPath {
                dir: *dir as nat,
                name: name@,
            },
            BrowserCandidate::Installed { base, path } => CandidateView::Installed {
                base: *base,
                path: path@,
            },
        }
    }
}

/// The models of a list of candidates.
pub open spec fn candidate_views(list: Seq<BrowserCandidate>) -> Seq<CandidateView> {
    list.map_values(|c: BrowserCandidate| c@)
}

/// What the search for a browser starts from.
pub struct BrowserSearch {
    /// The variable `SLOC_BROWSER`, where it is set to valid text.
    pub sloc_browser: Option<String>,
    /// The variable `BROWSER`, where it is set to valid text.
    pub browser: Option<String>,
    /// How many directories the search path lists.
    pub search_dirs: usize,
    /// Whether the platform is Windows.
    pub windows: bool,
    /// Whether the variable `ProgramFiles` is set.
    pub program_files: bool,
    /// Whether the variable `ProgramFiles(x86)` is set.
    pub program_files_x86: bool,
    /// Whether the variable `LocalAppData` is set.
    pub local_app_data: bool,
}

/// The file names of the supported browsers, in order of preference.
pub open spec fn browser_names() -> Seq<Seq<char>> {
    seq![
        "chromium"@,
        "chromium-browser"@,
        "google-chrome"@,
        "google-chrome-stable"@,
        "microsoft-edge"@,
        "msedge"@,
        "brave"@,
        "brave-browser"@,
        "vivaldi"@,
        "opera"@,
        "opera-stable"@,
    ]
}

/// The candidates for one file name in the first `dirs` directories of the search path.
pub open spec fn search_path_candidates(exe: Seq<char>, dirs: nat, windows: bool) -> Seq<
    CandidateView,
>
    decreases dirs,
{
    if dirs == 0 {
        seq![]
    } else {
        let dir = (dirs - 1) as nat;
        let plain = search_path_candidates(exe, dir, windows).push(
            CandidateView::InSearchPath { dir, name: exe },
        );
        if windows {
            plain.push(CandidateView::InSearchPath { dir, name: exe + ".exe"@ })
        } else {
            plain
        }
    }
}

/// The candidates for the given file names, all directories for the first name first.
pub open spec fn named_candidates(names: Seq<Seq<char>>, dirs: nat, windows: bool) -> Seq<
    CandidateView,
>
    decreases names.len(),
{
    if names.len() == 0 {
        seq![]
    } else {
        named_candidates(names.drop_last(), dirs, windows) + search_path_candidates(
            names.last(),
            dirs,
            windows,
        )
    }
}

/// The browsers below a directory of Windows that holds programs for all users.
pub open spec fn program_files_paths() -> Seq<Seq<char>> {
    seq![
        "Google/Chrome/Application/chrome.exe"@,
        "Microsoft/Edge/Application/msedge.exe"@,
        "BraveSoftware/Brave-Browser/Application/brave.exe"@,
        "Vivaldi/Application/vivaldi.exe"@,
        "Opera/launcher.exe"@,
        "Opera GX/launcher.exe"@,
    ]
}

/// The browsers below the directory of Windows that holds the programs of one user.
pub open spec fn local_app_data_paths() -> Seq<Seq<char>> {
    seq![
        "Google/Chrome/Application/chrome.exe"@,
        "Microsoft/Edge/Application/msedge.exe"@,
        "BraveSoftware/Brave-Browser/Application/brave.exe"@,
        "Vivaldi/Application/vivaldi.exe"@,
        "Programs/Opera/launcher.exe"@,
        "Programs/Opera GX/launcher.exe"@,
    ]
}

/// The candidates below one directory of Windows, where it is known.
pub open spec fn installed_under(
    known: bool,
    base: WindowsBase,
    paths: Seq<Seq<char>>,
) -> Seq<CandidateView> {
    if known {
        paths.map_values(|path: Seq<char>| CandidateView::Installed { base, path })
    } else {
        seq![]
    }
}

/// The candidates below the directories of Windows.
pub open spec fn windows_candidates(
    program_files: bool,
    program_files_x86: bool,
    local_app_data: bool,
) -> Seq<CandidateView> {
    installed_under(program_files, WindowsBase::ProgramFiles, program_files_paths())
        + installed_under(program_files_x86, WindowsBase::ProgramFilesX86, program_files_paths())
        + installed_under(local_app_data, WindowsBase::LocalAppData, local_app_data_paths())
}

/// The candidate that a variable names, where it is set.
pub open spec fn given_candidate(variable: Option<String>) -> Seq<CandidateView> {
    match variable {
        Some(path) => seq![CandidateView::Given(path@)],
        None => seq![],
    }
}

/// All candidates of a search, in order of preference: the variables `SLOC_BROWSER` and
/// `BROWSER`, the search path, and on Windows the usual places of installation.
pub open spec fn candidate_list(search: BrowserSearch) -> Seq<CandidateView> {
    given_candidate(search.sloc_browser) + given_candidate(search.browser) + named_candidates(
        browser_names(),
        search.search_dirs as nat,
        search.windows,
    ) + if search.windows {
        windows_candidates(
            search.program_files,
            search.program_files_x86,
            search.local_app_data,
        )
    } else {
        seq![]
    }
}

/// Appends one candidate.
fn put(list: &mut Vec<BrowserCandidate>, c: BrowserCandidate)
    ensures
        candidate_views(final(list)@) == candidate_views(old(list)@).push(c@),
{
    let ghost before = list@;
    list.push(c);
    assert(candidate_views(list@) == candidate_views(before).push(c@));
}

/// Appends the candidates for one file name in the directories of the search path.
fn which_in_path(list: &mut Vec<BrowserCandidate>, exe: &str, dirs: usize, windows: bool)
    ensures
        candidate_views(final(list)@) == candidate_views(old(list)@) + search_path_candidates(
            exe@,
            dirs as nat,
            windows,
        ),
{
    let ghost given = candidate_views(list@);
    let mut dir: usize = 0;
    assert(given + search_path_candidates(exe@, 0, windows) == given);
    while dir < dirs
        invariant
            dir <= dirs,
            candidate_views(list@) == given + search_path_candidates(exe@, dir as nat, windows),
        decreases dirs - dir,
    {
        let ghost before = search_path_candidates(exe@, dir as nat, windows);
        put(list, BrowserCandidate::InSearchPath { dir, name: exe.to_owned() });
        let ghost plain = CandidateView::InSearchPath { dir: dir as nat, name: exe@ };
        assert(candidate_views(list@) == given + before.push(plain));
        if windows {
            let mut name = exe.to_owned();
            name.append(".exe");
            let ghost suffixed = CandidateView::InSearchPath {
                dir: dir as nat,
                name: exe@ + ".exe"@,
            };
            put(list, BrowserCandidate::InSearchPath { dir, name });
            assert(candidate_views(list@) == given + before.push(plain).push(suffixed));
        }
        dir = dir + 1;
    }
}

/// Appends the candidates below one directory of Windows.
fn put_installed(
    list: &mut Vec<BrowserCandidate>,
    known: bool,
    base: WindowsBase,
    paths: &Vec<&'static str>,
)
    ensures
        candidate_views(final(list)@) == candidate_views(old(list)@) + installed_under(
            known,
            base,
            paths@.map_values(|p: &'static str| p@),
        ),
{
    let ghost given = candidate_views(list@);
    let ghost whole = installed_under(known, base, paths@.map_values(|p: &'static str| p@));
    if known {
        let mut i: usize = 0;
        assert(given + whole.take(0) == given);
        while i < paths.len()
            invariant
                i <= paths@.len(),
                whole == paths@.map_values(|p: &'static str| p@).map_values(
                    |path: Seq<char>| CandidateView::Installed { base, path },
                ),
                candidate_views(list@) == given + whole.take(i as int),
            decreases paths@.len() - i,
        {
            put(list, BrowserCandidate::Installed { base, path: paths[i] });
            i = i + 1;
            assert(whole.take(i as int) == whole.take(i - 1).push(whole[i - 1]));
            assert(candidate_views(list@) == given + whole.take(i as int));
        }
        assert(whole.take(paths@.len() as int) == whole);
    } else {
        assert(given + whole == given);
    }
}

/// The candidates below the directories of Windows, of which it is said whether they are known.
pub fn windows_browser_candidates(
    program_files: bool,
    program_files_x86: bool,
    local_app_data: bool,
) -> (list: Vec<BrowserCandidate>)
    ensures
        candidate_views(list@) == windows_candidates(
            program_files,
            program_files_x86,
            local_app_data,
        ),
{
    let shared: Vec<&'static str> = vec![
        "Google/Chrome/Application/chrome.exe",
        "Microsoft/Edge/Application/msedge.exe",
        "BraveSoftware/Brave-Browser/Application/brave.exe",
        "Vivaldi/Application/vivaldi.exe",
        "Opera/launcher.exe",
        "Opera GX/launcher.exe",
    ];
    assert(shared@.map_values(|p: &'static str| p@) == program_files_paths());
    let own: Vec<&'static str> = vec![
        "Google/Chrome/Application/chrome.exe",
        "Microsoft/Edge/Application/msedge.exe",
        "BraveSoftware/Brave-Browser/Application/brave.exe",
        "Vivaldi/Application/vivaldi.exe",
        "Programs/Opera/launcher.exe",
        "Programs/Opera GX/launcher.exe",
    ];
    assert(own@.map_values(|p: &'static str| p@) == local_app_data_paths());
    let mut list: Vec<BrowserCandidate> = Vec::new();
    put_installed(&mut list, program_files, WindowsBase::ProgramFiles, &shared);
    put_installed(&mut list, program_files_x86, WindowsBase::ProgramFilesX86, &shared);
    put_installed(&mut list, local_app_data, WindowsBase::LocalAppData, &own);
    proof {
        let empty = Seq::<CandidateView>::empty();
        assert(candidate_views(Seq::<BrowserCandidate>::empty()) == empty);
        let first = installed_under(
            program_files,
            WindowsBase::ProgramFiles,
            program_files_paths(),
        );
        assert(empty + first == first);
    }
    list
}

/// All candidates of a search, in order of preference.
pub fn browser_candidates(search: &BrowserSearch) -> (list: Vec<BrowserCandidate>)
    ensures
        candidate_views(list@) == candidate_list(*search),
{
    let mut list: Vec<BrowserCandidate> = Vec::new();
    assert(candidate_views(list@) == Seq::<CandidateView>::empty());
    if let Some(path) = &search.sloc_browser {
        put(&mut list, BrowserCandidate::Given(path.clone()));
    }
    assert(candidate_views(list@) == given_candidate(search.sloc_browser));
    if let Some(path) = &search.browser {
        put(&mut list, BrowserCandidate::Given(path.clone()));
    }
    let ghost given = given_candidate(search.sloc_browser) + given_candidate(search.browser);
    assert(candidate_views(list@) == given);
    let names: Vec<&'static str> = vec![
        "chromium",
        "chromium-browser",
        "google-chrome",
        "google-chrome-stable",
        "microsoft-edge",
        "msedge",
        "brave",
        "brave-browser",
        "vivaldi",
        "opera",
        "opera-stable",
    ];
    let ghost all = names@.map_values(|n: &'static str| n@);
    assert(all == browser_names());
    let dirs: usize = search.search_dirs;
    let mut i: usize = 0;
    assert(given + named_candidates(all.take(0), dirs as nat, search.windows) == given);
    while i < names.len()
        invariant
            i <= names@.len(),
            all == names@.map_values(|n: &'static str| n@),
            candidate_views(list@) == given + named_candidates(
                all.take(i as int),
                dirs as nat,
                search.windows,
            ),
        decreases names@.len() - i,
    {
        which_in_path(&mut list, names[i], dirs, search.windows);
        i = i + 1;
        proof {
            assert(all.take(i as int).drop_last() == all.take(i - 1));
            let before = named_candidates(all.take(i - 1), dirs as nat, search.windows);
            let more = search_path_candidates(all[i - 1], dirs as nat, search.windows);
            assert(given + before + more == given + (before + more));
        }
    }
    assert(all.take(all.len() as int) == all);
    let ghost found = candidate_views(list@);
    if search.windows {
        let mut installed = windows_browser_candidates(
            search.program_files,
            search.program_files_x86,
            search.local_app_data,
        );
        let ghost before = list@;
        let ghost more = installed@;
        list.append(&mut installed);
        assert(candidate_views(list@) == candidate_views(before) + candidate_views(more));
    } else {
        assert(found + Seq::<CandidateView>::empty() == found);
    }
    list
}

/// The browser that is used: the first candidate that is a file, by its index in the list.
pub fn discover_browser(is_file: &Vec<bool>) -> (r: Option<usize>)
    ensures
        match r {
            Some(i) => i < is_file@.len() && is_file@[i as int] && forall|j: int|
                0 <= j < i ==> !#[trigger] is_file@[j],
            None => forall|j: int| 0 <= j < is_file@.len() ==> !#[trigger] is_file@[j],
        },
{
    let mut i: usize = 0;
    while i < is_file.len()
        invariant
            i <= is_file@.len(),
            forall|j: int| 0 <= j < i ==> !#[trigger] is_file@[j],
        decreases is_file@.len() - i,
    {
        if is_file[i] {
            return Some(i);
        }
        i = i + 1;
    }
    None
}

/// A browser that is named by `SLOC_BROWSER` comes first, and one named by `BROWSER` comes
/// before all that are searched for.
pub proof fn law_named_browser_comes_first(search: BrowserSearch)
    ensures
        search.sloc_browser matches Some(path) ==> candidate_list(search).len() > 0
            && candidate_list(search)[0] == CandidateView::Given(path@),
        search.browser matches Some(path) ==> {
            let at = if search.sloc_browser is Some {
                1int
            } else {
                0
            };
            candidate_list(search).len() > at && candidate_list(search)[at]
                == CandidateView::Given(path@)
        },
{
}

/// Off Windows, a browser whose name stands earlier in the list is preferred to one whose name
/// stands later, whatever directories they are in; of one name the earlier directory is preferred.
pub proof fn law_names_come_before_directories(names: Seq<Seq<char>>, dirs: nat, i: int, dir: int)
    requires
        0 <= i < names.len(),
        0 <= dir < dirs,
    ensures
        named_candidates(names, dirs, false).len() == names.len() * dirs,
        0 <= i * dirs + dir < names.len() * dirs,
        named_candidates(names, dirs, false)[i * dirs + dir] == (CandidateView::InSearchPath {
            dir: dir as nat,
            name: names[i],
        }),
    decreases names.len(),
{
    let before = names.drop_last();
    lemma_named_len(names, dirs);
    lemma_named_len(before, dirs);
    lemma_search_path(names.last(), dirs);
    assert(i * dirs + dir < (i + 1) * dirs) by (nonlinear_arith)
        requires
            dir < dirs,
    ;
    assert((i + 1) * dirs <= names.len() * dirs) by (nonlinear_arith)
        requires
            i + 1 <= names.len(),
            0 <= dirs,
    ;
    assert(0 <= i * dirs) by (nonlinear_arith)
        requires
            0 <= i,
            0 <= dirs,
    ;
    if i < before.len() {
        law_names_come_before_directories(before, dirs, i, dir);
        assert(before[i] == names[i]);
    } else {
        assert(i == before.len());
        let at = i * dirs + dir;
        assert(named_candidates(before, dirs, false).len() == i * dirs);
        assert(named_candidates(names, dirs, false)[at] == search_path_candidates(
            names.last(),
            dirs,
            false,
        )[dir]);
    }
}

proof fn lemma_search_path(exe: Seq<char>, dirs: nat)
    ensures
        search_path_candidates(exe, dirs, false).len() == dirs,
        forall|d: int|
            0 <= d < dirs ==> #[trigger] search_path_candidates(exe, dirs, false)[d] == (
            CandidateView::InSearchPath { dir: d as nat, name: exe }),
    decreases dirs,
{
    if dirs > 0 {
        lemma_search_path(exe, (dirs - 1) as nat);
    }
}

proof fn lemma_named_len(names: Seq<Seq<char>>, dirs: nat)
    ensures
        named_candidates(names, dirs, false).len() == names.len() * dirs,
    decreases names.len(),
{
    if names.len() > 0 {
        lemma_named_len(names.drop_last(), dirs);
        lemma_search_path(names.last(), dirs);
        assert((names.len() - 1) * dirs + dirs == names.len() * dirs) by (nonlinear_arith);
    } else {
        assert(0 * dirs == 0);
    }
}

/// The file name of the browser that is looked for as the `i`th.
pub open spec fn supported_browser(i: int) -> Seq<char> {
    if i == 0 {
        "chromium"@
    } else if i == 1 {
        "chromium-browser"@
    } else if i == 2 {
        "google-chrome"@
    } else if i == 3 {
        "google-chrome-stable"@
    } else if i == 4 {
        "microsoft-edge"@
    } else if i == 5 {
        "msedge"@
    } else if i == 6 {
        "brave"@
    } else if i == 7 {
        "brave-browser"@
    } else if i == 8 {
        "vivaldi"@
    } else if i == 9 {
        "opera"@
    } else {
        "opera-stable"@
    }
}

/// How many candidates the variables give.
pub open spec fn given_count(search: BrowserSearch) -> int {
    (if search.sloc_browser is Some {
        1int
    } else {
        0
    }) + (if search.browser is Some {
        1int
    } else {
        0
    })
}

proof fn lemma_search_path_on_windows(exe: Seq<char>, dirs: nat)
    ensures
        search_path_candidates(exe, dirs, true).len() == 2 * dirs,
        forall|d: int|
            #![trigger search_path_candidates(exe, dirs, true)[2 * d]]
            0 <= d < dirs ==> search_path_candidates(exe, dirs, true)[2 * d] == (
            CandidateView::InSearchPath { dir: d as nat, name: exe }) && search_path_candidates(
                exe,
                dirs,
                true,
            )[2 * d + 1] == (CandidateView::InSearchPath { dir: d as nat, name: exe + ".exe"@ }),
    decreases dirs,
{
    if dirs > 0 {
        let less = (dirs - 1) as nat;
        lemma_search_path_on_windows(exe, less);
        let now = search_path_candidates(exe, dirs, true);
        let before = search_path_candidates(exe, less, true);
        assert forall|d: int|
            #![trigger now[2 * d]]
            0 <= d < dirs implies now[2 * d] == (CandidateView::InSearchPath {
            dir: d as nat,
            name: exe,
        }) && now[2 * d + 1] == (CandidateView::InSearchPath {
            dir: d as nat,
            name: exe + ".exe"@,
        }) by {
            if d < less {
                assert(now[2 * d] == before[2 * d]);
                assert(now[2 * d + 1] == before[2 * d + 1]);
            }
        }
    }
}

/// Where the candidates for one of the names stand among those for all.
proof fn lemma_named_part(names: Seq<Seq<char>>, dirs: nat, windows: bool, i: int, k: int)
    requires
        0 <= i < names.len(),
        0 <= k < search_path_candidates(names[i], dirs, windows).len(),
    ensures
        ({
            let width: int = if windows {
                2 * dirs as int
            } else {
                dirs as int
            };
            let all = named_candidates(names, dirs, windows);
            &&& search_path_candidates(names[i], dirs, windows).len() == width
            &&& all.len() == names.len() * width
            &&& 0 <= i * width + k < all.len()
            &&& all[i * width + k] == search_path_candidates(names[i], dirs, windows)[k]
        }),
    decreases names.len(),
{
    let width: int = if windows {
        2 * dirs as int
    } else {
        dirs as int
    };
    let before = names.drop_last();
    lemma_named_width(names, dirs, windows);
    lemma_named_width(before, dirs, windows);
    lemma_search_path(names[i], dirs);
    lemma_search_path_on_windows(names[i], dirs);
    assert(i * width + k < (i + 1) * width) by (nonlinear_arith)
        requires
            k < width,
    ;
    assert((i + 1) * width <= names.len() * width) by (nonlinear_arith)
        requires
            i + 1 <= names.len(),
            0 <= width,
    ;
    assert(0 <= i * width) by (nonlinear_arith)
        requires
            0 <= i,
            0 <= width,
    ;
    if i < before.len() {
        assert(before[i] == names[i]);
        lemma_named_part(before, dirs, windows, i, k);
    } else {
        assert(i == before.len());
        assert(named_candidates(before, dirs, windows).len() == i * width);
    }
}

proof fn lemma_named_width(names: Seq<Seq<char>>, dirs: nat, windows: bool)
    ensures
        named_candidates(names, dirs, windows).len() == names.len() * (if windows {
            2 * dirs as int
        } else {
            dirs as int
        }),
    decreases names.len(),
{
    let width: int = if windows {
        2 * dirs as int
    } else {
        dirs as int
    };
    if names.len() > 0 {
        lemma_named_width(names.drop_last(), dirs, windows);
        lemma_search_path(names.last(), dirs);
        lemma_search_path_on_windows(names.last(), dirs);
        assert((names.len() - 1) * width + width == names.len() * width) by (nonlinear_arith);
    } else {
        assert(0 * width == 0);
    }
}

/// Whether or not the variables name a browser, every supported browser is looked for in every
/// directory of the search path, behind what the variables name: all directories for one browser
/// before the next browser, and on Windows also under its name with `.exe`, in the same directory.
pub proof fn law_every_browser_is_searched(search: BrowserSearch, i: int, dir: int)
    requires
        0 <= i < 11,
        0 <= dir < search.search_dirs,
    ensures
        ({
            let list = candidate_list(search);
            let name = supported_browser(i);
            let found = CandidateView::InSearchPath { dir: dir as nat, name };
            let at = i * search.search_dirs + dir;
            if search.windows {
                let k = given_count(search) + i * (2 * search.search_dirs) + 2 * dir;
                &&& 0 <= k && k + 1 < list.len()
                &&& list[k] == found
                &&& list[k + 1] == (CandidateView::InSearchPath {
                    dir: dir as nat,
                    name: name + ".exe"@,
                })
            } else {
                let k = given_count(search) + at;
                &&& 0 <= k < list.len()
                &&& list[k] == found
            }
        }),
{
    let dirs = search.search_dirs as nat;
    let names = browser_names();
    assert(names[i] == supported_browser(i));
    let given = given_candidate(search.sloc_browser) + given_candidate(search.browser);
    assert(given.len() == given_count(search));
    lemma_search_path(names[i], dirs);
    lemma_search_path_on_windows(names[i], dirs);
    let part = search_path_candidates(names[i], dirs, search.windows);
    if search.windows {
        lemma_named_part(names, dirs, true, i, 2 * dir);
        lemma_named_part(names, dirs, true, i, 2 * dir + 1);
        assert(part[2 * dir] == (CandidateView::InSearchPath {
            dir: dir as nat,
            name: names[i],
        }));
    } else {
        lemma_named_part(names, dirs, false, i, dir);
    }
}

/// A search lists nothing else: what the variables name, the supported browsers in the search path
/// and, on Windows alone, six places of installation below each directory that is known. What the
/// variables name comes first, `SLOC_BROWSER` before `BROWSER`.
pub proof fn law_search_lists_nothing_else(search: BrowserSearch)
    ensures
        ({
            let list = candidate_list(search);
            let known: int = (if search.program_files {
                1int
            } else {
                0
            }) + (if search.program_files_x86 {
                1int
            } else {
                0
            }) + (if search.local_app_data {
                1int
            } else {
                0
            });
            &&& list.len() == given_count(search) + if search.windows {
                22 * search.search_dirs + 6 * known
            } else {
                11 * search.search_dirs as int
            }
            &&& search.sloc_browser matches Some(path) ==> list[0] == CandidateView::Given(path@)
            &&& search.browser matches Some(path) ==> list[given_count(search) - 1]
                == CandidateView::Given(path@)
        }),
{
    let dirs = search.search_dirs as nat;
    lemma_named_width(browser_names(), dirs, search.windows);
    assert(browser_names().len() == 11);
}

/// The place below a directory of Windows where the `k`th browser is installed; a user's own
/// programs stand below a directory of their own for the last two.
pub open spec fn place_of_installation(base: WindowsBase, k: int) -> Seq<char> {
    if k == 0 {
        "Google/Chrome/Application/chrome.exe"@
    } else if k == 1 {
        "Microsoft/Edge/Application/msedge.exe"@
    } else if k == 2 {
        "BraveSoftware/Brave-Browser/Application/brave.exe"@
    } else if k == 3 {
        "Vivaldi/Application/vivaldi.exe"@
    } else if base == WindowsBase::LocalAppData {
        if k == 4 {
            "Programs/Opera/launcher.exe"@
        } else {
            "Programs/Opera GX/launcher.exe"@
        }
    } else {
        if k == 4 {
            "Opera/launcher.exe"@
        } else {
            "Opera GX/launcher.exe"@
        }
    }
}

/// Whether a directory of Windows is known to a search.
pub open spec fn is_known(search: BrowserSearch, base: WindowsBase) -> bool {
    match base {
        WindowsBase::ProgramFiles => search.program_files,
        WindowsBase::ProgramFilesX86 => search.program_files_x86,
        WindowsBase::LocalAppData => search.local_app_data,
    }
}

/// On Windows, whether or not the variables name a browser, all places of installation below each
/// directory that is known are candidates, behind the search path and in their order.
pub proof fn law_every_place_of_installation_is_searched(
    search: BrowserSearch,
    base: WindowsBase,
    k: int,
)
    requires
        search.windows,
        is_known(search, base),
        0 <= k < 6,
    ensures
        ({
            let list = candidate_list(search);
            let before: int = match base {
                WindowsBase::ProgramFiles => 0int,
                WindowsBase::ProgramFilesX86 => if search.program_files {
                    6
                } else {
                    0
                },
                WindowsBase::LocalAppData => (if search.program_files {
                    6int
                } else {
                    0
                }) + (if search.program_files_x86 {
                    6int
                } else {
                    0
                }),
            };
            let at = given_count(search) + 22 * search.search_dirs + before + k;
            &&& 0 <= at < list.len()
            &&& list[at] == (CandidateView::Installed {
                base,
                path: place_of_installation(base, k),
            })
        }),
{
    let dirs = search.search_dirs as nat;
    lemma_named_width(browser_names(), dirs, true);
    assert(browser_names().len() == 11);
    let own = base == WindowsBase::LocalAppData;
    let paths = if own {
        local_app_data_paths()
    } else {
        program_files_paths()
    };
    assert(paths.len() == 6);
    assert(paths[k] == place_of_installation(base, k));
    assert(installed_under(true, base, paths)[k] == (CandidateView::Installed {
        base,
        path: paths[k],
    }));
    assert(program_files_paths().len() == 6 && local_app_data_paths().len() == 6);
}

/// A candidate stands for the place that it names.
pub proof fn law_candidates_are_what_they_name(list: Seq<BrowserCandidate>, i: int)
    requires
        0 <= i < list.len(),
    ensures
        candidate_views(list).len() == list.len(),
        list[i] matches BrowserCandidate::Given(path) ==> candidate_views(list)[i]
            == CandidateView::Given(path@),
        list[i] matches BrowserCandidate::InSearchPath { dir, name } ==> candidate_views(list)[i]
            == (CandidateView::InSearchPath { dir: dir as nat, name: name@ }),
        list[i] matches BrowserCandidate::Installed { base, path } ==> candidate_views(list)[i]
            == (CandidateView::Installed { base, path: path@ }),
{
}

} // verus!

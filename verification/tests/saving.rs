//! Saving, serving and printing.

use oxide_sloc::artifacts::{
    artifact_kind, begin_background, begin_persist, file_reply, kind_file, next_background_state,
    next_persist_state, page_reply, pdf_file_name, persist_error_message, persisted_artifacts,
    select_artifact, step_file, step_source, ArtifactKind, ArtifactReply, PersistRequest,
    PersistState, PersistStep, Registry, RunArtifacts, RunPaths, SavedFile, HTML_FILE, JSON_FILE,
    PDF_FILE, TEMPORARY_HTML_FILE,
};
use oxide_sloc::browser::{
    browser_candidates, discover_browser, windows_browser_candidates, BrowserCandidate,
    BrowserSearch, WindowsBase,
};
use oxide_sloc::pdf::{
    begin_pdf_export, next_pdf_state, pdf_arguments, pdf_error_message, PdfError, PdfEvent,
    PdfState, PdfStep,
};

fn steps(request: PersistRequest) -> Vec<PersistStep> {
    let mut taken = Vec::new();
    let mut state = begin_persist();
    while let PersistState::Next(step) = state {
        taken.push(step);
        state = next_persist_state(request, step, true);
    }
    assert_eq!(state, PersistState::Finished);
    taken
}

fn paths() -> RunPaths {
    RunPaths {
        output_dir: b"/out/run".to_vec(),
        html: b"/out/run/report.html".to_vec(),
        pdf: b"/out/run/report.pdf".to_vec(),
        json: b"/out/run/result.json".to_vec(),
    }
}

fn saved(html: bool, json: bool, pdf: bool) -> RunArtifacts {
    persisted_artifacts(PersistRequest { html, json, pdf }, paths(), "My Report: 2024!")
}

/// The steps behind the answer, and how they end, where the printing goes as told.
fn background(request: PersistRequest, printed: bool) -> (Vec<PersistStep>, PersistState) {
    let mut taken = Vec::new();
    let mut state = begin_background(request, PersistState::Finished);
    while let PersistState::Next(step) = state {
        taken.push(step);
        let ok = printed || !matches!(step, PersistStep::PrintPdf { .. });
        state = next_background_state(step, ok);
    }
    (taken, state)
}

fn selected(registry: &Registry, run_id: &str, name: &str) -> Option<(ArtifactKind, Vec<u8>)> {
    select_artifact(registry, run_id, name).map(|file| (file.kind, file.path))
}

fn shown(candidate: &BrowserCandidate) -> String {
    match candidate {
        BrowserCandidate::Given(path) => path.clone(),
        BrowserCandidate::InSearchPath { dir, name } => format!("{}:{}", dir, name),
        BrowserCandidate::Installed { base, path } => format!("{:?}/{}", base, path),
    }
}

fn search(windows: bool) -> BrowserSearch {
    BrowserSearch {
        sloc_browser: None,
        browser: None,
        search_dirs: 2,
        windows,
        program_files: false,
        program_files_x86: false,
        local_app_data: true,
    }
}

#[test]
fn nothing_requested_makes_the_directory_only() {
    assert_eq!(
        steps(PersistRequest { html: false, json: false, pdf: false }),
        vec![PersistStep::CreateDirectory]
    );
}

#[test]
fn all_files_are_saved_in_order() {
    assert_eq!(
        steps(PersistRequest { html: true, json: true, pdf: true }),
        vec![
            PersistStep::CreateDirectory,
            PersistStep::WriteHtml,
            PersistStep::SerializeJson,
            PersistStep::WriteJson,
        ]
    );
}

#[test]
fn the_answer_does_not_wait_for_the_pdf() {
    for (html, json) in [(false, false), (false, true), (true, false), (true, true)] {
        let with = steps(PersistRequest { html, json, pdf: true });
        assert_eq!(with, steps(PersistRequest { html, json, pdf: false }));
        assert!(!with.iter().any(|step| matches!(step, PersistStep::PrintPdf { .. })));
    }
}

#[test]
fn a_pdf_alone_is_printed_from_a_temporary_page() {
    let request = PersistRequest { html: false, json: false, pdf: true };
    assert_eq!(steps(request), vec![PersistStep::CreateDirectory]);
    let write = PersistStep::WriteTemporaryHtml;
    let print = PersistStep::PrintPdf { from_temporary: true };
    let remove = PersistStep::RemoveTemporaryHtml;
    assert_eq!(background(request, true), (vec![write, print, remove], PersistState::Finished));
    assert_eq!(background(request, false), (vec![write, print], PersistState::Stopped(print)));
}

#[test]
fn a_pdf_is_printed_from_the_saved_report() {
    let request = PersistRequest { html: true, json: true, pdf: true };
    let print = PersistStep::PrintPdf { from_temporary: false };
    assert_eq!(background(request, true), (vec![print], PersistState::Finished));
    assert_eq!(background(request, false), (vec![print], PersistState::Stopped(print)));
}

#[test]
fn nothing_goes_on_behind_a_failed_or_plain_run() {
    let plain = PersistRequest { html: true, json: true, pdf: false };
    assert_eq!(background(plain, true), (vec![], PersistState::Finished));
    let failed = PersistState::Stopped(PersistStep::WriteHtml);
    let request = PersistRequest { html: true, json: false, pdf: true };
    assert_eq!(begin_background(request, failed), PersistState::Finished);
}

#[test]
fn a_temporary_page_that_cannot_be_written_stops_the_background() {
    let write = PersistStep::WriteTemporaryHtml;
    assert_eq!(next_background_state(write, false), PersistState::Stopped(write));
    assert_eq!(
        next_background_state(PersistStep::RemoveTemporaryHtml, false),
        PersistState::Finished
    );
}

#[test]
fn files_of_steps() {
    let from_temporary = PersistStep::PrintPdf { from_temporary: true };
    let from_report = PersistStep::PrintPdf { from_temporary: false };
    assert_eq!(step_file(PersistStep::CreateDirectory), None);
    assert_eq!(step_file(PersistStep::WriteHtml), Some("report.html"));
    assert_eq!(step_file(PersistStep::SerializeJson), None);
    assert_eq!(step_file(PersistStep::WriteJson), Some("result.json"));
    assert_eq!(step_file(PersistStep::WriteTemporaryHtml), Some("_report_rendered.html"));
    assert_eq!(step_file(from_temporary), Some("report.pdf"));
    assert_eq!(step_file(from_report), Some("report.pdf"));
    assert_eq!(step_file(PersistStep::RemoveTemporaryHtml), Some("_report_rendered.html"));
    assert_eq!(step_source(from_temporary), Some("_report_rendered.html"));
    assert_eq!(step_source(from_report), Some("report.html"));
    assert_eq!(step_source(PersistStep::WriteHtml), None);
    assert_eq!(kind_file(ArtifactKind::Html), "report.html");
    assert_eq!(kind_file(ArtifactKind::Pdf), "report.pdf");
    assert_eq!(kind_file(ArtifactKind::Json), "result.json");
}

#[test]
fn a_failed_step_stops_the_saving() {
    let request = PersistRequest { html: false, json: true, pdf: true };
    for step in steps(request) {
        assert_eq!(next_persist_state(request, step, false), PersistState::Stopped(step));
    }
}

#[test]
fn messages_of_failed_steps() {
    let path = "/out/x";
    let cases = [
        (PersistStep::CreateDirectory, "failed to create output directory /out/x"),
        (PersistStep::WriteHtml, "failed to write HTML report to /out/x"),
        (PersistStep::SerializeJson, "failed to serialize analysis run to JSON"),
        (PersistStep::WriteJson, "failed to write JSON report to /out/x"),
        (PersistStep::WriteTemporaryHtml, "failed to write temporary HTML report to /out/x"),
        (PersistStep::PrintPdf { from_temporary: true }, "why"),
        (PersistStep::PrintPdf { from_temporary: false }, "why"),
    ];
    for (step, message) in cases {
        assert_eq!(persist_error_message(step, path, "why"), message);
    }
}

#[test]
fn names_of_saved_files() {
    assert_eq!(HTML_FILE, "report.html");
    assert_eq!(PDF_FILE, "report.pdf");
    assert_eq!(JSON_FILE, "result.json");
    assert_eq!(TEMPORARY_HTML_FILE, "_report_rendered.html");
}

#[test]
fn only_requested_files_count_as_saved() {
    let some = saved(true, false, true);
    assert_eq!(some.output_dir, b"/out/run".to_vec());
    assert_eq!(some.html_path, Some(b"/out/run/report.html".to_vec()));
    assert_eq!(some.pdf_path, Some(b"/out/run/report.pdf".to_vec()));
    assert_eq!(some.json_path, None);
    let none = saved(false, false, false);
    assert!(none.html_path.is_none() && none.pdf_path.is_none() && none.json_path.is_none());
    assert_eq!(saved(false, true, false).json_path, Some(b"/out/run/result.json".to_vec()));
}

#[test]
fn a_recorded_run_is_served() {
    let mut registry = Registry::new();
    registry.record("r1", saved(true, true, false));
    assert_eq!(
        selected(&registry, "r1", "html"),
        Some((ArtifactKind::Html, b"/out/run/report.html".to_vec()))
    );
    assert_eq!(
        selected(&registry, "r1", "json"),
        Some((ArtifactKind::Json, b"/out/run/result.json".to_vec()))
    );
    assert_eq!(selected(&registry, "r1", "pdf"), None);
    assert_eq!(selected(&registry, "r1", "HTML"), None);
    assert_eq!(selected(&registry, "r1", ""), None);
}

#[test]
fn an_unknown_run_is_not_served() {
    let mut registry = Registry::new();
    assert_eq!(selected(&registry, "r1", "html"), None);
    registry.record("r1", saved(true, true, true));
    assert_eq!(selected(&registry, "r2", "html"), None);
    assert!(registry.lookup("r2").is_none());
}

#[test]
fn recording_a_run_leaves_the_others() {
    let mut registry = Registry::new();
    registry.record("r1", saved(true, false, false));
    registry.record("r2", saved(false, true, false));
    assert!(selected(&registry, "r1", "html").is_some());
    assert!(selected(&registry, "r2", "html").is_none());
    assert_eq!(registry.lookup("r1").unwrap().json_path, None);
}

#[test]
fn recording_a_run_again_replaces_it() {
    let mut registry = Registry::new();
    registry.record("r1", saved(true, false, false));
    registry.record("r1", saved(false, false, true));
    assert!(selected(&registry, "r1", "html").is_none());
    assert_eq!(
        selected(&registry, "r1", "pdf"),
        Some((ArtifactKind::Pdf, b"/out/run/report.pdf".to_vec()))
    );
}

#[test]
fn kinds_of_files_by_name() {
    assert_eq!(artifact_kind("html"), Some(ArtifactKind::Html));
    assert_eq!(artifact_kind("pdf"), Some(ArtifactKind::Pdf));
    assert_eq!(artifact_kind("json"), Some(ArtifactKind::Json));
    assert_eq!(artifact_kind("xml"), None);
}

#[test]
fn replies_with_saved_files() {
    match page_reply(Some("<p>".to_string())) {
        ArtifactReply::Page(text) => assert_eq!(text, "<p>"),
        _ => panic!("no page"),
    }
    assert!(matches!(page_reply(None), ArtifactReply::NotFound));
    for (kind, expected) in [
        (ArtifactKind::Pdf, "application/pdf"),
        (ArtifactKind::Json, "application/json; charset=utf-8"),
        (ArtifactKind::Html, "text/html; charset=utf-8"),
    ] {
        let file = SavedFile { kind, path: vec![], offered_name: None };
        match file_reply(&file, Some(vec![1, 2, 3])) {
            ArtifactReply::File { content_type, content_disposition, bytes } => {
                assert_eq!(content_type, expected);
                assert_eq!(content_disposition, None);
                assert_eq!(bytes, vec![1, 2, 3]);
            }
            _ => panic!("no file"),
        }
        assert!(matches!(file_reply(&file, None), ArtifactReply::NotFound));
    }
}

#[test]
fn a_pdf_is_offered_under_the_title_of_its_report() {
    let mut registry = Registry::new();
    registry.record("r1", saved(true, true, true));
    let file = select_artifact(&registry, "r1", "pdf").unwrap();
    assert_eq!(file.offered_name, Some("my-report--2024.pdf".to_string()));
    match file_reply(&file, Some(vec![7])) {
        ArtifactReply::File { content_disposition, .. } => assert_eq!(
            content_disposition,
            Some("inline; filename=\"my-report--2024.pdf\"".to_string())
        ),
        _ => panic!("no file"),
    }
    assert!(matches!(file_reply(&file, None), ArtifactReply::NotFound));
    assert_eq!(select_artifact(&registry, "r1", "html").unwrap().offered_name, None);
    assert_eq!(select_artifact(&registry, "r1", "json").unwrap().offered_name, None);
}

#[test]
fn names_of_offered_pdfs() {
    assert_eq!(pdf_file_name("OxideSLOC Report"), "oxidesloc-report.pdf");
    assert_eq!(pdf_file_name("a\"b\r\n/c"), "a-b---c.pdf");
    assert_eq!(pdf_file_name(""), "project.pdf");
}

#[test]
fn browsers_are_searched_by_name_then_directory() {
    let list: Vec<String> = browser_candidates(&search(false)).iter().map(shown).collect();
    let names = [
        "chromium",
        "chromium-browser",
        "google-chrome",
        "google-chrome-stable",
        "microsoft-edge",
        "msedge",
        "brave",
        "brave-browser",
        "vivaldi",
        "opera",
        "opera-stable",
    ];
    let mut expected = Vec::new();
    for name in names {
        expected.push(format!("0:{}", name));
        expected.push(format!("1:{}", name));
    }
    assert_eq!(list, expected);
}

#[test]
fn named_browsers_come_first() {
    let mut named = search(false);
    named.sloc_browser = Some("/opt/a".to_string());
    named.browser = Some("/opt/b".to_string());
    named.search_dirs = 0;
    let list: Vec<String> = browser_candidates(&named).iter().map(shown).collect();
    assert_eq!(list, vec!["/opt/a", "/opt/b"]);
}

#[test]
fn windows_adds_suffixes_and_places_of_installation() {
    let mut narrow = search(true);
    narrow.search_dirs = 1;
    let list: Vec<String> = browser_candidates(&narrow).iter().map(shown).collect();
    assert_eq!(list.len(), 22 + 6);
    assert_eq!(list[0], "0:chromium");
    assert_eq!(list[1], "0:chromium.exe");
    assert_eq!(list[22], "LocalAppData/Google/Chrome/Application/chrome.exe");
    assert_eq!(list[27], "LocalAppData/Programs/Opera GX/launcher.exe");
}

#[test]
fn places_of_installation_on_windows() {
    let list = windows_browser_candidates(true, true, false);
    assert_eq!(list.len(), 12);
    assert_eq!(shown(&list[0]), "ProgramFiles/Google/Chrome/Application/chrome.exe");
    assert_eq!(shown(&list[1]), "ProgramFiles/Microsoft/Edge/Application/msedge.exe");
    assert_eq!(
        shown(&list[8]),
        "ProgramFilesX86/BraveSoftware/Brave-Browser/Application/brave.exe"
    );
    assert_eq!(shown(&list[9]), "ProgramFilesX86/Vivaldi/Application/vivaldi.exe");
    assert_eq!(shown(&list[10]), "ProgramFilesX86/Opera/launcher.exe");
    assert_eq!(shown(&list[11]), "ProgramFilesX86/Opera GX/launcher.exe");
    assert!(windows_browser_candidates(false, false, false).is_empty());
    assert_eq!(
        shown(&windows_browser_candidates(false, false, true)[4]),
        format!("{:?}/Programs/Opera/launcher.exe", WindowsBase::LocalAppData)
    );
}

#[test]
fn the_first_file_is_the_browser() {
    assert_eq!(discover_browser(&vec![false, true, true]), Some(1));
    assert_eq!(discover_browser(&vec![false, false]), None);
    assert_eq!(discover_browser(&vec![]), None);
}

fn export(events: &[PdfEvent]) -> PdfState {
    let mut state = begin_pdf_export();
    for event in events {
        if let PdfState::Next(step) = state {
            state = next_pdf_state(step, *event);
        }
    }
    state
}

const OK: PdfEvent = PdfEvent::Exited { success: true, code: Some(0) };
const BAD: PdfEvent = PdfEvent::Exited { success: false, code: Some(21) };

#[test]
fn an_export_takes_its_steps_in_order() {
    let done = PdfEvent::Done;
    assert_eq!(export(&[]), PdfState::Next(PdfStep::FindBrowser));
    assert_eq!(export(&[done]), PdfState::Next(PdfStep::ResolveHtml));
    assert_eq!(export(&[done, done]), PdfState::Next(PdfStep::ResolvePdf));
    assert_eq!(export(&[done, done, done]), PdfState::Next(PdfStep::CreateDirectory));
    assert_eq!(export(&[done; 4]), PdfState::Next(PdfStep::LaunchNewHeadless));
    assert_eq!(export(&[done, done, done, done, OK]), PdfState::Finished);
}

#[test]
fn an_export_falls_back_to_the_old_mode() {
    let done = PdfEvent::Done;
    for first in [PdfEvent::Failed, BAD] {
        let so_far = [done, done, done, done, first];
        assert_eq!(export(&so_far), PdfState::Next(PdfStep::LaunchOldHeadless));
        assert_eq!(export(&[done, done, done, done, first, OK]), PdfState::Finished);
        assert_eq!(
            export(&[done, done, done, done, first, BAD]),
            PdfState::Stopped(PdfError::Exit { code: Some(21) })
        );
        assert_eq!(
            export(&[done, done, done, done, first, PdfEvent::Failed]),
            PdfState::Stopped(PdfError::Launch)
        );
    }
}

#[test]
fn an_export_stops_at_the_first_failed_step() {
    let done = PdfEvent::Done;
    let bad = PdfEvent::Failed;
    assert_eq!(export(&[bad]), PdfState::Stopped(PdfError::NoBrowser));
    assert_eq!(export(&[done, bad]), PdfState::Stopped(PdfError::ResolveHtml));
    assert_eq!(export(&[done, done, bad]), PdfState::Stopped(PdfError::WorkingDirectory));
    assert_eq!(export(&[done, done, done, bad]), PdfState::Stopped(PdfError::CreateDirectory));
}

#[test]
fn messages_of_failed_exports() {
    let cases = [
        (
            PdfError::NoBrowser,
            "no supported Chromium-based browser found; set SLOC_BROWSER/BROWSER or install Chrome, Chromium, Edge, Brave, Vivaldi, or Opera",
        ),
        (PdfError::ResolveHtml, "failed to canonicalize /p"),
        (PdfError::WorkingDirectory, "failed to resolve current working directory"),
        (PdfError::CreateDirectory, "failed to create PDF output directory /p"),
        (PdfError::Launch, "failed to launch browser /p"),
        (
            PdfError::Exit { code: Some(-5) },
            "browser exited with status -5 while generating PDF",
        ),
        (
            PdfError::Exit { code: None },
            "browser exited with status unknown while generating PDF",
        ),
    ];
    for (error, message) in cases {
        assert_eq!(pdf_error_message(error, "/p"), message);
    }
}

#[test]
fn arguments_of_the_browser() {
    assert_eq!(
        pdf_arguments(false, "/out/r.pdf", "file:///out/r.html"),
        vec![
            "--headless=new",
            "--disable-gpu",
            "--allow-file-access-from-files",
            "--print-to-pdf=/out/r.pdf",
            "file:///out/r.html",
        ]
    );
    assert_eq!(pdf_arguments(true, "a", "b")[0], "--headless=old");
    assert_eq!(pdf_arguments(true, "a", "b").len(), 5);
}

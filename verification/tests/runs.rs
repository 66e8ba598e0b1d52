//! An analysis from its form to its report and its answer.

use oxide_sloc::analyze::{
    configure, failure_page, line_sums, on_analyzed, on_persisted, on_resolved, result_template,
    run_directory_name, AfterAnalysis, AfterResolve, AnalyzeForm, LineSums, RUNTIME_MODE,
};
use oxide_sloc::artifacts::{
    persisted_artifacts, select_artifact, PersistRequest, Registry, RunPaths,
};
use oxide_sloc::model::{
    AnalysisConfig, AnalysisRun, AppConfig, DiscoveryConfig, EffectiveCounts, EnvironmentInfo,
    FileRecord, LanguageTotals, MixedLinePolicy, RawLineCategories, ReportingConfig,
    SummaryTotals, ToolInfo, WebConfig,
};
use oxide_sloc::pages::{ErrorTemplate, IndexTemplate};
use oxide_sloc::paths::PathChoice;
use oxide_sloc::report::{file_row_view, render_html, report_error_message, ReportError};

fn config() -> AppConfig {
    AppConfig {
        discovery: DiscoveryConfig {
            root_paths: vec!["old".to_string()],
            include_globs: vec!["old/**".to_string()],
            exclude_globs: vec![],
        },
        analysis: AnalysisConfig {
            mixed_line_policy: MixedLinePolicy::CodeOnly,
            python_docstrings_as_comments: true,
        },
        reporting: ReportingConfig { report_title: "Base & title".to_string() },
        web: WebConfig { bind_address: "127.0.0.1:3000".to_string() },
    }
}

fn form() -> AnalyzeForm {
    AnalyzeForm {
        path: "samples/My App".to_string(),
        mixed_line_policy: None,
        python_docstrings_as_comments: None,
        output_dir: None,
        report_title: None,
        generate_json: None,
        generate_html: None,
        generate_pdf: None,
        include_globs: None,
        exclude_globs: None,
    }
}

fn totals(language: &str, lines: u64) -> LanguageTotals {
    LanguageTotals {
        language: language.to_string(),
        files: 2,
        total_physical_lines: lines,
        code_lines: 5,
        comment_lines: 4,
        blank_lines: 3,
        mixed_lines_separate: 1,
    }
}

fn record(path: &str, language: Option<&str>, status: &str, warnings: Vec<String>) -> FileRecord {
    FileRecord {
        relative_path: path.to_string(),
        language: language.map(|name| name.to_string()),
        raw_line_categories: RawLineCategories { total_physical_lines: 12 },
        effective_counts: EffectiveCounts {
            code_lines: 7,
            comment_lines: 3,
            blank_lines: 2,
            mixed_lines_separate: 1,
        },
        status: status.to_string(),
        warnings,
    }
}

fn run() -> AnalysisRun {
    AnalysisRun {
        tool: ToolInfo {
            run_id: "run-7".to_string(),
            timestamp_utc: "2024-05-01T10:00:00Z".to_string(),
        },
        environment: EnvironmentInfo {
            operating_system: "linux".to_string(),
            architecture: "x86_64".to_string(),
            runtime_mode: "serve".to_string(),
        },
        effective_configuration: config(),
        summary_totals: SummaryTotals {
            files_analyzed: 11,
            files_skipped: 22,
            total_physical_lines: 33,
            code_lines: 44,
            comment_lines: 55,
            blank_lines: 66,
            mixed_lines_separate: 77,
        },
        totals_by_language: vec![totals("C++", 10), totals("C#", 20)],
        per_file_records: vec![record("a<b>.cpp", Some("C++"), "AnalyzedExact", vec![])],
        skipped_file_records: vec![
            record("x.bin", None, "SkippedBinary", vec!["one".to_string(), "two".to_string()]),
            record("y.bin", None, "SkippedBinary", vec![]),
        ],
        warnings: vec!["it's odd".to_string()],
    }
}

fn paths() -> RunPaths {
    RunPaths {
        output_dir: b"/out/run-7".to_vec(),
        html: b"/out/run-7/report.html".to_vec(),
        pdf: b"/out/run-7/report.pdf".to_vec(),
        json: b"/out/run-7/result.json".to_vec(),
    }
}

fn asking(html: bool, json: bool, pdf: bool) -> AnalyzeForm {
    let ticked = |on: bool| if on { Some("on".to_string()) } else { None };
    let mut asking = form();
    asking.generate_html = ticked(html);
    asking.generate_json = ticked(json);
    asking.generate_pdf = ticked(pdf);
    asking
}

#[test]
fn an_empty_form_clears_what_it_decides_on() {
    let applied = configure(&config(), &form());
    assert_eq!(applied.discovery.root_paths, vec!["samples/My App"]);
    assert!(applied.discovery.include_globs.is_empty());
    assert!(applied.discovery.exclude_globs.is_empty());
    assert_eq!(applied.analysis.mixed_line_policy, MixedLinePolicy::CodeOnly);
    assert!(!applied.analysis.python_docstrings_as_comments);
    assert_eq!(applied.reporting.report_title, "Base & title");
    assert_eq!(applied.web.bind_address, "127.0.0.1:3000");
}

#[test]
fn a_full_form_decides_on_all_of_its_fields() {
    let mut full = form();
    full.mixed_line_policy = Some(MixedLinePolicy::SeparateMixedCategory);
    full.python_docstrings_as_comments = Some("on".to_string());
    full.report_title = Some("  My report ".to_string());
    full.include_globs = Some("src/**,\n*.py".to_string());
    full.exclude_globs = Some("vendor/**".to_string());
    let applied = configure(&config(), &full);
    assert_eq!(applied.discovery.include_globs, vec!["src/**", "*.py"]);
    assert_eq!(applied.discovery.exclude_globs, vec!["vendor/**"]);
    assert_eq!(applied.analysis.mixed_line_policy, MixedLinePolicy::SeparateMixedCategory);
    assert!(applied.analysis.python_docstrings_as_comments);
    assert_eq!(applied.reporting.report_title, "My report");
}

#[test]
fn a_blank_title_keeps_the_configured_one() {
    let mut blank = form();
    blank.report_title = Some(" \t ".to_string());
    assert_eq!(configure(&config(), &blank).reporting.report_title, "Base & title");
}

#[test]
fn applying_a_form_twice_changes_nothing_more() {
    let mut full = form();
    full.report_title = Some(" T ".to_string());
    full.include_globs = Some("a,b".to_string());
    let once = configure(&config(), &full);
    let twice = configure(&once, &full);
    assert_eq!(once.discovery.root_paths, twice.discovery.root_paths);
    assert_eq!(once.discovery.include_globs, twice.discovery.include_globs);
    assert_eq!(once.reporting.report_title, twice.reporting.report_title);
    assert_eq!(once.analysis.mixed_line_policy, twice.analysis.mixed_line_policy);
}

#[test]
fn sums_of_lines() {
    assert_eq!(
        line_sums(&run().totals_by_language),
        Some(LineSums { physical: 30, code: 10, comments: 8, blank: 6, mixed: 2 })
    );
    assert_eq!(
        line_sums(&vec![]),
        Some(LineSums { physical: 0, code: 0, comments: 0, blank: 0, mixed: 0 })
    );
    assert_eq!(line_sums(&vec![totals("a", u64::MAX), totals("b", 1)]), None);
    assert!(line_sums(&vec![totals("a", u64::MAX), totals("b", 0)]).is_some());
}

#[test]
fn rows_of_files() {
    let row = file_row_view(&record("x", None, "SkippedBinary", vec!["a".into(), "b".into()]));
    assert_eq!(row.relative_path, "x");
    assert_eq!(row.language, "-");
    assert_eq!(row.total_physical_lines, 12);
    assert_eq!(row.code_lines, 7);
    assert_eq!(row.comment_lines, 3);
    assert_eq!(row.blank_lines, 2);
    assert_eq!(row.mixed_lines_separate, 1);
    assert_eq!(row.status, "SkippedBinary");
    assert_eq!(row.status_class, "skippedbinary");
    assert_eq!(row.warnings, "a; b");
    assert_eq!(file_row_view(&record("x", Some("C"), "S", vec![])).language, "C");
    assert_eq!(file_row_view(&record("x", Some("C"), "S", vec![])).warnings, "");
}

#[test]
fn a_report_shows_the_run() {
    let page = render_html(&run(), Some("{\n  \"a\": 1\n}")).unwrap();
    assert!(page.starts_with("\n<!doctype html>\n<html lang=\"en\">"));
    assert!(page.ends_with("</body>\n</html>\n"));
    for part in [
        "<title>Base &amp; title</title>",
        "<tr><td>C++</td><td>2</td><td>10</td><td>5</td><td>4</td><td>3</td><td>1</td></tr><tr><td>C#</td><td>2</td><td>20</td>",
        "<tr><td class=\"mono\">a&lt;b&gt;.cpp</td><td>C++</td><td>12</td><td>7</td><td>3</td><td>2</td><td>1</td><td><span class=\"status-tag status-analyzedexact\">AnalyzedExact</span></td><td class=\"small\"></td></tr>",
        "<tr><td class=\"mono\">x.bin</td><td><span class=\"status-tag status-skippedbinary\">SkippedBinary</span></td><td class=\"small\">one; two</td></tr>",
        "<ul class=\"warn-list\"><li>it&#x27;s odd</li></ul>",
        "<pre>{\n  &quot;a&quot;: 1\n}</pre>",
        "Files analyzed 11</span>",
        "Files skipped 22",
        "<div class=\"label\">Code</div><div class=\"value\">44</div>",
        "<div class=\"label\">Comments</div><div class=\"value\">55</div>",
        "<div class=\"label\">Blank</div><div class=\"value\">66</div>",
        "<div class=\"label\">Mixed separate</div><div class=\"value\">77</div>",
        "OS linux / x86_64",
        "run-7",
        "2024-05-01T10:00:00Z",
        "Mode serve",
    ] {
        assert!(page.contains(part), "{}", part);
    }
    assert!(!page.contains("No top-level warnings."));
}

#[test]
fn a_report_without_warnings_says_so() {
    let mut quiet = run();
    quiet.warnings = vec![];
    let page = render_html(&quiet, Some("{}")).unwrap();
    assert!(page.contains("<div class=\"pill good\">No top-level warnings.</div>"));
    assert!(!page.contains("<ul class=\"warn-list\">"));
}

#[test]
fn a_report_needs_the_configuration() {
    assert_eq!(render_html(&run(), None), Err(ReportError::SerializeConfiguration));
    assert_eq!(
        report_error_message(ReportError::SerializeConfiguration),
        "failed to serialize effective configuration"
    );
}

#[test]
fn the_start_page_shows_the_working_directory() {
    let page = IndexTemplate { cwd: "/home/<me>".to_string() }.render();
    assert!(page.starts_with("\n<!doctype html>\n<html lang=\"en\">"));
    assert_eq!(page.matches("/home/&lt;me&gt;").count(), 2);
    for policy in ["code_only", "code_and_comment", "comment_only", "separate_mixed_category"] {
        assert!(page.contains(&format!("<option value=\"{}\">", policy)));
    }
}

#[test]
fn the_start_page_follows_the_theme_of_the_system() {
    let page = IndexTemplate { cwd: String::new() }.render();
    let saved = page.find("applyTheme(saved);").unwrap();
    let system = page.find("window.matchMedia(\"(prefers-color-scheme: dark)\").matches").unwrap();
    let choice = page.find("applyTheme(prefersDark ? \"dark\" : \"light\");").unwrap();
    assert!(saved < system && system < choice);
}

#[test]
fn the_error_page_shows_the_message() {
    let page = ErrorTemplate { message: "it's <bad>".to_string() }.render();
    assert!(page.contains("it&#x27;s &lt;bad&gt;"));
    assert_eq!(failure_page("it's <bad>"), page);
}

#[test]
fn a_failed_analysis_is_answered_with_its_message() {
    match on_analyzed(&form(), Err("no such path".to_string())) {
        AfterAnalysis::Reply(page) => assert_eq!(page, failure_page("no such path")),
        AfterAnalysis::ResolveOutput { .. } => panic!("went on"),
    }
    match on_analyzed(&form(), Ok((run(), None))) {
        AfterAnalysis::Reply(page) => {
            assert_eq!(page, failure_page("failed to serialize effective configuration"))
        }
        AfterAnalysis::ResolveOutput { .. } => panic!("went on"),
    }
}

#[test]
fn a_finished_analysis_looks_for_its_directory() {
    let mut elsewhere = form();
    elsewhere.output_dir = Some(" reports ".to_string());
    match on_analyzed(&elsewhere, Ok((run(), Some("{}".to_string())))) {
        AfterAnalysis::Reply(_) => panic!("stopped"),
        AfterAnalysis::ResolveOutput { run: same, report_html, output } => {
            assert_eq!(same.tool.run_id, "run-7");
            assert_eq!(Ok(report_html), render_html(&run(), Some("{}")));
            assert!(matches!(output, PathChoice::UnderWorkingDir(path) if path == "reports"));
        }
    }
    match on_analyzed(&form(), Ok((run(), Some("{}".to_string())))) {
        AfterAnalysis::Reply(_) => panic!("stopped"),
        AfterAnalysis::ResolveOutput { output, .. } => {
            assert!(matches!(output, PathChoice::UnderWorkingDir(path) if path == "out/web"));
        }
    }
}

#[test]
fn names_of_run_directories() {
    assert_eq!(run_directory_name("samples/My App", "run-7"), "my-app_run-7");
    assert_eq!(run_directory_name("/", "x"), "project_x");
}

#[test]
fn a_found_directory_is_saved_into() {
    let mut some = form();
    some.generate_html = Some("on".to_string());
    some.generate_pdf = Some(String::new());
    match on_resolved(&some, &run(), Ok(())) {
        AfterResolve::Reply(_) => panic!("stopped"),
        AfterResolve::Persist { directory, request } => {
            assert_eq!(directory, "my-app_run-7");
            assert_eq!(request, PersistRequest { html: true, json: false, pdf: true });
        }
    }
    match on_resolved(&some, &run(), Err("failed to resolve".to_string())) {
        AfterResolve::Reply(page) => assert_eq!(page, failure_page("failed to resolve")),
        AfterResolve::Persist { .. } => panic!("went on"),
    }
}

#[test]
fn a_saved_run_is_recorded_and_answered() {
    let mut registry = Registry::new();
    let page = on_persisted(&asking(true, true, false), &mut registry, &run(), Ok(paths())).unwrap();
    for part in [
        "<title>Base &amp; title",
        "Web scan complete for <code>samples/My App</code>",
        "<div class=\"label\">Files analyzed</div><div class=\"value\">1</div>",
        "<div class=\"label\">Files skipped</div><div class=\"value\">2</div>",
        "<div class=\"label\">Physical lines</div><div class=\"value\">30</div>",
        "<div class=\"label\">Code</div><div class=\"value\">10</div>",
        "<div class=\"label\">Comments</div><div class=\"value\">8</div>",
        "<div class=\"label\">Blank</div><div class=\"value\">6</div>",
        "<div class=\"label\">Mixed separate</div><div class=\"value\">2</div>",
        "<a class=\"button\" href=\"/runs/run-7/html\" target=\"_blank\" rel=\"noopener\">Open HTML report</a>",
        "<a class=\"button secondary\" href=\"/runs/run-7/json\" target=\"_blank\" rel=\"noopener\">Open JSON report</a>",
        "<code>run-7</code>",
        "<code>/out/run-7</code>",
        "<code>/out/run-7/report.html</code>",
        "<code>/out/run-7/result.json</code>",
        "<tr>\n              <td>C++</td>\n              <td>2</td>\n              <td>10</td>\n              <td>5</td>\n              <td>4</td>\n              <td>3</td>\n              <td>1</td>\n            </tr>",
        "<iframe src=\"/runs/run-7/html\" title=\"HTML report preview\"></iframe>",
    ] {
        assert!(page.contains(part), "{}", part);
    }
    assert!(!page.contains("Open PDF report"));
    assert!(select_artifact(&registry, "run-7", "html").is_some());
    assert!(select_artifact(&registry, "run-7", "json").is_some());
    assert!(select_artifact(&registry, "run-7", "pdf").is_none());
}

#[test]
fn a_run_without_a_saved_report_has_no_preview() {
    let mut registry = Registry::new();
    let page = on_persisted(&asking(false, true, true), &mut registry, &run(), Ok(paths())).unwrap();
    assert!(!page.contains("<iframe"));
    assert!(!page.contains("Open HTML report"));
    assert!(page.contains("HTML output was not selected for this run"));
}

#[test]
fn a_pdf_is_linked_and_recorded_before_it_is_printed() {
    let mut registry = Registry::new();
    let page = on_persisted(&asking(false, false, true), &mut registry, &run(), Ok(paths())).unwrap();
    assert!(page.contains("href=\"/runs/run-7/pdf\""));
    let file = select_artifact(&registry, "run-7", "pdf").unwrap();
    assert_eq!(file.path, b"/out/run-7/report.pdf".to_vec());
    assert_eq!(file.offered_name, Some("base---title.pdf".to_string()));
}

#[test]
fn the_mode_of_an_analysis_from_the_workbench() {
    assert_eq!(RUNTIME_MODE, "serve");
}

#[test]
fn a_failed_saving_is_answered_and_not_recorded() {
    let mut registry = Registry::new();
    let page = on_persisted(&form(), &mut registry, &run(), Err("disk full".to_string()));
    assert_eq!(page, Some(failure_page("disk full")));
    assert!(registry.lookup("run-7").is_none());
}

#[test]
fn sums_that_cannot_be_held_leave_the_run_recorded() {
    let mut registry = Registry::new();
    let mut huge = run();
    huge.totals_by_language = vec![totals("a", u64::MAX), totals("b", 1)];
    assert!(on_persisted(&form(), &mut registry, &huge, Ok(paths())).is_none());
    assert!(registry.lookup("run-7").is_some());
}

#[test]
fn the_result_page_shows_raw_paths_as_text() {
    let mut raw = paths();
    raw.output_dir = vec![0x2f, 0xff];
    let odd = persisted_artifacts(PersistRequest { html: true, json: true, pdf: false }, raw, "t");
    let sums = line_sums(&run().totals_by_language).unwrap();
    let template = result_template(&run(), "p", &odd, sums);
    assert_eq!(template.output_dir, "/\u{fffd}");
    assert_eq!(template.html_url, Some("/runs/run-7/html".to_string()));
    assert_eq!(template.pdf_url, None);
    assert_eq!(template.html_path, Some("/out/run-7/report.html".to_string()));
    assert!(template.has_preview);
    assert_eq!(template.language_rows.len(), 2);
}

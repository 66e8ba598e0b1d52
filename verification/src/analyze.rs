//! An analysis that is started from the web workbench: how its form configures it, what happens
//! between its steps, and what is answered.
//!
//! Analysing, finding the output directory and writing files are done by whoever serves the
//! workbench; the functions here decide what comes next.

use vstd::prelude::*;

use crate::artifacts::{
    persisted_artifacts, saved_artifacts, served_file, ArtifactKind, ArtifactsView,
    PersistRequest, Registry, RunArtifacts, RunPaths,
};
use crate::forms::{patterns, split_patterns};
use crate::model::{
    counts_of, AnalysisConfig, AnalysisRun, AppConfig, CountsView, DiscoveryConfig,
    LanguageTotals, MixedLinePolicy, ReportingConfig, WebConfig,
};
use crate::pages::{
    error_page, result_page, summary_views, ErrorTemplate, LanguageSummaryRow, ResultTemplate,
    ResultView,
};
use crate::paths::{
    display_path, given_or, is_portable, last_name, lossy_utf8, may_be_named, may_be_output_root,
    opt_text, project_label, resolve_output_root, sanitize_project_label, PathChoice,
};
use crate::report::{render_html, report_error_message, report_of};
use crate::text::{texts, trim, trimmed};

verus! {

/// The mode that an analysis is told it runs in when the workbench starts it.
pub const RUNTIME_MODE: &'static str = "serve";

/// The form from which an analysis is started. A check box that is not ticked is absent.
pub struct AnalyzeForm {
    pub path: String,
    pub mixed_line_policy: Option<MixedLinePolicy>,
    pub python_docstrings_as_comments: Option<String>,
    pub output_dir: Option<String>,
    pub report_title: Option<String>,
    pub generate_json: Option<String>,
    pub generate_html: Option<String>,
    pub generate_pdf: Option<String>,
    pub include_globs: Option<String>,
    pub exclude_globs: Option<String>,
}

/// The model of an [`AppConfig`].
#[verifier::ext_equal]
pub struct ConfigView {
    pub root_paths: Seq<Seq<char>>,
    pub include_globs: Seq<Seq<char>>,
    pub exclude_globs: Seq<Seq<char>>,
    pub mixed_line_policy: MixedLinePolicy,
    pub python_docstrings_as_comments: bool,
    pub report_title: Seq<char>,
    pub bind_address: Seq<char>,
}

impl View for AppConfig {
    type V = ConfigView;

    open spec fn view(&self) -> ConfigView {
        ConfigView {
            root_paths: texts(self.discovery.root_paths@),
            include_globs: texts(self.discovery.include_globs@),
            exclude_globs: texts(self.discovery.exclude_globs@),
            mixed_line_policy: self.analysis.mixed_line_policy,
            python_docstrings_as_comments: self.analysis.python_docstrings_as_comments,
            report_title: self.reporting.report_title@,
            bind_address: self.web.bind_address@,
        }
    }
}

/// The patterns of a field that may be absent.
pub open spec fn field_patterns(field: Option<String>) -> Seq<Seq<char>> {
    match field {
        Some(text) => patterns(text@),
        None => seq![],
    }
}

/// The configuration of an analysis that is started from a form: the form decides on the path,
/// the patterns and the docstrings, on the policy where it names one, and on the title where it
/// has one that is not blank. All else stays as it was.
pub open spec fn configured(base: ConfigView, form: AnalyzeForm) -> ConfigView {
    ConfigView {
        root_paths: seq![form.path@],
        include_globs: field_patterns(form.include_globs),
        exclude_globs: field_patterns(form.exclude_globs),
        mixed_line_policy: match form.mixed_line_policy {
            Some(policy) => policy,
            None => base.mixed_line_policy,
        },
        python_docstrings_as_comments: form.python_docstrings_as_comments is Some,
        report_title: given_or(opt_text(form.report_title), base.report_title),
        bind_address: base.bind_address,
    }
}

/// The patterns of a field that may be absent.
fn split_field(field: &Option<String>) -> (list: Vec<String>)
    ensures
        texts(list@) == field_patterns(*field),
{
    match field {
        Some(text) => split_patterns(Some(text.as_str())),
        None => split_patterns(None),
    }
}

/// The configuration of an analysis that is started from a form.
pub fn configure(base: &AppConfig, form: &AnalyzeForm) -> (config: AppConfig)
    ensures
        config@ == configured(base@, *form),
        config.discovery.root_paths@.len() == 1,
        config.discovery.root_paths@[0]@ == form.path@,
        form.mixed_line_policy matches Some(p) ==> config.analysis.mixed_line_policy == p,
        form.mixed_line_policy is None ==> config.analysis.mixed_line_policy
            == base.analysis.mixed_line_policy,
        config.analysis.python_docstrings_as_comments
            == form.python_docstrings_as_comments is Some,
        form.report_title is None ==> config.reporting.report_title@
            == base.reporting.report_title@,
        form.report_title matches Some(t) ==> config.reporting.report_title@ == if trimmed(
            t@,
        ).len() > 0 {
            trimmed(t@)
        } else {
            base.reporting.report_title@
        },
        form.include_globs matches Some(t) ==> texts(config.discovery.include_globs@) == patterns(
            t@,
        ),
        form.include_globs is None ==> config.discovery.include_globs@.len() == 0,
        form.exclude_globs matches Some(t) ==> texts(config.discovery.exclude_globs@) == patterns(
            t@,
        ),
        form.exclude_globs is None ==> config.discovery.exclude_globs@.len() == 0,
        config.web.bind_address@ == base.web.bind_address@,
{
    let mut root_paths: Vec<String> = Vec::new();
    root_paths.push(form.path.clone());
    assert(texts(root_paths@) == seq![form.path@]);
    let report_title = match &form.report_title {
        Some(title) => {
            let given = trim(title.as_str());
            if given.as_str().is_empty() {
                base.reporting.report_title.clone()
            } else {
                given
            }
        },
        None => base.reporting.report_title.clone(),
    };
    let include_globs = split_field(&form.include_globs);
    let exclude_globs = split_field(&form.exclude_globs);
    assert(texts(include_globs@).len() == include_globs@.len());
    assert(texts(exclude_globs@).len() == exclude_globs@.len());
    AppConfig {
        discovery: DiscoveryConfig { root_paths, include_globs, exclude_globs },
        analysis: AnalysisConfig {
            mixed_line_policy: match form.mixed_line_policy {
                Some(policy) => policy,
                None => base.analysis.mixed_line_policy,
            },
            python_docstrings_as_comments: form.python_docstrings_as_comments.is_some(),
        },
        reporting: ReportingConfig { report_title },
        web: WebConfig { bind_address: base.web.bind_address.clone() },
    }
}

/// Which files a form asks to save.
pub open spec fn requested(form: AnalyzeForm) -> PersistRequest {
    PersistRequest {
        html: form.generate_html is Some,
        json: form.generate_json is Some,
        pdf: form.generate_pdf is Some,
    }
}

/// Which files a form asks to save.
fn request_of(form: &AnalyzeForm) -> (r: PersistRequest)
    ensures
        r == requested(*form),
{
    PersistRequest {
        html: form.generate_html.is_some(),
        json: form.generate_json.is_some(),
        pdf: form.generate_pdf.is_some(),
    }
}

/// The sums of the lines of some languages.
#[verifier::ext_equal]
pub struct SumsView {
    pub physical: nat,
    pub code: nat,
    pub comments: nat,
    pub blank: nat,
    pub mixed: nat,
}

/// The sums of the lines of the given languages.
pub open spec fn sums_of(rows: Seq<CountsView>) -> SumsView
    decreases rows.len(),
{
    if rows.len() == 0 {
        SumsView { physical: 0, code: 0, comments: 0, blank: 0, mixed: 0 }
    } else {
        let before = sums_of(rows.drop_last());
        let row = rows.last();
        SumsView {
            physical: before.physical + row.physical as nat,
            code: before.code + row.code as nat,
            comments: before.comments + row.comments as nat,
            blank: before.blank + row.blank as nat,
            mixed: before.mixed + row.mixed as nat,
        }
    }
}

/// Whether each sum can be held.
pub open spec fn sums_fit(sums: SumsView) -> bool {
    &&& sums.physical <= u64::MAX
    &&& sums.code <= u64::MAX
    &&& sums.comments <= u64::MAX
    &&& sums.blank <= u64::MAX
    &&& sums.mixed <= u64::MAX
}

/// The sums of the lines of some languages.
#[derive(Clone, Copy, PartialEq, Eq, Structural, Debug)]
pub struct LineSums {
    pub physical: u64,
    pub code: u64,
    pub comments: u64,
    pub blank: u64,
    pub mixed: u64,
}

impl View for LineSums {
    type V = SumsView;

    open spec fn view(&self) -> SumsView {
        SumsView {
            physical: self.physical as nat,
            code: self.code as nat,
            comments: self.comments as nat,
            blank: self.blank as nat,
            mixed: self.mixed as nat,
        }
    }
}

/// The sums over a part of the rows are not greater than those over all.
proof fn lemma_sums_grow(rows: Seq<CountsView>, n: int)
    requires
        0 <= n <= rows.len(),
    ensures
        ({
            let part = sums_of(rows.take(n));
            let all = sums_of(rows);
            &&& part.physical <= all.physical
            &&& part.code <= all.code
            &&& part.comments <= all.comments
            &&& part.blank <= all.blank
            &&& part.mixed <= all.mixed
        }),
    decreases rows.len(),
{
    if n == rows.len() {
        assert(rows.take(n) == rows);
    } else {
        assert(rows.drop_last().take(n) == rows.take(n));
        lemma_sums_grow(rows.drop_last(), n);
    }
}

/// The sums of the lines of all languages of a run, where each can be held; `None` otherwise.
pub fn line_sums(totals: &Vec<LanguageTotals>) -> (r: Option<LineSums>)
    ensures
        match r {
            Some(sums) => sums@ == sums_of(counts_of(totals@)),
            None => !sums_fit(sums_of(counts_of(totals@))),
        },
{
    let ghost rows = counts_of(totals@);
    let mut sums = LineSums { physical: 0, code: 0, comments: 0, blank: 0, mixed: 0 };
    let mut i: usize = 0;
    while i < totals.len()
        invariant
            i <= totals@.len(),
            rows == counts_of(totals@),
            sums@ == sums_of(rows.take(i as int)),
        decreases totals@.len() - i,
    {
        let t = &totals[i];
        proof {
            let next = rows.take(i + 1);
            assert(next.drop_last() == rows.take(i as int));
            assert(next.last() == t@);
            lemma_sums_grow(rows, i + 1);
        }
        let physical = sums.physical.checked_add(t.total_physical_lines);
        let code = sums.code.checked_add(t.code_lines);
        let comments = sums.comments.checked_add(t.comment_lines);
        let blank = sums.blank.checked_add(t.blank_lines);
        let mixed = sums.mixed.checked_add(t.mixed_lines_separate);
        match (physical, code, comments, blank, mixed) {
            (Some(physical), Some(code), Some(comments), Some(blank), Some(mixed)) => {
                sums = LineSums { physical, code, comments, blank, mixed };
            },
            _ => {
                return None;
            },
        }
        i = i + 1;
    }
    assert(rows.take(rows.len() as int) == rows);
    Some(sums)
}

/// The address under which a saved file of a run is served.
pub open spec fn artifact_url(run_id: Seq<char>, kind: Seq<char>) -> Seq<char> {
    "/runs/"@ + run_id + "/"@ + kind
}

/// The address of a saved file, where the file is there.
pub open spec fn url_where_saved(
    path: Option<Seq<u8>>,
    run_id: Seq<char>,
    kind: Seq<char>,
) -> Option<Seq<char>> {
    match path {
        Some(_) => Some(artifact_url(run_id, kind)),
        None => None,
    }
}

/// A saved file's path as it is shown, where the file is there.
pub open spec fn shown_path(path: Option<Seq<u8>>) -> Option<Seq<char>> {
    match path {
        Some(p) => Some(lossy_utf8(p)),
        None => None,
    }
}

/// What the result page shows of a run.
pub open spec fn result_of(run: AnalysisRun, path: Seq<char>, artifacts: ArtifactsView) -> ResultView {
    let rows = counts_of(run.totals_by_language@);
    let sums = sums_of(rows);
    let run_id = run.tool.run_id@;
    ResultView {
        report_title: run.effective_configuration.reporting.report_title@,
        project_path: path,
        output_dir: lossy_utf8(artifacts.output_dir),
        run_id,
        files_analyzed: run.per_file_records@.len() as u64,
        files_skipped: run.skipped_file_records@.len() as u64,
        physical_lines: sums.physical as u64,
        code_lines: sums.code as u64,
        comment_lines: sums.comments as u64,
        blank_lines: sums.blank as u64,
        mixed_lines: sums.mixed as u64,
        html_url: url_where_saved(artifacts.html_path, run_id, "html"@),
        pdf_url: url_where_saved(artifacts.pdf_path, run_id, "pdf"@),
        json_url: url_where_saved(artifacts.json_path, run_id, "json"@),
        html_path: shown_path(artifacts.html_path),
        pdf_path: shown_path(artifacts.pdf_path),
        json_path: shown_path(artifacts.json_path),
        has_preview: artifacts.html_path is Some,
        language_rows: rows,
    }
}

/// The address of a saved file, where the file is there.
fn url_of(path: &Option<Vec<u8>>, run_id: &str, kind: &str) -> (url: Option<String>)
    ensures
        opt_text(url) == url_where_saved(crate::artifacts::opt_bytes(*path), run_id@, kind@),
{
    match path {
        Some(_) => {
            let mut url = "/runs/".to_owned();
            url.append(run_id);
            url.append("/");
            url.append(kind);
            Some(url)
        },
        None => None,
    }
}

/// A saved file's path as it is shown, where the file is there.
fn display_saved(path: &Option<Vec<u8>>) -> (shown: Option<String>)
    ensures
        opt_text(shown) == shown_path(crate::artifacts::opt_bytes(*path)),
{
    match path {
        Some(p) => Some(display_path(p.as_slice())),
        None => None,
    }
}

/// The rows of the result page's table of languages.
fn summary_rows(totals: &Vec<LanguageTotals>) -> (rows: Vec<LanguageSummaryRow>)
    ensures
        summary_views(rows@) == counts_of(totals@),
{
    let mut rows: Vec<LanguageSummaryRow> = Vec::new();
    let mut i: usize = 0;
    while i < totals.len()
        invariant
            i <= totals@.len(),
            rows@.len() == i,
            forall|k: int| 0 <= k < i ==> (#[trigger] rows@[k])@ == totals@[k]@,
        decreases totals@.len() - i,
    {
        let t = &totals[i];
        rows.push(
            LanguageSummaryRow {
                language: t.language.clone(),
                files: t.files,
                physical: t.total_physical_lines,
                code: t.code_lines,
                comments: t.comment_lines,
                blank: t.blank_lines,
                mixed: t.mixed_lines_separate,
            },
        );
        i = i + 1;
    }
    assert(summary_views(rows@) == counts_of(totals@));
    rows
}

/// What the result page shows of a run, given the sums of its lines.
pub fn result_template(
    run: &AnalysisRun,
    path: &str,
    artifacts: &RunArtifacts,
    sums: LineSums,
) -> (template: ResultTemplate)
    requires
        sums@ == sums_of(counts_of(run.totals_by_language@)),
    ensures
        template@ == result_of(*run, path@, artifacts@),
        template.files_analyzed == run.per_file_records@.len(),
        template.files_skipped == run.skipped_file_records@.len(),
        template.physical_lines == sums.physical,
        template.code_lines == sums.code,
        template.comment_lines == sums.comments,
        template.blank_lines == sums.blank,
        template.mixed_lines == sums.mixed,
        template.has_preview == artifacts.html_path is Some,
{
    let run_id = run.tool.run_id.as_str();
    ResultTemplate {
        report_title: run.effective_configuration.reporting.report_title.clone(),
        project_path: path.to_owned(),
        output_dir: display_path(artifacts.output_dir.as_slice()),
        run_id: run.tool.run_id.clone(),
        files_analyzed: run.per_file_records.len() as u64,
        files_skipped: run.skipped_file_records.len() as u64,
        physical_lines: sums.physical,
        code_lines: sums.code,
        comment_lines: sums.comments,
        blank_lines: sums.blank,
        mixed_lines: sums.mixed,
        html_url: url_of(&artifacts.html_path, run_id, "html"),
        pdf_url: url_of(&artifacts.pdf_path, run_id, "pdf"),
        json_url: url_of(&artifacts.json_path, run_id, "json"),
        html_path: display_saved(&artifacts.html_path),
        pdf_path: display_saved(&artifacts.pdf_path),
        json_path: display_saved(&artifacts.json_path),
        has_preview: artifacts.html_path.is_some(),
        language_rows: summary_rows(&run.totals_by_language),
    }
}

/// The page for an analysis that failed with this message.
pub fn failure_page(message: &str) -> (page: String)
    ensures
        page@ == error_page(message@),
{
    let template = ErrorTemplate { message: message.to_owned() };
    template.render()
}

/// What comes next once an analysis has ended: the answer, or the search for the directory in
/// which its files are saved.
pub enum AfterAnalysis {
    Reply(String),
    ResolveOutput { run: AnalysisRun, report_html: String, output: PathChoice },
}

/// What comes next once an analysis has ended. It gave a message where it failed, and otherwise
/// the run, with its configuration as indented JSON where that could be turned into JSON.
pub fn on_analyzed(
    form: &AnalyzeForm,
    outcome: Result<(AnalysisRun, Option<String>), String>,
) -> (r: AfterAnalysis)
    ensures
        match outcome {
            Err(message) => r matches AfterAnalysis::Reply(page) && page@ == error_page(message@),
            Ok((run, None)) => r matches AfterAnalysis::Reply(page) && page@ == error_page(
                "failed to serialize effective configuration"@,
            ),
            Ok((run, Some(json))) => r matches AfterAnalysis::ResolveOutput {
                run: same,
                report_html,
                output,
            } && same == run && report_html@ == report_of(run, json@) && may_be_output_root(
                opt_text(form.output_dir),
                output,
            ),
        },
{
    let (run, json) = match outcome {
        Ok(pair) => pair,
        Err(message) => {
            return AfterAnalysis::Reply(failure_page(message.as_str()));
        },
    };
    let rendered = match &json {
        Some(text) => render_html(&run, Some(text.as_str())),
        None => render_html(&run, None),
    };
    match rendered {
        Err(error) => {
            let message = report_error_message(error);
            AfterAnalysis::Reply(failure_page(message.as_str()))
        },
        Ok(report_html) => {
            let output = match &form.output_dir {
                Some(dir) => resolve_output_root(Some(dir.as_str())),
                None => resolve_output_root(None),
            };
            AfterAnalysis::ResolveOutput { run, report_html, output }
        },
    }
}

/// The name of the directory in which a run is saved: the label of the project, and the run's
/// identifier.
pub open spec fn run_directory(label: Seq<char>, run_id: Seq<char>) -> Seq<char> {
    label + "_"@ + run_id
}

/// The name of the directory in which a run of the project at this path is saved.
pub fn run_directory_name(path: &str, run_id: &str) -> (name: String)
    ensures
        exists|n: Option<Seq<char>>| #[trigger]
            may_be_named(path@, n) && name@ == run_directory(project_label(n), run_id@),
        is_portable(path@) ==> name@ == run_directory(project_label(last_name(path@)), run_id@),
{
    let mut name = sanitize_project_label(path);
    proof {
        let n = choose|n: Option<Seq<char>>| #[trigger]
            may_be_named(path@, n) && name@ == project_label(n);
        assert(may_be_named(path@, n));
    }
    name.append("_");
    name.append(run_id);
    name
}

/// What comes next once the directory for saved runs is known: the answer, or the saving of the
/// requested files in a directory of this name below it.
pub enum AfterResolve {
    Reply(String),
    Persist { directory: String, request: PersistRequest },
}

/// What comes next once the directory for saved runs has been looked for, which gave a message
/// where it failed.
pub fn on_resolved(form: &AnalyzeForm, run: &AnalysisRun, outcome: Result<(), String>) -> (r:
    AfterResolve)
    ensures
        match outcome {
            Err(message) => r matches AfterResolve::Reply(page) && page@ == error_page(message@),
            Ok(_) => r matches AfterResolve::Persist { directory, request } && request
                == requested(*form) && (exists|n: Option<Seq<char>>| #[trigger]
                may_be_named(form.path@, n) && directory@ == run_directory(
                    project_label(n),
                    run.tool.run_id@,
                )) && (is_portable(form.path@) ==> directory@ == run_directory(
                project_label(last_name(form.path@)),
                run.tool.run_id@,
            )),
        },
{
    match outcome {
        Err(message) => AfterResolve::Reply(failure_page(message.as_str())),
        Ok(_) => {
            let directory = run_directory_name(form.path.as_str(), run.tool.run_id.as_str());
            AfterResolve::Persist { directory, request: request_of(form) }
        },
    }
}

/// What is recorded of a run that was started from a form, once it has been saved at these paths.
pub open spec fn recorded(form: AnalyzeForm, run: AnalysisRun, paths: RunPaths) -> ArtifactsView {
    saved_artifacts(
        requested(form),
        paths,
        run.effective_configuration.reporting.report_title@,
    )
}

/// The answer once the steps that save a run before its answer have ended, which gave the paths of
/// its files, or a message where one failed. The run is recorded, so that its files are served
/// from then on; its PDF is printed behind the answer, which does not depend on it. `None` where
/// the sums of the run's lines cannot be held; the run is recorded all the same.
pub fn on_persisted(
    form: &AnalyzeForm,
    registry: &mut Registry,
    run: &AnalysisRun,
    outcome: Result<RunPaths, String>,
) -> (r: Option<String>)
    ensures
        match outcome {
            Err(message) => {
                &&& final(registry)@ == old(registry)@
                &&& r matches Some(page) && page@ == error_page(message@)
            },
            Ok(paths) => {
                let artifacts = recorded(*form, *run, paths);
                &&& final(registry)@ == old(registry)@.insert(run.tool.run_id@, artifacts)
                &&& match r {
                    Some(page) => sums_fit(sums_of(counts_of(run.totals_by_language@))) && page@
                        == result_page(result_of(*run, form.path@, artifacts)),
                    None => !sums_fit(sums_of(counts_of(run.totals_by_language@))),
                }
            },
        },
{
    match outcome {
        Err(message) => Some(failure_page(message.as_str())),
        Ok(paths) => {
            let title = run.effective_configuration.reporting.report_title.as_str();
            let artifacts = persisted_artifacts(request_of(form), paths, title);
            let page = match line_sums(&run.totals_by_language) {
                Some(sums) => {
                    let template = result_template(run, form.path.as_str(), &artifacts, sums);
                    Some(template.render())
                },
                None => None,
            };
            registry.record(run.tool.run_id.as_str(), artifacts);
            page
        },
    }
}

/// Applying a form twice is the same as applying it once.
pub proof fn law_form_applies_once(base: ConfigView, form: AnalyzeForm)
    ensures
        configured(configured(base, form), form) == configured(base, form),
{
}

/// A form whose title is blank or absent keeps the configured title, and no form changes where
/// the workbench listens.
pub proof fn law_form_keeps_the_rest(base: ConfigView, form: AnalyzeForm)
    ensures
        configured(base, form).bind_address == base.bind_address,
        (form.report_title matches Some(title) ==> trimmed(title@).len() == 0) ==> configured(
            base,
            form,
        ).report_title == base.report_title,
        form.mixed_line_policy is None ==> configured(base, form).mixed_line_policy
            == base.mixed_line_policy,
{
}

/// The name under which a kind of file is served.
pub open spec fn kind_name(kind: ArtifactKind) -> Seq<char> {
    match kind {
        ArtifactKind::Html => "html"@,
        ArtifactKind::Pdf => "pdf"@,
        ArtifactKind::Json => "json"@,
    }
}

/// The address that the result page shows for a kind of file.
pub open spec fn shown_url(t: ResultView, kind: ArtifactKind) -> Option<Seq<char>> {
    match kind {
        ArtifactKind::Html => t.html_url,
        ArtifactKind::Pdf => t.pdf_url,
        ArtifactKind::Json => t.json_url,
    }
}

/// The result page of a recorded run links a kind of file exactly where that file is served, a PDF
/// as soon as it has been printed; and the link names the run and the kind under which it is
/// served.
pub proof fn law_links_are_served(
    run: AnalysisRun,
    path: Seq<char>,
    artifacts: ArtifactsView,
    runs: Map<Seq<char>, ArtifactsView>,
    kind: ArtifactKind,
)
    ensures
        ({
            let shown = shown_url(result_of(run, path, artifacts), kind);
            let served = served_file(
                runs.insert(run.tool.run_id@, artifacts),
                run.tool.run_id@,
                kind_name(kind),
            );
            &&& shown is Some <==> served is Some
            &&& shown matches Some(url) ==> url == artifact_url(run.tool.run_id@, kind_name(kind))
            &&& served matches Some(file) ==> file.kind == kind
        }),
{
    reveal_strlit("html");
    reveal_strlit("pdf");
    reveal_strlit("json");
    assert("html"@.len() == 4 && "pdf"@.len() == 3 && "json"@.len() == 4);
    assert("html"@[0] == 'h' && "json"@[0] == 'j');
}

/// The report is embedded in the result page exactly where the run saved one.
pub proof fn law_preview_needs_saved_report(
    run: AnalysisRun,
    path: Seq<char>,
    artifacts: ArtifactsView,
)
    ensures
        result_of(run, path, artifacts).has_preview <==> result_of(
            run,
            path,
            artifacts,
        ).html_url is Some,
{
}

/// The sums that the result page shows are those of its rows: a language more adds its lines to
/// each of them.
pub proof fn law_sums_add_up(rows: Seq<CountsView>, row: CountsView)
    ensures
        sums_of(rows.push(row)) == (SumsView {
            physical: sums_of(rows).physical + row.physical as nat,
            code: sums_of(rows).code + row.code as nat,
            comments: sums_of(rows).comments + row.comments as nat,
            blank: sums_of(rows).blank + row.blank as nat,
            mixed: sums_of(rows).mixed + row.mixed as nat,
        }),
{
    assert(rows.push(row).drop_last() == rows);
}

/// Sums can be held up to the largest number of 64 bits, and each of them has to.
pub proof fn law_sums_fit_up_to_the_largest_number(sums: SumsView)
    ensures
        sums_fit(sums) <==> sums.physical <= 18446744073709551615 && sums.code
            <= 18446744073709551615 && sums.comments <= 18446744073709551615 && sums.blank
            <= 18446744073709551615 && sums.mixed <= 18446744073709551615,
{
}

/// No languages have no lines.
pub proof fn law_no_languages_have_no_lines()
    ensures
        sums_of(seq![]) == (SumsView { physical: 0, code: 0, comments: 0, blank: 0, mixed: 0 }),
{
}

/// Each choice of a form decides on its own part of the configuration and on no other: the path is
/// the only root, a policy that is named is the policy, docstrings count as comments exactly where
/// that is ticked, and a title that is not blank is the title, without the white space around it.
pub proof fn law_form_decides(base: ConfigView, form: AnalyzeForm)
    ensures
        ({
            let config = configured(base, form);
            &&& config.root_paths == seq![form.path@]
            &&& form.mixed_line_policy matches Some(policy) ==> config.mixed_line_policy == policy
            &&& form.mixed_line_policy is None ==> config.mixed_line_policy
                == base.mixed_line_policy
            &&& config.python_docstrings_as_comments <==> form.python_docstrings_as_comments is Some
            &&& form.report_title matches Some(title) ==> config.report_title == if trimmed(
                title@,
            ).len() > 0 {
                trimmed(title@)
            } else {
                base.report_title
            }
            &&& form.report_title is None ==> config.report_title == base.report_title
            &&& form.include_globs matches Some(text) ==> config.include_globs == patterns(text@)
            &&& form.include_globs is None ==> config.include_globs.len() == 0
            &&& form.exclude_globs matches Some(text) ==> config.exclude_globs == patterns(text@)
            &&& form.exclude_globs is None ==> config.exclude_globs.len() == 0
            &&& config.bind_address == base.bind_address
        }),
{
}

/// What is saved of a run is what its form has ticked, each box for its own file.
pub proof fn law_ticked_files_are_saved(form: AnalyzeForm, run: AnalysisRun, paths: RunPaths)
    ensures
        requested(form).html <==> form.generate_html is Some,
        requested(form).json <==> form.generate_json is Some,
        requested(form).pdf <==> form.generate_pdf is Some,
        recorded(form, run, paths).html_path == if form.generate_html is Some {
            Some(paths.html@)
        } else {
            None
        },
        recorded(form, run, paths).json_path == if form.generate_json is Some {
            Some(paths.json@)
        } else {
            None
        },
        recorded(form, run, paths).pdf_path == if form.generate_pdf is Some {
            Some(paths.pdf@)
        } else {
            None
        },
        recorded(form, run, paths).output_dir == paths.output_dir@,
        recorded(form, run, paths).report_title
            == run.effective_configuration.reporting.report_title@,
{
}

/// The result page shows what is the run's own: its title, identifier and counts of files, the path
/// that was analyzed, the sums over its languages, each language with its counts, and for each saved
/// file its path and the address under which it is served.
pub proof fn law_result_shows_the_run(run: AnalysisRun, path: Seq<char>, artifacts: ArtifactsView)
    ensures
        ({
            let shown = result_of(run, path, artifacts);
            let id = run.tool.run_id@;
            let sums = sums_of(counts_of(run.totals_by_language@));
            &&& shown.report_title == run.effective_configuration.reporting.report_title@
            &&& shown.project_path == path
            &&& shown.run_id == id
            &&& shown.output_dir == lossy_utf8(artifacts.output_dir)
            &&& shown.files_analyzed == run.per_file_records@.len() as u64
            &&& shown.files_skipped == run.skipped_file_records@.len() as u64
            &&& sums_fit(sums) ==> shown.physical_lines == sums.physical && shown.code_lines
                == sums.code && shown.comment_lines == sums.comments && shown.blank_lines
                == sums.blank && shown.mixed_lines == sums.mixed
            &&& shown.language_rows == counts_of(run.totals_by_language@)
            &&& artifacts.html_path matches Some(file) ==> shown.html_path == Some(lossy_utf8(file))
                && shown.html_url == Some("/runs/"@ + id + "/"@ + "html"@)
            &&& artifacts.pdf_path matches Some(file) ==> shown.pdf_path == Some(lossy_utf8(file))
                && shown.pdf_url == Some("/runs/"@ + id + "/"@ + "pdf"@)
            &&& artifacts.json_path matches Some(file) ==> shown.json_path == Some(lossy_utf8(file))
                && shown.json_url == Some("/runs/"@ + id + "/"@ + "json"@)
            &&& artifacts.html_path is None ==> shown.html_path is None && shown.html_url is None
            &&& artifacts.pdf_path is None ==> shown.pdf_path is None && shown.pdf_url is None
            &&& artifacts.json_path is None ==> shown.json_path is None && shown.json_url is None
        }),
{
}

/// The directory of a run is named by the label of the project, an underscore and the identifier of
/// the run; so two runs with different identifiers never share one below the same label.
pub proof fn law_runs_have_their_own_directories(
    label: Seq<char>,
    run_id: Seq<char>,
    other: Seq<char>,
)
    ensures
        run_directory(label, run_id) == label + "_"@ + run_id,
        run_directory(label, run_id) == run_directory(label, other) ==> run_id == other,
{
    if run_directory(label, run_id) == run_directory(label, other) {
        let head = label + "_"@;
        assert(run_directory(label, run_id).skip(head.len() as int) == run_id);
        assert(run_directory(label, other).skip(head.len() as int) == other);
    }
}

/// A configuration and the sums of lines are what their fields hold, each under its own name.
pub proof fn law_configuration_is_what_it_holds(config: AppConfig, sums: LineSums)
    ensures
        config@.root_paths == texts(config.discovery.root_paths@),
        config@.include_globs == texts(config.discovery.include_globs@),
        config@.exclude_globs == texts(config.discovery.exclude_globs@),
        config@.mixed_line_policy == config.analysis.mixed_line_policy,
        config@.python_docstrings_as_comments == config.analysis.python_docstrings_as_comments,
        config@.report_title == config.reporting.report_title@,
        config@.bind_address == config.web.bind_address@,
        sums@.physical == sums.physical,
        sums@.code == sums.code,
        sums@.comments == sums.comments,
        sums@.blank == sums.blank,
        sums@.mixed == sums.mixed,
{
}

} // verus!

//! The files that a run saves: how they are written, remembered and served again.

use vstd::hash_map::StringHashMap;
use vstd::prelude::*;

use crate::paths::{is_label_char, label_of_name, law_project_label_is_label, opt_text, project_label};
use crate::text::same_text;

verus! {

/// A kind of file that a run can save.
#[derive(Clone, Copy, PartialEq, Eq, Structural, Debug)]
pub enum ArtifactKind {
    Html,
    Pdf,
    Json,
}

/// Which files a run is to save.
#[derive(Clone, Copy, PartialEq, Eq, Structural, Debug)]
pub struct PersistRequest {
    pub html: bool,
    pub json: bool,
    pub pdf: bool,
}

/// The raw paths under which a run saves its files.
pub struct RunPaths {
    pub output_dir: Vec<u8>,
    pub html: Vec<u8>,
    pub pdf: Vec<u8>,
    pub json: Vec<u8>,
}

/// What a run has saved: the title of its report, its directory, and the raw path of each file
/// that was asked for.
pub struct RunArtifacts {
    pub report_title: String,
    pub output_dir: Vec<u8>,
    pub html_path: Option<Vec<u8>>,
    pub pdf_path: Option<Vec<u8>>,
    pub json_path: Option<Vec<u8>>,
}

/// The bytes of a path that may be absent.
pub open spec fn opt_bytes(path: Option<Vec<u8>>) -> Option<Seq<u8>> {
    match path {
        Some(p) => Some(p@),
        None => None,
    }
}

/// The model of what a run has saved.
#[verifier::ext_equal]
pub struct ArtifactsView {
    pub report_title: Seq<char>,
    pub output_dir: Seq<u8>,
    pub html_path: Option<Seq<u8>>,
    pub pdf_path: Option<Seq<u8>>,
    pub json_path: Option<Seq<u8>>,
}

impl View for RunArtifacts {
    type V = ArtifactsView;

    open spec fn view(&self) -> ArtifactsView {
        ArtifactsView {
            report_title: self.report_title@,
            output_dir: self.output_dir@,
            html_path: opt_bytes(self.html_path),
            pdf_path: opt_bytes(self.pdf_path),
            json_path: opt_bytes(self.json_path),
        }
    }
}

impl ArtifactsView {
    /// The path of the file of one kind.
    pub open spec fn path_of(self, kind: ArtifactKind) -> Option<Seq<u8>> {
        match kind {
            ArtifactKind::Html => self.html_path,
            ArtifactKind::Pdf => self.pdf_path,
            ArtifactKind::Json => self.json_path,
        }
    }
}

/// A step of saving a run.
#[derive(Clone, Copy, PartialEq, Eq, Structural, Debug)]
pub enum PersistStep {
    /// Make the run's directory.
    CreateDirectory,
    /// Write the report.
    WriteHtml,
    /// Turn the run into JSON.
    SerializeJson,
    /// Write the JSON.
    WriteJson,
    /// Write the report into a temporary file, from which the PDF is printed.
    WriteTemporaryHtml,
    /// Print the PDF, from the temporary file or from the saved report.
    PrintPdf { from_temporary: bool },
    /// Remove the temporary file.
    RemoveTemporaryHtml,
}

/// Where the saving of a run stands.
#[derive(Clone, Copy, PartialEq, Eq, Structural, Debug)]
pub enum PersistState {
    Next(PersistStep),
    Finished,
    Stopped(PersistStep),
}

/// The steps that save a run before it is answered, in their order.
pub open spec fn reply_plan(request: PersistRequest) -> Seq<PersistStep> {
    seq![PersistStep::CreateDirectory] + (if request.html {
        seq![PersistStep::WriteHtml]
    } else {
        seq![]
    }) + (if request.json {
        seq![PersistStep::SerializeJson, PersistStep::WriteJson]
    } else {
        seq![]
    })
}

/// The steps that go on in the background behind the answer, in their order: the PDF is printed
/// from the saved report, or from a temporary page where no report is saved.
pub open spec fn background_plan(request: PersistRequest) -> Seq<PersistStep> {
    if !request.pdf {
        seq![]
    } else if request.html {
        seq![PersistStep::PrintPdf { from_temporary: false }]
    } else {
        seq![
            PersistStep::WriteTemporaryHtml,
            PersistStep::PrintPdf { from_temporary: true },
            PersistStep::RemoveTemporaryHtml,
        ]
    }
}

/// The first step of saving the JSON, or the end where none is asked for.
pub open spec fn json_part(request: PersistRequest) -> PersistState {
    if request.json {
        PersistState::Next(PersistStep::SerializeJson)
    } else {
        PersistState::Finished
    }
}

/// Where the saving before the answer stands after a step. A step that fails stops it; a step that
/// belongs to the background has nothing behind it here.
pub open spec fn after_persist_step(
    request: PersistRequest,
    step: PersistStep,
    ok: bool,
) -> PersistState {
    if !ok {
        PersistState::Stopped(step)
    } else {
        match step {
            PersistStep::CreateDirectory => if request.html {
                PersistState::Next(PersistStep::WriteHtml)
            } else {
                json_part(request)
            },
            PersistStep::WriteHtml => json_part(request),
            PersistStep::SerializeJson => PersistState::Next(PersistStep::WriteJson),
            _ => PersistState::Finished,
        }
    }
}

/// Where the background of a run stands before its first step, given how the saving before the
/// answer ended: nothing is done for a run that could not be saved.
pub open spec fn background_start(request: PersistRequest, reply: PersistState) -> PersistState {
    if reply != PersistState::Finished || !request.pdf {
        PersistState::Finished
    } else if request.html {
        PersistState::Next(PersistStep::PrintPdf { from_temporary: false })
    } else {
        PersistState::Next(PersistStep::WriteTemporaryHtml)
    }
}

/// Where the background stands after a step. A step that fails stops it, but for the removal of the
/// temporary page; a step that belongs before the answer has nothing behind it here.
pub open spec fn after_background_step(step: PersistStep, ok: bool) -> PersistState {
    if !ok && step != PersistStep::RemoveTemporaryHtml {
        PersistState::Stopped(step)
    } else {
        match step {
            PersistStep::WriteTemporaryHtml => PersistState::Next(
                PersistStep::PrintPdf { from_temporary: true },
            ),
            PersistStep::PrintPdf { from_temporary: true } => PersistState::Next(
                PersistStep::RemoveTemporaryHtml,
            ),
            _ => PersistState::Finished,
        }
    }
}

/// Where the saving of a run stands before its first step.
pub fn begin_persist() -> (r: PersistState)
    ensures
        r == PersistState::Next(PersistStep::CreateDirectory),
{
    PersistState::Next(PersistStep::CreateDirectory)
}

/// The step behind the report.
fn to_json(request: PersistRequest) -> (r: PersistState)
    ensures
        r == json_part(request),
{
    if request.json {
        PersistState::Next(PersistStep::SerializeJson)
    } else {
        PersistState::Finished
    }
}

/// Where the saving before the answer stands after a step, given whether that step succeeded.
pub fn next_persist_state(request: PersistRequest, step: PersistStep, ok: bool) -> (r: PersistState)
    ensures
        r == after_persist_step(request, step, ok),
{
    if !ok {
        return PersistState::Stopped(step);
    }
    match step {
        PersistStep::CreateDirectory => if request.html {
            PersistState::Next(PersistStep::WriteHtml)
        } else {
            to_json(request)
        },
        PersistStep::WriteHtml => to_json(request),
        PersistStep::SerializeJson => PersistState::Next(PersistStep::WriteJson),
        _ => PersistState::Finished,
    }
}

/// Where the background of a run stands before its first step, given how the saving before the
/// answer ended.
pub fn begin_background(request: PersistRequest, reply: PersistState) -> (r: PersistState)
    ensures
        r == background_start(request, reply),
{
    if reply != PersistState::Finished || !request.pdf {
        PersistState::Finished
    } else if request.html {
        PersistState::Next(PersistStep::PrintPdf { from_temporary: false })
    } else {
        PersistState::Next(PersistStep::WriteTemporaryHtml)
    }
}

/// Where the background of a run stands after a step, given whether that step succeeded.
pub fn next_background_state(step: PersistStep, ok: bool) -> (r: PersistState)
    ensures
        r == after_background_step(step, ok),
{
    if !ok && step != PersistStep::RemoveTemporaryHtml {
        return PersistState::Stopped(step);
    }
    match step {
        PersistStep::WriteTemporaryHtml => PersistState::Next(
            PersistStep::PrintPdf { from_temporary: true },
        ),
        PersistStep::PrintPdf { from_temporary: true } => PersistState::Next(
            PersistStep::RemoveTemporaryHtml,
        ),
        _ => PersistState::Finished,
    }
}

/// The name of the report in a run's directory.
pub const HTML_FILE: &'static str = "report.html";

/// The name of the PDF in a run's directory.
pub const PDF_FILE: &'static str = "report.pdf";

/// The name of the JSON in a run's directory.
pub const JSON_FILE: &'static str = "result.json";

/// The name of the temporary report in a run's directory.
pub const TEMPORARY_HTML_FILE: &'static str = "_report_rendered.html";

/// The name of the file that a step makes or removes in the run's directory, where it is about
/// one.
pub open spec fn file_of_step(step: PersistStep) -> Option<Seq<char>> {
    match step {
        PersistStep::CreateDirectory => None,
        PersistStep::WriteHtml => Some(HTML_FILE@),
        PersistStep::SerializeJson => None,
        PersistStep::WriteJson => Some(JSON_FILE@),
        PersistStep::WriteTemporaryHtml => Some(TEMPORARY_HTML_FILE@),
        PersistStep::PrintPdf { .. } => Some(PDF_FILE@),
        PersistStep::RemoveTemporaryHtml => Some(TEMPORARY_HTML_FILE@),
    }
}

/// The name of the file that a step reads in the run's directory, where it reads one.
pub open spec fn source_of_step(step: PersistStep) -> Option<Seq<char>> {
    match step {
        PersistStep::PrintPdf { from_temporary } => Some(
            if from_temporary {
                TEMPORARY_HTML_FILE@
            } else {
                HTML_FILE@
            },
        ),
        _ => None,
    }
}

/// The name under which a kind of file is saved in the run's directory.
pub open spec fn file_of_kind(kind: ArtifactKind) -> Seq<char> {
    match kind {
        ArtifactKind::Html => HTML_FILE@,
        ArtifactKind::Pdf => PDF_FILE@,
        ArtifactKind::Json => JSON_FILE@,
    }
}

/// The contents of a fixed text that may be absent.
pub open spec fn opt_fixed(s: Option<&'static str>) -> Option<Seq<char>> {
    match s {
        Some(t) => Some(t@),
        None => None,
    }
}

/// The name of the file that a step makes or removes in the run's directory.
pub fn step_file(step: PersistStep) -> (r: Option<&'static str>)
    ensures
        opt_fixed(r) == file_of_step(step),
{
    match step {
        PersistStep::CreateDirectory => None,
        PersistStep::WriteHtml => Some(HTML_FILE),
        PersistStep::SerializeJson => None,
        PersistStep::WriteJson => Some(JSON_FILE),
        PersistStep::WriteTemporaryHtml => Some(TEMPORARY_HTML_FILE),
        PersistStep::PrintPdf { .. } => Some(PDF_FILE),
        PersistStep::RemoveTemporaryHtml => Some(TEMPORARY_HTML_FILE),
    }
}

/// The name of the file that a step reads in the run's directory.
pub fn step_source(step: PersistStep) -> (r: Option<&'static str>)
    ensures
        opt_fixed(r) == source_of_step(step),
{
    match step {
        PersistStep::PrintPdf { from_temporary } => Some(
            if from_temporary {
                TEMPORARY_HTML_FILE
            } else {
                HTML_FILE
            },
        ),
        _ => None,
    }
}

/// The name under which a kind of file is saved in the run's directory.
pub fn kind_file(kind: ArtifactKind) -> (r: &'static str)
    ensures
        r@ == file_of_kind(kind),
{
    match kind {
        ArtifactKind::Html => HTML_FILE,
        ArtifactKind::Pdf => PDF_FILE,
        ArtifactKind::Json => JSON_FILE,
    }
}

/// What is reported where a step of saving a run failed; `path` is the path that the step was
/// about, and `cause` what the printing of the PDF reported.
pub open spec fn persist_error_text(step: PersistStep, path: Seq<char>, cause: Seq<char>) -> Seq<
    char,
> {
    match step {
        PersistStep::CreateDirectory => "failed to create output directory "@ + path,
        PersistStep::WriteHtml => "failed to write HTML report to "@ + path,
        PersistStep::SerializeJson => "failed to serialize analysis run to JSON"@,
        PersistStep::WriteJson => "failed to write JSON report to "@ + path,
        PersistStep::WriteTemporaryHtml => "failed to write temporary HTML report to "@ + path,
        _ => cause,
    }
}

/// What is reported where a step of saving a run failed.
pub fn persist_error_message(step: PersistStep, path: &str, cause: &str) -> (message: String)
    ensures
        message@ == persist_error_text(step, path@, cause@),
{
    let mut message = match step {
        PersistStep::CreateDirectory => "failed to create output directory ".to_owned(),
        PersistStep::WriteHtml => "failed to write HTML report to ".to_owned(),
        PersistStep::SerializeJson => {
            return "failed to serialize analysis run to JSON".to_owned();
        },
        PersistStep::WriteJson => "failed to write JSON report to ".to_owned(),
        PersistStep::WriteTemporaryHtml => "failed to write temporary HTML report to ".to_owned(),
        _ => {
            return cause.to_owned();
        },
    };
    message.append(path);
    message
}

/// What is recorded of a run that has been saved: each file that was asked for, and no other. The
/// PDF is recorded before it is printed.
pub open spec fn saved_artifacts(
    request: PersistRequest,
    paths: RunPaths,
    title: Seq<char>,
) -> ArtifactsView {
    ArtifactsView {
        report_title: title,
        output_dir: paths.output_dir@,
        html_path: if request.html {
            Some(paths.html@)
        } else {
            None
        },
        pdf_path: if request.pdf {
            Some(paths.pdf@)
        } else {
            None
        },
        json_path: if request.json {
            Some(paths.json@)
        } else {
            None
        },
    }
}

/// What is recorded of a run that has been saved.
pub fn persisted_artifacts(request: PersistRequest, paths: RunPaths, title: &str) -> (r:
    RunArtifacts)
    ensures
        r@ == saved_artifacts(request, paths, title@),
{
    RunArtifacts {
        report_title: title.to_owned(),
        output_dir: paths.output_dir,
        html_path: if request.html {
            Some(paths.html)
        } else {
            None
        },
        pdf_path: if request.pdf {
            Some(paths.pdf)
        } else {
            None
        },
        json_path: if request.json {
            Some(paths.json)
        } else {
            None
        },
    }
}

/// The steps that are taken before the answer, from a state on and as far as `fuel` of them, where
/// they succeed.
pub open spec fn steps_from(request: PersistRequest, state: PersistState, fuel: nat) -> Seq<
    PersistStep,
>
    decreases fuel,
{
    match state {
        PersistState::Next(step) => if fuel == 0 {
            seq![]
        } else {
            seq![step] + steps_from(
                request,
                after_persist_step(request, step, true),
                (fuel - 1) as nat,
            )
        },
        _ => seq![],
    }
}

/// The steps that are taken in the background, from a state on and as far as `events` tells how
/// they went.
pub open spec fn background_steps(state: PersistState, events: Seq<bool>) -> Seq<PersistStep>
    decreases events.len(),
{
    match state {
        PersistState::Next(step) => if events.len() == 0 {
            seq![]
        } else {
            seq![step] + background_steps(after_background_step(step, events[0]), events.skip(1))
        },
        _ => seq![],
    }
}

/// A run whose steps all succeed takes exactly the steps of its plan before it is answered, in
/// their order.
pub proof fn law_persist_follows_plan(request: PersistRequest)
    ensures
        steps_from(request, PersistState::Next(PersistStep::CreateDirectory), 5) == reply_plan(
            request,
        ),
{
    reveal_with_fuel(steps_from, 6);
}

/// Behind the answer a run whose steps all succeed takes exactly the steps of its background plan,
/// in their order.
pub proof fn law_background_follows_plan(request: PersistRequest)
    ensures
        background_steps(
            background_start(request, PersistState::Finished),
            seq![true, true, true],
        ) == background_plan(request),
{
    reveal_with_fuel(background_steps, 4);
    let events = seq![true, true, true];
    assert(events.skip(1)[0] && events.skip(1).skip(1)[0]);
}

/// Whether a step belongs to printing the PDF.
pub open spec fn is_pdf_step(step: PersistStep) -> bool {
    step is PrintPdf || step is WriteTemporaryHtml || step is RemoveTemporaryHtml
}

/// The answer does not wait for the PDF: no step before it belongs to printing, however the steps
/// go, and whether a PDF is asked for makes no difference to them.
pub proof fn law_answer_does_not_wait_for_pdf(
    request: PersistRequest,
    step: PersistStep,
    ok: bool,
)
    ensures
        forall|i: int|
            0 <= i < reply_plan(request).len() ==> !is_pdf_step(#[trigger] reply_plan(request)[i]),
        after_persist_step(request, step, ok) matches PersistState::Next(next) ==> !is_pdf_step(
            next,
        ),
        after_persist_step(request, step, ok) == after_persist_step(
            PersistRequest { pdf: !request.pdf, ..request },
            step,
            ok,
        ),
{
}

/// The temporary page is removed behind a printing that succeeded, and stays for one that failed,
/// with which the background stops; a run that could not be saved has no background.
pub proof fn law_printed_page_is_removed(
    request: PersistRequest,
    reply: PersistState,
    printed: bool,
)
    ensures
        ({
            let print = PersistStep::PrintPdf { from_temporary: true };
            after_background_step(print, printed) == if printed {
                PersistState::Next(PersistStep::RemoveTemporaryHtml)
            } else {
                PersistState::Stopped(print)
            }
        }),
        reply != PersistState::Finished ==> background_start(request, reply)
            == PersistState::Finished,
{
}

/// Where the background prints the PDF, the page that it prints from has been written before: it
/// is the temporary page, written by the step before and removed by the step behind, or the saved
/// report.
pub proof fn law_pdf_source_is_written_first(request: PersistRequest, at: int)
    requires
        0 <= at < background_plan(request).len(),
        background_plan(request)[at] is PrintPdf,
    ensures
        ({
            let plan = background_plan(request);
            if plan[at]->from_temporary {
                &&& at >= 1 && file_of_step(plan[at - 1]) == source_of_step(plan[at])
                &&& at + 1 < plan.len() && plan[at + 1] == PersistStep::RemoveTemporaryHtml
                &&& file_of_step(plan[at + 1]) == source_of_step(plan[at])
            } else {
                reply_plan(request)[1] == PersistStep::WriteHtml && file_of_step(
                    PersistStep::WriteHtml,
                ) == source_of_step(plan[at])
            }
        }),
{
}

/// Exactly those files are recorded that a step writes: the report and the JSON before the answer,
/// and the PDF behind it. Each is written under the name under which it is recorded.
pub proof fn law_recorded_files_are_written(
    request: PersistRequest,
    paths: RunPaths,
    title: Seq<char>,
)
    ensures
        ({
            let saved = saved_artifacts(request, paths, title);
            &&& saved.html_path is Some <==> reply_plan(request).contains(PersistStep::WriteHtml)
            &&& saved.json_path is Some <==> reply_plan(request).contains(PersistStep::WriteJson)
            &&& saved.pdf_path is Some <==> exists|i: int|
                0 <= i < background_plan(request).len() && #[trigger] background_plan(
                    request,
                )[i] is PrintPdf
        }),
        file_of_step(PersistStep::WriteHtml) == Some(file_of_kind(ArtifactKind::Html)),
        file_of_step(PersistStep::WriteJson) == Some(file_of_kind(ArtifactKind::Json)),
        forall|from_temporary: bool|
            #[trigger] file_of_step(PersistStep::PrintPdf { from_temporary }) == Some(
                file_of_kind(ArtifactKind::Pdf),
            ),
{
    let plan = reply_plan(request);
    let html: int = if request.html {
        1
    } else {
        0
    };
    assert(request.html ==> plan[1] == PersistStep::WriteHtml);
    assert(request.json ==> plan[2 + html] == PersistStep::WriteJson);
    assert(request.pdf && request.html ==> background_plan(request)[0] is PrintPdf);
    assert(request.pdf && !request.html ==> background_plan(request)[1] is PrintPdf);
}

/// The runs whose files can be served, by the identifier of each.
pub struct Registry {
    runs: StringHashMap<RunArtifacts>,
}

impl View for Registry {
    type V = Map<Seq<char>, ArtifactsView>;

    closed spec fn view(&self) -> Map<Seq<char>, ArtifactsView> {
        self.runs@.map_values(|a: RunArtifacts| a@)
    }
}

impl Registry {
    /// A registry without runs.
    pub fn new() -> (r: Registry)
        ensures
            r@ == Map::<Seq<char>, ArtifactsView>::empty(),
    {
        let r = Registry { runs: StringHashMap::new() };
        assert(r@ =~= Map::<Seq<char>, ArtifactsView>::empty());
        r
    }

    /// Remembers what a run has saved, in place of what was remembered of it before.
    pub fn record(&mut self, run_id: &str, artifacts: RunArtifacts)
        ensures
            final(self)@ == old(self)@.insert(run_id@, artifacts@),
    {
        let ghost before = self@;
        let ghost added = artifacts@;
        self.runs.insert(run_id.to_owned(), artifacts);
        assert(self@ =~= before.insert(run_id@, added));
    }

    /// What a run has saved, where the run is known.
    pub fn lookup(&self, run_id: &str) -> (r: Option<&RunArtifacts>)
        ensures
            match r {
                Some(artifacts) => self@.contains_key(run_id@) && self@[run_id@] == artifacts@,
                None => !self@.contains_key(run_id@),
            },
    {
        self.runs.get(run_id)
    }
}

/// The kind of file that an address names.
pub open spec fn kind_named(name: Seq<char>) -> Option<ArtifactKind> {
    if name == "html"@ {
        Some(ArtifactKind::Html)
    } else if name == "pdf"@ {
        Some(ArtifactKind::Pdf)
    } else if name == "json"@ {
        Some(ArtifactKind::Json)
    } else {
        None
    }
}

/// The kind of file that an address names.
pub fn artifact_kind(name: &str) -> (r: Option<ArtifactKind>)
    ensures
        r == kind_named(name@),
{
    if same_text(name, "html") {
        Some(ArtifactKind::Html)
    } else if same_text(name, "pdf") {
        Some(ArtifactKind::Pdf)
    } else if same_text(name, "json") {
        Some(ArtifactKind::Json)
    } else {
        None
    }
}

/// The name under which a PDF is offered: the label of the report's title, with its ending.
pub open spec fn pdf_name(title: Seq<char>) -> Seq<char> {
    project_label(Some(title)) + ".pdf"@
}

/// The name under which the PDF of a report with this title is offered.
pub fn pdf_file_name(title: &str) -> (r: String)
    ensures
        r@ == project_label(Some(title@)) + ".pdf"@,
{
    let mut r = label_of_name(Some(title));
    r.append(".pdf");
    r
}

/// A saved file that is served: its kind, its raw path, and the name under which it is offered,
/// which only a PDF has.
pub struct SavedFile {
    pub kind: ArtifactKind,
    pub path: Vec<u8>,
    pub offered_name: Option<String>,
}

/// The model of a [`SavedFile`].
#[verifier::ext_equal]
pub struct SavedFileView {
    pub kind: ArtifactKind,
    pub path: Seq<u8>,
    pub offered_name: Option<Seq<char>>,
}

impl View for SavedFile {
    type V = SavedFileView;

    open spec fn view(&self) -> SavedFileView {
        SavedFileView {
            kind: self.kind,
            path: self.path@,
            offered_name: opt_text(self.offered_name),
        }
    }
}

/// The file of one kind that a run has saved.
pub open spec fn file_of_run(artifacts: ArtifactsView, kind: ArtifactKind) -> Option<
    SavedFileView,
> {
    match artifacts.path_of(kind) {
        None => None,
        Some(path) => Some(
            SavedFileView {
                kind,
                path,
                offered_name: if kind == ArtifactKind::Pdf {
                    Some(pdf_name(artifacts.report_title))
                } else {
                    None
                },
            },
        ),
    }
}

/// The file that is served for a run and the name of a kind: the one that the run saved, where
/// the run is known and saved one of that kind.
pub open spec fn served_file(
    runs: Map<Seq<char>, ArtifactsView>,
    run_id: Seq<char>,
    name: Seq<char>,
) -> Option<SavedFileView> {
    if !runs.contains_key(run_id) {
        None
    } else {
        match kind_named(name) {
            None => None,
            Some(kind) => file_of_run(runs[run_id], kind),
        }
    }
}

/// A copy of a raw path.
fn copy_bytes(bytes: &Vec<u8>) -> (r: Vec<u8>)
    ensures
        r@ == bytes@,
{
    let mut r: Vec<u8> = Vec::new();
    let mut i: usize = 0;
    while i < bytes.len()
        invariant
            i <= bytes@.len(),
            r@ == bytes@.take(i as int),
        decreases bytes@.len() - i,
    {
        r.push(bytes[i]);
        i = i + 1;
        assert(bytes@.take(i as int) == bytes@.take(i - 1).push(bytes@[i - 1]));
    }
    assert(bytes@.take(bytes@.len() as int) == bytes@);
    r
}

/// Which file to read for a run and the name of a kind; `None` where there is nothing to serve.
pub fn select_artifact(registry: &Registry, run_id: &str, name: &str) -> (r: Option<SavedFile>)
    ensures
        match r {
            Some(file) => served_file(registry@, run_id@, name@) == Some(file@),
            None => served_file(registry@, run_id@, name@) is None,
        },
{
    let artifacts = match registry.lookup(run_id) {
        Some(artifacts) => artifacts,
        None => {
            return None;
        },
    };
    let kind = match artifact_kind(name) {
        Some(kind) => kind,
        None => {
            return None;
        },
    };
    let path = match kind {
        ArtifactKind::Html => &artifacts.html_path,
        ArtifactKind::Pdf => &artifacts.pdf_path,
        ArtifactKind::Json => &artifacts.json_path,
    };
    let offered_name = match kind {
        ArtifactKind::Pdf => Some(pdf_file_name(artifacts.report_title.as_str())),
        _ => None,
    };
    match path {
        Some(p) => Some(SavedFile { kind, path: copy_bytes(p), offered_name }),
        None => None,
    }
}

/// The answer to a request for a saved file.
pub enum ArtifactReply {
    NotFound,
    /// A page.
    Page(String),
    /// The bytes of a file, with their content type, and their content disposition where the file
    /// is offered under a name.
    File { content_type: &'static str, content_disposition: Option<String>, bytes: Vec<u8> },
}

/// The content disposition of a file that is offered under a name.
pub open spec fn disposition_of(offered_name: Option<Seq<char>>) -> Option<Seq<char>> {
    match offered_name {
        Some(name) => Some("inline; filename=\""@ + name + "\""@),
        None => None,
    }
}

/// The content type under which a saved file is served.
pub open spec fn content_type_of(kind: ArtifactKind) -> Seq<char> {
    match kind {
        ArtifactKind::Html => "text/html; charset=utf-8"@,
        ArtifactKind::Pdf => "application/pdf"@,
        ArtifactKind::Json => "application/json; charset=utf-8"@,
    }
}

/// The answer with a saved page; `text` is what reading it gave, where it could be read as text.
pub fn page_reply(text: Option<String>) -> (r: ArtifactReply)
    ensures
        match text {
            Some(t) => r == ArtifactReply::Page(t),
            None => r is NotFound,
        },
{
    match text {
        Some(t) => ArtifactReply::Page(t),
        None => ArtifactReply::NotFound,
    }
}

/// The answer with a saved file; `bytes` is what reading it gave, where it could be read. A PDF
/// that has not been printed yet is not found.
pub fn file_reply(file: &SavedFile, bytes: Option<Vec<u8>>) -> (r: ArtifactReply)
    ensures
        match bytes {
            Some(b) => r matches ArtifactReply::File { content_type, content_disposition, bytes }
                && content_type@ == content_type_of(file.kind) && opt_text(content_disposition)
                == disposition_of(file@.offered_name) && bytes == b,
            None => r is NotFound,
        },
{
    let content_type = match file.kind {
        ArtifactKind::Html => "text/html; charset=utf-8",
        ArtifactKind::Pdf => "application/pdf",
        ArtifactKind::Json => "application/json; charset=utf-8",
    };
    let content_disposition = match &file.offered_name {
        Some(name) => {
            let mut value = "inline; filename=\"".to_owned();
            value.append(name.as_str());
            value.append("\"");
            Some(value)
        },
        None => None,
    };
    match bytes {
        Some(b) => ArtifactReply::File { content_type, content_disposition, bytes: b },
        None => ArtifactReply::NotFound,
    }
}

/// Once a run is recorded, each file that it saved is served under the run's identifier and the
/// name of its kind, and nothing else is served for it.
pub proof fn law_recorded_run_is_served(
    runs: Map<Seq<char>, ArtifactsView>,
    run_id: Seq<char>,
    artifacts: ArtifactsView,
    name: Seq<char>,
)
    ensures
        served_file(runs.insert(run_id, artifacts), run_id, name) == match kind_named(name) {
            None => None,
            Some(kind) => file_of_run(artifacts, kind),
        },
{
}

/// The PDF of a recorded run is offered under a name that is made from the title of its report, and
/// that needs no quoting: it holds nothing but lower-case ASCII letters, digits, hyphens and dots.
pub proof fn law_pdf_is_named_after_title(
    runs: Map<Seq<char>, ArtifactsView>,
    run_id: Seq<char>,
    artifacts: ArtifactsView,
)
    ensures
        served_file(runs.insert(run_id, artifacts), run_id, "pdf"@) matches Some(file)
            ==> file.offered_name == Some(pdf_name(artifacts.report_title)),
        forall|i: int|
            0 <= i < pdf_name(artifacts.report_title).len() ==> is_label_char(
                #[trigger] pdf_name(artifacts.report_title)[i],
            ) || pdf_name(artifacts.report_title)[i] == '.',
{
    reveal_strlit("html");
    reveal_strlit("pdf");
    reveal_strlit(".pdf");
    assert("html"@.len() == 4 && "pdf"@.len() == 3);
    law_project_label_is_label(Some(artifacts.report_title));
    let label = project_label(Some(artifacts.report_title));
    let name = pdf_name(artifacts.report_title);
    assert forall|i: int| 0 <= i < name.len() implies is_label_char(#[trigger] name[i]) || name[i]
        == '.' by {
        if i < label.len() {
            assert(name[i] == label[i]);
        } else {
            assert(name[i] == ".pdf"@[i - label.len()]);
        }
    }
}

/// Recording a run changes nothing of what is served for the others.
pub proof fn law_recording_leaves_others(
    runs: Map<Seq<char>, ArtifactsView>,
    run_id: Seq<char>,
    artifacts: ArtifactsView,
    other: Seq<char>,
    name: Seq<char>,
)
    requires
        other != run_id,
    ensures
        served_file(runs.insert(run_id, artifacts), other, name) == served_file(runs, other, name),
{
}

/// Nothing is served for a run that was never recorded.
pub proof fn law_unknown_run_is_not_served(
    runs: Map<Seq<char>, ArtifactsView>,
    run_id: Seq<char>,
    name: Seq<char>,
)
    requires
        !runs.contains_key(run_id),
    ensures
        served_file(runs, run_id, name) is None,
{
}

/// Before the answer exactly that is written which was asked for, each thing once: the directory is
/// made first, then comes the report, and then the JSON, which is written as soon as the run has
/// been turned into it.
pub proof fn law_plan_holds_what_is_asked_for(request: PersistRequest)
    ensures
        ({
            let plan = reply_plan(request);
            let html: int = if request.html {
                1
            } else {
                0
            };
            &&& plan.len() == 1 + html + if request.json {
                2int
            } else {
                0
            }
            &&& plan[0] == PersistStep::CreateDirectory
            &&& request.html ==> plan[1] == PersistStep::WriteHtml
            &&& request.json ==> plan[1 + html] == PersistStep::SerializeJson && plan[2 + html]
                == PersistStep::WriteJson
        }),
        ({
            let plan = background_plan(request);
            &&& plan.len() == if !request.pdf {
                0int
            } else if request.html {
                1
            } else {
                3
            }
            &&& request.pdf && request.html ==> plan[0] == (PersistStep::PrintPdf {
                from_temporary: false,
            })
            &&& request.pdf && !request.html ==> plan[0] == PersistStep::WriteTemporaryHtml
                && plan[1] == (PersistStep::PrintPdf { from_temporary: true }) && plan[2]
                == PersistStep::RemoveTemporaryHtml
        }),
{
}

/// Whatever is asked for, a step that fails stops what it belongs to, and is what is reported; but
/// for the removal of the temporary page, which may fail.
pub proof fn law_failed_steps_stop(request: PersistRequest, step: PersistStep)
    ensures
        after_persist_step(request, step, false) == PersistState::Stopped(step),
        after_background_step(step, false) == if step == PersistStep::RemoveTemporaryHtml {
            PersistState::Finished
        } else {
            PersistState::Stopped(step)
        },
{
}

/// The message of a failed step ends with the whole path that the step was about, whatever the
/// path, and a failed printing is reported as the printing told it.
pub proof fn law_saving_messages_tell_what_failed(
    path: Seq<char>,
    cause: Seq<char>,
    from_temporary: bool,
)
    ensures
        persist_error_text(PersistStep::CreateDirectory, path, cause)
            == "failed to create output directory "@ + path,
        persist_error_text(PersistStep::WriteHtml, path, cause) == "failed to write HTML report to "@
            + path,
        persist_error_text(PersistStep::SerializeJson, path, cause)
            == "failed to serialize analysis run to JSON"@,
        persist_error_text(PersistStep::WriteJson, path, cause) == "failed to write JSON report to "@
            + path,
        persist_error_text(PersistStep::WriteTemporaryHtml, path, cause)
            == "failed to write temporary HTML report to "@ + path,
        persist_error_text(PersistStep::PrintPdf { from_temporary }, path, cause) == cause,
{
}

/// Of a saved run each path is recorded exactly where its file was asked for, whatever else was,
/// and the title and the directory always.
pub proof fn law_requested_files_are_recorded(
    request: PersistRequest,
    paths: RunPaths,
    title: Seq<char>,
)
    ensures
        ({
            let saved = saved_artifacts(request, paths, title);
            &&& saved.report_title == title
            &&& saved.output_dir == paths.output_dir@
            &&& saved.html_path == if request.html {
                Some(paths.html@)
            } else {
                None
            }
            &&& saved.json_path == if request.json {
                Some(paths.json@)
            } else {
                None
            }
            &&& saved.pdf_path == if request.pdf {
                Some(paths.pdf@)
            } else {
                None
            }
        }),
{
}

/// Of a recorded run the report is served under `html`, the PDF under `pdf` and the JSON under
/// `json`, each from the path that was recorded for it and nothing where none was; under any other
/// name nothing is served.
pub proof fn law_each_file_is_served_under_its_name(
    runs: Map<Seq<char>, ArtifactsView>,
    run_id: Seq<char>,
    artifacts: ArtifactsView,
    other: Seq<char>,
)
    requires
        other != "html"@ && other != "pdf"@ && other != "json"@,
    ensures
        ({
            let now = runs.insert(run_id, artifacts);
            let html = served_file(now, run_id, "html"@);
            let pdf = served_file(now, run_id, "pdf"@);
            let json = served_file(now, run_id, "json"@);
            &&& html is Some <==> artifacts.html_path is Some
            &&& html matches Some(file) ==> file.path == artifacts.html_path->0 && file.kind
                == ArtifactKind::Html && file.offered_name is None
            &&& pdf is Some <==> artifacts.pdf_path is Some
            &&& pdf matches Some(file) ==> file.path == artifacts.pdf_path->0 && file.kind
                == ArtifactKind::Pdf && file.offered_name is Some
            &&& json is Some <==> artifacts.json_path is Some
            &&& json matches Some(file) ==> file.path == artifacts.json_path->0 && file.kind
                == ArtifactKind::Json && file.offered_name is None
            &&& served_file(now, run_id, other) is None
        }),
{
    reveal_strlit("html");
    reveal_strlit("pdf");
    reveal_strlit("json");
    assert("html"@.len() == 4 && "pdf"@.len() == 3 && "json"@.len() == 4);
    assert("html"@[0] == 'h' && "json"@[0] == 'j');
}

/// A PDF and a JSON file are served as what they are, and a PDF is offered under its name, in
/// quotes, whatever the name.
pub proof fn law_files_are_served_as_what_they_are(name: Seq<char>)
    ensures
        content_type_of(ArtifactKind::Pdf) == "application/pdf"@,
        content_type_of(ArtifactKind::Json) == "application/json; charset=utf-8"@,
        content_type_of(ArtifactKind::Html) == "text/html; charset=utf-8"@,
        disposition_of(Some(name)) == Some("inline; filename=\""@ + name + "\""@),
        disposition_of(None) is None,
        pdf_name(name) == project_label(Some(name)) + ".pdf"@,
{
}

/// What is recorded of a run, and what is served of it, are the title, the directory and the paths
/// that it holds.
pub proof fn law_records_hold_what_was_saved(artifacts: RunArtifacts, file: SavedFile)
    ensures
        artifacts@.report_title == artifacts.report_title@,
        artifacts@.output_dir == artifacts.output_dir@,
        artifacts.html_path matches Some(path) ==> artifacts@.html_path == Some(path@),
        artifacts.pdf_path matches Some(path) ==> artifacts@.pdf_path == Some(path@),
        artifacts.json_path matches Some(path) ==> artifacts@.json_path == Some(path@),
        artifacts.html_path is None ==> artifacts@.html_path is None,
        artifacts.pdf_path is None ==> artifacts@.pdf_path is None,
        artifacts.json_path is None ==> artifacts@.json_path is None,
        file@.kind == file.kind,
        file@.path == file.path@,
        file.offered_name matches Some(name) ==> file@.offered_name == Some(name@),
        file.offered_name is None ==> file@.offered_name is None,
{
}

} // verus!

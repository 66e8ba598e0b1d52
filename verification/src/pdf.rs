//! Printing a saved page to PDF with a browser: which steps are taken, in which order, and what
//! is reported where one fails.
//!
//! The steps themselves (finding files, making directories, running the browser) are done by
//! whoever runs the export, who reports back how each one went.

use vstd::prelude::*;

use crate::text::{
    law_signed_decimal_reads_back, number_read, signed_decimal, signed_decimal_text, texts,
};

verus! {

/// The next step of an export.
#[derive(Clone, Copy, PartialEq, Eq, Structural, Debug)]
pub enum PdfStep {
    /// Look for a browser.
    FindBrowser,
    /// Resolve the path of the page.
    ResolveHtml,
    /// Resolve the path of the PDF file against the working directory.
    ResolvePdf,
    /// Make the directory of the PDF file.
    CreateDirectory,
    /// Run the browser in its new headless mode.
    LaunchNewHeadless,
    /// Run the browser in its old headless mode.
    LaunchOldHeadless,
}

/// How a step went. A browser that was run reports whether it succeeded, and its exit code where
/// it has one.
#[derive(Clone, Copy, PartialEq, Eq, Structural, Debug)]
pub enum PdfEvent {
    Done,
    Failed,
    Exited { success: bool, code: Option<i32> },
}

/// Why an export failed.
#[derive(Clone, Copy, PartialEq, Eq, Structural, Debug)]
pub enum PdfError {
    NoBrowser,
    ResolveHtml,
    WorkingDirectory,
    CreateDirectory,
    Launch,
    Exit { code: Option<i32> },
}

/// Where an export stands.
#[derive(Clone, Copy, PartialEq, Eq, Structural, Debug)]
pub enum PdfState {
    Next(PdfStep),
    Finished,
    Stopped(PdfError),
}

/// Whether an event tells that a browser ran and succeeded.
pub open spec fn succeeded(event: PdfEvent) -> bool {
    event matches PdfEvent::Exited { success, .. } && success
}

/// Where an export stands after a step.
pub open spec fn after_step(step: PdfStep, event: PdfEvent) -> PdfState {
    match step {
        PdfStep::FindBrowser => if event is Done {
            PdfState::Next(PdfStep::ResolveHtml)
        } else {
            PdfState::Stopped(PdfError::NoBrowser)
        },
        PdfStep::ResolveHtml => if event is Done {
            PdfState::Next(PdfStep::ResolvePdf)
        } else {
            PdfState::Stopped(PdfError::ResolveHtml)
        },
        PdfStep::ResolvePdf => if event is Done {
            PdfState::Next(PdfStep::CreateDirectory)
        } else {
            PdfState::Stopped(PdfError::WorkingDirectory)
        },
        PdfStep::CreateDirectory => if event is Done {
            PdfState::Next(PdfStep::LaunchNewHeadless)
        } else {
            PdfState::Stopped(PdfError::CreateDirectory)
        },
        PdfStep::LaunchNewHeadless => if succeeded(event) {
            PdfState::Finished
        } else {
            PdfState::Next(PdfStep::LaunchOldHeadless)
        },
        PdfStep::LaunchOldHeadless => if succeeded(event) {
            PdfState::Finished
        } else {
            match event {
                PdfEvent::Exited { code, .. } => PdfState::Stopped(PdfError::Exit { code }),
                _ => PdfState::Stopped(PdfError::Launch),
            }
        },
    }
}

/// Where an export stands before its first step.
pub fn begin_pdf_export() -> (r: PdfState)
    ensures
        r == PdfState::Next(PdfStep::FindBrowser),
{
    PdfState::Next(PdfStep::FindBrowser)
}

/// Where an export stands after a step, given how that step went.
pub fn next_pdf_state(step: PdfStep, event: PdfEvent) -> (r: PdfState)
    ensures
        r == after_step(step, event),
{
    let done = match event {
        PdfEvent::Done => true,
        _ => false,
    };
    let success = match event {
        PdfEvent::Exited { success, .. } => success,
        _ => false,
    };
    match step {
        PdfStep::FindBrowser => if done {
            PdfState::Next(PdfStep::ResolveHtml)
        } else {
            PdfState::Stopped(PdfError::NoBrowser)
        },
        PdfStep::ResolveHtml => if done {
            PdfState::Next(PdfStep::ResolvePdf)
        } else {
            PdfState::Stopped(PdfError::ResolveHtml)
        },
        PdfStep::ResolvePdf => if done {
            PdfState::Next(PdfStep::CreateDirectory)
        } else {
            PdfState::Stopped(PdfError::WorkingDirectory)
        },
        PdfStep::CreateDirectory => if done {
            PdfState::Next(PdfStep::LaunchNewHeadless)
        } else {
            PdfState::Stopped(PdfError::CreateDirectory)
        },
        PdfStep::LaunchNewHeadless => if success {
            PdfState::Finished
        } else {
            PdfState::Next(PdfStep::LaunchOldHeadless)
        },
        PdfStep::LaunchOldHeadless => if success {
            PdfState::Finished
        } else {
            match event {
                PdfEvent::Exited { code, .. } => PdfState::Stopped(PdfError::Exit { code }),
                _ => PdfState::Stopped(PdfError::Launch),
            }
        },
    }
}

/// The switch for the mode in which the browser runs without a window.
pub open spec fn headless_switch(old_mode: bool) -> Seq<char> {
    if old_mode {
        "--headless=old"@
    } else {
        "--headless=new"@
    }
}

/// The arguments with which the browser is run to print the page at `url` into the file `pdf`.
pub open spec fn browser_arguments(old_mode: bool, pdf: Seq<char>, url: Seq<char>) -> Seq<
    Seq<char>,
> {
    seq![
        headless_switch(old_mode),
        "--disable-gpu"@,
        "--allow-file-access-from-files"@,
        "--print-to-pdf="@ + pdf,
        url,
    ]
}

/// The arguments with which the browser is run in its new or its old headless mode.
pub fn pdf_arguments(old_mode: bool, pdf: &str, url: &str) -> (list: Vec<String>)
    ensures
        texts(list@) == browser_arguments(old_mode, pdf@, url@),
{
    let mut target = "--print-to-pdf=".to_owned();
    target.append(pdf);
    let mode = if old_mode {
        "--headless=old".to_owned()
    } else {
        "--headless=new".to_owned()
    };
    let mut list: Vec<String> = Vec::new();
    list.push(mode);
    list.push("--disable-gpu".to_owned());
    list.push("--allow-file-access-from-files".to_owned());
    list.push(target);
    list.push(url.to_owned());
    assert(texts(list@) == browser_arguments(old_mode, pdf@, url@));
    list
}

/// The exit code of a browser as it is reported.
pub open spec fn exit_code_text(code: Option<i32>) -> Seq<char> {
    match code {
        Some(c) => signed_decimal_text(c as int),
        None => "unknown"@,
    }
}

/// What is reported where an export failed; `path` is the path that the failed step was about.
pub open spec fn pdf_error_text(error: PdfError, path: Seq<char>) -> Seq<char> {
    match error {
        PdfError::NoBrowser =>
            "no supported Chromium-based browser found; set SLOC_BROWSER/BROWSER or install Chrome, Chromium, Edge, Brave, Vivaldi, or Opera"@,
        PdfError::ResolveHtml => "failed to canonicalize "@ + path,
        PdfError::WorkingDirectory => "failed to resolve current working directory"@,
        PdfError::CreateDirectory => "failed to create PDF output directory "@ + path,
        PdfError::Launch => "failed to launch browser "@ + path,
        PdfError::Exit { code } => "browser exited with status "@ + exit_code_text(code)
            + " while generating PDF"@,
    }
}

/// What is reported where an export failed; `path` is the path that the failed step was about.
pub fn pdf_error_message(error: PdfError, path: &str) -> (message: String)
    ensures
        message@ == pdf_error_text(error, path@),
{
    match error {
        PdfError::NoBrowser =>
            "no supported Chromium-based browser found; set SLOC_BROWSER/BROWSER or install Chrome, Chromium, Edge, Brave, Vivaldi, or Opera".to_owned(),
        PdfError::ResolveHtml => {
            let mut message = "failed to canonicalize ".to_owned();
            message.append(path);
            message
        },
        PdfError::WorkingDirectory => "failed to resolve current working directory".to_owned(),
        PdfError::CreateDirectory => {
            let mut message = "failed to create PDF output directory ".to_owned();
            message.append(path);
            message
        },
        PdfError::Launch => {
            let mut message = "failed to launch browser ".to_owned();
            message.append(path);
            message
        },
        PdfError::Exit { code } => {
            let mut message = "browser exited with status ".to_owned();
            let status = match code {
                Some(c) => signed_decimal(c),
                None => "unknown".to_owned(),
            };
            message.append(status.as_str());
            message.append(" while generating PDF");
            message
        },
    }
}

/// Where an export stands that began in `state` and whose steps went as `events` tell, as far as
/// it still takes steps.
pub open spec fn export_run(state: PdfState, events: Seq<PdfEvent>) -> PdfState
    decreases events.len(),
{
    match state {
        PdfState::Next(step) => if events.len() == 0 {
            state
        } else {
            export_run(after_step(step, events[0]), events.skip(1))
        },
        _ => state,
    }
}

/// How many steps are left at most.
pub open spec fn steps_left(state: PdfState) -> nat {
    match state {
        PdfState::Next(PdfStep::FindBrowser) => 6,
        PdfState::Next(PdfStep::ResolveHtml) => 5,
        PdfState::Next(PdfStep::ResolvePdf) => 4,
        PdfState::Next(PdfStep::CreateDirectory) => 3,
        PdfState::Next(PdfStep::LaunchNewHeadless) => 2,
        PdfState::Next(PdfStep::LaunchOldHeadless) => 1,
        _ => 0,
    }
}

/// An export ends after at most six steps, however they go.
pub proof fn law_export_ends(state: PdfState, events: Seq<PdfEvent>)
    requires
        events.len() >= steps_left(state),
    ensures
        steps_left(state) <= 6,
        !(export_run(state, events) is Next),
    decreases events.len(),
{
    if let PdfState::Next(step) = state {
        law_export_ends(after_step(step, events[0]), events.skip(1));
    }
}

/// An export finishes exactly where the four steps before the browser succeed and one of at most
/// two runs of the browser does; the second run takes place only where the first did not succeed.
pub proof fn law_export_finishes(events: Seq<PdfEvent>)
    requires
        events.len() >= 6,
    ensures
        export_run(PdfState::Next(PdfStep::FindBrowser), events) is Finished <==> (forall|i: int|
            0 <= i < 4 ==> #[trigger] events[i] is Done) && (succeeded(events[4]) || succeeded(
            events[5],
        )),
{
    reveal_with_fuel(export_run, 8);
    let e1 = events.skip(1);
    let e2 = e1.skip(1);
    let e3 = e2.skip(1);
    let e4 = e3.skip(1);
    let e5 = e4.skip(1);
    assert(e1[0] == events[1]);
    assert(e2[0] == events[2]);
    assert(e3[0] == events[3]);
    assert(e4[0] == events[4]);
    assert(e5[0] == events[5]);
}

/// In both modes the browser is told to print the given page into the given file, and nothing but
/// the switch for the mode differs between them.
pub proof fn law_modes_differ_in_the_switch(old_mode: bool, pdf: Seq<char>, url: Seq<char>)
    ensures
        ({
            let list = browser_arguments(old_mode, pdf, url);
            &&& list.len() == 5
            &&& old_mode ==> list[0] == "--headless=old"@
            &&& !old_mode ==> list[0] == "--headless=new"@
            &&& list[1] == "--disable-gpu"@
            &&& list[2] == "--allow-file-access-from-files"@
            &&& list[3] == "--print-to-pdf="@ + pdf
            &&& list[4] == url
            &&& list.skip(1) == browser_arguments(!old_mode, pdf, url).skip(1)
        }),
{
    let list = browser_arguments(old_mode, pdf, url);
    let other = browser_arguments(!old_mode, pdf, url);
    assert(list.skip(1) == other.skip(1));
}

/// The message of a failed step ends with the whole path that the step was about, whatever the
/// path; and that of a browser which failed holds its exit code in decimal.
pub proof fn law_messages_tell_what_failed(path: Seq<char>, code: i32)
    ensures
        pdf_error_text(PdfError::ResolveHtml, path) == "failed to canonicalize "@ + path,
        pdf_error_text(PdfError::CreateDirectory, path)
            == "failed to create PDF output directory "@ + path,
        pdf_error_text(PdfError::Launch, path) == "failed to launch browser "@ + path,
        pdf_error_text(PdfError::WorkingDirectory, path)
            == "failed to resolve current working directory"@,
        pdf_error_text(PdfError::Exit { code: Some(code) }, path) == "browser exited with status "@
            + signed_decimal_text(code as int) + " while generating PDF"@,
        pdf_error_text(PdfError::Exit { code: None }, path) == "browser exited with status "@
            + "unknown"@ + " while generating PDF"@,
        code >= 0 ==> number_read(exit_code_text(Some(code))) == code,
        code < 0 ==> exit_code_text(Some(code))[0] == '-' && number_read(
            exit_code_text(Some(code)).skip(1),
        ) == -code,
{
    law_signed_decimal_reads_back(code as int);
}

/// Where the steps so far succeeded, an export goes on to find a browser, resolve the page, resolve
/// the PDF file, make its directory and run the browser, in this order.
pub proof fn law_steps_follow_each_other(first: PdfEvent)
    ensures
        after_step(PdfStep::FindBrowser, PdfEvent::Done) == PdfState::Next(PdfStep::ResolveHtml),
        after_step(PdfStep::ResolveHtml, PdfEvent::Done) == PdfState::Next(PdfStep::ResolvePdf),
        after_step(PdfStep::ResolvePdf, PdfEvent::Done) == PdfState::Next(
            PdfStep::CreateDirectory,
        ),
        after_step(PdfStep::CreateDirectory, PdfEvent::Done) == PdfState::Next(
            PdfStep::LaunchNewHeadless,
        ),
        after_step(PdfStep::LaunchNewHeadless, first) == PdfState::Finished <==> (
        first matches PdfEvent::Exited { success: true, .. }),
        after_step(PdfStep::LaunchNewHeadless, first) == PdfState::Next(PdfStep::LaunchOldHeadless)
            <==> !(first matches PdfEvent::Exited { success: true, .. }),
{
}

/// A step before the browser that does not succeed ends the export with its own error, and a
/// browser that ran and failed in both modes ends it with the exit code of the second run; one that
/// could not be run then ends it as not launched.
pub proof fn law_failures_end_the_export(event: PdfEvent, code: Option<i32>)
    ensures
        !(event is Done) ==> {
            &&& after_step(PdfStep::FindBrowser, event) == PdfState::Stopped(PdfError::NoBrowser)
            &&& after_step(PdfStep::ResolveHtml, event) == PdfState::Stopped(PdfError::ResolveHtml)
            &&& after_step(PdfStep::ResolvePdf, event) == PdfState::Stopped(
                PdfError::WorkingDirectory,
            )
            &&& after_step(PdfStep::CreateDirectory, event) == PdfState::Stopped(
                PdfError::CreateDirectory,
            )
        },
        after_step(PdfStep::LaunchOldHeadless, PdfEvent::Exited { success: false, code })
            == PdfState::Stopped(PdfError::Exit { code }),
        after_step(PdfStep::LaunchOldHeadless, PdfEvent::Exited { success: true, code })
            == PdfState::Finished,
        after_step(PdfStep::LaunchOldHeadless, PdfEvent::Failed) == PdfState::Stopped(
            PdfError::Launch,
        ),
{
}

} // verus!

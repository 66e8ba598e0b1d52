//! The saved report of a run.

use vstd::prelude::*;

use crate::html::{markup, put_markup};
use crate::model::{
    counts_of, AnalysisRun, CountsView, FileRecord, LanguageTotals, SummaryTotals,
};
use crate::report_text::{
    PAGE_END, PAGE_FILES, PAGE_HERO, PAGE_LANGUAGES, PAGE_METRICS, PAGE_SKIPPED, PAGE_START,
    PAGE_STYLE, PAGE_SUBTITLE, PAGE_WARNINGS,
};
use crate::text::{
    ascii_lower, decimal_text, join_texts, joined, law_decimal_tells_numbers_apart,
    lemma_join_seven, lemma_occurs_at_end, lemma_occurs_in_itself, lemma_occurs_in_sum,
    lemma_unlike_before, lemma_unlike_behind, lowered, occurs, put_number, texts, unlike,
};

verus! {

/// A row of the report's table of languages.
pub struct LanguageRow {
    pub language: String,
    pub files: u64,
    pub total_physical_lines: u64,
    pub code_lines: u64,
    pub comment_lines: u64,
    pub blank_lines: u64,
    pub mixed_lines_separate: u64,
}

impl View for LanguageRow {
    type V = CountsView;

    open spec fn view(&self) -> CountsView {
        CountsView {
            language: self.language@,
            files: self.files,
            physical: self.total_physical_lines,
            code: self.code_lines,
            comments: self.comment_lines,
            blank: self.blank_lines,
            mixed: self.mixed_lines_separate,
        }
    }
}

/// A row of the report's tables of files.
pub struct FileRow {
    pub relative_path: String,
    pub language: String,
    pub total_physical_lines: u64,
    pub code_lines: u64,
    pub comment_lines: u64,
    pub blank_lines: u64,
    pub mixed_lines_separate: u64,
    pub status: String,
    pub status_class: String,
    pub warnings: String,
}

/// The model of a [`FileRow`].
#[verifier::ext_equal]
pub struct FileRowView {
    pub relative_path: Seq<char>,
    pub language: Seq<char>,
    pub total_physical_lines: u64,
    pub code_lines: u64,
    pub comment_lines: u64,
    pub blank_lines: u64,
    pub mixed_lines_separate: u64,
    pub status: Seq<char>,
    pub status_class: Seq<char>,
    pub warnings: Seq<char>,
}

impl View for FileRow {
    type V = FileRowView;

    open spec fn view(&self) -> FileRowView {
        FileRowView {
            relative_path: self.relative_path@,
            language: self.language@,
            total_physical_lines: self.total_physical_lines,
            code_lines: self.code_lines,
            comment_lines: self.comment_lines,
            blank_lines: self.blank_lines,
            mixed_lines_separate: self.mixed_lines_separate,
            status: self.status@,
            status_class: self.status_class@,
            warnings: self.warnings@,
        }
    }
}

/// The rows of a table of languages.
pub open spec fn language_row_views(rows: Seq<LanguageRow>) -> Seq<CountsView> {
    rows.map_values(|r: LanguageRow| r@)
}

/// The rows of a table of files.
pub open spec fn file_row_views(rows: Seq<FileRow>) -> Seq<FileRowView> {
    rows.map_values(|r: FileRow| r@)
}

/// How a file is shown: a hyphen for a language that is not known, the status also in lower case,
/// and the warnings in one line.
pub open spec fn file_row_of(file: FileRecord) -> FileRowView {
    FileRowView {
        relative_path: file.relative_path@,
        language: match file.language {
            Some(name) => name@,
            None => "-"@,
        },
        total_physical_lines: file.raw_line_categories.total_physical_lines,
        code_lines: file.effective_counts.code_lines,
        comment_lines: file.effective_counts.comment_lines,
        blank_lines: file.effective_counts.blank_lines,
        mixed_lines_separate: file.effective_counts.mixed_lines_separate,
        status: file.status@,
        status_class: lowered(file.status@),
        warnings: join_texts(texts(file.warnings@), "; "@),
    }
}

/// How the files of a list are shown.
pub open spec fn file_rows_of(files: Seq<FileRecord>) -> Seq<FileRowView> {
    files.map_values(|f: FileRecord| file_row_of(f))
}

/// The markup of a row of the table of languages.
pub open spec fn language_row_html(row: CountsView) -> Seq<char> {
    "<tr><td>"@
        + markup(row.language)
        + "</td><td>"@
        + decimal_text(row.files as nat)
        + "</td><td>"@
        + decimal_text(row.physical as nat)
        + "</td><td>"@
        + decimal_text(row.code as nat)
        + "</td><td>"@
        + decimal_text(row.comments as nat)
        + "</td><td>"@
        + decimal_text(row.blank as nat)
        + "</td><td>"@
        + decimal_text(row.mixed as nat)
        + "</td></tr>"@
}

/// The markup of the rows of the table of languages.
pub open spec fn language_rows_html(rows: Seq<CountsView>) -> Seq<char>
    decreases rows.len(),
{
    if rows.len() == 0 {
        seq![]
    } else {
        language_rows_html(rows.drop_last()) + language_row_html(rows.last())
    }
}

/// The markup of a row of the table of files.
pub open spec fn file_row_html(row: FileRowView) -> Seq<char> {
    "<tr><td class=\"mono\">"@
        + markup(row.relative_path)
        + "</td><td>"@
        + markup(row.language)
        + "</td><td>"@
        + decimal_text(row.total_physical_lines as nat)
        + "</td><td>"@
        + decimal_text(row.code_lines as nat)
        + "</td><td>"@
        + decimal_text(row.comment_lines as nat)
        + "</td><td>"@
        + decimal_text(row.blank_lines as nat)
        + "</td><td>"@
        + decimal_text(row.mixed_lines_separate as nat)
        + "</td><td><span class=\"status-tag status-"@
        + markup(row.status_class)
        + "\">"@
        + markup(row.status)
        + "</span></td><td class=\"small\">"@
        + markup(row.warnings)
        + "</td></tr>"@
}

/// The markup of the rows of the table of files.
pub open spec fn file_rows_html(rows: Seq<FileRowView>) -> Seq<char>
    decreases rows.len(),
{
    if rows.len() == 0 {
        seq![]
    } else {
        file_rows_html(rows.drop_last()) + file_row_html(rows.last())
    }
}

/// The markup of a row of the table of skipped files.
pub open spec fn skipped_row_html(row: FileRowView) -> Seq<char> {
    "<tr><td class=\"mono\">"@
        + markup(row.relative_path)
        + "</td><td><span class=\"status-tag status-"@
        + markup(row.status_class)
        + "\">"@
        + markup(row.status)
        + "</span></td><td class=\"small\">"@
        + markup(row.warnings)
        + "</td></tr>"@
}

/// The markup of the rows of the table of skipped files.
pub open spec fn skipped_rows_html(rows: Seq<FileRowView>) -> Seq<char>
    decreases rows.len(),
{
    if rows.len() == 0 {
        seq![]
    } else {
        skipped_rows_html(rows.drop_last()) + skipped_row_html(rows.last())
    }
}

/// The items of the list of warnings.
pub open spec fn warning_items(warnings: Seq<Seq<char>>) -> Seq<char>
    decreases warnings.len(),
{
    if warnings.len() == 0 {
        seq![]
    } else {
        warning_items(warnings.drop_last()) + ("<li>"@ + markup(warnings.last()) + "</li>"@)
    }
}

/// The warnings of a run: a list of them, or a note that there are none.
pub open spec fn warnings_html(warnings: Seq<Seq<char>>, has_warnings: bool) -> Seq<char> {
    if !has_warnings {
        "<div class=\"pill good\">No top-level warnings.</div>"@
    } else {
        "<ul class=\"warn-list\">"@ + warning_items(warnings) + "</ul>"@
    }
}

/// The page of a report up to the rows of its table of languages.
pub open spec fn report_top(title: Seq<char>, run: AnalysisRun) -> Seq<char> {
    PAGE_START@
        + "<title>"@
        + markup(title)
        + "</title>"@
        + PAGE_STYLE@
        + "<span class=\"pill\">Run ID "@
        + markup(run.tool.run_id@)
        + "</span><span class=\"pill\">Mode "@
        + markup(run.environment.runtime_mode@)
        + "</span>"@
        + PAGE_HERO@
        + "<h1>"@
        + markup(title)
        + "</h1>"@
        + PAGE_SUBTITLE@
        + "<span class=\"meta-chip\">Generated "@
        + markup(run.tool.timestamp_utc@)
        + "</span>\n        <span class=\"meta-chip\">OS "@
        + markup(run.environment.operating_system@)
        + " / "@
        + markup(run.environment.architecture@)
        + "</span>\n        <span class=\"meta-chip\">Files analyzed "@
        + decimal_text(run.summary_totals.files_analyzed as nat)
        + "</span>\n        <span class=\"meta-chip\">Files skipped "@
        + decimal_text(run.summary_totals.files_skipped as nat)
        + "</span>"@
        + PAGE_METRICS@
        + "Physical lines</div><div class=\"value\">"@
        + decimal_text(run.summary_totals.total_physical_lines as nat)
        + "</div>"@
        + "</div>\n        <div class=\"metric\"><div class=\"label\">"@
        + "Code</div><div class=\"value\">"@
        + decimal_text(run.summary_totals.code_lines as nat)
        + "</div>"@
        + "</div>\n        <div class=\"metric\"><div class=\"label\">"@
        + "Comments</div><div class=\"value\">"@
        + decimal_text(run.summary_totals.comment_lines as nat)
        + "</div>"@
        + "</div>\n        <div class=\"metric\"><div class=\"label\">"@
        + "Blank</div><div class=\"value\">"@
        + decimal_text(run.summary_totals.blank_lines as nat)
        + "</div>"@
        + "</div>\n        <div class=\"metric\"><div class=\"label\">"@
        + "Mixed separate</div><div class=\"value\">"@
        + decimal_text(run.summary_totals.mixed_lines_separate as nat)
        + "</div>"@
        + PAGE_LANGUAGES@
        + "<thead><tr><th data-sort-type=\"text\">Language</th><th data-sort-type=\"number\">Files</th><th data-sort-type=\"number\">Physical</th><th data-sort-type=\"number\">Code</th><th data-sort-type=\"number\">Comments</th><th data-sort-type=\"number\">Blank</th><th data-sort-type=\"number\">Mixed separate</th></tr></thead><tbody>"@
}

/// The page of a report.
pub open spec fn report_page(
    title: Seq<char>,
    run: AnalysisRun,
    languages: Seq<CountsView>,
    files: Seq<FileRowView>,
    skipped: Seq<FileRowView>,
    config_json: Seq<char>,
    has_warnings: bool,
) -> Seq<char> {
    report_top(title, run)
        + language_rows_html(languages)
        + "</tbody></table>"@
        + PAGE_FILES@
        + "<thead><tr><th data-sort-type=\"text\">File</th><th data-sort-type=\"text\">Language</th><th data-sort-type=\"number\">Physical</th><th data-sort-type=\"number\">Code</th><th data-sort-type=\"number\">Comments</th><th data-sort-type=\"number\">Blank</th><th data-sort-type=\"number\">Mixed separate</th><th data-sort-type=\"text\">Status</th><th data-sort-type=\"text\">Warnings</th></tr></thead><tbody>"@
        + file_rows_html(files)
        + "</tbody></table>"@
        + PAGE_SKIPPED@
        + "<thead><tr><th data-sort-type=\"text\">File</th><th data-sort-type=\"text\">Status</th><th data-sort-type=\"text\">Warnings</th></tr></thead><tbody>"@
        + skipped_rows_html(skipped)
        + "</tbody></table>"@
        + PAGE_WARNINGS@
        + "<h2>Run warnings</h2>"@
        + warnings_html(texts(run.warnings@), has_warnings)
        + "</div>\n      <div><h2>Effective configuration</h2><pre>"@
        + markup(config_json)
        + "</pre>"@
        + PAGE_END@
}

/// The report of a run whose configuration reads as `config_json`.
pub open spec fn report_of(run: AnalysisRun, config_json: Seq<char>) -> Seq<char> {
    report_page(
        run.effective_configuration.reporting.report_title@,
        run,
        counts_of(run.totals_by_language@),
        file_rows_of(run.per_file_records@),
        file_rows_of(run.skipped_file_records@),
        config_json,
        run.warnings@.len() > 0,
    )
}

/// A report before it is written out.
pub struct ReportTemplate<'a> {
    pub title: String,
    pub run: &'a AnalysisRun,
    pub language_rows: Vec<LanguageRow>,
    pub file_rows: Vec<FileRow>,
    pub skipped_rows: Vec<FileRow>,
    pub config_json: String,
    pub has_run_warnings: bool,
}

impl<'a> ReportTemplate<'a> {
    /// The page of the report.
    pub fn render(&self) -> (page: String)
        ensures
            page@ == report_page(
                self.title@,
                *self.run,
                language_row_views(self.language_rows@),
                file_row_views(self.file_rows@),
                file_row_views(self.skipped_rows@),
                self.config_json@,
                self.has_run_warnings,
            ),
    {
        let mut out = PAGE_START.to_owned();
        out.append("<title>");
        put_markup(&mut out, self.title.as_str());
        out.append("</title>");
        out.append(PAGE_STYLE);
        out.append("<span class=\"pill\">Run ID ");
        put_markup(&mut out, self.run.tool.run_id.as_str());
        out.append("</span><span class=\"pill\">Mode ");
        put_markup(&mut out, self.run.environment.runtime_mode.as_str());
        out.append("</span>");
        out.append(PAGE_HERO);
        out.append("<h1>");
        put_markup(&mut out, self.title.as_str());
        out.append("</h1>");
        out.append(PAGE_SUBTITLE);
        out.append("<span class=\"meta-chip\">Generated ");
        put_markup(&mut out, self.run.tool.timestamp_utc.as_str());
        out.append("</span>\n        <span class=\"meta-chip\">OS ");
        put_markup(&mut out, self.run.environment.operating_system.as_str());
        out.append(" / ");
        put_markup(&mut out, self.run.environment.architecture.as_str());
        out.append("</span>\n        <span class=\"meta-chip\">Files analyzed ");
        put_number(&mut out, self.run.summary_totals.files_analyzed);
        out.append("</span>\n        <span class=\"meta-chip\">Files skipped ");
        put_number(&mut out, self.run.summary_totals.files_skipped);
        out.append("</span>");
        out.append(PAGE_METRICS);
        out.append("Physical lines</div><div class=\"value\">");
        put_number(&mut out, self.run.summary_totals.total_physical_lines);
        out.append("</div>");
        out.append("</div>\n        <div class=\"metric\"><div class=\"label\">");
        out.append("Code</div><div class=\"value\">");
        put_number(&mut out, self.run.summary_totals.code_lines);
        out.append("</div>");
        out.append("</div>\n        <div class=\"metric\"><div class=\"label\">");
        out.append("Comments</div><div class=\"value\">");
        put_number(&mut out, self.run.summary_totals.comment_lines);
        out.append("</div>");
        out.append("</div>\n        <div class=\"metric\"><div class=\"label\">");
        out.append("Blank</div><div class=\"value\">");
        put_number(&mut out, self.run.summary_totals.blank_lines);
        out.append("</div>");
        out.append("</div>\n        <div class=\"metric\"><div class=\"label\">");
        out.append("Mixed separate</div><div class=\"value\">");
        put_number(&mut out, self.run.summary_totals.mixed_lines_separate);
        out.append("</div>");
        out.append(PAGE_LANGUAGES);
        out.append("<thead><tr><th data-sort-type=\"text\">Language</th><th data-sort-type=\"number\">Files</th><th data-sort-type=\"number\">Physical</th><th data-sort-type=\"number\">Code</th><th data-sort-type=\"number\">Comments</th><th data-sort-type=\"number\">Blank</th><th data-sort-type=\"number\">Mixed separate</th></tr></thead><tbody>");
        put_language_rows(&mut out, &self.language_rows);
        out.append("</tbody></table>");
        out.append(PAGE_FILES);
        out.append("<thead><tr><th data-sort-type=\"text\">File</th><th data-sort-type=\"text\">Language</th><th data-sort-type=\"number\">Physical</th><th data-sort-type=\"number\">Code</th><th data-sort-type=\"number\">Comments</th><th data-sort-type=\"number\">Blank</th><th data-sort-type=\"number\">Mixed separate</th><th data-sort-type=\"text\">Status</th><th data-sort-type=\"text\">Warnings</th></tr></thead><tbody>");
        put_file_rows(&mut out, &self.file_rows);
        out.append("</tbody></table>");
        out.append(PAGE_SKIPPED);
        out.append("<thead><tr><th data-sort-type=\"text\">File</th><th data-sort-type=\"text\">Status</th><th data-sort-type=\"text\">Warnings</th></tr></thead><tbody>");
        put_skipped_rows(&mut out, &self.skipped_rows);
        out.append("</tbody></table>");
        out.append(PAGE_WARNINGS);
        out.append("<h2>Run warnings</h2>");
        put_warnings(&mut out, &self.run.warnings, self.has_run_warnings);
        out.append("</div>\n      <div><h2>Effective configuration</h2><pre>");
        put_markup(&mut out, self.config_json.as_str());
        out.append("</pre>");
        out.append(PAGE_END);
        out
    }
}

/// The markup of a row of the table of languages.
fn language_row(row: &LanguageRow) -> (out: String)
    ensures
        out@ == language_row_html(row@),
{
    let mut out = "<tr><td>".to_owned();
    put_markup(&mut out, row.language.as_str());
    out.append("</td><td>");
    put_number(&mut out, row.files);
    out.append("</td><td>");
    put_number(&mut out, row.total_physical_lines);
    out.append("</td><td>");
    put_number(&mut out, row.code_lines);
    out.append("</td><td>");
    put_number(&mut out, row.comment_lines);
    out.append("</td><td>");
    put_number(&mut out, row.blank_lines);
    out.append("</td><td>");
    put_number(&mut out, row.mixed_lines_separate);
    out.append("</td></tr>");
    out
}

/// The markup of a row of the table of files.
fn file_row(row: &FileRow) -> (out: String)
    ensures
        out@ == file_row_html(row@),
{
    let mut out = "<tr><td class=\"mono\">".to_owned();
    put_markup(&mut out, row.relative_path.as_str());
    out.append("</td><td>");
    put_markup(&mut out, row.language.as_str());
    out.append("</td><td>");
    put_number(&mut out, row.total_physical_lines);
    out.append("</td><td>");
    put_number(&mut out, row.code_lines);
    out.append("</td><td>");
    put_number(&mut out, row.comment_lines);
    out.append("</td><td>");
    put_number(&mut out, row.blank_lines);
    out.append("</td><td>");
    put_number(&mut out, row.mixed_lines_separate);
    out.append("</td><td><span class=\"status-tag status-");
    put_markup(&mut out, row.status_class.as_str());
    out.append("\">");
    put_markup(&mut out, row.status.as_str());
    out.append("</span></td><td class=\"small\">");
    put_markup(&mut out, row.warnings.as_str());
    out.append("</td></tr>");
    out
}

/// The markup of a row of the table of skipped files.
fn skipped_row(row: &FileRow) -> (out: String)
    ensures
        out@ == skipped_row_html(row@),
{
    let mut out = "<tr><td class=\"mono\">".to_owned();
    put_markup(&mut out, row.relative_path.as_str());
    out.append("</td><td><span class=\"status-tag status-");
    put_markup(&mut out, row.status_class.as_str());
    out.append("\">");
    put_markup(&mut out, row.status.as_str());
    out.append("</span></td><td class=\"small\">");
    put_markup(&mut out, row.warnings.as_str());
    out.append("</td></tr>");
    out
}

/// Appends the rows of the table of languages.
fn put_language_rows(out: &mut String, rows: &Vec<LanguageRow>)
    ensures
        final(out)@ == old(out)@ + language_rows_html(language_row_views(rows@)),
{
    let ghost given = out@;
    let ghost all = language_row_views(rows@);
    let mut i: usize = 0;
    assert(given + language_rows_html(all.take(0)) == given);
    while i < rows.len()
        invariant
            i <= rows@.len(),
            all == language_row_views(rows@),
            out@ == given + language_rows_html(all.take(i as int)),
        decreases rows@.len() - i,
    {
        let row = language_row(&rows[i]);
        out.append(row.as_str());
        i = i + 1;
        proof {
            let now = all.take(i as int);
            assert(now.drop_last() == all.take(i - 1));
            assert(given + language_rows_html(all.take(i - 1)) + row@ == given + (
            language_rows_html(all.take(i - 1)) + row@));
        }
    }
    assert(all.take(all.len() as int) == all);
}

/// Appends the rows of the table of files.
fn put_file_rows(out: &mut String, rows: &Vec<FileRow>)
    ensures
        final(out)@ == old(out)@ + file_rows_html(file_row_views(rows@)),
{
    let ghost given = out@;
    let ghost all = file_row_views(rows@);
    let mut i: usize = 0;
    assert(given + file_rows_html(all.take(0)) == given);
    while i < rows.len()
        invariant
            i <= rows@.len(),
            all == file_row_views(rows@),
            out@ == given + file_rows_html(all.take(i as int)),
        decreases rows@.len() - i,
    {
        let row = file_row(&rows[i]);
        out.append(row.as_str());
        i = i + 1;
        proof {
            let now = all.take(i as int);
            assert(now.drop_last() == all.take(i - 1));
            assert(given + file_rows_html(all.take(i - 1)) + row@ == given + (file_rows_html(
                all.take(i - 1),
            ) + row@));
        }
    }
    assert(all.take(all.len() as int) == all);
}

/// Appends the rows of the table of skipped files.
fn put_skipped_rows(out: &mut String, rows: &Vec<FileRow>)
    ensures
        final(out)@ == old(out)@ + skipped_rows_html(file_row_views(rows@)),
{
    let ghost given = out@;
    let ghost all = file_row_views(rows@);
    let mut i: usize = 0;
    assert(given + skipped_rows_html(all.take(0)) == given);
    while i < rows.len()
        invariant
            i <= rows@.len(),
            all == file_row_views(rows@),
            out@ == given + skipped_rows_html(all.take(i as int)),
        decreases rows@.len() - i,
    {
        let row = skipped_row(&rows[i]);
        out.append(row.as_str());
        i = i + 1;
        proof {
            let now = all.take(i as int);
            assert(now.drop_last() == all.take(i - 1));
            assert(given + skipped_rows_html(all.take(i - 1)) + row@ == given + (skipped_rows_html(
                all.take(i - 1),
            ) + row@));
        }
    }
    assert(all.take(all.len() as int) == all);
}

/// Appends the warnings of a run.
fn put_warnings(out: &mut String, warnings: &Vec<String>, has_warnings: bool)
    ensures
        final(out)@ == old(out)@ + warnings_html(texts(warnings@), has_warnings),
{
    if !has_warnings {
        out.append("<div class=\"pill good\">No top-level warnings.</div>");
        return ;
    }
    let ghost given = out@;
    let ghost all = texts(warnings@);
    let mut list = "<ul class=\"warn-list\">".to_owned();
    let ghost open = list@;
    let mut i: usize = 0;
    assert(open + warning_items(all.take(0)) == open);
    while i < warnings.len()
        invariant
            i <= warnings@.len(),
            all == texts(warnings@),
            list@ == open + warning_items(all.take(i as int)),
        decreases warnings@.len() - i,
    {
        let mut item = "<li>".to_owned();
        put_markup(&mut item, warnings[i].as_str());
        item.append("</li>");
        list.append(item.as_str());
        i = i + 1;
        proof {
            let now = all.take(i as int);
            assert(now.drop_last() == all.take(i - 1));
            assert(now.last() == warnings@[i - 1]@);
            assert(open + warning_items(all.take(i - 1)) + item@ == open + (warning_items(
                all.take(i - 1),
            ) + item@));
        }
    }
    assert(all.take(all.len() as int) == all);
    list.append("</ul>");
    out.append(list.as_str());
}

/// How a file is shown in the report.
pub fn file_row_view(file: &FileRecord) -> (row: FileRow)
    ensures
        row@ == file_row_of(*file),
{
    FileRow {
        relative_path: file.relative_path.clone(),
        language: match &file.language {
            Some(name) => name.clone(),
            None => "-".to_owned(),
        },
        total_physical_lines: file.raw_line_categories.total_physical_lines,
        code_lines: file.effective_counts.code_lines,
        comment_lines: file.effective_counts.comment_lines,
        blank_lines: file.effective_counts.blank_lines,
        mixed_lines_separate: file.effective_counts.mixed_lines_separate,
        status: file.status.clone(),
        status_class: ascii_lower(file.status.as_str()),
        warnings: joined(&file.warnings, "; "),
    }
}

/// How the files of a list are shown in the report.
fn file_row_list(files: &Vec<FileRecord>) -> (rows: Vec<FileRow>)
    ensures
        file_row_views(rows@) == file_rows_of(files@),
{
    let mut rows: Vec<FileRow> = Vec::new();
    let mut i: usize = 0;
    while i < files.len()
        invariant
            i <= files@.len(),
            rows@.len() == i,
            forall|k: int| 0 <= k < i ==> (#[trigger] rows@[k])@ == file_row_of(files@[k]),
        decreases files@.len() - i,
    {
        rows.push(file_row_view(&files[i]));
        i = i + 1;
    }
    assert(file_row_views(rows@) == file_rows_of(files@));
    rows
}

/// The rows of the report's table of languages.
fn language_row_list(totals: &Vec<LanguageTotals>) -> (rows: Vec<LanguageRow>)
    ensures
        language_row_views(rows@) == counts_of(totals@),
{
    let mut rows: Vec<LanguageRow> = Vec::new();
    let mut i: usize = 0;
    while i < totals.len()
        invariant
            i <= totals@.len(),
            rows@.len() == i,
            forall|k: int| 0 <= k < i ==> (#[trigger] rows@[k])@ == totals@[k]@,
        decreases totals@.len() - i,
    {
        let t = &totals[i];
        rows.push(
            LanguageRow {
                language: t.language.clone(),
                files: t.files,
                total_physical_lines: t.total_physical_lines,
                code_lines: t.code_lines,
                comment_lines: t.comment_lines,
                blank_lines: t.blank_lines,
                mixed_lines_separate: t.mixed_lines_separate,
            },
        );
        i = i + 1;
    }
    assert(language_row_views(rows@) == counts_of(totals@));
    rows
}

/// Why a report could not be rendered.
#[derive(Clone, Copy, PartialEq, Eq, Structural, Debug)]
pub enum ReportError {
    /// The configuration of the run could not be turned into JSON.
    SerializeConfiguration,
}

/// What is reported where a report could not be rendered.
pub fn report_error_message(error: ReportError) -> (message: String)
    ensures
        message@ == "failed to serialize effective configuration"@,
{
    match error {
        ReportError::SerializeConfiguration => {
            "failed to serialize effective configuration".to_owned()
        },
    }
}

/// Renders the report of a run. `config_json` is the configuration of the run as indented JSON,
/// where it could be turned into JSON.
pub fn render_html(run: &AnalysisRun, config_json: Option<&str>) -> (r: Result<String, ReportError>)
    ensures
        match config_json {
            Some(json) => r matches Ok(page) && page@ == report_of(*run, json@),
            None => r == Err::<String, ReportError>(ReportError::SerializeConfiguration),
        },
{
    let json = match config_json {
        Some(json) => json,
        None => {
            return Err(ReportError::SerializeConfiguration);
        },
    };
    let template = ReportTemplate {
        title: run.effective_configuration.reporting.report_title.clone(),
        run,
        language_rows: language_row_list(&run.totals_by_language),
        file_rows: file_row_list(&run.per_file_records),
        skipped_rows: file_row_list(&run.skipped_file_records),
        config_json: json.to_owned(),
        has_run_warnings: run.warnings.len() > 0,
    };
    Ok(template.render())
}

proof fn lemma_language_row_occurs(rows: Seq<CountsView>, k: int)
    requires
        0 <= k < rows.len(),
    ensures
        occurs(language_row_html(rows[k]), language_rows_html(rows)),
    decreases rows.len(),
{
    let part = language_row_html(rows[k]);
    if k < rows.len() - 1 {
        lemma_language_row_occurs(rows.drop_last(), k);
    } else {
        lemma_occurs_in_itself(part);
    }
    lemma_occurs_in_sum(
        part,
        language_rows_html(rows.drop_last()),
        language_row_html(rows.last()),
    );
}

proof fn lemma_file_row_occurs(rows: Seq<FileRowView>, k: int)
    requires
        0 <= k < rows.len(),
    ensures
        occurs(file_row_html(rows[k]), file_rows_html(rows)),
    decreases rows.len(),
{
    let part = file_row_html(rows[k]);
    if k < rows.len() - 1 {
        lemma_file_row_occurs(rows.drop_last(), k);
    } else {
        lemma_occurs_in_itself(part);
    }
    lemma_occurs_in_sum(part, file_rows_html(rows.drop_last()), file_row_html(rows.last()));
}

proof fn lemma_skipped_row_occurs(rows: Seq<FileRowView>, k: int)
    requires
        0 <= k < rows.len(),
    ensures
        occurs(skipped_row_html(rows[k]), skipped_rows_html(rows)),
    decreases rows.len(),
{
    let part = skipped_row_html(rows[k]);
    if k < rows.len() - 1 {
        lemma_skipped_row_occurs(rows.drop_last(), k);
    } else {
        lemma_occurs_in_itself(part);
    }
    lemma_occurs_in_sum(part, skipped_rows_html(rows.drop_last()), skipped_row_html(rows.last()));
}

proof fn lemma_warning_occurs(warnings: Seq<Seq<char>>, k: int)
    requires
        0 <= k < warnings.len(),
    ensures
        occurs(markup(warnings[k]), warning_items(warnings)),
    decreases warnings.len(),
{
    let part = markup(warnings[k]);
    let last = markup(warnings.last());
    if k < warnings.len() - 1 {
        lemma_warning_occurs(warnings.drop_last(), k);
    } else {
        lemma_occurs_in_itself(part);
        lemma_occurs_in_sum(part, "<li>"@, last);
        lemma_occurs_in_sum(part, "<li>"@ + last, "</li>"@);
    }
    lemma_occurs_in_sum(part, warning_items(warnings.drop_last()), "<li>"@ + last + "</li>"@);
}

/// What stands in one of the parts of a report stands in the report.
proof fn lemma_occurs_in_report(run: AnalysisRun, config_json: Seq<char>, part: Seq<char>)
    requires
        occurs(part, language_rows_html(counts_of(run.totals_by_language@))) || occurs(
            part,
            file_rows_html(file_rows_of(run.per_file_records@)),
        ) || occurs(part, skipped_rows_html(file_rows_of(run.skipped_file_records@))) || occurs(
            part,
            warnings_html(texts(run.warnings@), run.warnings@.len() > 0),
        ) || occurs(part, markup(config_json)),
    ensures
        occurs(part, report_of(run, config_json)),
{
    broadcast use lemma_occurs_in_sum;

}

/// Every language that a run counted has its row in the report.
pub proof fn law_report_lists_every_language(run: AnalysisRun, config_json: Seq<char>, k: int)
    requires
        0 <= k < run.totals_by_language@.len(),
    ensures
        occurs(
            language_row_html(run.totals_by_language@[k]@),
            report_of(run, config_json),
        ),
{
    let rows = counts_of(run.totals_by_language@);
    lemma_language_row_occurs(rows, k);
    lemma_occurs_in_report(run, config_json, language_row_html(rows[k]));
}

/// Every file that a run analyzed has its row in the report.
pub proof fn law_report_lists_every_file(run: AnalysisRun, config_json: Seq<char>, k: int)
    requires
        0 <= k < run.per_file_records@.len(),
    ensures
        occurs(
            file_row_html(file_row_of(run.per_file_records@[k])),
            report_of(run, config_json),
        ),
{
    let rows = file_rows_of(run.per_file_records@);
    lemma_file_row_occurs(rows, k);
    lemma_occurs_in_report(run, config_json, file_row_html(rows[k]));
}

/// Every file that a run skipped has its row in the report.
pub proof fn law_report_lists_every_skipped_file(run: AnalysisRun, config_json: Seq<char>, k: int)
    requires
        0 <= k < run.skipped_file_records@.len(),
    ensures
        occurs(
            skipped_row_html(file_row_of(run.skipped_file_records@[k])),
            report_of(run, config_json),
        ),
{
    let rows = file_rows_of(run.skipped_file_records@);
    lemma_skipped_row_occurs(rows, k);
    lemma_occurs_in_report(run, config_json, skipped_row_html(rows[k]));
}

/// Every warning of a run is shown in the report.
pub proof fn law_report_shows_every_warning(run: AnalysisRun, config_json: Seq<char>, k: int)
    requires
        0 <= k < run.warnings@.len(),
    ensures
        occurs(markup(run.warnings@[k]@), report_of(run, config_json)),
{
    let warnings = texts(run.warnings@);
    let part = markup(warnings[k]);
    lemma_warning_occurs(warnings, k);
    lemma_occurs_in_sum(part, "<ul class=\"warn-list\">"@, warning_items(warnings));
    lemma_occurs_in_sum(
        part,
        "<ul class=\"warn-list\">"@ + warning_items(warnings),
        "</ul>"@,
    );
    lemma_occurs_in_report(run, config_json, part);
}

/// The configuration of a run is shown in its report.
pub proof fn law_report_shows_configuration(run: AnalysisRun, config_json: Seq<char>)
    ensures
        occurs(markup(config_json), report_of(run, config_json)),
{
    lemma_occurs_in_itself(markup(config_json));
    lemma_occurs_in_report(run, config_json, markup(config_json));
}

/// A metric of a report: its label and its number.
pub open spec fn metric_text(label: Seq<char>, n: u64) -> Seq<char> {
    label + decimal_text(n as nat) + "</div>"@
}

/// Behind each label the report shows the total of that name.
pub proof fn law_report_shows_each_total(run: AnalysisRun, config_json: Seq<char>)
    ensures
        ({
            let page = report_of(run, config_json);
            let totals = run.summary_totals;
            &&& occurs(
                metric_text(
                    "Physical lines</div><div class=\"value\">"@,
                    totals.total_physical_lines,
                ),
                page,
            )
            &&& occurs(metric_text("Code</div><div class=\"value\">"@, totals.code_lines), page)
            &&& occurs(
                metric_text("Comments</div><div class=\"value\">"@, totals.comment_lines),
                page,
            )
            &&& occurs(metric_text("Blank</div><div class=\"value\">"@, totals.blank_lines), page)
            &&& occurs(
                metric_text(
                    "Mixed separate</div><div class=\"value\">"@,
                    totals.mixed_lines_separate,
                ),
                page,
            )
            &&& occurs(
                "</span>\n        <span class=\"meta-chip\">Files analyzed "@ + decimal_text(
                    totals.files_analyzed as nat,
                ) + "</span>\n        <span class=\"meta-chip\">Files skipped "@,
                page,
            )
            &&& occurs(
                "</span>\n        <span class=\"meta-chip\">Files skipped "@ + decimal_text(
                    totals.files_skipped as nat,
                ) + "</span>"@,
                page,
            )
        }),
{
    broadcast use {lemma_occurs_in_sum, lemma_occurs_at_end};

}

/// The report names its run: the title twice, the identifier, the mode, the time, the operating
/// system and the architecture, each in its place.
pub proof fn law_report_names_its_run(run: AnalysisRun, config_json: Seq<char>)
    ensures
        ({
            let page = report_of(run, config_json);
            let title = run.effective_configuration.reporting.report_title@;
            &&& occurs("<title>"@ + markup(title) + "</title>"@, page)
            &&& occurs("<h1>"@ + markup(title) + "</h1>"@, page)
            &&& occurs(
                "<span class=\"pill\">Run ID "@ + markup(run.tool.run_id@)
                    + "</span><span class=\"pill\">Mode "@,
                page,
            )
            &&& occurs(
                "</span><span class=\"pill\">Mode "@ + markup(run.environment.runtime_mode@)
                    + "</span>"@,
                page,
            )
            &&& occurs(
                "<span class=\"meta-chip\">Generated "@ + markup(run.tool.timestamp_utc@)
                    + "</span>\n        <span class=\"meta-chip\">OS "@,
                page,
            )
            &&& occurs(
                "</span>\n        <span class=\"meta-chip\">OS "@ + markup(
                    run.environment.operating_system@,
                ) + " / "@,
                page,
            )
            &&& occurs(
                " / "@ + markup(run.environment.architecture@)
                    + "</span>\n        <span class=\"meta-chip\">Files analyzed "@,
                page,
            )
        }),
{
    broadcast use {lemma_occurs_in_sum, lemma_occurs_at_end};

}

/// The configuration stands in the report under its heading, and so do the warnings, or the note
/// that there are none.
pub proof fn law_report_shows_warnings_and_configuration(run: AnalysisRun, config_json: Seq<char>)
    ensures
        occurs(
            "</div>\n      <div><h2>Effective configuration</h2><pre>"@ + markup(config_json)
                + "</pre>"@,
            report_of(run, config_json),
        ),
        run.warnings@.len() == 0 ==> occurs(
            "<h2>Run warnings</h2>"@ + "<div class=\"pill good\">No top-level warnings.</div>"@
                + "</div>\n      <div><h2>Effective configuration</h2><pre>"@,
            report_of(run, config_json),
        ),
        run.warnings@.len() > 0 ==> occurs(
            "<h2>Run warnings</h2>"@ + ("<ul class=\"warn-list\">"@ + warning_items(
                texts(run.warnings@),
            ) + "</ul>"@) + "</div>\n      <div><h2>Effective configuration</h2><pre>"@,
            report_of(run, config_json),
        ),
{
    broadcast use {lemma_occurs_in_sum, lemma_occurs_at_end};

}

/// A report holds the tables of its languages, files and skipped files, each whole and under its own
/// headings.
pub proof fn law_report_holds_its_tables(run: AnalysisRun, config_json: Seq<char>)
    ensures
        occurs(
            "<thead><tr><th data-sort-type=\"text\">Language</th><th data-sort-type=\"number\">Files</th><th data-sort-type=\"number\">Physical</th><th data-sort-type=\"number\">Code</th><th data-sort-type=\"number\">Comments</th><th data-sort-type=\"number\">Blank</th><th data-sort-type=\"number\">Mixed separate</th></tr></thead><tbody>"@
                + language_rows_html(counts_of(run.totals_by_language@)) + "</tbody></table>"@,
            report_of(run, config_json),
        ),
        occurs(
            "<thead><tr><th data-sort-type=\"text\">File</th><th data-sort-type=\"text\">Language</th><th data-sort-type=\"number\">Physical</th><th data-sort-type=\"number\">Code</th><th data-sort-type=\"number\">Comments</th><th data-sort-type=\"number\">Blank</th><th data-sort-type=\"number\">Mixed separate</th><th data-sort-type=\"text\">Status</th><th data-sort-type=\"text\">Warnings</th></tr></thead><tbody>"@
                + file_rows_html(file_rows_of(run.per_file_records@)) + "</tbody></table>"@,
            report_of(run, config_json),
        ),
        occurs(
            "<thead><tr><th data-sort-type=\"text\">File</th><th data-sort-type=\"text\">Status</th><th data-sort-type=\"text\">Warnings</th></tr></thead><tbody>"@
                + skipped_rows_html(file_rows_of(run.skipped_file_records@))
                + "</tbody></table>"@,
            report_of(run, config_json),
        ),
{
    broadcast use {lemma_occurs_in_sum, lemma_occurs_at_end};

}

/// A row shows the name of its language and then its files, its physical lines, its code, its
/// comments, its blank and its mixed lines, each in a cell of its own in this order.
pub proof fn law_language_row_shows_its_counts(row: CountsView)
    ensures
        language_row_html(row) == "<tr><td>"@ + join_texts(
            seq![
                markup(row.language),
                decimal_text(row.files as nat),
                decimal_text(row.physical as nat),
                decimal_text(row.code as nat),
                decimal_text(row.comments as nat),
                decimal_text(row.blank as nat),
                decimal_text(row.mixed as nat),
            ],
            "</td><td>"@,
        ) + "</td></tr>"@,
{
    let c = seq![
        markup(row.language),
        decimal_text(row.files as nat),
        decimal_text(row.physical as nat),
        decimal_text(row.code as nat),
        decimal_text(row.comments as nat),
        decimal_text(row.blank as nat),
        decimal_text(row.mixed as nat),
    ];
    lemma_join_seven(c, "</td><td>"@);
    assert(language_row_html(row) == "<tr><td>"@ + join_texts(c, "</td><td>"@) + "</td></tr>"@);
}

/// A row shows the path and the language of its file and then its physical lines, its code, its
/// comments, its blank and its mixed lines, each in a cell of its own in this order, and then its
/// status, under its class, and its warnings.
pub proof fn law_file_row_shows_its_counts(row: FileRowView)
    ensures
        file_row_html(row) == "<tr><td class=\"mono\">"@ + join_texts(
            seq![
                markup(row.relative_path),
                markup(row.language),
                decimal_text(row.total_physical_lines as nat),
                decimal_text(row.code_lines as nat),
                decimal_text(row.comment_lines as nat),
                decimal_text(row.blank_lines as nat),
                decimal_text(row.mixed_lines_separate as nat),
            ],
            "</td><td>"@,
        ) + "</td><td><span class=\"status-tag status-"@ + markup(row.status_class) + "\">"@ + markup(
            row.status,
        ) + "</span></td><td class=\"small\">"@ + markup(row.warnings) + "</td></tr>"@,
        skipped_row_html(row) == "<tr><td class=\"mono\">"@ + markup(row.relative_path)
            + "</td><td><span class=\"status-tag status-"@ + markup(row.status_class) + "\">"@
            + markup(row.status) + "</span></td><td class=\"small\">"@ + markup(row.warnings)
            + "</td></tr>"@,
{
    let c = seq![
        markup(row.relative_path),
        markup(row.language),
        decimal_text(row.total_physical_lines as nat),
        decimal_text(row.code_lines as nat),
        decimal_text(row.comment_lines as nat),
        decimal_text(row.blank_lines as nat),
        decimal_text(row.mixed_lines_separate as nat),
    ];
    let start = "<tr><td class=\"mono\">"@;
    lemma_join_seven(c, "</td><td>"@);
    let cells = start + c[0] + "</td><td>"@ + c[1] + "</td><td>"@ + c[2] + "</td><td>"@ + c[3]
        + "</td><td>"@ + c[4] + "</td><td>"@ + c[5] + "</td><td>"@ + c[6];
    assert(cells == start + join_texts(c, "</td><td>"@));
}

/// What a row shows of a file is the file's own: its path, its language or a hyphen, its lines of
/// each kind, its status as it is and in lower case, and its warnings with semicolons between them.
pub proof fn law_file_rows_are_those_of_the_files(files: Seq<FileRecord>, k: int)
    requires
        0 <= k < files.len(),
    ensures
        ({
            let row = file_rows_of(files)[k];
            let file = files[k];
            &&& file_rows_of(files).len() == files.len()
            &&& row.relative_path == file.relative_path@
            &&& file.language matches Some(name) ==> row.language == name@
            &&& file.language is None ==> row.language == "-"@
            &&& row.total_physical_lines == file.raw_line_categories.total_physical_lines
            &&& row.code_lines == file.effective_counts.code_lines
            &&& row.comment_lines == file.effective_counts.comment_lines
            &&& row.blank_lines == file.effective_counts.blank_lines
            &&& row.mixed_lines_separate == file.effective_counts.mixed_lines_separate
            &&& row.status == file.status@
            &&& row.status_class == lowered(file.status@)
            &&& row.warnings == join_texts(texts(file.warnings@), "; "@)
        }),
{
}

/// The warnings of a run are items of a list, each in turn and none left out.
pub proof fn law_warnings_follow_each_other(a: Seq<Seq<char>>, b: Seq<Seq<char>>, text: Seq<char>)
    ensures
        warning_items(seq![]) == Seq::<char>::empty(),
        warning_items(seq![text]) == "<li>"@ + markup(text) + "</li>"@,
        warning_items(a + b) == warning_items(a) + warning_items(b),
    decreases b.len(),
{
    let one = seq![text];
    let item = "<li>"@ + markup(text) + "</li>"@;
    assert(one.drop_last() == Seq::<Seq<char>>::empty());
    assert(warning_items(one.drop_last()) == Seq::<char>::empty());
    assert(Seq::<char>::empty() + item == item);
    if b.len() == 0 {
        assert(a + b == a);
        assert(warning_items(a) + warning_items(b) == warning_items(a));
    } else {
        law_warnings_follow_each_other(a, b.drop_last(), text);
        assert((a + b).drop_last() == a + b.drop_last());
        assert((a + b).last() == b.last());
        let head = warning_items(a);
        let rest = warning_items(b.drop_last());
        let last = "<li>"@ + markup(b.last()) + "</li>"@;
        assert(head + (rest + last) == head + rest + last);
    }
}

/// The rows of the table of languages are those of its languages, in their order.
pub proof fn law_rows_follow_the_languages(a: Seq<CountsView>, b: Seq<CountsView>, row: CountsView)
    ensures
        language_rows_html(seq![]) == Seq::<char>::empty(),
        language_rows_html(seq![row]) == language_row_html(row),
        language_rows_html(a + b) == language_rows_html(a) + language_rows_html(b),
    decreases b.len(),
{
    let one = seq![row];
    assert(one.drop_last() == Seq::<CountsView>::empty());
    assert(language_rows_html(one.drop_last()) == Seq::<char>::empty());
    assert(Seq::<char>::empty() + language_row_html(row) == language_row_html(row));
    if b.len() == 0 {
        assert(a + b == a);
        assert(language_rows_html(a) + language_rows_html(b) == language_rows_html(a));
    } else {
        law_rows_follow_the_languages(a, b.drop_last(), row);
        assert((a + b).drop_last() == a + b.drop_last());
        assert((a + b).last() == b.last());
        let head = language_rows_html(a);
        let rest = language_rows_html(b.drop_last());
        let last = language_row_html(b.last());
        assert(head + (rest + last) == head + rest + last);
    }
}

/// The rows of the table of files are those of its files, in their order.
pub proof fn law_rows_follow_the_files(a: Seq<FileRowView>, b: Seq<FileRowView>, row: FileRowView)
    ensures
        file_rows_html(seq![]) == Seq::<char>::empty(),
        file_rows_html(seq![row]) == file_row_html(row),
        file_rows_html(a + b) == file_rows_html(a) + file_rows_html(b),
    decreases b.len(),
{
    let one = seq![row];
    assert(one.drop_last() == Seq::<FileRowView>::empty());
    assert(file_rows_html(one.drop_last()) == Seq::<char>::empty());
    assert(Seq::<char>::empty() + file_row_html(row) == file_row_html(row));
    if b.len() == 0 {
        assert(a + b == a);
        assert(file_rows_html(a) + file_rows_html(b) == file_rows_html(a));
    } else {
        law_rows_follow_the_files(a, b.drop_last(), row);
        assert((a + b).drop_last() == a + b.drop_last());
        assert((a + b).last() == b.last());
        let head = file_rows_html(a);
        let rest = file_rows_html(b.drop_last());
        let last = file_row_html(b.last());
        assert(head + (rest + last) == head + rest + last);
    }
}

/// The rows of the table of skipped files are those of its skipped files, in their order.
pub proof fn law_rows_follow_the_skipped_files(a: Seq<FileRowView>, b: Seq<FileRowView>, row: FileRowView)
    ensures
        skipped_rows_html(seq![]) == Seq::<char>::empty(),
        skipped_rows_html(seq![row]) == skipped_row_html(row),
        skipped_rows_html(a + b) == skipped_rows_html(a) + skipped_rows_html(b),
    decreases b.len(),
{
    let one = seq![row];
    assert(one.drop_last() == Seq::<FileRowView>::empty());
    assert(skipped_rows_html(one.drop_last()) == Seq::<char>::empty());
    assert(Seq::<char>::empty() + skipped_row_html(row) == skipped_row_html(row));
    if b.len() == 0 {
        assert(a + b == a);
        assert(skipped_rows_html(a) + skipped_rows_html(b) == skipped_rows_html(a));
    } else {
        law_rows_follow_the_skipped_files(a, b.drop_last(), row);
        assert((a + b).drop_last() == a + b.drop_last());
        assert((a + b).last() == b.last());
        let head = skipped_rows_html(a);
        let rest = skipped_rows_html(b.drop_last());
        let last = skipped_row_html(b.last());
        assert(head + (rest + last) == head + rest + last);
    }
}

/// A row holds what it is made of, each count under its own name.
pub proof fn law_rows_hold_their_counts(language: LanguageRow, file: FileRow)
    ensures
        language@.language == language.language@,
        language@.files == language.files,
        language@.physical == language.total_physical_lines,
        language@.code == language.code_lines,
        language@.comments == language.comment_lines,
        language@.blank == language.blank_lines,
        language@.mixed == language.mixed_lines_separate,
        file@.relative_path == file.relative_path@,
        file@.language == file.language@,
        file@.total_physical_lines == file.total_physical_lines,
        file@.code_lines == file.code_lines,
        file@.comment_lines == file.comment_lines,
        file@.blank_lines == file.blank_lines,
        file@.mixed_lines_separate == file.mixed_lines_separate,
        file@.status == file.status@,
        file@.status_class == file.status_class@,
        file@.warnings == file.warnings@,
{
}

/// Two runs that differ only in their total of physical lines have different reports.
pub proof fn law_reports_tell_total_physical_lines_apart(
    run: AnalysisRun,
    other: AnalysisRun,
    config_json: Seq<char>,
)
    requires
        other == (AnalysisRun { summary_totals: other.summary_totals, ..run }),
        other.summary_totals == (SummaryTotals {
            total_physical_lines: other.summary_totals.total_physical_lines,
            ..run.summary_totals
        }),
        other.summary_totals.total_physical_lines != run.summary_totals.total_physical_lines,
    ensures
        report_of(run, config_json) != report_of(other, config_json),
{
    broadcast use {lemma_unlike_before, lemma_unlike_behind};

    let a = decimal_text(run.summary_totals.total_physical_lines as nat);
    let b = decimal_text(other.summary_totals.total_physical_lines as nat);
    if a == b {
        law_decimal_tells_numbers_apart(
            run.summary_totals.total_physical_lines as nat,
            other.summary_totals.total_physical_lines as nat,
        );
    }
    assert(unlike(a, b));
    assert(unlike(report_of(run, config_json), report_of(other, config_json)));
}

/// Two runs that differ only in their total of lines of code have different reports.
pub proof fn law_reports_tell_code_lines_apart(
    run: AnalysisRun,
    other: AnalysisRun,
    config_json: Seq<char>,
)
    requires
        other == (AnalysisRun { summary_totals: other.summary_totals, ..run }),
        other.summary_totals == (SummaryTotals {
            code_lines: other.summary_totals.code_lines,
            ..run.summary_totals
        }),
        other.summary_totals.code_lines != run.summary_totals.code_lines,
    ensures
        report_of(run, config_json) != report_of(other, config_json),
{
    broadcast use {lemma_unlike_before, lemma_unlike_behind};

    let a = decimal_text(run.summary_totals.code_lines as nat);
    let b = decimal_text(other.summary_totals.code_lines as nat);
    if a == b {
        law_decimal_tells_numbers_apart(
            run.summary_totals.code_lines as nat,
            other.summary_totals.code_lines as nat,
        );
    }
    assert(unlike(a, b));
    assert(unlike(report_of(run, config_json), report_of(other, config_json)));
}

/// Two runs that differ only in their total of comment lines have different reports.
pub proof fn law_reports_tell_comment_lines_apart(
    run: AnalysisRun,
    other: AnalysisRun,
    config_json: Seq<char>,
)
    requires
        other == (AnalysisRun { summary_totals: other.summary_totals, ..run }),
        other.summary_totals == (SummaryTotals {
            comment_lines: other.summary_totals.comment_lines,
            ..run.summary_totals
        }),
        other.summary_totals.comment_lines != run.summary_totals.comment_lines,
    ensures
        report_of(run, config_json) != report_of(other, config_json),
{
    broadcast use {lemma_unlike_before, lemma_unlike_behind};

    let a = decimal_text(run.summary_totals.comment_lines as nat);
    let b = decimal_text(other.summary_totals.comment_lines as nat);
    if a == b {
        law_decimal_tells_numbers_apart(
            run.summary_totals.comment_lines as nat,
            other.summary_totals.comment_lines as nat,
        );
    }
    assert(unlike(a, b));
    assert(unlike(report_of(run, config_json), report_of(other, config_json)));
}

/// Two runs that differ only in their total of blank lines have different reports.
pub proof fn law_reports_tell_blank_lines_apart(
    run: AnalysisRun,
    other: AnalysisRun,
    config_json: Seq<char>,
)
    requires
        other == (AnalysisRun { summary_totals: other.summary_totals, ..run }),
        other.summary_totals == (SummaryTotals {
            blank_lines: other.summary_totals.blank_lines,
            ..run.summary_totals
        }),
        other.summary_totals.blank_lines != run.summary_totals.blank_lines,
    ensures
        report_of(run, config_json) != report_of(other, config_json),
{
    broadcast use {lemma_unlike_before, lemma_unlike_behind};

    let a = decimal_text(run.summary_totals.blank_lines as nat);
    let b = decimal_text(other.summary_totals.blank_lines as nat);
    if a == b {
        law_decimal_tells_numbers_apart(
            run.summary_totals.blank_lines as nat,
            other.summary_totals.blank_lines as nat,
        );
    }
    assert(unlike(a, b));
    assert(unlike(report_of(run, config_json), report_of(other, config_json)));
}

/// Two runs that differ only in their total of mixed lines have different reports.
pub proof fn law_reports_tell_mixed_lines_separate_apart(
    run: AnalysisRun,
    other: AnalysisRun,
    config_json: Seq<char>,
)
    requires
        other == (AnalysisRun { summary_totals: other.summary_totals, ..run }),
        other.summary_totals == (SummaryTotals {
            mixed_lines_separate: other.summary_totals.mixed_lines_separate,
            ..run.summary_totals
        }),
        other.summary_totals.mixed_lines_separate != run.summary_totals.mixed_lines_separate,
    ensures
        report_of(run, config_json) != report_of(other, config_json),
{
    broadcast use {lemma_unlike_before, lemma_unlike_behind};

    let a = decimal_text(run.summary_totals.mixed_lines_separate as nat);
    let b = decimal_text(other.summary_totals.mixed_lines_separate as nat);
    if a == b {
        law_decimal_tells_numbers_apart(
            run.summary_totals.mixed_lines_separate as nat,
            other.summary_totals.mixed_lines_separate as nat,
        );
    }
    assert(unlike(a, b));
    assert(unlike(report_of(run, config_json), report_of(other, config_json)));
}

/// Two runs that differ only in their total of analyzed files have different reports.
pub proof fn law_reports_tell_files_analyzed_apart(
    run: AnalysisRun,
    other: AnalysisRun,
    config_json: Seq<char>,
)
    requires
        other == (AnalysisRun { summary_totals: other.summary_totals, ..run }),
        other.summary_totals == (SummaryTotals {
            files_analyzed: other.summary_totals.files_analyzed,
            ..run.summary_totals
        }),
        other.summary_totals.files_analyzed != run.summary_totals.files_analyzed,
    ensures
        report_of(run, config_json) != report_of(other, config_json),
{
    broadcast use {lemma_unlike_before, lemma_unlike_behind};

    let a = decimal_text(run.summary_totals.files_analyzed as nat);
    let b = decimal_text(other.summary_totals.files_analyzed as nat);
    if a == b {
        law_decimal_tells_numbers_apart(
            run.summary_totals.files_analyzed as nat,
            other.summary_totals.files_analyzed as nat,
        );
    }
    assert(unlike(a, b));
    assert(unlike(report_of(run, config_json), report_of(other, config_json)));
}

/// Two runs that differ only in their total of skipped files have different reports.
pub proof fn law_reports_tell_files_skipped_apart(
    run: AnalysisRun,
    other: AnalysisRun,
    config_json: Seq<char>,
)
    requires
        other == (AnalysisRun { summary_totals: other.summary_totals, ..run }),
        other.summary_totals == (SummaryTotals {
            files_skipped: other.summary_totals.files_skipped,
            ..run.summary_totals
        }),
        other.summary_totals.files_skipped != run.summary_totals.files_skipped,
    ensures
        report_of(run, config_json) != report_of(other, config_json),
{
    broadcast use {lemma_unlike_before, lemma_unlike_behind};

    let a = decimal_text(run.summary_totals.files_skipped as nat);
    let b = decimal_text(other.summary_totals.files_skipped as nat);
    if a == b {
        law_decimal_tells_numbers_apart(
            run.summary_totals.files_skipped as nat,
            other.summary_totals.files_skipped as nat,
        );
    }
    assert(unlike(a, b));
    assert(unlike(report_of(run, config_json), report_of(other, config_json)));
}

} // verus!

//! The pages of the web workbench.

use vstd::prelude::*;

use crate::html::{markup, put_markup};
use crate::model::CountsView;
use crate::paths::opt_text;
use crate::text::{
    decimal_text, join_texts, lemma_join_seven, lemma_occurs_at_end, lemma_occurs_in_itself,
    lemma_occurs_in_sum, lemma_seven_occur_at_end, occurs, put_number,
};
use crate::web_text::{
    ERROR_END, ERROR_START, INDEX_DOCSTRINGS, INDEX_END, INDEX_EXCLUDE, INDEX_FORM, INDEX_HTML,
    INDEX_INCLUDE, INDEX_INSPECTOR, INDEX_JSON, INDEX_OUTPUT, INDEX_PATH, INDEX_PDF, INDEX_POLICY,
    INDEX_START, INDEX_TITLE, RESULT_LANGUAGES, RESULT_METRICS, RESULT_PREVIEW, RESULT_START,
    RESULT_STYLE,
};

verus! {

/// The page from which an analysis is started.
pub struct IndexTemplate {
    /// The working directory as it is shown.
    pub cwd: String,
}

/// The page from which an analysis is started.
pub open spec fn index_page(cwd: Seq<char>) -> Seq<char> {
    INDEX_START@
        + "<div class=\"summary-label\">Working directory</div>\n        <div class=\"summary-value\"><code>"@
        + markup(cwd)
        + "</code></div>"@
        + INDEX_FORM@
        + "<form method=\"post\" action=\"/analyze\" id=\"analyze-form\">"@
        + INDEX_PATH@
        + "<input id=\"path\" name=\"path\" type=\"text\""@
        + INDEX_OUTPUT@
        + "<input id=\"output_dir\" name=\"output_dir\" type=\"text\""@
        + INDEX_TITLE@
        + "<input id=\"report_title\" name=\"report_title\" type=\"text\""@
        + INDEX_POLICY@
        + "<select id=\"mixed_line_policy\" name=\"mixed_line_policy\">"@
        + "\n                    "@
        + "<option value=\"code_only\">Code only</option>"@
        + "\n                    "@
        + "<option value=\"code_and_comment\">Code and comment</option>"@
        + "\n                    "@
        + "<option value=\"comment_only\">Comment only</option>"@
        + "\n                    "@
        + "<option value=\"separate_mixed_category\">Separate mixed category</option>"@
        + INDEX_DOCSTRINGS@
        + "<input id=\"python_docstrings_as_comments\" name=\"python_docstrings_as_comments\" type=\"checkbox\""@
        + INDEX_INCLUDE@
        + "<textarea id=\"include_globs\" name=\"include_globs\""@
        + INDEX_EXCLUDE@
        + "<textarea id=\"exclude_globs\" name=\"exclude_globs\""@
        + INDEX_HTML@
        + "<input name=\"generate_html\" type=\"checkbox\""@
        + INDEX_PDF@
        + "<input name=\"generate_pdf\" type=\"checkbox\""@
        + INDEX_JSON@
        + "<input name=\"generate_json\" type=\"checkbox\""@
        + INDEX_INSPECTOR@
        + "<strong>Working OxideSLOC directory</strong>\n                <div class=\"code-block\">"@
        + markup(cwd)
        + "</div>"@
        + INDEX_END@
}

impl IndexTemplate {
    /// The page.
    pub fn render(&self) -> (page: String)
        ensures
            page@ == index_page(self.cwd@),
    {
        let mut out = INDEX_START.to_owned();
        out.append("<div class=\"summary-label\">Working directory</div>\n        <div class=\"summary-value\"><code>");
        put_markup(&mut out, self.cwd.as_str());
        out.append("</code></div>");
        out.append(INDEX_FORM);
        out.append("<form method=\"post\" action=\"/analyze\" id=\"analyze-form\">");
        out.append(INDEX_PATH);
        out.append("<input id=\"path\" name=\"path\" type=\"text\"");
        out.append(INDEX_OUTPUT);
        out.append("<input id=\"output_dir\" name=\"output_dir\" type=\"text\"");
        out.append(INDEX_TITLE);
        out.append("<input id=\"report_title\" name=\"report_title\" type=\"text\"");
        out.append(INDEX_POLICY);
        out.append("<select id=\"mixed_line_policy\" name=\"mixed_line_policy\">");
        out.append("\n                    ");
        out.append("<option value=\"code_only\">Code only</option>");
        out.append("\n                    ");
        out.append("<option value=\"code_and_comment\">Code and comment</option>");
        out.append("\n                    ");
        out.append("<option value=\"comment_only\">Comment only</option>");
        out.append("\n                    ");
        out.append("<option value=\"separate_mixed_category\">Separate mixed category</option>");
        out.append(INDEX_DOCSTRINGS);
        out.append("<input id=\"python_docstrings_as_comments\" name=\"python_docstrings_as_comments\" type=\"checkbox\"");
        out.append(INDEX_INCLUDE);
        out.append("<textarea id=\"include_globs\" name=\"include_globs\"");
        out.append(INDEX_EXCLUDE);
        out.append("<textarea id=\"exclude_globs\" name=\"exclude_globs\"");
        out.append(INDEX_HTML);
        out.append("<input name=\"generate_html\" type=\"checkbox\"");
        out.append(INDEX_PDF);
        out.append("<input name=\"generate_pdf\" type=\"checkbox\"");
        out.append(INDEX_JSON);
        out.append("<input name=\"generate_json\" type=\"checkbox\"");
        out.append(INDEX_INSPECTOR);
        out.append("<strong>Working OxideSLOC directory</strong>\n                <div class=\"code-block\">");
        put_markup(&mut out, self.cwd.as_str());
        out.append("</div>");
        out.append(INDEX_END);
        out
    }
}

/// The page that reports a failed analysis.
pub struct ErrorTemplate {
    pub message: String,
}

/// The page that reports a failed analysis.
pub open spec fn error_page(message: Seq<char>) -> Seq<char> {
    ERROR_START@ + markup(message) + ERROR_END@
}

impl ErrorTemplate {
    /// The page.
    pub fn render(&self) -> (page: String)
        ensures
            page@ == error_page(self.message@),
    {
        let mut out = ERROR_START.to_owned();
        put_markup(&mut out, self.message.as_str());
        out.append(ERROR_END);
        out
    }
}

/// A row of the table of languages on the result page.
pub struct LanguageSummaryRow {
    pub language: String,
    pub files: u64,
    pub physical: u64,
    pub code: u64,
    pub comments: u64,
    pub blank: u64,
    pub mixed: u64,
}

impl View for LanguageSummaryRow {
    type V = CountsView;

    open spec fn view(&self) -> CountsView {
        CountsView {
            language: self.language@,
            files: self.files,
            physical: self.physical,
            code: self.code,
            comments: self.comments,
            blank: self.blank,
            mixed: self.mixed,
        }
    }
}

/// The rows of the table of languages on the result page.
pub open spec fn summary_views(rows: Seq<LanguageSummaryRow>) -> Seq<CountsView> {
    rows.map_values(|r: LanguageSummaryRow| r@)
}

/// The page that shows the result of an analysis.
pub struct ResultTemplate {
    pub report_title: String,
    pub project_path: String,
    pub output_dir: String,
    pub run_id: String,
    pub files_analyzed: u64,
    pub files_skipped: u64,
    pub physical_lines: u64,
    pub code_lines: u64,
    pub comment_lines: u64,
    pub blank_lines: u64,
    pub mixed_lines: u64,
    pub html_url: Option<String>,
    pub pdf_url: Option<String>,
    pub json_url: Option<String>,
    pub html_path: Option<String>,
    pub pdf_path: Option<String>,
    pub json_path: Option<String>,
    pub has_preview: bool,
    pub language_rows: Vec<LanguageSummaryRow>,
}

/// The model of a [`ResultTemplate`].
#[verifier::ext_equal]
pub struct ResultView {
    pub report_title: Seq<char>,
    pub project_path: Seq<char>,
    pub output_dir: Seq<char>,
    pub run_id: Seq<char>,
    pub files_analyzed: u64,
    pub files_skipped: u64,
    pub physical_lines: u64,
    pub code_lines: u64,
    pub comment_lines: u64,
    pub blank_lines: u64,
    pub mixed_lines: u64,
    pub html_url: Option<Seq<char>>,
    pub pdf_url: Option<Seq<char>>,
    pub json_url: Option<Seq<char>>,
    pub html_path: Option<Seq<char>>,
    pub pdf_path: Option<Seq<char>>,
    pub json_path: Option<Seq<char>>,
    pub has_preview: bool,
    pub language_rows: Seq<CountsView>,
}

impl View for ResultTemplate {
    type V = ResultView;

    open spec fn view(&self) -> ResultView {
        ResultView {
            report_title: self.report_title@,
            project_path: self.project_path@,
            output_dir: self.output_dir@,
            run_id: self.run_id@,
            files_analyzed: self.files_analyzed,
            files_skipped: self.files_skipped,
            physical_lines: self.physical_lines,
            code_lines: self.code_lines,
            comment_lines: self.comment_lines,
            blank_lines: self.blank_lines,
            mixed_lines: self.mixed_lines,
            html_url: opt_text(self.html_url),
            pdf_url: opt_text(self.pdf_url),
            json_url: opt_text(self.json_url),
            html_path: opt_text(self.html_path),
            pdf_path: opt_text(self.pdf_path),
            json_path: opt_text(self.json_path),
            has_preview: self.has_preview,
            language_rows: summary_views(self.language_rows@),
        }
    }
}

/// A value between two texts, or another text where there is no value.
pub open spec fn optional_html(
    value: Option<Seq<char>>,
    before: Seq<char>,
    after: Seq<char>,
    otherwise: Seq<char>,
) -> Seq<char> {
    match value {
        Some(v) => before + markup(v) + after,
        None => otherwise,
    }
}

/// The markup of a row of the table of languages.
pub open spec fn summary_row_html(row: CountsView) -> Seq<char> {
    "\n            <tr>\n              <td>"@
        + markup(row.language)
        + "</td>\n              <td>"@
        + decimal_text(row.files as nat)
        + "</td>\n              <td>"@
        + decimal_text(row.physical as nat)
        + "</td>\n              <td>"@
        + decimal_text(row.code as nat)
        + "</td>\n              <td>"@
        + decimal_text(row.comments as nat)
        + "</td>\n              <td>"@
        + decimal_text(row.blank as nat)
        + "</td>\n              <td>"@
        + decimal_text(row.mixed as nat)
        + "</td>\n            </tr>\n            "@
}

/// The markup of the rows of the table of languages.
pub open spec fn summary_rows_html(rows: Seq<CountsView>) -> Seq<char>
    decreases rows.len(),
{
    if rows.len() == 0 {
        seq![]
    } else {
        summary_rows_html(rows.drop_last()) + summary_row_html(rows.last())
    }
}

/// The saved report inside the result page, or a note that there is none.
pub open spec fn report_preview_html(has_preview: bool, url: Option<Seq<char>>) -> Seq<char> {
    if has_preview {
        "\n            "@ + optional_html(
            url,
            "\n                <iframe src=\""@,
            "\" title=\"HTML report preview\"></iframe>\n              "@,
            "\n                <div class=\"empty-preview\">HTML preview is not available for this run.</div>\n              "@,
        ) + "\n          "@
    } else {
        "\n            <div class=\"empty-preview\">\n              HTML output was not selected for this run, so there is no saved preview artifact to embed here.\n            </div>\n          "@
    }
}

/// The result page up to the rows of its table of languages.
pub open spec fn result_top(t: ResultView) -> Seq<char> {
    RESULT_START@
        + "<title>"@
        + markup(t.report_title)
        + "</title>"@
        + RESULT_STYLE@
        + "<h1>"@
        + markup(t.report_title)
        + "</h1>"@
        + "\n          <p class=\"muted\">"@
        + "Web scan complete for <code>"@
        + markup(t.project_path)
        + "</code>"@
        + RESULT_METRICS@
        + "Files analyzed</div><div class=\"value\">"@
        + decimal_text(t.files_analyzed as nat)
        + "</div>"@
        + "</div>\n        <div class=\"metric\"><div class=\"label\">"@
        + "Files skipped</div><div class=\"value\">"@
        + decimal_text(t.files_skipped as nat)
        + "</div>"@
        + "</div>\n        <div class=\"metric\"><div class=\"label\">"@
        + "Physical lines</div><div class=\"value\">"@
        + decimal_text(t.physical_lines as nat)
        + "</div>"@
        + "</div>\n        <div class=\"metric\"><div class=\"label\">"@
        + "Code</div><div class=\"value\">"@
        + decimal_text(t.code_lines as nat)
        + "</div>"@
        + "</div>\n        <div class=\"metric\"><div class=\"label\">"@
        + "Comments</div><div class=\"value\">"@
        + decimal_text(t.comment_lines as nat)
        + "</div>"@
        + "</div>\n        <div class=\"metric\"><div class=\"label\">"@
        + "Blank</div><div class=\"value\">"@
        + decimal_text(t.blank_lines as nat)
        + "</div>"@
        + "</div>\n        <div class=\"metric\"><div class=\"label\">"@
        + "Mixed separate</div><div class=\"value\">"@
        + decimal_text(t.mixed_lines as nat)
        + "</div>"@
        + "</div>\n      </div>\n\n      <div class=\"action-row\">\n        "@
        + optional_html(
            t.html_url,
            "\n            <a class=\"button\" href=\""@,
            "\" target=\"_blank\" rel=\"noopener\">Open HTML report</a>\n          "@,
            "\n          "@,
        )
        + "\n\n        "@
        + optional_html(
            t.pdf_url,
            "\n            <a class=\"button\" href=\""@,
            "\" target=\"_blank\" rel=\"noopener\">Open PDF report</a>\n          "@,
            "\n          "@,
        )
        + "\n\n        "@
        + optional_html(
            t.json_url,
            "\n            <a class=\"button secondary\" href=\""@,
            "\" target=\"_blank\" rel=\"noopener\">Open JSON report</a>\n          "@,
            "\n          "@,
        )
        + "\n      </div>\n\n      <div class=\"path-list\">\n        <div class=\"path-item\">\n          "@
        + "<strong>Run ID</strong>\n          <code>"@
        + markup(t.run_id)
        + "</code>"@
        + "\n        </div>\n        <div class=\"path-item\">\n          "@
        + "<strong>Output folder</strong>\n          <code>"@
        + markup(t.output_dir)
        + "</code>"@
        + "\n        </div>\n\n        "@
        + optional_html(
            t.html_path,
            "\n            <div class=\"path-item\">\n              <strong>HTML file</strong>\n              <code>"@,
            "</code>\n            </div>\n          "@,
            "\n          "@,
        )
        + "\n\n        "@
        + optional_html(
            t.pdf_path,
            "\n            <div class=\"path-item\">\n              <strong>PDF file</strong>\n              <code>"@,
            "</code>\n            </div>\n          "@,
            "\n          "@,
        )
        + "\n\n        "@
        + optional_html(
            t.json_path,
            "\n            <div class=\"path-item\">\n              <strong>JSON file</strong>\n              <code>"@,
            "</code>\n            </div>\n          "@,
            "\n          "@,
        )
        + RESULT_LANGUAGES@
        + "<thead>\n            <tr>\n              <th>Language</th>\n              <th>Files</th>\n              <th>Physical</th>\n              <th>Code</th>\n              <th>Comments</th>\n              <th>Blank</th>\n              <th>Mixed</th>\n            </tr>\n          </thead>\n          <tbody>\n            "@
}

/// The page that shows the result of an analysis.
pub open spec fn result_page(t: ResultView) -> Seq<char> {
    result_top(t)
        + summary_rows_html(t.language_rows)
        + "\n          </tbody>\n        </table>"@
        + RESULT_PREVIEW@
        + report_preview_html(t.has_preview, t.html_url)
        + "\n        </div>\n      </section>\n    </div>\n  </div>\n</body>\n</html>\n"@
}

/// A value between two texts, or another text where there is no value.
fn optional(value: &Option<String>, before: &str, after: &str, otherwise: &str) -> (out: String)
    ensures
        out@ == optional_html(opt_text(*value), before@, after@, otherwise@),
{
    match value {
        Some(v) => {
            let mut out = before.to_owned();
            put_markup(&mut out, v.as_str());
            out.append(after);
            out
        },
        None => otherwise.to_owned(),
    }
}

/// Appends a value between two texts, or another text where there is no value.
fn put_optional(
    out: &mut String,
    value: &Option<String>,
    before: &str,
    after: &str,
    otherwise: &str,
)
    ensures
        final(out)@ == old(out)@ + optional_html(opt_text(*value), before@, after@, otherwise@),
{
    let block = optional(value, before, after, otherwise);
    out.append(block.as_str());
}

/// The markup of a row of the table of languages.
fn summary_row(row: &LanguageSummaryRow) -> (out: String)
    ensures
        out@ == summary_row_html(row@),
{
    let mut out = "\n            <tr>\n              <td>".to_owned();
    put_markup(&mut out, row.language.as_str());
    out.append("</td>\n              <td>");
    put_number(&mut out, row.files);
    out.append("</td>\n              <td>");
    put_number(&mut out, row.physical);
    out.append("</td>\n              <td>");
    put_number(&mut out, row.code);
    out.append("</td>\n              <td>");
    put_number(&mut out, row.comments);
    out.append("</td>\n              <td>");
    put_number(&mut out, row.blank);
    out.append("</td>\n              <td>");
    put_number(&mut out, row.mixed);
    out.append("</td>\n            </tr>\n            ");
    out
}

/// Appends the rows of the table of languages.
fn put_summary_rows(out: &mut String, rows: &Vec<LanguageSummaryRow>)
    ensures
        final(out)@ == old(out)@ + summary_rows_html(summary_views(rows@)),
{
    let ghost given = out@;
    let ghost all = summary_views(rows@);
    let mut i: usize = 0;
    assert(given + summary_rows_html(all.take(0)) == given);
    while i < rows.len()
        invariant
            i <= rows@.len(),
            all == summary_views(rows@),
            out@ == given + summary_rows_html(all.take(i as int)),
        decreases rows@.len() - i,
    {
        let row = summary_row(&rows[i]);
        out.append(row.as_str());
        i = i + 1;
        proof {
            let now = all.take(i as int);
            assert(now.drop_last() == all.take(i - 1));
            assert(given + summary_rows_html(all.take(i - 1)) + row@ == given + (summary_rows_html(
                all.take(i - 1),
            ) + row@));
        }
    }
    assert(all.take(all.len() as int) == all);
}

/// The saved report inside the result page, or a note that there is none.
fn report_preview(has_preview: bool, url: &Option<String>) -> (out: String)
    ensures
        out@ == report_preview_html(has_preview, opt_text(*url)),
{
    if has_preview {
        let mut out = "\n            ".to_owned();
        put_optional(
            &mut out,
            url,
            "\n                <iframe src=\"",
            "\" title=\"HTML report preview\"></iframe>\n              ",
            "\n                <div class=\"empty-preview\">HTML preview is not available for this run.</div>\n              ",
        );
        out.append("\n          ");
        out
    } else {
        "\n            <div class=\"empty-preview\">\n              HTML output was not selected for this run, so there is no saved preview artifact to embed here.\n            </div>\n          ".to_owned()
    }
}

impl ResultTemplate {
    /// The page.
    pub fn render(&self) -> (page: String)
        ensures
            page@ == result_page(self@),
    {
        let mut out = RESULT_START.to_owned();
        out.append("<title>");
        put_markup(&mut out, self.report_title.as_str());
        out.append("</title>");
        out.append(RESULT_STYLE);
        out.append("<h1>");
        put_markup(&mut out, self.report_title.as_str());
        out.append("</h1>");
        out.append("\n          <p class=\"muted\">");
        out.append("Web scan complete for <code>");
        put_markup(&mut out, self.project_path.as_str());
        out.append("</code>");
        out.append(RESULT_METRICS);
        out.append("Files analyzed</div><div class=\"value\">");
        put_number(&mut out, self.files_analyzed);
        out.append("</div>");
        out.append("</div>\n        <div class=\"metric\"><div class=\"label\">");
        out.append("Files skipped</div><div class=\"value\">");
        put_number(&mut out, self.files_skipped);
        out.append("</div>");
        out.append("</div>\n        <div class=\"metric\"><div class=\"label\">");
        out.append("Physical lines</div><div class=\"value\">");
        put_number(&mut out, self.physical_lines);
        out.append("</div>");
        out.append("</div>\n        <div class=\"metric\"><div class=\"label\">");
        out.append("Code</div><div class=\"value\">");
        put_number(&mut out, self.code_lines);
        out.append("</div>");
        out.append("</div>\n        <div class=\"metric\"><div class=\"label\">");
        out.append("Comments</div><div class=\"value\">");
        put_number(&mut out, self.comment_lines);
        out.append("</div>");
        out.append("</div>\n        <div class=\"metric\"><div class=\"label\">");
        out.append("Blank</div><div class=\"value\">");
        put_number(&mut out, self.blank_lines);
        out.append("</div>");
        out.append("</div>\n        <div class=\"metric\"><div class=\"label\">");
        out.append("Mixed separate</div><div class=\"value\">");
        put_number(&mut out, self.mixed_lines);
        out.append("</div>");
        out.append("</div>\n      </div>\n\n      <div class=\"action-row\">\n        ");
        put_optional(
            &mut out,
            &self.html_url,
            "\n            <a class=\"button\" href=\"",
            "\" target=\"_blank\" rel=\"noopener\">Open HTML report</a>\n          ",
            "\n          ",
        );
        out.append("\n\n        ");
        put_optional(
            &mut out,
            &self.pdf_url,
            "\n            <a class=\"button\" href=\"",
            "\" target=\"_blank\" rel=\"noopener\">Open PDF report</a>\n          ",
            "\n          ",
        );
        out.append("\n\n        ");
        put_optional(
            &mut out,
            &self.json_url,
            "\n            <a class=\"button secondary\" href=\"",
            "\" target=\"_blank\" rel=\"noopener\">Open JSON report</a>\n          ",
            "\n          ",
        );
        out.append("\n      </div>\n\n      <div class=\"path-list\">\n        <div class=\"path-item\">\n          ");
        out.append("<strong>Run ID</strong>\n          <code>");
        put_markup(&mut out, self.run_id.as_str());
        out.append("</code>");
        out.append("\n        </div>\n        <div class=\"path-item\">\n          ");
        out.append("<strong>Output folder</strong>\n          <code>");
        put_markup(&mut out, self.output_dir.as_str());
        out.append("</code>");
        out.append("\n        </div>\n\n        ");
        put_optional(
            &mut out,
            &self.html_path,
            "\n            <div class=\"path-item\">\n              <strong>HTML file</strong>\n              <code>",
            "</code>\n            </div>\n          ",
            "\n          ",
        );
        out.append("\n\n        ");
        put_optional(
            &mut out,
            &self.pdf_path,
            "\n            <div class=\"path-item\">\n              <strong>PDF file</strong>\n              <code>",
            "</code>\n            </div>\n          ",
            "\n          ",
        );
        out.append("\n\n        ");
        put_optional(
            &mut out,
            &self.json_path,
            "\n            <div class=\"path-item\">\n              <strong>JSON file</strong>\n              <code>",
            "</code>\n            </div>\n          ",
            "\n          ",
        );
        out.append(RESULT_LANGUAGES);
        out.append("<thead>\n            <tr>\n              <th>Language</th>\n              <th>Files</th>\n              <th>Physical</th>\n              <th>Code</th>\n              <th>Comments</th>\n              <th>Blank</th>\n              <th>Mixed</th>\n            </tr>\n          </thead>\n          <tbody>\n            ");
        put_summary_rows(&mut out, &self.language_rows);
        out.append("\n          </tbody>\n        </table>");
        out.append(RESULT_PREVIEW);
        let preview = report_preview(self.has_preview, &self.html_url);
        out.append(preview.as_str());
        out.append("\n        </div>\n      </section>\n    </div>\n  </div>\n</body>\n</html>\n");
        out
    }
}

proof fn lemma_summary_row_occurs(rows: Seq<CountsView>, k: int)
    requires
        0 <= k < rows.len(),
    ensures
        occurs(summary_row_html(rows[k]), summary_rows_html(rows)),
    decreases rows.len(),
{
    let part = summary_row_html(rows[k]);
    if k < rows.len() - 1 {
        lemma_summary_row_occurs(rows.drop_last(), k);
    } else {
        lemma_occurs_in_itself(part);
    }
    lemma_occurs_in_sum(part, summary_rows_html(rows.drop_last()), summary_row_html(rows.last()));
}

/// Every language of a result has its row on the result page.
pub proof fn law_result_lists_every_language(t: ResultView, k: int)
    requires
        0 <= k < t.language_rows.len(),
    ensures
        occurs(summary_row_html(t.language_rows[k]), result_page(t)),
{
    broadcast use lemma_occurs_in_sum;

    lemma_summary_row_occurs(t.language_rows, k);
}

/// The page of a failed analysis shows the message with which it failed.
pub proof fn law_error_page_shows_message(message: Seq<char>)
    ensures
        occurs(markup(message), error_page(message)),
{
    lemma_occurs_in_itself(markup(message));
    lemma_occurs_in_sum(markup(message), ERROR_START@, markup(message));
    lemma_occurs_in_sum(markup(message), ERROR_START@ + markup(message), ERROR_END@);
}

/// The start page shows the working directory in both of its places, and its form is posted to
/// where an analysis is started.
pub proof fn law_start_page_shows_the_working_directory(cwd: Seq<char>)
    ensures
        occurs(
            "<div class=\"summary-label\">Working directory</div>\n        <div class=\"summary-value\"><code>"@
                + markup(cwd) + "</code></div>"@,
            index_page(cwd),
        ),
        occurs(
            "<strong>Working OxideSLOC directory</strong>\n                <div class=\"code-block\">"@
                + markup(cwd) + "</div>"@,
            index_page(cwd),
        ),
        occurs(
            "<form method=\"post\" action=\"/analyze\" id=\"analyze-form\">"@,
            index_page(cwd),
        ),
{
    broadcast use {lemma_occurs_in_sum, lemma_occurs_at_end};

    lemma_occurs_in_itself("<form method=\"post\" action=\"/analyze\" id=\"analyze-form\">"@);
}

/// The form of the start page has a field for everything that an analysis is told, under the name
/// by which it is read, and offers all four policies for mixed lines.
pub proof fn law_start_page_offers_every_field(cwd: Seq<char>)
    ensures
        occurs("<input id=\"path\" name=\"path\" type=\"text\""@, index_page(cwd)),
        occurs("<input id=\"output_dir\" name=\"output_dir\" type=\"text\""@, index_page(cwd)),
        occurs("<input id=\"report_title\" name=\"report_title\" type=\"text\""@, index_page(cwd)),
        occurs("<select id=\"mixed_line_policy\" name=\"mixed_line_policy\">"@, index_page(cwd)),
        occurs("<option value=\"code_only\">Code only</option>"@, index_page(cwd)),
        occurs("<option value=\"code_and_comment\">Code and comment</option>"@, index_page(cwd)),
        occurs("<option value=\"comment_only\">Comment only</option>"@, index_page(cwd)),
        occurs(
            "<option value=\"separate_mixed_category\">Separate mixed category</option>"@,
            index_page(cwd),
        ),
        occurs(
            "<input id=\"python_docstrings_as_comments\" name=\"python_docstrings_as_comments\" type=\"checkbox\""@,
            index_page(cwd),
        ),
        occurs("<textarea id=\"include_globs\" name=\"include_globs\""@, index_page(cwd)),
        occurs("<textarea id=\"exclude_globs\" name=\"exclude_globs\""@, index_page(cwd)),
        occurs("<input name=\"generate_html\" type=\"checkbox\""@, index_page(cwd)),
        occurs("<input name=\"generate_pdf\" type=\"checkbox\""@, index_page(cwd)),
        occurs("<input name=\"generate_json\" type=\"checkbox\""@, index_page(cwd)),
{
    broadcast use lemma_occurs_in_sum;

    lemma_occurs_in_itself("<input id=\"path\" name=\"path\" type=\"text\""@);
    lemma_occurs_in_itself("<input id=\"output_dir\" name=\"output_dir\" type=\"text\""@);
    lemma_occurs_in_itself("<input id=\"report_title\" name=\"report_title\" type=\"text\""@);
    lemma_occurs_in_itself("<select id=\"mixed_line_policy\" name=\"mixed_line_policy\">"@);
    lemma_occurs_in_itself("<option value=\"code_only\">Code only</option>"@);
    lemma_occurs_in_itself("<option value=\"code_and_comment\">Code and comment</option>"@);
    lemma_occurs_in_itself("<option value=\"comment_only\">Comment only</option>"@);
    lemma_occurs_in_itself(
        "<option value=\"separate_mixed_category\">Separate mixed category</option>"@,
    );
    lemma_occurs_in_itself(
        "<input id=\"python_docstrings_as_comments\" name=\"python_docstrings_as_comments\" type=\"checkbox\""@,
    );
    lemma_occurs_in_itself("<textarea id=\"include_globs\" name=\"include_globs\""@);
    lemma_occurs_in_itself("<textarea id=\"exclude_globs\" name=\"exclude_globs\""@);
    lemma_occurs_in_itself("<input name=\"generate_html\" type=\"checkbox\""@);
    lemma_occurs_in_itself("<input name=\"generate_pdf\" type=\"checkbox\""@);
    lemma_occurs_in_itself("<input name=\"generate_json\" type=\"checkbox\""@);
}

/// A metric of a page: its label and its number.
pub open spec fn metric_text(label: Seq<char>, n: u64) -> Seq<char> {
    label + decimal_text(n as nat) + "</div>"@
}

/// Behind each label the result page shows the number of that name, and the title, the path and the
/// identifier of the run stand in their places.
pub proof fn law_result_page_shows_each_number(t: ResultView)
    ensures
        occurs("<title>"@ + markup(t.report_title) + "</title>"@, result_page(t)),
        occurs("<h1>"@ + markup(t.report_title) + "</h1>"@, result_page(t)),
        occurs("Web scan complete for <code>"@ + markup(t.project_path) + "</code>"@, result_page(t)),
        occurs(
            metric_text("Files analyzed</div><div class=\"value\">"@, t.files_analyzed),
            result_page(t),
        ),
        occurs(
            metric_text("Files skipped</div><div class=\"value\">"@, t.files_skipped),
            result_page(t),
        ),
        occurs(
            metric_text("Physical lines</div><div class=\"value\">"@, t.physical_lines),
            result_page(t),
        ),
        occurs(metric_text("Code</div><div class=\"value\">"@, t.code_lines), result_page(t)),
        occurs(metric_text("Comments</div><div class=\"value\">"@, t.comment_lines), result_page(t)),
        occurs(metric_text("Blank</div><div class=\"value\">"@, t.blank_lines), result_page(t)),
        occurs(
            metric_text("Mixed separate</div><div class=\"value\">"@, t.mixed_lines),
            result_page(t),
        ),
        occurs(
            "<strong>Run ID</strong>\n          <code>"@ + markup(t.run_id) + "</code>"@,
            result_page(t),
        ),
        occurs(
            "<strong>Output folder</strong>\n          <code>"@ + markup(t.output_dir)
                + "</code>"@,
            result_page(t),
        ),
{
    broadcast use {lemma_occurs_in_sum, lemma_occurs_at_end};

}

/// For each saved file the result page holds a link to its own address and shows its own path, and
/// where a report is saved, it is embedded from its address.
pub proof fn law_result_page_links_each_file(t: ResultView, text: Seq<char>)
    ensures
        t.html_url == Some(text) ==> occurs(
            "\n            <a class=\"button\" href=\""@ + markup(text)
                + "\" target=\"_blank\" rel=\"noopener\">Open HTML report</a>\n          "@,
            result_page(t),
        ),
        t.pdf_url == Some(text) ==> occurs(
            "\n            <a class=\"button\" href=\""@ + markup(text)
                + "\" target=\"_blank\" rel=\"noopener\">Open PDF report</a>\n          "@,
            result_page(t),
        ),
        t.json_url == Some(text) ==> occurs(
            "\n            <a class=\"button secondary\" href=\""@ + markup(text)
                + "\" target=\"_blank\" rel=\"noopener\">Open JSON report</a>\n          "@,
            result_page(t),
        ),
        t.html_path == Some(text) ==> occurs(
            "\n            <div class=\"path-item\">\n              <strong>HTML file</strong>\n              <code>"@
                + markup(text) + "</code>\n            </div>\n          "@,
            result_page(t),
        ),
        t.pdf_path == Some(text) ==> occurs(
            "\n            <div class=\"path-item\">\n              <strong>PDF file</strong>\n              <code>"@
                + markup(text) + "</code>\n            </div>\n          "@,
            result_page(t),
        ),
        t.json_path == Some(text) ==> occurs(
            "\n            <div class=\"path-item\">\n              <strong>JSON file</strong>\n              <code>"@
                + markup(text) + "</code>\n            </div>\n          "@,
            result_page(t),
        ),
        t.has_preview && t.html_url == Some(text) ==> occurs(
            "\n                <iframe src=\""@ + markup(text)
                + "\" title=\"HTML report preview\"></iframe>\n              "@,
            result_page(t),
        ),
        !t.has_preview ==> occurs(
            "\n            <div class=\"empty-preview\">\n              HTML output was not selected for this run, so there is no saved preview artifact to embed here.\n            </div>\n          "@,
            result_page(t),
        ),
{
    broadcast use {lemma_occurs_in_sum, lemma_occurs_in_itself};

}

/// What depends on a value shows that value and nothing else where there is one, and the same text
/// for all absent ones.
pub proof fn law_absent_values_show_nothing(
    value: Seq<char>,
    before: Seq<char>,
    after: Seq<char>,
    otherwise: Seq<char>,
)
    ensures
        optional_html(None, before, after, otherwise) == otherwise,
        optional_html(Some(value), before, after, otherwise) == before + markup(value) + after,
{
}

/// A row shows the name of its language and then its files, its physical lines, its code, its
/// comments, its blank and its mixed lines, each in a cell of its own in this order.
pub proof fn law_summary_row_shows_its_counts(row: CountsView)
    ensures
        summary_row_html(row) == "\n            <tr>\n              <td>"@ + join_texts(
            seq![
                markup(row.language),
                decimal_text(row.files as nat),
                decimal_text(row.physical as nat),
                decimal_text(row.code as nat),
                decimal_text(row.comments as nat),
                decimal_text(row.blank as nat),
                decimal_text(row.mixed as nat),
            ],
            "</td>\n              <td>"@,
        ) + "</td>\n            </tr>\n            "@,
{
    let sep = "</td>\n              <td>"@;
    let end = "</td>\n            </tr>\n            "@;
    let c = seq![
        markup(row.language),
        decimal_text(row.files as nat),
        decimal_text(row.physical as nat),
        decimal_text(row.code as nat),
        decimal_text(row.comments as nat),
        decimal_text(row.blank as nat),
        decimal_text(row.mixed as nat),
    ];
    let start = "\n            <tr>\n              <td>"@;
    lemma_join_seven(c, sep);
    assert(summary_row_html(row) == start + join_texts(c, sep) + end);
}

/// The rows of a table are those of its languages, in their order.
pub proof fn law_summary_rows_follow_the_languages(
    a: Seq<CountsView>,
    b: Seq<CountsView>,
    row: CountsView,
)
    ensures
        summary_rows_html(seq![]) == Seq::<char>::empty(),
        summary_rows_html(seq![row]) == summary_row_html(row),
        summary_rows_html(a + b) == summary_rows_html(a) + summary_rows_html(b),
    decreases b.len(),
{
    let one = seq![row];
    assert(one.drop_last() == Seq::<CountsView>::empty());
    assert(summary_rows_html(one.drop_last()) == Seq::<char>::empty());
    assert(Seq::<char>::empty() + summary_row_html(row) == summary_row_html(row));
    if b.len() == 0 {
        assert(a + b == a);
        assert(summary_rows_html(a) + summary_rows_html(b) == summary_rows_html(a));
    } else {
        law_summary_rows_follow_the_languages(a, b.drop_last(), row);
        assert((a + b).drop_last() == a + b.drop_last());
        assert((a + b).last() == b.last());
        assert(summary_rows_html(a) + (summary_rows_html(b.drop_last()) + summary_row_html(
            b.last(),
        )) == summary_rows_html(a) + summary_rows_html(b.drop_last()) + summary_row_html(
            b.last(),
        ));
    }
}

/// The rows of the result page's table of languages stand together on the page, under their
/// headings.
pub proof fn law_result_page_holds_its_table(t: ResultView)
    ensures
        occurs(
            "<thead>\n            <tr>\n              <th>Language</th>\n              <th>Files</th>\n              <th>Physical</th>\n              <th>Code</th>\n              <th>Comments</th>\n              <th>Blank</th>\n              <th>Mixed</th>\n            </tr>\n          </thead>\n          <tbody>\n            "@
                + summary_rows_html(t.language_rows) + "\n          </tbody>\n        </table>"@,
            result_page(t),
        ),
{
    broadcast use {lemma_occurs_in_sum, lemma_occurs_at_end};

}

/// The links of the result page are those of the saved files and no others, in the order of report,
/// PDF and JSON, and so are the paths that it shows.
pub proof fn law_result_page_links_saved_files_only(t: ResultView)
    ensures
        occurs(
            "</div>\n      </div>\n\n      <div class=\"action-row\">\n        "@ + (match t.html_url {
                Some(url) => "\n            <a class=\"button\" href=\""@ + markup(url)
                    + "\" target=\"_blank\" rel=\"noopener\">Open HTML report</a>\n          "@,
                None => "\n          "@,
            }) + "\n\n        "@ + (match t.pdf_url {
                Some(url) => "\n            <a class=\"button\" href=\""@ + markup(url)
                    + "\" target=\"_blank\" rel=\"noopener\">Open PDF report</a>\n          "@,
                None => "\n          "@,
            }) + "\n\n        "@ + (match t.json_url {
                Some(url) => "\n            <a class=\"button secondary\" href=\""@ + markup(url)
                    + "\" target=\"_blank\" rel=\"noopener\">Open JSON report</a>\n          "@,
                None => "\n          "@,
            })
                + "\n      </div>\n\n      <div class=\"path-list\">\n        <div class=\"path-item\">\n          "@,
            result_page(t),
        ),
        occurs(
            "\n        </div>\n\n        "@ + (match t.html_path {
                Some(path) =>
                    "\n            <div class=\"path-item\">\n              <strong>HTML file</strong>\n              <code>"@
                    + markup(path) + "</code>\n            </div>\n          "@,
                None => "\n          "@,
            }) + "\n\n        "@ + (match t.pdf_path {
                Some(path) =>
                    "\n            <div class=\"path-item\">\n              <strong>PDF file</strong>\n              <code>"@
                    + markup(path) + "</code>\n            </div>\n          "@,
                None => "\n          "@,
            }) + "\n\n        "@ + (match t.json_path {
                Some(path) =>
                    "\n            <div class=\"path-item\">\n              <strong>JSON file</strong>\n              <code>"@
                    + markup(path) + "</code>\n            </div>\n          "@,
                None => "\n          "@,
            }) + RESULT_LANGUAGES@,
            result_page(t),
        ),
{
    broadcast use {lemma_occurs_in_sum, lemma_seven_occur_at_end};

}

/// A row holds what it is made of, each count under its own name.
pub proof fn law_summary_row_holds_its_counts(row: LanguageSummaryRow)
    ensures
        row@.language == row.language@,
        row@.files == row.files,
        row@.physical == row.physical,
        row@.code == row.code,
        row@.comments == row.comments,
        row@.blank == row.blank,
        row@.mixed == row.mixed,
{
}

/// A result holds what it is made of, each part under its own name.
pub proof fn law_result_holds_its_parts(t: ResultTemplate)
    ensures
        t@.report_title == t.report_title@,
        t@.project_path == t.project_path@,
        t@.output_dir == t.output_dir@,
        t@.run_id == t.run_id@,
        t@.files_analyzed == t.files_analyzed,
        t@.files_skipped == t.files_skipped,
        t@.physical_lines == t.physical_lines,
        t@.code_lines == t.code_lines,
        t@.comment_lines == t.comment_lines,
        t@.blank_lines == t.blank_lines,
        t@.mixed_lines == t.mixed_lines,
        t@.html_url == opt_text(t.html_url),
        t@.pdf_url == opt_text(t.pdf_url),
        t@.json_url == opt_text(t.json_url),
        t@.html_path == opt_text(t.html_path),
        t@.pdf_path == opt_text(t.pdf_path),
        t@.json_path == opt_text(t.json_path),
        t@.has_preview == t.has_preview,
{
}

} // verus!

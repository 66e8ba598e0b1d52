//! What an analysis is asked for and what it finds.

use vstd::prelude::*;

verus! {

/// How a line is counted that holds both code and a comment.
#[derive(Clone, Copy, PartialEq, Eq, Structural, Debug)]
pub enum MixedLinePolicy {
    CodeOnly,
    CodeAndComment,
    CommentOnly,
    SeparateMixedCategory,
}

/// Which files an analysis looks at.
pub struct DiscoveryConfig {
    pub root_paths: Vec<String>,
    pub include_globs: Vec<String>,
    pub exclude_globs: Vec<String>,
}

/// How an analysis counts lines.
pub struct AnalysisConfig {
    pub mixed_line_policy: MixedLinePolicy,
    pub python_docstrings_as_comments: bool,
}

/// How the result of an analysis is reported.
pub struct ReportingConfig {
    pub report_title: String,
}

/// Where the web workbench listens.
pub struct WebConfig {
    pub bind_address: String,
}

/// The configuration of an analysis and of the workbench.
pub struct AppConfig {
    pub discovery: DiscoveryConfig,
    pub analysis: AnalysisConfig,
    pub reporting: ReportingConfig,
    pub web: WebConfig,
}

/// Which run of the tool produced a result, and when.
pub struct ToolInfo {
    pub run_id: String,
    pub timestamp_utc: String,
}

/// Where a run took place.
pub struct EnvironmentInfo {
    pub operating_system: String,
    pub architecture: String,
    pub runtime_mode: String,
}

/// The totals of a run.
#[derive(Clone, Copy, PartialEq, Eq, Structural, Debug)]
pub struct SummaryTotals {
    pub files_analyzed: u64,
    pub files_skipped: u64,
    pub total_physical_lines: u64,
    pub code_lines: u64,
    pub comment_lines: u64,
    pub blank_lines: u64,
    pub mixed_lines_separate: u64,
}

/// The totals of one language, under the name by which it is shown.
pub struct LanguageTotals {
    pub language: String,
    pub files: u64,
    pub total_physical_lines: u64,
    pub code_lines: u64,
    pub comment_lines: u64,
    pub blank_lines: u64,
    pub mixed_lines_separate: u64,
}

/// The counts of one language or of one row that shows them.
#[verifier::ext_equal]
pub struct CountsView {
    pub language: Seq<char>,
    pub files: u64,
    pub physical: u64,
    pub code: u64,
    pub comments: u64,
    pub blank: u64,
    pub mixed: u64,
}

impl View for LanguageTotals {
    type V = CountsView;

    open spec fn view(&self) -> CountsView {
        CountsView {
            language: self.language@,
            files: self.files,
            physical: self.total_physical_lines,
            code: self.code_lines,
            comments: self.comment_lines,
            blank: self.blank_lines,
            mixed: self.mixed_lines_separate,
        }
    }
}

/// The counts of each language of a list.
pub open spec fn counts_of(list: Seq<LanguageTotals>) -> Seq<CountsView> {
    list.map_values(|t: LanguageTotals| t@)
}

/// The lines of a file by category, as they stand in it.
#[derive(Clone, Copy, PartialEq, Eq, Structural, Debug)]
pub struct RawLineCategories {
    pub total_physical_lines: u64,
}

/// The lines of a file as they count under the policy of the run.
#[derive(Clone, Copy, PartialEq, Eq, Structural, Debug)]
pub struct EffectiveCounts {
    pub code_lines: u64,
    pub comment_lines: u64,
    pub blank_lines: u64,
    pub mixed_lines_separate: u64,
}

/// What a run found of one file. The language is the name by which it is shown, and the status
/// the name of what became of the file.
pub struct FileRecord {
    pub relative_path: String,
    pub language: Option<String>,
    pub raw_line_categories: RawLineCategories,
    pub effective_counts: EffectiveCounts,
    pub status: String,
    pub warnings: Vec<String>,
}

/// The result of a run.
pub struct AnalysisRun {
    pub tool: ToolInfo,
    pub environment: EnvironmentInfo,
    pub effective_configuration: AppConfig,
    pub summary_totals: SummaryTotals,
    pub totals_by_language: Vec<LanguageTotals>,
    pub per_file_records: Vec<FileRecord>,
    pub skipped_file_records: Vec<FileRecord>,
    pub warnings: Vec<String>,
}

/// The counts of a list of languages are, for each language in turn, its own: its name, its files,
/// and its lines of each kind.
pub proof fn law_counts_are_those_of_the_language(list: Seq<LanguageTotals>, k: int)
    requires
        0 <= k < list.len(),
    ensures
        counts_of(list).len() == list.len(),
        counts_of(list)[k].language == list[k].language@,
        counts_of(list)[k].files == list[k].files,
        counts_of(list)[k].physical == list[k].total_physical_lines,
        counts_of(list)[k].code == list[k].code_lines,
        counts_of(list)[k].comments == list[k].comment_lines,
        counts_of(list)[k].blank == list[k].blank_lines,
        counts_of(list)[k].mixed == list[k].mixed_lines_separate,
{
}

} // verus!

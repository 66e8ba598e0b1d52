//! The page that shows what a scan of a directory would most likely count.

use vstd::prelude::*;

use crate::html::{escape_html, escaped};
use crate::text::{lemma_occurs_at_end, lemma_occurs_in_itself, lemma_occurs_in_sum, occurs};
use crate::tree::{
    write_directory, Files, Limits, PreviewBudget, TreeFailure, TreeText, TreeWalk,
};

verus! {

/// How many entries a preview shows at most.
pub const MAX_ENTRIES: usize = 220;

/// How many levels deep a preview goes at most.
pub const MAX_DEPTH: usize = 4;

/// What is known of a directory before its preview is built.
pub struct PreviewRequest {
    /// Whether the path exists.
    pub exists: bool,
    /// The path as it is shown.
    pub root: String,
    /// The last component of the path, where it has one that is valid text.
    pub root_name: Option<String>,
    /// The working directory as it is shown.
    pub working_dir: String,
    /// Whether the directory holds a `.gitmodules` file.
    pub has_gitmodules: bool,
    /// The reader's handle for the directory.
    pub root_id: u64,
}

/// A preview that has been begun: done already, or waiting for its tree to be walked.
pub enum Preview {
    Done(String),
    Walking(TreeWalk),
}

/// The page for a path that does not exist.
pub open spec fn missing_page(root: Seq<char>) -> Seq<char> {
    "<div class=\"preview-error\">Path does not exist: <code>"@ + escaped(root)
        + "</code></div>"@
}

/// The name under which the root of the tree is shown.
pub open spec fn shown_root_name(request: PreviewRequest) -> Seq<char> {
    match request.root_name {
        Some(name) => name@,
        None => request.root@,
    }
}

/// The hint for a directory that holds a `.gitmodules` file.
pub open spec fn workspace_hint(has_gitmodules: bool) -> Seq<char> {
    if has_gitmodules {
        "<div class=\"preview-note preview-note-warn\"><strong>Workspace hint:</strong> a <code>.gitmodules</code> file was detected here. This path looks like a good candidate for future workspace/submodule mode, where each submodule becomes its own project report.</div>"@
    } else {
        seq![]
    }
}

/// All that stands before the tree's first entry.
pub open spec fn preview_head(request: PreviewRequest) -> Seq<char> {
    "<div class=\"preview-head\">"@
        + "<div><strong>Working OxideSLOC directory</strong><div class=\"preview-code\">"@
        + escaped(request.working_dir@) + "</div></div>"@
        + "<div style=\"margin-top:10px\"><strong>Selected project path</strong><div class=\"preview-code\">"@
        + escaped(request.root@) + "</div></div>"@ + "</div>"@
        + "<div class=\"preview-legend\">"@
        + "<span class=\"badge badge-scan\">likely scanned</span>"@
        + "<span class=\"badge badge-skip\">skipped by default</span>"@
        + "<span class=\"badge badge-unsupported\">unsupported</span>"@ + "</div>"@
        + workspace_hint(request.has_gitmodules)
        + "<div class=\"preview-note\">This preview is heuristic. It highlights what the current build is most likely to scan by default, but final results still depend on ignore rules, globs, generated/minified detection, and supported language analyzers.</div>"@
        + "<div class=\"tree-shell\"><pre class=\"tree\">"@ + "<span class=\"entry entry-dir\">"@
        + escaped(shown_root_name(request)) + "/</span>"@
}

/// The page around a tree that has been written.
pub open spec fn preview_page(tree: TreeText, max_entries: nat) -> Seq<char> {
    if tree.shown >= max_entries {
        tree.out
            + "\n<span class=\"entry entry-more\">... preview truncated for readability ...</span>"@
            + "</pre></div>"@
    } else {
        tree.out + "</pre></div>"@
    }
}

/// The limits of a preview.
pub open spec fn preview_limits() -> Limits {
    Limits { max_entries: MAX_ENTRIES as nat, max_depth: MAX_DEPTH as nat }
}

/// The preview of a directory over the given file system: its page, or the message of the first
/// directory that cannot be read.
pub open spec fn preview_of(request: PreviewRequest, files: Files) -> Result<Seq<char>, Seq<char>> {
    if !request.exists {
        Ok(missing_page(request.root@))
    } else {
        match write_directory(
            files,
            preview_limits(),
            request.root_id,
            0,
            TreeText { shown: 0, out: preview_head(request) },
        ) {
            Err(failure) => Err(failure.message),
            Ok(tree) => Ok(preview_page(tree, MAX_ENTRIES as nat)),
        }
    }
}

/// What a preview comes to over the given file system.
pub open spec fn preview_outcome(preview: Preview, files: Files) -> Result<Seq<char>, Seq<char>> {
    match preview {
        Preview::Done(page) => Ok(page@),
        Preview::Walking(walk) => match walk.outcome(files) {
            Err(failure) => Err(failure.message),
            Ok(tree) => Ok(preview_page(tree, walk.limits().max_entries)),
        },
    }
}

/// Begins the preview of a directory.
pub fn begin_preview(request: &PreviewRequest) -> (r: Preview)
    ensures
        r is Done <==> !request.exists,
        r matches Preview::Walking(walk) ==> walk.well_formed() && walk.awaiting() == Some(
            request.root_id,
        ) && walk.limits() == preview_limits(),
        forall|files: Files| #[trigger]
            preview_outcome(r, files) == preview_of(*request, files),
{
    let root = escape_html(request.root.as_str());
    if !request.exists {
        let mut page = "<div class=\"preview-error\">Path does not exist: <code>".to_owned();
        page.append(root.as_str());
        page.append("</code></div>");
        return Preview::Done(page);
    }
    let working_dir = escape_html(request.working_dir.as_str());
    let root_name = match &request.root_name {
        Some(name) => escape_html(name.as_str()),
        None => escape_html(request.root.as_str()),
    };
    let mut out = "<div class=\"preview-head\">".to_owned();
    out.append("<div><strong>Working OxideSLOC directory</strong><div class=\"preview-code\">");
    out.append(working_dir.as_str());
    out.append("</div></div>");
    out.append(
        "<div style=\"margin-top:10px\"><strong>Selected project path</strong><div class=\"preview-code\">",
    );
    out.append(root.as_str());
    out.append("</div></div>");
    out.append("</div>");
    out.append("<div class=\"preview-legend\">");
    out.append("<span class=\"badge badge-scan\">likely scanned</span>");
    out.append("<span class=\"badge badge-skip\">skipped by default</span>");
    out.append("<span class=\"badge badge-unsupported\">unsupported</span>");
    out.append("</div>");
    let ghost legend = out@;
    if request.has_gitmodules {
        out.append(
            "<div class=\"preview-note preview-note-warn\"><strong>Workspace hint:</strong> a <code>.gitmodules</code> file was detected here. This path looks like a good candidate for future workspace/submodule mode, where each submodule becomes its own project report.</div>",
        );
    }
    assert(out@ == legend + workspace_hint(request.has_gitmodules));
    out.append(
        "<div class=\"preview-note\">This preview is heuristic. It highlights what the current build is most likely to scan by default, but final results still depend on ignore rules, globs, generated/minified detection, and supported language analyzers.</div>",
    );
    out.append("<div class=\"tree-shell\"><pre class=\"tree\">");
    out.append("<span class=\"entry entry-dir\">");
    out.append(root_name.as_str());
    out.append("/</span>");
    assert(out@ == preview_head(*request));
    Preview::Walking(
        TreeWalk::new(
            out,
            request.root_id,
            PreviewBudget { shown: 0, max_entries: MAX_ENTRIES, max_depth: MAX_DEPTH },
        ),
    )
}

/// Ends a preview whose tree has been walked, and hands out its page.
pub fn finish_preview(walk: TreeWalk) -> (page: String)
    requires
        walk.well_formed(),
        walk.limits() == preview_limits(),
    ensures
        page@ == preview_page(walk.written(), MAX_ENTRIES as nat),
{
    let (text, shown) = walk.finish();
    let mut page = text;
    if shown >= MAX_ENTRIES {
        page.append(
            "\n<span class=\"entry entry-more\">... preview truncated for readability ...</span>",
        );
    }
    page.append("</pre></div>");
    page
}

/// What is shown where the preview of a path failed.
pub open spec fn preview_failure_page(message: Seq<char>) -> Seq<char> {
    "<div class=\"preview-error\">Preview failed: "@ + escaped(message) + "</div>"@
}

/// What is shown where the working directory of a preview could not be found.
pub open spec fn working_dir_failure_page(message: Seq<char>) -> Seq<char> {
    "<div class=\"preview-error\">Failed to resolve current directory: "@ + escaped(message)
        + "</div>"@
}

/// The page for a preview that failed with this message.
pub fn preview_failed(message: &str) -> (page: String)
    ensures
        page@ == preview_failure_page(message@),
{
    let shown = escape_html(message);
    let mut page = "<div class=\"preview-error\">Preview failed: ".to_owned();
    page.append(shown.as_str());
    page.append("</div>");
    page
}

/// The page for a preview whose working directory could not be found, with this message.
pub fn working_dir_failed(message: &str) -> (page: String)
    ensures
        page@ == working_dir_failure_page(message@),
{
    let shown = escape_html(message);
    let mut page = "<div class=\"preview-error\">Failed to resolve current directory: ".to_owned();
    page.append(shown.as_str());
    page.append("</div>");
    page
}

/// The message for a directory that could not be read.
pub fn unreadable_directory(dir: &str) -> (message: String)
    ensures
        message@ == "failed to read directory "@ + dir@,
{
    let mut message = "failed to read directory ".to_owned();
    message.append(dir);
    message
}

/// Driving a walk to its end gives the preview of the directory: where a walk is over and still
/// comes to what the walk came to with which the preview began, its page is the preview.
pub proof fn law_finished_walk_is_the_preview(
    request: PreviewRequest,
    begun: TreeWalk,
    ended: TreeWalk,
    files: Files,
)
    requires
        preview_outcome(Preview::Walking(begun), files) == preview_of(request, files),
        begun.limits() == preview_limits(),
        ended.limits() == preview_limits(),
        ended.outcome(files) == begun.outcome(files),
        ended.outcome(files) == Ok::<TreeText, TreeFailure>(ended.written()),
    ensures
        preview_of(request, files) == Ok::<Seq<char>, Seq<char>>(
            preview_page(ended.written(), MAX_ENTRIES as nat),
        ),
{
}

/// The page of a preview never shows more entries than the limit, and it is marked as cut short
/// exactly where it shows that many.
pub proof fn law_preview_is_bounded(request: PreviewRequest, files: Files)
    requires
        request.exists,
        preview_of(request, files) is Ok,
    ensures
        exists|tree: TreeText|
            tree.shown <= MAX_ENTRIES && preview_head(request).is_prefix_of(tree.out)
                && preview_of(request, files)->Ok_0 == #[trigger] preview_page(
                tree,
                MAX_ENTRIES as nat,
            ),
{
    let st = TreeText { shown: 0, out: preview_head(request) };
    crate::tree::law_tree_stays_within_limits(files, preview_limits(), request.root_id, 0, st);
    let tree = write_directory(files, preview_limits(), request.root_id, 0, st)->Ok_0;
    assert(preview_of(request, files)->Ok_0 == preview_page(tree, MAX_ENTRIES as nat));
}

/// The preview shows the working directory and the selected path under their labels, ends its head
/// with the name of the root, and gives the hint for a workspace where there is a `.gitmodules`.
pub proof fn law_preview_shows_the_request(request: PreviewRequest)
    ensures
        occurs(
            "<div><strong>Working OxideSLOC directory</strong><div class=\"preview-code\">"@ + escaped(
                request.working_dir@,
            ) + "</div></div>"@,
            preview_head(request),
        ),
        occurs(
            "<div style=\"margin-top:10px\"><strong>Selected project path</strong><div class=\"preview-code\">"@
                + escaped(request.root@) + "</div></div>"@,
            preview_head(request),
        ),
        occurs(
            "<span class=\"entry entry-dir\">"@ + escaped(
                match request.root_name {
                    Some(name) => name@,
                    None => request.root@,
                },
            ) + "/</span>"@,
            preview_head(request),
        ),
        request.has_gitmodules ==> occurs(
            "<div class=\"preview-note preview-note-warn\"><strong>Workspace hint:</strong> a <code>.gitmodules</code> file was detected here. This path looks like a good candidate for future workspace/submodule mode, where each submodule becomes its own project report.</div>"@,
            preview_head(request),
        ),
        occurs("<span class=\"badge badge-scan\">likely scanned</span>"@, preview_head(request)),
        occurs("<span class=\"badge badge-skip\">skipped by default</span>"@, preview_head(request)),
        occurs(
            "<span class=\"badge badge-unsupported\">unsupported</span>"@,
            preview_head(request),
        ),
{
    broadcast use {lemma_occurs_in_sum, lemma_occurs_at_end, lemma_occurs_in_itself};

}

/// The hint is all that a `.gitmodules` changes: without it the preview's head is shorter by just
/// that hint.
pub proof fn law_hint_is_all_that_differs(with: PreviewRequest, without: PreviewRequest)
    requires
        with.has_gitmodules,
        without == (PreviewRequest { has_gitmodules: false, ..with }),
    ensures
        preview_head(with).len() == preview_head(without).len()
            + "<div class=\"preview-note preview-note-warn\"><strong>Workspace hint:</strong> a <code>.gitmodules</code> file was detected here. This path looks like a good candidate for future workspace/submodule mode, where each submodule becomes its own project report.</div>"@.len(),
{
}

/// A path that does not exist is answered with its name; else the preview is the tree below the
/// root, cut at 220 entries and 4 levels, with a note exactly where it shows that many, and what
/// cannot be read is reported by its message.
pub proof fn law_preview_is_the_tree(request: PreviewRequest, files: Files)
    ensures
        !request.exists ==> preview_of(request, files) == Ok::<Seq<char>, Seq<char>>(
            "<div class=\"preview-error\">Path does not exist: <code>"@ + escaped(request.root@)
                + "</code></div>"@,
        ),
        request.exists ==> {
            let start = TreeText { shown: 0, out: preview_head(request) };
            let limits = Limits { max_entries: 220, max_depth: 4 };
            match write_directory(files, limits, request.root_id, 0, start) {
                Err(failure) => preview_of(request, files) == Err::<Seq<char>, Seq<char>>(
                    failure.message,
                ),
                Ok(tree) => preview_of(request, files) == Ok::<Seq<char>, Seq<char>>(
                    if tree.shown >= 220 {
                        tree.out
                            + "\n<span class=\"entry entry-more\">... preview truncated for readability ...</span>"@
                            + "</pre></div>"@
                    } else {
                        tree.out + "</pre></div>"@
                    },
                ),
            }
        },
{
}

/// What failed is shown with its whole message, escaped, whatever the message.
pub proof fn law_failures_show_their_message(message: Seq<char>)
    ensures
        preview_failure_page(message) == "<div class=\"preview-error\">Preview failed: "@ + escaped(
            message,
        ) + "</div>"@,
        working_dir_failure_page(message)
            == "<div class=\"preview-error\">Failed to resolve current directory: "@ + escaped(
            message,
        ) + "</div>"@,
{
}

} // verus!

//! The directory tree of the preview, written out entry by entry.
//!
//! The walk does not read directories itself. It asks for the next directory to read and is
//! handed its entries, so that whoever drives it decides how reading is done.

use vstd::prelude::*;

use crate::classify::{classify_dir, classify_file, directory_status, file_status};
use crate::html::{entity, escape_html, escaped};
use crate::order::{
    entry_views, in_order, law_equal_names_keep_their_order, law_listing_rises_by_name,
    lemma_in_order_members, names_rise, same_named, sort_entries, DirEntry, EntryKind, EntryView,
};

verus! {

/// How much of a tree the preview shows: how many entries so far, how many at most, and how
/// many levels deep at most.
#[derive(Clone, Copy, PartialEq, Eq, Structural, Debug)]
pub struct PreviewBudget {
    pub shown: usize,
    pub max_entries: usize,
    pub max_depth: usize,
}

/// What has been written of a tree: how many entries, and the text.
#[verifier::ext_equal]
pub struct TreeText {
    pub shown: nat,
    pub out: Seq<char>,
}

/// A walk that could not be finished: what had been written, and the message of the directory that
/// could not be read.
#[verifier::ext_equal]
pub struct TreeFailure {
    pub tree: TreeText,
    pub message: Seq<char>,
}

/// The most that is shown of a tree: how many entries and how many levels.
#[verifier::ext_equal]
pub struct Limits {
    pub max_entries: nat,
    pub max_depth: nat,
}

/// The directories of a file system by handle: the entries of each in the order in which they
/// are read, or the message with which reading it fails.
pub type Files = spec_fn(u64) -> Result<Seq<EntryView>, Seq<char>>;

/// The indentation of an entry: two spaces for each level.
pub open spec fn indentation(levels: nat) -> Seq<char>
    decreases levels,
{
    if levels == 0 {
        seq![]
    } else {
        indentation((levels - 1) as nat) + "  "@
    }
}

/// The line of a directory that stands `depth` levels below the root.
pub open spec fn directory_line(name: Seq<char>, depth: nat) -> Seq<char> {
    let status = directory_status(name);
    "\n"@ + indentation(depth + 1) + "<span class=\"entry entry-dir "@ + status.css_class + "\">"@
        + escaped(name) + "/ "@ + status.badge_html + "</span>"@
}

/// The line of a file that stands `depth` levels below the root.
pub open spec fn file_line(name: Seq<char>, depth: nat) -> Seq<char> {
    let status = file_status(name);
    "\n"@ + indentation(depth + 1) + "<span class=\"entry "@ + status.css_class + "\">"@ + escaped(
        name,
    ) + " "@ + status.badge_html + "</span>"@
}

/// `st` with one more line.
pub open spec fn with_line(st: TreeText, line: Seq<char>) -> TreeText {
    TreeText { shown: st.shown + 1, out: st.out + line }
}

/// An entry that a tree lists: its name, how many levels below the root it stands, and whether it
/// is a directory.
#[verifier::ext_equal]
pub struct ListedEntry {
    pub name: Seq<char>,
    pub depth: nat,
    pub directory: bool,
}

/// The line of a listed entry.
pub open spec fn entry_line(e: ListedEntry) -> Seq<char> {
    if e.directory {
        directory_line(e.name, e.depth)
    } else {
        file_line(e.name, e.depth)
    }
}

/// The lines of the listed entries, one behind the other.
pub open spec fn entry_lines(list: Seq<ListedEntry>) -> Seq<char>
    decreases list.len(),
{
    if list.len() == 0 {
        seq![]
    } else {
        entry_lines(list.drop_last()) + entry_line(list.last())
    }
}

/// Whether `after` is `before` with exactly the lines of the listed entries behind it, each of
/// them counted.
pub open spec fn grown_by(before: TreeText, after: TreeText, list: Seq<ListedEntry>) -> bool {
    &&& after.out == before.out + entry_lines(list)
    &&& after.shown == before.shown + list.len()
}

/// How many levels lie below `depth`.
pub open spec fn levels_below(limits: Limits, depth: nat) -> nat {
    if depth < limits.max_depth {
        (limits.max_depth - depth) as nat
    } else {
        0
    }
}

/// The text of a tree after the directory `dir`, whose entries stand `depth` levels below the
/// root, has been written; or what had been written before the first directory that could not be
/// read, with its message. Nothing is read below the last level, nor once the most entries are shown.
pub open spec fn write_directory(
    files: Files,
    limits: Limits,
    dir: u64,
    depth: nat,
    st: TreeText,
) -> Result<TreeText, TreeFailure>
    decreases levels_below(limits, depth), 1nat, 0nat,
{
    if depth >= limits.max_depth || st.shown >= limits.max_entries {
        Ok(st)
    } else {
        match files(dir) {
            Err(message) => Err(TreeFailure { tree: st, message }),
            Ok(entries) => write_entries(files, limits, in_order(entries), depth, st),
        }
    }
}

/// The text of a tree after the given entries, `depth` levels below the root, have been written
/// one after the other, each directory followed by what it holds.
pub open spec fn write_entries(
    files: Files,
    limits: Limits,
    entries: Seq<EntryView>,
    depth: nat,
    st: TreeText,
) -> Result<TreeText, TreeFailure>
    decreases levels_below(limits, depth), 0nat, entries.len(),
{
    if entries.len() == 0 || st.shown >= limits.max_entries {
        Ok(st)
    } else {
        let e = entries[0];
        let rest = entries.skip(1);
        match e.kind {
            EntryKind::Directory => {
                let listed = with_line(st, directory_line(e.name, depth));
                if directory_status(e.name).skip_children || depth + 1 >= limits.max_depth {
                    write_entries(files, limits, rest, depth, listed)
                } else {
                    match write_directory(files, limits, e.id, depth + 1, listed) {
                        Err(failure) => Err(failure),
                        Ok(below) => write_entries(files, limits, rest, depth, below),
                    }
                }
            },
            EntryKind::File => write_entries(
                files,
                limits,
                rest,
                depth,
                with_line(st, file_line(e.name, depth)),
            ),
            _ => write_entries(files, limits, rest, depth, st),
        }
    }
}

/// The entries of one directory that are still to be written.
struct Frame {
    entries: Vec<DirEntry>,
    next: usize,
    depth: usize,
}

/// The model of a [`Frame`].
#[verifier::ext_equal]
struct FrameView {
    rest: Seq<EntryView>,
    depth: nat,
}

impl View for Frame {
    type V = FrameView;

    closed spec fn view(&self) -> FrameView {
        FrameView {
            rest: entry_views(self.entries@).skip(self.next as int),
            depth: self.depth as nat,
        }
    }
}

/// The models of the frames of a stack.
spec fn frame_views(frames: Seq<Frame>) -> Seq<FrameView> {
    frames.map_values(|f: Frame| f@)
}

/// The text of a tree after the frames have been written, the last one first.
spec fn unwind(files: Files, limits: Limits, frames: Seq<FrameView>, st: TreeText) -> Result<
    TreeText,
    TreeFailure,
>
    decreases frames.len(),
{
    if frames.len() == 0 {
        Ok(st)
    } else {
        match write_entries(files, limits, frames.last().rest, frames.last().depth, st) {
            Err(failure) => Err(failure),
            Ok(next) => unwind(files, limits, frames.drop_last(), next),
        }
    }
}

/// How many steps the frames still take at most.
spec fn work(frames: Seq<FrameView>) -> nat
    decreases frames.len(),
{
    if frames.len() == 0 {
        0
    } else {
        work(frames.drop_last()) + frames.last().rest.len() + 1
    }
}

/// A directory whose entries the walk is waiting for.
#[derive(Clone, Copy)]
struct Pending {
    dir: u64,
    depth: usize,
}

/// A walk over a directory tree that writes the preview's text.
pub struct TreeWalk {
    out: String,
    budget: PreviewBudget,
    stack: Vec<Frame>,
    pending: Option<Pending>,
}

impl TreeWalk {
    /// What holds of a walk between two calls.
    pub closed spec fn well_formed(self) -> bool {
        &&& forall|i: int|
            0 <= i < self.stack@.len() ==> (#[trigger] self.stack@[i]).next
                <= self.stack@[i].entries@.len() && self.stack@[i].depth < self.budget.max_depth
        &&& self.pending matches Some(p) ==> p.depth < self.budget.max_depth
    }

    /// The limits within which the walk writes.
    pub closed spec fn limits(self) -> Limits {
        Limits {
            max_entries: self.budget.max_entries as nat,
            max_depth: self.budget.max_depth as nat,
        }
    }

    /// What has been written so far.
    pub closed spec fn written(self) -> TreeText {
        TreeText { shown: self.budget.shown as nat, out: self.out@ }
    }

    /// The directory whose entries the walk is waiting for.
    pub closed spec fn awaiting(self) -> Option<u64> {
        match self.pending {
            None => None,
            Some(p) => Some(p.dir),
        }
    }

    /// What the walk comes to over the given directories: all that will have been written, or
    /// what will have been written before the first directory that cannot be read.
    pub closed spec fn outcome(self, files: Files) -> Result<TreeText, TreeFailure> {
        let limits = self.limits();
        let frames = frame_views(self.stack@);
        match self.pending {
            None => unwind(files, limits, frames, self.written()),
            Some(p) => match files(p.dir) {
                Err(message) => Err(TreeFailure { tree: self.written(), message }),
                Ok(entries) => match write_entries(
                    files,
                    limits,
                    in_order(entries),
                    p.depth as nat,
                    self.written(),
                ) {
                    Err(failure) => Err(failure),
                    Ok(next) => unwind(files, limits, frames, next),
                },
            },
        }
    }

    /// A walk over the directory `root`, which writes behind `out`.
    pub fn new(out: String, root: u64, budget: PreviewBudget) -> (walk: TreeWalk)
        ensures
            walk.well_formed(),
            walk.limits() == (Limits {
                max_entries: budget.max_entries as nat,
                max_depth: budget.max_depth as nat,
            }),
            walk.written() == (TreeText { shown: budget.shown as nat, out: out@ }),
            walk.awaiting() == if budget.max_depth > 0 && budget.shown < budget.max_entries {
                Some(root)
            } else {
                None
            },
            forall|files: Files| #[trigger]
                walk.outcome(files) == write_directory(
                    files,
                    walk.limits(),
                    root,
                    0,
                    walk.written(),
                ),
    {
        let pending = if budget.max_depth > 0 && budget.shown < budget.max_entries {
            Some(Pending { dir: root, depth: 0 })
        } else {
            None
        };
        let walk = TreeWalk { out, budget, stack: Vec::new(), pending };
        proof {
            assert(frame_views(walk.stack@) == Seq::<FrameView>::empty());
            assert forall|files: Files| #[trigger]
                walk.outcome(files) == write_directory(
                    files,
                    walk.limits(),
                    root,
                    0,
                    walk.written(),
                ) by {
                reveal_with_fuel(write_directory, 2);
            }
        }
        walk
    }

    /// Hands the walk the entries of the directory that it is waiting for.
    pub fn supply(&mut self, entries: Vec<DirEntry>)
        requires
            old(self).well_formed(),
            old(self).awaiting() is Some,
        ensures
            final(self).well_formed(),
            final(self).limits() == old(self).limits(),
            final(self).written() == old(self).written(),
            final(self).awaiting() is None,
            forall|files: Files|
                files(old(self).awaiting()->0) == Ok::<Seq<EntryView>, Seq<char>>(
                    entry_views(entries@),
                ) ==> #[trigger] final(self).outcome(files) == old(self).outcome(files),
    {
        let ghost before = *self;
        let ghost given = entry_views(entries@);
        if let Some(p) = self.pending {
            let sorted = sort_entries(entries);
            let frame = Frame { entries: sorted, next: 0, depth: p.depth };
            let ghost view = frame@;
            self.pending = None;
            self.stack.push(frame);
            proof {
                assert(view.rest == in_order(given));
                let frames = frame_views(self.stack@);
                assert(frames.last() == view);
                assert(frames.drop_last() == frame_views(before.stack@));
            }
        }
    }

    /// Writes entries until a directory has to be read, and returns that directory's handle;
    /// `None` once the walk is over.
    pub fn advance(&mut self) -> (next: Option<u64>)
        requires
            old(self).well_formed(),
            old(self).awaiting() is None,
        ensures
            final(self).well_formed(),
            final(self).limits() == old(self).limits(),
            next == final(self).awaiting(),
            old(self).written().shown <= final(self).written().shown,
            old(self).written().out.is_prefix_of(final(self).written().out),
            exists|list: Seq<ListedEntry>| #[trigger]
                grown_by(old(self).written(), final(self).written(), list),
            old(self).written().shown <= old(self).limits().max_entries
                ==> final(self).written().shown <= old(self).limits().max_entries,
            forall|files: Files| #[trigger]
                final(self).outcome(files) == old(self).outcome(files),
            next is None ==> forall|files: Files| #[trigger]
                final(self).outcome(files) == Ok::<TreeText, TreeFailure>(final(self).written()),
    {
        let ghost start = *self;
        let ghost mut listed = Seq::<ListedEntry>::empty();
        assert(self.written().out + entry_lines(listed) == self.written().out);
        loop
            invariant
                start == *old(self),
                grown_by(start.written(), self.written(), listed),
                self.well_formed(),
                self.pending is None,
                self.limits() == start.limits(),
                start.written().shown <= self.written().shown,
                start.written().shown <= start.limits().max_entries ==> self.written().shown
                    <= start.limits().max_entries,
                forall|files: Files| #[trigger] self.outcome(files) == start.outcome(files),
            decreases work(frame_views(self.stack@)),
        {
            let ghost before = *self;
            let ghost frames = frame_views(self.stack@);
            match self.stack.pop() {
                None => {
                    proof {
                        assert(frames == Seq::<FrameView>::empty());
                        assert forall|files: Files| #[trigger]
                            self.outcome(files) == before.outcome(files) by {
                            assert(frame_views(self.stack@) == frames);
                        }
                    }
                    return None;
                },
                Some(frame) => {
                    let mut frame = frame;
                    let ghost top = frame@;
                    proof {
                        assert(frames.last() == top);
                        assert(frame_views(self.stack@) == frames.drop_last());
                        assert(before.stack@.last() == frame);
                        assert(forall|i: int|
                            0 <= i < self.stack@.len() ==> self.stack@[i] == before.stack@[i]);
                    }
                    if self.budget.shown >= self.budget.max_entries || frame.next
                        >= frame.entries.len() {
                        proof {
                            assert forall|files: Files| #[trigger]
                                self.outcome(files) == before.outcome(files) by {
                                if frame.next >= frame.entries@.len() {
                                    assert(top.rest == Seq::<EntryView>::empty());
                                }
                            }
                        }
                        continue ;
                    }
                    let depth: usize = frame.depth;
                    let at: usize = frame.next;
                    frame.next = at + 1;
                    let ghost rest = frame@;
                    proof {
                        assert(top.rest[0] == frame.entries@[at as int]@);
                        assert(top.rest.skip(1) == rest.rest);
                    }
                    let kind = frame.entries[at].kind;
                    let id: u64 = frame.entries[at].id;
                    let ghost e = frame.entries@[at as int]@;
                    let mut descend = false;
                    match kind {
                        EntryKind::Directory => {
                            proof {
                                let entry = ListedEntry {
                                    name: e.name,
                                    depth: depth as nat,
                                    directory: true,
                                };
                                lemma_one_more(start.written(), self.written(), listed, entry);
                                listed = listed.push(entry);
                            }
                            let skip = put_directory(
                                &mut self.out,
                                frame.entries[at].name.as_str(),
                                depth,
                            );
                            self.budget.shown = self.budget.shown + 1;
                            descend = !skip && depth + 1 < self.budget.max_depth
                                && self.budget.shown < self.budget.max_entries;
                        },
                        EntryKind::File => {
                            proof {
                                let entry = ListedEntry {
                                    name: e.name,
                                    depth: depth as nat,
                                    directory: false,
                                };
                                lemma_one_more(start.written(), self.written(), listed, entry);
                                listed = listed.push(entry);
                            }
                            put_file(&mut self.out, frame.entries[at].name.as_str(), depth);
                            self.budget.shown = self.budget.shown + 1;
                        },
                        _ => {},
                    }
                    self.stack.push(frame);
                    proof {
                        let now = frame_views(self.stack@);
                        assert(now.last() == rest);
                        assert(now.drop_last() == frames.drop_last());
                        assert(self.stack@.last() == frame);
                    }
                    if descend {
                        self.pending = Some(Pending { dir: id, depth: depth + 1 });
                        proof {
                            assert forall|files: Files| #[trigger]
                                self.outcome(files) == before.outcome(files) by {
                                lemma_step(files, before.limits(), top, before.written());
                            }
                        }
                        return Some(id);
                    }
                    proof {
                        assert forall|files: Files| #[trigger]
                            self.outcome(files) == before.outcome(files) by {
                            lemma_step(files, before.limits(), top, before.written());
                        }
                    }
                },
            }
        }
    }

    /// Ends a walk that waits for nothing, and hands out its text and how many entries it shows.
    pub fn finish(self) -> (r: (String, usize))
        ensures
            r.0@ == self.written().out,
            r.1 == self.written().shown,
    {
        (self.out, self.budget.shown)
    }
}

/// One more line is one more listed entry.
proof fn lemma_one_more(before: TreeText, now: TreeText, list: Seq<ListedEntry>, e: ListedEntry)
    requires
        grown_by(before, now, list),
    ensures
        grown_by(before, with_line(now, entry_line(e)), list.push(e)),
{
    assert(list.push(e).drop_last() == list);
    assert(before.out + entry_lines(list) + entry_line(e) == before.out + (entry_lines(list)
        + entry_line(e)));
}

/// What grew by one list and then by another grew by both.
proof fn lemma_grown_twice(
    a: TreeText,
    b: TreeText,
    c: TreeText,
    first: Seq<ListedEntry>,
    second: Seq<ListedEntry>,
)
    requires
        grown_by(a, b, first),
        grown_by(b, c, second),
    ensures
        grown_by(a, c, first + second),
    decreases second.len(),
{
    if second.len() == 0 {
        assert(first + second == first);
        assert(b.out + entry_lines(second) == b.out);
    } else {
        let rest = second.drop_last();
        let mid = TreeText { shown: b.shown + rest.len(), out: b.out + entry_lines(rest) };
        lemma_grown_twice(a, b, mid, first, rest);
        lemma_one_more(a, mid, first + rest, second.last());
        assert((first + rest).push(second.last()) == first + second);
        assert(b.out + entry_lines(second) == mid.out + entry_line(second.last()));
    }
}

/// What the first entry of a frame adds.
proof fn lemma_step(files: Files, limits: Limits, top: FrameView, st: TreeText)
    requires
        top.rest.len() > 0,
        st.shown < limits.max_entries,
        top.depth < limits.max_depth,
    ensures
        ({
            let e = top.rest[0];
            let whole = write_entries(files, limits, top.rest, top.depth, st);
            let rest = top.rest.skip(1);
            match e.kind {
                EntryKind::Directory => {
                    let listed = with_line(st, directory_line(e.name, top.depth));
                    if directory_status(e.name).skip_children || top.depth + 1 >= limits.max_depth
                        || listed.shown >= limits.max_entries {
                        whole == write_entries(files, limits, rest, top.depth, listed)
                    } else {
                        whole == match files(e.id) {
                            Err(message) => Err(TreeFailure { tree: listed, message }),
                            Ok(entries) => match write_entries(
                                files,
                                limits,
                                in_order(entries),
                                top.depth + 1,
                                listed,
                            ) {
                                Err(failure) => Err(failure),
                                Ok(below) => write_entries(files, limits, rest, top.depth, below),
                            },
                        }
                    }
                },
                EntryKind::File => whole == write_entries(
                    files,
                    limits,
                    rest,
                    top.depth,
                    with_line(st, file_line(e.name, top.depth)),
                ),
                _ => whole == write_entries(files, limits, rest, top.depth, st),
            }
        }),
{
    reveal_with_fuel(write_directory, 2);
    reveal_with_fuel(write_entries, 2);
}

/// Appends the indentation of an entry.
fn put_indentation(out: &mut String, levels: usize)
    ensures
        final(out)@ == old(out)@ + indentation(levels as nat),
{
    let ghost given = out@;
    let mut i: usize = 0;
    assert(given + indentation(0) == given);
    while i < levels
        invariant
            i <= levels,
            out@ == given + indentation(i as nat),
        decreases levels - i,
    {
        out.append("  ");
        i = i + 1;
        assert(given + indentation((i - 1) as nat) + "  "@ == given + indentation(i as nat));
    }
}

/// Appends the line of a directory, and returns whether what it holds is left out.
fn put_directory(out: &mut String, name: &str, depth: usize) -> (skip: bool)
    requires
        depth < usize::MAX,
    ensures
        final(out)@ == old(out)@ + directory_line(name@, depth as nat),
        skip == directory_status(name@).skip_children,
{
    let status = classify_dir(name);
    let shown = escape_html(name);
    let ghost given = out@;
    out.append("\n");
    put_indentation(out, depth + 1);
    out.append("<span class=\"entry entry-dir ");
    out.append(status.css_class);
    out.append("\">");
    out.append(shown.as_str());
    out.append("/ ");
    out.append(status.badge_html);
    out.append("</span>");
    assert(status@ == directory_status(name@));
    assert(out@ == given + directory_line(name@, depth as nat));
    status.skip_children
}

/// Appends the line of a file.
fn put_file(out: &mut String, name: &str, depth: usize)
    requires
        depth < usize::MAX,
    ensures
        final(out)@ == old(out)@ + file_line(name@, depth as nat),
{
    let status = classify_file(name);
    let shown = escape_html(name);
    let ghost given = out@;
    out.append("\n");
    put_indentation(out, depth + 1);
    out.append("<span class=\"entry ");
    out.append(status.css_class);
    out.append("\">");
    out.append(shown.as_str());
    out.append(" ");
    out.append(status.badge_html);
    out.append("</span>");
    assert(status@ == file_status(name@));
    assert(out@ == given + file_line(name@, depth as nat));
}

/// A walk that waits for a directory which cannot be read comes to that directory's message, and
/// keeps all that it has written.
pub proof fn law_unreadable_directory_ends_walk(walk: TreeWalk, files: Files)
    requires
        walk.awaiting() is Some,
        files(walk.awaiting()->0) is Err,
    ensures
        walk.outcome(files) == Err::<TreeText, TreeFailure>(
            TreeFailure { tree: walk.written(), message: files(walk.awaiting()->0)->Err_0 },
        ),
{
}

/// What has been written of a tree at the end, whether or not all of it could be read.
pub open spec fn written_of(outcome: Result<TreeText, TreeFailure>) -> TreeText {
    match outcome {
        Ok(tree) => tree,
        Err(failure) => failure.tree,
    }
}

/// Whether a name stands on one line.
pub open spec fn on_one_line(name: Seq<char>) -> bool {
    !name.contains('\n')
}

/// Whether the names of all entries of all directories that can be read stand on one line.
pub open spec fn names_on_one_line(files: Files) -> bool {
    forall|dir: u64, i: int|
        files(dir) is Ok && 0 <= i < files(dir)->Ok_0.len() ==> on_one_line(
            (#[trigger] files(dir)->Ok_0[i]).name,
        )
}

/// Whether the names of all listed entries stand on one line.
pub open spec fn list_on_one_line(list: Seq<ListedEntry>) -> bool {
    forall|i: int| 0 <= i < list.len() ==> on_one_line((#[trigger] list[i]).name)
}

/// What writing a tree may do to what was written before, on any file system.
spec fn is_growth(files: Files, limits: Limits, before: TreeText, after: TreeText) -> bool {
    &&& before.shown <= limits.max_entries ==> after.shown <= limits.max_entries
    &&& exists|list: Seq<ListedEntry>| #[trigger]
        grown_by(before, after, list) && (names_on_one_line(files) ==> list_on_one_line(list))
}

proof fn lemma_no_growth(files: Files, limits: Limits, st: TreeText)
    ensures
        is_growth(files, limits, st, st),
{
    let none = Seq::<ListedEntry>::empty();
    assert(st.out + entry_lines(none) == st.out);
    assert(grown_by(st, st, none));
}

proof fn lemma_growth_of_line(files: Files, limits: Limits, st: TreeText, e: ListedEntry)
    requires
        st.shown < limits.max_entries,
        names_on_one_line(files) ==> on_one_line(e.name),
    ensures
        is_growth(files, limits, st, with_line(st, entry_line(e))),
{
    let none = Seq::<ListedEntry>::empty();
    assert(st.out + entry_lines(none) == st.out);
    lemma_one_more(st, st, none, e);
    assert(grown_by(st, with_line(st, entry_line(e)), none.push(e)));
}

proof fn lemma_growth_twice(files: Files, limits: Limits, a: TreeText, b: TreeText, c: TreeText)
    requires
        is_growth(files, limits, a, b),
        is_growth(files, limits, b, c),
    ensures
        is_growth(files, limits, a, c),
{
    let first = choose|list: Seq<ListedEntry>| #[trigger]
        grown_by(a, b, list) && (names_on_one_line(files) ==> list_on_one_line(list));
    let second = choose|list: Seq<ListedEntry>| #[trigger]
        grown_by(b, c, list) && (names_on_one_line(files) ==> list_on_one_line(list));
    lemma_grown_twice(a, b, c, first, second);
    assert(grown_by(a, c, first + second));
}

proof fn lemma_directory_grows(files: Files, limits: Limits, dir: u64, depth: nat, st: TreeText)
    ensures
        is_growth(files, limits, st, written_of(write_directory(files, limits, dir, depth, st))),
    decreases levels_below(limits, depth), 1nat, 0nat,
{
    lemma_no_growth(files, limits, st);
    if depth < limits.max_depth && st.shown < limits.max_entries {
        if let Ok(entries) = files(dir) {
            let sorted = in_order(entries);
            assert forall|i: int| names_on_one_line(files) && 0 <= i < sorted.len() implies
                on_one_line((#[trigger] sorted[i]).name) by {
                lemma_in_order_members(entries, i);
                let j = choose|j: int| 0 <= j < entries.len() && sorted[i] == #[trigger] entries[j];
                assert(on_one_line(files(dir)->Ok_0[j].name));
            }
            lemma_entries_grow(files, limits, sorted, depth, st);
        }
    }
}

proof fn lemma_entries_grow(
    files: Files,
    limits: Limits,
    entries: Seq<EntryView>,
    depth: nat,
    st: TreeText,
)
    requires
        names_on_one_line(files) ==> forall|i: int|
            0 <= i < entries.len() ==> on_one_line((#[trigger] entries[i]).name),
    ensures
        is_growth(files, limits, st, written_of(write_entries(files, limits, entries, depth, st))),
    decreases levels_below(limits, depth), 0nat, entries.len(),
{
    lemma_no_growth(files, limits, st);
    if entries.len() > 0 && st.shown < limits.max_entries {
        let e = entries[0];
        let rest = entries.skip(1);
        let end = written_of(write_entries(files, limits, entries, depth, st));
        match e.kind {
            EntryKind::Directory => {
                let entry = ListedEntry { name: e.name, depth, directory: true };
                let listed = with_line(st, directory_line(e.name, depth));
                lemma_growth_of_line(files, limits, st, entry);
                if directory_status(e.name).skip_children || depth + 1 >= limits.max_depth {
                    lemma_entries_grow(files, limits, rest, depth, listed);
                    lemma_growth_twice(files, limits, st, listed, end);
                } else {
                    let inner = write_directory(files, limits, e.id, depth + 1, listed);
                    lemma_directory_grows(files, limits, e.id, depth + 1, listed);
                    lemma_growth_twice(files, limits, st, listed, written_of(inner));
                    if let Ok(below) = inner {
                        lemma_entries_grow(files, limits, rest, depth, below);
                        lemma_growth_twice(files, limits, st, below, end);
                    }
                }
            },
            EntryKind::File => {
                let entry = ListedEntry { name: e.name, depth, directory: false };
                let listed = with_line(st, file_line(e.name, depth));
                lemma_growth_of_line(files, limits, st, entry);
                lemma_entries_grow(files, limits, rest, depth, listed);
                lemma_growth_twice(files, limits, st, listed, end);
            },
            _ => {
                lemma_entries_grow(files, limits, rest, depth, st);
            },
        }
    }
}

/// A tree never shows more entries than the limit allows, and never drops what was written,
/// whether or not all of it could be read.
pub proof fn law_tree_stays_within_limits(
    files: Files,
    limits: Limits,
    dir: u64,
    depth: nat,
    st: TreeText,
)
    requires
        st.shown <= limits.max_entries,
    ensures
        ({
            let end = written_of(write_directory(files, limits, dir, depth, st));
            st.shown <= end.shown <= limits.max_entries && st.out.is_prefix_of(end.out)
        }),
{
    lemma_directory_grows(files, limits, dir, depth, st);
    let end = written_of(write_directory(files, limits, dir, depth, st));
    let list = choose|list: Seq<ListedEntry>| #[trigger] grown_by(st, end, list);
    assert(st.out.is_prefix_of(st.out + entry_lines(list)));
}

/// The count of shown entries grows by exactly the number of entry lines that are written, and
/// nothing but such lines is written, whether or not all of the tree could be read.
pub proof fn law_tree_counts_its_lines(
    files: Files,
    limits: Limits,
    dir: u64,
    depth: nat,
    st: TreeText,
)
    ensures
        exists|list: Seq<ListedEntry>| #[trigger]
            grown_by(st, written_of(write_directory(files, limits, dir, depth, st)), list),
{
    lemma_directory_grows(files, limits, dir, depth, st);
}

/// How many line feeds a text holds.
pub open spec fn line_feeds(s: Seq<char>) -> nat
    decreases s.len(),
{
    if s.len() == 0 {
        0
    } else {
        line_feeds(s.drop_last()) + if s.last() == '\n' {
            1nat
        } else {
            0
        }
    }
}

proof fn lemma_line_feeds_sum(a: Seq<char>, b: Seq<char>)
    ensures
        line_feeds(a + b) == line_feeds(a) + line_feeds(b),
    decreases b.len(),
{
    if b.len() == 0 {
        assert(a + b == a);
    } else {
        assert((a + b).drop_last() == a + b.drop_last());
        lemma_line_feeds_sum(a, b.drop_last());
    }
}

proof fn lemma_no_line_feeds(s: Seq<char>)
    requires
        forall|i: int| 0 <= i < s.len() ==> #[trigger] s[i] != '\n',
    ensures
        line_feeds(s) == 0,
    decreases s.len(),
{
    if s.len() > 0 {
        lemma_no_line_feeds(s.drop_last());
    }
}

proof fn lemma_indentation_feeds(levels: nat)
    ensures
        line_feeds(indentation(levels)) == 0,
    decreases levels,
{
    if levels > 0 {
        lemma_indentation_feeds((levels - 1) as nat);
        reveal_strlit("  ");
        lemma_no_line_feeds("  "@);
        lemma_line_feeds_sum(indentation((levels - 1) as nat), "  "@);
    }
}

/// Escaping adds no line feeds.
proof fn lemma_escaped_feeds(name: Seq<char>)
    ensures
        line_feeds(escaped(name)) == line_feeds(name),
    decreases name.len(),
{
    if name.len() > 0 {
        let c = name.last();
        let shown = entity(c, "&#39;"@);
        lemma_escaped_feeds(name.drop_last());
        lemma_line_feeds_sum(escaped(name.drop_last()), shown);
        reveal_strlit("&amp;");
        reveal_strlit("&lt;");
        reveal_strlit("&gt;");
        reveal_strlit("&quot;");
        reveal_strlit("&#39;");
        if c == '\n' {
            assert(shown.drop_last() == Seq::<char>::empty());
            reveal_with_fuel(line_feeds, 2);
        } else {
            lemma_no_line_feeds(shown);
        }
    }
}

/// The line of an entry whose name stands on one line holds one line feed, at its start.
proof fn lemma_one_line(e: ListedEntry)
    requires
        on_one_line(e.name),
    ensures
        line_feeds(entry_line(e)) == 1,
{
    let status = if e.directory {
        directory_status(e.name)
    } else {
        file_status(e.name)
    };
    let open = if e.directory {
        "<span class=\"entry entry-dir "@
    } else {
        "<span class=\"entry "@
    };
    let gap = if e.directory {
        "/ "@
    } else {
        " "@
    };
    reveal_strlit("\n");
    reveal_strlit("<span class=\"entry entry-dir ");
    reveal_strlit("<span class=\"entry ");
    reveal_strlit("\">");
    reveal_strlit("/ ");
    reveal_strlit(" ");
    reveal_strlit("</span>");
    reveal_strlit("");
    reveal_strlit("entry-skip");
    reveal_strlit("entry-scan");
    reveal_strlit("entry-unsupported");
    reveal_strlit("<span class=\"badge badge-skip\">skipped by default</span>");
    reveal_strlit("<span class=\"badge badge-dir\">dir</span>");
    reveal_strlit("<span class=\"badge badge-scan\">likely scanned</span>");
    reveal_strlit("<span class=\"badge badge-unsupported\">unsupported</span>");
    assert("\n"@.drop_last() == Seq::<char>::empty());
    assert(line_feeds("\n"@) == 1) by {
        reveal_with_fuel(line_feeds, 2);
    }
    assert forall|i: int| 0 <= i < e.name.len() implies #[trigger] e.name[i] != '\n' by {
        assert(e.name.contains(e.name[i]));
    }
    lemma_no_line_feeds(e.name);
    lemma_escaped_feeds(e.name);
    lemma_indentation_feeds(e.depth + 1);
    lemma_no_line_feeds(open);
    lemma_no_line_feeds(gap);
    lemma_no_line_feeds(status.css_class);
    lemma_no_line_feeds(status.badge_html);
    lemma_no_line_feeds("\">"@);
    lemma_no_line_feeds("</span>"@);
    let p1 = "\n"@ + indentation(e.depth + 1);
    let p2 = p1 + open;
    let p3 = p2 + status.css_class;
    let p4 = p3 + "\">"@;
    let p5 = p4 + escaped(e.name);
    let p6 = p5 + gap;
    let p7 = p6 + status.badge_html;
    lemma_line_feeds_sum("\n"@, indentation(e.depth + 1));
    lemma_line_feeds_sum(p1, open);
    lemma_line_feeds_sum(p2, status.css_class);
    lemma_line_feeds_sum(p3, "\">"@);
    lemma_line_feeds_sum(p4, escaped(e.name));
    lemma_line_feeds_sum(p5, gap);
    lemma_line_feeds_sum(p6, status.badge_html);
    lemma_line_feeds_sum(p7, "</span>"@);
    assert(entry_line(e) == p7 + "</span>"@);
}

proof fn lemma_lines_feeds(list: Seq<ListedEntry>)
    requires
        list_on_one_line(list),
    ensures
        line_feeds(entry_lines(list)) == list.len(),
    decreases list.len(),
{
    if list.len() > 0 {
        assert(on_one_line(list[list.len() - 1].name));
        assert forall|i: int| 0 <= i < list.len() - 1 implies on_one_line(
            (#[trigger] list.drop_last()[i]).name,
        ) by {
            assert(on_one_line(list[i].name));
        }
        lemma_lines_feeds(list.drop_last());
        lemma_one_line(list.last());
        lemma_line_feeds_sum(entry_lines(list.drop_last()), entry_line(list.last()));
    }
}

/// Where no name holds a line feed, the text gains one line feed for each entry that is shown,
/// whether or not all of the tree could be read.
pub proof fn law_one_line_for_each_entry(
    files: Files,
    limits: Limits,
    dir: u64,
    depth: nat,
    st: TreeText,
)
    requires
        names_on_one_line(files),
    ensures
        ({
            let end = written_of(write_directory(files, limits, dir, depth, st));
            line_feeds(end.out) - line_feeds(st.out) == end.shown - st.shown
        }),
{
    lemma_directory_grows(files, limits, dir, depth, st);
    let end = written_of(write_directory(files, limits, dir, depth, st));
    let list = choose|list: Seq<ListedEntry>| #[trigger]
        grown_by(st, end, list) && (names_on_one_line(files) ==> list_on_one_line(list));
    lemma_lines_feeds(list);
    lemma_line_feeds_sum(st.out, entry_lines(list));
}

/// Of a directory that is left out by default only its own line is shown: the tree goes on
/// with the entry behind it, whatever the directory holds and whether or not it can be read.
pub proof fn law_skipped_directory_shows_one_line(
    files: Files,
    limits: Limits,
    e: EntryView,
    rest: Seq<EntryView>,
    depth: nat,
    st: TreeText,
)
    requires
        e.kind == EntryKind::Directory,
        directory_status(e.name).skip_children,
        st.shown < limits.max_entries,
    ensures
        write_entries(files, limits, seq![e] + rest, depth, st) == write_entries(
            files,
            limits,
            rest,
            depth,
            with_line(st, directory_line(e.name, depth)),
        ),
{
    assert((seq![e] + rest).skip(1) == rest);
}

/// Nothing below the last level is read: the entries of a directory on the last level come out
/// the same over any two file systems.
pub proof fn law_last_level_reads_nothing(
    files: Files,
    other: Files,
    limits: Limits,
    entries: Seq<EntryView>,
    depth: nat,
    st: TreeText,
)
    requires
        depth + 1 >= limits.max_depth,
    ensures
        write_entries(files, limits, entries, depth, st) == write_entries(
            other,
            limits,
            entries,
            depth,
            st,
        ),
    decreases entries.len(),
{
    if entries.len() > 0 && st.shown < limits.max_entries {
        let e = entries[0];
        let rest = entries.skip(1);
        let next = match e.kind {
            EntryKind::Directory => with_line(st, directory_line(e.name, depth)),
            EntryKind::File => with_line(st, file_line(e.name, depth)),
            _ => st,
        };
        law_last_level_reads_nothing(files, other, limits, rest, depth, next);
    }
}

/// The indentation of an entry is two spaces for each level, and nothing else.
pub proof fn law_indentation_is_two_spaces_a_level(levels: nat)
    ensures
        indentation(levels) == Seq::new(2 * levels, |i: int| ' '),
    decreases levels,
{
    if levels > 0 {
        law_indentation_is_two_spaces_a_level((levels - 1) as nat);
        reveal_strlit("  ");
        assert(indentation(levels) == Seq::new(2 * levels, |i: int| ' '));
    } else {
        assert(indentation(levels) == Seq::new(2 * levels, |i: int| ' '));
    }
}

/// The line of an entry is a line feed, two spaces for each level down to the entry, and a span that
/// holds the escaped name, behind a directory's a slash, and the badge by which an entry of that name
/// is marked, under its class.
pub proof fn law_lines_show_their_entry(name: Seq<char>, depth: nat)
    ensures
        file_line(name, depth) == "\n"@ + Seq::new(2 * (depth + 1), |i: int| ' ')
            + "<span class=\"entry "@ + file_status(name).css_class + "\">"@ + escaped(name) + " "@
            + file_status(name).badge_html + "</span>"@,
        directory_line(name, depth) == "\n"@ + Seq::new(2 * (depth + 1), |i: int| ' ')
            + "<span class=\"entry entry-dir "@ + directory_status(name).css_class + "\">"@ + escaped(
            name,
        ) + "/ "@ + directory_status(name).badge_html + "</span>"@,
{
    law_indentation_is_two_spaces_a_level(depth + 1);
}

/// Entries are written one after the other: writing two lists is writing the first, and then the
/// second behind it, unless a directory of the first cannot be read.
pub proof fn law_entries_are_written_in_turn(
    files: Files,
    limits: Limits,
    a: Seq<EntryView>,
    b: Seq<EntryView>,
    depth: nat,
    st: TreeText,
)
    ensures
        write_entries(files, limits, a + b, depth, st) == match write_entries(
            files,
            limits,
            a,
            depth,
            st,
        ) {
            Err(failure) => Err(failure),
            Ok(next) => write_entries(files, limits, b, depth, next),
        },
    decreases a.len(),
{
    if a.len() == 0 {
        assert(a + b == b);
    } else if st.shown < limits.max_entries {
        let e = a[0];
        let rest = a.skip(1);
        assert((a + b)[0] == e);
        assert((a + b).skip(1) == rest + b);
        let listed = with_line(st, directory_line(e.name, depth));
        match e.kind {
            EntryKind::Directory => {
                if directory_status(e.name).skip_children || depth + 1 >= limits.max_depth {
                    law_entries_are_written_in_turn(files, limits, rest, b, depth, listed);
                } else if let Ok(below) = write_directory(
                    files,
                    limits,
                    e.id,
                    depth + 1,
                    listed,
                ) {
                    law_entries_are_written_in_turn(files, limits, rest, b, depth, below);
                }
            },
            EntryKind::File => {
                let next = with_line(st, file_line(e.name, depth));
                law_entries_are_written_in_turn(files, limits, rest, b, depth, next);
            },
            _ => {
                law_entries_are_written_in_turn(files, limits, rest, b, depth, st);
            },
        }
    }
}

/// A file adds its line and counts for one; an entry that is neither file nor directory, or whose
/// kind is not known, adds nothing; and once the most entries are shown nothing is added.
pub proof fn law_single_entries(
    files: Files,
    limits: Limits,
    e: EntryView,
    depth: nat,
    st: TreeText,
)
    ensures
        e.kind == EntryKind::File && st.shown < limits.max_entries ==> write_entries(
            files,
            limits,
            seq![e],
            depth,
            st,
        ) == Ok::<TreeText, TreeFailure>(
            TreeText { shown: st.shown + 1, out: st.out + file_line(e.name, depth) },
        ),
        e.kind == EntryKind::Other || e.kind == EntryKind::Unknown ==> write_entries(
            files,
            limits,
            seq![e],
            depth,
            st,
        ) == Ok::<TreeText, TreeFailure>(st),
        st.shown >= limits.max_entries ==> write_entries(files, limits, seq![e], depth, st)
            == Ok::<TreeText, TreeFailure>(st),
        write_entries(files, limits, seq![], depth, st) == Ok::<TreeText, TreeFailure>(st),
{
    reveal_with_fuel(write_entries, 2);
    assert(seq![e].skip(1) == Seq::<EntryView>::empty());
}

/// A directory adds its line, counts for one, and is followed by what it holds, one level deeper;
/// but for one that is skipped, or that stands on the last level, whose line is all.
pub proof fn law_single_directories(
    files: Files,
    limits: Limits,
    e: EntryView,
    depth: nat,
    st: TreeText,
)
    requires
        e.kind == EntryKind::Directory,
        st.shown < limits.max_entries,
    ensures
        ({
            let listed = TreeText {
                shown: st.shown + 1,
                out: st.out + directory_line(e.name, depth),
            };
            let written = write_entries(files, limits, seq![e], depth, st);
            if e.name == ".git"@ || e.name == "node_modules"@ || e.name == "target"@ || depth + 1
                >= limits.max_depth {
                written == Ok::<TreeText, TreeFailure>(listed)
            } else {
                written == write_directory(files, limits, e.id, depth + 1, listed)
            }
        }),
{
    reveal_with_fuel(write_entries, 2);
    assert(seq![e].skip(1) == Seq::<EntryView>::empty());
    let listed = with_line(st, directory_line(e.name, depth));
    assert(write_entries(files, limits, seq![], depth, listed) == Ok::<TreeText, TreeFailure>(
        listed,
    ));
    if let Ok(below) = write_directory(files, limits, e.id, depth + 1, listed) {
        assert(write_entries(files, limits, seq![], depth, below) == Ok::<TreeText, TreeFailure>(
            below,
        ));
    }
}

/// What a directory holds is written as a listing of the same entries whose names rise in ASCII
/// lower case, and in which equal names keep the order in which they were read.
pub proof fn law_directories_are_written_in_order(
    files: Files,
    limits: Limits,
    dir: u64,
    depth: nat,
    st: TreeText,
)
    requires
        files(dir) is Ok,
        depth < limits.max_depth,
        st.shown < limits.max_entries,
    ensures
        exists|list: Seq<EntryView>|
            #![trigger names_rise(list)]
            names_rise(list) && list.to_multiset() == files(dir)->Ok_0.to_multiset() && (forall|
                name: Seq<char>,
            | #[trigger]
                same_named(list, name) == same_named(files(dir)->Ok_0, name)) && write_directory(files, limits, dir, depth, st) == write_entries(
                files,
                limits,
                list,
                depth,
                st,
            ),
{
    let entries = files(dir)->Ok_0;
    let list = in_order(entries);
    law_listing_rises_by_name(entries);
    assert forall|name: Seq<char>| #[trigger] same_named(list, name) == same_named(entries, name) by {
        law_equal_names_keep_their_order(entries, name);
    }
    assert(names_rise(list));
}

/// A directory that cannot be read ends the tree with its message and keeps all that was written;
/// and a directory is not read at all below the last level or once the most entries are shown.
pub proof fn law_directories_that_are_not_read(
    files: Files,
    limits: Limits,
    dir: u64,
    depth: nat,
    st: TreeText,
)
    ensures
        depth >= limits.max_depth || st.shown >= limits.max_entries ==> write_directory(
            files,
            limits,
            dir,
            depth,
            st,
        ) == Ok::<TreeText, TreeFailure>(st),
        depth < limits.max_depth && st.shown < limits.max_entries && files(dir) is Err
            ==> write_directory(files, limits, dir, depth, st) == Err::<TreeText, TreeFailure>(
            TreeFailure { tree: st, message: files(dir)->Err_0 },
        ),
{
}

} // verus!

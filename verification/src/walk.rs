//! The rules of the scan, stated over plain values.
//!
//! A scan never touches the file system itself. It hands out one request at
//! a time, is given the reply, and decides what to print and what to ask
//! next. This module says, for every state and every reply, what that
//! decision is.

use vstd::prelude::*;
use crate::entry::{marker_name, EntryView, ItemView};
use crate::indicators::Indicators;
use crate::provider::{ExecuteType, Information};
use crate::render::TerminalDisplay;
use crate::status::classification;

verus! {

/// Where a scan stands.
#[derive(Clone, Copy, Debug, PartialEq, Eq, Structural)]
pub enum Phase {
    /// Nothing has been asked yet.
    Fresh,
    /// The working directory of the process has been asked for.
    NeedCwd,
    /// The root in hand is being probed.
    Probing,
    /// The listing of the innermost open directory is awaited.
    Listing,
    /// The status of the working tree around the entry in hand is awaited.
    Querying,
    /// Every root has been walked.
    Finished,
    /// The scan has given up.
    Aborted,
}

/// A directory that the walk has opened and not yet left.
pub struct FrameView {
    pub path: Seq<char>,
    /// The directory that holds this one; error lines name it.
    pub parent: Seq<char>,
    /// The items of the listing that have not been visited yet.
    pub rest: Seq<ItemView>,
}

/// A line of output and the stream it belongs to.
pub enum LineView {
    Stdout(Seq<char>),
    Stderr(Seq<char>),
}

/// What the scan asks its caller to do next.
pub enum RequestView {
    CurrentDir,
    Probe(Seq<char>),
    List(Seq<char>),
    Query(Seq<char>),
    Done,
    Abort,
}

/// What the caller found out.
pub enum ReplyView {
    Start,
    CurrentDir(Seq<char>),
    Probed { is_dir: bool, parent: Seq<char> },
    Listed(Result<Seq<ItemView>, Seq<char>>),
    Queried { stdout: Seq<char>, stderr: Seq<char> },
}

/// What stays the same throughout a scan.
pub struct Settings {
    pub display: TerminalDisplay,
    pub glyphs: Indicators,
    pub execute_type: ExecuteType,
    /// The configured roots.
    pub configured: Seq<Seq<char>>,
    pub max_depth: i8,
    pub max_height: i8,
}

/// What changes during a scan.
pub struct ScanView {
    pub phase: Phase,
    /// The roots of this scan.
    pub roots: Seq<Seq<char>>,
    /// The index of the root in hand.
    pub next_root: nat,
    /// The open directories, outermost first. Its length is the depth of the
    /// walk: one while the entries of a root are visited.
    pub stack: Seq<FrameView>,
    /// Whether the root in hand has shown a marker yet, or is no directory.
    pub found: Information,
    /// Whether any root so far held a working tree.
    pub scanned: bool,
    /// The run-wide verdict.
    pub verdict: Information,
}

/// The result of one decision: the new state, the lines to print, and the
/// next request.
pub struct Turn {
    pub state: ScanView,
    pub lines: Seq<LineView>,
    pub request: RequestView,
}

pub open spec fn no_paths_text() -> Seq<char> {
    "No paths configured. Provide project paths via `-p, --path <PATH>`\n or `--paths \"<PATH> <PATH> <PATH>\"`"@
}

pub open spec fn not_found_text() -> Seq<char> {
    "Cannot find any `.git` directory"@
}

pub open spec fn invalid_path_text() -> Seq<char> {
    "Is not a valid path"@
}

pub open spec fn undetermined_text() -> Seq<char> {
    "Could not determine path"@
}

pub open spec fn all_clear_text() -> Seq<char> {
    "All projects are up to date"@
}

/// Whether the entries of a directory at `depth` are left unvisited.
pub open spec fn out_of_bounds(cfg: Settings, depth: int) -> bool {
    depth < cfg.max_height || depth >= cfg.max_depth + 1
}

/// The scan gives up without a word.
pub open spec fn stopped(s: ScanView) -> Turn {
    Turn {
        state: ScanView { phase: Phase::Aborted, ..s },
        lines: Seq::empty(),
        request: RequestView::Abort,
    }
}

/// The end of the scan: the all-clear where some root held a working tree
/// and nothing needed attention.
pub open spec fn finish(cfg: Settings, s: ScanView, lines: Seq<LineView>) -> Turn {
    Turn {
        state: ScanView { phase: Phase::Finished, ..s },
        lines: if s.scanned && s.verdict == Information::AllGreen {
            lines.push(LineView::Stderr(cfg.display.ok_line(all_clear_text(), &cfg.glyphs)))
        } else {
            lines
        },
        request: RequestView::Done,
    }
}

/// The walk turns to the root at `s.next_root`.
pub open spec fn open_root(s: ScanView, lines: Seq<LineView>) -> Turn {
    Turn {
        state: ScanView {
            phase: Phase::Probing,
            found: Information::NotFoundGitDir,
            stack: Seq::empty(),
            ..s
        },
        lines,
        request: RequestView::Probe(s.roots[s.next_root as int]),
    }
}

/// The root in hand is done: its diagnostic where it held no working tree or
/// is no directory, then the next root or the end.
pub open spec fn close_root(cfg: Settings, s: ScanView, lines: Seq<LineView>) -> Turn {
    if s.next_root >= s.roots.len() {
        finish(cfg, s, lines)
    } else {
        let root = s.roots[s.next_root as int];
        let failed = ScanView { verdict: Information::Warning, next_root: s.next_root + 1, ..s };
        let (after, said) = match s.found {
            Information::NotFoundGitDir => (
                failed,
                lines.push(
                    LineView::Stderr(cfg.display.located_error(not_found_text(), &cfg.glyphs, root)),
                ),
            ),
            Information::NotValidPath => (
                failed,
                lines.push(
                    LineView::Stderr(
                        cfg.display.located_error(invalid_path_text(), &cfg.glyphs, root),
                    ),
                ),
            ),
            _ => (ScanView { scanned: true, next_root: s.next_root + 1, ..s }, lines),
        };
        if after.next_root < after.roots.len() {
            open_root(after, said)
        } else {
            finish(cfg, after, said)
        }
    }
}

/// How much of the open directories is left to visit.
pub open spec fn weight(stack: Seq<FrameView>) -> nat
    decreases stack.len(),
{
    if stack.len() == 0 {
        0
    } else {
        weight(stack.drop_last()) + stack.last().rest.len() + 1
    }
}

/// The stack with the first item of its innermost directory taken off.
pub open spec fn without_head(stack: Seq<FrameView>) -> Seq<FrameView> {
    let top = stack.last();
    stack.drop_last().push(FrameView { rest: top.rest.drop_first(), ..top })
}

/// Taking an item off leaves one less to visit.
pub proof fn lemma_weight_without_head(stack: Seq<FrameView>)
    requires
        stack.len() > 0,
        stack.last().rest.len() > 0,
    ensures
        weight(without_head(stack)) + 1 == weight(stack),
{
    assert(without_head(stack).drop_last() =~= stack.drop_last());
}

/// Opening a directory whose listing is still awaited adds one.
pub proof fn lemma_weight_push(stack: Seq<FrameView>, frame: FrameView)
    ensures
        weight(stack.push(frame)) == weight(stack) + frame.rest.len() + 1,
{
    assert(stack.push(frame).drop_last() =~= stack);
}

/// The walk goes on from the innermost open directory until something has
/// to be asked.
pub open spec fn walk(cfg: Settings, s: ScanView, lines: Seq<LineView>) -> Turn
    decreases weight(s.stack), 1int,
{
    if s.stack.len() == 0 {
        close_root(cfg, s, lines)
    } else {
        let top = s.stack.last();
        let below = s.stack.drop_last();
        if top.rest.len() == 0 || out_of_bounds(cfg, s.stack.len() as int) {
            walk(cfg, ScanView { stack: below, ..s }, lines)
        } else {
            match top.rest[0] {
                ItemView::Failed(reason) => walk(
                    cfg,
                    ScanView { stack: below, verdict: Information::Warning, ..s },
                    lines.push(
                        LineView::Stderr(cfg.display.located_error(reason, &cfg.glyphs, top.parent)),
                    ),
                ),
                ItemView::Found(entry) => if entry.name == marker_name() {
                    let seen = ScanView { found: Information::FoundGitDir, ..s };
                    if entry.parent.len() == 0 {
                        leave_entry(
                            cfg,
                            ScanView { verdict: Information::Warning, ..seen },
                            lines.push(
                                LineView::Stderr(
                                    cfg.display.located_error(
                                        undetermined_text(),
                                        &cfg.glyphs,
                                        entry.parent,
                                    ),
                                ),
                            ),
                            entry,
                        )
                    } else {
                        Turn {
                            state: ScanView { phase: Phase::Querying, ..seen },
                            lines,
                            request: RequestView::Query(entry.parent),
                        }
                    }
                } else {
                    leave_entry(cfg, s, lines, entry)
                },
            }
        }
    }
}

/// The first item of the innermost directory has been dealt with: the walk
/// descends into it where it is a directory, and goes on behind it otherwise.
pub open spec fn leave_entry(
    cfg: Settings,
    s: ScanView,
    lines: Seq<LineView>,
    entry: EntryView,
) -> Turn
    decreases weight(s.stack), 0int,
{
    if s.stack.len() == 0 || s.stack.last().rest.len() == 0 {
        stopped(s)
    } else if entry.is_dir {
        Turn {
            state: ScanView {
                phase: Phase::Listing,
                stack: without_head(s.stack).push(
                    FrameView { path: entry.path, parent: entry.parent, rest: Seq::empty() },
                ),
                ..s
            },
            lines,
            request: RequestView::List(entry.path),
        }
    } else {
        proof {
            lemma_weight_without_head(s.stack);
        }
        walk(cfg, ScanView { stack: without_head(s.stack), ..s }, lines)
    }
}

/// The scan learns its roots: it gives up where there is none, and turns to
/// the first otherwise.
pub open spec fn begin_roots(s: ScanView, roots: Seq<Seq<char>>) -> Turn {
    if roots.len() == 0 {
        Turn {
            state: ScanView { phase: Phase::Aborted, roots, ..s },
            lines: seq![LineView::Stderr(no_paths_text())],
            request: RequestView::Abort,
        }
    } else {
        open_root(ScanView { roots, next_root: 0, scanned: false, ..s }, Seq::empty())
    }
}

/// The reply to a probe: a root that is a directory is opened and its
/// listing asked for; any other is done with at once.
pub open spec fn probed(cfg: Settings, s: ScanView, is_dir: bool, parent: Seq<char>) -> Turn {
    if s.next_root >= s.roots.len() {
        stopped(s)
    } else if is_dir {
        let root = s.roots[s.next_root as int];
        Turn {
            state: ScanView {
                phase: Phase::Listing,
                stack: seq![FrameView { path: root, parent, rest: Seq::empty() }],
                ..s
            },
            lines: Seq::empty(),
            request: RequestView::List(root),
        }
    } else {
        close_root(cfg, ScanView { found: Information::NotValidPath, ..s }, Seq::empty())
    }
}

/// The reply to a listing: its items are walked, or, where it failed, the
/// failure is reported and the directory left.
pub open spec fn listed(
    cfg: Settings,
    s: ScanView,
    listing: Result<Seq<ItemView>, Seq<char>>,
) -> Turn {
    if s.stack.len() == 0 {
        stopped(s)
    } else {
        let top = s.stack.last();
        let below = s.stack.drop_last();
        match listing {
            Ok(items) => walk(
                cfg,
                ScanView { stack: below.push(FrameView { rest: items, ..top }), ..s },
                Seq::empty(),
            ),
            Err(reason) => walk(
                cfg,
                ScanView { stack: below, verdict: Information::Warning, ..s },
                seq![LineView::Stderr(cfg.display.located_error(reason, &cfg.glyphs, top.parent))],
            ),
        }
    }
}

/// What a status query says about the working tree around `entry`.
pub struct Reading {
    /// The line to print, if any.
    pub lines: Seq<LineView>,
    /// The verdict after this reading.
    pub verdict: Information,
    /// Whether the report had no line, which ends the scan.
    pub unreadable: bool,
}

/// Reads the reply to a status query. Anything on the error stream is a
/// failure of the query. A report without a line is unreadable. Any other
/// report is classified: the working tree gets its line unless it stays
/// silent, and the verdict is downgraded unless it is clean.
pub open spec fn reading(
    cfg: Settings,
    verdict: Information,
    entry: EntryView,
    stdout: Seq<char>,
    stderr: Seq<char>,
) -> Reading {
    if stderr.len() > 0 {
        Reading {
            lines: seq![
                LineView::Stderr(cfg.display.located_error(stderr, &cfg.glyphs, entry.parent)),
            ],
            verdict: Information::Warning,
            unreadable: false,
        }
    } else {
        match classification(stdout) {
            None => Reading {
                lines: seq![LineView::Stderr(TerminalDisplay::unreadable_line(entry.parent))],
                verdict,
                unreadable: true,
            },
            Some(outcome) => Reading {
                lines: if cfg.display.stays_silent(outcome) {
                    Seq::empty()
                } else {
                    seq![
                        LineView::Stdout(
                            cfg.display.status_line(
                                &cfg.glyphs,
                                outcome,
                                entry.parent,
                                entry.project,
                            ),
                        ),
                    ]
                },
                verdict: if outcome.clean() {
                    verdict
                } else {
                    Information::Warning
                },
                unreadable: false,
            },
        }
    }
}

/// The reply to a status query: the scan ends where the report is
/// unreadable, and goes on behind the marker otherwise.
pub open spec fn queried(cfg: Settings, s: ScanView, stdout: Seq<char>, stderr: Seq<char>) -> Turn {
    if s.stack.len() == 0 || s.stack.last().rest.len() == 0 {
        stopped(s)
    } else {
        match s.stack.last().rest[0] {
            ItemView::Failed(_) => stopped(s),
            ItemView::Found(entry) => {
                let read = reading(cfg, s.verdict, entry, stdout, stderr);
                if read.unreadable {
                    Turn {
                        state: ScanView { phase: Phase::Aborted, ..s },
                        lines: read.lines,
                        request: RequestView::Abort,
                    }
                } else {
                    leave_entry(cfg, ScanView { verdict: read.verdict, ..s }, read.lines, entry)
                }
            },
        }
    }
}

/// What the scan does with `reply` in state `s`. A reply that does not
/// answer the pending request makes the scan give up.
pub open spec fn next(cfg: Settings, s: ScanView, reply: ReplyView) -> Turn {
    match s.phase {
        Phase::Fresh => match cfg.execute_type {
            ExecuteType::FromConfig => begin_roots(s, cfg.configured),
            ExecuteType::CurrentPath => Turn {
                state: ScanView { phase: Phase::NeedCwd, ..s },
                lines: Seq::empty(),
                request: RequestView::CurrentDir,
            },
        },
        Phase::NeedCwd => match reply {
            ReplyView::CurrentDir(path) => begin_roots(s, seq![path]),
            _ => stopped(s),
        },
        Phase::Probing => match reply {
            ReplyView::Probed { is_dir, parent } => probed(cfg, s, is_dir, parent),
            _ => stopped(s),
        },
        Phase::Listing => match reply {
            ReplyView::Listed(listing) => listed(cfg, s, listing),
            _ => stopped(s),
        },
        Phase::Querying => match reply {
            ReplyView::Queried { stdout, stderr } => queried(cfg, s, stdout, stderr),
            _ => stopped(s),
        },
        Phase::Finished => Turn { state: s, lines: Seq::empty(), request: RequestView::Done },
        Phase::Aborted => Turn { state: s, lines: Seq::empty(), request: RequestView::Abort },
    }
}

} // verus!

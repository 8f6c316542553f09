//! The scan itself: the bounded walk over the configured roots and the
//! verdict it folds the outcomes into.

use vstd::prelude::*;
use vstd::string::StringExecFns;
use crate::config::Config;
use crate::entry::{item_views, Entry, ItemView, ListingItem};
use crate::indicators::Indicators;
use crate::invariants::{
    lemma_next_is_sound, lemma_visits_stay_in_bounds, depth_limit, sound_turn, well_formed,
};
use crate::progress::{ended, lemma_every_turn_makes_progress, listed_items, work};
use crate::protocol::{line_views, Line, Reply, Request, Step};
use crate::render::{GitLine, TerminalDisplay, VerboseMode};
use crate::text::texts;
use crate::walk::{
    begin_roots, close_root, finish, leave_entry, lemma_weight_push, lemma_weight_without_head,
    listed, next, open_root, out_of_bounds, probed, queried, reading, stopped, walk, weight,
    without_head, FrameView, LineView, Phase, Reading, RequestView, ScanView, Settings, Turn,
};

verus! {

/// Where the roots of a scan come from.
#[derive(Clone, Copy, Debug, PartialEq, Eq, Structural)]
pub enum ExecuteType {
    /// The roots are the configured project paths.
    FromConfig,
    /// The single root is the directory the process runs in.
    CurrentPath,
}

/// The verdicts a scan keeps: the run-wide one (`AllGreen`, `Warning`) and
/// the one of the root in hand (the other three).
#[derive(Clone, Copy, Debug, PartialEq, Eq, Structural)]
pub enum Information {
    AllGreen,
    Warning,
    FoundGitDir,
    NotFoundGitDir,
    NotValidPath,
}

/// The verdict after a downgrade, whatever it was before.
pub open spec fn downgraded(state: Information) -> Information {
    Information::Warning
}

/// The verdict after an attempt to move it from `before` to `wanted`: a
/// warning stays, anything else gives way.
pub open spec fn settled(before: Information, wanted: Information) -> Information {
    if before == Information::Warning {
        Information::Warning
    } else {
        wanted
    }
}

/// The verdict after `times` downgrades in a row.
pub open spec fn downgraded_times(state: Information, times: nat) -> Information
    decreases times,
{
    if times == 0 {
        state
    } else {
        downgraded(downgraded_times(state, (times - 1) as nat))
    }
}

/// Downgrading is idempotent: any number of downgrades, one or more, leaves
/// the verdict that a single one leaves, and that is a warning.
pub proof fn lemma_downgrade_is_idempotent(state: Information, times: nat)
    requires
        times >= 1,
    ensures
        downgraded_times(state, times) == downgraded(state),
        downgraded_times(state, times) == Information::Warning,
        downgraded(downgraded(state)) == downgraded(state),
{
}

/// No change of the verdict takes a warning back, and moving the verdict to
/// a warning is a downgrade.
pub proof fn lemma_warning_is_kept(before: Information, wanted: Information)
    ensures
        before == Information::Warning ==> settled(before, wanted) == Information::Warning,
        settled(before, Information::Warning) == downgraded(before),
        settled(settled(before, wanted), wanted) == settled(before, wanted),
{
}

/// The run-wide verdict. It starts all green and is downgraded the first
/// time anything needs attention.
pub struct InformationHandler {
    pub info_state: Information,
}

impl InformationHandler {
    pub fn new() -> (handler: InformationHandler)
        ensures
            handler.info_state == Information::AllGreen,
    {
        InformationHandler { info_state: Information::AllGreen }
    }

    /// Moves the verdict to `state`, unless it is a warning already: a
    /// warning is never taken back.
    pub fn set(&mut self, state: Information) -> (this: &Self)
        ensures
            final(self).info_state == settled(old(self).info_state, state),
            this.info_state == final(self).info_state,
    {
        if self.info_state != Information::Warning {
            self.info_state = state;
        }
        self
    }

    /// Moves the verdict to `Warning`, where it stays.
    pub fn downgrade(&mut self)
        ensures
            final(self).info_state == downgraded(old(self).info_state),
    {
        self.info_state = Information::Warning;
    }

    /// The verdict as it stands.
    pub fn read(&self) -> (state: Information)
        ensures
            state == self.info_state,
    {
        self.info_state
    }
}

/// A directory that the walk has opened and not yet left.
pub struct Frame {
    pub path: String,
    /// The directory that holds this one; error lines name it.
    pub parent: String,
    pub items: Vec<ListingItem>,
    /// The index of the first item that has not been visited.
    pub next: usize,
}

impl View for Frame {
    type V = FrameView;

    open spec fn view(&self) -> FrameView {
        FrameView {
            path: self.path@,
            parent: self.parent@,
            rest: if self.next <= self.items@.len() {
                item_views(self.items@).subrange(self.next as int, self.items@.len() as int)
            } else {
                Seq::empty()
            },
        }
    }
}

/// What the frames stand for, outermost first.
pub open spec fn frame_views(frames: Seq<Frame>) -> Seq<FrameView> {
    Seq::new(frames.len(), |i: int| frames[i]@)
}

/// A scan over the configured roots, or over the current directory.
pub struct CheckGitProjects<'a> {
    pub config: &'a Config,
    pub execute_type: ExecuteType,
    pub indicators: Indicators,
    pub terminal_display: TerminalDisplay,
    pub project_state: InformationHandler,
    /// Whether the root in hand has shown a marker yet, or is no directory.
    pub found_git_dir: Information,
    pub max_depth: i8,
    pub max_height: i8,
    pub phase: Phase,
    /// The roots of this scan, known once it has begun.
    pub roots: Vec<String>,
    /// The index of the root in hand.
    pub next_root: usize,
    /// The open directories, outermost first.
    pub stack: Vec<Frame>,
    /// Whether any root so far held a working tree.
    pub scanned: bool,
}

/// The turn that a state, the lines handed over and the request make up.
pub open spec fn turn_of(state: ScanView, step: Step) -> Turn {
    Turn { state, lines: line_views(step.lines@), request: step.request@ }
}

impl<'a> CheckGitProjects<'a> {
    /// What stays the same throughout this scan.
    pub open spec fn settings(&self) -> Settings {
        Settings {
            display: self.terminal_display,
            glyphs: self.indicators,
            execute_type: self.execute_type,
            configured: self.config.roots(),
            max_depth: self.max_depth,
            max_height: self.max_height,
        }
    }

    /// Where this scan stands.
    pub open spec fn view(&self) -> ScanView {
        ScanView {
            phase: self.phase,
            roots: texts(self.roots@),
            next_root: self.next_root as nat,
            stack: frame_views(self.stack@),
            found: self.found_git_dir,
            scanned: self.scanned,
            verdict: self.project_state.info_state,
        }
    }

    /// A scan that has not asked anything yet. Entries are visited in
    /// directories whose depth lies between `max_search_height` and
    /// `max_search_depth`, the roots being at depth one.
    pub fn init(
        config: &'a Config,
        execute_type: ExecuteType,
        verbose_mode: VerboseMode,
        max_search_depth: i8,
        max_search_height: i8,
    ) -> (scan: CheckGitProjects<'a>)
        ensures
            scan.config == config,
            scan.execute_type == execute_type,
            scan.terminal_display.verbose_mode == verbose_mode,
            scan.terminal_display.terminal_color.standard(),
            config.ascii_mode ==> scan.indicators.is_ascii_set(),
            !config.ascii_mode ==> scan.indicators.is_unicode_set(),
            scan.settings() == (Settings {
                display: scan.terminal_display,
                glyphs: scan.indicators,
                execute_type,
                configured: config.roots(),
                max_depth: max_search_depth,
                max_height: max_search_height,
            }),
            scan@ == (ScanView {
                phase: Phase::Fresh,
                roots: Seq::empty(),
                next_root: 0,
                stack: Seq::empty(),
                found: Information::NotFoundGitDir,
                scanned: false,
                verdict: Information::AllGreen,
            }),
            well_formed(scan.settings(), scan@),
    {
        let scan = CheckGitProjects {
            config,
            execute_type,
            indicators: Indicators::new(config.ascii_mode),
            terminal_display: TerminalDisplay::new(verbose_mode),
            project_state: InformationHandler::new(),
            found_git_dir: Information::NotFoundGitDir,
            max_depth: max_search_depth,
            max_height: max_search_height,
            phase: Phase::Fresh,
            roots: Vec::new(),
            next_root: 0,
            stack: Vec::new(),
            scanned: false,
        };
        assert(scan@.roots =~= Seq::empty());
        assert(scan@.stack =~= Seq::empty());
        scan
    }

    /// Gives up without a word.
    fn stop(&mut self) -> (step: Step)
        ensures
            final(self).settings() == old(self).settings(),
            turn_of(final(self)@, step) == stopped(old(self)@),
    {
        self.phase = Phase::Aborted;
        let step = Step { lines: Vec::new(), request: Request::Abort };
        assert(line_views(step.lines@) =~= Seq::empty());
        step
    }

    /// Ends the scan, with the all-clear where it is due.
    fn finish(&mut self, lines: Vec<Line>) -> (step: Step)
        ensures
            final(self).settings() == old(self).settings(),
            turn_of(final(self)@, step) == finish(
                old(self).settings(),
                old(self)@,
                line_views(lines@),
            ),
    {
        let mut lines = lines;
        let ghost before = line_views(lines@);
        if self.scanned && self.project_state.read() == Information::AllGreen {
            let text = self.terminal_display.render_ok_msg(
                "All projects are up to date",
                &self.indicators,
            );
            lines.push(Line::Stderr(text));
            assert(line_views(lines@) =~= before.push(LineView::Stderr(text@)));
        }
        self.phase = Phase::Finished;
        Step { lines, request: Request::Done }
    }

    /// Turns to the root at `next_root`.
    fn open_root(&mut self, lines: Vec<Line>) -> (step: Step)
        requires
            old(self).next_root < old(self).roots.len(),
        ensures
            final(self).settings() == old(self).settings(),
            turn_of(final(self)@, step) == open_root(old(self)@, line_views(lines@)),
    {
        self.phase = Phase::Probing;
        self.found_git_dir = Information::NotFoundGitDir;
        self.stack = Vec::new();
        assert(frame_views(self.stack@) =~= Seq::empty());
        let root = self.roots[self.next_root].clone();
        Step { lines, request: Request::Probe(root) }
    }

    /// Closes the root in hand and turns to the next, or ends the scan.
    fn close_root(&mut self, lines: Vec<Line>) -> (step: Step)
        ensures
            final(self).settings() == old(self).settings(),
            turn_of(final(self)@, step) == close_root(
                old(self).settings(),
                old(self)@,
                line_views(lines@),
            ),
    {
        if self.next_root >= self.roots.len() {
            return self.finish(lines);
        }
        let mut lines = lines;
        let ghost before = line_views(lines@);
        match self.found_git_dir {
            Information::NotFoundGitDir => {
                let text = self.terminal_display.render_path_err(
                    "Cannot find any `.git` directory",
                    &self.indicators,
                    self.roots[self.next_root].as_str(),
                );
                lines.push(Line::Stderr(text));
                assert(line_views(lines@) =~= before.push(LineView::Stderr(text@)));
                self.project_state.downgrade();
            },
            Information::NotValidPath => {
                let text = self.terminal_display.render_path_err(
                    "Is not a valid path",
                    &self.indicators,
                    self.roots[self.next_root].as_str(),
                );
                lines.push(Line::Stderr(text));
                assert(line_views(lines@) =~= before.push(LineView::Stderr(text@)));
                self.project_state.downgrade();
            },
            _ => {
                self.scanned = true;
            },
        }
        self.next_root = self.next_root + 1;
        if self.next_root < self.roots.len() {
            self.open_root(lines)
        } else {
            self.finish(lines)
        }
    }

    /// Tells whether the entries of a directory at `depth` are left
    /// unvisited.
    fn beyond_bounds(&self, depth: usize) -> (beyond: bool)
        ensures
            beyond == out_of_bounds(self.settings(), depth as int),
    {
        let below = self.max_height > 0 && depth < self.max_height as usize;
        let above = self.max_depth < 0 || depth > self.max_depth as usize;
        below || above
    }

    /// Puts `top` back as the innermost directory with its first unvisited
    /// item, an entry, behind it. Where the entry is a directory it is opened
    /// and its listing is the request.
    fn step_over(&mut self, top: Frame) -> (request: Option<Request>)
        requires
            top.next < top.items.len(),
            top.items@[top.next as int] is Found,
        ensures
            final(self).settings() == old(self).settings(),
            ({
                let entry = top.items@[top.next as int]->Found_0@;
                let held = without_head(old(self)@.stack.push(top@));
                match request {
                    Some(asked) => {
                        &&& entry.is_dir
                        &&& asked@ == RequestView::List(entry.path)
                        &&& final(self)@ == (ScanView {
                            phase: Phase::Listing,
                            stack: held.push(
                                FrameView {
                                    path: entry.path,
                                    parent: entry.parent,
                                    rest: Seq::empty(),
                                },
                            ),
                            ..old(self)@
                        })
                    },
                    None => {
                        &&& !entry.is_dir
                        &&& final(self)@ == (ScanView { stack: held, ..old(self)@ })
                    },
                }
            }),
    {
        let ghost below = self@.stack;
        let ghost held = without_head(below.push(top@));
        let mut top = top;
        let opened = match &top.items[top.next] {
            ListingItem::Found(entry) => if entry.is_dir {
                Some(
                    Frame {
                        path: entry.path.clone(),
                        parent: entry.parent.clone(),
                        items: Vec::new(),
                        next: 0,
                    },
                )
            } else {
                None
            },
            ListingItem::Failed(_) => None,
        };
        let ghost rest = top@.rest;
        top.next = top.next + 1;
        assert(top@.rest =~= rest.drop_first());
        assert(below.push(FrameView { rest: rest, ..top@ }).drop_last() =~= below);
        self.stack.push(top);
        assert(frame_views(self.stack@) =~= held);
        match opened {
            Some(frame) => {
                let asked = Request::List(frame.path.clone());
                assert(frame@.rest =~= Seq::empty());
                self.stack.push(frame);
                assert(frame_views(self.stack@) =~= held.push(frame@));
                self.phase = Phase::Listing;
                Some(asked)
            },
            None => None,
        }
    }

    /// Goes on from the innermost open directory until something has to be
    /// asked.
    fn walk(&mut self, lines: Vec<Line>) -> (step: Step)
        ensures
            final(self).settings() == old(self).settings(),
            turn_of(final(self)@, step) == walk(
                old(self).settings(),
                old(self)@,
                line_views(lines@),
            ),
    {
        let ghost cfg = self.settings();
        let ghost target = walk(cfg, self@, line_views(lines@));
        let mut out = lines;
        loop
            invariant
                self.settings() == cfg,
                cfg == old(self).settings(),
                target == walk(old(self).settings(), old(self)@, line_views(lines@)),
                walk(cfg, self@, line_views(out@)) == target,
            decreases weight(self@.stack),
        {
            let ghost state = self@;
            let ghost said = line_views(out@);
            let depth = self.stack.len();
            if depth == 0 {
                return self.close_root(out);
            }
            let top = self.stack.pop().unwrap();
            assert(frame_views(self.stack@) =~= state.stack.drop_last());
            assert(top@ == state.stack.last());
            if top.next >= top.items.len() || self.beyond_bounds(depth) {
                continue ;
            }
            assert(top@.rest[0] == top.items@[top.next as int]@);
            match &top.items[top.next] {
                ListingItem::Failed(reason) => {
                    let text = self.terminal_display.render_path_err(
                        reason.as_str(),
                        &self.indicators,
                        top.parent.as_str(),
                    );
                    out.push(Line::Stderr(text));
                    assert(line_views(out@) =~= said.push(LineView::Stderr(text@)));
                    self.project_state.downgrade();
                    continue ;
                },
                ListingItem::Found(entry) => {
                    if entry.is_marker() {
                        self.found_git_dir = Information::FoundGitDir;
                        match query_target(entry) {
                            Ok(workdir) => {
                                let asked = Request::Query(workdir);
                                self.stack.push(top);
                                assert(frame_views(self.stack@) =~= state.stack);
                                self.phase = Phase::Querying;
                                return Step { lines: out, request: asked };
                            },
                            Err(reason) => {
                                let text = self.terminal_display.render_err(
                                    reason.as_str(),
                                    Some(&self.indicators),
                                    Some(entry),
                                );
                                out.push(Line::Stderr(text));
                                assert(line_views(out@) =~= said.push(LineView::Stderr(text@)));
                                self.project_state.downgrade();
                            },
                        }
                    }
                },
            }
            let ghost entry = top.items@[top.next as int]->Found_0@;
            let ghost held = ScanView { stack: state.stack, ..self@ };
            proof {
                assert(self@.stack.push(top@) =~= state.stack);
                assert(top@.rest[0] == ItemView::Found(entry));
                assert(target == leave_entry(cfg, held, line_views(out@), entry));
                lemma_weight_without_head(state.stack);
                lemma_weight_push(
                    without_head(state.stack),
                    FrameView {
                        path: top.items@[top.next as int]->Found_0@.path,
                        parent: top.items@[top.next as int]->Found_0@.parent,
                        rest: Seq::empty(),
                    },
                );
            }
            match self.step_over(top) {
                Some(asked) => {
                    return Step { lines: out, request: asked };
                },
                None => {},
            }
        }
    }

    /// Takes the roots of the scan and turns to the first.
    fn begin_roots(&mut self, roots: Vec<String>) -> (step: Step)
        ensures
            final(self).settings() == old(self).settings(),
            turn_of(final(self)@, step) == begin_roots(
                old(self)@,
                texts(roots@),
            ),
    {
        self.roots = roots;
        if self.roots.len() == 0 {
            self.phase = Phase::Aborted;
            let mut lines: Vec<Line> = Vec::new();
            let text = String::from_str(
                "No paths configured. Provide project paths via `-p, --path <PATH>`\n or `--paths \"<PATH> <PATH> <PATH>\"`",
            );
            lines.push(Line::Stderr(text));
            assert(line_views(lines@) =~= seq![LineView::Stderr(text@)]);
            return Step { lines, request: Request::Abort };
        }
        self.next_root = 0;
        self.scanned = false;
        let lines: Vec<Line> = Vec::new();
        assert(line_views(lines@) =~= Seq::empty());
        self.open_root(lines)
    }

    /// Takes the reply to a probe of the root in hand.
    fn probed(&mut self, is_dir: bool, parent: String) -> (step: Step)
        ensures
            final(self).settings() == old(self).settings(),
            turn_of(final(self)@, step) == probed(
                old(self).settings(),
                old(self)@,
                is_dir,
                parent@,
            ),
    {
        if self.next_root >= self.roots.len() {
            return self.stop();
        }
        let lines: Vec<Line> = Vec::new();
        assert(line_views(lines@) =~= Seq::empty());
        if is_dir {
            let root = self.roots[self.next_root].clone();
            let frame = Frame { path: root.clone(), parent, items: Vec::new(), next: 0 };
            assert(frame@.rest =~= Seq::empty());
            self.stack = Vec::new();
            self.stack.push(frame);
            assert(frame_views(self.stack@) =~= seq![frame@]);
            self.phase = Phase::Listing;
            Step { lines, request: Request::List(root) }
        } else {
            self.found_git_dir = Information::NotValidPath;
            self.close_root(lines)
        }
    }

    /// Takes the reply to the listing of the innermost open directory.
    fn listed(&mut self, listing: Result<Vec<ListingItem>, String>) -> (step: Step)
        ensures
            final(self).settings() == old(self).settings(),
            turn_of(final(self)@, step) == listed(
                old(self).settings(),
                old(self)@,
                match listing {
                    Ok(items) => Ok(item_views(items@)),
                    Err(reason) => Err(reason@),
                },
            ),
    {
        let ghost state = self@;
        let mut lines: Vec<Line> = Vec::new();
        assert(line_views(lines@) =~= Seq::empty());
        let top = match self.stack.pop() {
            Some(top) => top,
            None => {
                return self.stop();
            },
        };
        assert(frame_views(self.stack@) =~= state.stack.drop_last());
        assert(top@ == state.stack.last());
        match listing {
            Ok(items) => {
                let filled = Frame { path: top.path, parent: top.parent, items, next: 0 };
                assert(filled@.rest =~= item_views(items@));
                self.stack.push(filled);
                assert(frame_views(self.stack@) =~= state.stack.drop_last().push(filled@));
            },
            Err(reason) => {
                let text = self.terminal_display.render_path_err(
                    reason.as_str(),
                    &self.indicators,
                    top.parent.as_str(),
                );
                lines.push(Line::Stderr(text));
                assert(line_views(lines@) =~= seq![LineView::Stderr(text@)]);
                self.project_state.downgrade();
            },
        }
        self.walk(lines)
    }

    /// Reads the reply to the status query for `entry`: the line to print,
    /// if any, and whether the report was unreadable. The verdict is
    /// downgraded where the working tree needs attention or the query
    /// failed.
    fn read_status(&mut self, entry: &Entry, stdout: String, stderr: String) -> (read: (
        Vec<Line>,
        bool,
    ))
        ensures
            final(self).settings() == old(self).settings(),
            final(self)@ == (ScanView { verdict: final(self)@.verdict, ..old(self)@ }),
            final(self).stack == old(self).stack,
            (Reading {
                lines: line_views(read.0@),
                verdict: final(self)@.verdict,
                unreadable: read.1,
            }) == reading(old(self).settings(), old(self)@.verdict, entry@, stdout@, stderr@),
    {
        let mut lines: Vec<Line> = Vec::new();
        assert(line_views(lines@) =~= Seq::empty());
        match query_result(stdout, stderr) {
            Err(reason) => {
                let text = self.terminal_display.render_err(
                    reason.as_str(),
                    Some(&self.indicators),
                    Some(entry),
                );
                lines.push(Line::Stderr(text));
                assert(line_views(lines@) =~= seq![LineView::Stderr(text@)]);
                self.project_state.downgrade();
                (lines, false)
            },
            Ok(report) => {
                let mut display = self.terminal_display;
                match display.render_git_ok(
                    report,
                    entry,
                    &self.indicators,
                    &mut self.project_state,
                ) {
                    GitLine::Unreadable(text) => {
                        lines.push(Line::Stderr(text));
                        assert(line_views(lines@) =~= seq![LineView::Stderr(text@)]);
                        (lines, true)
                    },
                    GitLine::Silent => (lines, false),
                    GitLine::Line(text) => {
                        lines.push(Line::Stdout(text));
                        assert(line_views(lines@) =~= seq![LineView::Stdout(text@)]);
                        (lines, false)
                    },
                }
            },
        }
    }

    /// Takes the reply to the status query for the entry in hand.
    fn queried(&mut self, stdout: String, stderr: String) -> (step: Step)
        ensures
            final(self).settings() == old(self).settings(),
            turn_of(final(self)@, step) == queried(
                old(self).settings(),
                old(self)@,
                stdout@,
                stderr@,
            ),
    {
        let ghost state = self@;
        let ghost cfg = self.settings();
        let top = match self.stack.pop() {
            Some(top) => top,
            None => {
                return self.stop();
            },
        };
        assert(frame_views(self.stack@) =~= state.stack.drop_last());
        assert(top@ == state.stack.last());
        assert(self@.stack.push(top@) =~= state.stack);
        if top.next >= top.items.len() {
            self.stack.push(top);
            assert(frame_views(self.stack@) =~= state.stack);
            return self.stop();
        }
        assert(top@.rest[0] == top.items@[top.next as int]@);
        let (lines, unreadable) = match &top.items[top.next] {
            ListingItem::Failed(_) => {
                self.stack.push(top);
                assert(frame_views(self.stack@) =~= state.stack);
                return self.stop();
            },
            ListingItem::Found(entry) => self.read_status(entry, stdout, stderr),
        };
        let ghost entry = top.items@[top.next as int]->Found_0@;
        assert(top@.rest[0] == ItemView::Found(entry));
        if unreadable {
            self.stack.push(top);
            assert(frame_views(self.stack@) =~= state.stack);
            self.phase = Phase::Aborted;
            return Step { lines, request: Request::Abort };
        }
        proof {
            lemma_weight_without_head(state.stack);
        }
        match self.step_over(top) {
            Some(asked) => Step { lines, request: asked },
            None => self.walk(lines),
        }
    }

    /// Takes the reply to the pending request, and hands back the lines to
    /// print and the next request. The first call takes `Reply::Start`. A
    /// reply that does not answer the pending request makes the scan give
    /// up.
    ///
    /// A scan that is well formed, as every scan is that `init` made and only
    /// `scan` changed, stays so: the number of open directories stays within
    /// the limit, a status is asked for only inside the bounds, and the
    /// verdict is never taken back. Each turn uses up work, so a run whose
    /// listings are finite ends.
    pub fn scan(&mut self, reply: Reply) -> (step: Step)
        ensures
            final(self).settings() == old(self).settings(),
            turn_of(final(self)@, step) == next(old(self).settings(), old(self)@, reply@),
            well_formed(old(self).settings(), old(self)@) ==> {
                &&& sound_turn(old(self).settings(), old(self)@, turn_of(final(self)@, step))
                &&& final(self).stack@.len() <= depth_limit(final(self).settings())
                &&& step.request is Query ==> final(self).max_height <= final(self).stack@.len()
                    <= final(self).max_depth
                &&& !ended(old(self)@) ==> work(final(self).settings(), final(self)@) < work(
                    old(self).settings(),
                    old(self)@,
                ) + 3 * listed_items(reply@)
            },
    {
        proof {
            if well_formed(self.settings(), self@) {
                lemma_next_is_sound(self.settings(), self@, reply@);
                lemma_visits_stay_in_bounds(self.settings(), self@, reply@);
                if !ended(self@) {
                    lemma_every_turn_makes_progress(self.settings(), self@, reply@);
                }
            }
        }
        match self.phase {
            Phase::Fresh => match self.execute_type {
                ExecuteType::FromConfig => {
                    let roots = copy_paths(&self.config.project_paths);
                    self.begin_roots(roots)
                },
                ExecuteType::CurrentPath => {
                    self.phase = Phase::NeedCwd;
                    let step = Step { lines: Vec::new(), request: Request::CurrentDir };
                    assert(line_views(step.lines@) =~= Seq::empty());
                    step
                },
            },
            Phase::NeedCwd => match reply {
                Reply::CurrentDir(path) => {
                    let mut roots: Vec<String> = Vec::new();
                    roots.push(path);
                    assert(texts(roots@) =~= seq![path@]);
                    self.begin_roots(roots)
                },
                _ => self.stop(),
            },
            Phase::Probing => match reply {
                Reply::Probed { is_dir, parent } => self.probed(is_dir, parent),
                _ => self.stop(),
            },
            Phase::Listing => match reply {
                Reply::Listed(listing) => self.listed(listing),
                _ => self.stop(),
            },
            Phase::Querying => match reply {
                Reply::Queried { stdout, stderr } => self.queried(stdout, stderr),
                _ => self.stop(),
            },
            Phase::Finished => {
                let step = Step { lines: Vec::new(), request: Request::Done };
                assert(line_views(step.lines@) =~= Seq::empty());
                step
            },
            Phase::Aborted => {
                let step = Step { lines: Vec::new(), request: Request::Abort };
                assert(line_views(step.lines@) =~= Seq::empty());
                step
            },
        }
    }
}

/// A copy of `paths`.
fn copy_paths(paths: &Vec<String>) -> (copy: Vec<String>)
    ensures
        texts(copy@) == texts(paths@),
{
    let mut copy: Vec<String> = Vec::new();
    let mut i: usize = 0;
    while i < paths.len()
        invariant
            i <= paths.len(),
            copy@.len() == i,
            forall|j: int| 0 <= j < i ==> copy@[j]@ == paths@[j]@,
        decreases paths.len() - i,
    {
        copy.push(paths[i].clone());
        i += 1;
    }
    assert(texts(copy@) =~= texts(paths@));
    copy
}

/// Where to run the status query for the working tree that `marker` marks:
/// in the directory that holds the marker. Without such a directory the
/// query fails before it is run.
pub fn query_target(marker: &Entry) -> (target: Result<String, String>)
    ensures
        match target {
            Ok(workdir) => marker.parent@.len() > 0 && workdir@ == marker.parent@,
            Err(reason) => marker.parent@.len() == 0 && reason@ == crate::walk::undetermined_text(),
        },
{
    if marker.parent.as_str().is_empty() {
        Err(String::from_str("Could not determine path"))
    } else {
        Ok(marker.parent.clone())
    }
}

/// What a status query amounts to: a failure with what it printed on the
/// error stream, if anything, and the report otherwise.
pub fn query_result(stdout: String, stderr: String) -> (result: Result<String, String>)
    ensures
        match result {
            Ok(report) => stderr@.len() == 0 && report@ == stdout@,
            Err(reason) => stderr@.len() > 0 && reason@ == stderr@,
        },
{
    if !stderr.as_str().is_empty() {
        Err(stderr)
    } else {
        Ok(stdout)
    }
}

} // verus!

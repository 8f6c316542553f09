//! What holds of every scan, whatever the file system and the client reply.

use vstd::prelude::*;
use crate::entry::{marker_name, EntryView, ItemView};
use crate::provider::{ExecuteType, Information};
use crate::status::classification;
use crate::walk::{
    close_root, finish, leave_entry, lemma_weight_without_head, listed, next, open_root,
    out_of_bounds, queried, reading, walk, weight, without_head, FrameView, LineView, Phase,
    ReplyView, RequestView, ScanView, Settings, Turn,
};

verus! {

/// The greatest number of directories that can be open at once: a root, and
/// below it one directory for each level whose entries are visited.
pub open spec fn depth_limit(cfg: Settings) -> int {
    if cfg.max_depth >= 0 {
        cfg.max_depth + 1
    } else {
        1
    }
}

/// The request that a state waits on.
pub open spec fn pending(s: ScanView) -> RequestView {
    match s.phase {
        Phase::Fresh => RequestView::Abort,
        Phase::NeedCwd => RequestView::CurrentDir,
        Phase::Probing => RequestView::Probe(s.roots[s.next_root as int]),
        Phase::Listing => RequestView::List(s.stack.last().path),
        Phase::Querying => match s.stack.last().rest[0] {
            ItemView::Found(entry) => RequestView::Query(entry.parent),
            ItemView::Failed(_) => RequestView::Abort,
        },
        Phase::Finished => RequestView::Done,
        Phase::Aborted => RequestView::Abort,
    }
}

/// The states a scan can be in.
///
/// The depth of the walk, which is the number of open directories, stays
/// within the limit. While a root is walked it is one of the roots. A
/// listing is awaited for a directory that has just been opened. A status is
/// awaited for a marker with a parent, in a directory whose depth lies
/// within the bounds.
pub open spec fn well_formed(cfg: Settings, s: ScanView) -> bool {
    &&& s.stack.len() <= depth_limit(cfg)
    &&& match s.phase {
        Phase::Fresh | Phase::NeedCwd | Phase::Finished => s.stack.len() == 0,
        Phase::Probing => s.stack.len() == 0 && s.next_root < s.roots.len(),
        Phase::Listing => {
            &&& s.stack.len() > 0
            &&& s.next_root < s.roots.len()
            &&& s.stack.last().rest.len() == 0
        },
        Phase::Querying => {
            &&& s.stack.len() > 0
            &&& s.next_root < s.roots.len()
            &&& !out_of_bounds(cfg, s.stack.len() as int)
            &&& s.stack.last().rest.len() > 0
            &&& match s.stack.last().rest[0] {
                ItemView::Found(entry) => entry.name == marker_name() && entry.parent.len() > 0,
                ItemView::Failed(_) => false,
            }
        },
        Phase::Aborted => true,
    }
}

/// Every directory of `after` but the innermost was open in `before`, at
/// the same depth.
pub open spec fn keeps_levels(before: Seq<FrameView>, after: Seq<FrameView>) -> bool {
    &&& after.len() <= before.len() + 1
    &&& forall|i: int|
        0 <= i < after.len() - 1 ==> (#[trigger] after[i]).path == before[i].path
            && after[i].parent == before[i].parent
}

/// A verdict is never taken back.
pub open spec fn no_upgrade(before: Information, after: Information) -> bool {
    before == Information::Warning ==> after == Information::Warning
}

/// `longer` begins with `shorter`, and what it adds are diagnostics.
pub open spec fn extends(shorter: Seq<LineView>, longer: Seq<LineView>) -> bool {
    &&& shorter.len() <= longer.len()
    &&& longer.subrange(0, shorter.len() as int) == shorter
    &&& forall|k: int| shorter.len() <= k < longer.len() ==> #[trigger] longer[k] is Stderr
}

/// What every turn of a well-formed scan has in common.
pub open spec fn sound_turn(cfg: Settings, before: ScanView, turn: Turn) -> bool {
    &&& well_formed(cfg, turn.state)
    &&& turn.request == pending(turn.state)
    &&& keeps_levels(before.stack, turn.state.stack)
    &&& no_upgrade(before.verdict, turn.state.verdict)
}

proof fn lemma_extends_after_push(lines: Seq<LineView>, line: LineView, end: Seq<LineView>)
    requires
        line is Stderr,
        extends(lines.push(line), end),
    ensures
        extends(lines, end),
{
    let said = lines.push(line);
    let n = lines.len() as int;
    assert(end.subrange(0, n) =~= lines) by {
        assert forall|k: int| 0 <= k < n implies end[k] == lines[k] by {
            assert(end.subrange(0, said.len() as int)[k] == end[k]);
            assert(said[k] == lines[k]);
        }
    }
    assert forall|k: int| n <= k < end.len() implies #[trigger] end[k] is Stderr by {
        if k == n {
            assert(end.subrange(0, said.len() as int)[k] == end[k]);
            assert(said[k] == line);
        }
    }
}

proof fn lemma_finish(cfg: Settings, s: ScanView, lines: Seq<LineView>)
    requires
        s.stack.len() == 0,
    ensures
        sound_turn(cfg, s, finish(cfg, s, lines)),
        extends(lines, finish(cfg, s, lines).lines),
        finish(cfg, s, lines).state.phase == Phase::Finished,
{
    let after = finish(cfg, s, lines).lines;
    assert(after.subrange(0, lines.len() as int) =~= lines);
}

proof fn lemma_close_root(cfg: Settings, s: ScanView, lines: Seq<LineView>)
    requires
        s.stack.len() == 0,
    ensures
        sound_turn(cfg, s, close_root(cfg, s, lines)),
        extends(lines, close_root(cfg, s, lines).lines),
        close_root(cfg, s, lines).state.phase == Phase::Probing || close_root(
            cfg,
            s,
            lines,
        ).state.phase == Phase::Finished,
{
    if s.next_root >= s.roots.len() {
        lemma_finish(cfg, s, lines);
    } else {
        let root = s.roots[s.next_root as int];
        let failed = ScanView { verdict: Information::Warning, next_root: s.next_root + 1, ..s };
        let (after, said) = match s.found {
            Information::NotFoundGitDir => (
                failed,
                lines.push(
                    LineView::Stderr(
                        cfg.display.located_error(crate::walk::not_found_text(), &cfg.glyphs, root),
                    ),
                ),
            ),
            Information::NotValidPath => (
                failed,
                lines.push(
                    LineView::Stderr(
                        cfg.display.located_error(
                            crate::walk::invalid_path_text(),
                            &cfg.glyphs,
                            root,
                        ),
                    ),
                ),
            ),
            _ => (ScanView { scanned: true, next_root: s.next_root + 1, ..s }, lines),
        };
        assert(said.subrange(0, lines.len() as int) =~= lines);
        if after.next_root < after.roots.len() {
            assert(open_root(after, said).state.stack.len() == 0);
        } else {
            lemma_finish(cfg, after, said);
            let end = finish(cfg, after, said).lines;
            assert(end.subrange(0, lines.len() as int) =~= said.subrange(0, lines.len() as int));
        }
    }
}

/// Going on with the walk keeps the scan well formed, leaves the enclosing
/// directories at their depth, never takes the verdict back, and only adds
/// lines.
pub proof fn lemma_walk(cfg: Settings, s: ScanView, lines: Seq<LineView>)
    requires
        s.stack.len() <= depth_limit(cfg),
        s.next_root < s.roots.len(),
    ensures
        sound_turn(cfg, s, walk(cfg, s, lines)),
        extends(lines, walk(cfg, s, lines).lines),
        walk(cfg, s, lines).state.phase != Phase::Aborted,
    decreases weight(s.stack), 1int,
{
    if s.stack.len() == 0 {
        lemma_close_root(cfg, s, lines);
    } else {
        let top = s.stack.last();
        let below = s.stack.drop_last();
        if top.rest.len() == 0 || out_of_bounds(cfg, s.stack.len() as int) {
            let shorter = ScanView { stack: below, ..s };
            lemma_walk(cfg, shorter, lines);
        } else {
            match top.rest[0] {
                ItemView::Failed(reason) => {
                    let said = lines.push(
                        LineView::Stderr(cfg.display.located_error(reason, &cfg.glyphs, top.parent)),
                    );
                    let shorter = ScanView { stack: below, verdict: Information::Warning, ..s };
                    lemma_walk(cfg, shorter, said);
                    lemma_extends_after_push(lines, said.last(), walk(cfg, shorter, said).lines);
                },
                ItemView::Found(entry) => {
                    if entry.name == marker_name() {
                        let seen = ScanView { found: Information::FoundGitDir, ..s };
                        if entry.parent.len() == 0 {
                            let said = lines.push(
                                LineView::Stderr(
                                    cfg.display.located_error(
                                        crate::walk::undetermined_text(),
                                        &cfg.glyphs,
                                        entry.parent,
                                    ),
                                ),
                            );
                            let warned = ScanView { verdict: Information::Warning, ..seen };
                            lemma_leave_entry(cfg, warned, said, entry);
                            lemma_extends_after_push(
                                lines,
                                said.last(),
                                leave_entry(cfg, warned, said, entry).lines,
                            );
                        } else {
                            assert(lines.subrange(0, lines.len() as int) =~= lines);
                        }
                    } else {
                        lemma_leave_entry(cfg, s, lines, entry);
                    }
                },
            }
        }
    }
}

/// Leaving an entry behind, or descending into it, does the same.
pub proof fn lemma_leave_entry(cfg: Settings, s: ScanView, lines: Seq<LineView>, entry: EntryView)
    requires
        s.stack.len() <= depth_limit(cfg),
        s.next_root < s.roots.len(),
        s.stack.len() > 0,
        s.stack.last().rest.len() > 0,
        !out_of_bounds(cfg, s.stack.len() as int),
    ensures
        sound_turn(cfg, s, leave_entry(cfg, s, lines, entry)),
        extends(lines, leave_entry(cfg, s, lines, entry).lines),
        leave_entry(cfg, s, lines, entry).state.phase != Phase::Aborted,
    decreases weight(s.stack), 0int,
{
    let held = without_head(s.stack);
    assert(held.len() == s.stack.len());
    assert forall|i: int| 0 <= i < held.len() implies (#[trigger] held[i]).path
        == s.stack[i].path && held[i].parent == s.stack[i].parent by {}
    if entry.is_dir {
        assert(lines.subrange(0, lines.len() as int) =~= lines);
        let opened = held.push(
            FrameView { path: entry.path, parent: entry.parent, rest: Seq::empty() },
        );
        assert forall|i: int| 0 <= i < opened.len() - 1 implies (#[trigger] opened[i]).path
            == s.stack[i].path && opened[i].parent == s.stack[i].parent by {
            assert(opened[i] == held[i]);
        }
    } else {
        lemma_weight_without_head(s.stack);
        let shorter = ScanView { stack: held, ..s };
        lemma_walk(cfg, shorter, lines);
        let after = walk(cfg, shorter, lines).state.stack;
        assert forall|i: int| 0 <= i < after.len() - 1 implies (#[trigger] after[i]).path
            == s.stack[i].path && after[i].parent == s.stack[i].parent by {
            assert(after[i].path == held[i].path);
        }
    }
}

/// Whether `reply` answers the request that a scan in `phase` waits on.
pub open spec fn answers(phase: Phase, reply: ReplyView) -> bool {
    match phase {
        Phase::Fresh => true,
        Phase::NeedCwd => reply is CurrentDir,
        Phase::Probing => reply is Probed,
        Phase::Listing => reply is Listed,
        Phase::Querying => reply is Queried,
        Phase::Finished => true,
        Phase::Aborted => true,
    }
}

/// A scan that has not begun is well formed.
pub proof fn lemma_fresh_is_well_formed(cfg: Settings, s: ScanView)
    requires
        s.phase == Phase::Fresh,
        s.stack.len() == 0,
    ensures
        well_formed(cfg, s),
{
}

/// Every turn of a well-formed scan leaves it well formed and asks what the
/// new state waits on. The directories that stay open below the innermost
/// one stay at their depth, so the depth a directory is walked at is the
/// same before and after the walk of any directory inside it. The verdict,
/// once a warning, stays a warning.
pub proof fn lemma_next_is_sound(cfg: Settings, s: ScanView, reply: ReplyView)
    requires
        well_formed(cfg, s),
    ensures
        sound_turn(cfg, s, next(cfg, s, reply)),
{
    let turn = next(cfg, s, reply);
    match s.phase {
        Phase::Fresh => {},
        Phase::NeedCwd => {},
        Phase::Probing => {
            if let ReplyView::Probed { is_dir, parent } = reply {
                if !is_dir {
                    lemma_close_root(
                        cfg,
                        ScanView { found: Information::NotValidPath, ..s },
                        Seq::empty(),
                    );
                }
            }
        },
        Phase::Listing => {
            if let ReplyView::Listed(listing) = reply {
                lemma_listed(cfg, s, listing);
            }
        },
        Phase::Querying => {
            if let ReplyView::Queried { stdout, stderr } = reply {
                lemma_queried(cfg, s, stdout, stderr);
            }
        },
        Phase::Finished => {},
        Phase::Aborted => {},
    }
}

proof fn lemma_listed(cfg: Settings, s: ScanView, listing: Result<Seq<ItemView>, Seq<char>>)
    requires
        well_formed(cfg, s),
        s.phase == Phase::Listing,
    ensures
        sound_turn(cfg, s, listed(cfg, s, listing)),
        extends(Seq::empty(), listed(cfg, s, listing).lines),
        listed(cfg, s, listing).state.phase != Phase::Aborted,
{
    let top = s.stack.last();
    let below = s.stack.drop_last();
    match listing {
        Ok(items) => {
            let filled = ScanView { stack: below.push(FrameView { rest: items, ..top }), ..s };
            lemma_walk(cfg, filled, Seq::empty());
            let after = walk(cfg, filled, Seq::empty()).state.stack;
            assert forall|i: int| 0 <= i < after.len() - 1 implies (#[trigger] after[i]).path
                == s.stack[i].path && after[i].parent == s.stack[i].parent by {
                assert(after[i].path == filled.stack[i].path);
            }
        },
        Err(reason) => {
            let said = seq![
                LineView::Stderr(cfg.display.located_error(reason, &cfg.glyphs, top.parent)),
            ];
            let left = ScanView { stack: below, verdict: Information::Warning, ..s };
            lemma_walk(cfg, left, said);
            let after = walk(cfg, left, said).state.stack;
            assert forall|i: int| 0 <= i < after.len() - 1 implies (#[trigger] after[i]).path
                == s.stack[i].path && after[i].parent == s.stack[i].parent by {
                assert(after[i].path == below[i].path);
            }
            let end = walk(cfg, left, said).lines;
            assert(end[0] == said[0]) by {
                assert(end.subrange(0, 1)[0] == end[0]);
            }
            assert(end.subrange(0, 0) =~= Seq::<LineView>::empty());
        },
    }
}

proof fn lemma_queried(cfg: Settings, s: ScanView, stdout: Seq<char>, stderr: Seq<char>)
    requires
        well_formed(cfg, s),
        s.phase == Phase::Querying,
    ensures
        sound_turn(cfg, s, queried(cfg, s, stdout, stderr)),
        queried(cfg, s, stdout, stderr).state.phase == Phase::Aborted ==> stderr.len() == 0
            && classification(stdout) is None,
{
    let entry = s.stack.last().rest[0]->Found_0;
    let read = reading(cfg, s.verdict, entry, stdout, stderr);
    if !read.unreadable {
        lemma_leave_entry(cfg, ScanView { verdict: read.verdict, ..s }, read.lines, entry);
    }
}

/// No entry is visited in a directory whose depth is out of bounds.
///
/// The depth of the walk never exceeds the limit. A status is asked for, and
/// a status line printed, only for an entry of a directory whose depth lies
/// between the lower and the upper bound.
pub proof fn lemma_visits_stay_in_bounds(cfg: Settings, s: ScanView, reply: ReplyView)
    requires
        well_formed(cfg, s),
    ensures
        next(cfg, s, reply).state.stack.len() <= depth_limit(cfg),
        next(cfg, s, reply).request is Query ==> cfg.max_height <= next(
            cfg,
            s,
            reply,
        ).state.stack.len() <= cfg.max_depth,
        forall|k: int|
            0 <= k < next(cfg, s, reply).lines.len() && #[trigger] next(cfg, s, reply).lines[k]
                is Stdout ==> s.phase == Phase::Querying && cfg.max_height <= s.stack.len()
                <= cfg.max_depth,
{
    lemma_next_is_sound(cfg, s, reply);
    let turn = next(cfg, s, reply);
    match s.phase {
        Phase::Probing => {
            if let ReplyView::Probed { is_dir, parent } = reply {
                if !is_dir {
                    lemma_close_root(
                        cfg,
                        ScanView { found: Information::NotValidPath, ..s },
                        Seq::empty(),
                    );
                }
            }
        },
        Phase::Listing => {
            if let ReplyView::Listed(listing) = reply {
                lemma_listed(cfg, s, listing);
            }
        },
        _ => {},
    }
}

/// A well-formed scan gives up for one of three causes only: it has no
/// root, a status report has no line, or the reply does not answer its
/// request.
pub proof fn lemma_gives_up_for_cause(cfg: Settings, s: ScanView, reply: ReplyView)
    requires
        well_formed(cfg, s),
        s.phase != Phase::Aborted,
        answers(s.phase, reply),
        next(cfg, s, reply).state.phase == Phase::Aborted,
    ensures
        match s.phase {
            Phase::Fresh => cfg.execute_type == ExecuteType::FromConfig && cfg.configured.len()
                == 0,
            Phase::Querying => match reply {
                ReplyView::Queried { stdout, stderr } => stderr.len() == 0 && classification(
                    stdout,
                ) is None,
                _ => false,
            },
            _ => false,
        },
{
    match s.phase {
        Phase::Probing => {
            if let ReplyView::Probed { is_dir, parent } = reply {
                if !is_dir {
                    lemma_close_root(
                        cfg,
                        ScanView { found: Information::NotValidPath, ..s },
                        Seq::empty(),
                    );
                }
            }
        },
        Phase::Listing => {
            if let ReplyView::Listed(listing) = reply {
                lemma_listed(cfg, s, listing);
            }
        },
        Phase::Querying => {
            if let ReplyView::Queried { stdout, stderr } = reply {
                lemma_queried(cfg, s, stdout, stderr);
            }
        },
        _ => {},
    }
}

} // verus!

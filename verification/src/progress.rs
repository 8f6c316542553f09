//! Every scan ends.
//!
//! The caller runs the loop, so the scan cannot end it by itself; but each
//! turn uses up some of a finite amount of work, and only a listing adds to
//! it, by what it lists. A run whose listings are finite therefore ends.

use vstd::prelude::*;
use crate::entry::{EntryView, ItemView};
use crate::invariants::{lemma_next_is_sound, well_formed};
use crate::provider::Information;
use crate::walk::{
    close_root, leave_entry, lemma_weight_push, lemma_weight_without_head, next, reading, walk,
    weight, without_head, FrameView, LineView, Phase, ReplyView, ScanView, Settings,
};

verus! {

/// The work that the open directories hold: three for each item that has
/// not been visited, one for each directory to leave.
pub open spec fn open_work(stack: Seq<FrameView>) -> int {
    3 * weight(stack) - 2 * stack.len()
}

/// The work that the roots from the one in hand onwards hold apart from
/// their directories.
pub open spec fn root_work(s: ScanView) -> int {
    4 * (s.roots.len() - s.next_root)
}

/// The work that is left in state `s`: nothing once the scan has ended.
pub open spec fn work(cfg: Settings, s: ScanView) -> int {
    match s.phase {
        Phase::Fresh => 4 * (cfg.configured.len() as int) + 9,
        Phase::NeedCwd => 8,
        Phase::Probing => root_work(s) + 3,
        Phase::Listing => root_work(s) + open_work(s.stack) + 1,
        Phase::Querying => root_work(s) + open_work(s.stack),
        Phase::Finished | Phase::Aborted => 0,
    }
}

/// Whether the scan has ended.
pub open spec fn ended(s: ScanView) -> bool {
    s.phase == Phase::Finished || s.phase == Phase::Aborted
}

/// The number of items that `reply` lists.
pub open spec fn listed_items(reply: ReplyView) -> nat {
    match reply {
        ReplyView::Listed(Ok(items)) => items.len(),
        _ => 0,
    }
}

/// The number of items that `replies` list altogether.
pub open spec fn listed_total(replies: Seq<ReplyView>) -> nat
    decreases replies.len(),
{
    if replies.len() == 0 {
        0
    } else {
        listed_items(replies[0]) + listed_total(replies.drop_first())
    }
}

/// The state after the scan has taken `replies` one after the other.
pub open spec fn run(cfg: Settings, s: ScanView, replies: Seq<ReplyView>) -> ScanView
    decreases replies.len(),
{
    if replies.len() == 0 {
        s
    } else {
        run(cfg, next(cfg, s, replies[0]).state, replies.drop_first())
    }
}

/// A directory holds at least the work of leaving it.
pub proof fn lemma_open_work_is_no_debt(stack: Seq<FrameView>)
    ensures
        open_work(stack) >= stack.len(),
    decreases stack.len(),
{
    if stack.len() > 0 {
        lemma_open_work_is_no_debt(stack.drop_last());
    }
}

proof fn lemma_close_root_work(cfg: Settings, s: ScanView, lines: Seq<LineView>)
    requires
        s.stack.len() == 0,
        s.next_root < s.roots.len(),
    ensures
        work(cfg, close_root(cfg, s, lines).state) <= root_work(s) - 1,
{
}

proof fn lemma_walk_work(cfg: Settings, s: ScanView, lines: Seq<LineView>)
    requires
        s.next_root < s.roots.len(),
    ensures
        work(cfg, walk(cfg, s, lines).state) <= root_work(s) + open_work(s.stack),
    decreases weight(s.stack), 1int,
{
    if s.stack.len() == 0 {
        lemma_close_root_work(cfg, s, lines);
    } else {
        let top = s.stack.last();
        let below = s.stack.drop_last();
        if top.rest.len() == 0 || crate::walk::out_of_bounds(cfg, s.stack.len() as int) {
            lemma_walk_work(cfg, ScanView { stack: below, ..s }, lines);
        } else {
            match top.rest[0] {
                ItemView::Failed(reason) => {
                    let said = lines.push(
                        LineView::Stderr(
                            cfg.display.located_error(reason, &cfg.glyphs, top.parent),
                        ),
                    );
                    lemma_walk_work(
                        cfg,
                        ScanView { stack: below, verdict: Information::Warning, ..s },
                        said,
                    );
                },
                ItemView::Found(entry) => {
                    if entry.name == crate::entry::marker_name() {
                        let seen = ScanView { found: Information::FoundGitDir, ..s };
                        if entry.parent.len() == 0 {
                            let said = lines.push(
                                LineView::Stderr(
                                    cfg.display.located_error(
                                        crate::walk::undetermined_text(),
                                        &cfg.glyphs,
                                        entry.parent,
                                    ),
                                ),
                            );
                            lemma_leave_entry_work(
                                cfg,
                                ScanView { verdict: Information::Warning, ..seen },
                                said,
                                entry,
                            );
                        }
                    } else {
                        lemma_leave_entry_work(cfg, s, lines, entry);
                    }
                },
            }
        }
    }
}

proof fn lemma_leave_entry_work(
    cfg: Settings,
    s: ScanView,
    lines: Seq<LineView>,
    entry: EntryView,
)
    requires
        s.next_root < s.roots.len(),
        s.stack.len() > 0,
        s.stack.last().rest.len() > 0,
    ensures
        work(cfg, leave_entry(cfg, s, lines, entry).state) <= root_work(s) + open_work(s.stack)
            - 1,
    decreases weight(s.stack), 0int,
{
    let held = without_head(s.stack);
    lemma_weight_without_head(s.stack);
    if entry.is_dir {
        lemma_weight_push(
            held,
            FrameView { path: entry.path, parent: entry.parent, rest: Seq::empty() },
        );
    } else {
        lemma_walk_work(cfg, ScanView { stack: held, ..s }, lines);
    }
}

/// Every turn of a scan that has not ended uses up work: what is left after
/// it is less than what was left before, but for three for each item that
/// the reply lists.
pub proof fn lemma_every_turn_makes_progress(cfg: Settings, s: ScanView, reply: ReplyView)
    requires
        well_formed(cfg, s),
        !ended(s),
    ensures
        0 <= work(cfg, next(cfg, s, reply).state) < work(cfg, s) + 3 * listed_items(reply),
        work(cfg, s) > 0,
{
    lemma_next_is_sound(cfg, s, reply);
    lemma_open_work_is_no_debt(s.stack);
    lemma_open_work_is_no_debt(next(cfg, s, reply).state.stack);
    match s.phase {
        Phase::Probing => {
            if let ReplyView::Probed { is_dir, parent } = reply {
                if is_dir {
                    let root = s.roots[s.next_root as int];
                    let opened = seq![FrameView { path: root, parent, rest: Seq::empty() }];
                    assert(opened.len() == 1);
                    assert(opened.last().rest.len() == 0);
                    assert(opened.drop_last() =~= Seq::<FrameView>::empty());
                    assert(weight(opened.drop_last()) == 0);
                    assert(weight(opened) == 1);
                    assert(next(cfg, s, reply).state.stack == opened);
                } else {
                    lemma_close_root_work(
                        cfg,
                        ScanView { found: Information::NotValidPath, ..s },
                        Seq::empty(),
                    );
                }
            }
        },
        Phase::Listing => {
            if let ReplyView::Listed(listing) = reply {
                let top = s.stack.last();
                let below = s.stack.drop_last();
                match listing {
                    Ok(items) => {
                        let filled = below.push(FrameView { rest: items, ..top });
                        lemma_weight_push(below, FrameView { rest: items, ..top });
                        lemma_walk_work(cfg, ScanView { stack: filled, ..s }, Seq::empty());
                    },
                    Err(reason) => {
                        lemma_walk_work(
                            cfg,
                            ScanView { stack: below, verdict: Information::Warning, ..s },
                            seq![
                                LineView::Stderr(
                                    cfg.display.located_error(reason, &cfg.glyphs, top.parent),
                                ),
                            ],
                        );
                    },
                }
            }
        },
        Phase::Querying => {
            if let ReplyView::Queried { stdout, stderr } = reply {
                let entry = s.stack.last().rest[0]->Found_0;
                let read = reading(cfg, s.verdict, entry, stdout, stderr);
                if !read.unreadable {
                    lemma_leave_entry_work(
                        cfg,
                        ScanView { verdict: read.verdict, ..s },
                        read.lines,
                        entry,
                    );
                }
            }
        },
        _ => {},
    }
}

/// A scan that has ended stays as it is, whatever it is told.
pub proof fn lemma_ended_stays_ended(cfg: Settings, s: ScanView, replies: Seq<ReplyView>)
    requires
        ended(s),
    ensures
        run(cfg, s, replies) == s,
    decreases replies.len(),
{
    if replies.len() > 0 {
        lemma_ended_stays_ended(cfg, s, replies.drop_first());
    }
}

/// Every run ends: once a well-formed scan has taken as many replies as it
/// had work left, and three more for each item that the replies list, it
/// has finished or given up.
pub proof fn lemma_every_run_ends(cfg: Settings, s: ScanView, replies: Seq<ReplyView>)
    requires
        well_formed(cfg, s),
        replies.len() >= work(cfg, s) + 3 * listed_total(replies),
    ensures
        ended(run(cfg, s, replies)),
    decreases replies.len(),
{
    if ended(s) {
        lemma_ended_stays_ended(cfg, s, replies);
    } else {
        lemma_every_turn_makes_progress(cfg, s, ReplyView::Start);
        if replies.len() > 0 {
            lemma_every_turn_makes_progress(cfg, s, replies[0]);
            lemma_next_is_sound(cfg, s, replies[0]);
            lemma_every_run_ends(cfg, next(cfg, s, replies[0]).state, replies.drop_first());
        }
    }
}

} // verus!

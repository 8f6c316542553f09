//! Classification of a status report into a small discrete outcome.
//!
//! A report is the text the version-control client prints for one working
//! tree: a tracking line, then one line for each changed file.

use vstd::prelude::*;
use crate::text::{chars_of, contains, has_infix, lines, row_views, split_lines};

verus! {

/// What a status report says about a working tree.
#[derive(Clone, Copy, Debug, PartialEq, Eq, Structural)]
pub struct Outcome {
    /// The tracking line says the branch is ahead of its remote.
    pub ahead: bool,
    /// The tracking line says the branch is behind its remote.
    pub behind: bool,
    /// The report lists at least one changed, staged or untracked file.
    pub has_file_changes: bool,
}

impl Outcome {
    /// Nothing needs attention.
    pub open spec fn clean(&self) -> bool {
        !self.ahead && !self.behind && !self.has_file_changes
    }

    /// Tells whether nothing needs attention.
    pub fn is_clean(&self) -> (clean: bool)
        ensures
            clean == self.clean(),
    {
        !self.ahead && !self.behind && !self.has_file_changes
    }
}

/// The text that marks a branch as ahead of its remote.
pub open spec fn ahead_marker() -> Seq<char> {
    "[ahead"@
}

/// The text that marks a branch as behind its remote.
pub open spec fn behind_marker() -> Seq<char> {
    "[behind"@
}

/// The outcome a report stands for; none where the report has no line.
pub open spec fn classification(report: Seq<char>) -> Option<Outcome> {
    let rows = lines(report);
    if rows.len() == 0 {
        None
    } else {
        Some(
            Outcome {
                ahead: has_infix(rows[0], ahead_marker()),
                behind: has_infix(rows[0], behind_marker()),
                has_file_changes: rows.len() > 1,
            },
        )
    }
}

/// Classifies a status report. A report without a single line cannot be
/// classified.
pub fn classify(report: &str) -> (outcome: Option<Outcome>)
    ensures
        outcome == classification(report@),
{
    let text = chars_of(report);
    let rows = split_lines(&text);
    if rows.len() == 0 {
        assert(row_views(rows@).len() == 0);
        return None;
    }
    assert(row_views(rows@)[0] == rows@[0]@);
    assert(row_views(rows@).len() == rows@.len());
    let ahead_text = chars_of("[ahead");
    let behind_text = chars_of("[behind");
    Some(
        Outcome {
            ahead: contains(&rows[0], &ahead_text),
            behind: contains(&rows[0], &behind_text),
            has_file_changes: rows.len() > 1,
        },
    )
}

/// A report of exactly one line that holds neither tracking marker is clean.
pub proof fn lemma_single_unmarked_line_is_clean(report: Seq<char>)
    requires
        lines(report).len() == 1,
        !has_infix(lines(report)[0], ahead_marker()),
        !has_infix(lines(report)[0], behind_marker()),
    ensures
        classification(report) is Some,
        classification(report)->0.clean(),
{
}

/// A report of more than one line has file changes, whatever its tracking
/// line holds.
pub proof fn lemma_further_lines_are_file_changes(report: Seq<char>)
    requires
        lines(report).len() > 1,
    ensures
        classification(report) is Some,
        classification(report)->0.has_file_changes,
        !classification(report)->0.clean(),
{
}

/// Ahead and behind are read independently of each other and of the number
/// of lines: each is set exactly when its own marker stands in the first
/// line, so a first line with both markers sets both.
pub proof fn lemma_ahead_and_behind_are_independent(report: Seq<char>)
    requires
        lines(report).len() >= 1,
    ensures
        classification(report) is Some,
        classification(report)->0.ahead == has_infix(lines(report)[0], ahead_marker()),
        classification(report)->0.behind == has_infix(lines(report)[0], behind_marker()),
        has_infix(lines(report)[0], ahead_marker()) && has_infix(
            lines(report)[0],
            behind_marker(),
        ) ==> classification(report)->0.ahead && classification(report)->0.behind,
{
}

} // verus!

//! The lines of a report: what each holds, and whether it is printed at all.

use vstd::prelude::*;
use vstd::string::StringExecFns;
use crate::colors::{Color, TerminalColor};
use crate::entry::Entry;
use crate::indicators::Indicators;
use crate::provider::{Information, InformationHandler};
use crate::status::{classification, classify, Outcome};

verus! {

/// How much a report shows.
#[derive(Copy, Clone, Debug, PartialEq, Eq, Structural)]
pub enum VerboseMode {
    /// Clean working trees are shown too.
    Verbose1,
    /// Clean working trees are shown too, and each by its whole path.
    Verbose2,
    /// Only working trees that need attention are shown.
    Nothing,
}

/// Renders the lines of a report.
#[derive(Copy, Clone)]
pub struct TerminalDisplay {
    pub terminal_color: TerminalColor,
    pub verbose_mode: VerboseMode,
}

/// What a status report becomes on the terminal.
pub enum GitLine {
    /// Nothing is printed: the working tree is clean and nobody asked for it.
    Silent,
    /// The line for the standard output stream.
    Line(String),
    /// The report has no line. The text names the working tree and the
    /// failure; the run cannot go on.
    Unreadable(String),
}

/// The failure text for a report without a single line.
pub open spec fn unreadable_text() -> Seq<char> {
    "Cannot read Git output. Maybe Git is not installed, or not in $PATH"@
}

/// What stands between the location and the failure text of an error line.
pub open spec fn error_joint() -> Seq<char> {
    "\n └─■ Err: "@
}

impl TerminalDisplay {
    /// The glyphs of `outcome` between square brackets, each in its colour:
    /// ahead, behind and file changes in yellow, or the all-clear in green.
    pub open spec fn badge(&self, glyphs: &Indicators, outcome: Outcome) -> Seq<char> {
        let none = Seq::<char>::empty();
        "["@ + (if outcome.ahead {
            self.terminal_color.painted(glyphs.ahead@, Color::Yellow)
        } else {
            none
        }) + (if outcome.behind {
            self.terminal_color.painted(glyphs.behind@, Color::Yellow)
        } else {
            none
        }) + (if outcome.has_file_changes {
            self.terminal_color.painted(glyphs.files@, Color::Yellow)
        } else {
            none
        }) + (if outcome.clean() {
            self.terminal_color.painted(glyphs.ok@, Color::Green)
        } else {
            none
        }) + "]"@
    }

    /// The name a working tree is shown by: its whole path in the most
    /// verbose mode, the name of its directory otherwise.
    pub open spec fn shown_path(&self, parent: Seq<char>, project: Seq<char>) -> Seq<char> {
        match self.verbose_mode {
            VerboseMode::Verbose2 => parent,
            _ => project,
        }
    }

    /// The line for a working tree with the given outcome, found in the
    /// directory `parent`, whose own name is `project`.
    pub open spec fn status_line(
        &self,
        glyphs: &Indicators,
        outcome: Outcome,
        parent: Seq<char>,
        project: Seq<char>,
    ) -> Seq<char> {
        self.badge(glyphs, outcome) + " - "@ + self.shown_path(parent, project)
    }

    /// The text that names a working tree whose report has no line.
    pub open spec fn unreadable_line(parent: Seq<char>) -> Seq<char> {
        parent + " - "@ + unreadable_text()
    }

    /// Whether a working tree with the given outcome gets no line.
    pub open spec fn stays_silent(&self, outcome: Outcome) -> bool {
        self.verbose_mode == VerboseMode::Nothing && outcome.clean()
    }

    /// The error glyph in red.
    pub open spec fn error_badge(&self, glyphs: &Indicators) -> Seq<char> {
        self.terminal_color.painted(glyphs.err@, Color::Red)
    }

    /// The all-clear line.
    pub open spec fn ok_line(&self, msg: Seq<char>, glyphs: &Indicators) -> Seq<char> {
        "["@ + self.terminal_color.painted(glyphs.ok@, Color::Green) + "] "@ + msg
    }

    /// An error line that names `place`.
    pub open spec fn located_error(
        &self,
        msg: Seq<char>,
        glyphs: &Indicators,
        place: Seq<char>,
    ) -> Seq<char> {
        "["@ + self.error_badge(glyphs) + "] - "@ + place + error_joint() + msg
    }

    pub fn new(verbose_mode: VerboseMode) -> (display: TerminalDisplay)
        ensures
            display.verbose_mode == verbose_mode,
            display.terminal_color.standard(),
    {
        TerminalDisplay { terminal_color: TerminalColor::new(), verbose_mode }
    }

    /// The name of the directory that holds the marker.
    pub fn display_project_name<'a>(self, path: &'a Entry) -> (name: &'a str)
        ensures
            name@ == path.project@,
    {
        path.project.as_str()
    }

    /// The whole path of the directory that holds the marker.
    pub fn display_full_path<'a>(self, path: &'a Entry) -> (full: &'a str)
        ensures
            full@ == path.parent@,
    {
        path.parent.as_str()
    }

    /// The name a working tree is shown by in this display's mode.
    pub fn path_variant<'a>(self, path: &'a Entry) -> (shown: &'a str)
        ensures
            shown@ == self.shown_path(path.parent@, path.project@),
    {
        match self.verbose_mode {
            VerboseMode::Nothing => self.display_project_name(path),
            VerboseMode::Verbose1 => self.display_project_name(path),
            VerboseMode::Verbose2 => self.display_full_path(path),
        }
    }

    /// Turns the text of a status report into the line to print and
    /// downgrades `project_state` where the working tree needs attention.
    pub fn render_git_ok(
        &mut self,
        git_output: String,
        path: &Entry,
        indicators: &Indicators,
        project_state: &mut InformationHandler,
    ) -> (rendered: GitLine)
        ensures
            *final(self) == *old(self),
            match (classification(git_output@), rendered) {
                (None, GitLine::Unreadable(text)) => {
                    &&& text@ == Self::unreadable_line(path.parent@)
                    &&& final(project_state).info_state == old(project_state).info_state
                },
                (Some(outcome), GitLine::Silent) => {
                    &&& old(self).stays_silent(outcome)
                    &&& final(project_state).info_state == old(project_state).info_state
                },
                (Some(outcome), GitLine::Line(text)) => {
                    &&& !old(self).stays_silent(outcome)
                    &&& text@ == old(self).status_line(
                        indicators,
                        outcome,
                        path.parent@,
                        path.project@,
                    )
                    &&& final(project_state).info_state == if outcome.clean() {
                        old(project_state).info_state
                    } else {
                        Information::Warning
                    }
                },
                _ => false,
            },
    {
        let outcome = match classify(git_output.as_str()) {
            Some(outcome) => outcome,
            None => {
                let mut text = path.parent.clone();
                text.append(" - ");
                text.append("Cannot read Git output. Maybe Git is not installed, or not in $PATH");
                return GitLine::Unreadable(text);
            },
        };
        let repo_ok = outcome.is_clean();
        if self.verbose_mode == VerboseMode::Nothing && repo_ok {
            return GitLine::Silent;
        }
        let mut indicator = String::from_str("[");
        let ghost none = Seq::<char>::empty();
        if outcome.ahead {
            let s = self.terminal_color.color(indicators.ahead, Color::Yellow);
            indicator.append(s.as_str());
            project_state.set(Information::Warning);
        } else {
            assert(indicator@ + none =~= indicator@);
        }
        if outcome.behind {
            let s = self.terminal_color.color(indicators.behind, Color::Yellow);
            indicator.append(s.as_str());
            project_state.set(Information::Warning);
        } else {
            assert(indicator@ + none =~= indicator@);
        }
        if outcome.has_file_changes {
            let s = self.terminal_color.color(indicators.files, Color::Yellow);
            indicator.append(s.as_str());
            project_state.set(Information::Warning);
        } else {
            assert(indicator@ + none =~= indicator@);
        }
        if repo_ok {
            let s = self.terminal_color.color(indicators.ok, Color::Green);
            indicator.append(s.as_str());
        } else {
            assert(indicator@ + none =~= indicator@);
        }
        indicator.append("]");
        assert(indicator@ == self.badge(indicators, outcome));
        indicator.append(" - ");
        indicator.append(self.path_variant(path));
        GitLine::Line(indicator)
    }

    /// The all-clear line: the green glyph in brackets, then `msg`. It is
    /// meant for the error stream, as all diagnostics are.
    pub fn render_ok_msg(&self, msg: &str, indicators: &Indicators) -> (line: String)
        ensures
            line@ == self.ok_line(msg@, indicators),
    {
        let indicator = self.terminal_color.color(indicators.ok, Color::Green);
        let mut line = String::from_str("[");
        line.append(indicator.as_str());
        line.append("] ");
        line.append(msg);
        line
    }

    /// An error line. With a path it names the directory that holds the path,
    /// behind the error glyph where glyphs are given; without one it holds
    /// the failure text alone.
    pub fn render_err(
        &self,
        err_msg: &str,
        indicators: Option<&Indicators>,
        path: Option<&Entry>,
    ) -> (line: String)
        ensures
            line@ == match path {
                Some(entry) => match indicators {
                    Some(glyphs) => self.located_error(err_msg@, glyphs, entry.parent@),
                    None => "[] - "@ + entry.parent@ + error_joint() + err_msg@,
                },
                None => "■ Err: "@ + err_msg@,
            },
    {
        let indicator = match indicators {
            Some(v) => self.terminal_color.color(v.err, Color::Red),
            None => String::new(),
        };
        match path {
            Some(v) => {
                let mut line = String::from_str("[");
                line.append(indicator.as_str());
                line.append("] - ");
                proof {
                    reveal_strlit("[");
                    reveal_strlit("] - ");
                    reveal_strlit("[] - ");
                    if indicators is None {
                        assert(line@ =~= "[] - "@);
                    }
                }
                line.append(v.parent.as_str());
                line.append("\n └─■ Err: ");
                line.append(err_msg);
                line
            },
            None => {
                let mut line = String::from_str("■ Err: ");
                line.append(err_msg);
                line
            },
        }
    }

    /// An error line that names `path` itself.
    pub fn render_path_err(
        &self,
        err_msg: &str,
        indicators: &Indicators,
        path: &str,
    ) -> (line: String)
        ensures
            line@ == self.located_error(err_msg@, indicators, path@),
    {
        let indicator = self.terminal_color.color(indicators.err, Color::Red);
        let mut line = String::from_str("[");
        line.append(indicator.as_str());
        line.append("] - ");
        line.append(path);
        line.append("\n └─■ Err: ");
        line.append(err_msg);
        line
    }
}

} // verus!

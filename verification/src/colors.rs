//! ANSI colour escapes for terminal output.

use vstd::prelude::*;
use vstd::string::StringExecFns;

verus! {

/// The escape sequences that switch the foreground colour.
#[derive(Copy, Clone)]
pub struct TerminalColor {
    pub red: &'static str,
    pub green: &'static str,
    pub yellow: &'static str,
}

/// The colours a message can be painted in.
pub enum Color {
    Red,
    Green,
    Yellow,
}

/// The escape sequence that resets all attributes.
pub open spec fn tail() -> Seq<char> {
    "\x1b[0m"@
}

impl TerminalColor {
    /// The escape sequence this palette holds for `color`.
    pub open spec fn prefix(&self, color: Color) -> Seq<char> {
        match color {
            Color::Red => self.red@,
            Color::Green => self.green@,
            Color::Yellow => self.yellow@,
        }
    }

    /// The palette that every constructor yields.
    pub open spec fn standard(&self) -> bool {
        &&& self.red@ == "\x1b[31m"@
        &&& self.green@ == "\x1b[32m"@
        &&& self.yellow@ == "\x1b[33m"@
    }

    /// What `color` returns: the escape, the message, the reset.
    pub open spec fn painted(&self, msg: Seq<char>, color: Color) -> Seq<char> {
        self.prefix(color) + msg + tail()
    }

    pub fn new() -> (palette: TerminalColor)
        ensures
            palette.standard(),
    {
        TerminalColor { red: "\x1b[31m", green: "\x1b[32m", yellow: "\x1b[33m" }
    }

    /// Wraps `msg` in the escape for `color` and the reset sequence.
    pub fn color(&self, msg: &str, color: Color) -> (painted: String)
        ensures
            painted@ == self.painted(msg@, color),
    {
        let head: &str = match color {
            Color::Red => self.red,
            Color::Green => self.green,
            Color::Yellow => self.yellow,
        };
        let mut out = String::from_str(head);
        out.append(msg);
        out.append("\x1b[0m");
        out
    }
}

} // verus!

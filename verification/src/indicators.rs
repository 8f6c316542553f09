//! The glyphs that stand for a repository's state in a report line.

use vstd::prelude::*;

verus! {

/// One glyph per state, in plain ASCII or in Unicode.
pub struct Indicators {
    pub ok: &'static str,
    pub ahead: &'static str,
    pub behind: &'static str,
    pub files: &'static str,
    pub err: &'static str,
}

impl Indicators {
    /// Whether these are the ASCII glyphs.
    pub open spec fn is_ascii_set(&self) -> bool {
        &&& self.ok@ == "+"@
        &&& self.ahead@ == "->"@
        &&& self.behind@ == "<-"@
        &&& self.files@ == "*"@
        &&& self.err@ == "x"@
    }

    /// Whether these are the Unicode glyphs.
    pub open spec fn is_unicode_set(&self) -> bool {
        &&& self.ok@ == "✓"@
        &&& self.ahead@ == "→"@
        &&& self.behind@ == "←"@
        &&& self.files@ == "◎"@
        &&& self.err@ == "⨯"@
    }

    /// The ASCII glyphs where `mode` is set, the Unicode glyphs otherwise.
    pub fn new(mode: bool) -> (glyphs: Indicators)
        ensures
            mode ==> glyphs.is_ascii_set(),
            !mode ==> glyphs.is_unicode_set(),
    {
        if mode {
            Indicators { ok: "+", ahead: "->", behind: "<-", files: "*", err: "x" }
        } else {
            Indicators { ok: "✓", ahead: "→", behind: "←", files: "◎", err: "⨯" }
        }
    }
}

} // verus!

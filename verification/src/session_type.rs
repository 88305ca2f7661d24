use vstd::prelude::*;

verus! {

/// A colour of the terminal palette that the timer's screens use.
#[derive(Debug, Clone, Copy, PartialEq, Eq, Structural)]
pub enum UiColor {
    Green,
    Cyan,
    Yellow,
    Blue,
    Magenta,
    DarkGrey,
    White,
}

/// The kind of interval a session is: work or break.
#[derive(Debug, Clone, Copy, PartialEq, Eq, Structural)]
pub enum SessionType {
    Work,
    Break,
}

impl SessionType {
    /// The banner text of the session type.
    pub open spec fn spec_display_name(self) -> Seq<char> {
        match self {
            SessionType::Work => "WORK"@,
            SessionType::Break => "BREAK"@,
        }
    }

    /// The colour in which a session of this type is drawn.
    pub open spec fn spec_color(self) -> UiColor {
        match self {
            SessionType::Work => UiColor::Green,
            SessionType::Break => UiColor::Cyan,
        }
    }

    /// Work is followed by a break and a break by work.
    pub open spec fn spec_next(self) -> SessionType {
        match self {
            SessionType::Work => SessionType::Break,
            SessionType::Break => SessionType::Work,
        }
    }

    pub fn display_name(&self) -> (name: &'static str)
        ensures
            name@ == self.spec_display_name(),
    {
        match self {
            SessionType::Work => "WORK",
            SessionType::Break => "BREAK",
        }
    }

    pub fn color(&self) -> (c: UiColor)
        ensures
            c == self.spec_color(),
    {
        match self {
            SessionType::Work => UiColor::Green,
            SessionType::Break => UiColor::Cyan,
        }
    }

    pub fn next(&self) -> (n: SessionType)
        ensures
            n == self.spec_next(),
    {
        match self {
            SessionType::Work => SessionType::Break,
            SessionType::Break => SessionType::Work,
        }
    }
}

/// Switching the session type twice gives the type back, and switching
/// always changes it: work and break alternate.
pub proof fn lemma_next_alternates(t: SessionType)
    ensures
        t.spec_next().spec_next() == t,
        t.spec_next() != t,
{
}

} // verus!

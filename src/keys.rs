use vstd::prelude::*;

verus! {

/// An input event, as the terminal reports it.
#[derive(Clone, Copy, Debug, PartialEq, Eq, Structural)]
pub enum Event {
    Up,
    Down,
    PageUp,
    PageDown,
    Home,
    End,
    Enter,
    Esc,
    /// A character key without modifiers.
    Char(char),
    /// New dimensions: width, then height.
    Resize(u16, u16),
    /// Any other input.
    Other,
}

impl Event {
    pub open spec fn is_up(self) -> bool {
        self == Event::Up || self == Event::Char('k')
    }

    pub open spec fn is_down(self) -> bool {
        self == Event::Down || self == Event::Char('j')
    }

    pub open spec fn is_close(self) -> bool {
        self == Event::Esc || self == Event::Char('q')
    }
}

} // verus!

//! A four-phase spinner shown beside the most recent timer while it runs.

use vstd::prelude::*;

verus! {

/// The four phases of the spinner, advanced once per whole-second tick.
#[derive(Debug, Clone, Copy, PartialEq, Eq, Structural)]
pub enum ThrobberState {
    One,
    Two,
    Three,
    Four,
}

impl ThrobberState {
    /// The phase that follows this one, cyclically.
    pub open spec fn spec_next(self) -> ThrobberState {
        match self {
            ThrobberState::One => ThrobberState::Two,
            ThrobberState::Two => ThrobberState::Three,
            ThrobberState::Three => ThrobberState::Four,
            ThrobberState::Four => ThrobberState::One,
        }
    }

    pub fn next(&self) -> (r: ThrobberState)
        ensures
            r == self.spec_next(),
    {
        match *self {
            ThrobberState::One => ThrobberState::Two,
            ThrobberState::Two => ThrobberState::Three,
            ThrobberState::Three => ThrobberState::Four,
            ThrobberState::Four => ThrobberState::One,
        }
    }
}

#[derive(Debug, Clone, PartialEq, Eq, Structural)]
pub struct Throbber {
    state: ThrobberState,
}

impl Throbber {
    /// The current phase, for contracts.
    pub closed spec fn phase(self) -> ThrobberState {
        self.state
    }

    /// The glyph drawn for the current phase.
    pub closed spec fn spec_symbol(self) -> Seq<char> {
        match self.state {
            ThrobberState::One => "-"@,
            ThrobberState::Two => "\\"@,
            ThrobberState::Three => "|"@,
            ThrobberState::Four => "/"@,
        }
    }

    pub fn new() -> (r: Throbber)
        ensures
            r.phase() == ThrobberState::One,
    {
        Throbber { state: ThrobberState::One }
    }

    /// Advance the spinner by one phase.
    pub fn tick(&mut self)
        ensures
            final(self).phase() == old(self).phase().spec_next(),
    {
        self.state = self.state.next()
    }

    pub fn get_state_string(&self) -> (r: &str)
        ensures
            r@ == self.spec_symbol(),
    {
        match self.state {
            ThrobberState::One => "-",
            ThrobberState::Two => "\\",
            ThrobberState::Three => "|",
            ThrobberState::Four => "/",
        }
    }
}

} // verus!

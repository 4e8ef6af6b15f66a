use vstd::prelude::*;

use crate::commit_state::CommitState;
use crate::keys::Event;
use crate::log_state::LogState;

verus! {

/// A screen of the application: the history list or one commit.
#[derive(Debug)]
pub enum AppState {
    Log(LogState),
    Commit(CommitState),
}

/// What the active state asks of the stack after an event.
#[derive(Debug)]
pub enum CommandResult {
    /// Nothing changes.
    Keep,
    /// The given state goes on top.
    ChangeState(AppState),
    /// The top state goes; with none left, the application ends.
    PopState,
    /// The top state gives way to the given one, in one step.
    ReplaceState(AppState),
    /// The application ends, whatever the depth.
    Quit,
}

impl AppState {
    pub open spec fn wf(&self) -> bool {
        match self {
            AppState::Log(l) => l.wf(),
            AppState::Commit(_) => true,
        }
    }

    /// How a state answers `event`: `a` before, `b` after, `r` what it asks.
    pub open spec fn handles(a: AppState, event: Event, b: AppState, r: CommandResult) -> bool {
        match (a, b) {
            (AppState::Log(x), AppState::Log(y)) => LogState::handles(x, event, y, r),
            (AppState::Commit(x), AppState::Commit(y)) => y == x && CommitState::handles(event, r),
            _ => false,
        }
    }

    /// Lets the state react to `event`; see the two states' own contracts.
    pub fn handle_event(&mut self, event: Event) -> (r: CommandResult)
        requires
            old(self).wf(),
        ensures
            final(self).wf(),
            r.wf(),
            Self::handles(*old(self), event, *final(self), r),
    {
        match self {
            AppState::Log(l) => l.handle_event(event),
            AppState::Commit(c) => c.handle_event(event),
        }
    }
}

impl CommandResult {
    pub open spec fn wf(&self) -> bool {
        match self {
            CommandResult::ChangeState(s) => s.wf(),
            CommandResult::ReplaceState(s) => s.wf(),
            _ => true,
        }
    }
}

} // verus!

use vstd::prelude::*;

use crate::diff::DiffModel;
use crate::git::CommitInfo;
use crate::keys::Event;
use crate::state::CommandResult;

verus! {

/// One commit: its summary and, once the repository has computed it, its diff.
#[derive(Debug)]
pub struct CommitState {
    pub commit_info: CommitInfo,
    /// `None` until the diff has been loaded.
    pub diff: Option<DiffModel>,
}

impl CommitState {
    /// The view of `commit`, its diff not loaded yet.
    pub fn new(commit: CommitInfo) -> (r: CommitState)
        ensures
            r.commit_info == commit,
            r.diff is None,
    {
        CommitState { commit_info: commit, diff: None }
    }

    /// Takes the computed diff.
    pub fn load(&mut self, diff: DiffModel)
        ensures
            final(self).commit_info == old(self).commit_info,
            final(self).diff == Some(diff),
    {
        self.diff = Some(diff);
    }

    /// `q` or Esc closes the view; any other event is ignored.
    pub open spec fn handles(event: Event, r: CommandResult) -> bool {
        if event.is_close() {
            r is PopState
        } else {
            r is Keep
        }
    }

    pub fn handle_event(&self, event: Event) -> (r: CommandResult)
        ensures
            Self::handles(event, r),
    {
        match event {
            Event::Esc | Event::Char('q') => CommandResult::PopState,
            _ => CommandResult::Keep,
        }
    }
}

} // verus!

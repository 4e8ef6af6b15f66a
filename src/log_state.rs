use vstd::prelude::*;

use crate::commit_state::CommitState;
use crate::git::CommitInfo;
use crate::keys::Event;
use crate::list_view::{ListModel, ListView};
use crate::state::{AppState, CommandResult};

verus! {

/// The history list: every commit of the walk, newest first.
#[derive(Debug)]
pub struct LogState {
    pub commit_list: ListView<CommitInfo>,
    /// Why the last attempt to open a commit failed, until the next event.
    pub error: Option<String>,
}

/// The list after `event`: Up/`k` and Down/`j` move the selection, PageUp and
/// PageDown scroll a page and select the first row that the move revealed,
/// Home and End jump to either end, a resize takes the new dimensions.
pub open spec fn list_after(m: ListModel<CommitInfo>, event: Event) -> ListModel<CommitInfo> {
    if event.is_up() {
        m.select_next(true)
    } else if event.is_down() {
        m.select_next(false)
    } else if event == Event::PageUp {
        m.unselect().scroll_pages(-1).select_next(false)
    } else if event == Event::PageDown {
        m.unselect().scroll_pages(1).select_next(false)
    } else if event == Event::Home {
        m.select_first()
    } else if event == Event::End {
        m.select_last()
    } else {
        match event {
            Event::Resize(w, h) => m.resize(w as nat, h as nat),
            _ => m,
        }
    }
}

impl LogState {
    pub open spec fn wf(&self) -> bool {
        self.commit_list.wf()
    }

    /// The list of `commits`, in the order given, in a viewport of `width` by
    /// `height` rows, with the first commit selected.
    pub fn new(commits: Vec<CommitInfo>, width: u16, height: u16) -> (r: LogState)
        ensures
            r.wf(),
            r.commit_list@ == (ListModel {
                rows: commits@,
                width: width as nat,
                height: height as nat,
                origin: 0,
                selected: None,
            }).select_first(),
            r.error is None,
    {
        let mut commit_list = ListView::with_rows(commits, width, height);
        commit_list.select_first();
        LogState { commit_list, error: None }
    }

    /// How the history list answers `event`: the list moves as
    /// [`list_after`] says and any error is cleared; Enter on a selected
    /// commit pushes that commit's view, Enter without a selection keeps the
    /// list; Esc or `q` closes it; anything else keeps it.
    pub open spec fn handles(a: LogState, event: Event, b: LogState, r: CommandResult) -> bool {
        &&& b.commit_list@ == list_after(a.commit_list@, event)
        &&& b.error is None
        &&& if event == Event::Enter {
            match a.commit_list@.selected {
                Some(i) => r matches CommandResult::ChangeState(AppState::Commit(c)) && c.commit_info
                    == a.commit_list@.rows[i as int] && c.diff is None,
                None => r is Keep,
            }
        } else if event.is_close() {
            r is PopState
        } else {
            r is Keep
        }
    }

    pub fn handle_event(&mut self, event: Event) -> (r: CommandResult)
        requires
            old(self).wf(),
        ensures
            final(self).wf(),
            r.wf(),
            Self::handles(*old(self), event, *final(self), r),
    {
        self.error = None;
        match event {
            Event::Enter => {
                match self.commit_list.selection() {
                    Some(commit) => {
                        let state = CommitState::new(commit.duplicate());
                        CommandResult::ChangeState(AppState::Commit(state))
                    },
                    None => CommandResult::Keep,
                }
            },
            Event::Up | Event::Char('k') => {
                self.commit_list.select_next(true);
                CommandResult::Keep
            },
            Event::Down | Event::Char('j') => {
                self.commit_list.select_next(false);
                CommandResult::Keep
            },
            Event::PageUp => {
                self.commit_list.unselect();
                self.commit_list.scroll_pages(-1);
                self.commit_list.select_next(false);
                CommandResult::Keep
            },
            Event::PageDown => {
                self.commit_list.unselect();
                self.commit_list.scroll_pages(1);
                self.commit_list.select_next(false);
                CommandResult::Keep
            },
            Event::Home => {
                self.commit_list.select_first();
                CommandResult::Keep
            },
            Event::End => {
                self.commit_list.select_last();
                CommandResult::Keep
            },
            Event::Resize(w, h) => {
                self.commit_list.resize(w, h);
                CommandResult::Keep
            },
            Event::Esc | Event::Char('q') => CommandResult::PopState,
            _ => CommandResult::Keep,
        }
    }
}

} // verus!

use vstd::prelude::*;

use crate::diff::DiffModel;
use crate::git::CommitInfo;
use crate::keys::Event;
use crate::state::{AppState, CommandResult};

verus! {

/// The stack of states: the top one receives the events and is displayed.
#[derive(Debug)]
pub struct App {
    states: Vec<AppState>,
}

impl View for App {
    type V = Seq<AppState>;

    closed spec fn view(&self) -> Seq<AppState> {
        self.states@
    }
}

/// The stack after `cmd`.
pub open spec fn stack_after(s: Seq<AppState>, cmd: CommandResult) -> Seq<AppState> {
    match cmd {
        CommandResult::Keep => s,
        CommandResult::ChangeState(v) => s.push(v),
        CommandResult::PopState => if s.len() > 0 {
            s.drop_last()
        } else {
            s
        },
        CommandResult::ReplaceState(v) => if s.len() > 0 {
            s.drop_last().push(v)
        } else {
            s.push(v)
        },
        CommandResult::Quit => s,
    }
}

/// Whether `cmd` ends the application: a pop of the last state, or a quit.
pub open spec fn ends(s: Seq<AppState>, cmd: CommandResult) -> bool {
    match cmd {
        CommandResult::PopState => s.len() <= 1,
        CommandResult::Quit => true,
        _ => false,
    }
}

/// A state of commit whose diff is still to be loaded.
pub open spec fn is_pending(s: AppState) -> bool {
    s matches AppState::Commit(c) && c.diff is None
}

/// Popping the only state ends the application; popping one of two leaves
/// the other alone on the stack without ending it, and a second pop then ends
/// it.
pub proof fn lemma_pop_ends_at_last_state(s: Seq<AppState>)
    requires
        s.len() == 1 || s.len() == 2,
    ensures
        s.len() == 1 ==> ends(s, CommandResult::PopState),
        s.len() == 2 ==> {
            let t = stack_after(s, CommandResult::PopState);
            &&& !ends(s, CommandResult::PopState)
            &&& t == s.subrange(0, 1)
            &&& ends(t, CommandResult::PopState)
        },
{
    if s.len() == 2 {
        assert(s.drop_last() =~= s.subrange(0, 1));
    }
}

impl App {
    pub open spec fn wf(&self) -> bool {
        forall|i: int| 0 <= i < self@.len() ==> (#[trigger] self@[i]).wf()
    }

    /// An empty stack.
    pub fn new() -> (r: App)
        ensures
            r.wf(),
            r@.len() == 0,
    {
        App { states: Vec::new() }
    }

    pub fn depth(&self) -> (r: usize)
        ensures
            r == self@.len(),
    {
        self.states.len()
    }

    /// Puts `state` on top.
    pub fn push(&mut self, state: AppState)
        requires
            old(self).wf(),
            state.wf(),
        ensures
            final(self).wf(),
            final(self)@ == old(self)@.push(state),
    {
        self.states.push(state);
    }

    /// Removes the top state, if any, and returns whether none is left.
    pub fn pop(&mut self) -> (r: bool)
        requires
            old(self).wf(),
        ensures
            final(self).wf(),
            final(self)@ == stack_after(old(self)@, CommandResult::PopState),
            r == (final(self)@.len() == 0),
    {
        let ghost before = self@;
        self.states.pop();
        assert forall|i: int| 0 <= i < self@.len() implies (#[trigger] self@[i]).wf() by {
            assert(self@[i] == before[i]);
        }
        self.states.len() == 0
    }

    /// The current state.
    pub fn state(&self) -> (r: &AppState)
        requires
            self@.len() > 0,
        ensures
            *r == self@.last(),
    {
        &self.states[self.states.len() - 1]
    }

    /// Carries out `cmd` and returns whether the application ends.
    pub fn apply(&mut self, cmd: CommandResult) -> (r: bool)
        requires
            old(self).wf(),
            cmd.wf(),
        ensures
            final(self).wf(),
            final(self)@ == stack_after(old(self)@, cmd),
            r == ends(old(self)@, cmd),
    {
        match cmd {
            CommandResult::Keep => false,
            CommandResult::ChangeState(s) => {
                self.push(s);
                false
            },
            CommandResult::PopState => {
                let last = self.states.len() <= 1;
                self.pop();
                last
            },
            CommandResult::ReplaceState(s) => {
                self.pop();
                self.push(s);
                false
            },
            CommandResult::Quit => true,
        }
    }

    /// Hands `event` to the current state, carries out what it asks, and
    /// returns whether the application ends.
    pub fn handle_event(&mut self, event: Event) -> (r: bool)
        requires
            old(self).wf(),
            old(self)@.len() > 0,
        ensures
            final(self).wf(),
            exists|top: AppState, cmd: CommandResult|
                {
                    &&& AppState::handles(old(self)@.last(), event, top, cmd)
                    &&& final(self)@ == stack_after(old(self)@.drop_last().push(top), cmd)
                    &&& r == ends(old(self)@.drop_last().push(top), cmd)
                },
    {
        let ghost rest = self@.drop_last();
        let mut top = self.states.pop().unwrap();
        assert(self@ == rest);
        let cmd = top.handle_event(event);
        let ghost (t, c) = (top, cmd);
        self.push(top);
        let r = self.apply(cmd);
        assert(AppState::handles(old(self)@.last(), event, t, c));
        assert(final(self)@ == stack_after(rest.push(t), c));
        r
    }

    /// The commit whose view was just pushed and still waits for its diff.
    pub fn pending_commit(&self) -> (r: Option<&CommitInfo>)
        ensures
            r matches Some(c) ==> self@.len() > 0 && (self@.last() matches AppState::Commit(s)
                && s.diff is None && *c == s.commit_info),
            r is None ==> !(self@.len() > 0 && is_pending(self@.last())),
    {
        let n = self.states.len();
        if n == 0 {
            return None;
        }
        match &self.states[n - 1] {
            AppState::Commit(s) => match &s.diff {
                None => Some(&s.commit_info),
                Some(_) => None,
            },
            AppState::Log(_) => None,
        }
    }

    /// Completes the opening of the pending commit: with its diff the view
    /// stays on top; on an error the view goes, and the history list beneath
    /// it (if that is what lies there) shows the message.
    pub fn complete_open(&mut self, outcome: Result<DiffModel, String>)
        requires
            old(self).wf(),
            old(self)@.len() > 0,
            is_pending(old(self)@.last()),
        ensures
            final(self).wf(),
            match outcome {
                Ok(d) => {
                    &&& final(self)@.len() == old(self)@.len()
                    &&& final(self)@.drop_last() == old(self)@.drop_last()
                    &&& final(self)@.last() matches AppState::Commit(s)
                    &&& old(self)@.last() matches AppState::Commit(o)
                    &&& s.commit_info == o.commit_info
                    &&& s.diff == Some(d)
                },
                Err(e) => {
                    let below = old(self)@.drop_last();
                    &&& final(self)@.len() == below.len()
                    &&& below.len() > 0 ==> final(self)@.drop_last() == below.drop_last()
                    &&& below.len() > 0 ==> match below.last() {
                        AppState::Log(l) => final(self)@.last() matches AppState::Log(m)
                            && m.commit_list == l.commit_list && m.error == Some(e),
                        AppState::Commit(c) => final(self)@.last() == below.last(),
                    }
                },
            },
    {
        let top = self.states.pop().unwrap();
        match outcome {
            Ok(d) => {
                match top {
                    AppState::Commit(mut s) => {
                        s.load(d);
                        self.push(AppState::Commit(s));
                    },
                    AppState::Log(l) => {
                        self.push(AppState::Log(l));
                    },
                }
            },
            Err(e) => {
                if self.states.len() > 0 {
                    let below = self.states.pop().unwrap();
                    match below {
                        AppState::Log(mut l) => {
                            l.error = Some(e);
                            self.push(AppState::Log(l));
                        },
                        AppState::Commit(c) => {
                            self.push(AppState::Commit(c));
                        },
                    }
                }
            },
        }
    }
}

} // verus!

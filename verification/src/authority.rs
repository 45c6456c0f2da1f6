//! The task authority of an asynchronous crawl: it receives the tasks that the
//! crawl hands out (reading a directory, running the action on an entry), keeps
//! them until they are joined, and decides when the crawl is over.
//!
//! The caller owns the channel and the task sets; after each thing that happens
//! it reports it here and asks `step` what to do next.

use vstd::prelude::*;

verus! {

/// The two kinds of task of an asynchronous crawl.
#[derive(Debug, Clone, Copy, PartialEq, Eq)]
pub enum TaskKind {
    /// Reading a directory (and handing out tasks for its entries).
    Recursion,
    /// Running the user's action on one entry.
    Action,
}

/// What a non-blocking receive on the authority's channel gave.
#[derive(Debug, Clone, Copy, PartialEq, Eq)]
pub enum Received {
    /// A task of this kind, to be spawned into its set.
    Task(TaskKind),
    /// Nothing was waiting.
    Empty,
}

/// What the authority does next.
#[derive(Debug, Clone, Copy, PartialEq, Eq)]
pub enum Step {
    /// Every task has been joined: the crawl is over.
    Finish,
    /// A task failed: the crawl ends with its error.
    Fail,
    /// Try to join a finished task from each set that is flagged.
    Poll { recursion: bool, action: bool },
}

/// Something that happened to the authority.
pub enum Event {
    /// A task of this kind was received and spawned.
    Spawned(TaskKind),
    /// A task of this kind was joined; `ok` tells whether it succeeded.
    Joined(TaskKind, bool),
}

/// The authority's state, as values.
pub struct AuthorityView {
    /// Spawned reading tasks that are not joined yet.
    pub recursion: nat,
    /// Spawned action tasks that are not joined yet.
    pub action: nat,
    /// Whether a joined task has failed.
    pub failed: bool,
}

pub open spec fn initial() -> AuthorityView {
    AuthorityView { recursion: 0, action: 0, failed: false }
}

/// The tasks of `kind` that are not joined yet.
pub open spec fn pending(s: AuthorityView, kind: TaskKind) -> nat {
    match kind {
        TaskKind::Recursion => s.recursion,
        TaskKind::Action => s.action,
    }
}

/// The state after one event.
pub open spec fn after(s: AuthorityView, e: Event) -> AuthorityView {
    match e {
        Event::Spawned(TaskKind::Recursion) => AuthorityView { recursion: s.recursion + 1, ..s },
        Event::Spawned(TaskKind::Action) => AuthorityView { action: s.action + 1, ..s },
        Event::Joined(TaskKind::Recursion, ok) => AuthorityView {
            recursion: (s.recursion - 1) as nat,
            failed: s.failed || !ok,
            ..s
        },
        Event::Joined(TaskKind::Action, ok) => AuthorityView {
            action: (s.action - 1) as nat,
            failed: s.failed || !ok,
            ..s
        },
    }
}

/// The next step in state `s`.
pub open spec fn next_step(s: AuthorityView) -> Step {
    if s.failed {
        Step::Fail
    } else if s.recursion == 0 && s.action == 0 {
        Step::Finish
    } else {
        Step::Poll { recursion: s.recursion > 0, action: s.action > 0 }
    }
}

/// The bookkeeping of the tasks of an asynchronous crawl.
#[derive(Debug)]
pub struct TaskAuthority {
    recursion: usize,
    action: usize,
    failed: bool,
}

impl View for TaskAuthority {
    type V = AuthorityView;

    closed spec fn view(&self) -> AuthorityView {
        AuthorityView { recursion: self.recursion as nat, action: self.action as nat, failed: self.failed }
    }
}

impl TaskAuthority {
    /// An authority with no tasks.
    pub fn new() -> (res: Self)
        ensures
            res@ == initial(),
    {
        TaskAuthority { recursion: 0, action: 0, failed: false }
    }

    /// Whether one more task of `kind` can be counted.
    pub fn has_room(&self, kind: TaskKind) -> (res: bool)
        ensures
            res == (pending(self@, kind) < usize::MAX),
    {
        match kind {
            TaskKind::Recursion => self.recursion < usize::MAX,
            TaskKind::Action => self.action < usize::MAX,
        }
    }

    /// How many tasks of `kind` are not joined yet.
    pub fn pending_tasks(&self, kind: TaskKind) -> (res: usize)
        ensures
            res == pending(self@, kind),
    {
        match kind {
            TaskKind::Recursion => self.recursion,
            TaskKind::Action => self.action,
        }
    }

    /// Records what a receive on the channel gave.
    pub fn receive(&mut self, received: Received)
        requires
            received matches Received::Task(kind) ==> pending(old(self)@, kind) < usize::MAX,
        ensures
            final(self)@ == match received {
                Received::Task(kind) => after(old(self)@, Event::Spawned(kind)),
                Received::Empty => old(self)@,
            },
    {
        match received {
            Received::Task(TaskKind::Recursion) => self.recursion = self.recursion + 1,
            Received::Task(TaskKind::Action) => self.action = self.action + 1,
            Received::Empty => {},
        }
    }

    /// Records that a task of `kind` was joined, and whether it succeeded.
    pub fn joined(&mut self, kind: TaskKind, ok: bool)
        requires
            pending(old(self)@, kind) > 0,
        ensures
            final(self)@ == after(old(self)@, Event::Joined(kind, ok)),
    {
        match kind {
            TaskKind::Recursion => self.recursion = self.recursion - 1,
            TaskKind::Action => self.action = self.action - 1,
        }
        if !ok {
            self.failed = true;
        }
    }

    /// What to do next.
    pub fn step(&self) -> (res: Step)
        ensures
            res == next_step(self@),
    {
        if self.failed {
            Step::Fail
        } else if self.recursion == 0 && self.action == 0 {
            Step::Finish
        } else {
            Step::Poll { recursion: self.recursion > 0, action: self.action > 0 }
        }
    }
}

} // verus!

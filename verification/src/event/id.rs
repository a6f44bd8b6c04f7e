//! Who caused an event.

use vstd::prelude::*;

verus! {

/// The id of a process, or of a thread: which of the two a group reports
/// is fixed when it is opened.
#[derive(Debug, Copy, Clone, Eq, PartialEq, Hash, Structural)]
pub enum Id {
    Pid(i32),
    Tid(i32),
}

/// The process id of the caller, from `nix::unistd::getpid`. Nothing is
/// claimed of the number: it is whatever the system says.
#[verifier::external_body]
fn current_process_id() -> (id: i32) {
    nix::unistd::getpid().as_raw()
}

/// The thread id of the caller, from `nix::unistd::gettid`. Nothing is
/// claimed of the number: it is whatever the system says.
#[verifier::external_body]
fn current_thread_id() -> (id: i32) {
    nix::unistd::gettid().as_raw()
}

impl Id {
    /// The number, whichever kind of id this is.
    pub open spec fn spec_raw(&self) -> i32 {
        match self {
            Id::Pid(raw) => *raw,
            Id::Tid(raw) => *raw,
        }
    }

    #[verifier::when_used_as_spec(spec_raw)]
    pub fn raw(&self) -> (raw: i32)
        ensures
            raw == self.spec_raw(),
    {
        match self {
            Id::Pid(raw) => *raw,
            Id::Tid(raw) => *raw,
        }
    }

    pub fn pid(&self) -> (pid: Option<i32>)
        ensures
            pid == match *self {
                Id::Pid(raw) => Some(raw),
                Id::Tid(_) => None::<i32>,
            },
    {
        match self {
            Id::Pid(raw) => Some(*raw),
            Id::Tid(_) => None,
        }
    }

    pub fn tid(&self) -> (tid: Option<i32>)
        ensures
            tid == match *self {
                Id::Pid(_) => None::<i32>,
                Id::Tid(raw) => Some(raw),
            },
    {
        match self {
            Id::Pid(_) => None,
            Id::Tid(raw) => Some(*raw),
        }
    }

    /// An id of the same kind as this one, with another number.
    pub open spec fn spec_same_kind(&self, raw: i32) -> Id {
        match self {
            Id::Pid(_) => Id::Pid(raw),
            Id::Tid(_) => Id::Tid(raw),
        }
    }

    #[verifier::when_used_as_spec(spec_same_kind)]
    pub fn same_kind(&self, raw: i32) -> (id: Id)
        ensures
            id == self.spec_same_kind(raw),
    {
        match self {
            Id::Pid(_) => Id::Pid(raw),
            Id::Tid(_) => Id::Tid(raw),
        }
    }

    /// The id of the caller: that of its thread if `use_tid`, else that of
    /// its process.
    pub fn current(use_tid: bool) -> (id: Id)
        ensures
            id is Tid <==> use_tid,
    {
        if use_tid {
            Id::Tid(current_thread_id())
        } else {
            Id::Pid(current_process_id())
        }
    }
}

/// Who caused an event, and whether that was the reader of the event itself.
#[derive(Debug, Copy, Clone, Eq, PartialEq, Hash, Structural)]
pub struct EventId {
    pub is_generated_by_self: bool,
    pub id: Id,
}

impl EventId {
    /// The id of an event that names `raw`, as seen by a reader whose own id is `own`.
    pub open spec fn spec_of(raw: i32, own: Id) -> EventId {
        EventId { is_generated_by_self: raw == own.spec_raw(), id: own.spec_same_kind(raw) }
    }

    #[verifier::when_used_as_spec(spec_of)]
    pub fn of(raw: i32, own: Id) -> (id: EventId)
        ensures
            id == Self::spec_of(raw, own),
    {
        EventId { is_generated_by_self: raw == own.raw(), id: own.same_kind(raw) }
    }

    pub fn id(&self) -> (id: Id)
        ensures
            id == self.id,
    {
        self.id
    }

    pub fn pid(&self) -> (pid: Option<i32>)
        ensures
            pid == match self.id {
                Id::Pid(raw) => Some(raw),
                Id::Tid(_) => None::<i32>,
            },
    {
        self.id.pid()
    }

    pub fn tid(&self) -> (tid: Option<i32>)
        ensures
            tid == match self.id {
                Id::Pid(_) => None::<i32>,
                Id::Tid(raw) => Some(raw),
            },
    {
        self.id.tid()
    }
}

} // verus!

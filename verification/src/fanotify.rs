//! A group: the descriptor that the kernel gave for it, and how it was opened.
//!
//! The calls into the kernel are not made here. Each of them has a step
//! before it, which decides whether the call is made and with what, and a
//! step after it, which says what the call's return means.

use vstd::prelude::*;
use crate::event::buffer::EventBuffer;
use crate::event::iterator::spec_has_flag;
use crate::event::iterator::Events;
use crate::fd::FD;
use crate::init::Init;
use crate::init::NotificationClass;
use crate::init::RawInit;
use crate::libc::FAN_REPORT_TID;
use crate::mark::Mark;
use crate::mark::RawError;

verus! {

/// A group.
#[derive(Debug, Copy, Clone, Eq, PartialEq, Hash, Structural)]
pub struct Fanotify {
    pub fd: FD,
    pub init: RawInit,
}

/// The arguments of the kernel's mark call.
#[derive(Debug, Clone, Eq, PartialEq, Hash)]
pub struct RawFanotifyMark {
    pub fd: i32,
    pub flags: u32,
    pub mask: u64,
    pub dir_fd: i32,
    pub path: Option<String>,
}

impl Init {
    /// Opens a group with this configuration, given what the kernel's
    /// open call returned: the descriptor of the new group, or an error
    /// number that the call is documented to fail with.
    ///
    /// A configuration that [`check`](Init::check) refuses gives its error
    /// here too, whatever `outcome` says: for such a configuration the call
    /// is not to be made, and no descriptor is opened.
    pub fn to_fanotify(&self, outcome: Result<i32, i32>) -> (group: Result<Fanotify, crate::init::Error>)
        requires
            !self.spec_is_invalid() && outcome is Err ==> crate::init::Error::spec_is_documented(
                outcome->Err_0,
            ),
        ensures
            self.spec_is_invalid() ==> group == Err::<Fanotify, crate::init::Error>(
                crate::init::Error::InvalidArgument,
            ),
            !self.spec_is_invalid() ==> group == match outcome {
                Err(errno) => Err::<Fanotify, crate::init::Error>(
                    crate::init::Error::spec_from_errno(errno),
                ),
                Ok(fd) => if fd >= 0 {
                    Ok::<Fanotify, crate::init::Error>(
                        Fanotify { fd: FD { fd }, init: self.spec_as_raw() },
                    )
                } else {
                    Err::<Fanotify, crate::init::Error>(
                        crate::init::Error::InvalidFd { fd: FD { fd } },
                    )
                },
            },
    {
        let init = match self.check() {
            Err(error) => {
                return Err(error);
            },
            Ok(init) => init,
        };
        match outcome {
            Err(errno) => Err(crate::init::Error::from_errno(errno)),
            Ok(fd) => {
                let fd = FD::new(fd);
                if fd.check() {
                    Ok(Fanotify { fd, init })
                } else {
                    Err(crate::init::Error::InvalidFd { fd })
                }
            },
        }
    }
}

impl Fanotify {
    /// The group behind a descriptor that was opened with `init`.
    pub fn new(fd: FD, init: RawInit) -> (group: Self)
        ensures
            group == (Fanotify { fd, init }),
    {
        Fanotify { fd, init }
    }

    /// Whether a mark asks this group for what it cannot give: requests for
    /// permissions, in a group of the plain notification class.
    pub open spec fn spec_refuses(&self, mark: &Mark) -> bool {
        mark.mask.spec_includes_permission() && self.init.spec_notification_class()
            == NotificationClass::Notify
    }

    #[verifier::when_used_as_spec(spec_refuses)]
    pub fn refuses(&self, mark: &Mark) -> (refused: bool)
        ensures
            refused == self.spec_refuses(mark),
    {
        let notify = match self.init.notification_class() {
            NotificationClass::Notify => true,
            _ => false,
        };
        mark.mask.includes_permission() && notify
    }

    /// The arguments for the kernel's mark call, unless the mark asks this
    /// group for what it cannot give: then no call is to be made.
    pub fn mark_request(&self, mark: &Mark) -> (request: Result<RawFanotifyMark, RawError>)
        ensures
            self.spec_refuses(mark) ==> request == Err::<RawFanotifyMark, RawError>(
                RawError::InvalidArgument,
            ),
            !self.spec_refuses(mark) ==> request is Ok && ({
                let raw = request->Ok_0;
                &&& raw.fd == self.fd.fd
                &&& raw.flags == mark.spec_raw_flags()
                &&& raw.mask == mark.mask.bits
                &&& raw.dir_fd == mark.path.dir.fd
                &&& raw.path is Some == mark.path.path is Some
                &&& raw.path is Some ==> raw.path->Some_0@ == mark.path.path->Some_0@
            }),
    {
        if self.refuses(mark) {
            return Err(RawError::InvalidArgument);
        }
        let raw = mark.to_raw();
        Ok(
            RawFanotifyMark {
                fd: self.fd.fd,
                flags: raw.flags,
                mask: raw.mask,
                dir_fd: raw.dir_fd,
                path: raw.path,
            },
        )
    }

    /// Sets a mark on this group, given what the kernel's mark call
    /// returned for what [`mark_request`](Self::mark_request) gave: zero,
    /// or an error number that the call is documented to fail with for
    /// such a mark.
    ///
    /// A mark that asks this group for what it cannot give is refused
    /// here too, whatever `outcome` says: for such a mark the call is not
    /// to be made.
    pub fn mark_raw_error(&self, mark: &Mark, outcome: Result<i32, i32>) -> (marked: Result<
        (),
        RawError,
    >)
        requires
            !self.spec_refuses(mark) && outcome is Ok ==> outcome->Ok_0 == 0,
            !self.spec_refuses(mark) && outcome is Err ==> RawError::spec_is_documented(
                outcome->Err_0,
                mark.action,
            ),
        ensures
            self.spec_refuses(mark) ==> marked == Err::<(), RawError>(RawError::InvalidArgument),
            !self.spec_refuses(mark) ==> marked == match outcome {
                Ok(_) => Ok::<(), RawError>(()),
                Err(errno) => Err::<(), RawError>(
                    RawError::spec_from_errno(errno, mark.action, mark.path.dir.fd),
                ),
            },
    {
        if self.refuses(mark) {
            return Err(RawError::InvalidArgument);
        }
        match outcome {
            Ok(_) => Ok(()),
            Err(errno) => Err(RawError::from_errno(errno, mark.action, mark.path.dir.fd)),
        }
    }

    /// Like [`mark_raw_error`](Self::mark_raw_error), but an error comes
    /// with the mark that it is about.
    pub fn mark(&self, mark: Mark, outcome: Result<i32, i32>) -> (marked: Result<
        (),
        crate::mark::Error,
    >)
        requires
            !self.spec_refuses(&mark) && outcome is Ok ==> outcome->Ok_0 == 0,
            !self.spec_refuses(&mark) && outcome is Err ==> RawError::spec_is_documented(
                outcome->Err_0,
                mark.action,
            ),
        ensures
            marked is Ok <==> !self.spec_refuses(&mark) && outcome is Ok,
            marked is Err ==> marked->Err_0.mark == mark,
            self.spec_refuses(&mark) ==> marked->Err_0.error == RawError::InvalidArgument,
            !self.spec_refuses(&mark) && outcome is Err ==> marked->Err_0.error
                == RawError::spec_from_errno(outcome->Err_0, mark.action, mark.path.dir.fd),
    {
        match self.mark_raw_error(&mark, outcome) {
            Ok(_) => Ok(()),
            Err(error) => Err(crate::mark::Error { error, mark }),
        }
    }

    /// The events in a buffer that was just filled by a read from this
    /// group, for the caller as the reader.
    pub fn read<'a>(&self, buffer: &'a EventBuffer) -> (events: Events<'a>)
        ensures
            events.init == self.init,
            events.buffer@ == buffer.events@,
            events.id is Tid <==> spec_has_flag(self.init, FAN_REPORT_TID),
    {
        Events::read(self.init, buffer.events.as_slice())
    }
}

} // verus!

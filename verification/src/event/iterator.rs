//! The decoder: from the bytes of one read to the events in them.
//!
//! A read fills a buffer with records, one after the other. Each record
//! starts with its own length, so the decoder can step over a record that
//! it cannot make sense of and go on with the next.

use vstd::prelude::*;
use vstd::slice::slice_subrange;
use crate::event::error::EventError;
use crate::event::error::TooShortError;
use crate::event::event::EventOf;
use crate::event::event::EventView;
use crate::event::file::File;
use crate::event::file::FileFD;
use crate::event::file::FileFID;
use crate::event::file::FileFIDView;
use crate::event::file::FileHandle;
use crate::event::file::FilePermission;
use crate::event::file::FilePermissionView;
use crate::event::file::FileSystemId;
use crate::event::file::FileView;
use crate::event::file::InfoType;
use crate::event::id::EventId;
use crate::event::id::Id;
use crate::fd::FD;
use crate::init::RawInit;
use crate::libc::fanotify_event_info_fid;
use crate::libc::fanotify_event_metadata;
use crate::libc::spec_u32_at;
use crate::libc::read_u32;
use crate::libc::EVENT_LEN_SIZE;
use crate::libc::FANOTIFY_METADATA_VERSION;
use crate::libc::FAN_NOFD;
use crate::libc::FAN_Q_OVERFLOW;
use crate::libc::FAN_REPORT_FID;
use crate::libc::FAN_REPORT_TID;
use crate::libc::FAN_UNLIMITED_QUEUE;
use crate::libc::METADATA_SIZE;
use crate::mark::Mask;

verus! {

/// Number of bytes of a record that identifies a file, without the handle:
/// its header and the id of the filesystem.
pub const FID_SIZE: usize = 12;

/// Number of bytes of the shortest record that identifies a file by its handle.
pub const METADATA_AND_FID_SIZE: usize = 36;

/// What a record gives: an event, or the reason why it gives none.
pub type EventResult<'a> = Result<EventOf<File<'a>>, EventError>;

/// What an [`EventResult`] holds.
pub open spec fn spec_result_view(result: EventResult<'_>) -> Result<EventView, EventError> {
    match result {
        Ok(event) => Ok(event@),
        Err(error) => Err(error),
    }
}

/// Whether the group was opened with the flag `flag`.
pub open spec fn spec_has_flag(init: RawInit, flag: u32) -> bool {
    init.flags & flag == flag
}

/// The index `by` bytes after `index`, or the largest index there is if
/// that one cannot be held.
pub open spec fn spec_advance(index: int, by: int) -> int {
    if index + by > usize::MAX {
        usize::MAX as int
    } else {
        index + by
    }
}

/// Where the decoder stands after the record at `cursor`: behind the
/// record, as long as the record says it is; or, where too few bytes are
/// left even for a length, behind the place of the length, which is
/// behind the end.
pub open spec fn spec_next_index(buffer: Seq<u8>, cursor: int) -> int {
    if buffer.len() - cursor < EVENT_LEN_SIZE {
        spec_advance(cursor, EVENT_LEN_SIZE as int)
    } else {
        spec_advance(cursor, spec_u32_at(buffer, cursor))
    }
}

/// What is wrong with the bytes at `cursor` before any field but the
/// length is looked at: too few bytes for the length, for the record as
/// long as it says it is, or for the fixed part of a record.
pub open spec fn spec_envelope_error(buffer: Seq<u8>, cursor: int) -> Option<EventError> {
    let found = (buffer.len() - cursor) as usize;
    let event_len = spec_u32_at(buffer, cursor);
    if found < EVENT_LEN_SIZE {
        Some(
            EventError::TooShort {
                what: TooShortError::EventLenField,
                found,
                expected: EVENT_LEN_SIZE,
            },
        )
    } else if found < event_len {
        Some(
            EventError::TooShort {
                what: TooShortError::FullEvent,
                found,
                expected: event_len as usize,
            },
        )
    } else if found < METADATA_SIZE {
        Some(
            EventError::TooShort { what: TooShortError::BaseEvent, found, expected: METADATA_SIZE },
        )
    } else {
        None
    }
}

/// What is wrong with a record by its version and its mask alone: a
/// version that is not the one understood, or the sign of an overflow of
/// the queue.
pub open spec fn spec_header_error(record: fanotify_event_metadata, init: RawInit) -> Option<
    EventError,
> {
    if record.vers != FANOTIFY_METADATA_VERSION {
        Some(EventError::WrongVersion)
    } else if record.mask & FAN_Q_OVERFLOW != 0 {
        if spec_has_flag(init, FAN_UNLIMITED_QUEUE) {
            Some(EventError::UnlimitedQueueButQueueStillOverflowed)
        } else {
            Some(EventError::QueueOverflowed)
        }
    } else {
        None
    }
}

/// Whether a record carries more than its fixed part.
pub open spec fn spec_received_fid(record: fanotify_event_metadata) -> bool {
    record.event_len > METADATA_SIZE
}

/// Whether a record asks for a permission.
pub open spec fn spec_is_permission(record: fanotify_event_metadata) -> bool {
    Mask::spec_from_bits_truncate(record.mask).spec_includes_permission()
}

/// What is wrong with a record given how the group was opened: whether
/// file handles were asked for, whether the record carries one, whether it
/// carries a descriptor, and whether it asks for a permission have to go
/// together. `found` is the number of bytes from the record's start to the
/// end of the buffer.
pub open spec fn spec_consistency_error(
    record: fanotify_event_metadata,
    init: RawInit,
    found: usize,
) -> Option<EventError> {
    let has_no_fd = record.fd == FAN_NOFD;
    let received_fid = spec_received_fid(record);
    let is_permission = spec_is_permission(record);
    if spec_has_flag(init, FAN_REPORT_FID) {
        if !received_fid {
            Some(EventError::FidRequestedButNotReceived)
        } else if has_no_fd && is_permission {
            Some(EventError::FidReturnedForPermissionEvent)
        } else if !has_no_fd && !is_permission {
            Some(EventError::FidRequestedButNotReceived)
        } else if has_no_fd && found < METADATA_AND_FID_SIZE {
            Some(
                EventError::TooShort {
                    what: TooShortError::FidEvent,
                    found,
                    expected: METADATA_AND_FID_SIZE,
                },
            )
        } else {
            None
        }
    } else {
        if has_no_fd {
            Some(EventError::QueueOverflowed)
        } else if received_fid {
            Some(EventError::FidNotRequestedButReceived)
        } else {
            None
        }
    }
}

/// The descriptor of a record, if it is the number of one.
pub open spec fn spec_descriptor(record: fanotify_event_metadata) -> Result<FD, EventError> {
    let fd = FD { fd: record.fd };
    if record.fd >= 0 {
        Ok(fd)
    } else {
        Err(EventError::InvalidFd { fd })
    }
}

/// The bytes of the handle in the record at `cursor`: what follows the
/// fixed parts, up to the end of the record.
pub open spec fn spec_handle(buffer: Seq<u8>, cursor: int) -> Seq<u8> {
    let event_len = spec_u32_at(buffer, cursor);
    if event_len > METADATA_AND_FID_SIZE {
        buffer.subrange(cursor + METADATA_AND_FID_SIZE, cursor + event_len)
    } else {
        Seq::empty()
    }
}

/// The file that the record at `cursor` identifies by its handle. The
/// record that says so has to be as long as its fixed part, and of a known type.
pub open spec fn spec_identified_file(buffer: Seq<u8>, cursor: int) -> Result<
    FileFIDView,
    EventError,
> {
    let info = fanotify_event_info_fid::spec_parse(buffer, cursor + METADATA_SIZE);
    if info.hdr.len != FID_SIZE {
        Err(
            EventError::TooShort {
                what: TooShortError::FidEvent,
                found: info.hdr.len as usize,
                expected: FID_SIZE,
            },
        )
    } else {
        match InfoType::spec_try_from(info.hdr.info_type) {
            Err(info_type) => Err(EventError::InvalidFidInfoType { info_type }),
            Ok(info_type) => Ok(
                FileFIDView {
                    info_type,
                    file_system_id: FileSystemId { fsid: info.fsid },
                    handle: spec_handle(buffer, cursor),
                },
            ),
        }
    }
}

/// What the record at `cursor` is about, for a record that is consistent
/// with how the group was opened: a request for a permission if it asks for
/// one, else a file by its handle if it carries one, else an open file.
pub open spec fn spec_file(buffer: Seq<u8>, cursor: int) -> Result<FileView, EventError> {
    let record = fanotify_event_metadata::spec_parse(buffer, cursor);
    if spec_is_permission(record) {
        match spec_descriptor(record) {
            Ok(fd) => Ok(FileView::Permission(FilePermissionView::fresh(fd))),
            Err(error) => Err(error),
        }
    } else if spec_received_fid(record) {
        match spec_identified_file(buffer, cursor) {
            Ok(file) => Ok(FileView::FID(file)),
            Err(error) => Err(error),
        }
    } else {
        match spec_descriptor(record) {
            Ok(fd) => Ok(FileView::FD(FileFD { fd })),
            Err(error) => Err(error),
        }
    }
}

/// What the record at `cursor` gives to a reader whose own id is `own`, in
/// a group that was opened with `init`.
pub open spec fn spec_decode(buffer: Seq<u8>, cursor: int, init: RawInit, own: Id) -> Result<
    EventView,
    EventError,
> {
    let record = fanotify_event_metadata::spec_parse(buffer, cursor);
    let found = (buffer.len() - cursor) as usize;
    if let Some(error) = spec_envelope_error(buffer, cursor) {
        Err(error)
    } else if let Some(error) = spec_header_error(record, init) {
        Err(error)
    } else if let Some(error) = spec_consistency_error(record, init, found) {
        Err(error)
    } else {
        match spec_file(buffer, cursor) {
            Err(error) => Err(error),
            Ok(file) => Ok(
                EventView {
                    mask: Mask::spec_from_bits_truncate(record.mask),
                    id: EventId::spec_of(record.pid, own),
                    file,
                },
            ),
        }
    }
}

/// What the records from `cursor` on give, in their order, up to `limit` of them.
pub open spec fn spec_events(
    buffer: Seq<u8>,
    cursor: int,
    init: RawInit,
    own: Id,
    limit: nat,
) -> Seq<Result<EventView, EventError>>
    decreases limit,
{
    if limit == 0 || cursor >= buffer.len() {
        Seq::empty()
    } else {
        seq![spec_decode(buffer, cursor, init, own)] + spec_events(
            buffer,
            spec_next_index(buffer, cursor),
            init,
            own,
            (limit - 1) as nat,
        )
    }
}

/// Where the decoder stands after up to `limit` records from `cursor` on.
pub open spec fn spec_end_index(buffer: Seq<u8>, cursor: int, limit: nat) -> int
    decreases limit,
{
    if limit == 0 || cursor >= buffer.len() {
        cursor
    } else {
        spec_end_index(buffer, spec_next_index(buffer, cursor), (limit - 1) as nat)
    }
}

/// The bytes of one read from a group, with what is needed to make sense
/// of them: how the group was opened, and who the reader is. Decoding uses
/// the value up, so that no record is made into an event twice.
#[derive(Debug, Eq, PartialEq, Hash)]
pub struct Events<'a> {
    pub init: RawInit,
    pub id: Id,
    pub buffer: &'a [u8],
}

impl<'a> Events<'a> {
    /// The events in `buffer` for a reader with the id `id`.
    pub fn new(init: RawInit, id: Id, buffer: &'a [u8]) -> (events: Self)
        ensures
            events.init == init,
            events.id == id,
            events.buffer@ == buffer@,
    {
        Events { init, id, buffer }
    }

    /// The events in `buffer`, which was just read, for the caller as the
    /// reader. The caller's id is taken now, once for all the events: that
    /// of its thread if the group reports threads, else that of its process.
    pub fn read(init: RawInit, buffer: &'a [u8]) -> (events: Self)
        ensures
            events.init == init,
            events.buffer@ == buffer@,
            events.id is Tid <==> spec_has_flag(init, FAN_REPORT_TID),
    {
        let use_tid = init.flags & FAN_REPORT_TID == FAN_REPORT_TID;
        Events { init, id: Id::current(use_tid), buffer }
    }

    pub fn init(&self) -> (init: RawInit)
        ensures
            init == self.init,
    {
        self.init
    }

    pub fn id(&self) -> (id: Id)
        ensures
            id == self.id,
    {
        self.id
    }

    pub fn as_bytes(&self) -> (bytes: &'a [u8])
        ensures
            bytes@ == self.buffer@,
    {
        self.buffer
    }

    /// The decoder at the first record.
    pub fn into_iter(self) -> (iterator: EventIterator<'a>)
        ensures
            iterator.events == self,
            iterator.read_index == 0,
    {
        EventIterator { events: self, read_index: 0 }
    }
}

/// The decoder: it stands at a record of a buffer, and gives one record's
/// event, or the reason why there is none, at each step.
#[derive(Debug, Eq, PartialEq, Hash)]
pub struct EventIterator<'a> {
    pub events: Events<'a>,
    pub read_index: usize,
}

impl<'a> EventIterator<'a> {
    /// What the record under the decoder gives.
    pub open spec fn spec_current(&self) -> Result<EventView, EventError> {
        spec_decode(
            self.events.buffer@,
            self.read_index as int,
            self.events.init,
            self.events.id,
        )
    }

    /// Whether the decoder is through with its buffer.
    pub open spec fn spec_is_done(&self) -> bool {
        self.read_index >= self.events.buffer@.len()
    }

    #[verifier::when_used_as_spec(spec_is_done)]
    pub fn is_done(&self) -> (done: bool)
        ensures
            done == self.spec_is_done(),
    {
        self.read_index >= self.events.buffer.len()
    }

    /// What the record under the decoder is about. The record has passed
    /// the checks that come before.
    fn file(&self) -> (file: Result<File<'a>, EventError>)
        requires
            !self.spec_is_done(),
            spec_envelope_error(self.events.buffer@, self.read_index as int) is None,
            spec_consistency_error(
                fanotify_event_metadata::spec_parse(self.events.buffer@, self.read_index as int),
                self.events.init,
                (self.events.buffer@.len() - self.read_index) as usize,
            ) is None,
        ensures
            match file {
                Ok(file) => spec_file(self.events.buffer@, self.read_index as int) == Ok::<
                    FileView,
                    EventError,
                >(file@),
                Err(error) => spec_file(self.events.buffer@, self.read_index as int) == Err::<
                    FileView,
                    EventError,
                >(error),
            },
    {
        let buffer = self.events.buffer;
        let cursor = self.read_index;
        assert(buffer@.len() == buffer.len());
        let record = fanotify_event_metadata::parse(buffer, cursor);
        let is_permission = Mask::from_bits_truncate(record.mask).includes_permission();
        let fd = FD::new(record.fd);
        if is_permission {
            if !fd.check() {
                return Err(EventError::InvalidFd { fd });
            }
            Ok(File::Permission(FilePermission::new(fd)))
        } else if record.event_len as usize > METADATA_SIZE {
            let info = fanotify_event_info_fid::parse(buffer, cursor + METADATA_SIZE);
            if info.hdr.len as usize != FID_SIZE {
                return Err(
                    EventError::TooShort {
                        what: TooShortError::FidEvent,
                        found: info.hdr.len as usize,
                        expected: FID_SIZE,
                    },
                );
            }
            let info_type = match InfoType::try_from(info.hdr.info_type) {
                Ok(info_type) => info_type,
                Err(info_type) => {
                    return Err(EventError::InvalidFidInfoType { info_type });
                },
            };
            let event_len = record.event_len as usize;
            let handle = if event_len > METADATA_AND_FID_SIZE {
                slice_subrange(buffer, cursor + METADATA_AND_FID_SIZE, cursor + event_len)
            } else {
                slice_subrange(buffer, cursor, cursor)
            };
            assert(handle@ =~= spec_handle(buffer@, cursor as int));
            Ok(
                File::FID(
                    FileFID {
                        info_type,
                        file_system_id: FileSystemId { fsid: info.fsid },
                        handle: FileHandle { handle },
                    },
                ),
            )
        } else {
            if !fd.check() {
                return Err(EventError::InvalidFd { fd });
            }
            Ok(File::FD(FileFD { fd }))
        }
    }

    /// What the record under the decoder gives. The decoder stays where it is.
    fn current(&self) -> (result: EventResult<'a>)
        requires
            !self.spec_is_done(),
        ensures
            spec_result_view(result) == self.spec_current(),
    {
        let buffer = self.events.buffer;
        let cursor = self.read_index;
        let init = self.events.init;
        assert(buffer@.len() == buffer.len());
        let found: usize = buffer.len() - cursor;
        if found < EVENT_LEN_SIZE {
            return Err(
                EventError::TooShort {
                    what: TooShortError::EventLenField,
                    found,
                    expected: EVENT_LEN_SIZE,
                },
            );
        }
        let event_len = read_u32(buffer, cursor) as usize;
        if found < event_len {
            return Err(
                EventError::TooShort { what: TooShortError::FullEvent, found, expected: event_len },
            );
        }
        if found < METADATA_SIZE {
            return Err(
                EventError::TooShort {
                    what: TooShortError::BaseEvent,
                    found,
                    expected: METADATA_SIZE,
                },
            );
        }
        let record = fanotify_event_metadata::parse(buffer, cursor);
        if record.vers != FANOTIFY_METADATA_VERSION {
            return Err(EventError::WrongVersion);
        }
        if record.mask & FAN_Q_OVERFLOW != 0 {
            let unlimited = init.flags & FAN_UNLIMITED_QUEUE == FAN_UNLIMITED_QUEUE;
            return Err(
                if unlimited {
                    EventError::UnlimitedQueueButQueueStillOverflowed
                } else {
                    EventError::QueueOverflowed
                },
            );
        }
        let mask = Mask::from_bits_truncate(record.mask);
        let has_no_fd = record.fd == FAN_NOFD;
        let requested_fid = init.flags & FAN_REPORT_FID == FAN_REPORT_FID;
        let received_fid = event_len > METADATA_SIZE;
        let is_permission = mask.includes_permission();
        if requested_fid {
            if !received_fid {
                return Err(EventError::FidRequestedButNotReceived);
            } else if has_no_fd && is_permission {
                return Err(EventError::FidReturnedForPermissionEvent);
            } else if !has_no_fd && !is_permission {
                return Err(EventError::FidRequestedButNotReceived);
            } else if has_no_fd && found < METADATA_AND_FID_SIZE {
                return Err(
                    EventError::TooShort {
                        what: TooShortError::FidEvent,
                        found,
                        expected: METADATA_AND_FID_SIZE,
                    },
                );
            }
        } else {
            if has_no_fd {
                return Err(EventError::QueueOverflowed);
            }
            if received_fid {
                return Err(EventError::FidNotRequestedButReceived);
            }
        }
        let id = EventId::of(record.pid, self.events.id);
        match self.file() {
            Ok(file) => Ok(EventOf { mask, id, file }),
            Err(error) => Err(error),
        }
    }

    /// Moves the decoder behind the record under it.
    fn advance(&mut self)
        requires
            !old(self).spec_is_done(),
        ensures
            final(self).events == old(self).events,
            final(self).read_index == spec_next_index(
                old(self).events.buffer@,
                old(self).read_index as int,
            ),
    {
        let buffer = self.events.buffer;
        let cursor = self.read_index;
        assert(buffer@.len() == buffer.len());
        let by: usize = if buffer.len() - cursor < EVENT_LEN_SIZE {
            EVENT_LEN_SIZE
        } else {
            read_u32(buffer, cursor) as usize
        };
        self.read_index = if by > usize::MAX - cursor {
            usize::MAX
        } else {
            cursor + by
        };
    }

    /// Gives what the record under the decoder gives, and moves behind that
    /// record; or gives nothing, if the decoder is through with its buffer.
    pub fn next(&mut self) -> (item: Option<EventResult<'a>>)
        ensures
            final(self).events == old(self).events,
            old(self).spec_is_done() ==> item is None && final(self).read_index == old(
                self,
            ).read_index,
            !old(self).spec_is_done() ==> item is Some && spec_result_view(item->Some_0) == old(
                self,
            ).spec_current() && final(self).read_index == spec_next_index(
                old(self).events.buffer@,
                old(self).read_index as int,
            ),
    {
        if self.is_done() {
            None
        } else {
            let result = self.current();
            self.advance();
            Some(result)
        }
    }
}

/// What each of some results holds.
pub open spec fn spec_results_view(results: Seq<EventResult<'_>>) -> Seq<
    Result<EventView, EventError>,
> {
    Seq::new(results.len(), |i: int| spec_result_view(results[i]))
}

impl<'a> EventIterator<'a> {
    /// Gives what the next records give, in their order, and moves behind
    /// them: all records that are left, or the next `limit` if there are more.
    pub fn collect(&mut self, limit: usize) -> (items: Vec<EventResult<'a>>)
        ensures
            final(self).events == old(self).events,
            spec_results_view(items@) == spec_events(
                old(self).events.buffer@,
                old(self).read_index as int,
                old(self).events.init,
                old(self).events.id,
                limit as nat,
            ),
            final(self).read_index == spec_end_index(
                old(self).events.buffer@,
                old(self).read_index as int,
                limit as nat,
            ),
    {
        let ghost buffer = self.events.buffer@;
        let ghost init = self.events.init;
        let ghost own = self.events.id;
        let ghost start = self.read_index as int;
        let mut items: Vec<EventResult<'a>> = Vec::new();
        assert(spec_results_view(items@) =~= Seq::empty());
        assert(spec_events(buffer, start, init, own, limit as nat) =~= spec_results_view(items@)
            + spec_events(buffer, start, init, own, limit as nat));
        while items.len() < limit
            invariant
                self.events == old(self).events,
                buffer == self.events.buffer@,
                init == self.events.init,
                own == self.events.id,
                items@.len() <= limit,
                spec_events(buffer, start, init, own, limit as nat) == spec_results_view(items@)
                    + spec_events(
                    buffer,
                    self.read_index as int,
                    init,
                    own,
                    (limit - items@.len()) as nat,
                ),
                spec_end_index(buffer, start, limit as nat) == spec_end_index(
                    buffer,
                    self.read_index as int,
                    (limit - items@.len()) as nat,
                ),
            ensures
                spec_events(buffer, start, init, own, limit as nat) == spec_results_view(items@),
                spec_end_index(buffer, start, limit as nat) == self.read_index,
                self.events == old(self).events,
            decreases limit - items.len(),
        {
            let ghost before = spec_results_view(items@);
            let ghost cursor = self.read_index as int;
            let ghost left = (limit - items@.len()) as nat;
            match self.next() {
                None => {
                    assert(spec_events(buffer, cursor, init, own, left) =~= Seq::empty());
                    assert(before + Seq::empty() =~= before);
                    break ;
                },
                Some(item) => {
                    items.push(item);
                    assert(spec_results_view(items@) =~= before.push(spec_result_view(item)));
                    assert(before + (seq![spec_decode(buffer, cursor, init, own)] + spec_events(
                        buffer,
                        spec_next_index(buffer, cursor),
                        init,
                        own,
                        (left - 1) as nat,
                    )) =~= before.push(spec_result_view(item)) + spec_events(
                        buffer,
                        spec_next_index(buffer, cursor),
                        init,
                        own,
                        (left - 1) as nat,
                    ));
                },
            }
        }
        proof {
            if items@.len() == limit {
                assert(spec_events(buffer, self.read_index as int, init, own, 0) =~= Seq::empty());
                assert(spec_results_view(items@) + Seq::empty() =~= spec_results_view(items@));
            }
        }
        items
    }
}

/// A record that says it is longer than what is left of the buffer gives
/// the error of a record cut short, and nothing comes after it.
pub proof fn lemma_truncated_record(buffer: Seq<u8>, cursor: int, init: RawInit, own: Id, limit: nat)
    requires
        0 <= cursor,
        cursor + EVENT_LEN_SIZE <= buffer.len() <= usize::MAX,
        spec_u32_at(buffer, cursor) > buffer.len() - cursor,
        limit >= 1,
    ensures
        spec_events(buffer, cursor, init, own, limit) == seq![
            Err::<EventView, EventError>(
                EventError::TooShort {
                    what: TooShortError::FullEvent,
                    found: (buffer.len() - cursor) as usize,
                    expected: spec_u32_at(buffer, cursor) as usize,
                },
            ),
        ],
        spec_end_index(buffer, cursor, limit) >= buffer.len(),
{
    let next = spec_next_index(buffer, cursor);
    assert(next >= buffer.len());
    assert(spec_events(buffer, next, init, own, (limit - 1) as nat) =~= Seq::empty());
    assert(spec_end_index(buffer, next, (limit - 1) as nat) == next);
    assert(spec_events(buffer, cursor, init, own, limit) =~= seq![
        spec_decode(buffer, cursor, init, own),
    ]);
}

/// The decoder moves on at every step, but at a record that says its
/// length is zero: so one bad record of another kind never holds it up.
pub proof fn lemma_step_advances(buffer: Seq<u8>, cursor: int)
    requires
        0 <= cursor < buffer.len() <= usize::MAX,
        buffer.len() - cursor >= EVENT_LEN_SIZE ==> spec_u32_at(buffer, cursor) > 0,
    ensures
        spec_next_index(buffer, cursor) > cursor,
        spec_next_index(buffer, cursor) <= usize::MAX,
{
}

/// A record of the right version whose mask has the sign of an overflow
/// gives the error of an overflow: the one that says that the queue was
/// opened without a limit, if it was, and the plain one if not.
pub proof fn lemma_overflow_record(buffer: Seq<u8>, cursor: int, init: RawInit, own: Id)
    requires
        spec_envelope_error(buffer, cursor) is None,
        fanotify_event_metadata::spec_parse(buffer, cursor).vers == FANOTIFY_METADATA_VERSION,
        fanotify_event_metadata::spec_parse(buffer, cursor).mask & FAN_Q_OVERFLOW != 0,
    ensures
        spec_has_flag(init, FAN_UNLIMITED_QUEUE) ==> spec_decode(buffer, cursor, init, own) == Err::<
            EventView,
            EventError,
        >(EventError::UnlimitedQueueButQueueStillOverflowed),
        !spec_has_flag(init, FAN_UNLIMITED_QUEUE) ==> spec_decode(buffer, cursor, init, own)
            == Err::<EventView, EventError>(EventError::QueueOverflowed),
{
}

/// Whether some bytes are one record that gives an event: as long as it
/// says it is, and decoded without an error when it stands alone.
#[verifier::opaque]
pub open spec fn spec_is_valid_record(record: Seq<u8>, init: RawInit, own: Id) -> bool {
    &&& record.len() >= EVENT_LEN_SIZE
    &&& spec_u32_at(record, 0) == record.len()
    &&& spec_decode(record, 0, init, own) is Ok
}

/// The bytes of some records, one after the other.
pub open spec fn spec_concat(records: Seq<Seq<u8>>) -> Seq<u8>
    decreases records.len(),
{
    if records.len() == 0 {
        Seq::empty()
    } else {
        records[0] + spec_concat(records.skip(1))
    }
}

/// A valid record gives the same event wherever it stands in a buffer,
/// and the decoder stands behind it afterwards.
#[verifier::spinoff_prover]
pub proof fn lemma_record_in_place(
    prefix: Seq<u8>,
    record: Seq<u8>,
    suffix: Seq<u8>,
    init: RawInit,
    own: Id,
)
    requires
        spec_is_valid_record(record, init, own),
        prefix.len() + record.len() + suffix.len() <= usize::MAX,
    ensures
        spec_decode(prefix + record + suffix, prefix.len() as int, init, own) == spec_decode(
            record,
            0,
            init,
            own,
        ),
        spec_next_index(prefix + record + suffix, prefix.len() as int) == prefix.len()
            + record.len(),
        spec_decode(record, 0, init, own) is Ok,
        record.len() >= METADATA_SIZE,
{
    reveal(spec_is_valid_record);
    let whole = prefix + record + suffix;
    let at = prefix.len() as int;
    assert(record.len() >= 24);
    assert(whole[at + 0] == record[0]);
    assert(whole[at + 1] == record[1]);
    assert(whole[at + 2] == record[2]);
    assert(whole[at + 3] == record[3]);
    assert(whole[at + 4] == record[4]);
    assert(whole[at + 5] == record[5]);
    assert(whole[at + 6] == record[6]);
    assert(whole[at + 7] == record[7]);
    assert(whole[at + 8] == record[8]);
    assert(whole[at + 9] == record[9]);
    assert(whole[at + 10] == record[10]);
    assert(whole[at + 11] == record[11]);
    assert(whole[at + 12] == record[12]);
    assert(whole[at + 13] == record[13]);
    assert(whole[at + 14] == record[14]);
    assert(whole[at + 15] == record[15]);
    assert(whole[at + 16] == record[16]);
    assert(whole[at + 17] == record[17]);
    assert(whole[at + 18] == record[18]);
    assert(whole[at + 19] == record[19]);
    assert(whole[at + 20] == record[20]);
    assert(whole[at + 21] == record[21]);
    assert(whole[at + 22] == record[22]);
    assert(whole[at + 23] == record[23]);
    let parsed = fanotify_event_metadata::spec_parse(record, 0);
    assert(fanotify_event_metadata::spec_parse(whole, at) == parsed);
    assert(spec_header_error(parsed, init) is None);
    let found_alone = record.len() as usize;
    let found_there = (whole.len() - at) as usize;
    assert(spec_consistency_error(parsed, init, found_alone) is None);
    assert(spec_consistency_error(parsed, init, found_there) is None);
    if !spec_is_permission(parsed) && spec_received_fid(parsed) {
        assert(record.len() >= 36);
        assert(whole[at + 24] == record[24]);
        assert(whole[at + 25] == record[25]);
        assert(whole[at + 26] == record[26]);
        assert(whole[at + 27] == record[27]);
        assert(whole[at + 28] == record[28]);
        assert(whole[at + 29] == record[29]);
        assert(whole[at + 30] == record[30]);
        assert(whole[at + 31] == record[31]);
        assert(whole[at + 32] == record[32]);
        assert(whole[at + 33] == record[33]);
        assert(whole[at + 34] == record[34]);
        assert(whole[at + 35] == record[35]);
        assert(fanotify_event_info_fid::spec_parse(whole, at + 24)
            == fanotify_event_info_fid::spec_parse(record, 24));
        assert(spec_handle(whole, at) =~= spec_handle(record, 0));
    }
    assert(spec_file(whole, at) == spec_file(record, 0));
}

/// A buffer made of valid records, one after the other, gives exactly
/// their events, in their order, and the decoder ends at the end of the
/// buffer. `prefix` is what stands in the buffer before the records.
#[verifier::spinoff_prover]
pub proof fn lemma_valid_records(
    prefix: Seq<u8>,
    records: Seq<Seq<u8>>,
    init: RawInit,
    own: Id,
    limit: nat,
)
    requires
        forall|i: int| 0 <= i < records.len() ==> spec_is_valid_record(#[trigger] records[i], init, own),
        prefix.len() + spec_concat(records).len() <= usize::MAX,
        limit >= records.len(),
    ensures
        spec_events(prefix + spec_concat(records), prefix.len() as int, init, own, limit)
            == Seq::new(records.len(), |i: int| spec_decode(records[i], 0, init, own)),
        forall|i: int|
            0 <= i < records.len() ==> (#[trigger] spec_events(
                prefix + spec_concat(records),
                prefix.len() as int,
                init,
                own,
                limit,
            )[i]) is Ok,
        spec_end_index(prefix + spec_concat(records), prefix.len() as int, limit) == prefix.len()
            + spec_concat(records).len(),
    decreases records.len(),
{
    let buffer = prefix + spec_concat(records);
    let at = prefix.len() as int;
    let expected = Seq::new(records.len(), |i: int| spec_decode(records[i], 0, init, own));
    if records.len() == 0 {
        assert(buffer =~= prefix);
        assert(spec_events(buffer, at, init, own, limit) =~= expected);
    } else {
        let first = records[0];
        let rest = records.skip(1);
        let suffix = spec_concat(rest);
        assert(buffer =~= prefix + first + suffix);
        lemma_record_in_place(prefix, first, suffix, init, own);
        assert forall|i: int| 0 <= i < rest.len() implies spec_is_valid_record(
            #[trigger] rest[i],
            init,
            own,
        ) by {
            assert(rest[i] == records[i + 1]);
        }
        assert(buffer =~= (prefix + first) + suffix);
        lemma_valid_records(prefix + first, rest, init, own, (limit - 1) as nat);
        let after = spec_events(buffer, at + first.len(), init, own, (limit - 1) as nat);
        assert(spec_events(buffer, at, init, own, limit) == seq![
            spec_decode(buffer, at, init, own),
        ] + after);
        assert forall|i: int| 0 <= i < records.len() implies (seq![
            spec_decode(buffer, at, init, own),
        ] + after)[i] == expected[i] by {
            if i > 0 {
                assert(rest[i - 1] == records[i]);
            }
        }
        assert(spec_events(buffer, at, init, own, limit) =~= expected);
    }
}

} // verus!

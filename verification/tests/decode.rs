use fanotify::event::error::EventError;
use fanotify::event::error::TooShortError;
use fanotify::event::file::File;
use fanotify::event::file::FileFD;
use fanotify::event::file::InfoType;
use fanotify::event::id::EventId;
use fanotify::event::id::Id;
use fanotify::event::iterator::EventResult;
use fanotify::event::iterator::Events;
use fanotify::fd::FD;
use fanotify::init::Flags;
use fanotify::init::Init;
use fanotify::init::RawInit;
use fanotify::libc::fanotify_event_metadata;
use fanotify::libc::fsid_t;
use fanotify::mark::Mask;

const OPEN: u64 = 0x20;
const OPEN_PERM: u64 = 0x1_0000;
const OVERFLOW: u64 = 0x4000;

fn base_record(event_len: u32, vers: u8, mask: u64, fd: i32, pid: i32) -> Vec<u8> {
    let mut bytes = Vec::new();
    bytes.extend_from_slice(&event_len.to_le_bytes());
    bytes.push(vers);
    bytes.push(0);
    bytes.extend_from_slice(&24u16.to_le_bytes());
    bytes.extend_from_slice(&mask.to_le_bytes());
    bytes.extend_from_slice(&fd.to_le_bytes());
    bytes.extend_from_slice(&pid.to_le_bytes());
    bytes
}

fn fid_record(mask: u64, fd: i32, pid: i32, info_type: u8, info_len: u16, handle: &[u8]) -> Vec<u8> {
    let mut bytes = base_record(36 + handle.len() as u32, 3, mask, fd, pid);
    bytes.push(info_type);
    bytes.push(0);
    bytes.extend_from_slice(&info_len.to_le_bytes());
    bytes.extend_from_slice(&0x1122_3344i32.to_le_bytes());
    bytes.extend_from_slice(&(-2i32).to_le_bytes());
    bytes.extend_from_slice(handle);
    bytes
}

fn plain_group() -> RawInit {
    Init::const_default().as_raw()
}

fn group_with(bits: u32) -> RawInit {
    Init { flags: Flags::from_bits_truncate(bits), ..Default::default() }.as_raw()
}

fn decode_all<'a>(init: RawInit, own: Id, buffer: &'a [u8]) -> (Vec<EventResult<'a>>, usize) {
    let mut iterator = Events::new(init, own, buffer).into_iter();
    let mut items = Vec::new();
    while let Some(item) = iterator.next() {
        items.push(item);
    }
    (items, iterator.read_index)
}

#[test]
fn metadata_fields_are_little_endian() {
    let bytes = base_record(24, 3, 0x0102_0304_0506_0708, -1, 0x0A0B_0C0D);
    let record = fanotify_event_metadata::parse(&bytes, 0);
    assert_eq!(
        record,
        fanotify_event_metadata {
            event_len: 24,
            vers: 3,
            reserved: 0,
            metadata_len: 24,
            mask: 0x0102_0304_0506_0708,
            fd: -1,
            pid: 0x0A0B_0C0D,
        }
    );
    assert_eq!(bytes[8], 0x08);
    assert_eq!(bytes[15], 0x01);
}

#[test]
fn open_event_with_descriptor() {
    let buffer = base_record(24, 3, OPEN, 7, 1234);
    for own in [Id::Pid(1234), Id::Pid(99)] {
        let (items, end) = decode_all(plain_group(), own, &buffer);
        assert_eq!(end, buffer.len());
        assert_eq!(items.len(), 1);
        let event = items.into_iter().next().unwrap().unwrap();
        assert_eq!(event.mask(), Mask::from_bits_truncate(Mask::OPEN));
        assert_eq!(event.id().is_generated_by_self, own == Id::Pid(1234));
        assert_eq!(event.id().id, Id::Pid(1234));
        assert_eq!(event.id().pid(), Some(1234));
        assert_eq!(event.id().tid(), None);
        assert_eq!(event.file().variant_name(), "fd");
        assert_eq!(event.into_file(), File::FD(FileFD { fd: FD { fd: 7 } }));
    }
}

#[test]
fn thread_ids_when_group_reports_threads() {
    let buffer = base_record(24, 3, OPEN, 7, 55);
    let (items, _) = decode_all(group_with(Flags::REPORT_TID), Id::Tid(55), &buffer);
    let event = items.into_iter().next().unwrap().unwrap();
    assert_eq!(*event.id(), EventId { is_generated_by_self: true, id: Id::Tid(55) });
    assert_eq!(event.id().tid(), Some(55));
    assert_eq!(event.id().pid(), None);
}

#[test]
fn fid_permission_record_without_descriptor() {
    let with_info = fid_record(OPEN_PERM, -1, 1, 1, 12, &[]);
    let (items, end) = decode_all(group_with(Flags::REPORT_FID), Id::Pid(1), &with_info);
    assert_eq!(items, vec![Err(EventError::FidReturnedForPermissionEvent)]);
    assert_eq!(end, with_info.len());
    let base_only = base_record(24, 3, OPEN_PERM, -1, 1);
    let (items, _) = decode_all(group_with(Flags::REPORT_FID), Id::Pid(1), &base_only);
    assert_eq!(items, vec![Err(EventError::FidRequestedButNotReceived)]);
}

#[test]
fn concatenated_records_decode_in_order() {
    let mut buffer = Vec::new();
    for n in 0..5 {
        buffer.extend_from_slice(&base_record(24, 3, OPEN << (n % 2), 10 + n, 100 + n));
    }
    let (items, end) = decode_all(plain_group(), Id::Pid(102), &buffer);
    assert_eq!(end, buffer.len());
    assert_eq!(items.len(), 5);
    for (n, item) in items.into_iter().enumerate() {
        let event = item.unwrap();
        assert_eq!(event.mask().bits(), OPEN << (n % 2));
        assert_eq!(event.id().id, Id::Pid(100 + n as i32));
        assert_eq!(event.id().is_generated_by_self, n == 2);
        assert_eq!(event.fd().unwrap().file.fd.fd, 10 + n as i32);
    }
}

#[test]
fn collect_stops_at_limit() {
    let mut buffer = Vec::new();
    for n in 0..4 {
        buffer.extend_from_slice(&base_record(24, 3, OPEN, n, 1));
    }
    let mut iterator = Events::new(plain_group(), Id::Pid(1), &buffer).into_iter();
    let first = iterator.collect(3);
    assert_eq!(first.len(), 3);
    assert_eq!(iterator.read_index, 72);
    assert!(!iterator.is_done());
    let rest = iterator.collect(10);
    assert_eq!(rest.len(), 1);
    assert_eq!(iterator.read_index, 96);
    assert!(iterator.is_done());
    assert!(iterator.collect(10).is_empty());
    assert!(iterator.next().is_none());
    assert_eq!(iterator.read_index, 96);
}

#[test]
fn truncated_record_ends_the_iteration() {
    let mut buffer = base_record(24, 3, OPEN, 7, 1);
    buffer.extend_from_slice(&base_record(48, 3, OPEN, 8, 1));
    let (items, end) = decode_all(plain_group(), Id::Pid(1), &buffer);
    assert_eq!(items.len(), 2);
    assert!(items[0].is_ok());
    assert_eq!(
        items[1],
        Err(EventError::TooShort { what: TooShortError::FullEvent, found: 24, expected: 48 })
    );
    assert_eq!(end, 72);
    let cut = &buffer[..40];
    let (items, end) = decode_all(plain_group(), Id::Pid(1), cut);
    assert_eq!(
        items[1],
        Err(EventError::TooShort { what: TooShortError::FullEvent, found: 16, expected: 48 })
    );
    assert_eq!(items.len(), 2);
    assert_eq!(end, 72);
}

#[test]
fn too_short_for_the_length_field() {
    let mut buffer = base_record(24, 3, OPEN, 7, 1);
    buffer.extend_from_slice(&[1, 2, 3]);
    let (items, end) = decode_all(plain_group(), Id::Pid(1), &buffer);
    assert_eq!(items.len(), 2);
    assert_eq!(
        items[1],
        Err(EventError::TooShort { what: TooShortError::EventLenField, found: 3, expected: 4 })
    );
    assert_eq!(end, 28);
}

#[test]
fn too_short_for_the_base_record() {
    let mut buffer = Vec::new();
    buffer.extend_from_slice(&8u32.to_le_bytes());
    buffer.extend_from_slice(&[3, 0, 0, 0]);
    buffer.extend_from_slice(&base_record(24, 3, OPEN, 7, 1));
    let (items, end) = decode_all(plain_group(), Id::Pid(1), &buffer[..8]);
    assert_eq!(
        items,
        vec![Err(EventError::TooShort { what: TooShortError::BaseEvent, found: 8, expected: 24 })]
    );
    assert_eq!(end, 8);
    let (items, end) = decode_all(plain_group(), Id::Pid(1), &buffer);
    assert_eq!(items.len(), 2);
    assert_eq!(end, 32);
}

#[test]
fn wrong_version() {
    let mut buffer = base_record(24, 4, OPEN, 7, 1);
    buffer.extend_from_slice(&base_record(24, 3, OPEN, 9, 1));
    let (items, end) = decode_all(plain_group(), Id::Pid(1), &buffer);
    assert_eq!(items.len(), 2);
    assert_eq!(items[0], Err(EventError::WrongVersion));
    assert!(items[1].is_ok());
    assert_eq!(end, 48);
}

#[test]
fn queue_overflow() {
    let buffer = base_record(24, 3, OVERFLOW, -1, 0);
    let (items, _) = decode_all(plain_group(), Id::Pid(1), &buffer);
    assert_eq!(items, vec![Err(EventError::QueueOverflowed)]);
    let (items, _) = decode_all(group_with(Flags::UNLIMITED_QUEUE), Id::Pid(1), &buffer);
    assert_eq!(items, vec![Err(EventError::UnlimitedQueueButQueueStillOverflowed)]);
    let no_fd = base_record(24, 3, OPEN, -1, 0);
    let (items, _) = decode_all(group_with(Flags::UNLIMITED_QUEUE), Id::Pid(1), &no_fd);
    assert_eq!(items, vec![Err(EventError::QueueOverflowed)]);
}

#[test]
fn fid_consistency_errors() {
    let fid = group_with(Flags::REPORT_FID);
    let base_only = base_record(24, 3, OPEN, 7, 1);
    let (items, _) = decode_all(fid, Id::Pid(1), &base_only);
    assert_eq!(items, vec![Err(EventError::FidRequestedButNotReceived)]);
    let with_fd = fid_record(OPEN, 7, 1, 1, 12, &[9, 9]);
    let (items, _) = decode_all(fid, Id::Pid(1), &with_fd);
    assert_eq!(items, vec![Err(EventError::FidRequestedButNotReceived)]);
    let (items, _) = decode_all(plain_group(), Id::Pid(1), &with_fd);
    assert_eq!(items, vec![Err(EventError::FidNotRequestedButReceived)]);
    let short = base_record(30, 3, OPEN, -1, 1);
    let mut short_buffer = short.clone();
    short_buffer.extend_from_slice(&[0; 6]);
    let (items, end) = decode_all(fid, Id::Pid(1), &short_buffer);
    assert_eq!(
        items,
        vec![Err(EventError::TooShort { what: TooShortError::FidEvent, found: 30, expected: 36 })]
    );
    assert_eq!(end, 30);
}

#[test]
fn fid_event_with_handle() {
    let fid = group_with(Flags::REPORT_FID);
    let mut buffer = fid_record(Mask::CREATE, -1, 1, 2, 12, &[0xAA, 0xBB, 0xCC]);
    buffer.extend_from_slice(&fid_record(Mask::DELETE, -1, 2, 3, 12, &[]));
    let (items, end) = decode_all(fid, Id::Pid(2), &buffer);
    assert_eq!(end, buffer.len());
    assert_eq!(items.len(), 2);
    let mut items = items.into_iter();
    let first = items.next().unwrap().unwrap();
    assert_eq!(first.mask().bits(), Mask::CREATE);
    assert!(!first.id().is_generated_by_self);
    assert_eq!(first.file().variant_name(), "fid");
    let first = first.fid().unwrap();
    assert_eq!(first.file().info_type(), InfoType::DFidName);
    assert_eq!(first.file().file_system_id().fsid, fsid_t { val0: 0x1122_3344, val1: -2 });
    assert_eq!(first.file().handle().as_bytes(), &[0xAA, 0xBB, 0xCC]);
    let second = items.next().unwrap().unwrap();
    assert!(second.id().is_generated_by_self);
    let second = second.fid().unwrap();
    assert_eq!(second.file().info_type(), InfoType::DFid);
    assert!(second.file().handle().as_bytes().is_empty());
}

#[test]
fn fid_info_errors() {
    let fid = group_with(Flags::REPORT_FID);
    let bad_len = fid_record(OPEN, -1, 1, 1, 16, &[1, 2, 3, 4]);
    let (items, _) = decode_all(fid, Id::Pid(1), &bad_len);
    assert_eq!(
        items,
        vec![Err(EventError::TooShort { what: TooShortError::FidEvent, found: 16, expected: 12 })]
    );
    let bad_type = fid_record(OPEN, -1, 1, 9, 12, &[]);
    let (items, _) = decode_all(fid, Id::Pid(1), &bad_type);
    assert_eq!(items, vec![Err(EventError::InvalidFidInfoType { info_type: 9 })]);
    let both = fid_record(OPEN, -1, 1, 9, 13, &[]);
    let (items, _) = decode_all(fid, Id::Pid(1), &both);
    assert_eq!(
        items,
        vec![Err(EventError::TooShort { what: TooShortError::FidEvent, found: 13, expected: 12 })]
    );
}

#[test]
fn invalid_descriptor() {
    let buffer = base_record(24, 3, OPEN, -5, 1);
    let (items, _) = decode_all(plain_group(), Id::Pid(1), &buffer);
    assert_eq!(items, vec![Err(EventError::InvalidFd { fd: FD { fd: -5 } })]);
    let asking = base_record(24, 3, OPEN_PERM, -5, 1);
    let (items, _) = decode_all(plain_group(), Id::Pid(1), &asking);
    assert_eq!(items, vec![Err(EventError::InvalidFd { fd: FD { fd: -5 } })]);
}

#[test]
fn permission_event_carries_descriptor() {
    let buffer = base_record(24, 3, OPEN_PERM | OPEN, 11, 1);
    let (items, _) = decode_all(plain_group(), Id::Pid(1), &buffer);
    let event = items.into_iter().next().unwrap().unwrap();
    assert_eq!(event.file().variant_name(), "permission");
    assert_eq!(event.file().descriptor(), Some(FD { fd: 11 }));
    let permission = event.permission().unwrap().into_file();
    assert_eq!(permission.fd().fd, 11);
    assert!(!permission.written());
    let with_info = fid_record(OPEN_PERM, 11, 1, 1, 12, &[]);
    let (items, _) = decode_all(group_with(Flags::REPORT_FID), Id::Pid(1), &with_info);
    let event = items.into_iter().next().unwrap().unwrap();
    assert_eq!(event.file().variant_name(), "permission");
}

#[test]
fn unknown_mask_bits_are_dropped() {
    let buffer = base_record(24, 3, OPEN | 0x2000 | (1 << 40), 7, 1);
    let (items, _) = decode_all(plain_group(), Id::Pid(1), &buffer);
    let event = items.into_iter().next().unwrap().unwrap();
    assert_eq!(event.mask().bits(), OPEN);
}

#[test]
fn empty_buffer_gives_nothing() {
    let (items, end) = decode_all(plain_group(), Id::Pid(1), &[]);
    assert!(items.is_empty());
    assert_eq!(end, 0);
}

#[test]
fn read_takes_the_callers_id() {
    let own = Id::current(false);
    let pid = own.pid().unwrap();
    assert!(pid > 0);
    assert_eq!(own.tid(), None);
    let buffer = base_record(24, 3, OPEN, 7, pid);
    let events = Events::read(plain_group(), &buffer);
    assert_eq!(events.id(), own);
    assert_eq!(events.as_bytes(), &buffer[..]);
    let event = events.into_iter().next().unwrap().unwrap();
    assert!(event.id().is_generated_by_self);
    let events = Events::read(group_with(Flags::REPORT_TID), &buffer);
    assert!(events.id().tid().unwrap() > 0);
    assert!(Id::current(true).pid().is_none());
}

fn mixed_buffer() -> Vec<u8> {
    let mut buffer = base_record(24, 3, OPEN, 7, 1);
    buffer.extend_from_slice(&base_record(24, 4, OPEN, 8, 2));
    buffer.extend_from_slice(&base_record(24, 3, OPEN_PERM, 9, 3));
    buffer.extend_from_slice(&base_record(24, 3, OVERFLOW, -1, 4));
    buffer.extend_from_slice(&base_record(24, 3, Mask::MODIFY, 10, 5));
    buffer
}

#[test]
fn events_by_kind() {
    let buffer = mixed_buffer();
    let events = || Events::new(plain_group(), Id::Pid(3), &buffer);
    let ok = events().into_iter().ok(100);
    assert_eq!(ok.len(), 3);
    assert_eq!(ok[0].id().id, Id::Pid(1));
    assert_eq!(ok[1].file().variant_name(), "permission");
    assert!(ok[1].id().is_generated_by_self);
    assert_eq!(ok[2].mask().bits(), Mask::MODIFY);
    let mut iterator = events().into_iter();
    let fds = iterator.fds(100);
    assert_eq!(iterator.read_index, 120);
    assert_eq!(fds.len(), 2);
    assert_eq!(fds[0].file().fd, FD { fd: 7 });
    assert_eq!(fds[1].file().fd, FD { fd: 10 });
    assert_eq!(fds[1].id().id, Id::Pid(5));
    let permissions = events().into_iter().permissions(100);
    assert_eq!(permissions.len(), 1);
    assert_eq!(permissions[0].file().fd().fd, 9);
    assert_eq!(permissions[0].mask().bits(), OPEN_PERM);
    assert!(events().into_iter().fids(100).is_empty());
    let mut iterator = events().into_iter();
    assert_eq!(iterator.ok(2).len(), 1);
    assert_eq!(iterator.read_index, 48);
    assert_eq!(iterator.fds(1).len(), 0);
    assert_eq!(iterator.read_index, 72);
    assert_eq!(iterator.ok(0).len(), 0);
    assert_eq!(iterator.read_index, 72);
}

#[test]
fn identified_files_by_kind() {
    let fid = group_with(Flags::REPORT_FID);
    let mut buffer = fid_record(Mask::CREATE, -1, 1, 1, 12, &[1, 2]);
    buffer.extend_from_slice(&fid_record(OPEN_PERM, 5, 1, 1, 12, &[]));
    buffer.extend_from_slice(&fid_record(Mask::DELETE, -1, 1, 7, 12, &[]));
    buffer.extend_from_slice(&fid_record(Mask::DELETE, -1, 1, 1, 12, &[3]));
    let events = || Events::new(fid, Id::Pid(1), &buffer);
    let fids = events().into_iter().fids(100);
    assert_eq!(fids.len(), 2);
    assert_eq!(fids[0].file().handle().as_bytes(), &[1, 2]);
    assert_eq!(fids[0].file().info_type(), InfoType::Fid);
    assert_eq!(fids[1].file().handle().as_bytes(), &[3]);
    assert_eq!(fids[1].mask().bits(), Mask::DELETE);
    assert_eq!(events().into_iter().permissions(100).len(), 1);
    assert_eq!(events().into_iter().ok(100).len(), 3);
    assert!(events().into_iter().fds(100).is_empty());
}

fn marked_group(flags: u32) -> fanotify::fanotify::Fanotify {
    let init = Init { flags: Flags::from_bits_truncate(flags), ..Default::default() };
    assert!(init.check().is_ok());
    let group = init.to_fanotify(Ok(3)).unwrap();
    let mark = fanotify::mark::Mark::one(fanotify::mark::OneMark {
        action: fanotify::mark::OneAction::Add,
        what: fanotify::mark::What::Inode,
        flags: fanotify::mark::Flags::from_bits_truncate(fanotify::mark::Flags::ONLY_DIR),
        mask: Mask::from_bits_truncate(Mask::OPEN).union(Mask::close()),
        path: fanotify::mark::Path::current_working_directory(),
    })
    .unwrap();
    let request = group.mark_request(&mark).unwrap();
    assert_eq!((request.fd, request.flags, request.mask, request.dir_fd), (3, 0x9, 0x38, -100));
    assert_eq!(group.mark_raw_error(&mark, Ok(0)), Ok(()));
    group
}

#[test]
fn scenario_open_event_in_a_group_without_file_handles() {
    let group = marked_group(0);
    let mut buffer = fanotify::event::buffer::EventBufferSize::default().new_buffer();
    buffer.start_read(4096);
    buffer.events[..24].copy_from_slice(&base_record(24, 3, OPEN, 7, 1234));
    buffer.finish_read(24);
    for (own, is_self) in [(Id::Pid(1234), true), (Id::Pid(1235), false)] {
        let mut iterator = Events::new(group.init, own, &buffer.events).into_iter();
        let items = iterator.collect(usize::MAX);
        assert_eq!(items.len(), 1);
        assert!(iterator.is_done());
        let event = items.into_iter().next().unwrap().unwrap();
        assert_eq!(event.mask(), Mask::from_bits_truncate(Mask::OPEN));
        assert_eq!(event.id().is_generated_by_self, is_self);
        assert_eq!(event.into_file(), File::FD(FileFD { fd: FD { fd: 7 } }));
    }
    let events = group.read(&buffer);
    assert_eq!(events.init(), group.init);
    assert!(events.id().pid().is_some());
    assert_eq!(events.into_iter().collect(1).len(), 1);
}

#[test]
fn scenario_permission_without_descriptor_in_a_group_with_file_handles() {
    let group = marked_group(Flags::REPORT_FID);
    let record = fid_record(OPEN_PERM | OPEN, -1, 1234, 1, 12, &[1, 2, 3, 4]);
    let mut iterator = Events::new(group.init, Id::Pid(1234), &record).into_iter();
    assert_eq!(iterator.collect(usize::MAX), vec![Err(EventError::FidReturnedForPermissionEvent)]);
    assert_eq!(iterator.read_index, record.len());
}

#[test]
fn results_by_kind() {
    let buffer = mixed_buffer();
    let collect = || Events::new(plain_group(), Id::Pid(3), &buffer).into_iter().collect(100);
    assert_eq!(collect().len(), 5);
    let ok = fanotify::event::iterator_ext::keep_ok(collect());
    assert_eq!(ok.len(), 3);
    assert_eq!(ok[0].id().id, Id::Pid(1));
    assert_eq!(ok[2].id().id, Id::Pid(5));
    let fds = fanotify::event::iterator_ext::keep_fds(collect());
    assert_eq!(fds.len(), 2);
    assert_eq!(fds[0].file().fd.fd, 7);
    assert_eq!(fds[1].file().fd.fd, 10);
    let permissions = fanotify::event::iterator_ext::keep_permissions(collect());
    assert_eq!(permissions.len(), 1);
    assert_eq!(permissions[0].file().fd().fd, 9);
    assert!(fanotify::event::iterator_ext::keep_fids(collect()).is_empty());
    assert!(fanotify::event::iterator_ext::keep_ok(Vec::new()).is_empty());
}

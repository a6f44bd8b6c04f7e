use fanotify::event::buffer::EventBuffer;
use fanotify::event::buffer::EventBufferSize;
use fanotify::event::file::finish_all;
use fanotify::event::file::FilePermission;
use fanotify::event::file::PermissionDecision;
use fanotify::event::file::RawFilePermission;
use fanotify::event::responses::immediate_outcome;
use fanotify::event::responses::ResponseBuffer;
use fanotify::fd::FD;
use fanotify::libc::fanotify_response;

#[test]
fn unanswered_permission_allows_on_finish() {
    let mut responses = ResponseBuffer::new(vec![1, 2, 3]);
    assert!(responses.is_empty());
    let permission = FilePermission::new(FD { fd: 7 });
    permission.finish(&mut responses);
    assert_eq!(responses.as_bytes(), &[7, 0, 0, 0, 1, 0, 0, 0]);
    assert_eq!(responses.responses(), vec![fanotify_response { fd: 7, response: 1 }]);
    assert_eq!(
        RawFilePermission::try_from(&responses.responses()[0]),
        Ok(RawFilePermission { fd: 7, decision: PermissionDecision::Allow, audit: false })
    );
}

#[test]
fn second_write_is_a_no_op() {
    let mut responses = ResponseBuffer::new(Vec::new());
    let mut permission = FilePermission::new(FD { fd: 300 });
    permission.deny();
    permission.set_audit(true);
    assert!(!permission.written());
    assert!(permission.write_buffered(&mut responses));
    assert!(permission.written());
    assert_eq!(responses.as_bytes(), &[0x2C, 1, 0, 0, 0x12, 0, 0, 0]);
    assert!(!permission.write_buffered(&mut responses));
    assert_eq!(responses.as_bytes().len(), 8);
    assert_eq!(permission.write_immediately(Ok(8)), Ok(false));
    permission.finish(&mut responses);
    assert_eq!(responses.responses(), vec![fanotify_response { fd: 300, response: 0x12 }]);
}

#[test]
fn immediate_write() {
    let mut permission = FilePermission::new(FD { fd: 4 });
    assert_eq!(permission.immediate_response(), Some(fanotify_response { fd: 4, response: 1 }));
    assert_eq!(permission.write_immediately(Err(9)), Err(9));
    assert!(!permission.written());
    assert_eq!(permission.write_immediately(Ok(3)), Err(11));
    assert_eq!(permission.write_immediately(Ok(0)), Err(11));
    assert!(!permission.written());
    assert_eq!(permission.write_immediately(Ok(8)), Ok(true));
    assert!(permission.written());
    assert_eq!(permission.immediate_response(), None);
    assert_eq!(permission.write_immediately(Ok(8)), Ok(false));
    let mut responses = ResponseBuffer::new(Vec::new());
    assert!(!permission.write_buffered(&mut responses));
    permission.finish(&mut responses);
    assert!(responses.is_empty());
    assert_eq!(immediate_outcome(Ok(8)), Ok(()));
    assert_eq!(immediate_outcome(Ok(7)), Err(11));
    assert_eq!(immediate_outcome(Err(5)), Err(5));
}

#[test]
fn decisions_and_their_bits() {
    assert_eq!(PermissionDecision::default(), PermissionDecision::Allow);
    assert_eq!(PermissionDecision::Allow.to_u32(), 1);
    assert_eq!(PermissionDecision::Deny.to_u32(), 2);
    assert_eq!(PermissionDecision::try_from(0), Err(()));
    assert_eq!(PermissionDecision::try_from(1), Ok(PermissionDecision::Allow));
    assert_eq!(PermissionDecision::try_from(2), Ok(PermissionDecision::Deny));
    assert_eq!(PermissionDecision::try_from(3), Err(()));
    assert_eq!(PermissionDecision::try_from(0x12), Ok(PermissionDecision::Deny));
    let mut permission = FilePermission::new(FD { fd: 1 });
    assert_eq!(permission.decision(), PermissionDecision::Allow);
    assert!(!permission.audit());
    permission.deny();
    assert_eq!(permission.decision(), PermissionDecision::Deny);
    permission.allow();
    assert_eq!(permission.decision(), PermissionDecision::Allow);
    assert_eq!(
        permission.response(),
        RawFilePermission { fd: 1, decision: PermissionDecision::Allow, audit: false }
    );
}

#[test]
fn answers_round_trip_through_records() {
    for decision in [PermissionDecision::Allow, PermissionDecision::Deny] {
        for audit in [false, true] {
            for fd in [0, 7, -1, i32::MAX, i32::MIN] {
                let answer = RawFilePermission { fd, decision, audit };
                let record = answer.to_response();
                assert_eq!(RawFilePermission::try_from(&record), Ok(answer));
                let mut bytes = vec![0xEE];
                record.write_to(&mut bytes);
                assert_eq!(bytes.len(), 9);
                assert_eq!(fanotify_response::parse(&bytes, 1), record);
                assert_eq!(record.as_bytes(), &bytes[1..]);
            }
        }
    }
    assert_eq!(
        RawFilePermission { fd: 3, decision: PermissionDecision::Deny, audit: true }.to_response(),
        fanotify_response { fd: 3, response: 0x12 }
    );
    assert_eq!(RawFilePermission::try_from(&fanotify_response { fd: 3, response: 0x10 }), Err(()));
}

#[test]
fn partial_flush_keeps_whole_answers_at_the_end() {
    let mut responses = ResponseBuffer::new(Vec::new());
    for fd in 1..=3 {
        responses.add(&fanotify_response { fd, response: 1 });
    }
    assert!(responses.has_more());
    assert_eq!(responses.as_bytes().len(), 24);
    assert_eq!(responses.write(Ok(11)), Ok(11));
    assert_eq!(responses.as_bytes().len(), 13);
    assert_eq!(responses.as_bytes()[..5], [0, 1, 0, 0, 0]);
    assert_eq!(responses.responses(), vec![fanotify_response { fd: 3, response: 1 }]);
    responses.add(&fanotify_response { fd: 4, response: 2 });
    assert_eq!(
        responses.responses(),
        vec![fanotify_response { fd: 3, response: 1 }, fanotify_response { fd: 4, response: 2 }]
    );
    assert_eq!(responses.write(Ok(0)), Ok(0));
    assert_eq!(responses.write(Err(11)), Err(11));
    assert_eq!(responses.as_bytes().len(), 21);
    assert_eq!(
        responses.answers(),
        vec![
            Ok(RawFilePermission { fd: 3, decision: PermissionDecision::Allow, audit: false }),
            Ok(RawFilePermission { fd: 4, decision: PermissionDecision::Deny, audit: false }),
        ]
    );
    responses.add(&fanotify_response { fd: 5, response: 0x10 });
    assert_eq!(responses.answers()[2], Err(()));
    assert_eq!(responses.write(Ok(29)), Ok(29));
    assert!(responses.is_empty());
    assert!(!responses.has_more());
    assert!(responses.responses().is_empty());
}

#[test]
fn event_buffer_capacities() {
    let size = EventBufferSize::default();
    assert_eq!(size, EventBufferSize { events: 4096, responses: 0 });
    let mut buffer: EventBuffer = size.new_buffer();
    assert!(buffer.events.is_empty());
    assert!(buffer.events.capacity() >= 4096);
    assert!(buffer.responses.is_empty());
    buffer.events.extend_from_slice(&[1, 2, 3]);
    buffer.responses.add(&fanotify_response { fd: 1, response: 1 });
    buffer.reserve(EventBufferSize { events: 100, responses: 64 });
    assert_eq!(buffer.events, vec![1, 2, 3]);
    assert!(buffer.events.capacity() >= 103);
    assert!(buffer.responses.buffer.capacity() >= 72);
    buffer.shrink_to_fit();
    assert_eq!(buffer.events, vec![1, 2, 3]);
    assert_eq!(buffer.responses.as_bytes().len(), 8);
    buffer.clear();
    assert!(buffer.events.is_empty());
    assert!(buffer.responses.is_empty());
    buffer.events.push(9);
    buffer.set_capacity(EventBufferSize { events: 16, responses: 16 });
    assert!(buffer.events.is_empty());
    assert!(buffer.events.capacity() >= 16);
}

#[test]
fn one_buffer_serves_read_after_read() {
    let mut buffer = EventBufferSize { events: 8, responses: 8 }.new_buffer();
    buffer.start_read(6);
    assert_eq!(buffer.events, vec![0; 6]);
    buffer.events[..4].copy_from_slice(&[1, 2, 3, 4]);
    buffer.responses.add(&fanotify_response { fd: 1, response: 1 });
    buffer.finish_read(4);
    assert_eq!(buffer.events, vec![1, 2, 3, 4]);
    assert_eq!(buffer.responses.as_bytes().len(), 8);
    buffer.start_read(2);
    assert_eq!(buffer.events, vec![0, 0]);
    assert!(buffer.responses.is_empty());
    buffer.finish_read(0);
    assert!(buffer.events.is_empty());
}

#[test]
fn all_requests_of_a_read_are_answered() {
    let mut responses = ResponseBuffer::new(Vec::new());
    let mut first = FilePermission::new(FD { fd: 1 });
    let mut second = FilePermission::new(FD { fd: 2 });
    let third = FilePermission::new(FD { fd: 3 });
    first.deny();
    assert!(second.write_buffered(&mut responses));
    finish_all(vec![first, second, third], &mut responses);
    assert_eq!(
        responses.responses(),
        vec![
            fanotify_response { fd: 2, response: 1 },
            fanotify_response { fd: 3, response: 1 },
            fanotify_response { fd: 1, response: 2 },
        ]
    );
    finish_all(Vec::new(), &mut responses);
    assert_eq!(responses.as_bytes().len(), 24);
}

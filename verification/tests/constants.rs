use std::mem::size_of;

use nix::errno::Errno;

#[test]
fn group_and_mark_constants_are_those_of_the_system() {
    assert_eq!(fanotify::libc::FAN_CLOEXEC, libc::FAN_CLOEXEC as u32);
    assert_eq!(fanotify::libc::FAN_NONBLOCK, libc::FAN_NONBLOCK as u32);
    assert_eq!(fanotify::libc::FAN_UNLIMITED_QUEUE, libc::FAN_UNLIMITED_QUEUE as u32);
    assert_eq!(fanotify::libc::FAN_UNLIMITED_MARKS, libc::FAN_UNLIMITED_MARKS as u32);
    assert_eq!(fanotify::libc::FAN_REPORT_TID, libc::FAN_REPORT_TID as u32);
    assert_eq!(fanotify::libc::FAN_REPORT_FID, libc::FAN_REPORT_FID as u32);
    assert_eq!(fanotify::libc::FAN_REPORT_DIR_FID, libc::FAN_REPORT_DIR_FID as u32);
    assert_eq!(fanotify::libc::FAN_REPORT_NAME, libc::FAN_REPORT_NAME as u32);
    assert_eq!(fanotify::libc::FAN_CLASS_NOTIF, libc::FAN_CLASS_NOTIF as u32);
    assert_eq!(fanotify::libc::FAN_CLASS_CONTENT, libc::FAN_CLASS_CONTENT as u32);
    assert_eq!(fanotify::libc::FAN_CLASS_PRE_CONTENT, libc::FAN_CLASS_PRE_CONTENT as u32);
    assert_eq!(fanotify::libc::FAN_MARK_ADD, libc::FAN_MARK_ADD as u32);
    assert_eq!(fanotify::libc::FAN_MARK_REMOVE, libc::FAN_MARK_REMOVE as u32);
    assert_eq!(fanotify::libc::FAN_MARK_FLUSH, libc::FAN_MARK_FLUSH as u32);
    assert_eq!(fanotify::libc::FAN_MARK_INODE, libc::FAN_MARK_INODE as u32);
    assert_eq!(fanotify::libc::FAN_MARK_MOUNT, libc::FAN_MARK_MOUNT as u32);
    assert_eq!(fanotify::libc::FAN_MARK_FILESYSTEM, libc::FAN_MARK_FILESYSTEM as u32);
    assert_eq!(fanotify::libc::FAN_MARK_DONT_FOLLOW, libc::FAN_MARK_DONT_FOLLOW as u32);
    assert_eq!(fanotify::libc::FAN_MARK_ONLYDIR, libc::FAN_MARK_ONLYDIR as u32);
    assert_eq!(fanotify::libc::FAN_MARK_IGNORED_MASK, libc::FAN_MARK_IGNORED_MASK as u32);
    assert_eq!(fanotify::libc::FAN_MARK_IGNORED_SURV_MODIFY, libc::FAN_MARK_IGNORED_SURV_MODIFY as u32);
    assert_eq!(fanotify::libc::FAN_ALLOW, libc::FAN_ALLOW as u32);
    assert_eq!(fanotify::libc::FAN_DENY, libc::FAN_DENY as u32);
    assert_eq!(fanotify::libc::FAN_AUDIT, libc::FAN_AUDIT as u32);
}

#[test]
fn event_mask_constants_are_those_of_the_system() {
    assert_eq!(fanotify::libc::FAN_ACCESS, libc::FAN_ACCESS);
    assert_eq!(fanotify::libc::FAN_MODIFY, libc::FAN_MODIFY);
    assert_eq!(fanotify::libc::FAN_ATTRIB, libc::FAN_ATTRIB);
    assert_eq!(fanotify::libc::FAN_CLOSE_WRITE, libc::FAN_CLOSE_WRITE);
    assert_eq!(fanotify::libc::FAN_CLOSE_NOWRITE, libc::FAN_CLOSE_NOWRITE);
    assert_eq!(fanotify::libc::FAN_OPEN, libc::FAN_OPEN);
    assert_eq!(fanotify::libc::FAN_MOVED_FROM, libc::FAN_MOVED_FROM);
    assert_eq!(fanotify::libc::FAN_MOVED_TO, libc::FAN_MOVED_TO);
    assert_eq!(fanotify::libc::FAN_CREATE, libc::FAN_CREATE);
    assert_eq!(fanotify::libc::FAN_DELETE, libc::FAN_DELETE);
    assert_eq!(fanotify::libc::FAN_DELETE_SELF, libc::FAN_DELETE_SELF);
    assert_eq!(fanotify::libc::FAN_MOVE_SELF, libc::FAN_MOVE_SELF);
    assert_eq!(fanotify::libc::FAN_OPEN_EXEC, libc::FAN_OPEN_EXEC);
    assert_eq!(fanotify::libc::FAN_Q_OVERFLOW, libc::FAN_Q_OVERFLOW);
    assert_eq!(fanotify::libc::FAN_OPEN_PERM, libc::FAN_OPEN_PERM);
    assert_eq!(fanotify::libc::FAN_ACCESS_PERM, libc::FAN_ACCESS_PERM);
    assert_eq!(fanotify::libc::FAN_OPEN_EXEC_PERM, libc::FAN_OPEN_EXEC_PERM);
    assert_eq!(fanotify::libc::FAN_EVENT_ON_CHILD, libc::FAN_EVENT_ON_CHILD);
    assert_eq!(fanotify::libc::FAN_ONDIR, libc::FAN_ONDIR);
}

#[test]
fn record_constants_are_those_of_the_system() {
    assert_eq!(fanotify::libc::FANOTIFY_METADATA_VERSION, libc::FANOTIFY_METADATA_VERSION);
    assert_eq!(fanotify::libc::FAN_NOFD, libc::FAN_NOFD);
    assert_eq!(fanotify::libc::FAN_EVENT_INFO_TYPE_FID, libc::FAN_EVENT_INFO_TYPE_FID);
    assert_eq!(fanotify::libc::FAN_EVENT_INFO_TYPE_DFID_NAME, libc::FAN_EVENT_INFO_TYPE_DFID_NAME);
    assert_eq!(fanotify::libc::FAN_EVENT_INFO_TYPE_DFID, libc::FAN_EVENT_INFO_TYPE_DFID);
    assert_eq!(fanotify::libc::AT_FDCWD, libc::AT_FDCWD);
}

#[test]
fn open_flags_are_those_of_the_system() {
    assert_eq!(fanotify::libc::O_RDONLY, libc::O_RDONLY as u32);
    assert_eq!(fanotify::libc::O_WRONLY, libc::O_WRONLY as u32);
    assert_eq!(fanotify::libc::O_RDWR, libc::O_RDWR as u32);
    assert_eq!(fanotify::libc::O_LARGEFILE, libc::O_LARGEFILE as u32);
    assert_eq!(fanotify::libc::O_CLOEXEC, libc::O_CLOEXEC as u32);
    assert_eq!(fanotify::libc::O_APPEND, libc::O_APPEND as u32);
    assert_eq!(fanotify::libc::O_DSYNC, libc::O_DSYNC as u32);
    assert_eq!(fanotify::libc::O_SYNC, libc::O_SYNC as u32);
    assert_eq!(fanotify::libc::O_NOATIME, libc::O_NOATIME as u32);
    assert_eq!(fanotify::libc::O_NONBLOCK, libc::O_NONBLOCK as u32);
}

#[test]
fn error_numbers_are_those_of_the_system() {
    assert_eq!(fanotify::libc::EPERM, Errno::EPERM as i32);
    assert_eq!(fanotify::libc::EPERM, libc::EPERM);
    assert_eq!(fanotify::libc::ENOENT, Errno::ENOENT as i32);
    assert_eq!(fanotify::libc::ENOENT, libc::ENOENT);
    assert_eq!(fanotify::libc::EBADF, Errno::EBADF as i32);
    assert_eq!(fanotify::libc::EBADF, libc::EBADF);
    assert_eq!(fanotify::libc::EAGAIN, Errno::EAGAIN as i32);
    assert_eq!(fanotify::libc::EAGAIN, libc::EAGAIN);
    assert_eq!(fanotify::libc::ENOMEM, Errno::ENOMEM as i32);
    assert_eq!(fanotify::libc::ENOMEM, libc::ENOMEM);
    assert_eq!(fanotify::libc::ENODEV, Errno::ENODEV as i32);
    assert_eq!(fanotify::libc::ENODEV, libc::ENODEV);
    assert_eq!(fanotify::libc::ENOTDIR, Errno::ENOTDIR as i32);
    assert_eq!(fanotify::libc::ENOTDIR, libc::ENOTDIR);
    assert_eq!(fanotify::libc::EINVAL, Errno::EINVAL as i32);
    assert_eq!(fanotify::libc::EINVAL, libc::EINVAL);
    assert_eq!(fanotify::libc::ENFILE, Errno::ENFILE as i32);
    assert_eq!(fanotify::libc::ENFILE, libc::ENFILE);
    assert_eq!(fanotify::libc::EMFILE, Errno::EMFILE as i32);
    assert_eq!(fanotify::libc::EMFILE, libc::EMFILE);
    assert_eq!(fanotify::libc::ENOSPC, Errno::ENOSPC as i32);
    assert_eq!(fanotify::libc::ENOSPC, libc::ENOSPC);
    assert_eq!(fanotify::libc::ENOSYS, Errno::ENOSYS as i32);
    assert_eq!(fanotify::libc::ENOSYS, libc::ENOSYS);
    assert_eq!(fanotify::libc::EOPNOTSUPP, Errno::EOPNOTSUPP as i32);
    assert_eq!(fanotify::libc::EOPNOTSUPP, libc::EOPNOTSUPP);
}

#[test]
fn record_sizes_are_those_of_the_system() {
    assert_eq!(fanotify::libc::EVENT_LEN_SIZE, size_of::<u32>());
    assert_eq!(fanotify::libc::METADATA_SIZE, size_of::<libc::fanotify_event_metadata>());
    assert_eq!(fanotify::libc::INFO_HEADER_SIZE, size_of::<libc::fanotify_event_info_header>());
    assert_eq!(fanotify::libc::FSID_SIZE, size_of::<libc::__kernel_fsid_t>());
    assert_eq!(fanotify::libc::RESPONSE_SIZE, size_of::<libc::fanotify_response>());
    assert_eq!(
        fanotify::event::iterator::FID_SIZE,
        size_of::<libc::fanotify_event_info_header>() + size_of::<libc::__kernel_fsid_t>()
    );
    assert_eq!(
        fanotify::event::iterator::METADATA_AND_FID_SIZE,
        size_of::<libc::fanotify_event_metadata>()
            + size_of::<libc::fanotify_event_info_header>()
            + size_of::<libc::__kernel_fsid_t>()
    );
}

#[test]
fn numbers_are_read_in_the_byte_order_of_the_system() {
    let bytes = [0x01u8, 0x23, 0x45, 0x67, 0x89, 0xAB, 0xCD, 0xEF, 0xFE];
    assert_eq!(fanotify::libc::read_u16(&bytes, 1), u16::from_ne_bytes([0x23, 0x45]));
    assert_eq!(fanotify::libc::read_u32(&bytes, 1), u32::from_ne_bytes([0x23, 0x45, 0x67, 0x89]));
    assert_eq!(fanotify::libc::read_i32(&bytes, 5), i32::from_ne_bytes([0xAB, 0xCD, 0xEF, 0xFE]));
    assert_eq!(fanotify::libc::read_i32(&bytes, 0), i32::from_ne_bytes([0x01, 0x23, 0x45, 0x67]));
    assert_eq!(
        fanotify::libc::read_u64(&bytes, 1),
        u64::from_ne_bytes([0x23, 0x45, 0x67, 0x89, 0xAB, 0xCD, 0xEF, 0xFE])
    );
    assert_eq!(fanotify::libc::read_u32(&bytes, 0), 0x6745_2301);
    assert_eq!(fanotify::libc::read_i32(&bytes, 5), -0x0110_3255);
}

#[test]
fn numbers_are_written_in_the_byte_order_of_the_system() {
    for value in [0u32, 1, 0x0123_4567, 0x8000_0000, u32::MAX] {
        let mut bytes = vec![9u8];
        fanotify::libc::push_u32(&mut bytes, value);
        assert_eq!(bytes[1..], value.to_ne_bytes());
    }
    for value in [0i32, 1, -1, 7, i32::MIN, i32::MAX, -0x0123_4567] {
        let mut bytes = Vec::new();
        fanotify::libc::push_i32(&mut bytes, value);
        assert_eq!(bytes, value.to_ne_bytes());
        assert_eq!(fanotify::libc::read_i32(&bytes, 0), value);
    }
    let record = fanotify::libc::fanotify_response { fd: -2, response: 0x12 };
    let mut expected = Vec::new();
    expected.extend_from_slice(&(-2i32).to_ne_bytes());
    expected.extend_from_slice(&0x12u32.to_ne_bytes());
    assert_eq!(record.as_bytes(), expected);
}

#[test]
fn returns_of_calls_are_judged() {
    assert_eq!(fanotify::call::libc_call(5, 11), Ok(5));
    assert_eq!(fanotify::call::libc_call(0, 11), Ok(0));
    assert_eq!(fanotify::call::libc_call(-1, 11), Err(11));
    assert_eq!(fanotify::call::libc_call(-2, 11), Ok(-2));
    assert_eq!(fanotify::call::libc_void_call(0, 22), Ok(()));
    assert_eq!(fanotify::call::libc_void_call(-1, 22), Err(22));
}

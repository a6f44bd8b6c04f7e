use fanotify::init::Error;
use fanotify::init::EventFlags;
use fanotify::init::Flags;
use fanotify::init::Init;
use fanotify::init::NotificationClass;
use fanotify::init::RawInit;
use fanotify::init::ReadWrite;

fn unlimited_with_fid() -> Init {
    Init {
        flags: Flags::unlimited().union(Flags::from_bits_truncate(Flags::REPORT_FID)),
        ..Default::default()
    }
}

#[test]
fn init_init_display_debug() {
    let args = unlimited_with_fid();
    assert_eq!(
        args.as_raw().to_string(),
        "Init { \
            notification_class: Notify, \
            flags: UNLIMITED_QUEUE | UNLIMITED_MARKS | REPORT_FID, \
            rw: Read, \
            event_flags: LARGE_FILE \
        }",
    );
}

#[test]
fn mod_init_display_debug() {
    let args = unlimited_with_fid();
    assert_eq!(
        format!("{}", args.as_raw().to_string()),
        "Init { \
            notification_class: Notify, \
            flags: UNLIMITED_QUEUE | UNLIMITED_MARKS | REPORT_FID, \
            rw: Read, \
            event_flags: LARGE_FILE \
        }",
    );
}

#[test]
fn default_init_is_plain_notification() {
    let init = Init::const_default();
    assert_eq!(init.notification_class, NotificationClass::Notify);
    assert_eq!(init.flags.bits(), 0);
    assert_eq!(init.rw, ReadWrite::Read);
    assert_eq!(init.event_flags.bits(), 0);
    assert_eq!(init, Init::default());
    assert_eq!(init.as_raw(), RawInit { flags: 0, event_flags: 0 });
}

#[test]
fn as_raw_packs_class_and_flags() {
    let init = Init {
        notification_class: NotificationClass::PreContent,
        flags: Flags::from_bits_truncate(Flags::CLOSE_ON_EXEC | Flags::REPORT_TID),
        rw: ReadWrite::ReadAndWrite,
        event_flags: EventFlags::from_bits_truncate(EventFlags::APPEND | EventFlags::NON_BLOCKING),
    };
    assert_eq!(init.flags(), 0x0000_0109);
    assert_eq!(init.event_flags(), 0x0000_0C02);
    assert_eq!(init.as_raw(), RawInit { flags: 0x109, event_flags: 0xC02 });
}

#[test]
fn raw_round_trip_over_all_classes_and_modes() {
    let classes = [NotificationClass::PreContent, NotificationClass::Content, NotificationClass::Notify];
    let modes = [ReadWrite::Read, ReadWrite::Write, ReadWrite::ReadAndWrite];
    let flag_bits = [0u32, Flags::ALL, Flags::REPORT_FID, Flags::UNLIMITED_QUEUE | Flags::NON_BLOCKING];
    let event_bits = [0u32, EventFlags::ALL, EventFlags::SYNC, EventFlags::CLOSE_ON_EXEC];
    for class in classes {
        for rw in modes {
            for f in flag_bits {
                for e in event_bits {
                    let init = Init {
                        notification_class: class,
                        flags: Flags::from_bits(f).unwrap(),
                        rw,
                        event_flags: EventFlags::from_bits(e).unwrap(),
                    };
                    assert_eq!(init.as_raw().undo_raw(), init);
                }
            }
        }
    }
}

#[test]
fn undo_raw_drops_unknown_bits() {
    let raw = RawInit { flags: 0xFFFF_FFFF, event_flags: 0xFFFF_FFFF };
    let init = raw.undo_raw();
    assert_eq!(init.notification_class, NotificationClass::Notify);
    assert_eq!(init.flags.bits(), Flags::ALL);
    assert_eq!(init.rw, ReadWrite::Read);
    assert_eq!(init.event_flags.bits(), EventFlags::ALL);
    let raw = RawInit { flags: 0x4, event_flags: 0x1 };
    assert_eq!(raw.notification_class(), NotificationClass::Content);
    assert_eq!(raw.rw(), ReadWrite::Write);
    assert_eq!(raw.flags().bits(), 0);
    assert_eq!(raw.event_flags().bits(), 0);
}

#[test]
fn flags_from_bits_rejects_unknown_bits() {
    assert_eq!(Flags::from_bits(0x4), None);
    assert_eq!(Flags::from_bits(0x200), Some(Flags { bits: 0x200 }));
    assert_eq!(Flags::from_bits_truncate(0x204).bits(), 0x200);
    assert_eq!(Flags::unlimited().bits(), 0x30);
    assert!(Flags::all().contains(Flags::unlimited()));
    assert!(!Flags::empty().intersects(Flags::all()));
    assert!(Flags::empty().is_empty());
}

#[test]
fn flag_text_lists_names_in_order() {
    assert_eq!(Flags::empty().text(), "(empty)");
    assert_eq!(Flags::from_bits_truncate(Flags::REPORT_NAME | Flags::CLOSE_ON_EXEC).text(), "CLOSE_ON_EXEC | REPORT_NAME");
    assert_eq!(EventFlags::empty().text(), "LARGE_FILE");
    assert_eq!(EventFlags::from_bits_truncate(EventFlags::APPEND).text(), "APPEND");
    assert_eq!(EventFlags::from_bits_truncate(EventFlags::SYNC).text(), "DATA_SYNC | SYNC");
}

#[test]
fn init_to_string_of_other_values() {
    let init = Init {
        notification_class: NotificationClass::Content,
        flags: Flags::empty(),
        rw: ReadWrite::Write,
        event_flags: EventFlags::from_bits_truncate(EventFlags::NO_UPDATE_ACCESS_TIME),
    };
    assert_eq!(
        init.to_string(),
        "Init { notification_class: Content, flags: (empty), rw: Write, event_flags: NO_UPDATE_ACCESS_TIME }",
    );
}

#[test]
fn check_rejects_fid_outside_notify() {
    let mut init = unlimited_with_fid();
    assert_eq!(init.check(), Ok(init.as_raw()));
    init.notification_class = NotificationClass::Content;
    assert_eq!(init.check(), Err(Error::InvalidArgument));
    init.flags = Flags::unlimited();
    assert_eq!(init.check(), Ok(init.as_raw()));
}

#[test]
fn init_errors_from_errno() {
    assert!(Error::is_documented(24));
    assert!(!Error::is_documented(5));
    assert_eq!(Error::from_errno(24), Error::ExceededFanotifyGroupPerProcessLimit);
    assert_eq!(Error::from_errno(23), Error::ExceededOpenFileDescriptorPerProcessLimit);
    assert_eq!(Error::from_errno(12), Error::OutOfMemory);
    assert_eq!(Error::from_errno(1), Error::PermissionDenied);
    assert_eq!(Error::from_errno(38), Error::FanotifyUnsupported);
    assert_eq!(Error::from_errno(22), Error::FeatureUnsupported);
}

#[test]
fn to_fanotify_judges_the_outcome_of_the_open_call() {
    let init = unlimited_with_fid();
    let group = init.to_fanotify(Ok(5)).unwrap();
    assert_eq!(group.fd, fanotify::fd::FD { fd: 5 });
    assert_eq!(group.init, init.as_raw());
    assert_eq!(group.init, RawInit { flags: 0x230, event_flags: 0 });
    assert_eq!(init.to_fanotify(Ok(0)).unwrap().fd.raw(), 0);
    assert_eq!(
        init.to_fanotify(Ok(-3)),
        Err(Error::InvalidFd { fd: fanotify::fd::FD { fd: -3 } })
    );
    assert_eq!(init.to_fanotify(Err(1)), Err(Error::PermissionDenied));
    assert_eq!(init.to_fanotify(Err(22)), Err(Error::FeatureUnsupported));
    assert!(fanotify::fd::FD::new(0).check());
    assert!(!fanotify::fd::FD::new(-1).check());
}

#[test]
fn to_fanotify_refuses_file_handles_outside_notify() {
    for class in [NotificationClass::Content, NotificationClass::PreContent] {
        let init = Init { notification_class: class, ..unlimited_with_fid() };
        assert_eq!(init.to_fanotify(Ok(5)), Err(Error::InvalidArgument));
        assert_eq!(init.to_fanotify(Ok(-1)), Err(Error::InvalidArgument));
        assert_eq!(init.to_fanotify(Err(12)), Err(Error::InvalidArgument));
        assert_eq!(init.to_fanotify(Err(5)), Err(Error::InvalidArgument));
        let without = Init { flags: Flags::unlimited(), ..init };
        assert_eq!(without.to_fanotify(Ok(5)).unwrap().init, without.as_raw());
    }
}

#[test]
fn raw_words_round_trip() {
    for flags in [0u32, 0x4, 0x8, 0x0F33, 0x0F37, 0x0F3B, 0x230] {
        for event_flags in [0u32, 1, 2, 0x1C1C00, 0x1C1C02, 0x400] {
            let raw = RawInit { flags, event_flags };
            assert_eq!(raw.undo_raw().as_raw(), raw);
        }
    }
    assert_eq!(RawInit { flags: 0xC, event_flags: 3 }.undo_raw().as_raw(), RawInit { flags: 0, event_flags: 0 });
}

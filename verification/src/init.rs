//! The configuration a group is opened with, in its structured form
//! ([`Init`]) and packed into the two words the kernel takes ([`RawInit`]).

use vstd::prelude::*;
use vstd::string::StringExecFns;
use crate::flag_text::lemma_known_bits_u32;
use crate::flag_text::lemma_union_known_bits_u32;
use crate::flag_text::names_flag;
use crate::flag_text::push_flags_end;
use crate::flag_text::push_name;
use crate::flag_text::spec_flags_end;
use crate::flag_text::spec_names_flag;
use crate::flag_text::spec_with_name;
use crate::fd::FD;
use crate::libc::FAN_CLASS_CONTENT;
use crate::libc::FAN_CLASS_NOTIF;
use crate::libc::FAN_CLASS_PRE_CONTENT;
use crate::libc::FAN_CLOEXEC;
use crate::libc::FAN_NONBLOCK;
use crate::libc::FAN_REPORT_DIR_FID;
use crate::libc::FAN_REPORT_FID;
use crate::libc::FAN_REPORT_NAME;
use crate::libc::FAN_REPORT_TID;
use crate::libc::FAN_UNLIMITED_MARKS;
use crate::libc::FAN_UNLIMITED_QUEUE;
use crate::libc::O_APPEND;
use crate::libc::O_CLOEXEC;
use crate::libc::O_DSYNC;
use crate::libc::O_LARGEFILE;
use crate::libc::O_NOATIME;
use crate::libc::O_NONBLOCK;
use crate::libc::O_RDONLY;
use crate::libc::O_RDWR;
use crate::libc::O_SYNC;
use crate::libc::O_WRONLY;
use crate::libc::EINVAL;
use crate::libc::EMFILE;
use crate::libc::ENFILE;
use crate::libc::ENOMEM;
use crate::libc::ENOSYS;
use crate::libc::EPERM;

verus! {

/// Which kinds of events a group may receive.
#[derive(Debug, Copy, Clone, Eq, PartialEq, Hash, Structural)]
pub enum NotificationClass {
    PreContent,
    Content,
    Notify,
}

impl NotificationClass {
    pub fn const_default() -> (class: Self)
        ensures
            class == NotificationClass::Notify,
    {
        NotificationClass::Notify
    }

    /// The bits that stand for this class in the first word.
    pub open spec fn spec_bits(self) -> u32 {
        match self {
            NotificationClass::PreContent => FAN_CLASS_PRE_CONTENT,
            NotificationClass::Content => FAN_CLASS_CONTENT,
            NotificationClass::Notify => FAN_CLASS_NOTIF,
        }
    }

    #[verifier::when_used_as_spec(spec_bits)]
    pub fn bits(self) -> (bits: u32)
        ensures
            bits == self.spec_bits(),
    {
        match self {
            NotificationClass::PreContent => FAN_CLASS_PRE_CONTENT,
            NotificationClass::Content => FAN_CLASS_CONTENT,
            NotificationClass::Notify => FAN_CLASS_NOTIF,
        }
    }

    /// The name of the variant.
    pub open spec fn spec_name(self) -> Seq<char> {
        match self {
            NotificationClass::PreContent => "PreContent"@,
            NotificationClass::Content => "Content"@,
            NotificationClass::Notify => "Notify"@,
        }
    }

    pub fn name(self) -> (name: &'static str)
        ensures
            name@ == self.spec_name(),
    {
        match self {
            NotificationClass::PreContent => "PreContent",
            NotificationClass::Content => "Content",
            NotificationClass::Notify => "Notify",
        }
    }
}

impl Default for NotificationClass {
    fn default() -> (class: Self)
        ensures
            class == NotificationClass::Notify,
    {
        NotificationClass::const_default()
    }
}

/// How the descriptors that come with events are opened.
#[derive(Debug, Copy, Clone, Eq, PartialEq, Hash, Structural)]
pub enum ReadWrite {
    Read,
    Write,
    ReadAndWrite,
}

impl ReadWrite {
    pub fn const_default() -> (rw: Self)
        ensures
            rw == ReadWrite::Read,
    {
        ReadWrite::Read
    }

    /// The bits that stand for this mode in the second word.
    pub open spec fn spec_bits(self) -> u32 {
        match self {
            ReadWrite::Read => O_RDONLY,
            ReadWrite::Write => O_WRONLY,
            ReadWrite::ReadAndWrite => O_RDWR,
        }
    }

    #[verifier::when_used_as_spec(spec_bits)]
    pub fn bits(self) -> (bits: u32)
        ensures
            bits == self.spec_bits(),
    {
        match self {
            ReadWrite::Read => O_RDONLY,
            ReadWrite::Write => O_WRONLY,
            ReadWrite::ReadAndWrite => O_RDWR,
        }
    }

    /// The name of the variant.
    pub open spec fn spec_name(self) -> Seq<char> {
        match self {
            ReadWrite::Read => "Read"@,
            ReadWrite::Write => "Write"@,
            ReadWrite::ReadAndWrite => "ReadAndWrite"@,
        }
    }

    pub fn name(self) -> (name: &'static str)
        ensures
            name@ == self.spec_name(),
    {
        match self {
            ReadWrite::Read => "Read",
            ReadWrite::Write => "Write",
            ReadWrite::ReadAndWrite => "ReadAndWrite",
        }
    }
}

impl Default for ReadWrite {
    fn default() -> (rw: Self)
        ensures
            rw == ReadWrite::Read,
    {
        ReadWrite::const_default()
    }
}

/// The options a group is opened with.
#[derive(Debug, Copy, Clone, Eq, PartialEq, Hash, Structural)]
pub struct Flags {
    pub bits: u32,
}

impl Flags {
    /// Close the group's descriptor on exec.
    pub const CLOSE_ON_EXEC: u32 = FAN_CLOEXEC;

    /// Reads from the group do not block.
    pub const NON_BLOCKING: u32 = FAN_NONBLOCK;

    /// No limit on the number of queued events.
    pub const UNLIMITED_QUEUE: u32 = FAN_UNLIMITED_QUEUE;

    /// No limit on the number of marks.
    pub const UNLIMITED_MARKS: u32 = FAN_UNLIMITED_MARKS;

    /// Events name the thread that caused them, not the process.
    pub const REPORT_TID: u32 = FAN_REPORT_TID;

    /// Events carry a file handle in place of an open descriptor.
    pub const REPORT_FID: u32 = FAN_REPORT_FID;

    /// Events carry the handle of the directory.
    pub const REPORT_DIR_FID: u32 = FAN_REPORT_DIR_FID;

    /// Events carry the name of the directory entry.
    pub const REPORT_NAME: u32 = FAN_REPORT_NAME;

    /// Every bit that belongs to a flag of this set.
    pub const ALL: u32 = 0x0F33;

    /// The set holds no bit outside its flags.
    pub open spec fn wf(&self) -> bool {
        self.bits & !Self::ALL == 0
    }

    pub fn empty() -> (flags: Self)
        ensures
            flags.bits == 0,
            flags.wf(),
    {
        proof {
            lemma_known_bits_u32(0, Self::ALL);
        }
        Self { bits: 0 }
    }

    pub fn all() -> (flags: Self)
        ensures
            flags.bits == Self::ALL,
            flags.wf(),
    {
        proof {
            lemma_known_bits_u32(0, Self::ALL);
        }
        Self { bits: Self::ALL }
    }

    pub open spec fn spec_bits(&self) -> u32 {
        self.bits
    }

    #[verifier::when_used_as_spec(spec_bits)]
    pub fn bits(&self) -> (bits: u32)
        ensures
            bits == self.bits,
    {
        self.bits
    }

    /// The set with exactly these bits, if all of them belong to flags.
    pub fn from_bits(bits: u32) -> (flags: Option<Self>)
        ensures
            flags == if bits & !Self::ALL == 0 {
                Some(Self { bits })
            } else {
                None
            },
    {
        if bits & !Self::ALL == 0 {
            Some(Self { bits })
        } else {
            None
        }
    }

    pub open spec fn spec_from_bits_truncate(bits: u32) -> Self {
        Self { bits: bits & Self::ALL }
    }

    /// The set with these bits, without those that belong to no flag.
    #[verifier::when_used_as_spec(spec_from_bits_truncate)]
    pub fn from_bits_truncate(bits: u32) -> (flags: Self)
        ensures
            flags == Self::spec_from_bits_truncate(bits),
            flags.wf(),
            bits & !Self::ALL == 0 ==> flags.bits == bits,
    {
        proof {
            lemma_known_bits_u32(bits, Self::ALL);
        }
        Self { bits: bits & Self::ALL }
    }

    pub fn is_empty(&self) -> (empty: bool)
        ensures
            empty == (self.bits == 0),
    {
        self.bits == 0
    }

    pub open spec fn spec_contains(&self, other: Self) -> bool {
        self.bits & other.bits == other.bits
    }

    /// Whether every flag of `other` is in this set.
    #[verifier::when_used_as_spec(spec_contains)]
    pub fn contains(&self, other: Self) -> (all: bool)
        ensures
            all == self.spec_contains(other),
    {
        self.bits & other.bits == other.bits
    }

    pub open spec fn spec_intersects(&self, other: Self) -> bool {
        self.bits & other.bits != 0
    }

    /// Whether some flag of `other` is in this set.
    #[verifier::when_used_as_spec(spec_intersects)]
    pub fn intersects(&self, other: Self) -> (any: bool)
        ensures
            any == self.spec_intersects(other),
    {
        self.bits & other.bits != 0
    }

    pub open spec fn spec_union(self, other: Self) -> Self {
        Self { bits: self.bits | other.bits }
    }

    /// The flags of either set.
    #[verifier::when_used_as_spec(spec_union)]
    pub fn union(self, other: Self) -> (flags: Self)
        ensures
            flags == self.spec_union(other),
            self.wf() && other.wf() ==> flags.wf(),
    {
        proof {
            lemma_union_known_bits_u32(self.bits, other.bits, Self::ALL);
        }
        Self { bits: self.bits | other.bits }
    }

    pub fn const_default() -> (flags: Self)
        ensures
            flags.bits == 0,
            flags.wf(),
    {
        Self::empty()
    }

    /// No limit on the queue and none on the marks.
    pub fn unlimited() -> (flags: Self)
        ensures
            flags.bits == Self::UNLIMITED_QUEUE | Self::UNLIMITED_MARKS,
            flags.bits == 0x30,
            flags.wf(),
    {
        assert(0x10u32 | 0x20u32 == 0x30u32) by (bit_vector);
        assert(0x30u32 & !0x0F33u32 == 0) by (bit_vector);
        Self { bits: 0x30 }
    }

    /// The names of the flags in this set, in the order of their declaration.
    pub open spec fn spec_text(&self) -> Seq<char> {
        let bits = self.bits as u64;
        let t0 = Seq::<char>::empty();
        let e0 = true;
        let has1 = spec_names_flag(bits, Self::CLOSE_ON_EXEC as u64);
        let t1 = spec_with_name(t0, e0, has1, "CLOSE_ON_EXEC"@);
        let e1 = e0 && !has1;
        let has2 = spec_names_flag(bits, Self::NON_BLOCKING as u64);
        let t2 = spec_with_name(t1, e1, has2, "NON_BLOCKING"@);
        let e2 = e1 && !has2;
        let has3 = spec_names_flag(bits, Self::UNLIMITED_QUEUE as u64);
        let t3 = spec_with_name(t2, e2, has3, "UNLIMITED_QUEUE"@);
        let e3 = e2 && !has3;
        let has4 = spec_names_flag(bits, Self::UNLIMITED_MARKS as u64);
        let t4 = spec_with_name(t3, e3, has4, "UNLIMITED_MARKS"@);
        let e4 = e3 && !has4;
        let has5 = spec_names_flag(bits, Self::REPORT_TID as u64);
        let t5 = spec_with_name(t4, e4, has5, "REPORT_TID"@);
        let e5 = e4 && !has5;
        let has6 = spec_names_flag(bits, Self::REPORT_FID as u64);
        let t6 = spec_with_name(t5, e5, has6, "REPORT_FID"@);
        let e6 = e5 && !has6;
        let has7 = spec_names_flag(bits, Self::REPORT_DIR_FID as u64);
        let t7 = spec_with_name(t6, e6, has7, "REPORT_DIR_FID"@);
        let e7 = e6 && !has7;
        let has8 = spec_names_flag(bits, Self::REPORT_NAME as u64);
        let t8 = spec_with_name(t7, e7, has8, "REPORT_NAME"@);
        let e8 = e7 && !has8;
        spec_flags_end(t8, e8)
    }

    pub fn text(&self) -> (text: String)
        ensures
            text@ == self.spec_text(),
    {
        let bits: u64 = self.bits as u64;
        let mut text = String::new();
        let first = true;
        let present = names_flag(bits, Self::CLOSE_ON_EXEC as u64);
        let first = push_name(&mut text, first, present, "CLOSE_ON_EXEC");
        let present = names_flag(bits, Self::NON_BLOCKING as u64);
        let first = push_name(&mut text, first, present, "NON_BLOCKING");
        let present = names_flag(bits, Self::UNLIMITED_QUEUE as u64);
        let first = push_name(&mut text, first, present, "UNLIMITED_QUEUE");
        let present = names_flag(bits, Self::UNLIMITED_MARKS as u64);
        let first = push_name(&mut text, first, present, "UNLIMITED_MARKS");
        let present = names_flag(bits, Self::REPORT_TID as u64);
        let first = push_name(&mut text, first, present, "REPORT_TID");
        let present = names_flag(bits, Self::REPORT_FID as u64);
        let first = push_name(&mut text, first, present, "REPORT_FID");
        let present = names_flag(bits, Self::REPORT_DIR_FID as u64);
        let first = push_name(&mut text, first, present, "REPORT_DIR_FID");
        let present = names_flag(bits, Self::REPORT_NAME as u64);
        let first = push_name(&mut text, first, present, "REPORT_NAME");
        push_flags_end(&mut text, first);
        text
    }
}

impl Default for Flags {
    fn default() -> (flags: Self)
        ensures
            flags.bits == 0,
    {
        Self::empty()
    }
}

/// The status flags of the descriptors that come with events.
#[derive(Debug, Copy, Clone, Eq, PartialEq, Hash, Structural)]
pub struct EventFlags {
    pub bits: u32,
}

impl EventFlags {
    /// Allow files whose size needs more than 32 bits.
    pub const LARGE_FILE: u32 = O_LARGEFILE;

    /// Close the descriptors on exec.
    pub const CLOSE_ON_EXEC: u32 = O_CLOEXEC;

    /// Open the files for appending.
    pub const APPEND: u32 = O_APPEND;

    /// Writes complete once the data is on the medium.
    pub const DATA_SYNC: u32 = O_DSYNC;

    /// Writes complete once data and metadata are on the medium.
    pub const SYNC: u32 = O_SYNC;

    /// Reads leave the access time as it is.
    pub const NO_UPDATE_ACCESS_TIME: u32 = O_NOATIME;

    /// Open the descriptors in nonblocking mode.
    pub const NON_BLOCKING: u32 = O_NONBLOCK;

    /// Every bit that belongs to a flag of this set.
    pub const ALL: u32 = 0x1C1C00;

    /// The set holds no bit outside its flags.
    pub open spec fn wf(&self) -> bool {
        self.bits & !Self::ALL == 0
    }

    pub fn empty() -> (flags: Self)
        ensures
            flags.bits == 0,
            flags.wf(),
    {
        proof {
            lemma_known_bits_u32(0, Self::ALL);
        }
        Self { bits: 0 }
    }

    pub fn all() -> (flags: Self)
        ensures
            flags.bits == Self::ALL,
            flags.wf(),
    {
        proof {
            lemma_known_bits_u32(0, Self::ALL);
        }
        Self { bits: Self::ALL }
    }

    pub open spec fn spec_bits(&self) -> u32 {
        self.bits
    }

    #[verifier::when_used_as_spec(spec_bits)]
    pub fn bits(&self) -> (bits: u32)
        ensures
            bits == self.bits,
    {
        self.bits
    }

    /// The set with exactly these bits, if all of them belong to flags.
    pub fn from_bits(bits: u32) -> (flags: Option<Self>)
        ensures
            flags == if bits & !Self::ALL == 0 {
                Some(Self { bits })
            } else {
                None
            },
    {
        if bits & !Self::ALL == 0 {
            Some(Self { bits })
        } else {
            None
        }
    }

    pub open spec fn spec_from_bits_truncate(bits: u32) -> Self {
        Self { bits: bits & Self::ALL }
    }

    /// The set with these bits, without those that belong to no flag.
    #[verifier::when_used_as_spec(spec_from_bits_truncate)]
    pub fn from_bits_truncate(bits: u32) -> (flags: Self)
        ensures
            flags == Self::spec_from_bits_truncate(bits),
            flags.wf(),
            bits & !Self::ALL == 0 ==> flags.bits == bits,
    {
        proof {
            lemma_known_bits_u32(bits, Self::ALL);
        }
        Self { bits: bits & Self::ALL }
    }

    pub fn is_empty(&self) -> (empty: bool)
        ensures
            empty == (self.bits == 0),
    {
        self.bits == 0
    }

    pub open spec fn spec_contains(&self, other: Self) -> bool {
        self.bits & other.bits == other.bits
    }

    /// Whether every flag of `other` is in this set.
    #[verifier::when_used_as_spec(spec_contains)]
    pub fn contains(&self, other: Self) -> (all: bool)
        ensures
            all == self.spec_contains(other),
    {
        self.bits & other.bits == other.bits
    }

    pub open spec fn spec_intersects(&self, other: Self) -> bool {
        self.bits & other.bits != 0
    }

    /// Whether some flag of `other` is in this set.
    #[verifier::when_used_as_spec(spec_intersects)]
    pub fn intersects(&self, other: Self) -> (any: bool)
        ensures
            any == self.spec_intersects(other),
    {
        self.bits & other.bits != 0
    }

    pub open spec fn spec_union(self, other: Self) -> Self {
        Self { bits: self.bits | other.bits }
    }

    /// The flags of either set.
    #[verifier::when_used_as_spec(spec_union)]
    pub fn union(self, other: Self) -> (flags: Self)
        ensures
            flags == self.spec_union(other),
            self.wf() && other.wf() ==> flags.wf(),
    {
        proof {
            lemma_union_known_bits_u32(self.bits, other.bits, Self::ALL);
        }
        Self { bits: self.bits | other.bits }
    }

    pub fn const_default() -> (flags: Self)
        ensures
            flags.bits == 0,
            flags.wf(),
    {
        Self::empty()
    }

    /// The names of the flags in this set, in the order of their declaration.
    pub open spec fn spec_text(&self) -> Seq<char> {
        let bits = self.bits as u64;
        let t0 = Seq::<char>::empty();
        let e0 = true;
        let has1 = spec_names_flag(bits, Self::LARGE_FILE as u64);
        let t1 = spec_with_name(t0, e0, has1, "LARGE_FILE"@);
        let e1 = e0 && !has1;
        let has2 = spec_names_flag(bits, Self::CLOSE_ON_EXEC as u64);
        let t2 = spec_with_name(t1, e1, has2, "CLOSE_ON_EXEC"@);
        let e2 = e1 && !has2;
        let has3 = spec_names_flag(bits, Self::APPEND as u64);
        let t3 = spec_with_name(t2, e2, has3, "APPEND"@);
        let e3 = e2 && !has3;
        let has4 = spec_names_flag(bits, Self::DATA_SYNC as u64);
        let t4 = spec_with_name(t3, e3, has4, "DATA_SYNC"@);
        let e4 = e3 && !has4;
        let has5 = spec_names_flag(bits, Self::SYNC as u64);
        let t5 = spec_with_name(t4, e4, has5, "SYNC"@);
        let e5 = e4 && !has5;
        let has6 = spec_names_flag(bits, Self::NO_UPDATE_ACCESS_TIME as u64);
        let t6 = spec_with_name(t5, e5, has6, "NO_UPDATE_ACCESS_TIME"@);
        let e6 = e5 && !has6;
        let has7 = spec_names_flag(bits, Self::NON_BLOCKING as u64);
        let t7 = spec_with_name(t6, e6, has7, "NON_BLOCKING"@);
        let e7 = e6 && !has7;
        spec_flags_end(t7, e7)
    }

    pub fn text(&self) -> (text: String)
        ensures
            text@ == self.spec_text(),
    {
        let bits: u64 = self.bits as u64;
        let mut text = String::new();
        let first = true;
        let present = names_flag(bits, Self::LARGE_FILE as u64);
        let first = push_name(&mut text, first, present, "LARGE_FILE");
        let present = names_flag(bits, Self::CLOSE_ON_EXEC as u64);
        let first = push_name(&mut text, first, present, "CLOSE_ON_EXEC");
        let present = names_flag(bits, Self::APPEND as u64);
        let first = push_name(&mut text, first, present, "APPEND");
        let present = names_flag(bits, Self::DATA_SYNC as u64);
        let first = push_name(&mut text, first, present, "DATA_SYNC");
        let present = names_flag(bits, Self::SYNC as u64);
        let first = push_name(&mut text, first, present, "SYNC");
        let present = names_flag(bits, Self::NO_UPDATE_ACCESS_TIME as u64);
        let first = push_name(&mut text, first, present, "NO_UPDATE_ACCESS_TIME");
        let present = names_flag(bits, Self::NON_BLOCKING as u64);
        let first = push_name(&mut text, first, present, "NON_BLOCKING");
        push_flags_end(&mut text, first);
        text
    }
}

impl Default for EventFlags {
    fn default() -> (flags: Self)
        ensures
            flags.bits == 0,
    {
        Self::empty()
    }
}

/// The configuration of a group, field by field.
#[derive(Debug, Copy, Clone, Eq, PartialEq, Hash, Structural)]
pub struct Init {
    pub notification_class: NotificationClass,
    pub flags: Flags,
    pub rw: ReadWrite,
    pub event_flags: EventFlags,
}

/// The configuration of a group as the two words that the kernel takes.
/// [`Init::as_raw`] packs a configuration and [`RawInit::undo_raw`] unpacks it.
#[derive(Debug, Copy, Clone, Eq, PartialEq, Hash, Structural)]
pub struct RawInit {
    pub flags: u32,
    pub event_flags: u32,
}

impl Init {
    /// Both flag sets hold only bits of their flags.
    pub open spec fn wf(&self) -> bool {
        self.flags.wf() && self.event_flags.wf()
    }

    pub fn const_default() -> (init: Self)
        ensures
            init == (Init {
                notification_class: NotificationClass::Notify,
                flags: Flags { bits: 0 },
                rw: ReadWrite::Read,
                event_flags: EventFlags { bits: 0 },
            }),
            init.wf(),
    {
        Init {
            notification_class: NotificationClass::const_default(),
            flags: Flags::const_default(),
            rw: ReadWrite::const_default(),
            event_flags: EventFlags::const_default(),
        }
    }

    pub open spec fn spec_flags(&self) -> u32 {
        self.notification_class.spec_bits() | self.flags.bits
    }

    /// The first word: the notification class and the flags.
    #[verifier::when_used_as_spec(spec_flags)]
    pub fn flags(&self) -> (word: u32)
        ensures
            word == self.spec_flags(),
    {
        self.notification_class.bits() | self.flags.bits()
    }

    pub open spec fn spec_event_flags(&self) -> u32 {
        self.rw.spec_bits() | self.event_flags.bits
    }

    /// The second word: the access mode and the event flags.
    #[verifier::when_used_as_spec(spec_event_flags)]
    pub fn event_flags(&self) -> (word: u32)
        ensures
            word == self.spec_event_flags(),
    {
        self.rw.bits() | self.event_flags.bits()
    }

    pub open spec fn spec_as_raw(&self) -> RawInit {
        RawInit { flags: self.spec_flags(), event_flags: self.spec_event_flags() }
    }

    /// Packs the configuration into its two words.
    #[verifier::when_used_as_spec(spec_as_raw)]
    pub fn as_raw(&self) -> (raw: RawInit)
        ensures
            raw == self.spec_as_raw(),
    {
        RawInit { flags: self.flags(), event_flags: self.event_flags() }
    }

    /// The configuration written out field by field.
    pub open spec fn spec_to_string(&self) -> Seq<char> {
        "Init { notification_class: "@ + self.notification_class.spec_name() + ", flags: "@
            + self.flags.spec_text() + ", rw: "@ + self.rw.spec_name() + ", event_flags: "@
            + self.event_flags.spec_text() + " }"@
    }

    pub fn to_string(&self) -> (text: String)
        ensures
            text@ == self.spec_to_string(),
    {
        let mut text = String::from_str("Init { notification_class: ");
        text.append(self.notification_class.name());
        text.append(", flags: ");
        let flags = self.flags.text();
        text.append(flags.as_str());
        text.append(", rw: ");
        text.append(self.rw.name());
        text.append(", event_flags: ");
        let event_flags = self.event_flags.text();
        text.append(event_flags.as_str());
        text.append(" }");
        text
    }
}

impl Default for Init {
    fn default() -> (init: Self)
        ensures
            init == (Init {
                notification_class: NotificationClass::Notify,
                flags: Flags { bits: 0 },
                rw: ReadWrite::Read,
                event_flags: EventFlags { bits: 0 },
            }),
    {
        Init::const_default()
    }
}

impl RawInit {
    /// The two words hold only bits that stand for something: bits of
    /// flags, and a notification class and an access mode that there are.
    pub open spec fn wf(&self) -> bool {
        &&& self.flags & !0x0F3Fu32 == 0
        &&& self.flags & 0b1100u32 != 0b1100u32
        &&& self.event_flags & !0x1C1C03u32 == 0
        &&& self.event_flags & 0b11u32 != 0b11u32
    }

    pub open spec fn spec_notification_class(&self) -> NotificationClass {
        let index = (self.flags & 0b1111) >> 2;
        if index == 1 {
            NotificationClass::Content
        } else if index == 2 {
            NotificationClass::PreContent
        } else {
            NotificationClass::Notify
        }
    }

    /// The notification class that bits 2 and 3 of the first word stand for;
    /// both bits set stand for no class and give the default.
    #[verifier::when_used_as_spec(spec_notification_class)]
    pub fn notification_class(&self) -> (class: NotificationClass)
        ensures
            class == self.spec_notification_class(),
    {
        let index: u32 = (self.flags & 0b1111) >> 2;
        if index == 1 {
            NotificationClass::Content
        } else if index == 2 {
            NotificationClass::PreContent
        } else {
            NotificationClass::Notify
        }
    }

    pub open spec fn spec_flags(&self) -> Flags {
        Flags::spec_from_bits_truncate(self.flags & !0b1100u32)
    }

    /// The flags of the first word, without the notification class.
    #[verifier::when_used_as_spec(spec_flags)]
    pub fn flags(&self) -> (flags: Flags)
        ensures
            flags == self.spec_flags(),
            flags.wf(),
    {
        Flags::from_bits_truncate(self.flags & !0b1100u32)
    }

    pub open spec fn spec_rw(&self) -> ReadWrite {
        let index = self.event_flags & 0b11;
        if index == 1 {
            ReadWrite::Write
        } else if index == 2 {
            ReadWrite::ReadAndWrite
        } else {
            ReadWrite::Read
        }
    }

    /// The access mode that the lowest two bits of the second word stand for;
    /// both bits set stand for no mode and give the default.
    #[verifier::when_used_as_spec(spec_rw)]
    pub fn rw(&self) -> (rw: ReadWrite)
        ensures
            rw == self.spec_rw(),
    {
        let index: u32 = self.event_flags & 0b11;
        if index == 1 {
            ReadWrite::Write
        } else if index == 2 {
            ReadWrite::ReadAndWrite
        } else {
            ReadWrite::Read
        }
    }

    pub open spec fn spec_event_flags(&self) -> EventFlags {
        EventFlags::spec_from_bits_truncate(self.event_flags & !0b11u32)
    }

    /// The event flags of the second word, without the access mode.
    #[verifier::when_used_as_spec(spec_event_flags)]
    pub fn event_flags(&self) -> (flags: EventFlags)
        ensures
            flags == self.spec_event_flags(),
            flags.wf(),
    {
        EventFlags::from_bits_truncate(self.event_flags & !0b11u32)
    }

    pub open spec fn spec_undo_raw(&self) -> Init {
        Init {
            notification_class: self.spec_notification_class(),
            flags: self.spec_flags(),
            rw: self.spec_rw(),
            event_flags: self.spec_event_flags(),
        }
    }

    /// Unpacks the two words into a configuration. Bits that stand for
    /// nothing are dropped.
    #[verifier::when_used_as_spec(spec_undo_raw)]
    pub fn undo_raw(&self) -> (init: Init)
        ensures
            init == self.spec_undo_raw(),
            init.wf(),
    {
        Init {
            notification_class: self.notification_class(),
            flags: self.flags(),
            rw: self.rw(),
            event_flags: self.event_flags(),
        }
    }

    /// The configuration that the two words stand for, written out field by field.
    pub fn to_string(&self) -> (text: String)
        ensures
            text@ == self.spec_undo_raw().spec_to_string(),
    {
        self.undo_raw().to_string()
    }
}

/// Packing a configuration and unpacking the two words gives the
/// configuration back, whenever its flag sets hold only bits of their flags.
pub proof fn lemma_raw_round_trip(init: Init)
    requires
        init.wf(),
    ensures
        init.spec_as_raw().spec_undo_raw() == init,
{
    let class = init.notification_class.spec_bits();
    let flags = init.flags.bits;
    assert(((class | flags) & !0b1100u32) & 0x0F33u32 == flags && ((class | flags) & 0b1111u32)
        >> 2u32 == class >> 2u32) by (bit_vector)
        requires
            class == 0 || class == 4 || class == 8,
            flags & !0x0F33u32 == 0,
    ;
    assert(0u32 >> 2u32 == 0 && 4u32 >> 2u32 == 1 && 8u32 >> 2u32 == 2) by (bit_vector);
    let rw = init.rw.spec_bits();
    let event_flags = init.event_flags.bits;
    assert(((rw | event_flags) & !0b11u32) & 0x1C1C00u32 == event_flags && (rw | event_flags)
        & 0b11u32 == rw) by (bit_vector)
        requires
            rw == 0 || rw == 1 || rw == 2,
            event_flags & !0x1C1C00u32 == 0,
    ;
}

/// Unpacking two words and packing the configuration gives the two words
/// back, whenever they hold only bits that stand for something.
pub proof fn lemma_init_round_trip(raw: RawInit)
    requires
        raw.wf(),
    ensures
        raw.spec_undo_raw().spec_as_raw() == raw,
        raw.spec_undo_raw().wf(),
{
    let flags = raw.flags;
    assert({
        let index = (flags & 0b1111u32) >> 2u32;
        let class = if index == 1 {
            4u32
        } else if index == 2 {
            8u32
        } else {
            0u32
        };
        &&& class | ((flags & !0b1100u32) & 0x0F33u32) == flags
        &&& ((flags & !0b1100u32) & 0x0F33u32) & !0x0F33u32 == 0
    }) by (bit_vector)
        requires
            flags & !0x0F3Fu32 == 0,
            flags & 0b1100u32 != 0b1100u32,
    ;
    let event_flags = raw.event_flags;
    assert({
        let index = event_flags & 0b11u32;
        let rw = if index == 1 {
            1u32
        } else if index == 2 {
            2u32
        } else {
            0u32
        };
        &&& rw | ((event_flags & !0b11u32) & 0x1C1C00u32) == event_flags
        &&& ((event_flags & !0b11u32) & 0x1C1C00u32) & !0x1C1C00u32 == 0
    }) by (bit_vector)
        requires
            event_flags & !0x1C1C03u32 == 0,
            event_flags & 0b11u32 != 0b11u32,
    ;
}

/// Why a group could not be opened.
#[derive(Debug, Copy, Clone, Eq, PartialEq, Hash, Structural)]
pub enum Error {
    /// The configuration asks for what the kernel never grants.
    InvalidArgument,
    /// The process already holds as many groups as it may.
    ExceededFanotifyGroupPerProcessLimit,
    /// The process already holds as many open descriptors as it may.
    ExceededOpenFileDescriptorPerProcessLimit,
    /// The kernel is out of memory.
    OutOfMemory,
    /// The caller lacks the capability that the configuration needs.
    PermissionDenied,
    /// The kernel does not offer the interface at all.
    FanotifyUnsupported,
    /// The kernel offers the interface, but not a feature that was asked for.
    FeatureUnsupported,
    /// The kernel handed back a number that is no descriptor.
    InvalidFd { fd: FD },
}

impl Error {
    /// Whether the open call is documented to fail with this error number.
    pub open spec fn spec_is_documented(errno: i32) -> bool {
        errno == EMFILE || errno == ENFILE || errno == ENOMEM || errno == EPERM || errno == ENOSYS
            || errno == EINVAL
    }

    #[verifier::when_used_as_spec(spec_is_documented)]
    pub fn is_documented(errno: i32) -> (documented: bool)
        ensures
            documented == Self::spec_is_documented(errno),
    {
        errno == EMFILE || errno == ENFILE || errno == ENOMEM || errno == EPERM || errno == ENOSYS
            || errno == EINVAL
    }

    /// What an error number of the open call means. An invalid-argument
    /// error here stands for a feature that the kernel lacks, since
    /// [`Init::check`] has ruled out the arguments that are invalid in themselves.
    pub open spec fn spec_from_errno(errno: i32) -> Error {
        if errno == EMFILE {
            Error::ExceededFanotifyGroupPerProcessLimit
        } else if errno == ENFILE {
            Error::ExceededOpenFileDescriptorPerProcessLimit
        } else if errno == ENOMEM {
            Error::OutOfMemory
        } else if errno == EPERM {
            Error::PermissionDenied
        } else if errno == ENOSYS {
            Error::FanotifyUnsupported
        } else {
            Error::FeatureUnsupported
        }
    }

    pub fn from_errno(errno: i32) -> (error: Error)
        requires
            Self::spec_is_documented(errno),
        ensures
            error == Self::spec_from_errno(errno),
    {
        if errno == EMFILE {
            Error::ExceededFanotifyGroupPerProcessLimit
        } else if errno == ENFILE {
            Error::ExceededOpenFileDescriptorPerProcessLimit
        } else if errno == ENOMEM {
            Error::OutOfMemory
        } else if errno == EPERM {
            Error::PermissionDenied
        } else if errno == ENOSYS {
            Error::FanotifyUnsupported
        } else {
            Error::FeatureUnsupported
        }
    }
}

impl Init {
    /// Whether the configuration asks for file handles in a class that has none.
    pub open spec fn spec_is_invalid(&self) -> bool {
        self.flags.bits & FAN_REPORT_FID == FAN_REPORT_FID && self.notification_class
            != NotificationClass::Notify
    }

    /// Rejects the configurations that the kernel never grants: file handles
    /// are reported only to groups of the plain notification class.
    pub fn check(&self) -> (checked: Result<RawInit, Error>)
        ensures
            checked == if self.spec_is_invalid() {
                Err::<RawInit, Error>(Error::InvalidArgument)
            } else {
                Ok::<RawInit, Error>(self.spec_as_raw())
            },
    {
        let report_fid = self.flags.contains(Flags { bits: Flags::REPORT_FID });
        let notify = match self.notification_class {
            NotificationClass::Notify => true,
            _ => false,
        };
        if report_fid && !notify {
            Err(Error::InvalidArgument)
        } else {
            Ok(self.as_raw())
        }
    }
}

} // verus!

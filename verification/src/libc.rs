//! The kernel's constants and record layouts, and the conversion between
//! records and the bytes they travel as.
//!
//! Multi-byte fields are little-endian, the byte order of every target this
//! crate supports.

use vstd::prelude::*;

verus! {

/// Set the close-on-exec flag on the new file descriptor.
pub const FAN_CLOEXEC: u32 = 0x0000_0001;
/// Enable the nonblocking flag on the new file descriptor.
pub const FAN_NONBLOCK: u32 = 0x0000_0002;
/// Remove the limit on the number of queued events.
pub const FAN_UNLIMITED_QUEUE: u32 = 0x0000_0010;
/// Remove the limit on the number of marks.
pub const FAN_UNLIMITED_MARKS: u32 = 0x0000_0020;
/// Report thread ids in place of process ids.
pub const FAN_REPORT_TID: u32 = 0x0000_0100;
/// Report file handles in place of open descriptors.
pub const FAN_REPORT_FID: u32 = 0x0000_0200;
/// Report the directory of the object an event is about.
pub const FAN_REPORT_DIR_FID: u32 = 0x0000_0400;
/// Report the name of the directory entry an event is about.
pub const FAN_REPORT_NAME: u32 = 0x0000_0800;

/// Plain notification: no permission events.
pub const FAN_CLASS_NOTIF: u32 = 0x0000_0000;
/// Permission events for files that already hold their final content.
pub const FAN_CLASS_CONTENT: u32 = 0x0000_0004;
/// Permission events for files before they hold their final content.
pub const FAN_CLASS_PRE_CONTENT: u32 = 0x0000_0008;

/// Open events' descriptors read-only.
pub const O_RDONLY: u32 = 0;
/// Open events' descriptors write-only.
pub const O_WRONLY: u32 = 1;
/// Open events' descriptors for reading and writing.
pub const O_RDWR: u32 = 2;
pub const O_LARGEFILE: u32 = 0;
pub const O_CLOEXEC: u32 = 0x8_0000;
pub const O_APPEND: u32 = 0x400;
pub const O_DSYNC: u32 = 0x1000;
pub const O_SYNC: u32 = 0x10_1000;
pub const O_NOATIME: u32 = 0x4_0000;
pub const O_NONBLOCK: u32 = 0x800;

/// The pseudo descriptor that stands for the current working directory.
pub const AT_FDCWD: i32 = -100;

/// Add the events in the mask to the mark.
pub const FAN_MARK_ADD: u32 = 0x0000_0001;
/// Remove the events in the mask from the mark.
pub const FAN_MARK_REMOVE: u32 = 0x0000_0002;
/// Remove all marks of one kind from the group.
pub const FAN_MARK_FLUSH: u32 = 0x0000_0080;

/// Mark one file or directory.
pub const FAN_MARK_INODE: u32 = 0x0000_0000;
/// Mark the mount point that holds the path.
pub const FAN_MARK_MOUNT: u32 = 0x0000_0010;
/// Mark the filesystem that holds the path.
pub const FAN_MARK_FILESYSTEM: u32 = 0x0000_0100;

/// Mark a symbolic link itself, not what it points to.
pub const FAN_MARK_DONT_FOLLOW: u32 = 0x0000_0004;
/// Fail unless the marked object is a directory.
pub const FAN_MARK_ONLYDIR: u32 = 0x0000_0008;
/// Apply the mask to the ignore mask.
pub const FAN_MARK_IGNORED_MASK: u32 = 0x0000_0020;
/// Let the ignore mask survive modify events.
pub const FAN_MARK_IGNORED_SURV_MODIFY: u32 = 0x0000_0040;

pub const FAN_ACCESS: u64 = 0x0000_0001;
pub const FAN_MODIFY: u64 = 0x0000_0002;
pub const FAN_ATTRIB: u64 = 0x0000_0004;
pub const FAN_CLOSE_WRITE: u64 = 0x0000_0008;
pub const FAN_CLOSE_NOWRITE: u64 = 0x0000_0010;
pub const FAN_OPEN: u64 = 0x0000_0020;
pub const FAN_MOVED_FROM: u64 = 0x0000_0040;
pub const FAN_MOVED_TO: u64 = 0x0000_0080;
pub const FAN_CREATE: u64 = 0x0000_0100;
pub const FAN_DELETE: u64 = 0x0000_0200;
pub const FAN_DELETE_SELF: u64 = 0x0000_0400;
pub const FAN_MOVE_SELF: u64 = 0x0000_0800;
pub const FAN_OPEN_EXEC: u64 = 0x0000_1000;
/// The event queue overflowed and events were dropped.
pub const FAN_Q_OVERFLOW: u64 = 0x0000_4000;
pub const FAN_OPEN_PERM: u64 = 0x0001_0000;
pub const FAN_ACCESS_PERM: u64 = 0x0002_0000;
pub const FAN_OPEN_EXEC_PERM: u64 = 0x0004_0000;
pub const FAN_EVENT_ON_CHILD: u64 = 0x0800_0000;
pub const FAN_ONDIR: u64 = 0x4000_0000;

/// The one record version this crate understands.
pub const FANOTIFY_METADATA_VERSION: u8 = 3;
/// The descriptor field of a record that carries no descriptor.
pub const FAN_NOFD: i32 = -1;

pub const FAN_EVENT_INFO_TYPE_FID: u8 = 1;
pub const FAN_EVENT_INFO_TYPE_DFID_NAME: u8 = 2;
pub const FAN_EVENT_INFO_TYPE_DFID: u8 = 3;

pub const FAN_ALLOW: u32 = 0x01;
pub const FAN_DENY: u32 = 0x02;
pub const FAN_AUDIT: u32 = 0x10;

/// Number of bytes of the length field that starts every record.
pub const EVENT_LEN_SIZE: usize = 4;
/// Number of bytes of a [`fanotify_event_metadata`].
pub const METADATA_SIZE: usize = 24;
/// Number of bytes of a [`fanotify_event_info_header`].
pub const INFO_HEADER_SIZE: usize = 4;
/// Number of bytes of a filesystem id.
pub const FSID_SIZE: usize = 8;
/// Number of bytes of a [`fanotify_response`].
pub const RESPONSE_SIZE: usize = 8;

pub const EPERM: i32 = 1;
pub const ENOENT: i32 = 2;
pub const EBADF: i32 = 9;
pub const EAGAIN: i32 = 11;
pub const ENOMEM: i32 = 12;
pub const ENODEV: i32 = 19;
pub const ENOTDIR: i32 = 20;
pub const EINVAL: i32 = 22;
pub const ENFILE: i32 = 23;
pub const EMFILE: i32 = 24;
pub const ENOSPC: i32 = 28;
pub const ENOSYS: i32 = 38;
pub const EOPNOTSUPP: i32 = 95;

/// The unsigned 16-bit number whose little-endian bytes start at `at`.
pub open spec fn spec_u16_at(s: Seq<u8>, at: int) -> int {
    s[at] as int + 0x100 * (s[at + 1] as int)
}

/// The unsigned 32-bit number whose little-endian bytes start at `at`.
pub open spec fn spec_u32_at(s: Seq<u8>, at: int) -> int {
    s[at] as int + 0x100 * (s[at + 1] as int) + 0x1_0000 * (s[at + 2] as int) + 0x100_0000 * (s[at
        + 3] as int)
}

/// The signed 32-bit number whose two's-complement little-endian bytes start at `at`.
pub open spec fn spec_i32_at(s: Seq<u8>, at: int) -> int {
    let unsigned = spec_u32_at(s, at);
    if unsigned >= 0x8000_0000 {
        unsigned - 0x1_0000_0000
    } else {
        unsigned
    }
}

/// The unsigned 64-bit number whose little-endian bytes start at `at`.
pub open spec fn spec_u64_at(s: Seq<u8>, at: int) -> int {
    spec_u32_at(s, at) + 0x1_0000_0000 * spec_u32_at(s, at + 4)
}

/// The four little-endian bytes of an unsigned 32-bit number.
pub open spec fn spec_u32_bytes(x: int) -> Seq<u8> {
    seq![
        (x % 0x100) as u8,
        (x / 0x100 % 0x100) as u8,
        (x / 0x1_0000 % 0x100) as u8,
        (x / 0x100_0000 % 0x100) as u8,
    ]
}

/// The four two's-complement little-endian bytes of a signed 32-bit number.
pub open spec fn spec_i32_bytes(x: int) -> Seq<u8> {
    spec_u32_bytes(
        if x < 0 {
            x + 0x1_0000_0000
        } else {
            x
        },
    )
}

pub fn read_u16(bytes: &[u8], at: usize) -> (value: u16)
    requires
        at + 2 <= bytes@.len(),
    ensures
        value as int == spec_u16_at(bytes@, at as int),
{
    let b0: u16 = bytes[at] as u16;
    let b1: u16 = bytes[at + 1] as u16;
    b0 + 0x100 * b1
}

pub fn read_u32(bytes: &[u8], at: usize) -> (value: u32)
    requires
        at + 4 <= bytes@.len(),
    ensures
        value as int == spec_u32_at(bytes@, at as int),
{
    let b0: u32 = bytes[at] as u32;
    let b1: u32 = bytes[at + 1] as u32;
    let b2: u32 = bytes[at + 2] as u32;
    let b3: u32 = bytes[at + 3] as u32;
    b0 + 0x100 * b1 + 0x1_0000 * b2 + 0x100_0000 * b3
}

pub fn read_i32(bytes: &[u8], at: usize) -> (value: i32)
    requires
        at + 4 <= bytes@.len(),
    ensures
        value as int == spec_i32_at(bytes@, at as int),
{
    let unsigned: u32 = read_u32(bytes, at);
    if unsigned >= 0x8000_0000 {
        let low: u32 = unsigned - 0x8000_0000;
        (low as i32) - 0x4000_0000 - 0x4000_0000
    } else {
        unsigned as i32
    }
}

pub fn read_u64(bytes: &[u8], at: usize) -> (value: u64)
    requires
        at + 8 <= bytes@.len(),
    ensures
        value as int == spec_u64_at(bytes@, at as int),
{
    assert(bytes@.len() == bytes.len());
    let low: u64 = read_u32(bytes, at) as u64;
    let high: u64 = read_u32(bytes, at + 4) as u64;
    low + 0x1_0000_0000 * high
}

/// Appends the four little-endian bytes of `value` to `out`.
pub fn push_u32(out: &mut Vec<u8>, value: u32)
    ensures
        final(out)@ == old(out)@ + spec_u32_bytes(value as int),
{
    out.push((value % 0x100) as u8);
    out.push((value / 0x100 % 0x100) as u8);
    out.push((value / 0x1_0000 % 0x100) as u8);
    out.push((value / 0x100_0000 % 0x100) as u8);
    assert(out@ =~= old(out)@ + spec_u32_bytes(value as int));
}

/// Appends the four two's-complement little-endian bytes of `value` to `out`.
pub fn push_i32(out: &mut Vec<u8>, value: i32)
    ensures
        final(out)@ == old(out)@ + spec_i32_bytes(value as int),
{
    let unsigned: u32 = if value < 0 {
        let shifted: u32 = (value + 0x4000_0000 + 0x4000_0000) as u32;
        shifted + 0x8000_0000
    } else {
        value as u32
    };
    push_u32(out, unsigned);
}

/// Reading back the bytes of a 32-bit number gives the number.
pub proof fn lemma_u32_bytes_round_trip(prefix: Seq<u8>, x: int, suffix: Seq<u8>)
    requires
        0 <= x < 0x1_0000_0000,
    ensures
        spec_u32_at(prefix + spec_u32_bytes(x) + suffix, prefix.len() as int) == x,
{
    let s = prefix + spec_u32_bytes(x) + suffix;
    let at = prefix.len() as int;
    assert(s[at] == spec_u32_bytes(x)[0]);
    assert(s[at + 1] == spec_u32_bytes(x)[1]);
    assert(s[at + 2] == spec_u32_bytes(x)[2]);
    assert(s[at + 3] == spec_u32_bytes(x)[3]);
}

/// Reading back the bytes of a signed 32-bit number gives the number.
pub proof fn lemma_i32_bytes_round_trip(prefix: Seq<u8>, x: int, suffix: Seq<u8>)
    requires
        -0x8000_0000 <= x < 0x8000_0000,
    ensures
        spec_i32_at(prefix + spec_i32_bytes(x) + suffix, prefix.len() as int) == x,
{
    let unsigned = if x < 0 {
        x + 0x1_0000_0000
    } else {
        x
    };
    lemma_u32_bytes_round_trip(prefix, unsigned, suffix);
}

/// The record that starts every event.
#[allow(non_camel_case_types)]
#[derive(Debug, Copy, Clone, Eq, PartialEq, Hash, Structural)]
pub struct fanotify_event_metadata {
    pub event_len: u32,
    pub vers: u8,
    pub reserved: u8,
    pub metadata_len: u16,
    pub mask: u64,
    pub fd: i32,
    pub pid: i32,
}

impl fanotify_event_metadata {
    /// The record whose bytes start at `at`.
    pub open spec fn spec_parse(s: Seq<u8>, at: int) -> Self {
        fanotify_event_metadata {
            event_len: spec_u32_at(s, at) as u32,
            vers: s[at + 4],
            reserved: s[at + 5],
            metadata_len: spec_u16_at(s, at + 6) as u16,
            mask: spec_u64_at(s, at + 8) as u64,
            fd: spec_i32_at(s, at + 16) as i32,
            pid: spec_i32_at(s, at + 20) as i32,
        }
    }

    pub fn parse(bytes: &[u8], at: usize) -> (record: Self)
        requires
            at + METADATA_SIZE <= bytes@.len(),
        ensures
            record == Self::spec_parse(bytes@, at as int),
    {
        assert(bytes@.len() == bytes.len());
        fanotify_event_metadata {
            event_len: read_u32(bytes, at),
            vers: bytes[at + 4],
            reserved: bytes[at + 5],
            metadata_len: read_u16(bytes, at + 6),
            mask: read_u64(bytes, at + 8),
            fd: read_i32(bytes, at + 16),
            pid: read_i32(bytes, at + 20),
        }
    }
}

/// The header of a record of additional information.
#[allow(non_camel_case_types)]
#[derive(Debug, Copy, Clone, Eq, PartialEq, Hash, Structural)]
pub struct fanotify_event_info_header {
    pub info_type: u8,
    pub pad: u8,
    pub len: u16,
}

impl fanotify_event_info_header {
    /// The header whose bytes start at `at`.
    pub open spec fn spec_parse(s: Seq<u8>, at: int) -> Self {
        fanotify_event_info_header {
            info_type: s[at],
            pad: s[at + 1],
            len: spec_u16_at(s, at + 2) as u16,
        }
    }

    pub fn parse(bytes: &[u8], at: usize) -> (header: Self)
        requires
            at + INFO_HEADER_SIZE <= bytes@.len(),
        ensures
            header == Self::spec_parse(bytes@, at as int),
    {
        assert(bytes@.len() == bytes.len());
        fanotify_event_info_header {
            info_type: bytes[at],
            pad: bytes[at + 1],
            len: read_u16(bytes, at + 2),
        }
    }
}

/// The kernel's identifier of a filesystem: two words.
#[allow(non_camel_case_types)]
#[derive(Debug, Copy, Clone, Eq, PartialEq, Hash, Structural)]
pub struct fsid_t {
    pub val0: i32,
    pub val1: i32,
}

/// The opaque bytes by which the kernel refers to a file.
#[allow(non_camel_case_types)]
#[derive(Debug, Copy, Clone, Eq, PartialEq, Hash)]
pub struct fanotify_event_file_handle<'a> {
    pub opaque: &'a [u8],
}

/// The fixed part of a record that identifies a file by its handle; the
/// handle's bytes follow it.
#[allow(non_camel_case_types)]
#[derive(Debug, Copy, Clone, Eq, PartialEq, Hash, Structural)]
pub struct fanotify_event_info_fid {
    pub hdr: fanotify_event_info_header,
    pub fsid: fsid_t,
}

impl fanotify_event_info_fid {
    /// The record whose bytes start at `at`.
    pub open spec fn spec_parse(s: Seq<u8>, at: int) -> Self {
        fanotify_event_info_fid {
            hdr: fanotify_event_info_header::spec_parse(s, at),
            fsid: fsid_t {
                val0: spec_i32_at(s, at + 4) as i32,
                val1: spec_i32_at(s, at + 8) as i32,
            },
        }
    }

    pub fn parse(bytes: &[u8], at: usize) -> (record: Self)
        requires
            at + INFO_HEADER_SIZE + FSID_SIZE <= bytes@.len(),
        ensures
            record == Self::spec_parse(bytes@, at as int),
    {
        assert(bytes@.len() == bytes.len());
        fanotify_event_info_fid {
            hdr: fanotify_event_info_header::parse(bytes, at),
            fsid: fsid_t { val0: read_i32(bytes, at + 4), val1: read_i32(bytes, at + 8) },
        }
    }
}

/// The answer to a permission event, as the kernel takes it.
#[allow(non_camel_case_types)]
#[derive(Debug, Copy, Clone, Eq, PartialEq, Hash, Structural)]
pub struct fanotify_response {
    pub fd: i32,
    pub response: u32,
}

impl fanotify_response {
    /// The eight bytes of the record.
    pub open spec fn spec_bytes(&self) -> Seq<u8> {
        spec_i32_bytes(self.fd as int) + spec_u32_bytes(self.response as int)
    }

    /// The record whose bytes start at `at`.
    pub open spec fn spec_parse(s: Seq<u8>, at: int) -> Self {
        fanotify_response {
            fd: spec_i32_at(s, at) as i32,
            response: spec_u32_at(s, at + 4) as u32,
        }
    }

    /// Appends the record's bytes to `out`.
    pub fn write_to(&self, out: &mut Vec<u8>)
        ensures
            final(out)@ == old(out)@ + self.spec_bytes(),
    {
        push_i32(out, self.fd);
        push_u32(out, self.response);
        assert(out@ =~= old(out)@ + self.spec_bytes());
    }

    /// The record's bytes.
    pub fn as_bytes(&self) -> (bytes: Vec<u8>)
        ensures
            bytes@ == self.spec_bytes(),
    {
        let mut bytes: Vec<u8> = Vec::new();
        self.write_to(&mut bytes);
        assert(bytes@ =~= self.spec_bytes());
        bytes
    }

    pub fn parse(bytes: &[u8], at: usize) -> (record: Self)
        requires
            at + RESPONSE_SIZE <= bytes@.len(),
        ensures
            record == Self::spec_parse(bytes@, at as int),
    {
        assert(bytes@.len() == bytes.len());
        fanotify_response { fd: read_i32(bytes, at), response: read_u32(bytes, at + 4) }
    }
}

/// A response's bytes are eight, and reading them back gives the response,
/// whatever stands before and after them.
pub proof fn lemma_response_round_trip(prefix: Seq<u8>, response: fanotify_response, suffix: Seq<u8>)
    ensures
        response.spec_bytes().len() == RESPONSE_SIZE,
        fanotify_response::spec_parse(
            prefix + response.spec_bytes() + suffix,
            prefix.len() as int,
        ) == response,
{
    let fd_bytes = spec_i32_bytes(response.fd as int);
    let answer_bytes = spec_u32_bytes(response.response as int);
    let whole = prefix + response.spec_bytes() + suffix;
    assert(whole =~= prefix + fd_bytes + (answer_bytes + suffix));
    lemma_i32_bytes_round_trip(prefix, response.fd as int, answer_bytes + suffix);
    assert(whole =~= (prefix + fd_bytes) + answer_bytes + suffix);
    lemma_u32_bytes_round_trip(prefix + fd_bytes, response.response as int, suffix);
}

} // verus!

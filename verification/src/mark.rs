//! Marks: which events a group watches for, and on what.

use vstd::prelude::*;
use vstd::string::StrSliceExecFns;
use vstd::string::StringExecFns;
use crate::flag_text::lemma_known_bits_u32;
use crate::flag_text::lemma_known_bits_u64;
use crate::flag_text::lemma_union_known_bits_u32;
use crate::flag_text::lemma_union_known_bits_u64;
use crate::flag_text::names_flag;
use crate::flag_text::push_flags_end;
use crate::flag_text::push_name;
use crate::flag_text::spec_flags_end;
use crate::flag_text::spec_names_flag;
use crate::flag_text::spec_with_name;
use crate::libc::AT_FDCWD;
use crate::libc::EBADF;
use crate::libc::EINVAL;
use crate::libc::ENODEV;
use crate::libc::ENOENT;
use crate::libc::ENOMEM;
use crate::libc::ENOSPC;
use crate::libc::ENOTDIR;
use crate::libc::EOPNOTSUPP;
use crate::libc::FAN_ACCESS;
use crate::libc::FAN_ACCESS_PERM;
use crate::libc::FAN_ATTRIB;
use crate::libc::FAN_CLOSE_NOWRITE;
use crate::libc::FAN_CLOSE_WRITE;
use crate::libc::FAN_CREATE;
use crate::libc::FAN_DELETE;
use crate::libc::FAN_DELETE_SELF;
use crate::libc::FAN_EVENT_ON_CHILD;
use crate::libc::FAN_MARK_ADD;
use crate::libc::FAN_MARK_DONT_FOLLOW;
use crate::libc::FAN_MARK_FILESYSTEM;
use crate::libc::FAN_MARK_FLUSH;
use crate::libc::FAN_MARK_IGNORED_MASK;
use crate::libc::FAN_MARK_IGNORED_SURV_MODIFY;
use crate::libc::FAN_MARK_INODE;
use crate::libc::FAN_MARK_MOUNT;
use crate::libc::FAN_MARK_ONLYDIR;
use crate::libc::FAN_MARK_REMOVE;
use crate::libc::FAN_MODIFY;
use crate::libc::FAN_MOVED_FROM;
use crate::libc::FAN_MOVED_TO;
use crate::libc::FAN_MOVE_SELF;
use crate::libc::FAN_ONDIR;
use crate::libc::FAN_OPEN;
use crate::libc::FAN_OPEN_EXEC;
use crate::libc::FAN_OPEN_EXEC_PERM;
use crate::libc::FAN_OPEN_PERM;

verus! {

/// The combined masks hold only bits of the single flags.
pub proof fn lemma_combined_masks()
    ensures
        Mask::CLOSE & !Mask::ALL == 0,
        Mask::MOVED & !Mask::ALL == 0,
        Mask::ALL_PERMISSIONS & !Mask::ALL == 0,
        Mask::PATH_CHANGED & !Mask::ALL == 0,
        Mask::USED & !Mask::ALL == 0,
{
    assert(0x18u64 & !0x48071FFFu64 == 0 && 0xC0u64 & !0x48071FFFu64 == 0 && 0x7_0000u64
        & !0x48071FFFu64 == 0 && 0x103Bu64 & !0x48071FFFu64 == 0 && 0xFC0u64 & !0x48071FFFu64
        == 0) by (bit_vector);
}

/// The kinds of events that a mark asks for, or that an event is of.
#[derive(Debug, Copy, Clone, Eq, PartialEq, Hash, Structural)]
pub struct Mask {
    pub bits: u64,
}

impl Mask {
    /// A file or directory was read.
    pub const ACCESS: u64 = FAN_ACCESS;

    /// A file or directory was opened.
    pub const OPEN: u64 = FAN_OPEN;

    /// A file was opened to be executed.
    pub const OPEN_EXEC: u64 = FAN_OPEN_EXEC;

    /// A file that was opened read-only was closed.
    pub const CLOSE_NO_WRITE: u64 = FAN_CLOSE_NOWRITE;

    /// A file that was opened for writing was closed.
    pub const CLOSE_WRITE: u64 = FAN_CLOSE_WRITE;

    /// A file was written.
    pub const MODIFY: u64 = FAN_MODIFY;

    /// The metadata of a file or directory changed.
    pub const ATTRIBUTE_CHANGED: u64 = FAN_ATTRIB;

    /// A file or directory was created in a marked directory.
    pub const CREATE: u64 = FAN_CREATE;

    /// A file or directory was deleted in a marked directory.
    pub const DELETE: u64 = FAN_DELETE;

    /// A marked file or directory was deleted.
    pub const DELETE_SELF: u64 = FAN_DELETE_SELF;

    /// A file or directory was moved out of a marked directory.
    pub const MOVED_FROM: u64 = FAN_MOVED_FROM;

    /// A file or directory was moved into a marked directory.
    pub const MOVED_TO: u64 = FAN_MOVED_TO;

    /// A marked file or directory was moved.
    pub const MOVE_SELF: u64 = FAN_MOVE_SELF;

    /// Permission to read a file or directory is asked for.
    pub const ACCESS_PERMISSION: u64 = FAN_ACCESS_PERM;

    /// Permission to open a file or directory is asked for.
    pub const OPEN_PERMISSION: u64 = FAN_OPEN_PERM;

    /// Permission to open a file to execute it is asked for.
    pub const OPEN_EXEC_PERMISSION: u64 = FAN_OPEN_EXEC_PERM;

    /// The event is about a directory.
    pub const ON_DIR: u64 = FAN_ONDIR;

    /// Events on the children of marked directories are asked for.
    pub const EVENT_ON_CHILD: u64 = FAN_EVENT_ON_CHILD;

    /// `CLOSE_NO_WRITE` and `CLOSE_WRITE` together.
    pub const CLOSE: u64 = 0x18;

    /// `MOVED_FROM` and `MOVED_TO` together.
    pub const MOVED: u64 = 0xC0;

    /// `ACCESS_PERMISSION`, `OPEN_PERMISSION` and `OPEN_EXEC_PERMISSION` together.
    pub const ALL_PERMISSIONS: u64 = 0x7_0000;

    /// `ACCESS`, `OPEN`, `OPEN_EXEC`, `CLOSE_NO_WRITE`, `CLOSE_WRITE` and `MODIFY` together.
    pub const PATH_CHANGED: u64 = 0x103B;

    /// `CREATE`, `DELETE`, `DELETE_SELF`, `MOVED_FROM`, `MOVED_TO` and `MOVE_SELF` together.
    pub const USED: u64 = 0xFC0;

    /// Every bit that belongs to a flag of this set.
    pub const ALL: u64 = 0x48071FFF;

    /// The set holds no bit outside its flags.
    pub open spec fn wf(&self) -> bool {
        self.bits & !Self::ALL == 0
    }

    pub fn empty() -> (flags: Self)
        ensures
            flags.bits == 0,
            flags.wf(),
    {
        proof {
            lemma_known_bits_u64(0, Self::ALL);
        }
        Self { bits: 0 }
    }

    pub fn all() -> (flags: Self)
        ensures
            flags.bits == Self::ALL,
            flags.wf(),
    {
        proof {
            lemma_known_bits_u64(0, Self::ALL);
        }
        Self { bits: Self::ALL }
    }

    pub open spec fn spec_bits(&self) -> u64 {
        self.bits
    }

    #[verifier::when_used_as_spec(spec_bits)]
    pub fn bits(&self) -> (bits: u64)
        ensures
            bits == self.bits,
    {
        self.bits
    }

    /// The set with exactly these bits, if all of them belong to flags.
    pub fn from_bits(bits: u64) -> (flags: Option<Self>)
        ensures
            flags == if bits & !Self::ALL == 0 {
                Some(Self { bits })
            } else {
                None
            },
    {
        if bits & !Self::ALL == 0 {
            Some(Self { bits })
        } else {
            None
        }
    }

    pub open spec fn spec_from_bits_truncate(bits: u64) -> Self {
        Self { bits: bits & Self::ALL }
    }

    /// The set with these bits, without those that belong to no flag.
    #[verifier::when_used_as_spec(spec_from_bits_truncate)]
    pub fn from_bits_truncate(bits: u64) -> (flags: Self)
        ensures
            flags == Self::spec_from_bits_truncate(bits),
            flags.wf(),
            bits & !Self::ALL == 0 ==> flags.bits == bits,
    {
        proof {
            lemma_known_bits_u64(bits, Self::ALL);
        }
        Self { bits: bits & Self::ALL }
    }

    pub open spec fn spec_is_empty(&self) -> bool {
        self.bits == 0
    }

    #[verifier::when_used_as_spec(spec_is_empty)]
    pub fn is_empty(&self) -> (empty: bool)
        ensures
            empty == (self.bits == 0),
    {
        self.bits == 0
    }

    pub open spec fn spec_contains(&self, other: Self) -> bool {
        self.bits & other.bits == other.bits
    }

    /// Whether every flag of `other` is in this set.
    #[verifier::when_used_as_spec(spec_contains)]
    pub fn contains(&self, other: Self) -> (all: bool)
        ensures
            all == self.spec_contains(other),
    {
        self.bits & other.bits == other.bits
    }

    pub open spec fn spec_intersects(&self, other: Self) -> bool {
        self.bits & other.bits != 0
    }

    /// Whether some flag of `other` is in this set.
    #[verifier::when_used_as_spec(spec_intersects)]
    pub fn intersects(&self, other: Self) -> (any: bool)
        ensures
            any == self.spec_intersects(other),
    {
        self.bits & other.bits != 0
    }

    pub open spec fn spec_union(self, other: Self) -> Self {
        Self { bits: self.bits | other.bits }
    }

    /// The flags of either set.
    #[verifier::when_used_as_spec(spec_union)]
    pub fn union(self, other: Self) -> (flags: Self)
        ensures
            flags == self.spec_union(other),
            self.wf() && other.wf() ==> flags.wf(),
    {
        proof {
            lemma_union_known_bits_u64(self.bits, other.bits, Self::ALL);
        }
        Self { bits: self.bits | other.bits }
    }

    /// A file was closed, however it had been opened.
    pub fn close() -> (mask: Self)
        ensures
            mask.bits == Self::CLOSE,
            mask.wf(),
    {
        proof {
            lemma_combined_masks();
        }
        Self::from_bits_truncate(Self::CLOSE)
    }

    /// A file or directory was moved out of or into a marked directory.
    pub fn moved() -> (mask: Self)
        ensures
            mask.bits == Self::MOVED,
            mask.wf(),
    {
        proof {
            lemma_combined_masks();
        }
        Self::from_bits_truncate(Self::MOVED)
    }

    /// Every kind of request for a permission.
    pub fn all_permissions() -> (mask: Self)
        ensures
            mask.bits == Self::ALL_PERMISSIONS,
            mask.wf(),
    {
        proof {
            lemma_combined_masks();
        }
        Self::from_bits_truncate(Self::ALL_PERMISSIONS)
    }

    pub open spec fn spec_includes_permission(&self) -> bool {
        self.bits & Self::ALL_PERMISSIONS != 0
    }

    /// Whether the mask holds a request for a permission of any kind.
    #[verifier::when_used_as_spec(spec_includes_permission)]
    pub fn includes_permission(&self) -> (any: bool)
        ensures
            any == self.spec_includes_permission(),
    {
        self.bits & Self::ALL_PERMISSIONS != 0
    }

    /// The events by which the content of a path is read or changed.
    pub fn path_changed(&self) -> (mask: Self)
        ensures
            mask.bits == Self::PATH_CHANGED,
            mask.wf(),
    {
        proof {
            lemma_combined_masks();
        }
        Self::from_bits_truncate(Self::PATH_CHANGED)
    }

    /// The events by which entries of a directory come and go.
    pub fn used(&self) -> (mask: Self)
        ensures
            mask.bits == Self::USED,
            mask.wf(),
    {
        proof {
            lemma_combined_masks();
        }
        Self::from_bits_truncate(Self::USED)
    }

    /// The names of the flags in this set, in the order of their declaration.
    pub open spec fn spec_text(&self) -> Seq<char> {
        let bits = self.bits as u64;
        let t0 = Seq::<char>::empty();
        let e0 = true;
        let has1 = spec_names_flag(bits, Self::ACCESS as u64);
        let t1 = spec_with_name(t0, e0, has1, "ACCESS"@);
        let e1 = e0 && !has1;
        let has2 = spec_names_flag(bits, Self::OPEN as u64);
        let t2 = spec_with_name(t1, e1, has2, "OPEN"@);
        let e2 = e1 && !has2;
        let has3 = spec_names_flag(bits, Self::OPEN_EXEC as u64);
        let t3 = spec_with_name(t2, e2, has3, "OPEN_EXEC"@);
        let e3 = e2 && !has3;
        let has4 = spec_names_flag(bits, Self::CLOSE_NO_WRITE as u64);
        let t4 = spec_with_name(t3, e3, has4, "CLOSE_NO_WRITE"@);
        let e4 = e3 && !has4;
        let has5 = spec_names_flag(bits, Self::CLOSE_WRITE as u64);
        let t5 = spec_with_name(t4, e4, has5, "CLOSE_WRITE"@);
        let e5 = e4 && !has5;
        let has6 = spec_names_flag(bits, Self::MODIFY as u64);
        let t6 = spec_with_name(t5, e5, has6, "MODIFY"@);
        let e6 = e5 && !has6;
        let has7 = spec_names_flag(bits, Self::ATTRIBUTE_CHANGED as u64);
        let t7 = spec_with_name(t6, e6, has7, "ATTRIBUTE_CHANGED"@);
        let e7 = e6 && !has7;
        let has8 = spec_names_flag(bits, Self::CREATE as u64);
        let t8 = spec_with_name(t7, e7, has8, "CREATE"@);
        let e8 = e7 && !has8;
        let has9 = spec_names_flag(bits, Self::DELETE as u64);
        let t9 = spec_with_name(t8, e8, has9, "DELETE"@);
        let e9 = e8 && !has9;
        let has10 = spec_names_flag(bits, Self::DELETE_SELF as u64);
        let t10 = spec_with_name(t9, e9, has10, "DELETE_SELF"@);
        let e10 = e9 && !has10;
        let has11 = spec_names_flag(bits, Self::MOVED_FROM as u64);
        let t11 = spec_with_name(t10, e10, has11, "MOVED_FROM"@);
        let e11 = e10 && !has11;
        let has12 = spec_names_flag(bits, Self::MOVED_TO as u64);
        let t12 = spec_with_name(t11, e11, has12, "MOVED_TO"@);
        let e12 = e11 && !has12;
        let has13 = spec_names_flag(bits, Self::MOVE_SELF as u64);
        let t13 = spec_with_name(t12, e12, has13, "MOVE_SELF"@);
        let e13 = e12 && !has13;
        let has14 = spec_names_flag(bits, Self::ACCESS_PERMISSION as u64);
        let t14 = spec_with_name(t13, e13, has14, "ACCESS_PERMISSION"@);
        let e14 = e13 && !has14;
        let has15 = spec_names_flag(bits, Self::OPEN_PERMISSION as u64);
        let t15 = spec_with_name(t14, e14, has15, "OPEN_PERMISSION"@);
        let e15 = e14 && !has15;
        let has16 = spec_names_flag(bits, Self::OPEN_EXEC_PERMISSION as u64);
        let t16 = spec_with_name(t15, e15, has16, "OPEN_EXEC_PERMISSION"@);
        let e16 = e15 && !has16;
        let has17 = spec_names_flag(bits, Self::ON_DIR as u64);
        let t17 = spec_with_name(t16, e16, has17, "ON_DIR"@);
        let e17 = e16 && !has17;
        let has18 = spec_names_flag(bits, Self::EVENT_ON_CHILD as u64);
        let t18 = spec_with_name(t17, e17, has18, "EVENT_ON_CHILD"@);
        let e18 = e17 && !has18;
        spec_flags_end(t18, e18)
    }

    pub fn text(&self) -> (text: String)
        ensures
            text@ == self.spec_text(),
    {
        let bits: u64 = self.bits as u64;
        let mut text = String::new();
        let first = true;
        let present = names_flag(bits, Self::ACCESS as u64);
        let first = push_name(&mut text, first, present, "ACCESS");
        let present = names_flag(bits, Self::OPEN as u64);
        let first = push_name(&mut text, first, present, "OPEN");
        let present = names_flag(bits, Self::OPEN_EXEC as u64);
        let first = push_name(&mut text, first, present, "OPEN_EXEC");
        let present = names_flag(bits, Self::CLOSE_NO_WRITE as u64);
        let first = push_name(&mut text, first, present, "CLOSE_NO_WRITE");
        let present = names_flag(bits, Self::CLOSE_WRITE as u64);
        let first = push_name(&mut text, first, present, "CLOSE_WRITE");
        let present = names_flag(bits, Self::MODIFY as u64);
        let first = push_name(&mut text, first, present, "MODIFY");
        let present = names_flag(bits, Self::ATTRIBUTE_CHANGED as u64);
        let first = push_name(&mut text, first, present, "ATTRIBUTE_CHANGED");
        let present = names_flag(bits, Self::CREATE as u64);
        let first = push_name(&mut text, first, present, "CREATE");
        let present = names_flag(bits, Self::DELETE as u64);
        let first = push_name(&mut text, first, present, "DELETE");
        let present = names_flag(bits, Self::DELETE_SELF as u64);
        let first = push_name(&mut text, first, present, "DELETE_SELF");
        let present = names_flag(bits, Self::MOVED_FROM as u64);
        let first = push_name(&mut text, first, present, "MOVED_FROM");
        let present = names_flag(bits, Self::MOVED_TO as u64);
        let first = push_name(&mut text, first, present, "MOVED_TO");
        let present = names_flag(bits, Self::MOVE_SELF as u64);
        let first = push_name(&mut text, first, present, "MOVE_SELF");
        let present = names_flag(bits, Self::ACCESS_PERMISSION as u64);
        let first = push_name(&mut text, first, present, "ACCESS_PERMISSION");
        let present = names_flag(bits, Self::OPEN_PERMISSION as u64);
        let first = push_name(&mut text, first, present, "OPEN_PERMISSION");
        let present = names_flag(bits, Self::OPEN_EXEC_PERMISSION as u64);
        let first = push_name(&mut text, first, present, "OPEN_EXEC_PERMISSION");
        let present = names_flag(bits, Self::ON_DIR as u64);
        let first = push_name(&mut text, first, present, "ON_DIR");
        let present = names_flag(bits, Self::EVENT_ON_CHILD as u64);
        let first = push_name(&mut text, first, present, "EVENT_ON_CHILD");
        push_flags_end(&mut text, first);
        text
    }
}

impl Default for Mask {
    fn default() -> (flags: Self)
        ensures
            flags.bits == 0,
    {
        Self::empty()
    }
}

/// How a mark is applied.
#[derive(Debug, Copy, Clone, Eq, PartialEq, Hash, Structural)]
pub struct Flags {
    pub bits: u32,
}

impl Flags {
    /// Mark a symbolic link itself, not what it points to.
    pub const DONT_FOLLOW: u32 = FAN_MARK_DONT_FOLLOW;

    /// Fail unless the marked object is a directory.
    pub const ONLY_DIR: u32 = FAN_MARK_ONLYDIR;

    /// Apply the mask to the ignore mask.
    pub const IGNORED_MASK: u32 = FAN_MARK_IGNORED_MASK;

    /// Let the ignore mask survive modify events.
    pub const IGNORED_SURVIVE_MODIFY: u32 = FAN_MARK_IGNORED_SURV_MODIFY;

    /// Every bit that belongs to a flag of this set.
    pub const ALL: u32 = 0x6C;

    /// The set holds no bit outside its flags.
    pub open spec fn wf(&self) -> bool {
        self.bits & !Self::ALL == 0
    }

    pub fn empty() -> (flags: Self)
        ensures
            flags.bits == 0,
            flags.wf(),
    {
        proof {
            lemma_known_bits_u32(0, Self::ALL);
        }
        Self { bits: 0 }
    }

    pub fn all() -> (flags: Self)
        ensures
            flags.bits == Self::ALL,
            flags.wf(),
    {
        proof {
            lemma_known_bits_u32(0, Self::ALL);
        }
        Self { bits: Self::ALL }
    }

    pub open spec fn spec_bits(&self) -> u32 {
        self.bits
    }

    #[verifier::when_used_as_spec(spec_bits)]
    pub fn bits(&self) -> (bits: u32)
        ensures
            bits == self.bits,
    {
        self.bits
    }

    /// The set with exactly these bits, if all of them belong to flags.
    pub fn from_bits(bits: u32) -> (flags: Option<Self>)
        ensures
            flags == if bits & !Self::ALL == 0 {
                Some(Self { bits })
            } else {
                None
            },
    {
        if bits & !Self::ALL == 0 {
            Some(Self { bits })
        } else {
            None
        }
    }

    pub open spec fn spec_from_bits_truncate(bits: u32) -> Self {
        Self { bits: bits & Self::ALL }
    }

    /// The set with these bits, without those that belong to no flag.
    #[verifier::when_used_as_spec(spec_from_bits_truncate)]
    pub fn from_bits_truncate(bits: u32) -> (flags: Self)
        ensures
            flags == Self::spec_from_bits_truncate(bits),
            flags.wf(),
            bits & !Self::ALL == 0 ==> flags.bits == bits,
    {
        proof {
            lemma_known_bits_u32(bits, Self::ALL);
        }
        Self { bits: bits & Self::ALL }
    }

    pub open spec fn spec_is_empty(&self) -> bool {
        self.bits == 0
    }

    #[verifier::when_used_as_spec(spec_is_empty)]
    pub fn is_empty(&self) -> (empty: bool)
        ensures
            empty == (self.bits == 0),
    {
        self.bits == 0
    }

    pub open spec fn spec_contains(&self, other: Self) -> bool {
        self.bits & other.bits == other.bits
    }

    /// Whether every flag of `other` is in this set.
    #[verifier::when_used_as_spec(spec_contains)]
    pub fn contains(&self, other: Self) -> (all: bool)
        ensures
            all == self.spec_contains(other),
    {
        self.bits & other.bits == other.bits
    }

    pub open spec fn spec_intersects(&self, other: Self) -> bool {
        self.bits & other.bits != 0
    }

    /// Whether some flag of `other` is in this set.
    #[verifier::when_used_as_spec(spec_intersects)]
    pub fn intersects(&self, other: Self) -> (any: bool)
        ensures
            any == self.spec_intersects(other),
    {
        self.bits & other.bits != 0
    }

    pub open spec fn spec_union(self, other: Self) -> Self {
        Self { bits: self.bits | other.bits }
    }

    /// The flags of either set.
    #[verifier::when_used_as_spec(spec_union)]
    pub fn union(self, other: Self) -> (flags: Self)
        ensures
            flags == self.spec_union(other),
            self.wf() && other.wf() ==> flags.wf(),
    {
        proof {
            lemma_union_known_bits_u32(self.bits, other.bits, Self::ALL);
        }
        Self { bits: self.bits | other.bits }
    }

    pub fn const_default() -> (flags: Self)
        ensures
            flags.bits == 0,
            flags.wf(),
    {
        Self::empty()
    }

    /// The names of the flags in this set, in the order of their declaration.
    pub open spec fn spec_text(&self) -> Seq<char> {
        let bits = self.bits as u64;
        let t0 = Seq::<char>::empty();
        let e0 = true;
        let has1 = spec_names_flag(bits, Self::DONT_FOLLOW as u64);
        let t1 = spec_with_name(t0, e0, has1, "DONT_FOLLOW"@);
        let e1 = e0 && !has1;
        let has2 = spec_names_flag(bits, Self::ONLY_DIR as u64);
        let t2 = spec_with_name(t1, e1, has2, "ONLY_DIR"@);
        let e2 = e1 && !has2;
        let has3 = spec_names_flag(bits, Self::IGNORED_MASK as u64);
        let t3 = spec_with_name(t2, e2, has3, "IGNORED_MASK"@);
        let e3 = e2 && !has3;
        let has4 = spec_names_flag(bits, Self::IGNORED_SURVIVE_MODIFY as u64);
        let t4 = spec_with_name(t3, e3, has4, "IGNORED_SURVIVE_MODIFY"@);
        let e4 = e3 && !has4;
        spec_flags_end(t4, e4)
    }

    pub fn text(&self) -> (text: String)
        ensures
            text@ == self.spec_text(),
    {
        let bits: u64 = self.bits as u64;
        let mut text = String::new();
        let first = true;
        let present = names_flag(bits, Self::DONT_FOLLOW as u64);
        let first = push_name(&mut text, first, present, "DONT_FOLLOW");
        let present = names_flag(bits, Self::ONLY_DIR as u64);
        let first = push_name(&mut text, first, present, "ONLY_DIR");
        let present = names_flag(bits, Self::IGNORED_MASK as u64);
        let first = push_name(&mut text, first, present, "IGNORED_MASK");
        let present = names_flag(bits, Self::IGNORED_SURVIVE_MODIFY as u64);
        let first = push_name(&mut text, first, present, "IGNORED_SURVIVE_MODIFY");
        push_flags_end(&mut text, first);
        text
    }
}

impl Default for Flags {
    fn default() -> (flags: Self)
        ensures
            flags.bits == 0,
    {
        Self::empty()
    }
}


/// What a mark with a mask does with it.
#[derive(Debug, Copy, Clone, Eq, PartialEq, Hash, Structural)]
pub enum OneAction {
    Add,
    Remove,
}

/// What a mark does.
#[derive(Debug, Copy, Clone, Eq, PartialEq, Hash, Structural)]
pub enum Action {
    /// Add the events of the mask to the mark.
    Add,
    /// Remove the events of the mask from the mark.
    Remove,
    /// Remove all marks of one kind from the group.
    Flush,
}

impl OneAction {
    pub open spec fn spec_const_into(self) -> Action {
        match self {
            OneAction::Add => Action::Add,
            OneAction::Remove => Action::Remove,
        }
    }

    #[verifier::when_used_as_spec(spec_const_into)]
    pub fn const_into(self) -> (action: Action)
        ensures
            action == self.spec_const_into(),
    {
        match self {
            OneAction::Add => Action::Add,
            OneAction::Remove => Action::Remove,
        }
    }
}

impl Action {
    /// The bit that stands for this action.
    pub open spec fn spec_bits(self) -> u32 {
        match self {
            Action::Add => FAN_MARK_ADD,
            Action::Remove => FAN_MARK_REMOVE,
            Action::Flush => FAN_MARK_FLUSH,
        }
    }

    #[verifier::when_used_as_spec(spec_bits)]
    pub fn bits(self) -> (bits: u32)
        ensures
            bits == self.spec_bits(),
    {
        match self {
            Action::Add => FAN_MARK_ADD,
            Action::Remove => FAN_MARK_REMOVE,
            Action::Flush => FAN_MARK_FLUSH,
        }
    }

    /// The name of the variant.
    pub open spec fn spec_name(self) -> Seq<char> {
        match self {
            Action::Add => "Add"@,
            Action::Remove => "Remove"@,
            Action::Flush => "Flush"@,
        }
    }

    pub fn name(self) -> (name: &'static str)
        ensures
            name@ == self.spec_name(),
    {
        match self {
            Action::Add => "Add",
            Action::Remove => "Remove",
            Action::Flush => "Flush",
        }
    }
}

/// What kind of object a mark is set on.
#[derive(Debug, Copy, Clone, Eq, PartialEq, Hash, Structural)]
pub enum What {
    Inode,
    MountPoint,
    FileSystem,
}

impl What {
    /// The bits that stand for this kind of object.
    pub open spec fn spec_bits(self) -> u32 {
        match self {
            What::Inode => FAN_MARK_INODE,
            What::MountPoint => FAN_MARK_MOUNT,
            What::FileSystem => FAN_MARK_FILESYSTEM,
        }
    }

    #[verifier::when_used_as_spec(spec_bits)]
    pub fn bits(self) -> (bits: u32)
        ensures
            bits == self.spec_bits(),
    {
        match self {
            What::Inode => FAN_MARK_INODE,
            What::MountPoint => FAN_MARK_MOUNT,
            What::FileSystem => FAN_MARK_FILESYSTEM,
        }
    }

    /// The name of the variant.
    pub open spec fn spec_name(self) -> Seq<char> {
        match self {
            What::Inode => "Inode"@,
            What::MountPoint => "MountPoint"@,
            What::FileSystem => "FileSystem"@,
        }
    }

    pub fn name(self) -> (name: &'static str)
        ensures
            name@ == self.spec_name(),
    {
        match self {
            What::Inode => "Inode",
            What::MountPoint => "MountPoint",
            What::FileSystem => "FileSystem",
        }
    }
}

/// Why a mark cannot even be tried.
#[derive(Debug, Copy, Clone, Eq, PartialEq, Hash, Structural)]
pub enum StaticError {
    /// A mark that adds or removes events names none.
    EmptyMask,
}

/// A directory, by the number of its open descriptor.
#[derive(Debug, Copy, Clone, Eq, PartialEq, Hash, Structural)]
pub struct DirFd {
    pub fd: i32,
}

impl DirFd {
    /// The pseudo descriptor of the current working directory, whichever
    /// that is when the descriptor is used.
    pub fn current_working_directory() -> (dir: Self)
        ensures
            dir.fd == AT_FDCWD,
    {
        DirFd { fd: AT_FDCWD }
    }

    /// A number that is no descriptor, for where the kernel ignores the directory.
    pub fn invalid() -> (dir: Self)
        ensures
            dir.fd == -1,
    {
        DirFd { fd: -1 }
    }

    /// The directory behind an open descriptor.
    pub fn directory(fd: i32) -> (dir: Self)
        ensures
            dir.fd == fd,
    {
        DirFd { fd }
    }

    pub open spec fn spec_is_current_working_directory(&self) -> bool {
        self.fd == AT_FDCWD
    }

    /// Whether this is the pseudo descriptor of the current working
    /// directory. A real descriptor of that directory is not.
    #[verifier::when_used_as_spec(spec_is_current_working_directory)]
    pub fn is_current_working_directory(&self) -> (cwd: bool)
        ensures
            cwd == (self.fd == AT_FDCWD),
    {
        self.fd == AT_FDCWD
    }
}

/// A path, absolute or relative to a directory.
#[derive(Debug, Clone, Eq, PartialEq, Hash)]
pub struct Path {
    pub dir: DirFd,
    pub path: Option<String>,
}

impl Path {
    /// The current working directory, whichever that is when the path is used.
    pub fn current_working_directory() -> (path: Self)
        ensures
            path.dir.fd == AT_FDCWD,
            path.path is None,
    {
        Path { dir: DirFd::current_working_directory(), path: None }
    }

    /// The directory behind an open descriptor.
    pub fn directory(fd: i32) -> (path: Self)
        ensures
            path.dir.fd == fd,
            path.path is None,
    {
        Path { dir: DirFd::directory(fd), path: None }
    }

    /// A path relative to the directory behind an open descriptor.
    pub fn relative_to(fd: i32, relative: String) -> (path: Self)
        ensures
            path.dir.fd == fd,
            path.path == Some(relative),
    {
        Path { dir: DirFd::directory(fd), path: Some(relative) }
    }

    /// An absolute path. The kernel ignores the directory of such a path.
    pub fn absolute(absolute: String) -> (path: Self)
        ensures
            path.dir.fd == -1,
            path.path == Some(absolute),
    {
        Path { dir: DirFd::invalid(), path: Some(absolute) }
    }
}

/// A mark that adds or removes events, as its maker states it.
#[derive(Debug, Clone, Eq, PartialEq, Hash)]
pub struct OneMark {
    pub action: OneAction,
    pub what: What,
    pub flags: Flags,
    pub mask: Mask,
    pub path: Path,
}

/// A mark that can be handed to the kernel: one that adds or removes a
/// mask that is not empty, or one that flushes.
#[derive(Debug, Clone, Eq, PartialEq, Hash)]
pub struct Mark {
    pub action: Action,
    pub what: What,
    pub flags: Flags,
    pub mask: Mask,
    pub path: Path,
}

/// The arguments of the kernel's mark call, but for the group.
#[derive(Debug, Clone, Eq, PartialEq, Hash)]
pub struct RawMark {
    pub flags: u32,
    pub mask: u64,
    pub dir_fd: i32,
    pub path: Option<String>,
}

impl Mark {
    /// The mask of a mark is never empty.
    pub open spec fn wf(&self) -> bool {
        self.mask.bits != 0
    }

    pub fn action(&self) -> (action: Action)
        ensures
            action == self.action,
    {
        self.action
    }

    pub fn what(&self) -> (what: What)
        ensures
            what == self.what,
    {
        self.what
    }

    pub fn flags(&self) -> (flags: Flags)
        ensures
            flags == self.flags,
    {
        self.flags
    }

    pub fn mask(&self) -> (mask: Mask)
        ensures
            mask == self.mask,
    {
        self.mask
    }

    pub fn path(&self) -> (path: &Path)
        ensures
            *path == self.path,
    {
        &self.path
    }

    /// Makes a mark that adds or removes events. It fails exactly if the
    /// mask is empty.
    pub fn one(mark: OneMark) -> (made: Result<Mark, StaticError>)
        ensures
            mark.mask.bits == 0 <==> made is Err,
            made is Err ==> made == Err::<Mark, StaticError>(StaticError::EmptyMask),
            made is Ok ==> made->Ok_0 == (Mark {
                action: mark.action.spec_const_into(),
                what: mark.what,
                flags: mark.flags,
                mask: mark.mask,
                path: mark.path,
            }) && made->Ok_0.wf(),
    {
        if mark.mask.is_empty() {
            return Err(StaticError::EmptyMask);
        }
        Ok(
            Mark {
                action: mark.action.const_into(),
                what: mark.what,
                flags: mark.flags,
                mask: mark.mask,
                path: mark.path,
            },
        )
    }

    /// The mark that removes all marks on objects of one kind. The kernel
    /// ignores its mask and its path.
    pub fn flush(what: What) -> (mark: Mark)
        ensures
            mark.action == Action::Flush,
            mark.what == what,
            mark.flags.bits == 0,
            mark.mask.bits == Mask::ALL,
            mark.path.dir.fd == AT_FDCWD,
            mark.path.path is None,
            mark.wf(),
    {
        Mark {
            action: Action::Flush,
            what,
            flags: Flags::empty(),
            mask: Mask::all(),
            path: Path::current_working_directory(),
        }
    }

    pub open spec fn spec_raw_flags(&self) -> u32 {
        self.action.spec_bits() | self.what.spec_bits() | self.flags.bits
    }

    /// The flags word of the kernel's mark call: action, kind of object and flags.
    #[verifier::when_used_as_spec(spec_raw_flags)]
    pub fn raw_flags(&self) -> (word: u32)
        ensures
            word == self.spec_raw_flags(),
    {
        self.action.bits() | self.what.bits() | self.flags.bits()
    }

    /// The arguments of the kernel's mark call.
    pub fn to_raw(&self) -> (raw: RawMark)
        ensures
            raw.flags == self.spec_raw_flags(),
            raw.mask == self.mask.bits,
            raw.dir_fd == self.path.dir.fd,
            raw.path is Some == self.path.path is Some,
            raw.path is Some ==> raw.path->Some_0@ == self.path.path->Some_0@,
    {
        let path = match &self.path.path {
            Some(path) => Some(path.clone()),
            None => None,
        };
        RawMark { flags: self.raw_flags(), mask: self.mask.bits(), dir_fd: self.path.dir.fd, path }
    }
}

/// Whether a path starts at the root.
pub open spec fn spec_is_absolute(path: Seq<char>) -> bool {
    path.len() > 0 && path[0] == '/'
}

pub fn is_absolute(path: &str) -> (absolute: bool)
    ensures
        absolute == spec_is_absolute(path@),
{
    path.unicode_len() > 0 && path.get_char(0) == '/'
}

/// A relative path behind the directory it is relative to, with a slash
/// between the two unless the directory is empty or ends in one.
pub open spec fn spec_join(dir: Seq<char>, relative: Seq<char>) -> Seq<char> {
    if dir.len() == 0 || dir.last() == '/' {
        dir + relative
    } else {
        dir + "/"@ + relative
    }
}

pub fn join(dir: &str, relative: &str) -> (joined: String)
    ensures
        joined@ == spec_join(dir@, relative@),
{
    let len = dir.unicode_len();
    let mut joined = String::from_str(dir);
    if len != 0 && dir.get_char(len - 1) != '/' {
        joined.append("/");
    }
    joined.append(relative);
    joined
}

impl DirFd {
    /// How the directory is written out: the current working directory as
    /// a dot, another one as `resolved`, the path that its descriptor was
    /// found to stand for.
    pub open spec fn spec_text(&self, resolved: Seq<char>) -> Seq<char> {
        if self.fd == AT_FDCWD {
            "."@
        } else {
            resolved
        }
    }

    pub fn text(&self, resolved: &str) -> (text: String)
        ensures
            text@ == self.spec_text(resolved@),
    {
        if self.is_current_working_directory() {
            String::from_str(".")
        } else {
            String::from_str(resolved)
        }
    }
}

impl Path {
    /// How the path is written out, where `resolved` is the path that the
    /// directory's descriptor was found to stand for: a directory alone as
    /// itself; an absolute path as itself; a relative path with its
    /// directory, and with the two joined.
    pub open spec fn spec_to_string(&self, resolved: Seq<char>) -> Seq<char> {
        let dir = self.dir.spec_text(resolved);
        match self.path {
            None => "{ dir: "@ + dir + " }"@,
            Some(path) => if spec_is_absolute(path@) {
                "{ absolute: "@ + path@ + " }"@
            } else {
                "{ dir: "@ + dir + ", relative: "@ + path@ + ", path: "@ + spec_join(dir, path@)
                    + " }"@
            },
        }
    }

    pub fn to_string(&self, resolved: &str) -> (text: String)
        ensures
            text@ == self.spec_to_string(resolved@),
    {
        let dir = self.dir.text(resolved);
        match &self.path {
            None => {
                let mut text = String::from_str("{ dir: ");
                text.append(dir.as_str());
                text.append(" }");
                text
            },
            Some(path) => {
                if is_absolute(path.as_str()) {
                    let mut text = String::from_str("{ absolute: ");
                    text.append(path.as_str());
                    text.append(" }");
                    text
                } else {
                    let joined = join(dir.as_str(), path.as_str());
                    let mut text = String::from_str("{ dir: ");
                    text.append(dir.as_str());
                    text.append(", relative: ");
                    text.append(path.as_str());
                    text.append(", path: ");
                    text.append(joined.as_str());
                    text.append(" }");
                    text
                }
            },
        }
    }
}

impl Mark {
    /// The mark written out field by field, where `resolved` is the path
    /// that the descriptor of the path's directory was found to stand for.
    pub open spec fn spec_to_string(&self, resolved: Seq<char>) -> Seq<char> {
        "Mark { action: "@ + self.action.spec_name() + ", what: "@ + self.what.spec_name()
            + ", flags: "@ + self.flags.spec_text() + ", mask: "@ + self.mask.spec_text()
            + ", path: "@ + self.path.spec_to_string(resolved) + " }"@
    }

    pub fn to_string(&self, resolved: &str) -> (text: String)
        ensures
            text@ == self.spec_to_string(resolved@),
    {
        let mut text = String::from_str("Mark { action: ");
        text.append(self.action.name());
        text.append(", what: ");
        text.append(self.what.name());
        text.append(", flags: ");
        let flags = self.flags.text();
        text.append(flags.as_str());
        text.append(", mask: ");
        let mask = self.mask.text();
        text.append(mask.as_str());
        text.append(", path: ");
        let path = self.path.to_string(resolved);
        text.append(path.as_str());
        text.append(" }");
        text
    }
}

/// Why the kernel did not take a mark.
#[derive(Debug, Copy, Clone, Eq, PartialEq, Hash, Structural)]
pub enum RawError {
    /// The mark asks for what the group cannot give.
    InvalidArgument,
    /// The directory's descriptor is not open.
    BadDirFd { fd: i32 },
    /// The marked object is no directory, though the mark says only a directory will do.
    NotADirectory,
    /// There is nothing at the path.
    PathDoesNotExist,
    /// The path lies on a filesystem without ids, and the group reports file handles.
    PathDoesNotSupportFSID,
    /// The path lies on a filesystem without file handles, and the group reports them.
    PathNotSupported,
    /// The path lies on a subvolume whose id is not that of its filesystem.
    PathUsesDifferentFSID,
    /// The mark to remove is not there.
    CannotRemoveNonExistentMark,
    /// The group holds as many marks as it may.
    ExceededMarkLimit,
    /// The kernel is out of memory.
    OutOfMemory,
    /// The kernel lacks a feature that the mark needs.
    FeatureUnsupported,
}

impl RawError {
    /// Whether the mark call is documented to fail with this error number
    /// for a mark with the action `action`.
    pub open spec fn spec_is_documented(errno: i32, action: Action) -> bool {
        errno == EBADF || errno == ENOTDIR || errno == ENODEV || errno == EOPNOTSUPP || errno
            == ENOSPC || errno == ENOMEM || errno == EINVAL || (errno == ENOENT && action
            != Action::Flush)
    }

    #[verifier::when_used_as_spec(spec_is_documented)]
    pub fn is_documented(errno: i32, action: Action) -> (documented: bool)
        ensures
            documented == Self::spec_is_documented(errno, action),
    {
        let flushes = match action {
            Action::Flush => true,
            _ => false,
        };
        errno == EBADF || errno == ENOTDIR || errno == ENODEV || errno == EOPNOTSUPP || errno
            == ENOSPC || errno == ENOMEM || errno == EINVAL || (errno == ENOENT && !flushes)
    }

    /// What an error number of the mark call means for a mark with the
    /// action `action` and the directory `dir_fd`. An invalid-argument
    /// error stands for a feature that the kernel lacks, since the
    /// arguments that are invalid in themselves never reach the kernel.
    pub open spec fn spec_from_errno(errno: i32, action: Action, dir_fd: i32) -> RawError {
        if errno == EBADF {
            RawError::BadDirFd { fd: dir_fd }
        } else if errno == ENOTDIR {
            RawError::NotADirectory
        } else if errno == ENOENT && action == Action::Add {
            RawError::PathDoesNotExist
        } else if errno == ENODEV {
            RawError::PathDoesNotSupportFSID
        } else if errno == EOPNOTSUPP {
            RawError::PathUsesDifferentFSID
        } else if errno == ENOENT {
            RawError::CannotRemoveNonExistentMark
        } else if errno == ENOSPC {
            RawError::ExceededMarkLimit
        } else if errno == ENOMEM {
            RawError::OutOfMemory
        } else {
            RawError::FeatureUnsupported
        }
    }

    pub fn from_errno(errno: i32, action: Action, dir_fd: i32) -> (error: RawError)
        requires
            Self::spec_is_documented(errno, action),
        ensures
            error == Self::spec_from_errno(errno, action, dir_fd),
    {
        let adds = match action {
            Action::Add => true,
            _ => false,
        };
        if errno == EBADF {
            RawError::BadDirFd { fd: dir_fd }
        } else if errno == ENOTDIR {
            RawError::NotADirectory
        } else if errno == ENOENT && adds {
            RawError::PathDoesNotExist
        } else if errno == ENODEV {
            RawError::PathDoesNotSupportFSID
        } else if errno == EOPNOTSUPP {
            RawError::PathUsesDifferentFSID
        } else if errno == ENOENT {
            RawError::CannotRemoveNonExistentMark
        } else if errno == ENOSPC {
            RawError::ExceededMarkLimit
        } else if errno == ENOMEM {
            RawError::OutOfMemory
        } else {
            RawError::FeatureUnsupported
        }
    }
}

/// A mark that the kernel did not take, and why.
#[derive(Debug, Clone, Eq, PartialEq, Hash)]
pub struct Error {
    pub error: RawError,
    pub mark: Mark,
}

} // verus!

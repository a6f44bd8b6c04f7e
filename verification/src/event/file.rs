//! What an event is about: an open file, a file by its handle, or a
//! request for a permission.

use vstd::prelude::*;
use crate::event::responses::immediate_outcome;
use crate::event::responses::spec_immediate_outcome;
use crate::event::responses::ResponseBuffer;
use crate::fd::FD;
use crate::libc::fanotify_response;
use crate::libc::fsid_t;
use crate::libc::FAN_ALLOW;
use crate::libc::FAN_AUDIT;
use crate::libc::FAN_DENY;
use crate::libc::FAN_EVENT_INFO_TYPE_DFID;
use crate::libc::FAN_EVENT_INFO_TYPE_DFID_NAME;
use crate::libc::FAN_EVENT_INFO_TYPE_FID;

verus! {

/// An event about a file that the kernel has opened for the reader. The
/// reader owns the descriptor and has to close it.
#[derive(Debug, Copy, Clone, Eq, PartialEq, Hash, Structural)]
pub struct FileFD {
    pub fd: FD,
}

impl FileFD {
    pub fn fd(&self) -> (fd: &FD)
        ensures
            *fd == self.fd,
    {
        &self.fd
    }
}

/// The id of a filesystem.
#[derive(Debug, Copy, Clone, Eq, PartialEq, Hash, Structural)]
pub struct FileSystemId {
    pub fsid: fsid_t,
}

/// What a record that identifies a file says of it.
#[derive(Debug, Copy, Clone, Eq, PartialEq, Hash, Structural)]
pub enum InfoType {
    /// The file itself.
    Fid,
    /// The directory of the file, and the file's name in it.
    DFidName,
    /// The directory of the file.
    DFid,
}

impl InfoType {
    /// The type that a tag stands for, if any.
    pub open spec fn spec_try_from(value: u8) -> Result<InfoType, u8> {
        if value == FAN_EVENT_INFO_TYPE_FID {
            Ok(InfoType::Fid)
        } else if value == FAN_EVENT_INFO_TYPE_DFID_NAME {
            Ok(InfoType::DFidName)
        } else if value == FAN_EVENT_INFO_TYPE_DFID {
            Ok(InfoType::DFid)
        } else {
            Err(value)
        }
    }

    /// The type that a tag stands for; an unknown tag comes back as the error.
    #[verifier::when_used_as_spec(spec_try_from)]
    pub fn try_from(value: u8) -> (info_type: Result<InfoType, u8>)
        ensures
            info_type == Self::spec_try_from(value),
    {
        if value == FAN_EVENT_INFO_TYPE_FID {
            Ok(InfoType::Fid)
        } else if value == FAN_EVENT_INFO_TYPE_DFID_NAME {
            Ok(InfoType::DFidName)
        } else if value == FAN_EVENT_INFO_TYPE_DFID {
            Ok(InfoType::DFid)
        } else {
            Err(value)
        }
    }

    pub open spec fn spec_to_u8(self) -> u8 {
        match self {
            InfoType::Fid => FAN_EVENT_INFO_TYPE_FID,
            InfoType::DFidName => FAN_EVENT_INFO_TYPE_DFID_NAME,
            InfoType::DFid => FAN_EVENT_INFO_TYPE_DFID,
        }
    }

    /// The tag that stands for this type.
    #[verifier::when_used_as_spec(spec_to_u8)]
    pub fn to_u8(self) -> (value: u8)
        ensures
            value == self.spec_to_u8(),
            Self::spec_try_from(value) == Ok::<InfoType, u8>(self),
    {
        match self {
            InfoType::Fid => FAN_EVENT_INFO_TYPE_FID,
            InfoType::DFidName => FAN_EVENT_INFO_TYPE_DFID_NAME,
            InfoType::DFid => FAN_EVENT_INFO_TYPE_DFID,
        }
    }
}

/// The bytes by which the kernel refers to a file that it has found but
/// not opened. They lie in the buffer that the event was read into, and
/// mean something to the kernel only.
#[derive(Debug, Copy, Clone, Eq, PartialEq, Hash)]
pub struct FileHandle<'a> {
    pub handle: &'a [u8],
}

impl<'a> View for FileHandle<'a> {
    type V = Seq<u8>;

    open spec fn view(&self) -> Seq<u8> {
        self.handle@
    }
}

impl<'a> FileHandle<'a> {
    pub fn as_bytes(&self) -> (bytes: &'a [u8])
        ensures
            bytes@ == self@,
    {
        self.handle
    }
}

/// An event about a file that is identified, not opened: by the id of its
/// filesystem and its handle there.
#[derive(Debug, Copy, Clone, Eq, PartialEq, Hash)]
pub struct FileFID<'a> {
    pub info_type: InfoType,
    pub file_system_id: FileSystemId,
    pub handle: FileHandle<'a>,
}

/// What a [`FileFID`] holds, the handle as the bytes themselves.
pub struct FileFIDView {
    pub info_type: InfoType,
    pub file_system_id: FileSystemId,
    pub handle: Seq<u8>,
}

impl<'a> View for FileFID<'a> {
    type V = FileFIDView;

    open spec fn view(&self) -> FileFIDView {
        FileFIDView {
            info_type: self.info_type,
            file_system_id: self.file_system_id,
            handle: self.handle@,
        }
    }
}

impl<'a> FileFID<'a> {
    pub fn info_type(&self) -> (info_type: InfoType)
        ensures
            info_type == self.info_type,
    {
        self.info_type
    }

    pub fn file_system_id(&self) -> (id: FileSystemId)
        ensures
            id == self.file_system_id,
    {
        self.file_system_id
    }

    pub fn handle(&self) -> (handle: &FileHandle<'a>)
        ensures
            *handle == self.handle,
    {
        &self.handle
    }
}

/// The answer to a request for a permission.
#[derive(Debug, Copy, Clone, Eq, PartialEq, Hash, Structural)]
pub enum PermissionDecision {
    Allow,
    Deny,
}

impl Default for PermissionDecision {
    /// A request that nobody decides on is allowed, so that a reader who
    /// forgets one does not block the system.
    fn default() -> (decision: Self)
        ensures
            decision == PermissionDecision::Allow,
    {
        PermissionDecision::Allow
    }
}

impl PermissionDecision {
    pub open spec fn spec_to_u32(self) -> u32 {
        match self {
            PermissionDecision::Allow => FAN_ALLOW,
            PermissionDecision::Deny => FAN_DENY,
        }
    }

    /// The bit that stands for this decision.
    #[verifier::when_used_as_spec(spec_to_u32)]
    pub fn to_u32(self) -> (bits: u32)
        ensures
            bits == self.spec_to_u32(),
    {
        match self {
            PermissionDecision::Allow => FAN_ALLOW,
            PermissionDecision::Deny => FAN_DENY,
        }
    }

    /// The decision that the lowest two bits of a word stand for: one of
    /// them set alone. Other bits are not looked at.
    pub open spec fn spec_try_from(bits: u32) -> Result<PermissionDecision, ()> {
        let index = bits & 0b11;
        if index == 1 {
            Ok(PermissionDecision::Allow)
        } else if index == 2 {
            Ok(PermissionDecision::Deny)
        } else {
            Err(())
        }
    }

    #[verifier::when_used_as_spec(spec_try_from)]
    pub fn try_from(bits: u32) -> (decision: Result<PermissionDecision, ()>)
        ensures
            decision == Self::spec_try_from(bits),
    {
        let index: u32 = bits & 0b11;
        if index == 1 {
            Ok(PermissionDecision::Allow)
        } else if index == 2 {
            Ok(PermissionDecision::Deny)
        } else {
            Err(())
        }
    }
}

/// An answer to a request for a permission, field by field.
#[derive(Debug, Copy, Clone, Eq, PartialEq, Hash, Structural)]
pub struct RawFilePermission {
    pub fd: i32,
    pub decision: PermissionDecision,
    pub audit: bool,
}

impl RawFilePermission {
    pub open spec fn spec_to_response(&self) -> fanotify_response {
        fanotify_response {
            fd: self.fd,
            response: self.decision.spec_to_u32() | if self.audit {
                FAN_AUDIT
            } else {
                0u32
            },
        }
    }

    /// The answer as the kernel takes it.
    #[verifier::when_used_as_spec(spec_to_response)]
    pub fn to_response(&self) -> (response: fanotify_response)
        ensures
            response == self.spec_to_response(),
    {
        let audit: u32 = if self.audit {
            FAN_AUDIT
        } else {
            0u32
        };
        fanotify_response { fd: self.fd, response: self.decision.to_u32() | audit }
    }

    /// The answer that a record stands for, if its decision is one.
    pub open spec fn spec_try_from(response: &fanotify_response) -> Result<RawFilePermission, ()> {
        match PermissionDecision::spec_try_from(response.response) {
            Ok(decision) => Ok(
                RawFilePermission {
                    fd: response.fd,
                    decision,
                    audit: response.response & FAN_AUDIT != 0,
                },
            ),
            Err(_) => Err(()),
        }
    }

    #[verifier::when_used_as_spec(spec_try_from)]
    pub fn try_from(response: &fanotify_response) -> (answer: Result<RawFilePermission, ()>)
        ensures
            answer == Self::spec_try_from(response),
    {
        let audit = response.response & FAN_AUDIT != 0;
        match PermissionDecision::try_from(response.response) {
            Ok(decision) => Ok(RawFilePermission { fd: response.fd, decision, audit }),
            Err(_) => Err(()),
        }
    }
}

/// An answer made into a record and read back is the same answer.
pub proof fn lemma_answer_round_trip(answer: RawFilePermission)
    ensures
        RawFilePermission::spec_try_from(&answer.spec_to_response()) == Ok::<
            RawFilePermission,
            (),
        >(answer),
{
    let decision = answer.decision.spec_to_u32();
    let audit = if answer.audit {
        FAN_AUDIT
    } else {
        0u32
    };
    assert((decision | audit) & 0b11u32 == decision && (decision | audit) & 0x10u32 == audit)
        by (bit_vector)
        requires
            decision == 1 || decision == 2,
            audit == 0 || audit == 0x10,
    ;
}

/// A request for a permission: the kernel holds back what another process
/// is about to do with a file until the reader of the event has answered.
///
/// The answer is [`Allow`](PermissionDecision::Allow) unless the reader
/// decides otherwise. It is written once: by
/// [`write_buffered`](Self::write_buffered),
/// [`write_immediately`](Self::write_immediately), or, for a request that
/// was never answered in so many words, by [`finish`](Self::finish).
#[derive(Debug, Eq, PartialEq, Hash)]
pub struct FilePermission {
    fd: FD,
    decision: PermissionDecision,
    audit: bool,
    written: bool,
}

/// What a [`FilePermission`] holds.
pub struct FilePermissionView {
    pub fd: FD,
    pub decision: PermissionDecision,
    pub audit: bool,
    pub written: bool,
}

impl FilePermissionView {
    /// The request as it comes out of a record: allowed, not audited, not answered.
    pub open spec fn fresh(fd: FD) -> FilePermissionView {
        FilePermissionView { fd, decision: PermissionDecision::Allow, audit: false, written: false }
    }

    /// The answer as it stands.
    pub open spec fn answer(self) -> RawFilePermission {
        RawFilePermission { fd: self.fd.fd, decision: self.decision, audit: self.audit }
    }

    /// The request once its answer is written.
    pub open spec fn answered(self) -> FilePermissionView {
        FilePermissionView { written: true, ..self }
    }

    /// What writing the answer to a buffer holding `buffer` leaves there:
    /// the answer's record at the end, unless the answer was written before.
    pub open spec fn buffer_after_write(self, buffer: Seq<u8>) -> Seq<u8> {
        if self.written {
            buffer
        } else {
            buffer + self.answer().spec_to_response().spec_bytes()
        }
    }
}

impl View for FilePermission {
    type V = FilePermissionView;

    closed spec fn view(&self) -> FilePermissionView {
        FilePermissionView {
            fd: self.fd,
            decision: self.decision,
            audit: self.audit,
            written: self.written,
        }
    }
}

impl FilePermission {
    /// The request that a record with this descriptor makes.
    pub fn new(fd: FD) -> (this: Self)
        ensures
            this@ == FilePermissionView::fresh(fd),
    {
        FilePermission { fd, decision: PermissionDecision::Allow, audit: false, written: false }
    }

    pub fn fd(&self) -> (fd: &FD)
        ensures
            *fd == self@.fd,
    {
        &self.fd
    }

    pub fn decision(&self) -> (decision: PermissionDecision)
        ensures
            decision == self@.decision,
    {
        self.decision
    }

    pub fn audit(&self) -> (audit: bool)
        ensures
            audit == self@.audit,
    {
        self.audit
    }

    pub fn allow(&mut self)
        ensures
            final(self)@ == (FilePermissionView {
                decision: PermissionDecision::Allow,
                ..old(self)@
            }),
    {
        self.decision = PermissionDecision::Allow;
    }

    pub fn deny(&mut self)
        ensures
            final(self)@ == (FilePermissionView { decision: PermissionDecision::Deny, ..old(self)@ }),
    {
        self.decision = PermissionDecision::Deny;
    }

    /// Says whether the kernel is to audit the answer.
    pub fn set_audit(&mut self, audit: bool)
        ensures
            final(self)@ == (FilePermissionView { audit, ..old(self)@ }),
    {
        self.audit = audit;
    }

    /// Whether the answer was written.
    pub fn written(&self) -> (written: bool)
        ensures
            written == self@.written,
    {
        self.written
    }

    /// The answer as it stands.
    pub fn response(&self) -> (answer: RawFilePermission)
        ensures
            answer == self@.answer(),
    {
        RawFilePermission { fd: self.fd.fd, decision: self.decision, audit: self.audit }
    }

    /// The record to write to the group at once, if the answer was not
    /// written yet. What that write returned goes to
    /// [`write_immediately`](Self::write_immediately).
    pub fn immediate_response(&self) -> (record: Option<fanotify_response>)
        ensures
            record == if self@.written {
                None
            } else {
                Some(self@.answer().spec_to_response())
            },
    {
        if self.written {
            None
        } else {
            Some(self.response().to_response())
        }
    }

    /// Takes note of a write of the answer that was made at once, given
    /// what the write returned: the number of bytes that the group took, or
    /// an error number. The result says whether the answer counts as written
    /// by this call. It does if the group took the whole record; a write of
    /// less is the error of a write that would block, and, like any error,
    /// leaves the answer unwritten. An answer that was written before stays
    /// as it is, whatever `outcome` says.
    pub fn write_immediately(&mut self, outcome: Result<usize, i32>) -> (written: Result<bool, i32>)
        ensures
            old(self)@.written ==> written == Ok::<bool, i32>(false) && final(self)@ == old(self)@,
            !old(self)@.written ==> match spec_immediate_outcome(outcome) {
                Ok(_) => written == Ok::<bool, i32>(true) && final(self)@ == old(self)@.answered(),
                Err(errno) => written == Err::<bool, i32>(errno) && final(self)@ == old(self)@,
            },
    {
        if self.written {
            return Ok(false);
        }
        match immediate_outcome(outcome) {
            Ok(_) => {
                self.written = true;
                Ok(true)
            },
            Err(errno) => Err(errno),
        }
    }

    /// Puts the answer into the buffer, from where it is written to the
    /// group later. The result says whether this call did so: an answer is
    /// written once, and a second call changes nothing.
    pub fn write_buffered(&mut self, responses: &mut ResponseBuffer) -> (written: bool)
        ensures
            written == !old(self)@.written,
            final(self)@ == old(self)@.answered(),
            final(responses)@ == old(self)@.buffer_after_write(old(responses)@),
    {
        if self.written {
            return false;
        }
        let record = self.response().to_response();
        responses.add(&record);
        self.written = true;
        true
    }

    /// Lets go of the request. If its answer was never written, it is put
    /// into the buffer now, so that no request stays unanswered.
    pub fn finish(self, responses: &mut ResponseBuffer)
        ensures
            final(responses)@ == self@.buffer_after_write(old(responses)@),
    {
        let mut this = self;
        this.write_buffered(responses);
    }
}

/// A request that nobody decided on is answered, when it is let go of, by
/// exactly one record: it allows, names the request's descriptor, and asks
/// for no audit.
pub proof fn lemma_unanswered_is_allowed(fd: FD, buffer: Seq<u8>)
    ensures
        FilePermissionView::fresh(fd).buffer_after_write(buffer) == buffer + (fanotify_response {
            fd: fd.fd,
            response: FAN_ALLOW,
        }).spec_bytes(),
        crate::event::responses::spec_responses(
            FilePermissionView::fresh(fd).buffer_after_write(buffer),
        ) == crate::event::responses::spec_responses(buffer).push(
            fanotify_response { fd: fd.fd, response: FAN_ALLOW },
        ),
{
    assert(1u32 | 0u32 == 1u32) by (bit_vector);
    crate::event::responses::lemma_add_response(
        buffer,
        fanotify_response { fd: fd.fd, response: FAN_ALLOW },
    );
}

/// Writing an answer a second time changes nothing: after the first write
/// the request counts as answered, and a write of an answered request
/// leaves request and buffer as they are. So a request puts one record
/// into the buffer, however often it is written.
pub proof fn lemma_second_write_changes_nothing(request: FilePermissionView, buffer: Seq<u8>)
    ensures
        request.answered().written,
        request.answered().buffer_after_write(request.buffer_after_write(buffer))
            == request.buffer_after_write(buffer),
        request.answered().answered() == request.answered(),
        !request.written ==> request.buffer_after_write(buffer).len() == buffer.len() + 8,
{
    crate::libc::lemma_response_round_trip(
        buffer,
        request.answer().spec_to_response(),
        Seq::<u8>::empty(),
    );
}

/// What a buffer holding `buffer` holds after some requests are let go
/// of, the last of them first: each request that was not answered before
/// has put its answer there.
pub open spec fn spec_buffer_after_all(requests: Seq<FilePermissionView>, buffer: Seq<u8>) -> Seq<u8>
    decreases requests.len(),
{
    if requests.len() == 0 {
        buffer
    } else {
        spec_buffer_after_all(requests.drop_last(), requests.last().buffer_after_write(buffer))
    }
}

/// How many of some requests were not answered yet.
pub open spec fn spec_unanswered(requests: Seq<FilePermissionView>) -> nat
    decreases requests.len(),
{
    if requests.len() == 0 {
        0
    } else {
        spec_unanswered(requests.drop_last()) + if requests.last().written {
            0nat
        } else {
            1nat
        }
    }
}

/// What each of some requests holds.
pub open spec fn spec_request_views(requests: Seq<FilePermission>) -> Seq<FilePermissionView> {
    Seq::new(requests.len(), |i: int| requests[i]@)
}

/// Lets go of all the requests of a read, the last of them first. Each
/// that was not answered before puts its answer into the buffer now.
pub fn finish_all(requests: Vec<FilePermission>, responses: &mut ResponseBuffer)
    ensures
        final(responses)@ == spec_buffer_after_all(spec_request_views(requests@), old(responses)@),
{
    let mut requests = requests;
    let ghost all = spec_request_views(requests@);
    while requests.len() > 0
        invariant
            spec_buffer_after_all(all, old(responses)@) == spec_buffer_after_all(
                spec_request_views(requests@),
                responses@,
            ),
        decreases requests.len(),
    {
        let ghost before = spec_request_views(requests@);
        let request = requests.pop().unwrap();
        assert(spec_request_views(requests@) =~= before.drop_last());
        assert(before.last() == request@);
        request.finish(responses);
    }
}

/// Letting go of some requests puts exactly one answer of eight bytes into
/// the buffer for each of them that was not answered before, and takes
/// nothing out of it.
pub proof fn lemma_one_answer_each(requests: Seq<FilePermissionView>, buffer: Seq<u8>)
    ensures
        spec_buffer_after_all(requests, buffer).len() == buffer.len() + 8 * spec_unanswered(
            requests,
        ),
        spec_buffer_after_all(requests, buffer).subrange(0, buffer.len() as int) == buffer,
    decreases requests.len(),
{
    if requests.len() == 0 {
        assert(buffer.subrange(0, buffer.len() as int) =~= buffer);
    } else {
        let last = requests.last();
        let next = last.buffer_after_write(buffer);
        crate::libc::lemma_response_round_trip(
            buffer,
            last.answer().spec_to_response(),
            Seq::<u8>::empty(),
        );
        lemma_one_answer_each(requests.drop_last(), next);
        let after = spec_buffer_after_all(requests.drop_last(), next);
        assert(next.subrange(0, buffer.len() as int) =~= buffer);
        assert(after.subrange(0, buffer.len() as int) =~= after.subrange(
            0,
            next.len() as int,
        ).subrange(0, buffer.len() as int));
    }
}

/// What an event is about.
#[derive(Debug, Eq, PartialEq, Hash)]
pub enum File<'a> {
    FD(FileFD),
    FID(FileFID<'a>),
    Permission(FilePermission),
}

/// What a [`File`] holds.
pub enum FileView {
    FD(FileFD),
    FID(FileFIDView),
    Permission(FilePermissionView),
}

impl<'a> View for File<'a> {
    type V = FileView;

    open spec fn view(&self) -> FileView {
        match self {
            File::FD(file) => FileView::FD(*file),
            File::FID(file) => FileView::FID(file@),
            File::Permission(file) => FileView::Permission(file@),
        }
    }
}

impl<'a> File<'a> {
    /// The name of the variant: `fd`, `fid` or `permission`.
    pub fn variant_name(&self) -> (name: &'static str)
        ensures
            name@ == match self@ {
                FileView::FD(_) => "fd"@,
                FileView::FID(_) => "fid"@,
                FileView::Permission(_) => "permission"@,
            },
    {
        match self {
            File::FD(_) => "fd",
            File::FID(_) => "fid",
            File::Permission(_) => "permission",
        }
    }

    /// The open file, if the event is about one.
    pub fn fd(self) -> (file: Option<FileFD>)
        ensures
            match self@ {
                FileView::FD(inner) => file == Some(inner),
                _ => file is None,
            },
    {
        match self {
            File::FD(file) => Some(file),
            _ => None,
        }
    }

    /// The identified file, if the event is about one.
    pub fn fid(self) -> (file: Option<FileFID<'a>>)
        ensures
            match self@ {
                FileView::FID(inner) => file is Some && file->Some_0@ == inner,
                _ => file is None,
            },
    {
        match self {
            File::FID(file) => Some(file),
            _ => None,
        }
    }

    /// The request for a permission, if the event is one.
    pub fn permission(self) -> (file: Option<FilePermission>)
        ensures
            match self@ {
                FileView::Permission(inner) => file is Some && file->Some_0@ == inner,
                _ => file is None,
            },
    {
        match self {
            File::Permission(file) => Some(file),
            _ => None,
        }
    }

    /// The descriptor that came with the event, if one did.
    pub fn descriptor(&self) -> (fd: Option<FD>)
        ensures
            fd == match self@ {
                FileView::FD(inner) => Some(inner.fd),
                FileView::FID(_) => None::<FD>,
                FileView::Permission(inner) => Some(inner.fd),
            },
    {
        match self {
            File::FD(file) => Some(file.fd),
            File::FID(_) => None,
            File::Permission(file) => Some(*file.fd()),
        }
    }
}

} // verus!

//! The answers to permission events that wait to be written to the group.

use vstd::prelude::*;
use crate::event::file::RawFilePermission;
use crate::libc::fanotify_response;
use crate::libc::lemma_response_round_trip;
use crate::libc::EAGAIN;
use crate::libc::RESPONSE_SIZE;

verus! {

/// The bytes of the answers that were not yet written to the group.
///
/// Answers are appended whole. Writing takes bytes from the front, and may
/// stop in the middle of an answer; what then remains is the rest of that
/// answer, followed by whole answers.
#[derive(Debug, Clone, Eq, PartialEq, Hash)]
pub struct ResponseBuffer {
    pub buffer: Vec<u8>,
}

impl View for ResponseBuffer {
    type V = Seq<u8>;

    open spec fn view(&self) -> Seq<u8> {
        self.buffer@
    }
}

/// The whole answers at the end of `bytes`: as many as fit, the last one
/// ending where the bytes end.
pub open spec fn spec_responses(bytes: Seq<u8>) -> Seq<fanotify_response> {
    Seq::new(bytes.len() / 8, |i: int| spec_response_at(bytes, i))
}

/// The whole answer at the end of `bytes` that has `i` whole answers before it.
pub open spec fn spec_response_at(bytes: Seq<u8>, i: int) -> fanotify_response {
    fanotify_response::spec_parse(bytes, bytes.len() % 8 + 8 * i)
}

impl ResponseBuffer {
    /// An empty buffer that reuses the memory of `buffer`.
    pub fn new(buffer: Vec<u8>) -> (this: Self)
        ensures
            this@ == Seq::<u8>::empty(),
    {
        let mut buffer = buffer;
        buffer.clear();
        ResponseBuffer { buffer }
    }

    pub open spec fn spec_is_empty(&self) -> bool {
        self@.len() == 0
    }

    #[verifier::when_used_as_spec(spec_is_empty)]
    pub fn is_empty(&self) -> (empty: bool)
        ensures
            empty == (self@.len() == 0),
    {
        self.buffer.len() == 0
    }

    /// Whether bytes are left to be written.
    pub fn has_more(&self) -> (more: bool)
        ensures
            more == (self@.len() != 0),
    {
        !self.is_empty()
    }

    /// Appends an answer.
    pub fn add(&mut self, response: &fanotify_response)
        ensures
            final(self)@ == old(self)@ + response.spec_bytes(),
            spec_responses(final(self)@) == spec_responses(old(self)@).push(*response),
    {
        response.write_to(&mut self.buffer);
        proof {
            lemma_add_response(old(self)@, *response);
        }
    }

    /// The bytes that are to be written to the group next.
    pub fn as_bytes(&self) -> (bytes: &[u8])
        ensures
            bytes@ == self@,
    {
        self.buffer.as_slice()
    }

    /// Takes note of what a write of [`as_bytes`](Self::as_bytes) to the
    /// group returned: the bytes that the group took leave the buffer, from
    /// the front; after an error the buffer stays as it is. The outcome is
    /// handed on. Called again and again while there
    /// [is more](Self::has_more), this empties the buffer.
    pub fn write(&mut self, outcome: Result<usize, i32>) -> (written: Result<usize, i32>)
        requires
            outcome is Ok ==> outcome->Ok_0 <= old(self)@.len(),
        ensures
            written == outcome,
            final(self)@ == match outcome {
                Ok(bytes_written) => old(self)@.skip(bytes_written as int),
                Err(_) => old(self)@,
            },
    {
        match outcome {
            Ok(bytes_written) => {
                let rest = self.buffer.split_off(bytes_written);
                self.buffer = rest;
                assert(self@ =~= old(self)@.skip(bytes_written as int));
                Ok(bytes_written)
            },
            Err(errno) => Err(errno),
        }
    }

    /// The whole answers at the end of the buffer, each as what it says:
    /// a decision on a descriptor, or nothing that makes sense.
    pub fn answers(&self) -> (answers: Vec<Result<RawFilePermission, ()>>)
        ensures
            answers@ == spec_responses(self@).map_values(
                |response: fanotify_response| RawFilePermission::spec_try_from(&response),
            ),
    {
        let responses = self.responses();
        let mut answers: Vec<Result<RawFilePermission, ()>> = Vec::new();
        let mut i: usize = 0;
        while i < responses.len()
            invariant
                responses@ == spec_responses(self@),
                i <= responses@.len(),
                answers@.len() == i,
                forall|k: int|
                    0 <= k < i ==> #[trigger] answers@[k] == RawFilePermission::spec_try_from(
                        &responses@[k],
                    ),
            decreases responses@.len() - i,
        {
            answers.push(RawFilePermission::try_from(&responses[i]));
            i += 1;
        }
        assert(answers@ =~= spec_responses(self@).map_values(
            |response: fanotify_response| RawFilePermission::spec_try_from(&response),
        ));
        answers
    }

    /// The whole answers at the end of the buffer.
    pub fn responses(&self) -> (responses: Vec<fanotify_response>)
        ensures
            responses@ == spec_responses(self@),
    {
        let bytes = self.buffer.as_slice();
        let offset: usize = bytes.len() % RESPONSE_SIZE;
        let count: usize = bytes.len() / RESPONSE_SIZE;
        let mut responses: Vec<fanotify_response> = Vec::new();
        let mut i: usize = 0;
        while i < count
            invariant
                bytes@ == self@,
                offset == bytes@.len() % 8,
                count == bytes@.len() / 8,
                i <= count,
                responses@.len() == i,
                forall|k: int| 0 <= k < i ==> #[trigger] responses@[k] == spec_response_at(self@, k),
            decreases count - i,
        {
            assert(offset + 8 * count == bytes@.len() && bytes@.len() == bytes.len());
            assert(offset + 8 * i + 8 <= bytes@.len());
            let response = fanotify_response::parse(bytes, offset + RESPONSE_SIZE * i);
            responses.push(response);
            i += 1;
        }
        assert(responses@ =~= spec_responses(self@));
        responses
    }
}

/// What a write of one answer, made at once, comes to: an answer is small
/// enough to be taken whole, so fewer bytes than its size count as a write
/// that would have blocked.
pub open spec fn spec_immediate_outcome(outcome: Result<usize, i32>) -> Result<(), i32> {
    match outcome {
        Ok(bytes_written) => if bytes_written < RESPONSE_SIZE {
            Err(EAGAIN)
        } else {
            Ok(())
        },
        Err(errno) => Err(errno),
    }
}

/// Judges what a write of one answer returned: the number of bytes
/// written, or an error number.
pub fn immediate_outcome(outcome: Result<usize, i32>) -> (judged: Result<(), i32>)
    ensures
        judged == spec_immediate_outcome(outcome),
{
    match outcome {
        Ok(bytes_written) => if bytes_written < RESPONSE_SIZE {
            Err(EAGAIN)
        } else {
            Ok(())
        },
        Err(errno) => Err(errno),
    }
}

/// After an answer is appended, the whole answers at the end are those
/// from before and the new one.
pub proof fn lemma_add_response(bytes: Seq<u8>, response: fanotify_response)
    ensures
        spec_responses(bytes + response.spec_bytes()) == spec_responses(bytes).push(response),
{
    let after = bytes + response.spec_bytes();
    lemma_response_round_trip(bytes, response, Seq::<u8>::empty());
    assert(after =~= bytes + response.spec_bytes() + Seq::<u8>::empty());
    let offset = bytes.len() % 8;
    let count = bytes.len() / 8;
    assert(after.len() == bytes.len() + 8);
    assert(after.len() % 8 == offset);
    assert(after.len() / 8 == count + 1);
    assert(offset + 8 * count == bytes.len());
    assert forall|i: int| 0 <= i < count implies #[trigger] spec_response_at(after, i)
        == spec_response_at(bytes, i) by {
        let at = offset + 8 * i;
        assert(at + 8 <= bytes.len());
        assert(after[at + 0] == bytes[at + 0]);
        assert(after[at + 1] == bytes[at + 1]);
        assert(after[at + 2] == bytes[at + 2]);
        assert(after[at + 3] == bytes[at + 3]);
        assert(after[at + 4] == bytes[at + 4]);
        assert(after[at + 5] == bytes[at + 5]);
        assert(after[at + 6] == bytes[at + 6]);
        assert(after[at + 7] == bytes[at + 7]);
    }
    assert(spec_responses(after) =~= spec_responses(bytes).push(response));
}

/// After bytes were taken from the front, the whole answers at the end are
/// the last of those from before: taking bytes changes no answer that is
/// still whole.
pub proof fn lemma_write_keeps_responses(bytes: Seq<u8>, bytes_written: int)
    requires
        0 <= bytes_written <= bytes.len(),
    ensures
        spec_responses(bytes.skip(bytes_written)).len() <= spec_responses(bytes).len(),
        spec_responses(bytes.skip(bytes_written)) == spec_responses(bytes).skip(
            spec_responses(bytes).len() - spec_responses(bytes.skip(bytes_written)).len(),
        ),
{
    let rest = bytes.skip(bytes_written);
    let before = spec_responses(bytes);
    let after = spec_responses(rest);
    let dropped = before.len() - after.len();
    assert(rest.len() == bytes.len() - bytes_written);
    assert(after.len() <= before.len());
    assert(rest.len() % 8 + 8 * (rest.len() / 8) == rest.len());
    assert(bytes.len() % 8 + 8 * (bytes.len() / 8) == bytes.len());
    assert forall|i: int| 0 <= i < after.len() implies #[trigger] spec_response_at(rest, i)
        == spec_response_at(bytes, dropped + i) by {
        let at = rest.len() % 8 + 8 * i;
        assert(bytes.len() % 8 + 8 * (dropped + i) == bytes_written + at);
        assert(rest[at + 0] == bytes[bytes_written + at + 0]);
        assert(rest[at + 1] == bytes[bytes_written + at + 1]);
        assert(rest[at + 2] == bytes[bytes_written + at + 2]);
        assert(rest[at + 3] == bytes[bytes_written + at + 3]);
        assert(rest[at + 4] == bytes[bytes_written + at + 4]);
        assert(rest[at + 5] == bytes[bytes_written + at + 5]);
        assert(rest[at + 6] == bytes[bytes_written + at + 6]);
        assert(rest[at + 7] == bytes[bytes_written + at + 7]);
    }
    assert(after =~= before.skip(dropped));
}

} // verus!

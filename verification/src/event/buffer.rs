//! The memory that reads from a group and answers to it go through.

use vstd::prelude::*;
use crate::event::responses::ResponseBuffer;

verus! {

/// The bytes of one read from a group, and the answers to its permission
/// events that wait to be written. One buffer serves read after read: each
/// read replaces the events of the one before.
#[derive(Debug, Clone, Eq, PartialEq, Hash)]
pub struct EventBuffer {
    pub events: Vec<u8>,
    pub responses: ResponseBuffer,
}

impl EventBuffer {
    /// Forgets the events and the answers.
    pub fn clear(&mut self)
        ensures
            final(self).events@ == Seq::<u8>::empty(),
            final(self).responses@ == Seq::<u8>::empty(),
    {
        self.events.clear();
        self.responses.buffer.clear();
    }

    /// Gives back the memory that holds nothing. The content stays.
    pub fn shrink_to_fit(&mut self)
        ensures
            final(self).events@ == old(self).events@,
            final(self).responses@ == old(self).responses@,
    {
        shrink(&mut self.events);
        shrink(&mut self.responses.buffer);
    }

    /// Makes room for more bytes. The content stays.
    pub fn reserve(&mut self, additional: EventBufferSize)
        ensures
            final(self).events@ == old(self).events@,
            final(self).responses@ == old(self).responses@,
    {
        self.events.reserve(additional.events);
        self.responses.buffer.reserve(additional.responses);
    }

    /// Makes the buffer ready for a read of up to `size` bytes: the events
    /// of the read before give way to `size` bytes for the new read to
    /// fill, and the answers of the read before are forgotten.
    pub fn start_read(&mut self, size: usize)
        ensures
            final(self).events@ == Seq::new(size as nat, |i: int| 0u8),
            final(self).responses@ == Seq::<u8>::empty(),
    {
        self.events.clear();
        self.events.resize(size, 0u8);
        self.responses.buffer.clear();
        assert(self.events@ =~= Seq::new(size as nat, |i: int| 0u8));
    }

    /// Takes note that a read filled the first `bytes_read` bytes: they are
    /// the events now.
    pub fn finish_read(&mut self, bytes_read: usize)
        requires
            bytes_read <= old(self).events@.len(),
        ensures
            final(self).events@ == old(self).events@.take(bytes_read as int),
            final(self).responses@ == old(self).responses@,
    {
        self.events.truncate(bytes_read);
        assert(self.events@ =~= old(self).events@.take(bytes_read as int));
    }

    /// Forgets the content and makes room for as many bytes as `capacities` says.
    pub fn set_capacity(&mut self, capacities: EventBufferSize)
        ensures
            final(self).events@ == Seq::<u8>::empty(),
            final(self).responses@ == Seq::<u8>::empty(),
    {
        self.clear();
        self.reserve(capacities);
    }
}

/// `Vec::shrink_to_fit`: the capacity may drop, the content stays as it is.
#[verifier::external_body]
fn shrink(bytes: &mut Vec<u8>)
    ensures
        final(bytes)@ == old(bytes)@,
{
    bytes.shrink_to_fit();
}

/// How many bytes the two parts of an [`EventBuffer`] have room for.
#[derive(Debug, Copy, Clone, Eq, PartialEq, Hash, Structural)]
pub struct EventBufferSize {
    pub events: usize,
    pub responses: usize,
}

impl Default for EventBufferSize {
    fn default() -> (size: Self)
        ensures
            size == (EventBufferSize { events: 4096, responses: 0 }),
    {
        EventBufferSize { events: 4096, responses: 0 }
    }
}

impl EventBufferSize {
    /// An empty buffer with room for as many bytes as this says.
    pub fn new_buffer(&self) -> (buffer: EventBuffer)
        ensures
            buffer.events@ == Seq::<u8>::empty(),
            buffer.responses@ == Seq::<u8>::empty(),
    {
        EventBuffer {
            events: Vec::with_capacity(self.events),
            responses: ResponseBuffer::new(Vec::with_capacity(self.responses)),
        }
    }
}

} // verus!

//! The transmit queue: 256 bytes between the USB side and the UART side.
//!
//! The queue itself is `bbqueue`'s bip buffer. Verus sees none of its
//! insides; what this module states about it is taken from its source and is
//! not proved here. No grant outlives the function that asked for it, so no
//! call finds a grant in progress, and none of the calls panics.

use vstd::prelude::*;

verus! {

/// Bytes of backing storage.
pub const TX_QUEUE_SIZE: usize = 256;

/// Both halves of one split `bbqueue::BBBuffer`. They share the buffer, so
/// they are kept as one value: whatever changes the buffer takes the pair by
/// `&mut`.
#[verifier::external_body]
pub struct TxQueue {
    producer: bbqueue::Producer<'static, bbqueue::consts::U256>,
    consumer: bbqueue::Consumer<'static, bbqueue::consts::U256>,
}

/// The bytes that are committed and not yet released, oldest first.
pub uninterp spec fn queue_bytes(q: TxQueue) -> Seq<u8>;

/// Length of the contiguous run of bytes that `Consumer::read` grants next;
/// zero when it would grant nothing.
pub uninterp spec fn queue_region(q: TxQueue) -> nat;

/// Size of the largest contiguous write grant that the buffer can give now;
/// zero when it can give none.
pub uninterp spec fn queue_room(q: TxQueue) -> nat;

/// The contiguous run of bytes at the head of the queue.
#[derive(Clone, Copy, Debug)]
pub struct TxRegion {
    /// Where the run starts in memory.
    pub address: usize,
    /// Number of bytes in the run.
    pub len: usize,
    /// First byte of the run.
    pub first: u8,
}

impl TxQueue {
    /// What holds of every queue: the next read grant is a prefix of the
    /// queued bytes, and it is empty only when nothing is queued.
    pub open spec fn valid(self) -> bool {
        &&& queue_region(self) <= queue_bytes(self).len()
        &&& queue_bytes(self).len() > 0 ==> queue_region(self) > 0
    }

    /// `BBBuffer::try_split` on a buffer made for this queue, which lives as
    /// long as the program. A buffer that was never split holds nothing, has
    /// nothing to read, and grants from its start: up to all 256 bytes.
    #[verifier::external_body]
    pub(crate) fn new() -> (q: Self)
        ensures
            queue_bytes(q) == Seq::<u8>::empty(),
            queue_region(q) == 0,
            queue_room(q) == TX_QUEUE_SIZE,
            q.valid(),
    {
        let buffer: &'static bbqueue::BBBuffer<bbqueue::consts::U256> =
            Box::leak(Box::new(bbqueue::BBBuffer(bbqueue::ConstBBBuffer::new())));
        let (producer, consumer) = buffer.try_split().unwrap();
        TxQueue { producer, consumer }
    }

    /// `Producer::grant_max_remaining(max)`, then the length of the grant's
    /// buffer. The grant is the smaller of `max` and the room, or an error when
    /// there is no room. It is dropped with nothing committed, which leaves the
    /// queued bytes, the next read grant and the room as they were.
    #[verifier::external_body]
    pub(crate) fn grant_len(&mut self, max: usize) -> (n: Option<usize>)
        ensures
            n matches Some(len) ==> queue_room(*old(self)) > 0 && len == if max <= queue_room(
                *old(self),
            ) {
                max as nat
            } else {
                queue_room(*old(self))
            },
            n is None ==> queue_room(*old(self)) == 0,
            queue_bytes(*final(self)) == queue_bytes(*old(self)),
            queue_region(*final(self)) == queue_region(*old(self)),
            queue_room(*final(self)) == queue_room(*old(self)),
        no_unwind
    {
        match self.producer.grant_max_remaining(max) {
            Ok(mut grant) => Some(grant.buf().len()),
            Err(_) => None,
        }
    }

    /// `Producer::grant_max_remaining(data.len())`, `copy_from_slice` into the
    /// grant's buffer, and `GrantW::commit` of all of it. With room for `data`
    /// the grant has exactly its length. The committed bytes join the queue at
    /// its back, and the next read grant starts where it did and is no shorter.
    #[verifier::external_body]
    pub(crate) fn push(&mut self, data: &[u8])
        requires
            data@.len() <= queue_room(*old(self)),
        ensures
            queue_bytes(*final(self)) == queue_bytes(*old(self)) + data@,
            queue_region(*final(self)) >= queue_region(*old(self)),
            final(self).valid(),
        no_unwind
    {
        if let Ok(mut grant) = self.producer.grant_max_remaining(data.len()) {
            grant.buf().copy_from_slice(data);
            grant.commit(data.len());
        }
    }

    /// `Consumer::read`, then where the grant's buffer lies, how long it is and
    /// its first byte. The grant is dropped with nothing released, which
    /// leaves the queued bytes and the next read grant as they were. An empty
    /// queue gives an error and no grant. Nothing is said of the room: a read
    /// that moves on to the start of the buffer changes it.
    #[verifier::external_body]
    pub(crate) fn region(&mut self) -> (r: Option<TxRegion>)
        ensures
            r matches Some(run) ==> run.len == queue_region(*old(self)) && run.len > 0 && run.len
                <= queue_bytes(*old(self)).len() && run.first == queue_bytes(*old(self))[0],
            r is None ==> queue_region(*old(self)) == 0,
            queue_bytes(*final(self)) == queue_bytes(*old(self)),
            queue_region(*final(self)) == queue_region(*old(self)),
        no_unwind
    {
        match self.consumer.read() {
            Ok(grant) => Some(
                TxRegion {
                    address: grant.buf().as_ptr() as usize,
                    len: grant.buf().len(),
                    first: grant.buf()[0],
                },
            ),
            Err(_) => None,
        }
    }

    /// `Consumer::read`, then `GrantR::release(n)`, which releases `n` bytes
    /// or the whole grant if that is shorter. The released bytes leave the
    /// queue at its front. On an empty queue nothing happens. Nothing is said
    /// of the room.
    #[verifier::external_body]
    pub(crate) fn release(&mut self, n: usize)
        ensures
            queue_bytes(*final(self)) == queue_bytes(*old(self)).skip(
                if n <= queue_region(*old(self)) {
                    n as int
                } else {
                    queue_region(*old(self)) as int
                },
            ),
            final(self).valid(),
        no_unwind
    {
        if let Ok(grant) = self.consumer.read() {
            grant.release(n);
        }
    }
}

} // verus!

use vstd::prelude::*;

use crate::UdpAddr;
use crate::UdpDatagram;

verus! {

/// Fixed capacity of the reusable receive buffer.  A datagram larger than
/// this is silently truncated to the first `MAX_MESSAGE_LENGTH` bytes by the
/// underlying receive call; the excess is discarded.  This is a documented
/// limitation of the layer, not detected or reported to the consumer.
pub const MAX_MESSAGE_LENGTH: usize = 1024;

/// What one non-blocking receive attempt on the underlying socket reported.
pub enum RecvEvent<E> {
    /// The socket would block; no datagram has arrived yet.
    NotReady,
    /// A datagram arrived: its first `length` bytes now sit in the receive
    /// buffer's prefix, and it came from `peer`.
    Ready { length: usize, peer: UdpAddr },
    /// The receive failed with a hard error.
    Failed(E),
}

/// What one demand for the next element of the incoming stream produces.
pub enum RecvPoll<E> {
    /// Nothing yet: the demand is to be retried once the socket is readable.
    Pending,
    /// The next inbound datagram, with a freshly allocated payload.
    Received(UdpDatagram),
    /// A hard receive error, surfaced once; it ends this traversal.
    Failed(E),
}

/// The bytes of an inbound `payload` that land in a receive buffer of the
/// given capacity: the whole payload if it fits, else only its first
/// `capacity` bytes — the rest is silently discarded.
pub open spec fn received_prefix(payload: Seq<u8>, capacity: int) -> Seq<u8> {
    if payload.len() <= capacity {
        payload
    } else {
        payload.take(capacity)
    }
}

/// A stream of incoming UDP datagrams.
///
/// It owns the reusable receive buffer: every receive attempt writes into
/// the same fixed-capacity buffer, and only a successful attempt copies the
/// received bytes out into a freshly allocated datagram payload.
#[derive(Debug)]
pub struct Incoming {
    /// The reusable receive buffer.  Its prefix holds the bytes of the most
    /// recently received datagram, up to the reported length; it is
    /// overwritten by the next attempt.
    pub buffer: Vec<u8>,
}

impl Incoming {
    /// A fresh stream with a zeroed receive buffer of full capacity.
    pub(crate) fn new() -> (s: Self)
        ensures
            s.buffer@.len() == MAX_MESSAGE_LENGTH,
            forall|i: int| 0 <= i < s.buffer@.len() ==> s.buffer@[i] == 0u8,
    {
        let mut buffer: Vec<u8> = Vec::new();
        while buffer.len() < MAX_MESSAGE_LENGTH
            invariant
                buffer@.len() <= MAX_MESSAGE_LENGTH,
                forall|i: int| 0 <= i < buffer@.len() ==> buffer@[i] == 0u8,
            decreases MAX_MESSAGE_LENGTH - buffer.len(),
        {
            buffer.push(0u8);
        }
        Incoming { buffer }
    }

    /// How many bytes of an inbound datagram this stream can hold.
    pub fn capacity(&self) -> (c: usize)
        ensures
            c == self.buffer@.len(),
    {
        self.buffer.len()
    }

    /// Models the underlying socket writing one inbound datagram into the
    /// reusable buffer: the payload fills the buffer's prefix, truncated to
    /// the buffer's capacity, the rest of the buffer keeps its old bytes,
    /// and the reported length is how many bytes were written.
    pub fn deliver(&mut self, payload: &[u8]) -> (length: usize)
        ensures
            final(self).buffer@.len() == old(self).buffer@.len(),
            length == received_prefix(payload@, old(self).buffer@.len() as int).len(),
            final(self).buffer@.take(length as int)
                == received_prefix(payload@, old(self).buffer@.len() as int),
            final(self).buffer@.skip(length as int) == old(self).buffer@.skip(length as int),
    {
        let cap = self.buffer.len();
        let length = if payload.len() <= cap {
            payload.len()
        } else {
            cap
        };
        let mut i: usize = 0;
        while i < length
            invariant
                i <= length,
                length <= self.buffer@.len(),
                length <= payload@.len(),
                self.buffer@.len() == old(self).buffer@.len(),
                forall|j: int| 0 <= j < i ==> self.buffer@[j] == payload@[j],
                forall|j: int| i <= j < self.buffer@.len()
                    ==> self.buffer@[j] == old(self).buffer@[j],
            decreases length - i,
        {
            self.buffer[i] = payload[i];
            i = i + 1;
        }
        proof {
            assert(self.buffer@.take(length as int)
                =~= received_prefix(payload@, old(self).buffer@.len() as int));
            assert(self.buffer@.skip(length as int) =~= old(self).buffer@.skip(length as int));
        }
        length
    }

    /// Copies the first `length` bytes of the receive buffer into a freshly
    /// allocated payload and pairs it with the reported source address.
    pub fn datagram_from(&self, length: usize, peer: UdpAddr) -> (d: UdpDatagram)
        requires
            length <= self.buffer@.len(),
        ensures
            d.peer == peer,
            d.data@ == self.buffer@.take(length as int),
    {
        let mut data: Vec<u8> = Vec::new();
        let mut i: usize = 0;
        while i < length
            invariant
                i <= length,
                length <= self.buffer@.len(),
                data@ == self.buffer@.take(i as int),
            decreases length - i,
        {
            let b = self.buffer[i];
            data.push(b);
            proof {
                assert(self.buffer@.take(i + 1 as int)
                    =~= self.buffer@.take(i as int).push(b));
            }
            i = i + 1;
        }
        UdpDatagram { peer, data }
    }

    /// One demand for the next element of the stream, given what the
    /// receive attempt against the underlying socket reported: would-block
    /// leaves the demand pending, a received datagram is copied out of the
    /// buffer and yielded together with its source address, and a hard
    /// error is surfaced unchanged.
    pub fn poll_step<E>(&self, event: RecvEvent<E>) -> (r: RecvPoll<E>)
        requires
            event matches RecvEvent::Ready { length, peer } ==> length <= self.buffer@.len(),
        ensures
            match event {
                RecvEvent::NotReady => r is Pending,
                RecvEvent::Ready { length, peer } => r matches RecvPoll::Received(d)
                    && d.peer == peer
                    && d.data@ == self.buffer@.take(length as int),
                RecvEvent::Failed(e) => r == RecvPoll::<E>::Failed(e),
            },
    {
        match event {
            RecvEvent::NotReady => RecvPoll::Pending,
            RecvEvent::Ready { length, peer } => {
                RecvPoll::Received(self.datagram_from(length, peer))
            },
            RecvEvent::Failed(e) => RecvPoll::Failed(e),
        }
    }
}

/// A fresh, independent traversal of the socket's inbound datagrams, with
/// its own zeroed receive buffer of full capacity.  Creating one never
/// fails; every traversal multiplexes over the same underlying socket.
pub fn incoming() -> (s: Incoming)
    ensures
        s.buffer@.len() == MAX_MESSAGE_LENGTH,
        forall|i: int| 0 <= i < s.buffer@.len() ==> s.buffer@[i] == 0u8,
{
    Incoming::new()
}

/// Round-trip identity: a payload no longer than the receive capacity is
/// reproduced exactly by a receive into that buffer — nothing is lost,
/// nothing is added.
pub proof fn lemma_round_trip_identity(payload: Seq<u8>, capacity: int)
    requires
        payload.len() <= capacity,
    ensures
        received_prefix(payload, capacity) == payload,
{
}

/// Silent truncation: a payload longer than the receive capacity is cut to
/// exactly `capacity` bytes, and those are its first `capacity` bytes.
pub proof fn lemma_truncation(payload: Seq<u8>, capacity: int)
    requires
        0 <= capacity < payload.len(),
    ensures
        received_prefix(payload, capacity).len() == capacity,
        received_prefix(payload, capacity) == payload.take(capacity),
{
}

} // verus!

use vstd::prelude::*;

use crate::UdpAddr;
use crate::UdpDatagram;
use crate::UdpError;

verus! {

/// What one non-blocking send attempt on the underlying socket reported.
pub enum SendEvent<E> {
    /// The socket would block; the datagram was not handed to the OS.
    NotReady,
    /// The OS accepted the datagram for transmission and reports how many
    /// bytes it wrote.  Datagram sends are atomic, so the count is not
    /// inspected further.
    Ready(usize),
    /// The send failed with a hard error.
    Failed(E),
}

/// What one demand to progress a send operation produces.
pub enum SendPoll<E> {
    /// Not sent yet: the demand is to be retried once the socket is
    /// writable.
    Pending,
    /// The datagram was accepted for transmission; the operation is over.
    Sent,
    /// A hard send error, surfaced once; the operation is over.
    Failed(E),
}

/// A one-shot asynchronous send of raw bytes to an explicit destination.
///
/// It resolves exactly once, to success or to an I/O failure, and must not
/// be progressed after that.  The bytes themselves stay with the caller,
/// who hands them to every underlying send attempt unchanged.
#[derive(Debug)]
pub struct SendTo {
    addr: UdpAddr,
    resolved: bool,
}

impl SendTo {
    /// The destination: the first address the given specification resolved
    /// to.
    pub closed spec fn addr(&self) -> UdpAddr {
        self.addr
    }

    /// Whether the operation has already resolved, to success or failure.
    pub closed spec fn is_resolved(&self) -> bool {
        self.resolved
    }

    pub(crate) fn new(addr: UdpAddr) -> (s: Self)
        ensures
            s.addr() == addr,
            !s.is_resolved(),
    {
        SendTo { addr, resolved: false }
    }

    /// The destination address every send attempt targets.
    pub fn target(&self) -> (a: UdpAddr)
        ensures
            a == self.addr(),
    {
        self.addr
    }

    /// Whether the operation has already resolved, to success or failure.
    pub fn resolved(&self) -> (r: bool)
        ensures
            r == self.is_resolved(),
    {
        self.resolved
    }

    /// One demand to progress the send, given what the send attempt against
    /// the underlying socket reported: would-block leaves the operation
    /// pending and unresolved, acceptance resolves it successfully, and a
    /// hard error resolves it with that error, passed through unchanged.
    pub fn poll_step<E>(&mut self, event: SendEvent<E>) -> (r: SendPoll<E>)
        requires
            !old(self).is_resolved(),
        ensures
            final(self).addr() == old(self).addr(),
            match event {
                SendEvent::NotReady => r is Pending && !final(self).is_resolved(),
                SendEvent::Ready(n) => r is Sent && final(self).is_resolved(),
                SendEvent::Failed(e) => r == SendPoll::<E>::Failed(e)
                    && final(self).is_resolved(),
            },
    {
        match event {
            SendEvent::NotReady => SendPoll::Pending,
            SendEvent::Ready(_) => {
                self.resolved = true;
                SendPoll::Sent
            },
            SendEvent::Failed(e) => {
                self.resolved = true;
                SendPoll::Failed(e)
            },
        }
    }
}

/// A one-shot asynchronous send of a pre-built datagram to the peer it
/// carries.
///
/// It resolves exactly once, to success or to an I/O failure, and must not
/// be progressed after that.
#[derive(Debug)]
pub struct Send {
    datagram: UdpDatagram,
    resolved: bool,
}

impl Send {
    /// The datagram to transmit; its `peer` is the destination.
    pub closed spec fn datagram(&self) -> UdpDatagram {
        self.datagram
    }

    /// Whether the operation has already resolved, to success or failure.
    pub closed spec fn is_resolved(&self) -> bool {
        self.resolved
    }

    pub(crate) fn new(datagram: UdpDatagram) -> (s: Self)
        ensures
            s.datagram() == datagram,
            !s.is_resolved(),
    {
        Send { datagram, resolved: false }
    }

    /// The datagram every send attempt hands to the underlying socket.
    pub fn datagram_ref(&self) -> (d: &UdpDatagram)
        ensures
            *d == self.datagram(),
    {
        &self.datagram
    }

    /// Whether the operation has already resolved, to success or failure.
    pub fn resolved(&self) -> (r: bool)
        ensures
            r == self.is_resolved(),
    {
        self.resolved
    }

    /// One demand to progress the send, given what the send attempt against
    /// the underlying socket reported; exactly as for [`SendTo::poll_step`].
    pub fn poll_step<E>(&mut self, event: SendEvent<E>) -> (r: SendPoll<E>)
        requires
            !old(self).is_resolved(),
        ensures
            final(self).datagram() == old(self).datagram(),
            match event {
                SendEvent::NotReady => r is Pending && !final(self).is_resolved(),
                SendEvent::Ready(n) => r is Sent && final(self).is_resolved(),
                SendEvent::Failed(e) => r == SendPoll::<E>::Failed(e)
                    && final(self).is_resolved(),
            },
    {
        match event {
            SendEvent::NotReady => SendPoll::Pending,
            SendEvent::Ready(_) => {
                self.resolved = true;
                SendPoll::Sent
            },
            SendEvent::Failed(e) => {
                self.resolved = true;
                SendPoll::Failed(e)
            },
        }
    }
}

/// The synchronous part of sending raw bytes to an address specification:
/// of the candidate addresses the specification resolved to, only the first
/// is targeted — a specification resolving to several addresses is not
/// fanned out.  If it resolved to none, this fails at once with the
/// no-addresses error and no send operation is produced.
pub fn send_to<E>(addrs: Vec<UdpAddr>) -> (r: Result<SendTo, UdpError<E>>)
    ensures
        match r {
            Ok(s) => addrs@.len() > 0 && s.addr() == addrs@[0] && !s.is_resolved(),
            Err(e) => addrs@.len() == 0 && e == UdpError::<E>::NoAddresses,
        },
{
    if addrs.len() == 0 {
        Err(UdpError::NoAddresses)
    } else {
        let mut addrs = addrs;
        let first = addrs.remove(0);
        Ok(SendTo::new(first))
    }
}

/// Starts sending a pre-built datagram to the peer it names.  Constructing
/// the operation always succeeds; the transmission itself may still fail
/// asynchronously.
pub fn send(datagram: UdpDatagram) -> (s: Send)
    ensures
        s.datagram() == datagram,
        !s.is_resolved(),
{
    Send::new(datagram)
}

} // verus!

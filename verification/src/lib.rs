//! Verified coordination core of a non-blocking UDP socket layer.
//!
//! A single bound socket is shared by a stream of inbound datagrams and by
//! any number of one-shot send operations.  The socket calls themselves
//! (bind, receive, send) and the task plumbing around them live outside this
//! crate; what is verified here is everything the layer itself decides:
//! which candidate address a bind settles on, which resolved address a send
//! targets, how received bytes are copied out of the reusable buffer into a
//! fresh datagram (including the silent truncation of oversized datagrams),
//! and the one-shot discipline of a send operation.

use vstd::prelude::*;

mod incoming;
mod send_to;

pub use incoming::Incoming;
pub use incoming::RecvEvent;
pub use incoming::RecvPoll;
pub use incoming::MAX_MESSAGE_LENGTH;
pub use incoming::incoming;
pub use incoming::received_prefix;
pub use incoming::lemma_round_trip_identity;
pub use incoming::lemma_truncation;
pub use send_to::Send;
pub use send_to::SendEvent;
pub use send_to::SendPoll;
pub use send_to::SendTo;
pub use send_to::send;
pub use send_to::send_to;

verus! {

/// The IP half of a peer address, as plain bits: the 32 bits of an IPv4
/// address or the 128 bits of an IPv6 address, in network order.
#[derive(Clone, Copy, PartialEq, Eq, Structural, Debug)]
pub enum IpRepr {
    V4(u32),
    V6(u128),
}

/// A concrete UDP endpoint: an IP address and a port.
#[derive(Clone, Copy, PartialEq, Eq, Structural, Debug)]
pub struct UdpAddr {
    pub ip: IpRepr,
    pub port: u16,
}

/// An individual UDP datagram, either having been received or to be sent
/// over a UDP socket.
#[derive(Clone, Debug, PartialEq, Eq)]
pub struct UdpDatagram {
    /// The peer for this datagram: if it was received, the source; if it is
    /// to be sent, the destination.
    pub peer: UdpAddr,
    /// The data content of the datagram.
    pub data: Vec<u8>,
}

/// An error this layer raises itself or passes through unchanged.
#[derive(Clone, Debug, PartialEq, Eq)]
pub enum UdpError<E> {
    /// An address specification resolved to zero candidate addresses; an
    /// invalid-input condition reported before any socket operation starts.
    NoAddresses,
    /// An error from the underlying socket, passed through unchanged.
    Io(E),
}

/// The result of binding, given the outcome of attempting each candidate
/// address in order: the first success wins; if every candidate fails, the
/// last failure is surfaced; if there are no candidates at all, binding
/// fails with the no-addresses error.
pub open spec fn each_addr<T, E>(results: Seq<Result<T, E>>) -> Result<T, UdpError<E>>
    decreases results.len(),
{
    if results.len() == 0 {
        Err(UdpError::NoAddresses)
    } else {
        match results[0] {
            Ok(t) => Ok(t),
            Err(e) => match each_addr(results.skip(1)) {
                Ok(t) => Ok(t),
                Err(UdpError::NoAddresses) => Err(UdpError::Io(e)),
                Err(err) => Err(err),
            },
        }
    }
}

/// Folds one remembered failure into a bind result: only the no-addresses
/// outcome is replaced by the remembered failure, if there is one.
spec fn with_last_error<T, E>(last: Option<E>, r: Result<T, UdpError<E>>) -> Result<T, UdpError<E>> {
    match r {
        Err(UdpError::NoAddresses) => match last {
            Some(e) => Err(UdpError::Io(e)),
            None => Err(UdpError::NoAddresses),
        },
        _ => r,
    }
}

/// The failure bookkeeping of a multi-candidate bind: remembers the most
/// recent failed attempt while the caller works through the candidate
/// addresses, and produces the final error once all of them are exhausted.
pub struct BindAttempts<E> {
    last_err: Option<E>,
}

impl<E> BindAttempts<E> {
    /// The most recent failure recorded so far, if any.
    pub closed spec fn last_error(&self) -> Option<E> {
        self.last_err
    }

    /// Starts a bind with no attempt made yet.
    pub fn new() -> (s: Self)
        ensures
            s.last_error() is None,
    {
        BindAttempts { last_err: None }
    }

    /// Records that one candidate address failed to bind; a later failure
    /// replaces an earlier one.
    pub fn record_failure(&mut self, err: E)
        ensures
            final(self).last_error() == Some(err),
    {
        self.last_err = Some(err);
    }

    /// The error of a bind whose candidates are exhausted: the last failure
    /// if any candidate was attempted, else the no-addresses error.
    pub fn into_error(self) -> (r: UdpError<E>)
        ensures
            r == (match self.last_error() {
                Some(e) => UdpError::Io(e),
                None => UdpError::<E>::NoAddresses,
            }),
    {
        match self.last_err {
            Some(e) => UdpError::Io(e),
            None => UdpError::NoAddresses,
        }
    }
}

/// The decision core of `bind`: given the outcome of attempting to bind a
/// socket to each candidate address, in resolution order, the overall bind
/// result.  The first success wins; on total failure the last error is
/// surfaced; with no candidates the no-addresses error is returned.
pub fn bind<T, E>(results: Vec<Result<T, E>>) -> (r: Result<T, UdpError<E>>)
    ensures
        r == each_addr(results@),
        results@.len() == 0 ==> r == Err::<T, UdpError<E>>(UdpError::NoAddresses),
{
    let mut remaining = results;
    let mut attempts: BindAttempts<E> = BindAttempts::new();
    while remaining.len() > 0
        invariant
            each_addr(results@) == with_last_error(attempts.last_error(), each_addr(remaining@)),
        decreases remaining.len(),
    {
        let ghost before = remaining@;
        let first = remaining.remove(0);
        proof {
            assert(before.remove(0) =~= before.skip(1));
        }
        match first {
            Ok(t) => {
                proof {
                    assert(each_addr(before) == Ok::<T, UdpError<E>>(t));
                }
                return Ok(t);
            },
            Err(e) => {
                proof {
                    assert(each_addr(before) == with_last_error(
                        Some(e),
                        each_addr(before.skip(1)),
                    ));
                }
                attempts.record_failure(e);
            },
        }
    }
    Err(attempts.into_error())
}

/// The first success wins: if some candidate address binds and every
/// candidate before it failed, the bind result is exactly that success,
/// whatever comes after it.
pub proof fn lemma_each_addr_first_success<T, E>(results: Seq<Result<T, E>>, i: int)
    requires
        0 <= i < results.len(),
        results[i] is Ok,
        forall|j: int| 0 <= j < i ==> results[j] is Err,
    ensures
        each_addr(results) == Ok::<T, UdpError<E>>(results[i]->Ok_0),
    decreases i,
{
    if i == 0 {
    } else {
        assert(results[0] is Err);
        lemma_each_addr_first_success::<T, E>(results.skip(1), i - 1);
        assert(results.skip(1)[i - 1] == results[i]);
    }
}

/// Total failure surfaces the last error: if every candidate address fails
/// to bind, the bind result carries the failure of the last one attempted.
pub proof fn lemma_each_addr_all_failed<T, E>(results: Seq<Result<T, E>>)
    requires
        results.len() > 0,
        forall|i: int| 0 <= i < results.len() ==> results[i] is Err,
    ensures
        each_addr(results) == Err::<T, UdpError<E>>(UdpError::Io(results.last()->Err_0)),
    decreases results.len(),
{
    assert(results[0] is Err);
    if results.len() == 1 {
        assert(each_addr(results.skip(1)) == Err::<T, UdpError<E>>(UdpError::NoAddresses));
    } else {
        assert forall|i: int| 0 <= i < results.skip(1).len() implies results.skip(1)[i] is Err by {
            assert(results.skip(1)[i] == results[i + 1]);
        }
        lemma_each_addr_all_failed::<T, E>(results.skip(1));
        assert(results.skip(1).last() == results.last());
    }
}

} // verus!

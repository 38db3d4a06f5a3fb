//! Model of the supervised listening service.
//!
//! The network listener itself is an external collaborator; what the
//! protocol relies on is modelled here: a handle on which a stop request
//! can be issued at most meaningfully once — a second request is a
//! defined no-op, never undefined behaviour — and the plain-text uptime
//! body the listener serves on every request.

use vstd::prelude::*;

verus! {

/// Outcome of issuing a stop request on a listener handle.
#[derive(Debug, Clone, Copy, PartialEq, Eq, Structural)]
pub enum StopOutcome {
    /// The listener was running; the stop request was issued.
    Requested,
    /// The listener had already been stopped; nothing was done.
    AlreadyStopped,
}

/// The protocol-visible state of a listening service handle.
pub struct ListenerControl {
    stopped: bool,
}

impl ListenerControl {
    /// Whether a stop request has already been issued.
    pub closed spec fn is_stopped(&self) -> bool {
        self.stopped
    }

    /// Whether a stop request has already been issued.
    pub fn stopped(&self) -> (r: bool)
        ensures
            r == self.is_stopped(),
    {
        self.stopped
    }

    /// The handle of a freshly started, running listener.
    pub fn started() -> (r: ListenerControl)
        ensures
            !r.is_stopped(),
    {
        ListenerControl { stopped: false }
    }

    /// Issues a stop request. Stopping an already-stopped listener is a
    /// defined no-op that reports `AlreadyStopped`; it never panics.
    pub fn request_stop(&mut self) -> (r: StopOutcome)
        ensures
            final(self).is_stopped(),
            !old(self).is_stopped() ==> r == StopOutcome::Requested,
            old(self).is_stopped() ==> r == StopOutcome::AlreadyStopped,
    {
        if self.stopped {
            StopOutcome::AlreadyStopped
        } else {
            self.stopped = true;
            StopOutcome::Requested
        }
    }
}

/// The bytes of `" Uptime: "`, the opening of the response body.
pub open spec fn uptime_prefix() -> Seq<u8> {
    seq![32u8, 85u8, 112u8, 116u8, 105u8, 109u8, 101u8, 58u8, 32u8]
}

/// The bytes of `" seconds"`, the close of the response body.
pub open spec fn uptime_suffix() -> Seq<u8> {
    seq![32u8, 115u8, 101u8, 99u8, 111u8, 110u8, 100u8, 115u8]
}

/// The decimal digits of `n`, most significant first, as ASCII bytes.
pub open spec fn dec_digits(n: nat) -> Seq<u8>
    decreases n,
{
    if n < 10 {
        seq![(48 + n) as u8]
    } else {
        dec_digits(n / 10).push((48 + n % 10) as u8)
    }
}

/// The response body for an uptime of `secs` whole seconds:
/// `" Uptime: {secs} seconds"`.
pub open spec fn uptime_message_spec(secs: u64) -> Seq<u8> {
    uptime_prefix() + dec_digits(secs as nat) + uptime_suffix()
}

fn push_decimal(v: &mut Vec<u8>, n: u64)
    ensures
        final(v)@ == old(v)@ + dec_digits(n as nat),
    decreases n,
{
    if n < 10 {
        v.push(48 + n as u8);
        proof {
            assert(v@ =~= old(v)@ + dec_digits(n as nat));
        }
    } else {
        push_decimal(v, n / 10);
        v.push(48 + (n % 10) as u8);
        proof {
            assert(v@ =~= old(v)@ + dec_digits(n as nat));
        }
    }
}

/// Builds the plain-text body the listener serves for an uptime of
/// `secs` whole seconds.
pub fn uptime_message(secs: u64) -> (r: Vec<u8>)
    ensures
        r@ == uptime_message_spec(secs),
{
    let mut out: Vec<u8> = Vec::new();
    out.push(32);
    out.push(85);
    out.push(112);
    out.push(116);
    out.push(105);
    out.push(109);
    out.push(101);
    out.push(58);
    out.push(32);
    proof {
        assert(out@ =~= uptime_prefix());
    }
    push_decimal(&mut out, secs);
    out.push(32);
    out.push(115);
    out.push(101);
    out.push(99);
    out.push(111);
    out.push(110);
    out.push(100);
    out.push(115);
    proof {
        assert(out@ =~= uptime_message_spec(secs));
    }
    out
}

} // verus!

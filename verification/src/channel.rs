//! Bounded, ordered control queues: the only communication mechanism
//! between the supervisor and its loops.
//!
//! [`ControlQueue`] models one direction of a control channel as a bounded
//! FIFO queue of signals together with a `closed` flag that records that
//! the peer endpoint has terminated. A real channel blocks in two places a
//! sequential model cannot: a blocking receive on an empty open queue
//! never returns, so [`ControlQueue::recv`] leaves that input out by
//! precondition, and a send on a full queue is reported as
//! [`SendError::Full`] rather than waiting for room.

use vstd::prelude::*;

use crate::signal::ThreadMsg;

verus! {

/// Default capacity of each direction of a control channel.
pub const CHANNEL_CAPACITY: usize = 2;

/// Error returned by a send whose queue cannot accept the signal.
#[derive(Debug, Clone, Copy, PartialEq, Eq, Structural)]
pub enum SendError {
    /// The queue already holds its full capacity of in-flight signals.
    Full,
    /// The receiving peer has terminated.
    Closed,
}

/// Error returned by a non-blocking receive that yields no signal.
#[derive(Debug, Clone, Copy, PartialEq, Eq, Structural)]
pub enum TryRecvError {
    /// No signal is currently in flight.
    Empty,
    /// No signal is in flight and the sending peer has terminated.
    Closed,
}

/// Error returned by a blocking receive whose peer has terminated.
#[derive(Debug, Clone, Copy, PartialEq, Eq, Structural)]
pub enum RecvError {
    Closed,
}

/// One direction of a control channel: a bounded FIFO queue of signals.
pub struct ControlQueue {
    msgs: Vec<ThreadMsg>,
    cap: usize,
    closed: bool,
}

impl View for ControlQueue {
    type V = Seq<ThreadMsg>;

    /// The in-flight signals, oldest first.
    closed spec fn view(&self) -> Seq<ThreadMsg> {
        self.msgs@
    }
}

impl ControlQueue {
    /// The bound on the number of in-flight signals.
    pub closed spec fn capacity(&self) -> nat {
        self.cap as nat
    }

    /// Whether the peer endpoint has terminated.
    pub closed spec fn is_closed(&self) -> bool {
        self.closed
    }

    /// At most `capacity` signals are ever in flight.
    pub open spec fn well_formed(&self) -> bool {
        self@.len() <= self.capacity()
    }

    /// Whether a send would be accepted: the queue is open and below its
    /// capacity.
    pub open spec fn has_room(&self) -> bool {
        !self.is_closed() && self@.len() < self.capacity()
    }

    /// The error a send on this queue would report: `Closed` once the
    /// peer has terminated, else `Full` at capacity.
    pub open spec fn send_failure(&self) -> SendError {
        if self.is_closed() {
            SendError::Closed
        } else {
            SendError::Full
        }
    }

    /// The number of in-flight signals.
    pub fn len(&self) -> (r: usize)
        ensures
            r == self@.len(),
    {
        self.msgs.len()
    }

    /// Creates an empty, open queue bounded by `cap`.
    pub fn new(cap: usize) -> (r: ControlQueue)
        ensures
            r@ == Seq::<ThreadMsg>::empty(),
            r.capacity() == cap as nat,
            !r.is_closed(),
            r.well_formed(),
    {
        ControlQueue { msgs: Vec::new(), cap, closed: false }
    }

    /// Marks the queue as closed: its peer has terminated. Signals already
    /// in flight remain receivable.
    pub fn close(&mut self)
        ensures
            final(self)@ == old(self)@,
            final(self).capacity() == old(self).capacity(),
            final(self).is_closed(),
            old(self).well_formed() ==> final(self).well_formed(),
    {
        self.closed = true;
    }

    /// Appends a signal at the back of the queue, unless the queue is
    /// closed or already holds its full capacity.
    pub fn send(&mut self, msg: ThreadMsg) -> (r: Result<(), SendError>)
        requires
            old(self).well_formed(),
        ensures
            final(self).well_formed(),
            final(self).capacity() == old(self).capacity(),
            final(self).is_closed() == old(self).is_closed(),
            old(self).is_closed() ==> {
                &&& r == Err::<(), SendError>(SendError::Closed)
                &&& final(self)@ == old(self)@
            },
            !old(self).is_closed() && old(self)@.len() == old(self).capacity() ==> {
                &&& r == Err::<(), SendError>(SendError::Full)
                &&& final(self)@ == old(self)@
            },
            !old(self).is_closed() && old(self)@.len() < old(self).capacity() ==> {
                &&& r == Ok::<(), SendError>(())
                &&& final(self)@ == old(self)@.push(msg)
            },
    {
        if self.closed {
            Err(SendError::Closed)
        } else if self.msgs.len() >= self.cap {
            Err(SendError::Full)
        } else {
            self.msgs.push(msg);
            Ok(())
        }
    }

    /// Removes and returns the oldest in-flight signal, without blocking.
    /// An empty queue reports `Empty` while its peer lives and `Closed`
    /// once the peer has terminated.
    pub fn try_recv(&mut self) -> (r: Result<ThreadMsg, TryRecvError>)
        requires
            old(self).well_formed(),
        ensures
            final(self).well_formed(),
            final(self).capacity() == old(self).capacity(),
            final(self).is_closed() == old(self).is_closed(),
            old(self)@.len() > 0 ==> {
                &&& r == Ok::<ThreadMsg, TryRecvError>(old(self)@[0])
                &&& final(self)@ == old(self)@.drop_first()
            },
            old(self)@.len() == 0 && !old(self).is_closed() ==> {
                &&& r == Err::<ThreadMsg, TryRecvError>(TryRecvError::Empty)
                &&& final(self)@ == old(self)@
            },
            old(self)@.len() == 0 && old(self).is_closed() ==> {
                &&& r == Err::<ThreadMsg, TryRecvError>(TryRecvError::Closed)
                &&& final(self)@ == old(self)@
            },
    {
        if self.msgs.len() > 0 {
            let m = self.msgs.remove(0);
            proof {
                assert(self.msgs@ =~= old(self)@.drop_first());
            }
            Ok(m)
        } else if self.closed {
            Err(TryRecvError::Closed)
        } else {
            Err(TryRecvError::Empty)
        }
    }

    /// Removes and returns the oldest in-flight signal. A blocking receive
    /// on an empty open queue would never return, so that input is left
    /// out by precondition.
    pub fn recv(&mut self) -> (r: Result<ThreadMsg, RecvError>)
        requires
            old(self).well_formed(),
            old(self)@.len() > 0 || old(self).is_closed(),
        ensures
            final(self).well_formed(),
            final(self).capacity() == old(self).capacity(),
            final(self).is_closed() == old(self).is_closed(),
            old(self)@.len() > 0 ==> {
                &&& r == Ok::<ThreadMsg, RecvError>(old(self)@[0])
                &&& final(self)@ == old(self)@.drop_first()
            },
            old(self)@.len() == 0 ==> {
                &&& r == Err::<ThreadMsg, RecvError>(RecvError::Closed)
                &&& final(self)@ == old(self)@
            },
    {
        match self.try_recv() {
            Ok(m) => Ok(m),
            Err(_) => Err(RecvError::Closed),
        }
    }

    /// Sends every signal of `msgs` in order. When the queue lacks room,
    /// exactly the signals that fit are appended and the send reports
    /// `Full`; a closed queue is left unchanged.
    pub fn send_all(&mut self, msgs: &Vec<ThreadMsg>) -> (r: Result<(), SendError>)
        requires
            old(self).well_formed(),
        ensures
            final(self).well_formed(),
            final(self).capacity() == old(self).capacity(),
            final(self).is_closed() == old(self).is_closed(),
            old(self).is_closed() ==> {
                &&& r == Err::<(), SendError>(SendError::Closed)
                &&& final(self)@ == old(self)@
            },
            !old(self).is_closed()
                && old(self)@.len() + msgs@.len() <= old(self).capacity() ==> {
                &&& r == Ok::<(), SendError>(())
                &&& final(self)@ == old(self)@ + msgs@
            },
            !old(self).is_closed()
                && old(self)@.len() + msgs@.len() > old(self).capacity() ==> {
                &&& r == Err::<(), SendError>(SendError::Full)
                &&& final(self)@ == old(self)@
                    + msgs@.take(old(self).capacity() - old(self)@.len())
            },
    {
        if self.closed {
            return Err(SendError::Closed);
        }
        let mut i: usize = 0;
        while i < msgs.len()
            invariant
                i <= msgs@.len(),
                self.well_formed(),
                !self.is_closed(),
                !old(self).is_closed(),
                self.capacity() == old(self).capacity(),
                self@ == old(self)@ + msgs@.take(i as int),
            decreases msgs@.len() - i,
        {
            assert(self@.len() == old(self)@.len() + i);
            match self.send(msgs[i]) {
                Ok(()) => {
                    proof {
                        assert(msgs@.take(i as int + 1)
                            =~= msgs@.take(i as int).push(msgs@[i as int]));
                        assert(self@ =~= old(self)@ + msgs@.take(i as int + 1));
                    }
                }
                Err(e) => {
                    assert(old(self)@.len() + i == old(self).capacity());
                    assert(i as int == old(self).capacity() - old(self)@.len());
                    return Err(e);
                }
            }
            i = i + 1;
        }
        proof {
            assert(msgs@.take(msgs@.len() as int) =~= msgs@);
        }
        Ok(())
    }

    /// Receives every in-flight signal, in order, leaving the queue empty.
    pub fn drain(&mut self) -> (r: Vec<ThreadMsg>)
        requires
            old(self).well_formed(),
        ensures
            r@ == old(self)@,
            final(self)@ == Seq::<ThreadMsg>::empty(),
            final(self).well_formed(),
            final(self).capacity() == old(self).capacity(),
            final(self).is_closed() == old(self).is_closed(),
    {
        let mut out: Vec<ThreadMsg> = Vec::new();
        proof {
            assert(out@ + self@ =~= old(self)@);
        }
        loop
            invariant
                self.well_formed(),
                self.capacity() == old(self).capacity(),
                self.is_closed() == old(self).is_closed(),
                out@ + self@ == old(self)@,
            decreases self@.len(),
        {
            match self.try_recv() {
                Ok(m) => {
                    out.push(m);
                    proof {
                        assert(out@ + self@ =~= old(self)@);
                    }
                }
                Err(_) => {
                    proof {
                        assert(out@ =~= old(self)@);
                    }
                    return out;
                }
            }
        }
    }
}

/// FIFO law of a control queue: receives observe signals in send order.
///
/// Sending the signals of `sent`, in order, onto a queue whose pending
/// content is `pend` leaves the queue holding `pend + sent` (the `ensures`
/// of `send` and `send_all`), and draining a queue yields its content
/// oldest first (the `ensures` of `try_recv`, `recv` and `drain`). Hence
/// the receive that follows the `pend.len()` pending signals and `i`
/// earlier sends observes exactly `sent[i]`.
pub proof fn lemma_fifo_order(pend: Seq<ThreadMsg>, sent: Seq<ThreadMsg>)
    ensures
        forall|i: int|
            0 <= i < sent.len() ==> (pend + sent)[pend.len() + i] == sent[i],
{
}

} // verus!

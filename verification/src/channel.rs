use vstd::prelude::*;
use std::collections::VecDeque;

verus! {

/// What a receive found.
#[derive(Debug, PartialEq, Eq)]
pub enum Received<T> {
    /// The oldest frame in the channel, now the receiver's.
    Frame(T),
    /// Nothing is queued, and the sender may still send: wait.
    Empty,
    /// Nothing is queued and the sender is gone: the stream has ended.
    Closed,
}

/// The channel that carries frames from the capture source's delivery context
/// to the pipeline: one sender, one receiver, unbounded, first in first out.
///
/// The channel itself never waits. A driver that shares it between two
/// contexts guards it with a lock and waits while `receive` reports `Empty`.
pub struct TransferChannel<T> {
    queue: VecDeque<T>,
    sender_alive: bool,
    receiver_alive: bool,
}

impl<T> View for TransferChannel<T> {
    type V = Seq<T>;

    /// The frames sent and not yet received, oldest first.
    closed spec fn view(&self) -> Seq<T> {
        self.queue@
    }
}

impl<T> TransferChannel<T> {
    /// Whether the sending end still exists.
    pub closed spec fn sender_alive(&self) -> bool {
        self.sender_alive
    }

    /// Whether the receiving end still exists.
    pub closed spec fn receiver_alive(&self) -> bool {
        self.receiver_alive
    }

    /// Whether a send goes through: both ends exist.
    pub open spec fn connected(&self) -> bool {
        self.sender_alive() && self.receiver_alive()
    }

    /// An empty channel with both ends alive.
    pub fn new() -> (channel: TransferChannel<T>)
        ensures
            channel@ == Seq::<T>::empty(),
            channel.sender_alive(),
            channel.receiver_alive(),
    {
        TransferChannel { queue: VecDeque::new(), sender_alive: true, receiver_alive: true }
    }

    /// Puts `frame` behind everything already queued. It never waits and
    /// succeeds whenever both ends exist; once an end is gone the frame comes
    /// back as the error and the channel is left as it was.
    pub fn send(&mut self, frame: T) -> (result: Result<(), T>)
        ensures
            final(self).sender_alive() == old(self).sender_alive(),
            final(self).receiver_alive() == old(self).receiver_alive(),
            old(self).connected() ==> result is Ok && final(self)@ == old(self)@.push(frame),
            !old(self).connected() ==> result == Err::<(), T>(frame) && final(self)@ == old(self)@,
    {
        if self.sender_alive && self.receiver_alive {
            self.queue.push_back(frame);
            Ok(())
        } else {
            Err(frame)
        }
    }

    /// Takes the oldest queued frame. Frames sent before the sender went away
    /// are still handed out, in order; only then does the channel report
    /// `Closed`.
    pub fn receive(&mut self) -> (received: Received<T>)
        ensures
            final(self).sender_alive() == old(self).sender_alive(),
            final(self).receiver_alive() == old(self).receiver_alive(),
            old(self)@.len() > 0 ==> received == Received::Frame(old(self)@[0]) && final(self)@
                == old(self)@.skip(1),
            old(self)@.len() == 0 ==> final(self)@ == old(self)@,
            old(self)@.len() == 0 && old(self).sender_alive() ==> received is Empty,
            old(self)@.len() == 0 && !old(self).sender_alive() ==> received is Closed,
    {
        match self.queue.pop_front() {
            Some(frame) => Received::Frame(frame),
            None => {
                if self.sender_alive {
                    Received::Empty
                } else {
                    Received::Closed
                }
            },
        }
    }

    /// Drops the sending end. What is queued stays for the receiver.
    pub fn close(&mut self)
        ensures
            !final(self).sender_alive(),
            final(self).receiver_alive() == old(self).receiver_alive(),
            final(self)@ == old(self)@,
    {
        self.sender_alive = false;
    }

    /// Drops the receiving end, and with it every frame still queued.
    pub fn hang_up(&mut self)
        ensures
            !final(self).receiver_alive(),
            final(self).sender_alive() == old(self).sender_alive(),
            final(self)@ == Seq::<T>::empty(),
    {
        self.receiver_alive = false;
        self.queue.clear();
    }

    /// How many frames are queued.
    pub fn len(&self) -> (n: usize)
        ensures
            n == self@.len(),
    {
        self.queue.len()
    }

    /// Whether no frame is queued.
    pub fn is_empty(&self) -> (empty: bool)
        ensures
            empty == (self@.len() == 0),
    {
        self.queue.len() == 0
    }
}

/// One use of a channel whose two ends both exist.
pub enum ChannelOp<T> {
    Send(T),
    Receive,
}

/// The frames queued after `ops` were applied in order to an empty channel.
pub open spec fn pending<T>(ops: Seq<ChannelOp<T>>) -> Seq<T>
    decreases ops.len(),
{
    if ops.len() == 0 {
        Seq::empty()
    } else {
        let before = pending(ops.drop_last());
        match ops.last() {
            ChannelOp::Send(frame) => before.push(frame),
            ChannelOp::Receive => if before.len() > 0 {
                before.skip(1)
            } else {
                before
            },
        }
    }
}

/// The frames that the sends among `ops` put in, in the order of the sends.
pub open spec fn delivered<T>(ops: Seq<ChannelOp<T>>) -> Seq<T>
    decreases ops.len(),
{
    if ops.len() == 0 {
        Seq::empty()
    } else {
        let before = delivered(ops.drop_last());
        match ops.last() {
            ChannelOp::Send(frame) => before.push(frame),
            ChannelOp::Receive => before,
        }
    }
}

/// The frames that the receives among `ops` handed out, in the order of the
/// receives. A receive on an empty channel hands out nothing.
pub open spec fn observed<T>(ops: Seq<ChannelOp<T>>) -> Seq<T>
    decreases ops.len(),
{
    if ops.len() == 0 {
        Seq::empty()
    } else {
        let before = observed(ops.drop_last());
        match ops.last() {
            ChannelOp::Send(_) => before,
            ChannelOp::Receive => if pending(ops.drop_last()).len() > 0 {
                before.push(pending(ops.drop_last())[0])
            } else {
                before
            },
        }
    }
}

/// First in, first out: however sends and receives interleave, the frames
/// handed out followed by the frames still queued are the frames sent, in the
/// order in which they were sent. Nothing is reordered, lost or doubled.
pub proof fn lemma_fifo<T>(ops: Seq<ChannelOp<T>>)
    ensures
        observed(ops) + pending(ops) == delivered(ops),
        observed(ops).is_prefix_of(delivered(ops)),
    decreases ops.len(),
{
    if ops.len() > 0 {
        lemma_fifo(ops.drop_last());
        let seen = observed(ops.drop_last());
        let queued = pending(ops.drop_last());
        assert(seen + queued == delivered(ops.drop_last()));
        match ops.last() {
            ChannelOp::Send(frame) => {
                assert(seen + queued.push(frame) =~= (seen + queued).push(frame));
            },
            ChannelOp::Receive => {
                if queued.len() > 0 {
                    assert(seen.push(queued[0]) + queued.skip(1) =~= seen + queued);
                }
            },
        }
    }
    assert(observed(ops).is_prefix_of(observed(ops) + pending(ops)));
}

} // verus!

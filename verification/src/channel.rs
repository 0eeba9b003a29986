use vstd::prelude::*;

use crate::errors::PipelineError;
use crate::segment::Segment;

verus! {

/// Outcome of one `receive` call on the consumer end of a channel.
#[derive(Debug)]
pub enum Received {
    /// The oldest segment still in the channel.
    Item(Segment),
    /// The channel is empty and the producer has closed it: the consumer
    /// loop terminates.
    Closed,
    /// The channel is empty but still open: a blocking consumer would wait
    /// here for the next segment.
    Pending,
}

/// An ordered, unbounded, single-producer/single-consumer queue of segments.
///
/// This is the delivery discipline of the pipeline's handoff between the
/// inference callback (producer) and the output sink (consumer): segments
/// are received in exactly the order they were sent, and once the channel
/// is closed and empty every `receive` reports `Closed`.
pub struct SegmentChannel {
    queue: Vec<Segment>,
    closed: bool,
}

impl SegmentChannel {
    /// The segments sent but not yet received, oldest first.
    pub closed spec fn contents(&self) -> Seq<Segment> {
        self.queue@
    }

    /// Whether the producer end has been dropped.
    pub closed spec fn is_closed(&self) -> bool {
        self.closed
    }

    /// Creates an open, empty channel.
    pub fn new() -> (ch: SegmentChannel)
        ensures
            ch.contents() == Seq::<Segment>::empty(),
            !ch.is_closed(),
    {
        SegmentChannel { queue: Vec::new(), closed: false }
    }

    /// Enqueues one segment at the back of the channel; never blocks.
    /// Fails with `ChannelClosed`, leaving the channel unchanged, exactly
    /// when the channel has already been closed.
    pub fn send(&mut self, s: Segment) -> (r: Result<(), PipelineError>)
        ensures
            !old(self).is_closed() ==> {
                &&& r == Ok::<(), PipelineError>(())
                &&& final(self).contents() == old(self).contents().push(s)
                &&& !final(self).is_closed()
            },
            old(self).is_closed() ==> {
                &&& r == Err::<(), PipelineError>(PipelineError::ChannelClosed)
                &&& final(self).contents() == old(self).contents()
                &&& final(self).is_closed()
            },
    {
        if self.closed {
            Err(PipelineError::ChannelClosed)
        } else {
            self.queue.push(s);
            Ok(())
        }
    }

    /// Drops the producer end: no further segment will be accepted, but the
    /// segments already queued stay available to the consumer.
    pub fn close(&mut self)
        ensures
            final(self).is_closed(),
            final(self).contents() == old(self).contents(),
    {
        self.closed = true;
    }

    /// Takes the oldest queued segment. On an empty channel, reports
    /// `Closed` once the producer end is gone (and on every later call,
    /// since the channel no longer changes), and `Pending` while the
    /// channel is still open.
    pub fn receive(&mut self) -> (r: Received)
        ensures
            old(self).contents().len() > 0 ==> {
                &&& r == Received::Item(old(self).contents()[0])
                &&& final(self).contents() == old(self).contents().skip(1)
                &&& final(self).is_closed() == old(self).is_closed()
            },
            old(self).contents().len() == 0 && old(self).is_closed() ==> {
                &&& r == Received::Closed
                &&& final(self).contents() == old(self).contents()
                &&& final(self).is_closed()
            },
            old(self).contents().len() == 0 && !old(self).is_closed() ==> {
                &&& r == Received::Pending
                &&& final(self).contents() == old(self).contents()
                &&& !final(self).is_closed()
            },
    {
        if self.queue.len() > 0 {
            let s = self.queue.remove(0);
            proof {
                assert(self.queue@ =~= old(self).queue@.skip(1));
            }
            Received::Item(s)
        } else if self.closed {
            Received::Closed
        } else {
            Received::Pending
        }
    }

    /// The output sink's loop on a channel whose producer is gone: receives
    /// until `Closed`, returning every queued segment in exactly the order
    /// it was sent.
    pub fn drain(&mut self) -> (out: Vec<Segment>)
        requires
            old(self).is_closed(),
        ensures
            out@ == old(self).contents(),
            final(self).contents() == Seq::<Segment>::empty(),
            final(self).is_closed(),
    {
        let mut out: Vec<Segment> = Vec::new();
        loop
            invariant
                self.closed,
                out@ + self.queue@ == old(self).queue@,
            ensures
                self.closed,
                self.queue@.len() == 0,
                out@ + self.queue@ == old(self).queue@,
            decreases self.queue.len(),
        {
            let r = self.receive();
            match r {
                Received::Item(s) => {
                    let ghost prev_out = out@;
                    let ghost prev_queue = self.queue@;
                    out.push(s);
                    proof {
                        assert(out@ + self.queue@ =~= (prev_out + seq![s]) + prev_queue);
                    }
                }
                Received::Closed => {
                    break;
                }
                Received::Pending => {
                    break;
                }
            }
        }
        proof {
            assert(out@ =~= old(self).queue@);
        }
        out
    }
}

/// The channel contents after sending each element of `sent` in order onto a
/// channel that already held `q`: repeated application of `send`'s effect.
pub open spec fn after_sends(q: Seq<Segment>, sent: Seq<Segment>) -> Seq<Segment>
    decreases sent.len(),
{
    if sent.len() == 0 {
        q
    } else {
        after_sends(q.push(sent[0]), sent.skip(1))
    }
}

/// Ordering law of the channel: sending a sequence of segments, one at a
/// time and in order, appends them to the channel's contents in exactly
/// that order. Since `receive` and `drain` hand the contents out front to
/// back, the consumer renders segments in the same order they were sent.
pub proof fn lemma_fifo_delivery(q: Seq<Segment>, sent: Seq<Segment>)
    ensures
        after_sends(q, sent) == q + sent,
    decreases sent.len(),
{
    if sent.len() == 0 {
        assert(q + sent =~= q);
    } else {
        lemma_fifo_delivery(q.push(sent[0]), sent.skip(1));
        assert(q.push(sent[0]) + sent.skip(1) =~= q + sent);
    }
}

} // verus!

//! The delivery queue of the readiness poller.
//!
//! The poller waits on file descriptors outside this crate; what is
//! verified here is the discipline that makes delivery fair: every item
//! read from a ready source in one readiness batch is queued, and each
//! call hands out exactly one queued item, oldest first.
use vstd::prelude::*;

verus! {

/// Items read from simultaneously-ready sources, waiting to be delivered
/// one `poll` at a time.
pub struct PollBuffer<D> {
    pub queue: Vec<D>,
}

impl<D> PollBuffer<D> {
    pub fn new() -> (r: Self)
        ensures
            r.queue@ == Seq::<D>::empty(),
    {
        PollBuffer { queue: Vec::new() }
    }

    /// Queue everything a readiness batch produced, in batch order.
    pub fn stash_batch(&mut self, batch: Vec<D>)
        ensures
            final(self).queue@ == old(self).queue@ + batch@,
    {
        let ghost b0 = batch@;
        let mut batch = batch;
        let ghost q0 = self.queue@;
        proof {
            assert(b0.skip(0) =~= b0);
            assert(q0 + b0.subrange(0, 0) =~= q0);
        }
        while batch.len() > 0
            invariant
                batch@.len() <= b0.len(),
                batch@ == b0.skip(b0.len() - batch@.len()),
                self.queue@ == q0 + b0.subrange(0, b0.len() - batch@.len()),
            decreases batch@.len(),
        {
            let ghost k = b0.len() - batch@.len();
            let x = batch.remove(0);
            proof {
                assert(b0.skip(k as int)[0] == b0[k as int]);
                assert(batch@ =~= b0.skip(k + 1));
            }
            self.queue.push(x);
            assert(self.queue@ =~= q0 + b0.subrange(0, k + 1));
        }
        proof {
            assert(b0.subrange(0, b0.len() as int) =~= b0);
        }
    }

    /// Hand out the oldest queued item, if one is waiting.
    pub fn pop(&mut self) -> (r: Option<D>)
        ensures
            old(self).queue@.len() == 0 ==> (r is None && final(self).queue@ == old(self).queue@),
            old(self).queue@.len() > 0 ==> (r matches Some(d) && d == old(self).queue@[0] && final(self).queue@ == old(self).queue@.drop_first()),
    {
        if self.queue.len() == 0 {
            None
        } else {
            let x = self.queue.remove(0);
            proof {
                assert(self.queue@ =~= old(self).queue@.drop_first());
            }
            Some(x)
        }
    }
}

/// The items of a run of readiness batches, in arrival order.
pub open spec fn batches_flat<D>(batches: Seq<Seq<D>>) -> Seq<D>
    decreases batches.len(),
{
    if batches.len() == 0 {
        Seq::empty()
    } else {
        batches[0] + batches_flat(batches.drop_first())
    }
}

/// The queue contents after stashing a run of batches onto `q`.
pub open spec fn stash_run<D>(q: Seq<D>, batches: Seq<Seq<D>>) -> Seq<D>
    decreases batches.len(),
{
    if batches.len() == 0 {
        q
    } else {
        stash_run(q + batches[0], batches.drop_first())
    }
}

/// Fairness of delivery: after any run of readiness batches, the queue
/// holds exactly the items of those batches after what it already held,
/// in order, each exactly once; popping then delivers precisely that
/// sequence.
pub proof fn lemma_poller_fairness<D>(q: Seq<D>, batches: Seq<Seq<D>>)
    ensures
        stash_run(q, batches) == q + batches_flat(batches),
    decreases batches.len(),
{
    if batches.len() == 0 {
        assert(stash_run(q, batches) =~= q + batches_flat(batches));
    } else {
        lemma_poller_fairness(q + batches[0], batches.drop_first());
        assert((q + batches[0]) + batches_flat(batches.drop_first()) =~= q + (batches[0]
            + batches_flat(batches.drop_first())));
    }
}

/// The same, for a poller that starts empty: the delivered items are
/// exactly the batches' items.
pub proof fn lemma_poller_fairness_from_empty<D>(batches: Seq<Seq<D>>)
    ensures
        stash_run(Seq::<D>::empty(), batches) == batches_flat(batches),
{
    lemma_poller_fairness(Seq::<D>::empty(), batches);
    assert(Seq::<D>::empty() + batches_flat(batches) =~= batches_flat(batches));
}


/// What a readiness event means for the poller: a source that signalled
/// read-closed fails the whole poll, anything else is read from.
pub fn hangup_check(read_closed: bool) -> (r: Result<(), crate::error::Error>)
    ensures
        r is Err <==> read_closed,
        r matches Err(e) ==> e is OneOfMultipleInputClosed,
{
    if read_closed {
        Err(crate::error::Error::OneOfMultipleInputClosed)
    } else {
        Ok(())
    }
}

} // verus!

use vstd::prelude::*;
use crate::counter::saturating_inc;
use crate::queue::{
    BoundedQueue, PushOutcome, after_push, after_pushes, lemma_overflow_drops_newest, push_outcome,
};

verus! {

/// The samples of each block held, oldest block first.
pub open spec fn blocks_of(blocks: Seq<Vec<i16>>) -> Seq<Seq<i16>> {
    blocks.map_values(|b: Vec<i16>| b@)
}

/// Offers one block from the capture device, copied, to the raw-sample
/// queue without waiting. A full queue drops the block and counts it; that
/// is never an error.
pub fn capture_block(block: &[i16], queue: &mut BoundedQueue<Vec<i16>>) -> (r: PushOutcome)
    requires
        old(queue).well_formed(),
    ensures
        final(queue).well_formed(),
        final(queue).spec_capacity() == old(queue).spec_capacity(),
        r == push_outcome(old(queue)@.len(), old(queue).spec_capacity()),
        blocks_of(final(queue)@) == after_push(
            blocks_of(old(queue)@),
            old(queue).spec_capacity(),
            block@,
        ),
        r == PushOutcome::Accepted ==> {
            &&& final(queue)@.len() == old(queue)@.len() + 1
            &&& final(queue)@.drop_last() == old(queue)@
            &&& final(queue)@.last()@ == block@
            &&& final(queue).spec_dropped() == old(queue).spec_dropped()
        },
        r == PushOutcome::Dropped ==> {
            &&& final(queue)@ == old(queue)@
            &&& final(queue).spec_dropped() == saturating_inc(old(queue).spec_dropped())
        },
{
    let copy = vstd::slice::slice_to_vec(block);
    let r = queue.try_push(copy);
    assert(blocks_of(queue@) =~= after_push(
        blocks_of(old(queue)@),
        old(queue).spec_capacity(),
        block@,
    ));
    r
}

/// Capturing blocks one after another into a raw queue of capacity
/// `capacity` that starts empty, with nothing taken out: each of the first
/// `capacity` blocks is accepted, each later one is dropped, and the queue
/// holds exactly the first `capacity` blocks, oldest first.
pub proof fn lemma_capture_keeps_first_blocks(capacity: nat, blocks: Seq<Seq<i16>>)
    ensures
        forall|i: int|
            0 <= i < blocks.len() ==> push_outcome(
                #[trigger] after_pushes(Seq::<Seq<i16>>::empty(), capacity, blocks.take(i)).len(),
                capacity,
            ) == if i < capacity {
                PushOutcome::Accepted
            } else {
                PushOutcome::Dropped
            },
        blocks.len() > capacity ==> after_pushes(Seq::<Seq<i16>>::empty(), capacity, blocks)
            == blocks.take(capacity as int),
        blocks.len() <= capacity ==> after_pushes(Seq::<Seq<i16>>::empty(), capacity, blocks)
            == blocks,
{
    lemma_overflow_drops_newest(capacity, blocks);
}

} // verus!

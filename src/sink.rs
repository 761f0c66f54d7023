use vstd::prelude::*;
use crate::queue::BoundedQueue;

verus! {

/// The samples of `frames`, one frame after another.
pub open spec fn flatten(frames: Seq<Vec<i16>>) -> Seq<i16>
    decreases frames.len(),
{
    if frames.len() == 0 {
        Seq::empty()
    } else {
        frames[0]@ + flatten(frames.drop_first())
    }
}

/// What playback of `n` samples sounds like when `available` is what can
/// be had: the available samples in order, then silence.
pub open spec fn playback(available: Seq<i16>, n: nat) -> Seq<i16> {
    Seq::new(n, |i: int| if i < available.len() { available[i] } else { 0i16 })
}

/// Whether every frame of `frames` holds at least one sample.
pub open spec fn all_nonempty(frames: Seq<Vec<i16>>) -> bool {
    forall|k: int| 0 <= k < frames.len() ==> (#[trigger] frames[k])@.len() > 0
}

/// The decisions of the playback callback: it serves each requested sample
/// from the decoded frames, in order, and silence wherever none is left.
pub struct AudioSink {
    current: Vec<i16>,
    pos: usize,
}

impl View for AudioSink {
    type V = Seq<i16>;

    /// The samples of the frame in hand that are not yet played.
    closed spec fn view(&self) -> Seq<i16> {
        self.current@.skip(self.pos as int)
    }
}

impl AudioSink {
    pub closed spec fn well_formed(&self) -> bool {
        self.pos <= self.current@.len()
    }

    /// A sink with nothing in hand.
    pub fn new() -> (r: Self)
        ensures
            r.well_formed(),
            r@ == Seq::<i16>::empty(),
    {
        AudioSink { current: Vec::new(), pos: 0 }
    }

    /// Fills all of `out` without waiting, sample by sample: first from the
    /// frame in hand, then from frames taken off `queue` one at a time as
    /// each runs out, and with silence once both are exhausted. Returns how
    /// many samples were real audio.
    pub fn fill(&mut self, out: &mut [i16], queue: &mut BoundedQueue<Vec<i16>>) -> (r: usize)
        requires
            old(self).well_formed(),
            old(queue).well_formed(),
        ensures
            final(self).well_formed(),
            final(queue).well_formed(),
            final(queue).spec_capacity() == old(queue).spec_capacity(),
            final(queue).spec_dropped() == old(queue).spec_dropped(),
            final(out)@ == playback(old(self)@ + flatten(old(queue)@), old(out)@.len()),
            r == (if old(out)@.len() < (old(self)@ + flatten(old(queue)@)).len() {
                old(out)@.len() as int
            } else {
                (old(self)@ + flatten(old(queue)@)).len() as int
            }),
            final(self)@ + flatten(final(queue)@) == (old(self)@ + flatten(old(queue)@)).skip(
                r as int,
            ),
            final(queue)@.len() <= old(queue)@.len(),
            final(queue)@ == old(queue)@.skip(old(queue)@.len() - final(queue)@.len()),
            all_nonempty(old(queue)@) ==> old(queue)@.len() - final(queue)@.len() <= old(
                out,
            )@.len(),
    {
        let ghost avail = self@ + flatten(queue@);
        let ghost q0 = queue@;
        let ghost out_len = out@.len();
        let mut i: usize = 0;
        let mut played: usize = 0;
        while i < out.len()
            invariant
                self.well_formed(),
                queue.well_formed(),
                queue.spec_capacity() == old(queue).spec_capacity(),
                queue.spec_dropped() == old(queue).spec_dropped(),
                out@.len() == out_len,
                0 <= i <= out_len,
                played <= i,
                played <= avail.len(),
                played == i || played == avail.len(),
                forall|j: int| 0 <= j < i ==> out@[j] == playback(avail, out_len)[j],
                self@ + flatten(queue@) == avail.skip(played as int),
                0 <= q0.len() - queue@.len() <= q0.len(),
                queue@ == q0.skip(q0.len() - queue@.len()),
                all_nonempty(q0) ==> q0.len() - queue@.len() <= played,
            decreases out_len - i,
        {
            while self.pos >= self.current.len() && !queue.is_empty()
                invariant
                    self.well_formed(),
                    queue.well_formed(),
                    queue.spec_capacity() == old(queue).spec_capacity(),
                    queue.spec_dropped() == old(queue).spec_dropped(),
                    self@ + flatten(queue@) == avail.skip(played as int),
                    0 <= q0.len() - queue@.len() <= q0.len(),
                    queue@ == q0.skip(q0.len() - queue@.len()),
                    all_nonempty(q0) ==> q0.len() - queue@.len() <= played + (if self.pos
                        < self.current@.len() {
                        1int
                    } else {
                        0int
                    }),
                decreases queue@.len(),
            {
                let ghost before = queue@;
                assert(before[0] == q0[q0.len() - before.len()]);
                let frame = queue.try_pop();
                assert(frame.is_some());
                self.current = frame.unwrap();
                self.pos = 0;
                assert(self@ =~= before[0]@);
                assert(flatten(before) == before[0]@ + flatten(before.drop_first()));
                assert(self@ + flatten(queue@) =~= avail.skip(played as int)) by {
                    assert(self@ + flatten(queue@) =~= flatten(before));
                    assert(self@ + flatten(queue@) =~= Seq::<i16>::empty() + flatten(before)) by {
                        assert(self.current@.skip(0) =~= self.current@);
                    }
                }
                assert(queue@ =~= q0.skip(q0.len() - queue@.len()));
            }
            if self.pos < self.current.len() {
                let ghost rest = self@;
                assert(rest.len() > 0);
                assert((rest + flatten(queue@)).len() > 0);
                assert(played < avail.len());
                out[i] = self.current[self.pos];
                assert(rest[0] == avail.skip(played as int)[0]);
                assert(avail.skip(played + 1 as int) =~= avail.skip(played as int).drop_first());
                self.pos = self.pos + 1;
                assert(self@ =~= rest.drop_first());
                assert(self@ + flatten(queue@) =~= avail.skip(played + 1 as int));
                played = played + 1;
            } else {
                assert(flatten(queue@) =~= Seq::<i16>::empty());
                assert(avail.skip(played as int).len() == 0);
                out[i] = 0;
            }
            i = i + 1;
        }
        played
    }
}

} // verus!

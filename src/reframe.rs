use vstd::prelude::*;
use std::collections::VecDeque;

verus! {

/// Collects blocks of samples of any length and hands them out again as
/// frames of exactly the length the codec was created for.
pub struct Reframer {
    pending: VecDeque<i16>,
    frame_len: usize,
}

impl View for Reframer {
    type V = Seq<i16>;

    /// The samples received and not yet handed out, oldest first.
    closed spec fn view(&self) -> Seq<i16> {
        self.pending@
    }
}

impl Reframer {
    /// The length of every frame handed out.
    pub closed spec fn spec_frame_len(&self) -> nat {
        self.frame_len as nat
    }

    pub open spec fn well_formed(&self) -> bool {
        self.spec_frame_len() > 0
    }

    /// An empty buffer that hands out frames of `frame_len` samples.
    pub fn new(frame_len: usize) -> (r: Self)
        requires
            frame_len > 0,
        ensures
            r.well_formed(),
            r@ == Seq::<i16>::empty(),
            r.spec_frame_len() == frame_len,
    {
        Reframer { pending: VecDeque::new(), frame_len }
    }

    /// Appends a block of samples, whatever its length.
    pub fn push_block(&mut self, block: &[i16])
        requires
            old(self).well_formed(),
        ensures
            final(self).well_formed(),
            final(self)@ == old(self)@ + block@,
            final(self).spec_frame_len() == old(self).spec_frame_len(),
    {
        let mut i: usize = 0;
        while i < block.len()
            invariant
                0 <= i <= block@.len(),
                self.frame_len == old(self).frame_len,
                self.pending@ == old(self).pending@ + block@.take(i as int),
            decreases block@.len() - i,
        {
            self.pending.push_back(block[i]);
            i = i + 1;
            assert(block@.take(i as int) =~= block@.take(i - 1 as int).push(block@[i - 1]));
        }
        assert(block@.take(block@.len() as int) =~= block@);
    }

    /// Hands out the oldest `frame_len` samples once that many have been
    /// collected; with fewer, returns `None` and keeps collecting.
    pub fn take_frame(&mut self) -> (r: Option<Vec<i16>>)
        requires
            old(self).well_formed(),
        ensures
            final(self).well_formed(),
            final(self).spec_frame_len() == old(self).spec_frame_len(),
            old(self)@.len() < old(self).spec_frame_len() ==> r.is_none() && final(self)@
                == old(self)@,
            old(self)@.len() >= old(self).spec_frame_len() ==> r.is_some() && r.unwrap()@
                == old(self)@.take(old(self).spec_frame_len() as int) && final(self)@ == old(
                self,
            )@.skip(old(self).spec_frame_len() as int),
    {
        if self.pending.len() < self.frame_len {
            return None;
        }
        let mut frame: Vec<i16> = Vec::with_capacity(self.frame_len);
        let mut i: usize = 0;
        while i < self.frame_len
            invariant
                0 <= i <= self.frame_len,
                self.frame_len == old(self).frame_len,
                old(self).pending@.len() >= self.frame_len,
                frame@ == old(self).pending@.take(i as int),
                self.pending@ == old(self).pending@.skip(i as int),
            decreases self.frame_len - i,
        {
            let s = self.pending.pop_front();
            assert(s.is_some());
            frame.push(s.unwrap());
            i = i + 1;
            assert(frame@ =~= old(self).pending@.take(i as int));
            assert(self.pending@ =~= old(self).pending@.skip(i as int));
        }
        Some(frame)
    }

    /// Discards every sample collected so far.
    pub fn clear(&mut self)
        requires
            old(self).well_formed(),
        ensures
            final(self).well_formed(),
            final(self)@ == Seq::<i16>::empty(),
            final(self).spec_frame_len() == old(self).spec_frame_len(),
    {
        self.pending.clear();
    }

    /// The number of samples collected and not yet handed out.
    pub fn pending_len(&self) -> (r: usize)
        ensures
            r == self@.len(),
    {
        self.pending.len()
    }

    /// The length of every frame handed out.
    pub fn frame_len(&self) -> (r: usize)
        ensures
            r == self.spec_frame_len(),
    {
        self.frame_len
    }
}

} // verus!

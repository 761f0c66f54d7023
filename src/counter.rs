use vstd::prelude::*;

verus! {

/// `n + 1`, held at `u64::MAX`.
pub open spec fn saturating_inc(n: u64) -> u64 {
    if n == u64::MAX {
        u64::MAX
    } else {
        (n + 1) as u64
    }
}

/// `n + 1`, held at `u64::MAX`.
pub fn inc(n: u64) -> (r: u64)
    ensures
        r == saturating_inc(n),
{
    if n < u64::MAX {
        n + 1
    } else {
        n
    }
}

} // verus!

use vstd::prelude::*;

verus! {

/// `a + b`, stopping at the top of the 64-bit range.
pub open spec fn sat_add_u64(a: u64, b: u64) -> u64 {
    if a + b <= u64::MAX {
        (a + b) as u64
    } else {
        u64::MAX
    }
}

/// `a - b`, stopping at zero.
pub open spec fn sat_sub_u64(a: u64, b: u64) -> u64 {
    if a >= b {
        (a - b) as u64
    } else {
        0
    }
}

pub fn saturating_add_u64(a: u64, b: u64) -> (r: u64)
    ensures
        r == sat_add_u64(a, b),
{
    if a <= u64::MAX - b {
        a + b
    } else {
        u64::MAX
    }
}

pub fn saturating_sub_u64(a: u64, b: u64) -> (r: u64)
    ensures
        r == sat_sub_u64(a, b),
{
    if a >= b {
        a - b
    } else {
        0
    }
}

/// A next-allowed-tick rate limiter. Ticks are widened milliseconds; the
/// arithmetic saturates at the far end of the 64-bit range.
#[derive(Debug, Clone, Copy)]
pub struct SimpleRatelimit {
    pub next: u64,
    pub once_per: u64,
}

impl SimpleRatelimit {
    /// A limiter that allows its first call at `init` (or immediately, when
    /// absent) and every `once_per` milliseconds after an allowed call.
    pub fn new(once_per: u64, init: Option<u64>) -> (r: SimpleRatelimit)
        ensures
            r.once_per == once_per,
            r.next == (match init {
                Some(t) => t,
                None => 0u64,
            }),
    {
        SimpleRatelimit {
            next: match init {
                Some(t) => t,
                None => 0,
            },
            once_per,
        }
    }

    /// Allows the action and advances the window exactly when `now` has
    /// reached the next allowed tick; the second component is how long the
    /// caller has to wait.
    pub fn allow(&mut self, now: u64) -> (r: (bool, u64))
        ensures
            r.0 == (now >= old(self).next),
            now >= old(self).next ==> *final(self) == (SimpleRatelimit {
                next: sat_add_u64(now, old(self).once_per),
                ..*old(self)
            }) && r.1 == old(self).once_per,
            now < old(self).next ==> *final(self) == *old(self) && r.1 == old(self).next - now,
    {
        if now >= self.next {
            self.next = saturating_add_u64(now, self.once_per);
            (true, self.once_per)
        } else {
            (false, self.next - now)
        }
    }

    /// Re-bases the window to a new interval without losing phase: the last
    /// advance is redone with the new interval.
    pub fn reset(&mut self, v: u64)
        ensures
            final(self).once_per == v,
            final(self).next == sat_add_u64(sat_sub_u64(old(self).next, old(self).once_per), v),
    {
        let base = saturating_sub_u64(self.next, self.once_per);
        self.next = saturating_add_u64(base, v);
        self.once_per = v;
    }
}

/// A fixed-capacity array of optional values.
pub struct ArrayVec<T: Copy, const N: usize> {
    pub arr: [Option<T>; N],
}

impl<T: Copy, const N: usize> Default for ArrayVec<T, N> {
    fn default() -> (r: Self)
        ensures
            r.arr@.len() == N,
            forall|i: int| 0 <= i < N ==> r.arr@[i] is None,
    {
        Self { arr: [None; N] }
    }
}

impl<T: Copy, const N: usize> ArrayVec<T, N> {
    /// The slots, as a growable vector.
    pub fn to_vec(&self) -> (r: Vec<Option<T>>)
        ensures
            r@ =~= self.arr@,
    {
        let mut v: Vec<Option<T>> = Vec::new();
        let mut i: usize = 0;
        while i < N
            invariant
                0 <= i <= N,
                v@ =~= self.arr@.subrange(0, i as int),
            decreases N - i,
        {
            v.push(self.arr[i]);
            i += 1;
        }
        v
    }
}

} // verus!

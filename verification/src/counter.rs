//! Counters that change by whole steps, as atomic integers do.

use vstd::prelude::*;

verus! {

/// A counter that is only read and changed by whole steps, each of which
/// returns the value it found.
pub struct Counter {
    /// The count.
    pub value: u32,
}

impl Counter {
    /// A counter that starts at `value`.
    pub fn new(value: u32) -> (r: Counter)
        ensures
            r.value == value,
    {
        Counter { value }
    }

    /// Reads the count.
    pub fn load(&self) -> (r: u32)
        ensures
            r == self.value,
    {
        self.value
    }

    /// Adds `n`, wrapping round at the counter's width, and returns the count
    /// before the step.
    pub fn fetch_add(&mut self, n: u32) -> (prev: u32)
        ensures
            prev == old(self).value,
            final(self).value as int == (old(self).value + n) % 0x1_0000_0000,
    {
        let prev: u32 = self.value;
        if n > u32::MAX - prev {
            self.value = n - (u32::MAX - prev) - 1;
        } else {
            self.value = prev + n;
        }
        prev
    }

    /// Subtracts `n`, wrapping round at the counter's width, and returns the
    /// count before the step.
    pub fn fetch_sub(&mut self, n: u32) -> (prev: u32)
        ensures
            prev == old(self).value,
            final(self).value as int == (old(self).value - n) % 0x1_0000_0000,
    {
        let prev: u32 = self.value;
        if n > prev {
            self.value = u32::MAX - (n - prev) + 1;
        } else {
            self.value = prev - n;
        }
        prev
    }

    /// Stores `new` if the count is `current`. Returns the count before the
    /// step: in `Ok` where it was `current` and `new` was stored, in `Err`
    /// where it was not and nothing changed.
    pub fn compare_exchange(&mut self, current: u32, new: u32) -> (r: Result<u32, u32>)
        ensures
            old(self).value == current ==> r == Ok::<u32, u32>(current),
            old(self).value == current ==> final(self).value == new,
            old(self).value != current ==> r == Err::<u32, u32>(old(self).value),
            old(self).value != current ==> final(self).value == old(self).value,
    {
        if self.value == current {
            self.value = new;
            Ok(current)
        } else {
            Err(self.value)
        }
    }

    /// Raises the count by one unless it is zero, and says whether it did.
    ///
    /// The count is raised by a compare-and-exchange from the value that was
    /// read, and read again where that fails: between the test for zero and
    /// the change no other step can come. Here every exchange finds the value
    /// that was just read, so the first one succeeds.
    pub fn increment_unless_zero(&mut self) -> (raised: bool)
        requires
            old(self).value < u32::MAX,
        ensures
            raised == (old(self).value != 0),
            raised ==> final(self).value == old(self).value + 1,
            !raised ==> final(self).value == old(self).value,
    {
        let mut count: u32 = self.load();
        loop
            invariant
                count == self.value,
                self.value == old(self).value,
                count < u32::MAX,
            decreases 0int,
        {
            if count == 0 {
                return false;
            }
            match self.compare_exchange(count, count + 1) {
                Ok(_) => {
                    return true;
                },
                Err(seen) => {
                    count = seen;
                },
            }
        }
    }
}

} // verus!

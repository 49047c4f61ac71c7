//! The change that one call of the delegate makes to the usage counter.

use vstd::prelude::*;

verus! {

/// The value that a machine word holds after `x` was reached by adding and
/// subtracting without regard to the word's range.
pub open spec fn wrapped(x: int) -> usize {
    (x % (usize::MAX + 1)) as usize
}

/// A change to the usage counter.
#[derive(Clone, Copy, Debug, PartialEq, Eq, Structural)]
pub enum Adjustment {
    /// The counter stays as it is, and no update is issued.
    Keep,
    /// The counter rises by this many bytes.
    Grow(usize),
    /// The counter falls by this many bytes.
    Shrink(usize),
}

impl Adjustment {
    /// The signed number of bytes by which the counter changes.
    pub open spec fn delta(self) -> int {
        match self {
            Adjustment::Keep => 0,
            Adjustment::Grow(n) => n as int,
            Adjustment::Shrink(n) => -(n as int),
        }
    }

    /// The counter after the change, as a machine word that wraps around.
    pub open spec fn spec_apply(self, counter: usize) -> usize {
        wrapped(counter + self.delta())
    }

    /// Applies the change to a counter value and returns the new value. The
    /// arithmetic wraps, as an atomic add or subtract does.
    #[verifier::when_used_as_spec(spec_apply)]
    pub fn apply(self, counter: usize) -> (after: usize)
        ensures
            after == self.spec_apply(counter),
            0 <= counter + self.delta() <= usize::MAX ==> after == counter + self.delta(),
    {
        proof {
            lemma_wrapped_near(counter + self.delta());
        }
        match self {
            Adjustment::Keep => counter,
            Adjustment::Grow(n) => counter.wrapping_add(n),
            Adjustment::Shrink(n) => counter.wrapping_sub(n),
        }
    }
}

/// What `wrapped` is worth within one word's width on either side of the
/// word's range.
pub proof fn lemma_wrapped_near(x: int)
    requires
        -(usize::MAX + 1) <= x <= 2 * usize::MAX + 1,
    ensures
        0 <= x <= usize::MAX ==> wrapped(x) == x,
        x < 0 ==> wrapped(x) == x + usize::MAX + 1,
        x > usize::MAX ==> wrapped(x) == x - (usize::MAX + 1),
{
    let m: int = usize::MAX + 1;
    if x < 0 {
        vstd::arithmetic::div_mod::lemma_mod_multiples_vanish(1, x, m);
        vstd::arithmetic::div_mod::lemma_small_mod((x + m) as nat, m as nat);
    } else if x > usize::MAX {
        vstd::arithmetic::div_mod::lemma_mod_multiples_vanish(-1, x, m);
        vstd::arithmetic::div_mod::lemma_small_mod((x - m) as nat, m as nat);
    } else {
        vstd::arithmetic::div_mod::lemma_small_mod(x as nat, m as nat);
    }
}

} // verus!

//! Eleven active-high indicator LEDs, held as the levels the bank should drive.

use vstd::prelude::*;

verus! {

/// Number of LEDs on the board.
pub const COUNT: usize = 11;

/// The state of the LED bank: `true` for a lit LED, in board order.
pub struct Leds {
    on: [bool; COUNT],
}

impl View for Leds {
    type V = Seq<bool>;

    closed spec fn view(&self) -> Seq<bool> {
        self.on@
    }
}

impl Leds {
    /// The bank as it comes up: every LED off.
    pub fn new() -> (r: Leds)
        ensures
            r@ == Seq::new(COUNT as nat, |n: int| false),
    {
        let r = Leds { on: [false; COUNT] };
        assert(r@ =~= Seq::new(COUNT as nat, |n: int| false));
        r
    }

    /// Drive LED `i` on or off; the others keep their state.
    pub fn set(&mut self, i: usize, on: bool)
        requires
            i < COUNT,
        ensures
            final(self)@ == old(self)@.update(i as int, on),
            final(self)@.len() == COUNT,
            final(self)@[i as int] == on,
    {
        self.on[i] = on;
    }

    /// Light exactly LED `i`, clearing the rest. An `i` past the bank clears
    /// every LED.
    pub fn only(&mut self, i: usize)
        ensures
            final(self)@ == Seq::new(COUNT as nat, |n: int| n == i),
    {
        let mut n: usize = 0;
        while n < COUNT
            invariant
                n <= COUNT,
                self@.len() == COUNT,
                forall|k: int| 0 <= k < n ==> self@[k] == (k == i),
            decreases COUNT - n,
        {
            if n == i {
                self.on[n] = true;
            } else {
                self.on[n] = false;
            }
            n = n + 1;
        }
        assert(self@ =~= Seq::new(COUNT as nat, |n: int| n == i));
    }

    /// Whether LED `i` is lit.
    pub fn is_on(&self, i: usize) -> (r: bool)
        requires
            i < COUNT,
        ensures
            r == self@[i as int],
            self@.len() == COUNT,
    {
        self.on[i]
    }

    pub fn count(&self) -> (r: usize)
        ensures
            r == COUNT,
            r == self@.len(),
    {
        COUNT
    }
}

} // verus!

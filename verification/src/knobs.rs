//! Four endless rotary encoders, each read as a pair of analog wipers 90 degrees
//! out of phase.

use vstd::prelude::*;

verus! {

/// Number of encoders.
pub const COUNT: usize = 4;

/// Number of wiper channels: two per encoder.
pub const WIPER_COUNT: usize = 8;

/// A named encoder. Its index is the position of its wiper pair.
#[derive(Clone, Copy, Debug, PartialEq, Eq, Structural)]
pub enum Knob {
    /// Top-left
    Tl,
    /// Top-right
    Tr,
    /// Bottom-left
    Bl,
    /// Bottom-right
    Br,
}

/// The encoder at position `i`.
pub open spec fn knob_at(i: int) -> Knob
    recommends
        0 <= i < COUNT,
{
    if i == 0 {
        Knob::Tl
    } else if i == 1 {
        Knob::Tr
    } else if i == 2 {
        Knob::Bl
    } else {
        Knob::Br
    }
}

impl Knob {
    /// Every encoder, in wiper-pair order.
    pub const ALL: [Knob; COUNT] = [Knob::Tl, Knob::Tr, Knob::Bl, Knob::Br];

    pub open spec fn spec_index(self) -> int {
        match self {
            Knob::Tl => 0,
            Knob::Tr => 1,
            Knob::Bl => 2,
            Knob::Br => 3,
        }
    }

    pub open spec fn spec_label(self) -> Seq<char> {
        match self {
            Knob::Tl => "TL"@,
            Knob::Tr => "TR"@,
            Knob::Bl => "BL"@,
            Knob::Br => "BR"@,
        }
    }

    pub fn index(self) -> (r: usize)
        ensures
            r == self.spec_index(),
            r < COUNT,
    {
        match self {
            Knob::Tl => 0,
            Knob::Tr => 1,
            Knob::Bl => 2,
            Knob::Br => 3,
        }
    }

    pub fn label(self) -> (r: &'static str)
        ensures
            r@ == self.spec_label(),
    {
        match self {
            Knob::Tl => "TL",
            Knob::Tr => "TR",
            Knob::Bl => "BL",
            Knob::Br => "BR",
        }
    }

    /// The channels of the encoder's two wipers, `a` then `b`, in the
    /// channel list `[a, b, a, b, ...]` that pairs wipers per encoder.
    pub fn wipers(self) -> (r: (usize, usize))
        ensures
            r.0 == 2 * self.spec_index(),
            r.1 == 2 * self.spec_index() + 1,
            r.1 < WIPER_COUNT,
    {
        let i = self.index() * 2;
        (i, i + 1)
    }
}

/// One encoder reading: the two raw 16-bit wiper samples.
#[derive(Clone, Copy, Debug, PartialEq, Eq, Structural)]
pub struct Reading {
    pub a: u16,
    pub b: u16,
}

/// Position and index agree, and the wiper pairs of distinct encoders share
/// no channel.
pub proof fn lemma_knob_layout(k: Knob, j: Knob, i: int)
    requires
        0 <= i < COUNT,
    ensures
        knob_at(i).spec_index() == i,
        knob_at(k.spec_index()) == k,
        k != j ==> 2 * k.spec_index() != 2 * j.spec_index() + 1 && k.spec_index()
            != j.spec_index(),
{
}

/// `ALL` lists every knob once, in index order.
pub proof fn lemma_all_in_order(i: int)
    requires
        0 <= i < COUNT,
    ensures
        Knob::ALL@[i] == knob_at(i),
        Knob::ALL@[i].spec_index() == i,
{
}

/// The wiper-pair order of the encoders and their names: TL, TR, BL, BR.
pub proof fn lemma_pair_order_and_labels()
    ensures
        Knob::Tl.spec_index() == 0 && Knob::Tl.spec_label() == "TL"@,
        Knob::Tr.spec_index() == 1 && Knob::Tr.spec_label() == "TR"@,
        Knob::Bl.spec_index() == 2 && Knob::Bl.spec_label() == "BL"@,
        Knob::Br.spec_index() == 3 && Knob::Br.spec_label() == "BR"@,
{
}

} // verus!

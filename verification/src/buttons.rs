//! Thirteen active-low buttons with board pull-ups.

use vstd::prelude::*;

verus! {

/// Number of buttons.
pub const COUNT: usize = 13;

/// A named button. Its index is its position in the board's pin order.
#[derive(Clone, Copy, Debug, PartialEq, Eq, Structural)]
pub enum Button {
    Pads,
    Keys,
    Seqs,
    Song,
    Fx,
    Mix,
    Pset,
    Tools,
    Rec,
    Stop,
    Play,
    Back,
    Info,
}

/// The button at position `i` of the pin order.
pub open spec fn button_at(i: int) -> Button
    recommends
        0 <= i < COUNT,
{
    if i == 0 {
        Button::Pads
    } else if i == 1 {
        Button::Keys
    } else if i == 2 {
        Button::Seqs
    } else if i == 3 {
        Button::Song
    } else if i == 4 {
        Button::Fx
    } else if i == 5 {
        Button::Mix
    } else if i == 6 {
        Button::Pset
    } else if i == 7 {
        Button::Tools
    } else if i == 8 {
        Button::Rec
    } else if i == 9 {
        Button::Stop
    } else if i == 10 {
        Button::Play
    } else if i == 11 {
        Button::Back
    } else {
        Button::Info
    }
}

impl Button {
    /// Every button, in pin order.
    pub const ALL: [Button; COUNT] = [
        Button::Pads,
        Button::Keys,
        Button::Seqs,
        Button::Song,
        Button::Fx,
        Button::Mix,
        Button::Pset,
        Button::Tools,
        Button::Rec,
        Button::Stop,
        Button::Play,
        Button::Back,
        Button::Info,
    ];

    /// Position of the button in the pin order.
    pub open spec fn spec_index(self) -> int {
        match self {
            Button::Pads => 0,
            Button::Keys => 1,
            Button::Seqs => 2,
            Button::Song => 3,
            Button::Fx => 4,
            Button::Mix => 5,
            Button::Pset => 6,
            Button::Tools => 7,
            Button::Rec => 8,
            Button::Stop => 9,
            Button::Play => 10,
            Button::Back => 11,
            Button::Info => 12,
        }
    }

    /// The name printed on the button.
    pub open spec fn spec_label(self) -> Seq<char> {
        match self {
            Button::Pads => "PADS"@,
            Button::Keys => "KEYS"@,
            Button::Seqs => "SEQS"@,
            Button::Song => "SONG"@,
            Button::Fx => "FX"@,
            Button::Mix => "MIX"@,
            Button::Pset => "PSET"@,
            Button::Tools => "TOOLS"@,
            Button::Rec => "REC"@,
            Button::Stop => "STOP"@,
            Button::Play => "PLAY"@,
            Button::Back => "BACK"@,
            Button::Info => "INFO"@,
        }
    }

    pub fn index(self) -> (r: usize)
        ensures
            r == self.spec_index(),
            r < COUNT,
    {
        match self {
            Button::Pads => 0,
            Button::Keys => 1,
            Button::Seqs => 2,
            Button::Song => 3,
            Button::Fx => 4,
            Button::Mix => 5,
            Button::Pset => 6,
            Button::Tools => 7,
            Button::Rec => 8,
            Button::Stop => 9,
            Button::Play => 10,
            Button::Back => 11,
            Button::Info => 12,
        }
    }

    pub fn label(self) -> (r: &'static str)
        ensures
            r@ == self.spec_label(),
    {
        match self {
            Button::Pads => "PADS",
            Button::Keys => "KEYS",
            Button::Seqs => "SEQS",
            Button::Song => "SONG",
            Button::Fx => "FX",
            Button::Mix => "MIX",
            Button::Pset => "PSET",
            Button::Tools => "TOOLS",
            Button::Rec => "REC",
            Button::Stop => "STOP",
            Button::Play => "PLAY",
            Button::Back => "BACK",
            Button::Info => "INFO",
        }
    }
}

/// A sample of the button bank: the level each button's pin read, in pin
/// order. The buttons are active-low against board pull-ups, so a pin that
/// reads low is a pressed button.
pub struct Buttons {
    high: [bool; COUNT],
}

impl View for Buttons {
    /// Pressed state of every button, in pin order.
    type V = Seq<bool>;

    closed spec fn view(&self) -> Seq<bool> {
        Seq::new(COUNT as nat, |i: int| !self.high@[i])
    }
}

impl Buttons {
    /// The bank as sampled: `high[i]` is whether pin `i` reads high.
    pub fn new(high: [bool; COUNT]) -> (r: Buttons)
        ensures
            r@.len() == COUNT,
            forall|i: int| 0 <= i < COUNT ==> r@[i] == !high@[i],
    {
        Buttons { high }
    }

    /// Is this button pressed (its pin low)?
    pub fn is_pressed(&self, b: Button) -> (r: bool)
        ensures
            r == self@[b.spec_index()],
    {
        !self.high[b.index()]
    }

    /// Pressed state of every button, indexed by [`Button::index`].
    pub fn pressed(&self) -> (r: [bool; COUNT])
        ensures
            r@ == self@,
    {
        let mut r = [false; COUNT];
        let mut i: usize = 0;
        while i < COUNT
            invariant
                i <= COUNT,
                r@.len() == COUNT,
                forall|k: int| 0 <= k < i ==> r@[k] == self@[k],
            decreases COUNT - i,
        {
            r[i] = !self.high[i];
            i = i + 1;
        }
        assert(r@ =~= self@);
        r
    }
}

/// The pin order and the index agree: the index of the button at position
/// `i` is `i`, and every button sits at the position its index names.
pub proof fn lemma_index_is_position(b: Button, i: int)
    requires
        0 <= i < COUNT,
    ensures
        button_at(i).spec_index() == i,
        button_at(b.spec_index()) == b,
        0 <= b.spec_index() < COUNT,
{
}

/// `ALL` lists every button once, in index order.
pub proof fn lemma_all_in_order(i: int)
    requires
        0 <= i < COUNT,
    ensures
        Button::ALL@[i] == button_at(i),
        Button::ALL@[i].spec_index() == i,
{
}

/// The pin order of the bank and the name printed on each button: PADS,
/// KEYS, SEQS, SONG, FX, MIX, PSET, TOOLS, REC, STOP, PLAY, BACK, INFO.
pub proof fn lemma_pin_order_and_labels()
    ensures
        Button::Pads.spec_index() == 0 && Button::Pads.spec_label() == "PADS"@,
        Button::Keys.spec_index() == 1 && Button::Keys.spec_label() == "KEYS"@,
        Button::Seqs.spec_index() == 2 && Button::Seqs.spec_label() == "SEQS"@,
        Button::Song.spec_index() == 3 && Button::Song.spec_label() == "SONG"@,
        Button::Fx.spec_index() == 4 && Button::Fx.spec_label() == "FX"@,
        Button::Mix.spec_index() == 5 && Button::Mix.spec_label() == "MIX"@,
        Button::Pset.spec_index() == 6 && Button::Pset.spec_label() == "PSET"@,
        Button::Tools.spec_index() == 7 && Button::Tools.spec_label() == "TOOLS"@,
        Button::Rec.spec_index() == 8 && Button::Rec.spec_label() == "REC"@,
        Button::Stop.spec_index() == 9 && Button::Stop.spec_label() == "STOP"@,
        Button::Play.spec_index() == 10 && Button::Play.spec_label() == "PLAY"@,
        Button::Back.spec_index() == 11 && Button::Back.spec_label() == "BACK"@,
        Button::Info.spec_index() == 12 && Button::Info.spec_label() == "INFO"@,
{
}

} // verus!

//! The rotary-encoder pulse decoder: the quadrature state machine that
//! turns two phase inputs into a turn direction. Reading the pins is the
//! polling loop's job; this module decides what a pin pair means.

use vstd::prelude::*;

verus! {

/// The turn one quadrature step encodes.
#[derive(Clone, Copy, Debug, PartialEq, Eq, Structural)]
pub enum Direction {
    Clockwise,
    CounterClockwise,
    NoTurn,
}

/// The direction a combined old/new quadrature state encodes: four of the
/// sixteen codes turn one way, four the other, the rest none.
pub open spec fn spec_direction_from(s: u8) -> Direction {
    if s == 1 || s == 7 || s == 8 || s == 14 {
        Direction::Clockwise
    } else if s == 2 || s == 4 || s == 11 || s == 13 {
        Direction::CounterClockwise
    } else {
        Direction::NoTurn
    }
}

impl From<u8> for Direction {
    /// The direction a combined quadrature state encodes.
    fn from(s: u8) -> (d: Self) {
        if s == 1 || s == 7 || s == 8 || s == 14 {
            Direction::Clockwise
        } else if s == 2 || s == 4 || s == 11 || s == 13 {
            Direction::CounterClockwise
        } else {
            Direction::NoTurn
        }
    }
}

impl vstd::std_specs::convert::FromSpecImpl<u8> for Direction {
    open spec fn obeys_from_spec() -> bool {
        true
    }

    open spec fn from_spec(s: u8) -> Self {
        spec_direction_from(s)
    }
}

/// The next stored phase pair and the decoded direction, given the stored
/// pair and the two phase inputs read low.
pub open spec fn spec_encoder_step(state: u8, a_low: bool, b_low: bool) -> (u8, Direction) {
    let s = (state & 3) | (if a_low { 4u8 } else { 0u8 }) | (if b_low { 8u8 } else { 0u8 });
    ((s >> 2) as u8, spec_direction_from(s))
}

/// The quadrature decoder's state: the last phase pair it saw.
#[derive(Clone, Copy, Debug)]
pub struct Encoder {
    pub state: u8,
}

impl Encoder {
    /// A decoder that has seen both phases high.
    pub fn new() -> (e: Self)
        ensures
            e.state == 0u8,
    {
        Encoder { state: 0 }
    }

    /// Consumes one sample of the two phase inputs and yields the decoded
    /// turn, exactly as the quadrature table says.
    pub fn update(&mut self, a_low: bool, b_low: bool) -> (d: Direction)
        ensures
            final(self).state == spec_encoder_step(old(self).state, a_low, b_low).0,
            d == spec_encoder_step(old(self).state, a_low, b_low).1,
    {
        let a_bit: u8 = if a_low { 4 } else { 0 };
        let b_bit: u8 = if b_low { 8 } else { 0 };
        let s = (self.state & 3) | a_bit | b_bit;
        self.state = s >> 2;
        Direction::from(s)
    }
}

} // verus!

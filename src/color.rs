//! Colors and the two-color cycle that the frame loop clears to.

use vstd::prelude::*;

verus! {

/// A color in the RGB color space.
#[derive(Clone, Copy, Debug, PartialEq, Eq, Structural)]
pub struct Rgb {
    pub r: u8,
    pub g: u8,
    pub b: u8,
}

/// Number of colors in the cycle.
pub const CYCLE_LEN: usize = 2;

pub open spec fn black() -> Rgb {
    Rgb { r: 0, g: 0, b: 0 }
}

pub open spec fn white() -> Rgb {
    Rgb { r: 255, g: 255, b: 255 }
}

/// The colors of the cycle, in order.
pub open spec fn palette() -> Seq<Rgb> {
    seq![black(), white()]
}

/// The color that the cycle yields at (0-based) frame `i`.
pub open spec fn color_at(i: nat) -> Rgb {
    palette()[(i % (CYCLE_LEN as nat)) as int]
}

/// The cycle yields black on even frames and white on odd frames.
pub proof fn lemma_color_alternates(i: nat)
    ensures
        color_at(i) == (if i % 2 == 0 { black() } else { white() }),
        color_at(i + 1) != color_at(i),
{
}

impl Rgb {
    pub fn black() -> (c: Rgb)
        ensures
            c == black(),
    {
        Rgb { r: 0, g: 0, b: 0 }
    }

    pub fn white() -> (c: Rgb)
        ensures
            c == white(),
    {
        Rgb { r: 255, g: 255, b: 255 }
    }
}

/// An endless cycle over black and white: a fixed palette and a position in it.
#[derive(Clone, Copy, Debug)]
pub struct ColorCycle {
    colors: [Rgb; 2],
    pos: usize,
}

impl ColorCycle {
    pub closed spec fn wf(&self) -> bool {
        &&& self.colors@ == palette()
        &&& self.pos < CYCLE_LEN
    }

    /// Position in the palette of the color that `next` yields.
    pub closed spec fn position(&self) -> nat {
        self.pos as nat
    }

    /// A cycle that starts at black.
    pub fn new() -> (c: ColorCycle)
        ensures
            c.wf(),
            c.position() == 0,
    {
        let c = ColorCycle { colors: [Rgb::black(), Rgb::white()], pos: 0 };
        assert(c.colors@ =~= palette());
        c
    }

    /// Yields the current color and moves one position on, wrapping after the last.
    pub fn next(&mut self) -> (c: Rgb)
        requires
            old(self).wf(),
        ensures
            final(self).wf(),
            c == palette()[old(self).position() as int],
            final(self).position() == (old(self).position() + 1) % (CYCLE_LEN as nat),
    {
        let c = self.colors[self.pos];
        self.pos = if self.pos + 1 == CYCLE_LEN {
            0
        } else {
            self.pos + 1
        };
        c
    }
}

} // verus!

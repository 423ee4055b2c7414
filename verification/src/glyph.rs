//! The shapes of the sixteen hexadecimal digits on a seven-segment display.
//!
//! The segments are named as on the data sheets of such displays:
//!
//! ```text
//!     _______
//!    |   a   |
//!    |f     b|
//!    |   g   |
//!    |-------|
//!    |e     c|
//!    |   d   |
//!    '-------'  .
//!               p
//! ```

use vstd::prelude::*;

verus! {

/// One of the eight lights of the display: the seven strokes of a digit, `A` at the top
/// and round clockwise to `F`, `G` in the middle, and the decimal point `P`.
#[derive(Clone, Copy, Debug, PartialEq, Eq)]
pub enum Segment {
    A,
    B,
    C,
    D,
    E,
    F,
    G,
    P,
}

/// Which of the eight segments are lit. `true` means that the segment is to be seen
/// glowing, whatever level its line needs for that.
#[derive(Clone, Copy, Debug, PartialEq, Eq)]
pub struct Pattern {
    pub a: bool,
    pub b: bool,
    pub c: bool,
    pub d: bool,
    pub e: bool,
    pub f: bool,
    pub g: bool,
    pub p: bool,
}

impl Pattern {
    /// Whether the pattern lights the given segment.
    pub open spec fn lit(self, segment: Segment) -> bool {
        match segment {
            Segment::A => self.a,
            Segment::B => self.b,
            Segment::C => self.c,
            Segment::D => self.d,
            Segment::E => self.e,
            Segment::F => self.f,
            Segment::G => self.g,
            Segment::P => self.p,
        }
    }

    /// The pattern with no segment lit.
    pub open spec fn dark() -> Pattern {
        Pattern { a: false, b: false, c: false, d: false, e: false, f: false, g: false, p: false }
    }
}

/// The strokes A to G, in that order, that draw a digit, one row for each of `0x0` to `0xF`.
/// A number that is no hexadecimal digit lights all seven strokes, so that a wrong value
/// shows on the display instead of passing for a digit or for a dark display.
pub open spec fn strokes(digit: u8) -> (bool, bool, bool, bool, bool, bool, bool) {
    match digit {
        //      A      B      C      D      E      F      G
        0x0 => (true,  true,  true,  true,  true,  true,  false),
        0x1 => (false, true,  true,  false, false, false, false),
        0x2 => (true,  true,  false, true,  true,  false, true),
        0x3 => (true,  true,  true,  true,  false, false, true),
        0x4 => (false, true,  true,  false, false, true,  true),
        0x5 => (true,  false, true,  true,  false, true,  true),
        0x6 => (true,  false, true,  true,  true,  true,  true),
        0x7 => (true,  true,  true,  false, false, false, false),
        0x8 => (true,  true,  true,  true,  true,  true,  true),
        0x9 => (true,  true,  true,  true,  false, true,  true),
        0xA => (true,  true,  true,  false, true,  true,  true),
        0xB => (false, true,  true,  true,  true,  true,  true),
        0xC => (false, false, false, true,  true,  false, true),
        0xD => (false, true,  true,  true,  true,  false, true),
        0xE => (true,  false, false, true,  true,  true,  true),
        0xF => (true,  false, false, false, true,  true,  true),
        _   => (true,  true,  true,  true,  true,  true,  true),
    }
}

/// The pattern that shows a digit: its strokes, and the decimal point if asked for.
pub open spec fn glyph(digit: u8, decimal_point_on: bool) -> Pattern {
    let (a, b, c, d, e, f, g) = strokes(digit);
    Pattern { a, b, c, d, e, f, g, p: decimal_point_on }
}

/// Computes the pattern that shows `digit`, with the decimal point lit if
/// `decimal_point_on`. Every `u8` has a pattern: one above `0xF` gets all seven strokes.
pub fn decode(digit: u8, decimal_point_on: bool) -> (pattern: Pattern)
    ensures
        pattern == glyph(digit, decimal_point_on),
{
    // Each row lists the strokes as they lie on the display, from the top down: a, then
    // f and b, then g, then e and c, then d.
    let (a, f, b, g, e, c, d) = match digit {
        //      a      f      b      g      e      c      d
        0x0 => (true,  true,  true,  false, true,  true,  true),
        0x1 => (false, false, true,  false, false, true,  false),
        0x2 => (true,  false, true,  true,  true,  false, true),
        0x3 => (true,  false, true,  true,  false, true,  true),
        0x4 => (false, true,  true,  true,  false, true,  false),
        0x5 => (true,  true,  false, true,  false, true,  true),
        0x6 => (true,  true,  false, true,  true,  true,  true),
        0x7 => (true,  false, true,  false, false, true,  false),
        0x8 => (true,  true,  true,  true,  true,  true,  true),
        0x9 => (true,  true,  true,  true,  false, true,  true),
        0xA => (true,  true,  true,  true,  true,  true,  false),
        0xB => (false, true,  true,  true,  true,  true,  true),
        0xC => (false, false, false, true,  true,  false, true),
        0xD => (false, false, true,  true,  true,  true,  true),
        0xE => (true,  true,  false, true,  true,  false, true),
        0xF => (true,  true,  false, true,  true,  false, false),
        _   => (true,  true,  true,  true,  true,  true,  true),
    };
    Pattern { a, b, c, d, e, f, g, p: decimal_point_on }
}

/// The decimal point is lit exactly when it is asked for, whatever the digit, and the
/// strokes of a digit do not depend on the decimal point.
pub proof fn lemma_point_is_independent(digit: u8, decimal_point_on: bool)
    ensures
        glyph(digit, decimal_point_on).p == decimal_point_on,
        glyph(digit, decimal_point_on) == (Pattern { p: decimal_point_on, ..glyph(digit, false) }),
        glyph(digit, decimal_point_on) == (Pattern { p: decimal_point_on, ..glyph(digit, true) }),
{
}

/// A number above `0xF` lights all of A to G, and the decimal point as asked.
pub proof fn lemma_no_digit_lights_all_strokes(digit: u8, decimal_point_on: bool)
    requires
        digit >= 0x10,
    ensures
        glyph(digit, decimal_point_on) == (Pattern {
            a: true,
            b: true,
            c: true,
            d: true,
            e: true,
            f: true,
            g: true,
            p: decimal_point_on,
        }),
{
}

} // verus!

//! The driver: eight lines, one polarity, and the three ways to set the display.

use crate::glyph::decode;
use crate::glyph::glyph;
use crate::glyph::Pattern;
use crate::glyph::Segment;
use crate::line::driven_levels;
use crate::line::set_level;
use crate::line::OutputLine;
use crate::polarity::lit_to_physical;
use crate::polarity::physical_level;
use vstd::prelude::*;

verus! {

/// A driver for one eight-segment display: seven strokes and a decimal point, each on a
/// line of its own. All eight segments light on the same level, which is fixed when the
/// driver is made.
pub struct EightSegment<'a> {
    high_on: bool,
    seg_a: OutputLine<'a>,
    seg_b: OutputLine<'a>,
    seg_c: OutputLine<'a>,
    seg_d: OutputLine<'a>,
    seg_e: OutputLine<'a>,
    seg_f: OutputLine<'a>,
    seg_g: OutputLine<'a>,
    seg_p: OutputLine<'a>,
}

/// What the contracts know of a driver: its polarity, and for each line the levels it has
/// been told to take, oldest first.
pub struct DisplayState {
    pub high_on: bool,
    pub a: Seq<bool>,
    pub b: Seq<bool>,
    pub c: Seq<bool>,
    pub d: Seq<bool>,
    pub e: Seq<bool>,
    pub f: Seq<bool>,
    pub g: Seq<bool>,
    pub p: Seq<bool>,
}

impl DisplayState {
    /// The levels that the line of a segment has been told to take, oldest first.
    pub open spec fn line(self, segment: Segment) -> Seq<bool> {
        match segment {
            Segment::A => self.a,
            Segment::B => self.b,
            Segment::C => self.c,
            Segment::D => self.d,
            Segment::E => self.e,
            Segment::F => self.f,
            Segment::G => self.g,
            Segment::P => self.p,
        }
    }

    /// The level that the line of a segment was last told to take, if it was ever told.
    pub open spec fn level(self, segment: Segment) -> Option<bool> {
        if self.line(segment).len() == 0 {
            None
        } else {
            Some(self.line(segment).last())
        }
    }

    /// Whether the segment is lit, going by the last level of its line.
    pub open spec fn shows(self, segment: Segment) -> Option<bool> {
        match self.level(segment) {
            Some(level) => Some(level == self.high_on),
            None => None,
        }
    }

    /// The state after every line has been told once more: each the level that, on this
    /// polarity, lights its segment if the pattern lights it and darkens it if not. The
    /// level for a line depends on that segment's part of the pattern and on the polarity,
    /// on nothing else.
    pub open spec fn show(self, pattern: Pattern) -> DisplayState {
        DisplayState {
            high_on: self.high_on,
            a: self.a.push(physical_level(pattern.a, self.high_on)),
            b: self.b.push(physical_level(pattern.b, self.high_on)),
            c: self.c.push(physical_level(pattern.c, self.high_on)),
            d: self.d.push(physical_level(pattern.d, self.high_on)),
            e: self.e.push(physical_level(pattern.e, self.high_on)),
            f: self.f.push(physical_level(pattern.f, self.high_on)),
            g: self.g.push(physical_level(pattern.g, self.high_on)),
            p: self.p.push(physical_level(pattern.p, self.high_on)),
        }
    }

    /// The state after every line has been told once more to take the level that darkens
    /// its segment: low where high lights, high where low lights.
    pub open spec fn blank(self) -> DisplayState {
        DisplayState {
            high_on: self.high_on,
            a: self.a.push(!self.high_on),
            b: self.b.push(!self.high_on),
            c: self.c.push(!self.high_on),
            d: self.d.push(!self.high_on),
            e: self.e.push(!self.high_on),
            f: self.f.push(!self.high_on),
            g: self.g.push(!self.high_on),
            p: self.p.push(!self.high_on),
        }
    }
}

impl<'a> EightSegment<'a> {
    /// The driver as its contracts see it.
    pub closed spec fn view(&self) -> DisplayState {
        DisplayState {
            high_on: self.high_on,
            a: driven_levels(&self.seg_a),
            b: driven_levels(&self.seg_b),
            c: driven_levels(&self.seg_c),
            d: driven_levels(&self.seg_d),
            e: driven_levels(&self.seg_e),
            f: driven_levels(&self.seg_f),
            g: driven_levels(&self.seg_g),
            p: driven_levels(&self.seg_p),
        }
    }

    /// Makes a driver for a display whose segments light on logic-high (`high_on`) or on
    /// logic-low, from the lines of its eight segments. No line is touched.
    pub fn new(
        high_on: bool,
        seg_a: OutputLine<'a>,
        seg_b: OutputLine<'a>,
        seg_c: OutputLine<'a>,
        seg_d: OutputLine<'a>,
        seg_e: OutputLine<'a>,
        seg_f: OutputLine<'a>,
        seg_g: OutputLine<'a>,
        seg_p: OutputLine<'a>,
    ) -> (driver: Self)
        ensures
            driver@ == (DisplayState {
                high_on,
                a: driven_levels(&seg_a),
                b: driven_levels(&seg_b),
                c: driven_levels(&seg_c),
                d: driven_levels(&seg_d),
                e: driven_levels(&seg_e),
                f: driven_levels(&seg_f),
                g: driven_levels(&seg_g),
                p: driven_levels(&seg_p),
            }),
    {
        EightSegment { high_on, seg_a, seg_b, seg_c, seg_d, seg_e, seg_f, seg_g, seg_p }
    }

    /// Whether the segments of this display light on logic-high.
    pub fn high_on(&self) -> (high_on: bool)
        ensures
            high_on == self@.high_on,
    {
        self.high_on
    }

    /// Darkens the whole display: every line is told the level that turns its segment
    /// off, whether or not it already had it.
    pub fn blank(&mut self)
        ensures
            final(self)@ == old(self)@.blank(),
    {
        self.set_segments(false, false, false, false, false, false, false, false);
    }

    /// Lights exactly the segments whose flag is `true`: every line is told, once, the
    /// level that the polarity asks for, whether or not it already had it.
    pub fn set_segments(
        &mut self,
        seg_a_on: bool,
        seg_b_on: bool,
        seg_c_on: bool,
        seg_d_on: bool,
        seg_e_on: bool,
        seg_f_on: bool,
        seg_g_on: bool,
        seg_p_on: bool,
    )
        ensures
            final(self)@ == old(self)@.show(
                Pattern {
                    a: seg_a_on,
                    b: seg_b_on,
                    c: seg_c_on,
                    d: seg_d_on,
                    e: seg_e_on,
                    f: seg_f_on,
                    g: seg_g_on,
                    p: seg_p_on,
                },
            ),
    {
        set_level(&mut self.seg_a, lit_to_physical(seg_a_on, self.high_on));
        set_level(&mut self.seg_b, lit_to_physical(seg_b_on, self.high_on));
        set_level(&mut self.seg_c, lit_to_physical(seg_c_on, self.high_on));
        set_level(&mut self.seg_d, lit_to_physical(seg_d_on, self.high_on));
        set_level(&mut self.seg_e, lit_to_physical(seg_e_on, self.high_on));
        set_level(&mut self.seg_f, lit_to_physical(seg_f_on, self.high_on));
        set_level(&mut self.seg_g, lit_to_physical(seg_g_on, self.high_on));
        set_level(&mut self.seg_p, lit_to_physical(seg_p_on, self.high_on));
    }

    /// Shows a hexadecimal digit, with the decimal point lit if `decimal_point_on`. A
    /// `digit` above `0xF` is no error: it lights all seven strokes.
    pub fn display(&mut self, digit: u8, decimal_point_on: bool)
        ensures
            final(self)@ == old(self)@.show(glyph(digit, decimal_point_on)),
    {
        let pattern = decode(digit, decimal_point_on);
        self.set_segments(
            pattern.a,
            pattern.b,
            pattern.c,
            pattern.d,
            pattern.e,
            pattern.f,
            pattern.g,
            pattern.p,
        );
    }
}

/// Blanking is showing the pattern with no segment lit, on either polarity and whatever
/// the lines were told before.
pub proof fn lemma_blank_shows_dark(state: DisplayState)
    ensures
        state.blank() == state.show(Pattern::dark()),
{
}

/// Showing a pattern tells each line once more, and only the level that its own segment
/// needs: high exactly when the segment is to be lit on a display that lights on high, or
/// to be dark on one that lights on low. The polarity stays as it was.
pub proof fn lemma_show_levels(state: DisplayState, pattern: Pattern)
    ensures
        state.show(pattern).high_on == state.high_on,
        forall|segment: Segment| #[trigger]
            state.show(pattern).line(segment) == state.line(segment).push(
                physical_level(pattern.lit(segment), state.high_on),
            ),
        forall|segment: Segment| #[trigger]
            state.show(pattern).level(segment) == Some(pattern.lit(segment) ^ !state.high_on),
{
}

/// After a pattern is shown, a segment is lit exactly if the pattern lights it, on either
/// polarity and whatever was shown before. After blanking, no segment is lit.
pub proof fn lemma_show_is_seen(state: DisplayState, pattern: Pattern)
    ensures
        forall|segment: Segment| #[trigger]
            state.show(pattern).shows(segment) == Some(pattern.lit(segment)),
        forall|segment: Segment| #[trigger] state.blank().shows(segment) == Some(false),
{
}

/// Showing the same pattern a second time leaves every line on the level that the first
/// time left it on. So it is with a digit displayed twice, and with blanking twice.
pub proof fn lemma_show_again_keeps_levels(state: DisplayState, pattern: Pattern)
    ensures
        forall|segment: Segment| #[trigger]
            state.show(pattern).show(pattern).level(segment) == state.show(pattern).level(
                segment,
            ),
{
}

/// Two displays of opposite polarity that show the same digit, with the same decimal
/// point, have opposite levels on every line.
pub proof fn lemma_polarity_symmetry(
    one: DisplayState,
    other: DisplayState,
    digit: u8,
    decimal_point_on: bool,
)
    requires
        one.high_on != other.high_on,
    ensures
        forall|segment: Segment|
            #![trigger one.show(glyph(digit, decimal_point_on)).level(segment)]
            #![trigger other.show(glyph(digit, decimal_point_on)).level(segment)]
            {
                let level = one.show(glyph(digit, decimal_point_on)).level(segment);
                let opposite = other.show(glyph(digit, decimal_point_on)).level(segment);
                level is Some && opposite is Some && level->0 == !opposite->0
            },
{
}

} // verus!

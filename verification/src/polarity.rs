//! Polarity: which logic level lights a segment.
//!
//! Some displays light a segment when its line is high, others when it is low. A display is
//! one or the other for all of its segments, and this module is the one place where "lit" is
//! turned into "high" or "low".

use vstd::prelude::*;

verus! {

/// The logic level (`true` for high) that a line must carry so that its segment is lit, if
/// `lit`, or dark, if not, on a display whose segments light on logic-high (`high_on`) or on
/// logic-low.
pub open spec fn physical_level(lit: bool, high_on: bool) -> bool {
    if high_on {
        lit
    } else {
        !lit
    }
}

/// Computes the logic level for a segment that is to be `lit` or dark on a display of the
/// given polarity.
pub fn lit_to_physical(lit: bool, high_on: bool) -> (level: bool)
    ensures
        level == physical_level(lit, high_on),
        level == (lit ^ !high_on),
{
    lit ^ !high_on
}

/// A display of the opposite polarity needs the opposite level on every line: what lights
/// a segment on one darkens it on the other.
pub proof fn lemma_opposite_polarity_opposite_level(lit: bool, high_on: bool)
    ensures
        physical_level(lit, !high_on) == !physical_level(lit, high_on),
{
}

/// The line of a lit segment is high exactly on a display that lights on high, and the
/// line of a dark segment is high exactly on one that lights on low: lit and dark never
/// share a level.
pub proof fn lemma_level_tells_lit_from_dark(high_on: bool)
    ensures
        physical_level(true, high_on) == high_on,
        physical_level(false, high_on) == !high_on,
{
}

} // verus!

//! One output line of the display, and the record of what it was told.

use embedded_hal::digital::v2::OutputPin;
use embedded_hal::digital::v2::PinState;
use vstd::prelude::*;

verus! {

/// One output line: an exclusive borrow of a pin that can be driven high or low and that
/// cannot report a failure.
///
/// Verus sees nothing inside a line: it cannot look behind `dyn OutputPin`. All that the
/// contracts of this crate know of a line is [`driven_levels`].
#[verifier::external_body]
pub struct OutputLine<'a> {
    /// The pin that the line drives.
    pub pin: &'a mut dyn OutputPin<Error = core::convert::Infallible>,
}

/// The levels (`true` for high) that the line has been told to take through this crate,
/// oldest first. It records requests, not the voltage on the wire: what the pin's own code
/// made of them, and what other circuitry does to the wire, is outside this crate.
pub uninterp spec fn driven_levels(line: &OutputLine) -> Seq<bool>;

/// Tells the line to go high (`true`) or low.
///
/// Trusted, not proved: it calls `OutputPin::set_state` of `embedded-hal` once, with
/// `PinState::High` for `true` and `PinState::Low` for `false`, which by that crate's
/// word drives the pin high or low. The contract says that this one request, and nothing
/// else, is added to the line's record. What the call returns is dropped: the pin's error
/// type has no values, so there is no failure to pass on.
#[verifier::external_body]
pub(crate) fn set_level(line: &mut OutputLine, high: bool)
    ensures
        driven_levels(final(line)) == driven_levels(old(line)).push(high),
{
    let _ = line.pin.set_state(PinState::from(high));
}

} // verus!

//! A driver for eight-segment displays: seven strokes and a decimal point, which show one
//! hexadecimal digit at a time.
//!
//! Each segment hangs on an output line of its own. Displays differ in the level that
//! lights a segment: on some it is logic-high, on others logic-low. The driver is told
//! which when it is made, and from then on the caller speaks of lit and dark segments
//! only.
//!
//! ```rust,ignore
//! // `seg_a` to `seg_p` are pins of any `embedded-hal` implementation whose
//! // writes cannot fail.
//! let mut display = EightSegment::new(
//!     false, // this display lights a segment on logic-low
//!     OutputLine { pin: &mut seg_a },
//!     OutputLine { pin: &mut seg_b },
//!     OutputLine { pin: &mut seg_c },
//!     OutputLine { pin: &mut seg_d },
//!     OutputLine { pin: &mut seg_e },
//!     OutputLine { pin: &mut seg_f },
//!     OutputLine { pin: &mut seg_g },
//!     OutputLine { pin: &mut seg_p },
//! );
//! display.blank(); // all segments off
//! display.display(0xb, false); // the digit b, decimal point off
//! ```
//!
//! The contracts are stated over [`DisplayState`]: the polarity, and for each line the
//! levels it has been told to take. The digit shapes are in [`glyph`], the step
//! from lit and dark to high and low in [`polarity`].

pub mod driver;
pub mod glyph;
pub mod line;
pub mod polarity;

pub use crate::driver::DisplayState;
pub use crate::driver::EightSegment;
pub use crate::glyph::decode;
pub use crate::glyph::Pattern;
pub use crate::glyph::Segment;
pub use crate::line::OutputLine;
pub use crate::polarity::lit_to_physical;

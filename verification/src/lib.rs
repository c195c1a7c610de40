//! Verified core of a slider control and of the plain-text document format.
//!
//! - [`scale`]: how a slider maps its track onto its value range (linear or
//!   logarithmic).
//! - [`value`]: the value a slider holds, a single value or a range, and the
//!   events it announces.
//! - [`drag`]: the bookkeeping of a pointer gesture: when a drag is anchored,
//!   when it continues from its anchor, and when a release is announced.
//! - [`slider`]: the slider element's configuration (axis, disabled state).
//! - [`plain`]: plain text parsed verbatim into a single paragraph.
//!
//! The arithmetic on the slider's numbers (clamping, the mapping between a
//! track fraction and a value, stepping, the pointer filter) is floating
//! point and is not part of this crate.

pub mod drag;
pub mod plain;
pub mod scale;
pub mod slider;
pub mod value;

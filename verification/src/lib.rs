//! Display of physical quantities with SI prefixes.
//!
//! A quantity is a binary64 number, handled here by its 64-bit pattern. The
//! library decides which prefix a quantity is shown with and puts the pieces
//! of the text together; dividing and printing the digits is the caller's
//! part.
//!
//! - `binary64`: what a pattern stands for, and how patterns are ordered.
//! - `si`: the prefixes, their thresholds and the choice among them.
//! - `thresholds`: that the thresholds are the powers of a thousand.
//! - `text`: the text of a quantity and of a vector.

pub mod binary64;
pub mod si;
pub mod text;
pub mod thresholds;

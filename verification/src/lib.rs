//! Core data model for a combinatorial character-build optimizer.
//!
//! The crate defines a fixed-size, enum-indexed attribute vector, a cheap
//! copyable `Character` candidate that the surrounding search engine
//! constructs, mutates, scores and filters at high frequency, and a
//! reporting-grade `ResultCharacter` snapshot with a structured breakdown
//! of computed results.
//!
//! All numeric quantities are fixed-point integers: a caller picks one
//! scale (say, thousandths) and uses it consistently for attribute values
//! and `Settings` thresholds. Percentage-like thresholds (`minCritChance`,
//! `minBoonDuration`, ...) are given in percent at that same scale; the
//! validity checks compare `100 * value < threshold`, which is exactly the
//! comparison `value < threshold / 100` over the underlying rationals.

pub mod affix;
pub mod attribute;
pub mod character;
pub mod result;
pub mod settings;

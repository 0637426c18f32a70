//! Exact generation of evenly spaced sequences over a closed interval.
//!
//! The generator works on rational numbers held as integer pairs, so every
//! sample is produced and reasoned about exactly: the first sample is the
//! left endpoint, the last is the right endpoint, and consecutive samples
//! differ by the constant step `(b - a) / (n - 1)`.  A small companion
//! module raises integers to their sixth power.

pub mod generator;
pub mod power;
pub mod rational;

pub use generator::LinspaceError;
pub use generator::linspace;
pub use power::pow6;
pub use rational::Rational;

//! Binary layouts of raw media.
pub mod sample;
pub use self::sample::Sample;

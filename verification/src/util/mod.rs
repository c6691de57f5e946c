//! Utility types shared by the codec and format layers.
pub mod channel_layout;
pub mod dictionary;
pub mod error;
pub mod format;
pub mod frame;
pub mod handle;
pub mod media;
pub mod range;
pub mod rational;

//! Encoders: codec contexts set up to turn frames into packets.
//!
//! An [`Encoder`] has no medium of its own yet. It becomes an [`Audio`],
//! [`Video`] or [`Subtitle`] encoder by taking that medium on, which a
//! context of another medium refuses; from then on the medium is kept for
//! good. An audio encoder is opened through an opening that holds the request
//! for the engine, and only the opened encoder takes frames and gives
//! packets. Each step consumes the value of the state before.
pub mod encoder;
pub use self::encoder::Encoder;

pub mod video;
pub use self::video::Video;

pub mod audio;
pub use self::audio::Audio;

pub mod subtitle;
pub use self::subtitle::Subtitle;

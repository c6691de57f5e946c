//! Codec contexts and the decoders and encoders made of them.
pub mod flag;
pub use self::flag::Flags;

pub mod id;
pub use self::id::Id;

pub mod packet;

pub mod discard;

pub mod context;
pub use self::context::Context;

pub mod codec;

pub mod parameters;
pub use self::parameters::Parameters;

pub mod audio_service;

pub mod compliance;
pub use self::compliance::Compliance;

pub mod debug;

pub mod threading;

pub mod streaming;

pub mod decoder;
pub mod encoder;

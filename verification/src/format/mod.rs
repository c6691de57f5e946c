//! Containers: the sources that packets are read from.
pub mod stream;
pub use self::stream::Stream;

pub mod context;

//! The contexts of opened containers.
pub mod input;
pub use self::input::Input;

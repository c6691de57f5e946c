//! A verified core for a binding layer over a native multimedia codec engine.
//!
//! The engine itself is reached from outside this crate. What lives here is
//! everything the binding decides on its own: who releases a native resource,
//! which state a codec context is in, how the engine's return codes become
//! typed errors, how packets are pulled out of a container and how the planes
//! of a decoded frame may be read. Each native call appears as the plain
//! values it was given and the plain values it handed back.
#![allow(non_camel_case_types)]
#![allow(clippy::module_inception)]
#![allow(clippy::too_many_arguments)]

pub mod util;
pub use crate::util::channel_layout::{self, ChannelLayout};
pub use crate::util::dictionary::{self, Dictionary};
pub use crate::util::error::{self, Error};
pub use crate::util::frame::{self, Frame};
pub use crate::util::media;
pub use crate::util::rational::{self, Rational};

pub mod format;
pub use crate::format::stream::Stream;

pub mod codec;
pub use crate::codec::audio_service::AudioService;
pub use crate::codec::codec::Codec;
pub use crate::codec::discard::Discard;
pub use crate::codec::packet::{self, Packet};
pub use crate::codec::threading;
pub use crate::codec::{decoder, encoder};

use vstd::prelude::*;

verus! {

/// The process-wide state of the engine: which of its services this build
/// reaches, and which of its registries have been filled.
///
/// There is one of these for a process. Initialization is not safe to race
/// with the first use of anything else.
#[derive(Clone, Copy, Debug, PartialEq, Eq, Structural)]
pub struct Engine {
    /// Whether container formats are part of this build.
    pub format: bool,
    /// Whether devices are part of this build.
    pub device: bool,
    /// Whether filters are part of this build.
    pub filter: bool,
    /// Whether the table of error messages has been filled.
    pub errors_registered: bool,
    /// Whether the container formats have been registered.
    pub formats_registered: bool,
    /// Whether the devices have been registered.
    pub devices_registered: bool,
    /// Whether the filters have been registered.
    pub filters_registered: bool,
}

impl Engine {
    /// The engine after initialization: every registry of a service that the
    /// build reaches is filled, and no other has changed.
    pub open spec fn initialized(self) -> Engine {
        Engine {
            errors_registered: true,
            formats_registered: self.formats_registered || self.format,
            devices_registered: self.devices_registered || self.device,
            filters_registered: self.filters_registered || self.filter,
            ..self
        }
    }

    /// Whether nothing is left to initialize.
    pub open spec fn ready(self) -> bool {
        self.initialized() == self
    }

    /// The engine of a process that has initialized nothing yet.
    pub fn new(format: bool, device: bool, filter: bool) -> (engine: Engine)
        ensures
            engine == (Engine {
                format,
                device,
                filter,
                errors_registered: false,
                formats_registered: false,
                devices_registered: false,
                filters_registered: false,
            }),
    {
        Engine {
            format,
            device,
            filter,
            errors_registered: false,
            formats_registered: false,
            devices_registered: false,
            filters_registered: false,
        }
    }
}

/// Marks the table of error messages as filled. The answer says whether the
/// engine has to fill it now: only the first time.
pub fn init_error(engine: &mut Engine) -> (due: bool)
    ensures
        due == !old(engine).errors_registered,
        *final(engine) == (Engine { errors_registered: true, ..*old(engine) }),
{
    let due = !engine.errors_registered;
    engine.errors_registered = true;
    due
}

/// Marks the container formats as registered, where the build has them. The
/// answer says whether the engine has to register them now.
pub fn init_format(engine: &mut Engine) -> (due: bool)
    ensures
        due == (old(engine).format && !old(engine).formats_registered),
        *final(engine) == (Engine {
            formats_registered: old(engine).formats_registered || old(engine).format,
            ..*old(engine)
        }),
{
    let due = engine.format && !engine.formats_registered;
    if engine.format {
        engine.formats_registered = true;
    }
    due
}

/// Marks the devices as registered, where the build has them. The answer
/// says whether the engine has to register them now.
pub fn init_device(engine: &mut Engine) -> (due: bool)
    ensures
        due == (old(engine).device && !old(engine).devices_registered),
        *final(engine) == (Engine {
            devices_registered: old(engine).devices_registered || old(engine).device,
            ..*old(engine)
        }),
{
    let due = engine.device && !engine.devices_registered;
    if engine.device {
        engine.devices_registered = true;
    }
    due
}

/// Marks the filters as registered, where the build has them. The answer
/// says whether the engine has to register them now.
pub fn init_filter(engine: &mut Engine) -> (due: bool)
    ensures
        due == (old(engine).filter && !old(engine).filters_registered),
        *final(engine) == (Engine {
            filters_registered: old(engine).filters_registered || old(engine).filter,
            ..*old(engine)
        }),
{
    let due = engine.filter && !engine.filters_registered;
    if engine.filter {
        engine.filters_registered = true;
    }
    due
}

/// Initializes every service of the engine that the build reaches: errors,
/// formats, devices, filters, in this order. It always succeeds, and calling
/// it again changes nothing.
pub fn init(engine: &mut Engine) -> (result: Result<(), Error>)
    ensures
        result is Ok,
        *final(engine) == old(engine).initialized(),
        final(engine).ready(),
{
    init_error(engine);
    init_format(engine);
    init_device(engine);
    init_filter(engine);
    Ok(())
}

/// Initialization is idempotent: an initialized engine is ready, and
/// initializing a ready engine leaves it as it is.
pub proof fn lemma_init_is_idempotent(engine: Engine)
    ensures
        engine.initialized().ready(),
        engine.initialized().initialized() == engine.initialized(),
        engine.ready() ==> engine.initialized() == engine,
{
}

} // verus!

//! The failures that the registry reports.

use vstd::prelude::*;

verus! {

/// Why a request to the registry failed.
#[derive(Clone, Copy, Debug, PartialEq, Eq, Structural)]
pub enum Error {
    /// No backend exists for the requested level or service.
    HardwareTypeUnavailable,
    /// The service locator knows no service of the requested name.
    NameNotFound,
    /// The backend was reachable but the call failed; the transport's status
    /// code is kept.
    Transport(i32),
    /// The backend answered but misbehaved; its error code is kept.
    Protocol(i32),
    /// A lookup that only reads the cache found nothing.
    NotFound,
}

/// The point of a negotiation at which it failed.
#[derive(Clone, Copy, Debug, PartialEq, Eq, Structural)]
pub enum ConnectStage {
    /// Before any call: the requested level has no native service name.
    Level,
    /// While looking up the native service.
    NativeService,
    /// While looking up the compatibility service.
    CompatService,
    /// While asking the compatibility service for a legacy wrapper.
    LegacyWrapper,
    /// While asking the connected device for its hardware info.
    HardwareInfo,
}

/// A failed negotiation: what went wrong and where.
#[derive(Clone, Copy, Debug, PartialEq, Eq, Structural)]
pub struct ConnectError {
    pub kind: Error,
    pub stage: ConnectStage,
}

impl Error {
    /// What a failure on the fallback path means to the caller: a missing
    /// bridge or wrapper is a missing device, anything else is itself.
    pub open spec fn on_fallback(self) -> Error {
        if self == Error::NameNotFound {
            Error::HardwareTypeUnavailable
        } else {
            self
        }
    }

    /// Computes [`Error::on_fallback`].
    pub fn fallback_kind(self) -> (kind: Error)
        ensures
            kind == self.on_fallback(),
    {
        match self {
            Error::NameNotFound => Error::HardwareTypeUnavailable,
            other => other,
        }
    }
}

} // verus!

use vstd::prelude::*;

verus! {

/// The failures an equipment operation can report.
///
/// `Validation` and `ControlNotGranted` are detected locally, before any wire
/// traffic; `Transport` comes from the link itself; `Cancelled` is raised when
/// the shutdown signal is observed during discovery; `ProtocolDecode` marks a
/// malformed telemetry notification, distinct from a transport failure.
#[derive(Clone, Copy, Debug, PartialEq, Eq, Structural)]
pub enum KondisError {
    /// A target value lay outside `[1, max_level]`.
    Validation { value: i16, max_level: i16 },
    /// The shutdown signal was observed while discovery was still running.
    Cancelled,
    /// The underlying link failed to connect, write or subscribe.
    Transport,
    /// A telemetry notification could not be decoded.
    ProtocolDecode,
    /// A control command was attempted before control was granted.
    ControlNotGranted,
}

impl KondisError {
    /// Whether this error is the rejection of an out-of-range target value.
    pub open spec fn is_validation(self) -> bool {
        self is Validation
    }
}

} // verus!

use vstd::prelude::*;

verus! {

/// Error kinds surfaced by the client core.
///
/// Transport errors raised by an established endpoint are propagated verbatim
/// by the runtime that owns the endpoint; the core itself only ever reports
/// that no endpoint is held.
#[derive(Clone, Copy, Debug, PartialEq, Eq, Structural)]
pub enum ClientError {
    /// `send` or `recv` was invoked while the endpoint slot is empty.
    NetNotConnected,
}

} // verus!

use vstd::prelude::*;

use crate::errors::ClientError;

verus! {

/// Lifecycle callbacks invoked by the surrounding runtime, not by the
/// connection handle itself: on an inbound connection being accepted, on an
/// outbound connection attempt completing, on a runtime-level error, and on
/// runtime shutdown.  Real systems plug in handlers that drive reconnection
/// policy, metrics or cleanup; the minimal handler leaves all four empty.
pub trait HandleEvent {
    /// An inbound connection was accepted; `endpoint` identifies it.
    fn on_accepted(&self, endpoint: u64) -> Result<(), ClientError>;

    /// An outbound connection attempt to `addr` completed, with the endpoint
    /// it established or the error it hit.
    fn on_connected(&self, addr: &str, result: Result<u64, ClientError>) -> Result<
        (),
        ClientError,
    >;

    /// The runtime hit an error.
    fn on_error(&self, error: ClientError);

    /// The runtime is shutting down.
    fn on_stop(&self);
}

/// The minimal event handler: every callback is a no-op.
pub struct Handler {}

impl Handler {
    /// Create the no-op handler.
    pub fn new() -> (r: Self) {
        Handler {}
    }
}

impl HandleEvent for Handler {
    fn on_accepted(&self, _endpoint: u64) -> Result<(), ClientError> {
        Ok(())
    }

    fn on_connected(&self, _addr: &str, _result: Result<u64, ClientError>) -> Result<
        (),
        ClientError,
    > {
        Ok(())
    }

    fn on_error(&self, _error: ClientError) {
    }

    fn on_stop(&self) {
    }
}

} // verus!

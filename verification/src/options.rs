use vstd::prelude::*;

verus! {

/// Construction-time options of the client.
#[derive(Clone, Copy, Debug)]
pub struct OptClient {
    /// Enables test-mode behaviour in the surrounding runtime.
    pub enable_testing: bool,
}

/// Options of one `connect` call.
#[derive(Clone, Copy, Debug)]
pub struct OptClientConnect {
    /// Maximum number of dial attempts; `0` means retry indefinitely.
    pub retry_max: u64,
    /// Fixed wait in milliseconds between failed dial attempts.
    pub retry_wait_ms: u64,
}

impl OptClientConnect {
    /// The default connect options: retry indefinitely, waiting 50 ms
    /// between failed attempts.
    pub fn new() -> (r: Self)
        ensures
            r.retry_max == 0,
            r.retry_wait_ms == 50,
    {
        Self { retry_max: 0, retry_wait_ms: 50 }
    }
}

impl Default for OptClientConnect {
    fn default() -> (r: Self)
        ensures
            r.retry_max == 0,
            r.retry_wait_ms == 50,
    {
        Self::new()
    }
}

} // verus!

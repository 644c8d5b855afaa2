use vstd::prelude::*;

use crate::connect::ConnectTask;
use crate::errors::ClientError;
use crate::options::OptClient;

verus! {

/// The connection handle: at most one live endpoint to one remote peer.
///
/// Endpoints are identified by plain handles chosen by the runtime that
/// performs the dialing and owns the transport; the handle itself only
/// decides which endpoint, if any, each operation uses.  The runtime keeps
/// the handle behind one exclusive lock, so every operation here sees and
/// leaves a whole, never half-written, slot.
pub struct Client {
    /// Identity of the remote peer; immutable after construction.
    pub nid: u64,
    /// String-encoded network address of the peer; immutable after
    /// construction.
    pub addr: String,
    /// Whether test-mode behaviour was requested at construction.
    pub enable_testing: bool,
    /// The endpoint slot: zero or one established endpoint.
    pub slot: Option<u64>,
}

impl Client {
    /// The slot after a `connect` call whose retry loop produced `outcome`:
    /// a returned endpoint replaces the slot's contents (last writer wins);
    /// otherwise the slot is left exactly as it was.
    pub open spec fn with_outcome(self, outcome: Option<u64>) -> Client {
        if outcome is Some {
            Client { slot: outcome, ..self }
        } else {
            self
        }
    }

    /// Create a handle to the peer `node_id` at `addr`, with an empty
    /// endpoint slot.
    pub fn new(node_id: u64, addr: String, opt: OptClient) -> (r: Self)
        ensures
            r.nid == node_id,
            r.addr == addr,
            r.enable_testing == opt.enable_testing,
            r.slot is None,
    {
        Client { nid: node_id, addr, enable_testing: opt.enable_testing, slot: None }
    }

    /// Whether the slot currently holds an endpoint.  No side effects.
    pub fn is_connected(&self) -> (r: bool)
        ensures
            r == (self.slot is Some),
    {
        self.slot.is_some()
    }

    /// The identity of the remote peer.
    pub fn node_id(&self) -> (r: u64)
        ensures
            r == self.nid,
    {
        self.nid
    }

    /// The string-encoded address of the remote peer.
    pub fn server_addr(&self) -> (r: String)
        ensures
            r@ == self.addr@,
    {
        self.addr.clone()
    }

    /// Complete a `connect` call whose retry loop is `task`.
    ///
    /// If the loop returned an endpoint, it replaces whatever the slot held;
    /// otherwise the slot is left as it was.  The call reports success either
    /// way: a dial error is never surfaced to the caller, who observes an
    /// exhausted retry budget only through `is_connected`.
    pub fn connect_finish(&mut self, task: &ConnectTask) -> (r: Result<(), ClientError>)
        ensures
            r is Ok,
            *final(self) == old(self).with_outcome(task.endpoint),
    {
        if let Some(e) = task.endpoint {
            self.slot = Some(e);
        }
        Ok(())
    }

    /// Route one outgoing message.
    ///
    /// If the slot is empty the call fails at once with `NetNotConnected`
    /// and the message is dropped without any endpoint being touched.
    /// Otherwise it returns the held endpoint together with the message,
    /// for the runtime to forward; the endpoint's own result is then
    /// propagated verbatim.
    pub fn send<M>(&self, message: M) -> (r: Result<(u64, M), ClientError>)
        ensures
            self.slot matches Some(e) ==> r == Ok::<(u64, M), ClientError>((e, message)),
            self.slot is None ==> r == Err::<(u64, M), ClientError>(
                ClientError::NetNotConnected,
            ),
    {
        match self.slot {
            Some(e) => Ok((e, message)),
            None => Err(ClientError::NetNotConnected),
        }
    }

    /// Route one receive.
    ///
    /// If the slot is empty the call fails at once with `NetNotConnected`
    /// without any endpoint being touched.  Otherwise it returns the held
    /// endpoint, for the runtime to receive from; the endpoint's own result
    /// is then propagated verbatim.
    pub fn recv(&self) -> (r: Result<u64, ClientError>)
        ensures
            self.slot matches Some(e) ==> r == Ok::<u64, ClientError>(e),
            self.slot is None ==> r == Err::<u64, ClientError>(ClientError::NetNotConnected),
    {
        match self.slot {
            Some(e) => Ok(e),
            None => Err(ClientError::NetNotConnected),
        }
    }
}

/// After any `connect` call completes with loop outcome `o`, the handle is
/// connected exactly when the loop returned an endpoint or the slot already
/// held one; a returned endpoint always replaces the slot's contents, and a
/// run that returned none leaves the whole handle untouched.
pub proof fn lemma_connect_reflects_outcome(c: Client, o: Option<u64>)
    ensures
        c.with_outcome(o).slot is Some <==> (o is Some || c.slot is Some),
        o is Some ==> c.with_outcome(o).slot == o,
        o is None ==> c.with_outcome(o) == c,
{
}

/// A retry loop that exhausted a bounded budget without a successful dial
/// holds no endpoint, so completing its `connect` call leaves the handle
/// exactly as it was: still reporting success at the handle level, and
/// disconnected if it was disconnected before.
pub proof fn lemma_exhausted_connect_leaves_handle_unchanged(c: Client, t: ConnectTask)
    requires
        t.wf(),
        !t.finished,
    ensures
        c.with_outcome(t.endpoint) == c,
{
}

} // verus!

//! The reactor's decisions: the connection table and the per-connection
//! lifecycle under readiness events.
//!
//! The caller owns the sockets and the readiness wait; this module owns every
//! decision. A connection is born on accept with the next identifier and waits
//! for a request; one read either closes it (empty read), stores an immediate
//! error response, or starts a resource fetch; the fetch outcome stores the
//! final response; a write-readiness event surrenders the stored response and
//! removes the connection. Identifier 0 is reserved for the listening socket:
//! identifiers are handed out from 1 upward and never reused, so an accept can
//! never displace a live connection. Each connection owns its pending
//! response, so no connection's activity can overwrite another's.

use std::collections::HashMap;

use vstd::prelude::*;
use vstd::utf8::valid_utf8;

use crate::request::RequestAction;
use crate::request::is_get;
use crate::request::path_of;
use crate::request::request_shape;
use crate::request::resolve_request;
use crate::response::create_msg_from_code;
use crate::response::header_200;
use crate::response::response_400;
use crate::response::response_404;
use crate::response::response_501;
use crate::response::view_opt;

verus! {

/// A live connection's place in its lifecycle.
pub enum ConnState {
    /// Registered for read-readiness; no request seen yet.
    AwaitingRequest,
    /// A retrieval request was read; the caller is fetching the resource.
    Fetching,
    /// The response is computed and waits for write-readiness.
    AwaitingFlush(Vec<u8>),
}

/// The mathematical image of a connection's state.
pub enum ConnModel {
    AwaitingRequest,
    Fetching,
    AwaitingFlush(Seq<u8>),
}

impl View for ConnState {
    type V = ConnModel;

    open spec fn view(&self) -> ConnModel {
        match self {
            ConnState::AwaitingRequest => ConnModel::AwaitingRequest,
            ConnState::Fetching => ConnModel::Fetching,
            ConnState::AwaitingFlush(v) => ConnModel::AwaitingFlush(v@),
        }
    }
}

/// What one read-readiness event came to.
#[derive(Debug)]
pub enum ReadStep {
    /// The identifier names no connection awaiting a request; nothing changed.
    Ignored,
    /// The peer closed without sending; the connection is gone, no response.
    Closed,
    /// An immediate error response is stored; await write-readiness.
    Ready,
    /// A retrieval request: fetch this path's resource, then hand the outcome
    /// back, and await write-readiness.
    NeedFile(Vec<u8>),
}

/// The event loop's state: the live connections and the next identifier.
pub struct Reactor {
    pub connections: HashMap<usize, ConnState>,
    pub next_connection_id: usize,
}

impl Reactor {
    /// The connection table as a map from identifier to state model.
    pub open spec fn table(self) -> Map<usize, ConnModel> {
        self.connections@.map_values(|s: ConnState| s@)
    }

    /// Identifiers are handed out from 1 upward; every live identifier was
    /// handed out already, so the next one never collides (and 0, the
    /// listener's token, never names a connection).
    pub open spec fn wf(self) -> bool {
        &&& 1 <= self.next_connection_id
        &&& forall|k: usize|
            self.connections@.contains_key(k) ==> 1 <= k < self.next_connection_id
    }

    /// A reactor with no connections; the first accept gets identifier 1.
    pub fn new() -> (r: Reactor)
        ensures
            r.wf(),
            r.table() == Map::<usize, ConnModel>::empty(),
            r.next_connection_id == 1,
    {
        let r = Reactor { connections: HashMap::new(), next_connection_id: 1 };
        proof {
            assert(r.table() =~= Map::<usize, ConnModel>::empty());
        }
        r
    }

    /// A connection was accepted: assign it the next identifier and hold it
    /// awaiting its request. The identifier never names a live connection, so
    /// nothing is displaced.
    pub fn on_accept(&mut self) -> (id: usize)
        requires
            old(self).wf(),
            old(self).next_connection_id < usize::MAX,
        ensures
            final(self).wf(),
            id == old(self).next_connection_id,
            !old(self).table().contains_key(id),
            final(self).table() == old(self).table().insert(id, ConnModel::AwaitingRequest),
            final(self).next_connection_id == old(self).next_connection_id + 1,
    {
        let id = self.next_connection_id;
        self.connections.insert(id, ConnState::AwaitingRequest);
        self.next_connection_id = self.next_connection_id + 1;
        proof {
            assert(!old(self).table().contains_key(id));
            assert(self.table() =~= old(self).table().insert(id, ConnModel::AwaitingRequest));
        }
        id
    }

    /// One read-readiness event, with the bytes that one bounded read
    /// returned. An empty read is the peer's close: the connection leaves the
    /// table with no response stored. Otherwise the bytes are interpreted: a
    /// rejected request stores its error response at once, and a retrieval
    /// request leaves the connection fetching while the caller reads the
    /// resource. An identifier not awaiting a request is ignored.
    pub fn on_read(&mut self, id: usize, data: &[u8]) -> (step: ReadStep)
        requires
            old(self).wf(),
        ensures
            final(self).wf(),
            final(self).next_connection_id == old(self).next_connection_id,
            !(old(self).table().contains_key(id) && old(self).table()[id]
                is AwaitingRequest) ==> (step == ReadStep::Ignored && final(self).table() == old(
                self,
            ).table()),
            (old(self).table().contains_key(id) && old(self).table()[id] is AwaitingRequest)
                ==> if data@.len() == 0 {
                step == ReadStep::Closed && final(self).table() == old(self).table().remove(id)
            } else if !(valid_utf8(data@) && request_shape(data@)) {
                step == ReadStep::Ready && final(self).table() == old(self).table().insert(
                    id,
                    ConnModel::AwaitingFlush(response_400()),
                )
            } else if !is_get(data@) {
                step == ReadStep::Ready && final(self).table() == old(self).table().insert(
                    id,
                    ConnModel::AwaitingFlush(response_501()),
                )
            } else {
                (step matches ReadStep::NeedFile(p) && p@ == path_of(data@)) && final(self).table() == old(
                    self,
                ).table().insert(id, ConnModel::Fetching)
            },
    {
        let live = match self.connections.get(&id) {
            Option::Some(st) => match st {
                ConnState::AwaitingRequest => true,
                _ => false,
            },
            Option::None => false,
        };
        if !live {
            return ReadStep::Ignored;
        }
        if data.len() == 0 {
            self.connections.remove(&id);
            proof {
                assert(self.table() =~= old(self).table().remove(id));
            }
            return ReadStep::Closed;
        }
        match resolve_request(data) {
            RequestAction::Respond(code) => {
                let resp = match create_msg_from_code(code, Option::None) {
                    Result::Ok(v) => v,
                    Result::Err(_) => {
                        proof {
                            assert(false);
                        }
                        Vec::new()
                    },
                };
                let ghost stored = resp@;
                self.connections.insert(id, ConnState::AwaitingFlush(resp));
                proof {
                    assert(self.table() =~= old(self).table().insert(
                        id,
                        ConnModel::AwaitingFlush(stored),
                    ));
                }
                ReadStep::Ready
            },
            RequestAction::Fetch(p) => {
                self.connections.insert(id, ConnState::Fetching);
                proof {
                    assert(self.table() =~= old(self).table().insert(id, ConnModel::Fetching));
                }
                ReadStep::NeedFile(p)
            },
        }
    }

    /// The outcome of the resource fetch that a retrieval request started:
    /// the connection's own response — success with the bytes read, or
    /// not-found — is stored until write-readiness. An identifier not
    /// fetching is ignored.
    pub fn on_file(&mut self, id: usize, file: Option<Vec<u8>>) -> (stored: bool)
        requires
            old(self).wf(),
        ensures
            final(self).wf(),
            final(self).next_connection_id == old(self).next_connection_id,
            (old(self).table().contains_key(id) && old(self).table()[id] is Fetching) ==> (stored
                && final(self).table() == old(self).table().insert(
                id,
                ConnModel::AwaitingFlush(
                    match view_opt(file) {
                        Option::Some(f) => header_200() + f,
                        Option::None => response_404(),
                    },
                ),
            )),
            !(old(self).table().contains_key(id) && old(self).table()[id] is Fetching) ==> (!stored
                && final(self).table() == old(self).table()),
    {
        let fetching = match self.connections.get(&id) {
            Option::Some(st) => match st {
                ConnState::Fetching => true,
                _ => false,
            },
            Option::None => false,
        };
        if !fetching {
            return false;
        }
        let resp = match file {
            Option::Some(f) => match create_msg_from_code(200, Option::Some(f)) {
                Result::Ok(v) => v,
                Result::Err(_) => {
                    proof {
                        assert(false);
                    }
                    Vec::new()
                },
            },
            Option::None => match create_msg_from_code(404, Option::None) {
                Result::Ok(v) => v,
                Result::Err(_) => {
                    proof {
                        assert(false);
                    }
                    Vec::new()
                },
            },
        };
        let ghost stored_bytes = resp@;
        self.connections.insert(id, ConnState::AwaitingFlush(resp));
        proof {
            assert(self.table() =~= old(self).table().insert(
                id,
                ConnModel::AwaitingFlush(stored_bytes),
            ));
        }
        true
    }

    /// One write-readiness event: a connection whose response is stored
    /// surrenders exactly those bytes and leaves the table, whatever becomes
    /// of the write. Any other identifier is ignored.
    pub fn on_writable(&mut self, id: usize) -> (r: Option<Vec<u8>>)
        requires
            old(self).wf(),
        ensures
            final(self).wf(),
            final(self).next_connection_id == old(self).next_connection_id,
            (old(self).table().contains_key(id) && old(self).table()[id] is AwaitingFlush) ==> ((
            r matches Option::Some(v) && old(self).table()[id] == ConnModel::AwaitingFlush(v@))
                && final(self).table() == old(self).table().remove(id)),
            !(old(self).table().contains_key(id) && old(self).table()[id] is AwaitingFlush) ==> (
            r is None && final(self).table() == old(self).table()),
    {
        let flushable = match self.connections.get(&id) {
            Option::Some(st) => match st {
                ConnState::AwaitingFlush(_) => true,
                _ => false,
            },
            Option::None => false,
        };
        if !flushable {
            return Option::None;
        }
        match self.connections.remove(&id) {
            Option::Some(ConnState::AwaitingFlush(v)) => {
                proof {
                    assert(self.table() =~= old(self).table().remove(id));
                }
                Option::Some(v)
            },
            _ => {
                proof {
                    assert(false);
                }
                Option::None
            },
        }
    }

    /// Whether an identifier names a live connection.
    pub fn has_connection(&self, id: usize) -> (b: bool)
        ensures
            b == self.table().contains_key(id),
    {
        let b = self.connections.contains_key(&id);
        proof {
            assert(self.table().contains_key(id) == self.connections@.contains_key(id));
        }
        b
    }
}

/// Law: a fetch completes with the owed response. The bytes stored for a
/// connection when its resource read comes back — the success header and the
/// bytes read, or the not-found response — are exactly the response owed for
/// the retrieval request that started the fetch and for that read outcome.
pub proof fn lemma_fetch_completes_response(input: Seq<u8>, file: Option<Seq<u8>>)
    requires
        valid_utf8(input),
        request_shape(input),
        is_get(input),
    ensures
        (match file {
            Option::Some(f) => header_200() + f,
            Option::None => response_404(),
        }) == crate::request::response_for(input, file),
{
}

/// Law: connections are isolated. When two distinct connections each have a
/// response stored — in whatever order their requests were handled — each
/// holds exactly the response stored for it, untouched by the other's.
pub proof fn lemma_responses_isolated(
    t: Map<usize, ConnModel>,
    id1: usize,
    id2: usize,
    r1: Seq<u8>,
    r2: Seq<u8>,
)
    requires
        id1 != id2,
    ensures
        t.insert(id1, ConnModel::AwaitingFlush(r1)).insert(id2, ConnModel::AwaitingFlush(r2))[id1]
            == ConnModel::AwaitingFlush(r1),
        t.insert(id1, ConnModel::AwaitingFlush(r1)).insert(id2, ConnModel::AwaitingFlush(r2))[id2]
            == ConnModel::AwaitingFlush(r2),
{
}

} // verus!

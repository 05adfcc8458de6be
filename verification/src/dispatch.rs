//! The dispatcher: the routing table, the `dispatch` and `error` operations,
//! and the queue of admitted detached work.
//!
//! `dispatch` never fails outwardly: every failure becomes a wire-level error
//! frame, sent best-effort under the reserved error key. Sending an error
//! about a failed error transmission is defined to be a no-op.

use vstd::prelude::*;

use crate::codec::enc_bytes;
use crate::codec::enc_u32;
use crate::codec::enc_wire_error;
use crate::context::SpawnContext;
use crate::context::TestContext;
use crate::context::TestSpawnContext;
use crate::endpoints::ALPHA_REQ_KEY;
use crate::endpoints::ALPHA_RESP_KEY;
use crate::endpoints::AlphaEndpoint;
use crate::endpoints::BETA_REQ_KEY;
use crate::endpoints::BETA_RESP_KEY;
use crate::endpoints::BReq;
use crate::endpoints::BetaEndpoint;
use crate::endpoints::DELTA_REQ_KEY;
use crate::endpoints::DELTA_RESP_KEY;
use crate::endpoints::DeltaEndpoint;
use crate::endpoints::EPSILON_REQ_KEY;
use crate::endpoints::EReq;
use crate::endpoints::Endpoint;
use crate::endpoints::EpsilonEndpoint;
use crate::endpoints::GAMMA_REQ_KEY;
use crate::endpoints::GAMMA_RESP_KEY;
use crate::endpoints::GammaEndpoint;
use crate::endpoints::epsilon_task_log;
use crate::endpoints::spec_count_call;
use crate::endpoints::spec_gamma_data;
use crate::endpoints::test_alpha_handler;
use crate::endpoints::test_beta_handler;
use crate::endpoints::test_delta_handler;
use crate::endpoints::test_epsilon_handler_task;
use crate::endpoints::test_gamma_handler;
use crate::sender::Sender;
use crate::sender::log_after_send;
use crate::sender::reply_then_error_log;
use crate::sender::same_resource;
use crate::wire::ERROR_KEY;
use crate::wire::FrameModel;
use crate::wire::RoutingKey;
use crate::wire::WireError;
use crate::wire::WireHeader;

verus! {

/// The execution discipline bound to an endpoint when it is registered.
#[derive(Clone, Copy, PartialEq, Eq, Structural, Debug)]
pub enum Flavor {
    /// The handler runs synchronously to completion on the dispatch path.
    Blocking,
    /// The handler may yield cooperatively but still completes on the same
    /// logical dispatch operation.
    Suspending,
    /// The handler runs as an independently scheduled unit of work.
    Detached,
}

/// Which registered endpoint a routing-table entry binds.
#[derive(Clone, Copy, PartialEq, Eq, Structural, Debug)]
pub enum EndpointKind {
    Alpha,
    Beta,
    Gamma,
    Delta,
    Epsilon,
}

/// The flavor each endpoint was registered under; fixed for the program's
/// lifetime.
pub open spec fn flavor_of(kind: EndpointKind) -> Flavor {
    match kind {
        EndpointKind::Alpha => Flavor::Suspending,
        EndpointKind::Beta => Flavor::Suspending,
        EndpointKind::Gamma => Flavor::Suspending,
        EndpointKind::Delta => Flavor::Blocking,
        EndpointKind::Epsilon => Flavor::Detached,
    }
}

/// One registration: a routing key bound to an endpoint.
#[derive(Clone, Copy, PartialEq, Eq, Structural, Debug)]
pub struct RouteEntry {
    pub key: u32,
    pub kind: EndpointKind,
}

/// First entry whose key matches, if any.
pub open spec fn lookup_seq(s: Seq<RouteEntry>, key: u32) -> Option<EndpointKind>
    decreases s.len(),
{
    if s.len() == 0 {
        None
    } else if s[0].key == key {
        Some(s[0].kind)
    } else {
        lookup_seq(s.skip(1), key)
    }
}

/// No two entries claim the same routing key.
pub open spec fn unique_keys(s: Seq<RouteEntry>) -> bool {
    forall|i: int, j: int| 0 <= i < j < s.len() ==> s[i].key != s[j].key
}

/// The routing table: generated once, ahead of dispatching, from the
/// endpoint registrations.
pub struct RoutingTable {
    pub entries: Vec<RouteEntry>,
}

impl RoutingTable {
    /// What a key routes to.
    pub open spec fn spec_lookup(&self, key: u32) -> Option<EndpointKind> {
        lookup_seq(self.entries@, key)
    }

    /// The table's invariant: registration is injective on keys.
    pub open spec fn wf(&self) -> bool {
        unique_keys(self.entries@)
    }

    /// Builds a table from registrations, rejecting any two that resolve to
    /// the same routing key: a collision is refused before any frame is
    /// dispatched, never handled at dispatch time.
    pub fn new(entries: Vec<RouteEntry>) -> (r: Option<RoutingTable>)
        ensures
            match r {
                Some(t) => t.entries@ == entries@ && t.wf(),
                None => !unique_keys(entries@),
            },
    {
        let n = entries.len();
        let mut i: usize = 0;
        while i < n
            invariant
                n == entries@.len(),
                i <= n,
                forall|p: int, q: int| 0 <= p < q < entries@.len() && p < i ==> entries@[p].key
                    != entries@[q].key,
            decreases n - i,
        {
            let mut j: usize = i + 1;
            while j < n
                invariant
                    n == entries@.len(),
                    i < n,
                    i < j <= n,
                    forall|q: int| i < q < j ==> entries@[i as int].key != entries@[q].key,
                decreases n - j,
            {
                if entries[i].key == entries[j].key {
                    return None;
                }
                j = j + 1;
            }
            i = i + 1;
        }
        Some(RoutingTable { entries })
    }

    /// Looks a key up in the table.
    pub fn lookup(&self, key: u32) -> (r: Option<EndpointKind>)
        ensures
            r == self.spec_lookup(key),
    {
        let n = self.entries.len();
        let mut i: usize = 0;
        proof {
            assert(self.entries@.skip(0) =~= self.entries@);
        }
        while i < n
            invariant
                n == self.entries@.len(),
                i <= n,
                lookup_seq(self.entries@, key) == lookup_seq(self.entries@.skip(i as int), key),
            decreases n - i,
        {
            if self.entries[i].key == key {
                proof {
                    assert(self.entries@.skip(i as int)[0] == self.entries@[i as int]);
                }
                return Some(self.entries[i].kind);
            }
            proof {
                assert(self.entries@.skip(i as int).skip(1) =~= self.entries@.skip(i as int + 1));
            }
            i = i + 1;
        }
        proof {
            assert(self.entries@.skip(n as int) =~= Seq::<RouteEntry>::empty());
        }
        None
    }
}

/// Uniqueness: within one well-formed routing table, two distinct
/// registrations never claim the same routing key.
pub proof fn lemma_registration_uniqueness(t: RoutingTable, i: int, j: int)
    requires
        t.wf(),
        0 <= i < t.entries@.len(),
        0 <= j < t.entries@.len(),
        i != j,
    ensures
        t.entries@[i].key != t.entries@[j].key,
{
    if i < j {
        assert(t.entries@[i].key != t.entries@[j].key);
    } else {
        assert(t.entries@[j].key != t.entries@[i].key);
    }
}

/// Exhaustiveness: a key that no registration claims routes to nothing, so
/// `dispatch` answers any frame under it with an `UnknownKey` error echoing
/// that exact key, and completes.
pub proof fn lemma_unmatched_key_unroutable(s: Seq<RouteEntry>, key: u32)
    requires
        forall|i: int| 0 <= i < s.len() ==> s[i].key != key,
    ensures
        lookup_seq(s, key) is None,
    decreases s.len(),
{
    if s.len() > 0 {
        assert(forall|i: int| 0 <= i < s.skip(1).len() ==> s.skip(1)[i] == s[i + 1]);
        lemma_unmatched_key_unroutable(s.skip(1), key);
    }
}

/// What each of the five standard registrations routes to, and that every
/// other key routes to nothing.
pub proof fn lemma_standard_routes_lookup()
    ensures
        lookup_seq(spec_standard_routes(), ALPHA_REQ_KEY) == Some(EndpointKind::Alpha),
        lookup_seq(spec_standard_routes(), BETA_REQ_KEY) == Some(EndpointKind::Beta),
        lookup_seq(spec_standard_routes(), GAMMA_REQ_KEY) == Some(EndpointKind::Gamma),
        lookup_seq(spec_standard_routes(), DELTA_REQ_KEY) == Some(EndpointKind::Delta),
        lookup_seq(spec_standard_routes(), EPSILON_REQ_KEY) == Some(EndpointKind::Epsilon),
        forall|k: u32|
            k != ALPHA_REQ_KEY && k != BETA_REQ_KEY && k != GAMMA_REQ_KEY && k != DELTA_REQ_KEY
                && k != EPSILON_REQ_KEY ==> lookup_seq(spec_standard_routes(), k) is None,
{
    let s = spec_standard_routes();
    let s1 = s.skip(1);
    let s2 = s.skip(2);
    let s3 = s.skip(3);
    let s4 = s.skip(4);
    assert(s1.skip(1) =~= s2);
    assert(s2.skip(1) =~= s3);
    assert(s3.skip(1) =~= s4);
    assert(lookup_seq(s, BETA_REQ_KEY) == lookup_seq(s1, BETA_REQ_KEY));
    assert(lookup_seq(s1, BETA_REQ_KEY) == Some(EndpointKind::Beta));
    assert(lookup_seq(s, GAMMA_REQ_KEY) == lookup_seq(s1, GAMMA_REQ_KEY));
    assert(lookup_seq(s1, GAMMA_REQ_KEY) == lookup_seq(s2, GAMMA_REQ_KEY));
    assert(lookup_seq(s2, GAMMA_REQ_KEY) == Some(EndpointKind::Gamma));
    assert(lookup_seq(s, DELTA_REQ_KEY) == lookup_seq(s1, DELTA_REQ_KEY));
    assert(lookup_seq(s1, DELTA_REQ_KEY) == lookup_seq(s2, DELTA_REQ_KEY));
    assert(lookup_seq(s2, DELTA_REQ_KEY) == lookup_seq(s3, DELTA_REQ_KEY));
    assert(lookup_seq(s3, DELTA_REQ_KEY) == Some(EndpointKind::Delta));
    assert(lookup_seq(s, EPSILON_REQ_KEY) == lookup_seq(s1, EPSILON_REQ_KEY));
    assert(lookup_seq(s1, EPSILON_REQ_KEY) == lookup_seq(s2, EPSILON_REQ_KEY));
    assert(lookup_seq(s2, EPSILON_REQ_KEY) == lookup_seq(s3, EPSILON_REQ_KEY));
    assert(lookup_seq(s3, EPSILON_REQ_KEY) == lookup_seq(s4, EPSILON_REQ_KEY));
    assert(lookup_seq(s4, EPSILON_REQ_KEY) == Some(EndpointKind::Epsilon));
    assert forall|k: u32|
        k != ALPHA_REQ_KEY && k != BETA_REQ_KEY && k != GAMMA_REQ_KEY && k != DELTA_REQ_KEY && k
            != EPSILON_REQ_KEY implies lookup_seq(spec_standard_routes(), k) is None by {
        assert forall|i: int| 0 <= i < s.len() implies s[i].key != k by {
            if i == 0 {
            } else if i == 1 {
            } else if i == 2 {
            } else if i == 3 {
            } else {
                assert(i == 4);
            }
        }
        lemma_unmatched_key_unroutable(s, k);
    }
}

/// One admitted, not yet executed unit of detached work: everything it owns.
#[derive(Clone, Copy, PartialEq, Eq, Structural, Debug)]
pub struct PendingTask {
    pub ctx: TestSpawnContext,
    pub header: WireHeader,
    pub req: EReq,
}

/// The dispatcher: owns the one outbound resource, the one application
/// context, the routing table, and the admitted detached work.
pub struct Dispatcher {
    pub sender: Sender,
    pub context: TestContext,
    pub table: RoutingTable,
    /// Admitted detached units of work, oldest first, not yet run.
    pub pending: Vec<PendingTask>,
    /// How many detached units the scheduler can hold at once; admission
    /// fails beyond it.
    pub spawn_capacity: usize,
}

/// The registrations this dispatcher is generated from.
pub open spec fn spec_standard_routes() -> Seq<RouteEntry> {
    seq![
        RouteEntry { key: ALPHA_REQ_KEY, kind: EndpointKind::Alpha },
        RouteEntry { key: BETA_REQ_KEY, kind: EndpointKind::Beta },
        RouteEntry { key: GAMMA_REQ_KEY, kind: EndpointKind::Gamma },
        RouteEntry { key: DELTA_REQ_KEY, kind: EndpointKind::Delta },
        RouteEntry { key: EPSILON_REQ_KEY, kind: EndpointKind::Epsilon },
    ]
}

/// The five standard registrations, one per endpoint.
pub fn standard_routes() -> (r: Vec<RouteEntry>)
    ensures
        r@ == spec_standard_routes(),
{
    let mut r: Vec<RouteEntry> = Vec::new();
    r.push(RouteEntry { key: ALPHA_REQ_KEY, kind: EndpointKind::Alpha });
    r.push(RouteEntry { key: BETA_REQ_KEY, kind: EndpointKind::Beta });
    r.push(RouteEntry { key: GAMMA_REQ_KEY, kind: EndpointKind::Gamma });
    r.push(RouteEntry { key: DELTA_REQ_KEY, kind: EndpointKind::Delta });
    r.push(RouteEntry { key: EPSILON_REQ_KEY, kind: EndpointKind::Epsilon });
    proof {
        assert(r@ =~= spec_standard_routes());
    }
    r
}

/// Configuration never changes across dispatching: the table, the admission
/// bound, and the outbound resource's capacity and link state.
pub open spec fn unchanged_config(pre: Dispatcher, post: Dispatcher) -> bool {
    &&& post.table.entries@ == pre.table.entries@
    &&& post.spawn_capacity == pre.spawn_capacity
    &&& same_resource(pre.sender, post.sender)
}

/// The error carrying an unmatched key's raw bytes, echoed back verbatim.
pub open spec fn unknown_key_error(v: u32) -> WireError {
    WireError::UnknownKey(
        [
            (v % 256) as u8,
            ((v / 256) % 256) as u8,
            ((v / 65536) % 256) as u8,
            ((v / 16777216) % 256) as u8,
        ],
    )
}

/// After a dispatch that ended in an error: context and queue untouched, one
/// best-effort error frame under the reserved key.
pub open spec fn error_reply_post(
    pre: Dispatcher,
    post: Dispatcher,
    seq_no: u32,
    e: WireError,
) -> bool {
    &&& post.context == pre.context
    &&& post.pending@ == pre.pending@
    &&& post.sender.log() == log_after_send(pre.sender, ERROR_KEY, seq_no, enc_wire_error(e))
}

/// After an inline dispatch: the handler ran once, the queue is untouched,
/// and its reply went out -- or, where the reply could not be transmitted, a
/// best-effort `SerFailed` error frame did.
pub open spec fn inline_reply_post(
    pre: Dispatcher,
    post: Dispatcher,
    seq_no: u32,
    resp_key: u32,
    payload: Seq<u8>,
) -> bool {
    &&& post.context == spec_count_call(pre.context)
    &&& post.pending@ == pre.pending@
    &&& post.sender.log() == reply_then_error_log(pre.sender, resp_key, seq_no, payload)
}

/// After a detached dispatch: admitted work owns a snapshot of the context
/// as it stood at dispatch time; refused work becomes a `FailedToSpawn`
/// error frame and the handler never runs.
pub open spec fn detached_post(
    pre: Dispatcher,
    post: Dispatcher,
    hdr: WireHeader,
    req: EReq,
) -> bool {
    if pre.pending@.len() < pre.spawn_capacity {
        &&& post.context == pre.context
        &&& post.sender.log() == pre.sender.log()
        &&& post.pending@ == pre.pending@.push(
            PendingTask { ctx: pre.context.spawn_projection(), header: hdr, req: req },
        )
    } else {
        error_reply_post(pre, post, hdr.seq_no, WireError::FailedToSpawn)
    }
}

/// Everything one `dispatch` call does, for every frame.
pub open spec fn dispatch_post(
    pre: Dispatcher,
    post: Dispatcher,
    hdr: WireHeader,
    body: Seq<u8>,
) -> bool {
    &&& unchanged_config(pre, post)
    &&& match pre.table.spec_lookup(hdr.key.value) {
        None => error_reply_post(pre, post, hdr.seq_no, unknown_key_error(hdr.key.value)),
        Some(kind) => match kind {
            EndpointKind::Alpha => match AlphaEndpoint::spec_decode_request(body) {
                None => error_reply_post(pre, post, hdr.seq_no, WireError::DeserFailed),
                Some(req) => inline_reply_post(
                    pre,
                    post,
                    hdr.seq_no,
                    ALPHA_RESP_KEY,
                    Seq::<u8>::empty(),
                ),
            },
            EndpointKind::Beta => match BetaEndpoint::spec_decode_request(body) {
                None => error_reply_post(pre, post, hdr.seq_no, WireError::DeserFailed),
                Some(req) => inline_reply_post(
                    pre,
                    post,
                    hdr.seq_no,
                    BETA_RESP_KEY,
                    enc_u32(req.value),
                ),
            },
            EndpointKind::Gamma => match GammaEndpoint::spec_decode_request(body) {
                None => error_reply_post(pre, post, hdr.seq_no, WireError::DeserFailed),
                Some(req) => inline_reply_post(
                    pre,
                    post,
                    hdr.seq_no,
                    GAMMA_RESP_KEY,
                    enc_bytes(spec_gamma_data(req.value)),
                ),
            },
            EndpointKind::Delta => match DeltaEndpoint::spec_decode_request(body) {
                None => error_reply_post(pre, post, hdr.seq_no, WireError::DeserFailed),
                Some(req) => inline_reply_post(
                    pre,
                    post,
                    hdr.seq_no,
                    DELTA_RESP_KEY,
                    enc_u32(pre.context.a),
                ),
            },
            EndpointKind::Epsilon => match EpsilonEndpoint::spec_decode_request(body) {
                None => error_reply_post(pre, post, hdr.seq_no, WireError::DeserFailed),
                Some(req) => detached_post(pre, post, hdr, req),
            },
        },
    }
}

/// Round trip through dispatch: a frame carrying a registered endpoint's key
/// and the encoding of a request decodes back to that request, so the bound
/// handler runs exactly once with an equal value and its reply goes out. The
/// beta endpoint, whose handler echoes the request, shows it end to end.
pub proof fn lemma_encoded_request_reaches_handler(
    pre: Dispatcher,
    post: Dispatcher,
    seq_no: u32,
    req: BReq,
)
    requires
        pre.table.entries@ == spec_standard_routes(),
        dispatch_post(
            pre,
            post,
            WireHeader { key: RoutingKey { value: BETA_REQ_KEY }, seq_no: seq_no },
            BetaEndpoint::spec_encode_request(req),
        ),
    ensures
        inline_reply_post(pre, post, seq_no, BETA_RESP_KEY, enc_u32(req.value)),
{
    lemma_standard_routes_lookup();
    BetaEndpoint::lemma_request_round_trip(req);
}

/// Only the detached flavor ever admits work to the queue: a dispatch whose
/// matched endpoint is registered under an inline flavor, or that matches no
/// endpoint at all, leaves the admitted work exactly as it was.
pub proof fn lemma_only_detached_spawns(
    pre: Dispatcher,
    post: Dispatcher,
    hdr: WireHeader,
    body: Seq<u8>,
)
    requires
        dispatch_post(pre, post, hdr, body),
        match pre.table.spec_lookup(hdr.key.value) {
            Some(kind) => flavor_of(kind) != Flavor::Detached,
            None => true,
        },
    ensures
        post.pending@ == pre.pending@,
{
}

/// Spawn isolation: an admitted detached unit of work, with the snapshot
/// context it owns, is never altered by a later `dispatch` call, whatever
/// that call does to the live context.
pub proof fn lemma_spawn_isolation(
    pre: Dispatcher,
    post: Dispatcher,
    hdr: WireHeader,
    body: Seq<u8>,
    i: int,
)
    requires
        dispatch_post(pre, post, hdr, body),
        0 <= i < pre.pending@.len(),
    ensures
        post.pending@[i] == pre.pending@[i],
{
}

impl Dispatcher {
    /// The dispatcher's invariant.
    pub open spec fn wf(&self) -> bool {
        &&& self.table.wf()
        &&& self.pending@.len() <= self.spawn_capacity
    }

    /// A dispatcher over the standard registrations, with a transmit buffer
    /// of `tx_capacity` bytes and room for `spawn_capacity` detached units.
    /// The registrations' keys are pairwise distinct, so the collision check
    /// is proved to pass.
    pub fn new(tx_capacity: usize, spawn_capacity: usize, context: TestContext) -> (d: Dispatcher)
        ensures
            d.wf(),
            d.sender.tx_capacity == tx_capacity,
            d.sender.link_up,
            d.sender.log() == Seq::<FrameModel>::empty(),
            d.context == context,
            d.table.entries@ == spec_standard_routes(),
            d.pending@.len() == 0,
            d.spawn_capacity == spawn_capacity,
    {
        let routes = standard_routes();
        let table_opt = RoutingTable::new(routes);
        proof {
            assert(unique_keys(spec_standard_routes()));
        }
        let table = match table_opt {
            Some(t) => t,
            None => {
                proof {
                    assert(false);
                }
                RoutingTable { entries: Vec::new() }
            },
        };
        Dispatcher {
            sender: Sender::new(tx_capacity),
            context,
            table,
            pending: Vec::new(),
            spawn_capacity,
        }
    }

    /// Encodes and transmits one error frame keyed by the reserved error
    /// key, best-effort: a failure to transmit it is dropped, so reporting
    /// never recurses and never blocks.
    pub fn error(&mut self, seq_no: u32, error: WireError)
        ensures
            unchanged_config(*old(self), *final(self)),
            final(self).context == old(self).context,
            final(self).pending@ == old(self).pending@,
            final(self).sender.log() == log_after_send(
                old(self).sender,
                ERROR_KEY,
                seq_no,
                enc_wire_error(error),
            ),
    {
        let _ = self.sender.reply_keyed(seq_no, ERROR_KEY, &error);
    }

    /// A view of the shared outbound resource, as a handler holding its own
    /// handle would see it.
    pub fn sender(&self) -> (s: &Sender)
        ensures
            *s == self.sender,
    {
        &self.sender
    }

    /// Routes one incoming frame. Never fails outwardly: an unmatched key, a
    /// payload that does not decode, a reply that cannot be transmitted, and
    /// a refused admission each become one best-effort error frame. Inline
    /// flavors run their handler to completion here; the detached flavor
    /// admits the unit of work and returns at once.
    pub fn dispatch(&mut self, hdr: WireHeader, body: &Vec<u8>)
        requires
            old(self).wf(),
        ensures
            final(self).wf(),
            dispatch_post(*old(self), *final(self), hdr, body@),
    {
        let kind_opt = self.table.lookup(hdr.key.value);
        match kind_opt {
            None => {
                let kb = hdr.key.to_bytes();
                proof {
                    assert(kb =~= unknown_key_error(hdr.key.value)->UnknownKey_0);
                }
                self.error(hdr.seq_no, WireError::UnknownKey(kb));
            },
            Some(EndpointKind::Alpha) => {
                match AlphaEndpoint::decode_request(body) {
                    None => {
                        self.error(hdr.seq_no, WireError::DeserFailed);
                    },
                    Some(req) => {
                        let resp = test_alpha_handler(&mut self.context, hdr, req);
                        let sent = self.sender.reply::<AlphaEndpoint>(hdr.seq_no, &resp);
                        if sent.is_err() {
                            self.error(hdr.seq_no, WireError::SerFailed);
                        }
                    },
                }
            },
            Some(EndpointKind::Beta) => {
                match BetaEndpoint::decode_request(body) {
                    None => {
                        self.error(hdr.seq_no, WireError::DeserFailed);
                    },
                    Some(req) => {
                        let resp = test_beta_handler(&mut self.context, hdr, req);
                        let sent = self.sender.reply::<BetaEndpoint>(hdr.seq_no, &resp);
                        if sent.is_err() {
                            self.error(hdr.seq_no, WireError::SerFailed);
                        }
                    },
                }
            },
            Some(EndpointKind::Gamma) => {
                match GammaEndpoint::decode_request(body) {
                    None => {
                        self.error(hdr.seq_no, WireError::DeserFailed);
                    },
                    Some(req) => {
                        let resp = test_gamma_handler(&mut self.context, hdr, req);
                        let sent = self.sender.reply::<GammaEndpoint>(hdr.seq_no, &resp);
                        if sent.is_err() {
                            self.error(hdr.seq_no, WireError::SerFailed);
                        }
                    },
                }
            },
            Some(EndpointKind::Delta) => {
                match DeltaEndpoint::decode_request(body) {
                    None => {
                        self.error(hdr.seq_no, WireError::DeserFailed);
                    },
                    Some(req) => {
                        let resp = test_delta_handler(&mut self.context, hdr, req);
                        let sent = self.sender.reply::<DeltaEndpoint>(hdr.seq_no, &resp);
                        if sent.is_err() {
                            self.error(hdr.seq_no, WireError::SerFailed);
                        }
                    },
                }
            },
            Some(EndpointKind::Epsilon) => {
                match EpsilonEndpoint::decode_request(body) {
                    None => {
                        self.error(hdr.seq_no, WireError::DeserFailed);
                    },
                    Some(req) => {
                        if self.pending.len() < self.spawn_capacity {
                            let sctx = self.context.spawn_ctxt();
                            self.pending.push(PendingTask { ctx: sctx, header: hdr, req });
                        } else {
                            self.error(hdr.seq_no, WireError::FailedToSpawn);
                        }
                    },
                }
            },
        }
    }

    /// How many admitted detached units have not run yet.
    pub fn pending_len(&self) -> (n: usize)
        ensures
            n == self.pending@.len(),
    {
        self.pending.len()
    }

    /// Runs the oldest admitted detached unit of work to completion, handing
    /// it exclusive use of the shared outbound resource for the duration, as
    /// the mutex inside a cloned handle would. Returns whether any unit was
    /// waiting.
    pub fn run_detached(&mut self) -> (ran: bool)
        requires
            old(self).wf(),
        ensures
            final(self).wf(),
            unchanged_config(*old(self), *final(self)),
            final(self).context == old(self).context,
            ran == (old(self).pending@.len() > 0),
            if old(self).pending@.len() == 0 {
                final(self).pending@ == old(self).pending@ && final(self).sender.log() == old(
                    self,
                ).sender.log()
            } else {
                final(self).pending@ == old(self).pending@.skip(1) && final(self).sender.log()
                    == epsilon_task_log(
                    old(self).sender,
                    old(self).pending@[0].ctx,
                    old(self).pending@[0].header,
                    old(self).pending@[0].req,
                )
            },
    {
        if self.pending.len() == 0 {
            false
        } else {
            let task = self.pending.remove(0);
            proof {
                assert(self.pending@ =~= old(self).pending@.skip(1));
            }
            test_epsilon_handler_task(task.ctx, task.header, task.req, &mut self.sender);
            true
        }
    }
}

} // verus!

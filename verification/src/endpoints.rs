//! Endpoint descriptors and the registered handlers.
//!
//! An endpoint is a type-level association of one routing key with a request
//! type and a response type; every implementation carries a proof that its
//! request codec round-trips. The handlers here are the registered
//! application procedures the dispatcher binds to those endpoints.

use vstd::prelude::*;

use crate::codec::dec_u32_exact;
use crate::codec::decode_u32_exact;
use crate::codec::enc_u32;
use crate::codec::encode_u32;
use crate::codec::lemma_round_trip_u32;
use crate::context::TestContext;
use crate::context::TestSpawnContext;
use crate::sender::Sender;
use crate::sender::reply_then_error_log;
use crate::sender::same_resource;
use crate::wire::ERROR_KEY;
use crate::wire::FrameModel;
use crate::wire::WireError;
use crate::wire::WireHeader;

verus! {

pub const ALPHA_REQ_KEY: u32 = 0x0A01;

pub const ALPHA_RESP_KEY: u32 = 0x0A02;

pub const BETA_REQ_KEY: u32 = 0x0B01;

pub const BETA_RESP_KEY: u32 = 0x0B02;

pub const GAMMA_REQ_KEY: u32 = 0x0C01;

pub const GAMMA_RESP_KEY: u32 = 0x0C02;

pub const DELTA_REQ_KEY: u32 = 0x0D01;

pub const DELTA_RESP_KEY: u32 = 0x0D02;

pub const EPSILON_REQ_KEY: u32 = 0x0E01;

pub const EPSILON_RESP_KEY: u32 = 0x0E02;

/// A named procedure: one routing key bound to a request type and a response
/// type. Exists only as type-level metadata; the implementing type has no
/// runtime value.
pub trait Endpoint {
    type Request;

    type Response;

    /// The key that selects this endpoint on the wire.
    spec fn spec_req_key() -> u32;

    /// The key under which this endpoint's replies travel.
    spec fn spec_resp_key() -> u32;

    /// The wire image of one request.
    spec fn spec_encode_request(req: Self::Request) -> Seq<u8>;

    /// What a request payload decodes to, if anything.
    spec fn spec_decode_request(s: Seq<u8>) -> Option<Self::Request>;

    /// The wire image of one response.
    spec fn spec_encode_response(resp: Self::Response) -> Seq<u8>;

    fn req_key() -> (k: u32)
        ensures
            k == Self::spec_req_key(),
    ;

    fn resp_key() -> (k: u32)
        ensures
            k == Self::spec_resp_key(),
    ;

    fn encode_request(req: &Self::Request) -> (out: Vec<u8>)
        ensures
            out@ == Self::spec_encode_request(*req),
    ;

    fn decode_request(body: &Vec<u8>) -> (r: Option<Self::Request>)
        ensures
            r == Self::spec_decode_request(body@),
    ;

    fn encode_response(resp: &Self::Response) -> (out: Vec<u8>)
        ensures
            out@ == Self::spec_encode_response(*resp),
    ;

    /// Decoding a request's encoding yields the request back: every endpoint
    /// owes its callers this round trip.
    proof fn lemma_request_round_trip(req: Self::Request)
        ensures
            Self::spec_decode_request(Self::spec_encode_request(req)) == Some(req),
    ;
}

/// Request with no fields: its wire image is empty.
#[derive(Clone, Copy, PartialEq, Eq, Structural, Debug)]
pub struct AReq;

/// Response with no fields: its wire image is empty.
#[derive(Clone, Copy, PartialEq, Eq, Structural, Debug)]
pub struct AResp;

#[derive(Clone, Copy, PartialEq, Eq, Structural, Debug)]
pub struct BReq {
    pub value: u32,
}

#[derive(Clone, Copy, PartialEq, Eq, Structural, Debug)]
pub struct BResp {
    pub value: u32,
}

#[derive(Clone, Copy, PartialEq, Eq, Structural, Debug)]
pub struct GReq {
    pub value: u32,
}

/// A response whose size grows with the request: large enough ones overflow
/// the fixed transmit buffer.
#[derive(Clone, PartialEq, Eq, Debug)]
pub struct GResp {
    pub data: Vec<u8>,
}

#[derive(Clone, Copy, PartialEq, Eq, Structural, Debug)]
pub struct DReq {
    pub value: u32,
}

#[derive(Clone, Copy, PartialEq, Eq, Structural, Debug)]
pub struct DResp {
    pub value: u32,
}

#[derive(Clone, Copy, PartialEq, Eq, Structural, Debug)]
pub struct EReq {
    pub value: u32,
}

#[derive(Clone, Copy, PartialEq, Eq, Structural, Debug)]
pub struct EResp {
    pub value: u32,
}

pub struct AlphaEndpoint;

pub struct BetaEndpoint;

pub struct GammaEndpoint;

pub struct DeltaEndpoint;

pub struct EpsilonEndpoint;

/// An empty payload decodes to the one fieldless request; anything else is
/// rejected.
pub open spec fn dec_empty_req<T>(s: Seq<u8>, v: T) -> Option<T> {
    if s.len() == 0 {
        Some(v)
    } else {
        None
    }
}

impl Endpoint for AlphaEndpoint {
    type Request = AReq;

    type Response = AResp;

    open spec fn spec_req_key() -> u32 {
        ALPHA_REQ_KEY
    }

    open spec fn spec_resp_key() -> u32 {
        ALPHA_RESP_KEY
    }

    open spec fn spec_encode_request(req: AReq) -> Seq<u8> {
        Seq::empty()
    }

    open spec fn spec_decode_request(s: Seq<u8>) -> Option<AReq> {
        dec_empty_req(s, AReq)
    }

    open spec fn spec_encode_response(resp: AResp) -> Seq<u8> {
        Seq::empty()
    }

    fn req_key() -> (k: u32) {
        ALPHA_REQ_KEY
    }

    fn resp_key() -> (k: u32) {
        ALPHA_RESP_KEY
    }

    fn encode_request(req: &AReq) -> (out: Vec<u8>) {
        let out: Vec<u8> = Vec::new();
        proof {
            assert(out@ =~= Seq::<u8>::empty());
        }
        out
    }

    fn decode_request(body: &Vec<u8>) -> (r: Option<AReq>) {
        if body.len() == 0 {
            Some(AReq)
        } else {
            None
        }
    }

    fn encode_response(resp: &AResp) -> (out: Vec<u8>) {
        let out: Vec<u8> = Vec::new();
        proof {
            assert(out@ =~= Seq::<u8>::empty());
        }
        out
    }

    proof fn lemma_request_round_trip(req: AReq) {
    }
}

impl Endpoint for BetaEndpoint {
    type Request = BReq;

    type Response = BResp;

    open spec fn spec_req_key() -> u32 {
        BETA_REQ_KEY
    }

    open spec fn spec_resp_key() -> u32 {
        BETA_RESP_KEY
    }

    open spec fn spec_encode_request(req: BReq) -> Seq<u8> {
        enc_u32(req.value)
    }

    open spec fn spec_decode_request(s: Seq<u8>) -> Option<BReq> {
        match dec_u32_exact(s) {
            Some(v) => Some(BReq { value: v }),
            None => None,
        }
    }

    open spec fn spec_encode_response(resp: BResp) -> Seq<u8> {
        enc_u32(resp.value)
    }

    fn req_key() -> (k: u32) {
        BETA_REQ_KEY
    }

    fn resp_key() -> (k: u32) {
        BETA_RESP_KEY
    }

    fn encode_request(req: &BReq) -> (out: Vec<u8>) {
        encode_u32(req.value)
    }

    fn decode_request(body: &Vec<u8>) -> (r: Option<BReq>) {
        match decode_u32_exact(body) {
            Some(v) => Some(BReq { value: v }),
            None => None,
        }
    }

    fn encode_response(resp: &BResp) -> (out: Vec<u8>) {
        encode_u32(resp.value)
    }

    proof fn lemma_request_round_trip(req: BReq) {
        lemma_round_trip_u32(req.value);
    }
}

impl Endpoint for GammaEndpoint {
    type Request = GReq;

    type Response = GResp;

    open spec fn spec_req_key() -> u32 {
        GAMMA_REQ_KEY
    }

    open spec fn spec_resp_key() -> u32 {
        GAMMA_RESP_KEY
    }

    open spec fn spec_encode_request(req: GReq) -> Seq<u8> {
        enc_u32(req.value)
    }

    open spec fn spec_decode_request(s: Seq<u8>) -> Option<GReq> {
        match dec_u32_exact(s) {
            Some(v) => Some(GReq { value: v }),
            None => None,
        }
    }

    open spec fn spec_encode_response(resp: GResp) -> Seq<u8> {
        enc_u32(resp.data@.len() as u32) + resp.data@
    }

    fn req_key() -> (k: u32) {
        GAMMA_REQ_KEY
    }

    fn resp_key() -> (k: u32) {
        GAMMA_RESP_KEY
    }

    fn encode_request(req: &GReq) -> (out: Vec<u8>) {
        encode_u32(req.value)
    }

    fn decode_request(body: &Vec<u8>) -> (r: Option<GReq>) {
        match decode_u32_exact(body) {
            Some(v) => Some(GReq { value: v }),
            None => None,
        }
    }

    fn encode_response(resp: &GResp) -> (out: Vec<u8>) {
        let mut out = encode_u32(resp.data.len() as u32);
        let ghost prefix = out@;
        let mut i: usize = 0;
        while i < resp.data.len()
            invariant
                i <= resp.data@.len(),
                out@ == prefix + resp.data@.take(i as int),
            decreases resp.data@.len() - i,
        {
            out.push(resp.data[i]);
            i = i + 1;
            proof {
                assert(out@ =~= prefix + resp.data@.take(i as int));
            }
        }
        proof {
            assert(resp.data@.take(resp.data@.len() as int) =~= resp.data@);
        }
        out
    }

    proof fn lemma_request_round_trip(req: GReq) {
        lemma_round_trip_u32(req.value);
    }
}

impl Endpoint for DeltaEndpoint {
    type Request = DReq;

    type Response = DResp;

    open spec fn spec_req_key() -> u32 {
        DELTA_REQ_KEY
    }

    open spec fn spec_resp_key() -> u32 {
        DELTA_RESP_KEY
    }

    open spec fn spec_encode_request(req: DReq) -> Seq<u8> {
        enc_u32(req.value)
    }

    open spec fn spec_decode_request(s: Seq<u8>) -> Option<DReq> {
        match dec_u32_exact(s) {
            Some(v) => Some(DReq { value: v }),
            None => None,
        }
    }

    open spec fn spec_encode_response(resp: DResp) -> Seq<u8> {
        enc_u32(resp.value)
    }

    fn req_key() -> (k: u32) {
        DELTA_REQ_KEY
    }

    fn resp_key() -> (k: u32) {
        DELTA_RESP_KEY
    }

    fn encode_request(req: &DReq) -> (out: Vec<u8>) {
        encode_u32(req.value)
    }

    fn decode_request(body: &Vec<u8>) -> (r: Option<DReq>) {
        match decode_u32_exact(body) {
            Some(v) => Some(DReq { value: v }),
            None => None,
        }
    }

    fn encode_response(resp: &DResp) -> (out: Vec<u8>) {
        encode_u32(resp.value)
    }

    proof fn lemma_request_round_trip(req: DReq) {
        lemma_round_trip_u32(req.value);
    }
}

impl Endpoint for EpsilonEndpoint {
    type Request = EReq;

    type Response = EResp;

    open spec fn spec_req_key() -> u32 {
        EPSILON_REQ_KEY
    }

    open spec fn spec_resp_key() -> u32 {
        EPSILON_RESP_KEY
    }

    open spec fn spec_encode_request(req: EReq) -> Seq<u8> {
        enc_u32(req.value)
    }

    open spec fn spec_decode_request(s: Seq<u8>) -> Option<EReq> {
        match dec_u32_exact(s) {
            Some(v) => Some(EReq { value: v }),
            None => None,
        }
    }

    open spec fn spec_encode_response(resp: EResp) -> Seq<u8> {
        enc_u32(resp.value)
    }

    fn req_key() -> (k: u32) {
        EPSILON_REQ_KEY
    }

    fn resp_key() -> (k: u32) {
        EPSILON_RESP_KEY
    }

    fn encode_request(req: &EReq) -> (out: Vec<u8>) {
        encode_u32(req.value)
    }

    fn decode_request(body: &Vec<u8>) -> (r: Option<EReq>) {
        match decode_u32_exact(body) {
            Some(v) => Some(EReq { value: v }),
            None => None,
        }
    }

    fn encode_response(resp: &EResp) -> (out: Vec<u8>) {
        encode_u32(resp.value)
    }

    proof fn lemma_request_round_trip(req: EReq) {
        lemma_round_trip_u32(req.value);
    }
}

/// The next value of the inline-invocation counter, wrapping at the top.
pub open spec fn bump(x: u32) -> u32 {
    if x == 0xFFFFFFFF {
        0
    } else {
        (x + 1) as u32
    }
}

/// The context after any inline handler ran: the invocation counter moved on,
/// everything else untouched.
pub open spec fn spec_count_call(c: TestContext) -> TestContext {
    TestContext { a: bump(c.a), b: c.b }
}

fn count_call(context: &mut TestContext)
    ensures
        *final(context) == spec_count_call(*old(context)),
{
    if context.a == 0xFFFFFFFFu32 {
        context.a = 0;
    } else {
        context.a = context.a + 1;
    }
}

/// Addition modulo the 32-bit range.
pub open spec fn wrap_add(a: u32, b: u32) -> u32 {
    ((a + b) % 0x100000000) as u32
}

fn wrap_add_exec(a: u32, b: u32) -> (r: u32)
    ensures
        r == wrap_add(a, b),
{
    let s: u64 = (a as u64) + (b as u64);
    (s % 0x100000000u64) as u32
}

/// How many payload bytes the gamma handler produces for a request value:
/// the value itself, capped so the handler stays total.
pub open spec fn gamma_len(v: u32) -> int {
    if v > 1024 {
        1024
    } else {
        v as int
    }
}

/// The gamma handler's payload: `gamma_len(v)` filler bytes.
pub open spec fn spec_gamma_data(v: u32) -> Seq<u8> {
    Seq::new(gamma_len(v) as nat, |i: int| 0x47u8)
}

/// Inline-suspending handler: acknowledges the fieldless request.
pub fn test_alpha_handler(context: &mut TestContext, header: WireHeader, body: AReq) -> (r: AResp)
    ensures
        *final(context) == spec_count_call(*old(context)),
        r == AResp,
{
    count_call(context);
    AResp
}

/// Inline-suspending handler: echoes the request value back.
pub fn test_beta_handler(context: &mut TestContext, header: WireHeader, body: BReq) -> (r: BResp)
    ensures
        *final(context) == spec_count_call(*old(context)),
        r == (BResp { value: body.value }),
{
    count_call(context);
    BResp { value: body.value }
}

/// Inline-suspending handler: answers with as many filler bytes as the
/// request asks for, up to a cap. Large answers exercise the fixed transmit
/// buffer's overflow path.
pub fn test_gamma_handler(context: &mut TestContext, header: WireHeader, body: GReq) -> (r: GResp)
    ensures
        *final(context) == spec_count_call(*old(context)),
        r.data@ == spec_gamma_data(body.value),
{
    count_call(context);
    let n: usize = if body.value > 1024 {
        1024
    } else {
        body.value as usize
    };
    let mut data: Vec<u8> = Vec::new();
    let mut i: usize = 0;
    while i < n
        invariant
            i <= n,
            n as int == gamma_len(body.value),
            data@ == Seq::new(i as nat, |j: int| 0x47u8),
        decreases n - i,
    {
        data.push(0x47u8);
        i = i + 1;
        proof {
            assert(data@ =~= Seq::new(i as nat, |j: int| 0x47u8));
        }
    }
    GResp { data }
}

/// Inline-blocking handler: reports the invocation count as it stood when
/// the request arrived.
pub fn test_delta_handler(context: &mut TestContext, header: WireHeader, body: DReq) -> (r: DResp)
    ensures
        *final(context) == spec_count_call(*old(context)),
        r == (DResp { value: old(context).a }),
{
    let r = DResp { value: context.a };
    count_call(context);
    r
}

/// The reply a detached unit of work owes once it runs: computed from its
/// own snapshot of the context, never from the live one.
pub open spec fn spec_epsilon_resp(c: TestSpawnContext, req: EReq) -> EResp {
    EResp { value: wrap_add(c.b, req.value) }
}

/// The transmit log after one detached unit of work ran: its reply, or on a
/// reply failure a best-effort `SerFailed` error frame.
pub open spec fn epsilon_task_log(
    s: Sender,
    c: TestSpawnContext,
    hdr: WireHeader,
    req: EReq,
) -> Seq<FrameModel> {
    reply_then_error_log(s, EPSILON_RESP_KEY, hdr.seq_no, enc_u32(spec_epsilon_resp(c, req).value))
}

/// Detached handler: runs independently of the dispatch path, owning its
/// snapshot context, and sends its own reply through the shared outbound
/// resource.
pub fn test_epsilon_handler_task(
    context: TestSpawnContext,
    header: WireHeader,
    body: EReq,
    sender: &mut Sender,
)
    ensures
        same_resource(*old(sender), *final(sender)),
        final(sender).log() == epsilon_task_log(*old(sender), context, header, body),
{
    let resp = EResp { value: wrap_add_exec(context.b, body.value) };
    let sent = sender.reply::<EpsilonEndpoint>(header.seq_no, &resp);
    if sent.is_err() {
        let e = WireError::SerFailed;
        let _ = sender.reply_keyed(header.seq_no, ERROR_KEY, &e);
    }
}

} // verus!

use rpc_dispatch::codec::encode_u32;
use rpc_dispatch::context::TestContext;
use rpc_dispatch::dispatch::Dispatcher;
use rpc_dispatch::dispatch::EndpointKind;
use rpc_dispatch::dispatch::RouteEntry;
use rpc_dispatch::dispatch::RoutingTable;
use rpc_dispatch::endpoints::ALPHA_REQ_KEY;
use rpc_dispatch::endpoints::ALPHA_RESP_KEY;
use rpc_dispatch::endpoints::AReq;
use rpc_dispatch::endpoints::AlphaEndpoint;
use rpc_dispatch::endpoints::BETA_REQ_KEY;
use rpc_dispatch::endpoints::BETA_RESP_KEY;
use rpc_dispatch::endpoints::BReq;
use rpc_dispatch::endpoints::BetaEndpoint;
use rpc_dispatch::endpoints::DELTA_REQ_KEY;
use rpc_dispatch::endpoints::DELTA_RESP_KEY;
use rpc_dispatch::endpoints::DReq;
use rpc_dispatch::endpoints::DeltaEndpoint;
use rpc_dispatch::endpoints::EPSILON_REQ_KEY;
use rpc_dispatch::endpoints::EPSILON_RESP_KEY;
use rpc_dispatch::endpoints::EReq;
use rpc_dispatch::endpoints::Endpoint;
use rpc_dispatch::endpoints::EpsilonEndpoint;
use rpc_dispatch::endpoints::GAMMA_REQ_KEY;
use rpc_dispatch::endpoints::GReq;
use rpc_dispatch::endpoints::GammaEndpoint;
use rpc_dispatch::wire::ERROR_KEY;
use rpc_dispatch::wire::RoutingKey;
use rpc_dispatch::wire::WireHeader;

fn header(key: u32, seq_no: u32) -> WireHeader {
    WireHeader { key: RoutingKey { value: key }, seq_no }
}

fn new_dispatcher(tx_capacity: usize, spawn_capacity: usize) -> Dispatcher {
    Dispatcher::new(tx_capacity, spawn_capacity, TestContext { a: 0, b: 0 })
}

#[test]
fn inline_suspending_reply() {
    // One frame for a registered inline endpoint: exactly one reply under
    // the endpoint's response key, echoing the sequence number.
    let mut d = new_dispatcher(64, 4);
    let body = AlphaEndpoint::encode_request(&AReq);
    d.dispatch(header(ALPHA_REQ_KEY, 1), &body);
    assert_eq!(d.sender.sent.len(), 1);
    assert_eq!(d.sender.sent[0].key, ALPHA_RESP_KEY);
    assert_eq!(d.sender.sent[0].seq_no, 1);
    assert!(d.sender.sent[0].payload.is_empty());
    assert_eq!(d.context.a, 1);
}

#[test]
fn unknown_key_is_echoed() {
    // An unregistered key yields exactly one error frame under the reserved
    // key, carrying the offending key's raw bytes.
    let mut d = new_dispatcher(64, 4);
    let body: Vec<u8> = vec![];
    d.dispatch(header(0xFFFFFFFF, 2), &body);
    assert_eq!(d.sender.sent.len(), 1);
    assert_eq!(d.sender.sent[0].key, ERROR_KEY);
    assert_eq!(d.sender.sent[0].seq_no, 2);
    assert_eq!(d.sender.sent[0].payload, vec![0x02, 0xFF, 0xFF, 0xFF, 0xFF]);
}

#[test]
fn reserved_error_key_is_not_registered() {
    let mut d = new_dispatcher(64, 4);
    let body: Vec<u8> = vec![];
    d.dispatch(header(ERROR_KEY, 3), &body);
    assert_eq!(d.sender.sent.len(), 1);
    assert_eq!(d.sender.sent[0].key, ERROR_KEY);
    let key_bytes = RoutingKey { value: ERROR_KEY }.to_bytes();
    let mut expected = vec![0x02];
    expected.extend_from_slice(&key_bytes);
    assert_eq!(d.sender.sent[0].payload, expected);
}

#[test]
fn short_payload_is_deser_failure() {
    // A registered key whose request needs at least one byte, given an
    // empty payload: one DeserFailed error frame with the same sequence
    // number, and the handler never runs.
    let mut d = new_dispatcher(64, 4);
    let body: Vec<u8> = vec![];
    d.dispatch(header(BETA_REQ_KEY, 7), &body);
    assert_eq!(d.sender.sent.len(), 1);
    assert_eq!(d.sender.sent[0].key, ERROR_KEY);
    assert_eq!(d.sender.sent[0].seq_no, 7);
    assert_eq!(d.sender.sent[0].payload, vec![0x00]);
    assert_eq!(d.context.a, 0);
}

#[test]
fn beta_echoes_request_value() {
    // End-to-end round trip: the request is encoded with the reference
    // codec, decoded by the dispatcher, and the handler sees the same value.
    let mut d = new_dispatcher(64, 4);
    let body: Vec<u8> = postcard::to_stdvec(&42u32).unwrap();
    d.dispatch(header(BETA_REQ_KEY, 5), &body);
    assert_eq!(d.sender.sent.len(), 1);
    assert_eq!(d.sender.sent[0].key, BETA_RESP_KEY);
    assert_eq!(d.sender.sent[0].seq_no, 5);
    assert_eq!(d.sender.sent[0].payload, encode_u32(42));
}

#[test]
fn request_codecs_round_trip() {
    assert_eq!(
        AlphaEndpoint::decode_request(&AlphaEndpoint::encode_request(&AReq)),
        Some(AReq)
    );
    for v in [0u32, 127, 128, 99999, u32::MAX] {
        assert_eq!(
            BetaEndpoint::decode_request(&BetaEndpoint::encode_request(&BReq { value: v })),
            Some(BReq { value: v })
        );
        assert_eq!(
            GammaEndpoint::decode_request(&GammaEndpoint::encode_request(&GReq { value: v })),
            Some(GReq { value: v })
        );
        assert_eq!(
            DeltaEndpoint::decode_request(&DeltaEndpoint::encode_request(&DReq { value: v })),
            Some(DReq { value: v })
        );
        assert_eq!(
            EpsilonEndpoint::decode_request(&EpsilonEndpoint::encode_request(&EReq { value: v })),
            Some(EReq { value: v })
        );
    }
}

#[test]
fn blocking_delta_reports_invocation_count() {
    let mut d = new_dispatcher(64, 4);
    let body = DeltaEndpoint::encode_request(&DReq { value: 0 });
    d.dispatch(header(DELTA_REQ_KEY, 1), &body);
    d.dispatch(header(DELTA_REQ_KEY, 2), &body);
    assert_eq!(d.sender.sent.len(), 2);
    // The first reply reports zero prior invocations, the second one.
    assert_eq!(d.sender.sent[0].payload, encode_u32(0));
    assert_eq!(d.sender.sent[1].payload, encode_u32(1));
    assert_eq!(d.context.a, 2);
}

#[test]
fn oversized_reply_is_ser_failure() {
    // A response that overflows the fixed transmit buffer becomes one
    // SerFailed error frame with the original sequence number, and the
    // dispatcher stays usable for the next frame.
    let mut d = new_dispatcher(16, 4);
    let body = GammaEndpoint::encode_request(&GReq { value: 100 });
    d.dispatch(header(GAMMA_REQ_KEY, 9), &body);
    assert_eq!(d.sender.sent.len(), 1);
    assert_eq!(d.sender.sent[0].key, ERROR_KEY);
    assert_eq!(d.sender.sent[0].seq_no, 9);
    assert_eq!(d.sender.sent[0].payload, vec![0x01]);

    let next = BetaEndpoint::encode_request(&BReq { value: 3 });
    d.dispatch(header(BETA_REQ_KEY, 10), &next);
    assert_eq!(d.sender.sent.len(), 2);
    assert_eq!(d.sender.sent[1].key, BETA_RESP_KEY);
    assert_eq!(d.sender.sent[1].payload, encode_u32(3));
}

#[test]
fn small_gamma_reply_fits() {
    let mut d = new_dispatcher(64, 4);
    let body = GammaEndpoint::encode_request(&GReq { value: 3 });
    d.dispatch(header(GAMMA_REQ_KEY, 4), &body);
    assert_eq!(d.sender.sent.len(), 1);
    let mut expected = encode_u32(3);
    expected.extend_from_slice(&[0x47, 0x47, 0x47]);
    assert_eq!(d.sender.sent[0].payload, expected);
}

#[test]
fn saturated_scheduler_is_spawn_failure() {
    // With no admission slot left, the detached frame becomes one
    // FailedToSpawn error frame and the handler body never executes.
    let mut d = new_dispatcher(64, 1);
    let body = EpsilonEndpoint::encode_request(&EReq { value: 5 });
    d.dispatch(header(EPSILON_REQ_KEY, 1), &body);
    assert_eq!(d.pending_len(), 1);
    assert_eq!(d.sender.sent.len(), 0);

    d.dispatch(header(EPSILON_REQ_KEY, 2), &body);
    assert_eq!(d.pending_len(), 1);
    assert_eq!(d.sender.sent.len(), 1);
    assert_eq!(d.sender.sent[0].key, ERROR_KEY);
    assert_eq!(d.sender.sent[0].seq_no, 2);
    assert_eq!(d.sender.sent[0].payload, vec![0x03]);
}

#[test]
fn detached_work_owns_a_snapshot() {
    // Mutating the live context after admission must not change what the
    // detached unit computes from: projection is a snapshot, not a view.
    let mut d = Dispatcher::new(64, 4, TestContext { a: 0, b: 7 });
    let body = EpsilonEndpoint::encode_request(&EReq { value: 1 });
    d.dispatch(header(EPSILON_REQ_KEY, 11), &body);
    d.context.b = 1000;
    let ran = d.run_detached();
    assert!(ran);
    assert_eq!(d.sender.sent.len(), 1);
    assert_eq!(d.sender.sent[0].key, EPSILON_RESP_KEY);
    assert_eq!(d.sender.sent[0].seq_no, 11);
    assert_eq!(d.sender.sent[0].payload, encode_u32(8));
}

#[test]
fn two_detached_replies_are_whole_frames() {
    // Both admitted units eventually reply; each reply is one complete
    // frame, never interleaved with the other.
    let mut d = Dispatcher::new(64, 2, TestContext { a: 0, b: 10 });
    let first = EpsilonEndpoint::encode_request(&EReq { value: 5 });
    let second = EpsilonEndpoint::encode_request(&EReq { value: 6 });
    d.dispatch(header(EPSILON_REQ_KEY, 21), &first);
    d.dispatch(header(EPSILON_REQ_KEY, 22), &second);
    assert_eq!(d.pending_len(), 2);
    assert!(d.run_detached());
    assert!(d.run_detached());
    assert!(!d.run_detached());
    assert_eq!(d.sender.sent.len(), 2);
    assert_eq!(d.sender.sent[0].key, EPSILON_RESP_KEY);
    assert_eq!(d.sender.sent[0].seq_no, 21);
    assert_eq!(d.sender.sent[0].payload, encode_u32(15));
    assert_eq!(d.sender.sent[1].key, EPSILON_RESP_KEY);
    assert_eq!(d.sender.sent[1].seq_no, 22);
    assert_eq!(d.sender.sent[1].payload, encode_u32(16));
}

#[test]
fn error_while_reporting_is_dropped() {
    // With the link down, the error frame about an unknown key is dropped
    // silently; the dispatcher neither panics nor retries, and works again
    // once the link is back.
    let mut d = new_dispatcher(64, 4);
    d.sender.set_link(false);
    let body: Vec<u8> = vec![];
    d.dispatch(header(0xFFFFFFFF, 1), &body);
    assert_eq!(d.sender.sent.len(), 0);

    d.sender.set_link(true);
    let req = BetaEndpoint::encode_request(&BReq { value: 8 });
    d.dispatch(header(BETA_REQ_KEY, 2), &req);
    assert_eq!(d.sender.sent.len(), 1);
    assert_eq!(d.sender.sent[0].payload, encode_u32(8));
}

#[test]
fn colliding_registrations_are_rejected() {
    // Two registrations resolving to the same routing key are refused
    // before any frame can be dispatched.
    let colliding = vec![
        RouteEntry { key: 1, kind: EndpointKind::Alpha },
        RouteEntry { key: 2, kind: EndpointKind::Beta },
        RouteEntry { key: 1, kind: EndpointKind::Gamma },
    ];
    assert!(RoutingTable::new(colliding).is_none());

    let distinct = vec![
        RouteEntry { key: 1, kind: EndpointKind::Alpha },
        RouteEntry { key: 2, kind: EndpointKind::Beta },
        RouteEntry { key: 3, kind: EndpointKind::Gamma },
    ];
    assert!(RoutingTable::new(distinct).is_some());
}

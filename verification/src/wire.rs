//! Wire message model: routing keys, the frame header, the closed set of
//! dispatch-level errors, and the shape of one transmitted frame.

use vstd::prelude::*;

verus! {

/// The reserved key under which every dispatch-level error frame is sent.
/// It is distinct from every application routing key.
pub const ERROR_KEY: u32 = 0xE0E0E0E0;

/// Fixed-width identifier selecting which endpoint a frame targets.
///
/// Within one dispatcher the mapping from key to handler is injective;
/// the routing table's constructor rejects duplicates.
#[derive(Clone, Copy, PartialEq, Eq, Structural, Debug)]
pub struct RoutingKey {
    pub value: u32,
}

/// The little-endian byte image of a routing key, as it travels on the wire
/// and as it is echoed back inside an `UnknownKey` error.
pub open spec fn key_bytes(v: u32) -> Seq<u8> {
    seq![
        (v % 256) as u8,
        ((v / 256) % 256) as u8,
        ((v / 65536) % 256) as u8,
        ((v / 16777216) % 256) as u8,
    ]
}

impl RoutingKey {
    /// The raw bytes of this key, little-endian.
    pub fn to_bytes(&self) -> (r: [u8; 4])
        ensures
            r@ == key_bytes(self.value),
    {
        let r: [u8; 4] = [
            (self.value % 256) as u8,
            ((self.value / 256) % 256) as u8,
            ((self.value / 65536) % 256) as u8,
            ((self.value / 16777216) % 256) as u8,
        ];
        proof {
            assert(r@ =~= key_bytes(self.value));
        }
        r
    }
}

/// The framing header: which endpoint a frame belongs to and which
/// outstanding call it answers. Copied, never mutated, by the dispatcher.
#[derive(Clone, Copy, PartialEq, Eq, Structural, Debug)]
pub struct WireHeader {
    pub key: RoutingKey,
    pub seq_no: u32,
}

/// The closed set of dispatch-level error conditions reported on the wire.
///
/// Only the dispatcher constructs these; handlers never do.
#[derive(Clone, Copy, PartialEq, Eq, Debug)]
pub enum WireError {
    /// A request payload could not be decoded as the matched endpoint's
    /// request type.
    DeserFailed,
    /// A successfully computed response could not be encoded within the
    /// fixed transmit buffer.
    SerFailed,
    /// No registered endpoint matches; carries the offending key's raw
    /// bytes, echoed back verbatim.
    UnknownKey([u8; 4]),
    /// The detached flavor could not admit a new unit of work.
    FailedToSpawn,
}

/// One transmitted frame: key, sequence number, payload.
#[derive(Clone, PartialEq, Eq, Debug)]
pub struct WireFrame {
    pub key: u32,
    pub seq_no: u32,
    pub payload: Vec<u8>,
}

/// The mathematical model of one frame.
pub struct FrameModel {
    pub key: u32,
    pub seq_no: u32,
    pub payload: Seq<u8>,
}

impl View for WireFrame {
    type V = FrameModel;

    open spec fn view(&self) -> FrameModel {
        FrameModel { key: self.key, seq_no: self.seq_no, payload: self.payload@ }
    }
}

/// How many bytes one frame occupies in the transmit buffer: four key bytes,
/// four sequence-number bytes, then the payload.
pub open spec fn frame_size(payload_len: int) -> int {
    8 + payload_len
}

} // verus!

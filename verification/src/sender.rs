//! The single outbound transmission resource: a fixed-size transmit buffer
//! feeding the outbound endpoint. Exactly one holder fills and flushes it at
//! a time; here that exclusivity is exclusive ownership (`&mut`), and the
//! frames handed to the endpoint are kept as a log, oldest first, so that
//! contracts can say exactly what was transmitted. Each successful call
//! transmits exactly one complete frame: frames are never torn.

use vstd::prelude::*;

use crate::codec::enc_wire_error;
use crate::codec::encode_wire_error;
use crate::endpoints::Endpoint;
use crate::wire::ERROR_KEY;
use crate::wire::FrameModel;
use crate::wire::WireError;
use crate::wire::WireFrame;
use crate::wire::frame_size;

verus! {

/// Why a transmission failed.
#[derive(Clone, Copy, PartialEq, Eq, Structural, Debug)]
pub enum TxError {
    /// The frame does not fit the fixed transmit buffer.
    BufferOverflow,
    /// The outbound endpoint refused the write.
    LinkDown,
}

/// The outbound resource: buffer capacity, link state, and the frames
/// transmitted so far.
pub struct Sender {
    /// Size of the fixed transmit buffer; a frame larger than this cannot
    /// be sent.
    pub tx_capacity: usize,
    /// Whether the outbound endpoint currently accepts writes.
    pub link_up: bool,
    /// Every frame handed to the outbound endpoint, oldest first.
    pub sent: Vec<WireFrame>,
}

/// The model of one frame about to be transmitted.
pub open spec fn frame(key: u32, seq_no: u32, payload: Seq<u8>) -> FrameModel {
    FrameModel { key: key, seq_no: seq_no, payload: payload }
}

impl Sender {
    /// The transmitted frames, as their models.
    pub open spec fn log(&self) -> Seq<FrameModel> {
        self.sent@.map_values(|f: WireFrame| f@)
    }

    /// Whether a payload of this length fits the transmit buffer together
    /// with its header.
    pub open spec fn fits(&self, payload_len: int) -> bool {
        frame_size(payload_len) <= self.tx_capacity
    }
}

/// Capacity and link state are configuration: no send changes them.
pub open spec fn same_resource(pre: Sender, post: Sender) -> bool {
    post.tx_capacity == pre.tx_capacity && post.link_up == pre.link_up
}

/// The log after one best-effort transmission: the frame is appended when it
/// fits and the link is up, and nothing changes otherwise.
pub open spec fn log_after_send(s: Sender, key: u32, seq_no: u32, payload: Seq<u8>) -> Seq<
    FrameModel,
> {
    if s.link_up && s.fits(payload.len() as int) {
        s.log().push(frame(key, seq_no, payload))
    } else {
        s.log()
    }
}

/// The log after a reply attempt whose failure is reported as a `SerFailed`
/// error frame, itself sent best-effort.
pub open spec fn reply_then_error_log(s: Sender, key: u32, seq_no: u32, payload: Seq<u8>) -> Seq<
    FrameModel,
> {
    if s.link_up && s.fits(payload.len() as int) {
        s.log().push(frame(key, seq_no, payload))
    } else {
        log_after_send(s, ERROR_KEY, seq_no, enc_wire_error(WireError::SerFailed))
    }
}

impl Sender {
    /// A fresh outbound resource over a transmit buffer of `tx_capacity`
    /// bytes, link up, nothing transmitted yet.
    pub fn new(tx_capacity: usize) -> (s: Sender)
        ensures
            s.tx_capacity == tx_capacity,
            s.link_up,
            s.log() == Seq::<FrameModel>::empty(),
    {
        let s = Sender { tx_capacity: tx_capacity, link_up: true, sent: Vec::new() };
        proof {
            assert(s.log() =~= Seq::<FrameModel>::empty());
        }
        s
    }

    /// Models the outbound endpoint going down or coming back (a bus reset):
    /// writes fail while the link is down.
    pub fn set_link(&mut self, up: bool)
        ensures
            final(self).link_up == up,
            final(self).tx_capacity == old(self).tx_capacity,
            final(self).log() == old(self).log(),
    {
        self.link_up = up;
    }

    /// Transmits one complete frame under exclusive access to the buffer.
    /// Fails exactly when the frame overflows the fixed buffer or the link
    /// is down, and then transmits nothing.
    pub fn send_frame(&mut self, key: u32, seq_no: u32, payload: Vec<u8>) -> (r: Result<
        (),
        TxError,
    >)
        ensures
            same_resource(*old(self), *final(self)),
            final(self).log() == log_after_send(*old(self), key, seq_no, payload@),
            match r {
                Ok(()) => old(self).link_up && old(self).fits(payload@.len() as int),
                Err(TxError::BufferOverflow) => !old(self).fits(payload@.len() as int),
                Err(TxError::LinkDown) => old(self).fits(payload@.len() as int) && !old(
                    self,
                ).link_up,
            },
    {
        if self.tx_capacity < 8 || payload.len() > self.tx_capacity - 8 {
            Err(TxError::BufferOverflow)
        } else if !self.link_up {
            Err(TxError::LinkDown)
        } else {
            let f = WireFrame { key: key, seq_no: seq_no, payload: payload };
            let ghost pre = *self;
            self.sent.push(f);
            proof {
                assert(self.log() =~= pre.log().push(f@));
            }
            Ok(())
        }
    }

    /// Sends a frame under an explicit key: the error-reporting path, where
    /// the value is not a registered endpoint's response.
    pub fn reply_keyed(&mut self, seq_no: u32, key: u32, error: &WireError) -> (r: Result<
        (),
        TxError,
    >)
        ensures
            same_resource(*old(self), *final(self)),
            final(self).log() == log_after_send(*old(self), key, seq_no, enc_wire_error(*error)),
            r is Ok <==> (old(self).link_up && old(self).fits(enc_wire_error(*error).len() as int)),
    {
        let payload = encode_wire_error(error);
        self.send_frame(key, seq_no, payload)
    }

    /// Serializes a response into the shared buffer and transmits it as one
    /// frame keyed by the endpoint's response key. Fails exactly when the
    /// encoded frame overflows the fixed buffer or the link is down.
    pub fn reply<E: Endpoint>(&mut self, seq_no: u32, resp: &E::Response) -> (r: Result<
        (),
        TxError,
    >)
        ensures
            same_resource(*old(self), *final(self)),
            final(self).log() == log_after_send(
                *old(self),
                E::spec_resp_key(),
                seq_no,
                E::spec_encode_response(*resp),
            ),
            r is Ok <==> (old(self).link_up && old(self).fits(
                E::spec_encode_response(*resp).len() as int,
            )),
    {
        let payload = E::encode_response(resp);
        let key = E::resp_key();
        self.send_frame(key, seq_no, payload)
    }
}

} // verus!

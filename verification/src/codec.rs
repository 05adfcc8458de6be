//! Payload codec: the variable-length integer format the endpoints' request
//! and response types travel in, and the encoding of dispatch-level errors.
//!
//! An unsigned value is written low seven bits first; every byte except the
//! last has its high bit set, and the encoding is canonical (the last byte is
//! never zero for a continued value). Decoding accepts exactly the canonical
//! encodings and rejects everything else.

use vstd::prelude::*;

use crate::wire::WireError;

verus! {

/// The canonical encoding of a 32-bit value.
pub open spec fn enc_u32(x: u32) -> Seq<u8>
    decreases x,
{
    if x < 128 {
        seq![x as u8]
    } else {
        seq![(128 + (x % 128)) as u8] + enc_u32(x / 128)
    }
}

/// The decode of a byte sequence: the value and how many bytes it took,
/// or `None` where no canonical encoding starts the sequence.
pub open spec fn dec_u32(s: Seq<u8>) -> Option<(u32, int)>
    decreases s.len(),
{
    if s.len() == 0 {
        None
    } else if s[0] < 128 {
        Some((s[0] as u32, 1))
    } else {
        match dec_u32(s.skip(1)) {
            None => None,
            Some((hi, n)) => {
                let low = s[0] - 128;
                if hi == 0 || low + 128 * hi > u32::MAX {
                    None
                } else {
                    Some((((low + 128 * hi) as u32, n + 1)))
                }
            },
        }
    }
}

/// A decode that must consume the whole sequence: the payload of a frame is
/// exactly one value, with nothing trailing.
pub open spec fn dec_u32_exact(s: Seq<u8>) -> Option<u32> {
    match dec_u32(s) {
        None => None,
        Some((v, n)) => if n == s.len() { Some(v) } else { None },
    }
}

/// Decoding inverts encoding, and an encoding is consumed whole.
pub proof fn lemma_round_trip_u32(x: u32)
    ensures
        dec_u32(enc_u32(x)) == Some((x, enc_u32(x).len() as int)),
        dec_u32_exact(enc_u32(x)) == Some(x),
    decreases x,
{
    if x < 128 {
    } else {
        lemma_round_trip_u32(x / 128);
        assert(enc_u32(x).skip(1) =~= enc_u32(x / 128));
        assert(x % 128 + 128 * (x / 128) == x) by {
            vstd::arithmetic::div_mod::lemma_fundamental_div_mod(x as int, 128);
        };
    }
}

/// Appends the canonical encoding of `x` to `out`.
pub fn encode_u32_into(out: &mut Vec<u8>, x: u32)
    ensures
        final(out)@ == old(out)@ + enc_u32(x),
    decreases x,
{
    if x < 128 {
        out.push(x as u8);
        proof {
            assert(final(out)@ =~= old(out)@ + enc_u32(x));
        }
    } else {
        out.push((128 + (x % 128)) as u8);
        encode_u32_into(out, x / 128);
        proof {
            assert(final(out)@ =~= old(out)@ + enc_u32(x));
        }
    }
}

/// The canonical encoding of `x`, alone.
pub fn encode_u32(x: u32) -> (out: Vec<u8>)
    ensures
        out@ == enc_u32(x),
{
    let mut out: Vec<u8> = Vec::new();
    encode_u32_into(&mut out, x);
    proof {
        assert(out@ =~= enc_u32(x));
    }
    out
}

/// Decodes one value starting at `pos`, returning it with the number of
/// bytes it occupied.
pub fn decode_u32_from(bytes: &Vec<u8>, pos: usize) -> (r: Option<(u32, usize)>)
    requires
        pos <= bytes@.len(),
    ensures
        match r {
            Some(p) => pos + p.1 <= bytes@.len() && dec_u32(bytes@.skip(pos as int)) == Some(
                (p.0, p.1 as int),
            ),
            None => dec_u32(bytes@.skip(pos as int)) is None,
        },
    decreases bytes@.len() - pos,
{
    if pos >= bytes.len() {
        None
    } else {
        let b = bytes[pos];
        if b < 128 {
            Some((b as u32, 1))
        } else {
            proof {
                assert(bytes@.skip(pos as int).skip(1) =~= bytes@.skip(pos as int + 1));
            }
            match decode_u32_from(bytes, pos + 1) {
                None => None,
                Some((hi, n)) => {
                    if hi == 0 {
                        None
                    } else if hi > (0xFFFFFFFFu32 - ((b - 128) as u32)) / 128 {
                        proof {
                            lemma_overflow_guard((b - 128) as u32, hi);
                        }
                        None
                    } else {
                        proof {
                            lemma_overflow_guard((b - 128) as u32, hi);
                        }
                        Some(((b - 128) as u32 + 128 * hi, n + 1))
                    }
                },
            }
        }
    }
}

/// The executable overflow guard agrees with the mathematical one: `hi`
/// exceeds `(u32::MAX - low) / 128` exactly when `low + 128 * hi` leaves
/// the 32-bit range.
proof fn lemma_overflow_guard(low: u32, hi: u32)
    requires
        low < 128,
    ensures
        hi > (0xFFFFFFFFu32 - low) / 128 <==> low + 128 * hi > u32::MAX,
{
    vstd::arithmetic::div_mod::lemma_fundamental_div_mod(0xFFFFFFFF - low, 128);
}

/// Decodes a payload that holds exactly one value and nothing more.
pub fn decode_u32_exact(bytes: &Vec<u8>) -> (r: Option<u32>)
    ensures
        r == dec_u32_exact(bytes@),
{
    proof {
        assert(bytes@.skip(0) =~= bytes@);
    }
    match decode_u32_from(bytes, 0) {
        None => None,
        Some((v, n)) => {
            if n == bytes.len() {
                Some(v)
            } else {
                None
            }
        },
    }
}

/// The encoding of a counted byte string: its length, then the bytes.
pub open spec fn enc_bytes(s: Seq<u8>) -> Seq<u8> {
    enc_u32(s.len() as u32) + s
}

/// The encoding of a dispatch-level error: one tag byte, then for an
/// unknown key its four raw bytes.
pub open spec fn enc_wire_error(e: WireError) -> Seq<u8> {
    match e {
        WireError::DeserFailed => seq![0u8],
        WireError::SerFailed => seq![1u8],
        WireError::UnknownKey(b) => seq![2u8] + b@,
        WireError::FailedToSpawn => seq![3u8],
    }
}

/// Encodes a dispatch-level error for the wire.
pub fn encode_wire_error(e: &WireError) -> (out: Vec<u8>)
    ensures
        out@ == enc_wire_error(*e),
{
    let mut out: Vec<u8> = Vec::new();
    match e {
        WireError::DeserFailed => {
            out.push(0u8);
        },
        WireError::SerFailed => {
            out.push(1u8);
        },
        WireError::UnknownKey(b) => {
            out.push(2u8);
            out.push(b[0]);
            out.push(b[1]);
            out.push(b[2]);
            out.push(b[3]);
        },
        WireError::FailedToSpawn => {
            out.push(3u8);
        },
    }
    proof {
        assert(out@ =~= enc_wire_error(*e));
    }
    out
}

} // verus!

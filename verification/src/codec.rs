//! Byte layouts of the cluster job request and the result payload.
//!
//! A job request carries, in fixed order: the 32-byte result key, the
//! 128-bit nonce little-endian, then the four ciphertext shards of the
//! maker order followed by the four of the taker order.
//!
//! A result payload is a little-endian 8-byte executed flag followed by
//! fixed-width 8-byte fields for the execution price and volume.

use vstd::prelude::*;
use crate::circuit::TradeResult;

verus! {

/// The 16 little-endian bytes of a 128-bit nonce.
pub open spec fn u128_le_bytes(n: u128) -> Seq<u8> {
    seq![
        (n % 0x100) as u8,
        ((n / 0x100) % 0x100) as u8,
        ((n / 0x1_0000) % 0x100) as u8,
        ((n / 0x100_0000) % 0x100) as u8,
        ((n / 0x1_0000_0000) % 0x100) as u8,
        ((n / 0x100_0000_0000) % 0x100) as u8,
        ((n / 0x1_0000_0000_0000) % 0x100) as u8,
        ((n / 0x100_0000_0000_0000) % 0x100) as u8,
        ((n / 0x1_0000_0000_0000_0000) % 0x100) as u8,
        ((n / 0x100_0000_0000_0000_0000) % 0x100) as u8,
        ((n / 0x1_0000_0000_0000_0000_0000) % 0x100) as u8,
        ((n / 0x100_0000_0000_0000_0000_0000) % 0x100) as u8,
        ((n / 0x1_0000_0000_0000_0000_0000_0000) % 0x100) as u8,
        ((n / 0x100_0000_0000_0000_0000_0000_0000) % 0x100) as u8,
        ((n / 0x1_0000_0000_0000_0000_0000_0000_0000) % 0x100) as u8,
        ((n / 0x100_0000_0000_0000_0000_0000_0000_0000) % 0x100) as u8,
    ]
}

/// The 8 little-endian bytes of a 64-bit value.
pub open spec fn u64_le_bytes(v: u64) -> Seq<u8> {
    seq![
        (v % 0x100) as u8,
        ((v / 0x100) % 0x100) as u8,
        ((v / 0x1_0000) % 0x100) as u8,
        ((v / 0x100_0000) % 0x100) as u8,
        ((v / 0x1_0000_0000) % 0x100) as u8,
        ((v / 0x100_0000_0000) % 0x100) as u8,
        ((v / 0x1_0000_0000_0000) % 0x100) as u8,
        ((v / 0x100_0000_0000_0000) % 0x100) as u8,
    ]
}

/// The value of 8 little-endian bytes.
pub open spec fn u64_le_value(s: Seq<u8>) -> int {
    s[0] + s[1] * 0x100 + s[2] * 0x1_0000 + s[3] * 0x100_0000 + s[4] * 0x1_0000_0000 + s[5]
        * 0x100_0000_0000 + s[6] * 0x1_0000_0000_0000 + s[7] * 0x100_0000_0000_0000
}

/// Appends the 16 little-endian bytes of `n` to `out`.
pub fn append_u128_le(out: &mut Vec<u8>, n: u128)
    ensures
        final(out)@ == old(out)@ + u128_le_bytes(n),
{
    let ghost orig: Seq<u8> = out@;
    out.push((n % 0x100) as u8);
    out.push(((n / 0x100) % 0x100) as u8);
    out.push(((n / 0x1_0000) % 0x100) as u8);
    out.push(((n / 0x100_0000) % 0x100) as u8);
    out.push(((n / 0x1_0000_0000) % 0x100) as u8);
    out.push(((n / 0x100_0000_0000) % 0x100) as u8);
    out.push(((n / 0x1_0000_0000_0000) % 0x100) as u8);
    out.push(((n / 0x100_0000_0000_0000) % 0x100) as u8);
    out.push(((n / 0x1_0000_0000_0000_0000) % 0x100) as u8);
    out.push(((n / 0x100_0000_0000_0000_0000) % 0x100) as u8);
    out.push(((n / 0x1_0000_0000_0000_0000_0000) % 0x100) as u8);
    out.push(((n / 0x100_0000_0000_0000_0000_0000) % 0x100) as u8);
    out.push(((n / 0x1_0000_0000_0000_0000_0000_0000) % 0x100) as u8);
    out.push(((n / 0x100_0000_0000_0000_0000_0000_0000) % 0x100) as u8);
    out.push(((n / 0x1_0000_0000_0000_0000_0000_0000_0000) % 0x100) as u8);
    out.push(((n / 0x100_0000_0000_0000_0000_0000_0000_0000) % 0x100) as u8);
    proof {
        assert(out@ =~= orig + u128_le_bytes(n));
    }
}

/// Appends one 32-byte ciphertext block to `out`.
pub fn append_block(out: &mut Vec<u8>, block: &[u8; 32])
    ensures
        final(out)@ == old(out)@ + block@,
{
    let ghost orig: Seq<u8> = out@;
    let mut i: usize = 0;
    while i < 32
        invariant
            i <= 32,
            out@ == orig + block@.subrange(0, i as int),
        decreases 32 - i,
    {
        out.push(block[i]);
        proof {
            assert(out@ =~= orig + block@.subrange(0, i + 1));
        }
        i += 1;
    }
    proof {
        assert(block@.subrange(0, 32) =~= block@);
    }
}

/// Reads the little-endian 64-bit value stored at `offset`.
pub fn read_u64_le(bytes: &Vec<u8>, offset: usize) -> (r: u64)
    requires
        offset + 8 <= bytes@.len(),
    ensures
        r as int == u64_le_value(bytes@.subrange(offset as int, offset as int + 8)),
{
    let n: usize = bytes.len();
    proof {
        assert(offset + 8 <= n);
    }
    let r: u64 = bytes[offset] as u64 + (bytes[offset + 1] as u64) * 0x100 + (bytes[offset + 2]
        as u64) * 0x1_0000 + (bytes[offset + 3] as u64) * 0x100_0000 + (bytes[offset + 4] as u64)
        * 0x1_0000_0000 + (bytes[offset + 5] as u64) * 0x100_0000_0000 + (bytes[offset + 6] as u64)
        * 0x1_0000_0000_0000 + (bytes[offset + 7] as u64) * 0x100_0000_0000_0000;
    r
}

/// Appends the 8 little-endian bytes of `v` to `out`.
pub fn append_u64_le(out: &mut Vec<u8>, v: u64)
    ensures
        final(out)@ == old(out)@ + u64_le_bytes(v),
{
    let ghost orig: Seq<u8> = out@;
    out.push((v % 0x100) as u8);
    out.push(((v / 0x100) % 0x100) as u8);
    out.push(((v / 0x1_0000) % 0x100) as u8);
    out.push(((v / 0x100_0000) % 0x100) as u8);
    out.push(((v / 0x1_0000_0000) % 0x100) as u8);
    out.push(((v / 0x100_0000_0000) % 0x100) as u8);
    out.push(((v / 0x1_0000_0000_0000) % 0x100) as u8);
    out.push(((v / 0x100_0000_0000_0000) % 0x100) as u8);
    proof {
        assert(out@ =~= orig + u64_le_bytes(v));
    }
}

/// Reading back the 8 little-endian bytes of a value yields the value.
pub proof fn lemma_u64_le_round_trip(v: u64)
    ensures
        u64_le_value(u64_le_bytes(v)) == v,
{
    assert(v % 0x100 + ((v / 0x100) % 0x100) * 0x100 + ((v / 0x1_0000) % 0x100) * 0x1_0000 + ((v
        / 0x100_0000) % 0x100) * 0x100_0000 + ((v / 0x1_0000_0000) % 0x100) * 0x1_0000_0000 + ((v
        / 0x100_0000_0000) % 0x100) * 0x100_0000_0000 + ((v / 0x1_0000_0000_0000) % 0x100)
        * 0x1_0000_0000_0000 + ((v / 0x100_0000_0000_0000) % 0x100) * 0x100_0000_0000_0000 == v)
        by (bit_vector);
}

/// Whether a result payload reports an executed trade: its first 8 bytes,
/// read little-endian, equal 1.
pub open spec fn executed_flag(payload: Seq<u8>) -> bool {
    u64_le_value(payload.subrange(0, 8)) == 1
}

/// Decodes the fixed-layout result payload.
///
/// This is meaningful only to a holder of the job's result key, after
/// decryption: to everyone else the price and volume fields are still
/// ciphertext, and only the executed flag is ever made public.
pub fn decode_trade_result(payload: &Vec<u8>) -> (r: TradeResult)
    requires
        payload@.len() >= 24,
    ensures
        r.is_executed as int == u64_le_value(payload@.subrange(0, 8)),
        r.exec_price as int == u64_le_value(payload@.subrange(8, 16)),
        r.exec_volume as int == u64_le_value(payload@.subrange(16, 24)),
        r.is_executed == 1 <==> executed_flag(payload@),
{
    let is_executed = read_u64_le(payload, 0);
    let exec_price = read_u64_le(payload, 8);
    let exec_volume = read_u64_le(payload, 16);
    TradeResult { is_executed, exec_price, exec_volume }
}

/// The fixed-layout result payload of a verdict, holding its executed
/// flag, execution price and execution volume, each 8 bytes little-endian.
pub open spec fn result_payload_bytes(r: TradeResult) -> Seq<u8> {
    u64_le_bytes(r.is_executed) + u64_le_bytes(r.exec_price) + u64_le_bytes(r.exec_volume)
}

/// Encodes a verdict as the fixed-layout result payload; this is the
/// cluster's side of [`decode_trade_result`].
pub fn encode_trade_result(r: &TradeResult) -> (out: Vec<u8>)
    ensures
        out@ == result_payload_bytes(*r),
        out@.len() == 24,
{
    let mut out: Vec<u8> = Vec::new();
    append_u64_le(&mut out, r.is_executed);
    append_u64_le(&mut out, r.exec_price);
    append_u64_le(&mut out, r.exec_volume);
    proof {
        assert(out@ =~= result_payload_bytes(*r));
    }
    out
}

/// Decoding an encoded verdict gives the verdict back, each of the three
/// fields read from its subrange, and the executed flag is reported
/// exactly when the verdict executed.
pub proof fn lemma_result_payload_round_trip(r: TradeResult)
    ensures
        u64_le_value(result_payload_bytes(r).subrange(0, 8)) == r.is_executed,
        u64_le_value(result_payload_bytes(r).subrange(8, 16)) == r.exec_price,
        u64_le_value(result_payload_bytes(r).subrange(16, 24)) == r.exec_volume,
        executed_flag(result_payload_bytes(r)) == (r.is_executed == 1),
{
    let p = result_payload_bytes(r);
    assert(p.subrange(0, 8) =~= u64_le_bytes(r.is_executed));
    assert(p.subrange(8, 16) =~= u64_le_bytes(r.exec_price));
    assert(p.subrange(16, 24) =~= u64_le_bytes(r.exec_volume));
    lemma_u64_le_round_trip(r.is_executed);
    lemma_u64_le_round_trip(r.exec_price);
    lemma_u64_le_round_trip(r.exec_volume);
}

} // verus!

use arcdark::circuit::TradeResult;
use arcdark::codec::{decode_trade_result, encode_trade_result, read_u64_le};

fn le_bytes(v: u64) -> Vec<u8> {
    let mut out = Vec::new();
    let mut m = v;
    for _ in 0..8 {
        out.push((m % 256) as u8);
        m /= 256;
    }
    out
}

#[test]
fn read_u64_le_reads_little_endian() {
    let bytes = vec![0x01, 0x02, 0x03, 0x04, 0x05, 0x06, 0x07, 0x08];
    assert_eq!(read_u64_le(&bytes, 0), 0x0807060504030201);
}

#[test]
fn read_u64_le_honours_offset() {
    let mut bytes = vec![0xff, 0xff];
    bytes.extend(le_bytes(123456789));
    assert_eq!(read_u64_le(&bytes, 2), 123456789);
}

#[test]
fn decode_trade_result_splits_the_three_fields() {
    let mut payload = Vec::new();
    payload.extend(le_bytes(1));
    payload.extend(le_bytes(95));
    payload.extend(le_bytes(30));
    let r = decode_trade_result(&payload);
    assert_eq!(r.is_executed, 1);
    assert_eq!(r.exec_price, 95);
    assert_eq!(r.exec_volume, 30);
}

#[test]
fn encode_trade_result_uses_little_endian_fields() {
    let r = TradeResult { is_executed: 1, exec_price: 0x0203, exec_volume: 7 };
    let payload = encode_trade_result(&r);
    assert_eq!(payload.len(), 24);
    assert_eq!(&payload[0..8], &[1, 0, 0, 0, 0, 0, 0, 0]);
    assert_eq!(&payload[8..16], &[3, 2, 0, 0, 0, 0, 0, 0]);
    assert_eq!(&payload[16..24], &[7, 0, 0, 0, 0, 0, 0, 0]);
}

#[test]
fn result_payload_round_trips() {
    let r = TradeResult { is_executed: 1, exec_price: u64::MAX - 5, exec_volume: 123456789012345 };
    let decoded = decode_trade_result(&encode_trade_result(&r));
    assert_eq!(decoded, r);
}

#[test]
fn decode_trade_result_flag_is_exactly_one() {
    // Any flag value other than 1 is not an executed trade.
    let mut payload = Vec::new();
    payload.extend(le_bytes(2));
    payload.extend(le_bytes(0));
    payload.extend(le_bytes(0));
    let r = decode_trade_result(&payload);
    assert_eq!(r.is_executed, 2);
    assert_ne!(r.is_executed, 1);
}

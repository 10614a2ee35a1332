use igloo_esphome::connection::error::ConnectionError;
use igloo_esphome::connection::varu::varu32_from_bytes;
use igloo_esphome::varu32_to_bytes;

fn expected_len(v: u32) -> usize {
    if v <= 240 {
        1
    } else if v <= 2287 {
        2
    } else if v <= 67823 {
        3
    } else if v <= 16777215 {
        4
    } else {
        5
    }
}

#[test]
fn varint_round_trip_class_boundaries() {
    let values = [
        0u32,
        1,
        239,
        240,
        241,
        1000,
        2287,
        2288,
        40000,
        67823,
        67824,
        1000000,
        16777215,
        16777216,
        123456789,
        u32::MAX - 1,
        u32::MAX,
    ];
    for &v in values.iter() {
        let bytes = varu32_to_bytes(v);
        assert_eq!(bytes.len(), expected_len(v), "length class of {v}");
        let (decoded, consumed) = varu32_from_bytes(&bytes, 0).expect("decode own encoding");
        assert_eq!(decoded, v);
        assert_eq!(consumed, bytes.len());
    }
}

#[test]
fn varint_round_trip_with_trailing_bytes() {
    let mut bytes = varu32_to_bytes(67824);
    bytes.push(0xAB);
    bytes.push(0xCD);
    let (decoded, consumed) = varu32_from_bytes(&bytes, 0).unwrap();
    assert_eq!(decoded, 67824);
    assert_eq!(consumed, 4);
}

#[test]
fn varint_exact_bytes() {
    assert_eq!(varu32_to_bytes(0), vec![0]);
    assert_eq!(varu32_to_bytes(240), vec![240]);
    assert_eq!(varu32_to_bytes(241), vec![241, 1]);
    assert_eq!(varu32_to_bytes(2287), vec![248, 255]);
    assert_eq!(varu32_to_bytes(2288), vec![249, 0, 0]);
    assert_eq!(varu32_to_bytes(67823), vec![249, 255, 255]);
    assert_eq!(varu32_to_bytes(67824), vec![250, 0, 0, 0]);
    assert_eq!(varu32_to_bytes(16777215), vec![250, 254, 247, 15]);
    assert_eq!(varu32_to_bytes(16777216), vec![251, 0, 0, 0, 0]);
    assert_eq!(varu32_to_bytes(u32::MAX), vec![251, 254, 255, 255, 255]);
}

#[test]
fn varint_invalid_first_bytes() {
    for b in 252u8..=255 {
        let r = varu32_from_bytes(&vec![b, 0, 0, 0, 0], 0);
        assert_eq!(r, Err(ConnectionError::InvalidVarintFirstByte(b)));
    }
}

#[test]
fn varint_incomplete_input() {
    assert_eq!(varu32_from_bytes(&vec![], 0), Err(ConnectionError::Incomplete));
    assert_eq!(varu32_from_bytes(&vec![249], 0), Err(ConnectionError::Incomplete));
    assert_eq!(varu32_from_bytes(&vec![249, 1], 0), Err(ConnectionError::Incomplete));
    assert_eq!(varu32_from_bytes(&vec![251, 1, 2, 3], 0), Err(ConnectionError::Incomplete));
}

#[test]
fn varint_five_byte_overflow() {
    let r = varu32_from_bytes(&vec![251, 255, 255, 255, 255], 0);
    assert_eq!(r, Err(ConnectionError::VarintOverflow));
}

#[test]
fn varint_decode_at_offset() {
    let mut buf = vec![7u8, 7, 7];
    buf.extend(varu32_to_bytes(2288));
    let (decoded, consumed) = varu32_from_bytes(&buf, 3).unwrap();
    assert_eq!(decoded, 2288);
    assert_eq!(consumed, 6);
}

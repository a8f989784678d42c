use uart_control::framing::{encode_multi, encode_single, u32_be_bytes, ACK, NACK, WAKE_BYTE};

#[test]
fn wire_constants() {
    assert_eq!(WAKE_BYTE, 0x7F);
    assert_eq!(ACK, 0x79);
    assert_eq!(NACK, 0x1F);
}

#[test]
fn encode_single_is_byte_then_complement() {
    assert_eq!(encode_single(0x11), vec![0x11, 0xEE]);
    assert_eq!(encode_single(0x00), vec![0x00, 0xFF]);
    assert_eq!(encode_single(0xFF), vec![0xFF, 0x00]);
    assert_eq!(encode_single(0x04), vec![0x04, 0xFB]);
}

#[test]
fn encode_single_complements_every_opcode() {
    for o in 0..=255u8 {
        assert_eq!(encode_single(o), vec![o, o ^ 0xFF]);
    }
}

#[test]
fn encode_multi_appends_xor_fold() {
    assert_eq!(encode_multi(&vec![]), vec![0x00]);
    assert_eq!(encode_multi(&vec![0x5A]), vec![0x5A, 0x5A]);
    assert_eq!(encode_multi(&vec![0x01, 0x02, 0x03]), vec![0x01, 0x02, 0x03, 0x00]);
    assert_eq!(
        encode_multi(&vec![0x08, 0x00, 0x00, 0x00]),
        vec![0x08, 0x00, 0x00, 0x00, 0x08]
    );
}

#[test]
fn encode_multi_checksum_is_xor_of_all_bytes() {
    let payloads: Vec<Vec<u8>> = vec![
        vec![0xDE, 0xAD, 0xBE, 0xEF],
        vec![0x01, 0x01],
        vec![0x80, 0x40, 0x20, 0x10, 0x08],
        (0..=255u8).collect(),
    ];
    for payload in payloads {
        let framed = encode_multi(&payload);
        let checksum = payload.iter().fold(0u8, |acc, &b| acc ^ b);
        assert_eq!(framed.len(), payload.len() + 1);
        assert_eq!(&framed[..payload.len()], &payload[..]);
        assert_eq!(framed[payload.len()], checksum);
    }
}

#[test]
fn encode_multi_checksum_ignores_byte_order() {
    let a = vec![0x12, 0x34, 0x56];
    let b = vec![0x56, 0x34, 0x12];
    assert_eq!(
        encode_multi(&a).last().copied(),
        encode_multi(&b).last().copied()
    );
}

#[test]
fn u32_big_endian_bytes() {
    assert_eq!(u32_be_bytes(0x08000000), vec![0x08, 0x00, 0x00, 0x00]);
    assert_eq!(u32_be_bytes(0xDEADBEEF), vec![0xDE, 0xAD, 0xBE, 0xEF]);
    assert_eq!(u32_be_bytes(0), vec![0, 0, 0, 0]);
    assert_eq!(u32_be_bytes(0xFFFFFFFF), vec![0xFF, 0xFF, 0xFF, 0xFF]);
    assert_eq!(u32_be_bytes(0x00000102), vec![0x00, 0x00, 0x01, 0x02]);
}

use btwattch2::codec::{encode_command, gen_cmd, monitoring_command, EncodeError};

fn reference_crc8(data: &[u8]) -> u8 {
    let alg = Box::new(crc::Algorithm::<u8> {
        width: 8,
        poly: 0x85,
        init: 0x00,
        refin: false,
        refout: false,
        xorout: 0x00,
        check: 0x00,
        residue: 0x00,
    });
    crc::Crc::<u8>::new(Box::leak(alg)).checksum(data)
}

#[test]
fn test_generate_command() {
    assert_eq!(gen_cmd(&[0x08]), vec![0xAA, 0x00, 0x01, 0x08, 0xB3]);
}

#[test]
fn monitoring_command_known_answer() {
    assert_eq!(monitoring_command(), vec![0xAA, 0x00, 0x01, 0x08, 0xB3]);
}

#[test]
fn length_field_is_big_endian() {
    let payload: Vec<u8> = vec![0x5A; 300];
    let frame = gen_cmd(&payload);
    assert_eq!(frame.len(), 304);
    assert_eq!(frame[0], 0xAA);
    assert_eq!(frame[1], 0x01);
    assert_eq!(frame[2], 0x2C);
    assert_eq!(&frame[3..303], payload.as_slice());
}

#[test]
fn crc_byte_matches_reference_checksum() {
    for payload in [
        vec![0x08],
        vec![0x83],
        vec![],
        vec![0x01, 0x02, 0x03, 0x04, 0x05],
        vec![0xFF; 40],
    ] {
        let frame = gen_cmd(&payload);
        assert_eq!(*frame.last().unwrap(), reference_crc8(&payload));
    }
}

#[test]
fn encode_command_accepts_largest_payload() {
    let payload: Vec<u8> = vec![0x11; 65535];
    let frame = encode_command(&payload).unwrap();
    assert_eq!(frame.len(), 65539);
    assert_eq!(frame[1], 0xFF);
    assert_eq!(frame[2], 0xFF);
}

#[test]
fn encode_command_rejects_oversized_payload() {
    let payload: Vec<u8> = vec![0x11; 65536];
    assert_eq!(encode_command(&payload), Err(EncodeError::PayloadTooLong));
}

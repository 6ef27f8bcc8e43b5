use dcc_tool::model::{Dcc, DccPacketBody, Header};

const HEARTBEAT: [u8; 225] = [
    254, 254, 0, 223, 1, 2, 0, 0, 68, 67, 67, 103, 45, 234, 0, 0, 1, 0, 0, 0, 0, 0, 0, 0, 139,
    109, 49, 1, 0, 0, 0, 1, 1, 0, 0, 1, 2, 0, 0, 1, 3, 0, 0, 1, 4, 0, 0, 1, 5, 0, 0, 1, 6, 0,
    0, 1, 7, 0, 0, 1, 8, 0, 0, 1, 9, 0, 0, 1, 10, 0, 0, 1, 11, 0, 0, 1, 12, 0, 0, 1, 13, 0, 0,
    1, 14, 0, 0, 1, 15, 0, 0, 1, 16, 0, 0, 1, 17, 0, 0, 1, 18, 0, 0, 1, 19, 0, 0, 2, 0, 0, 0,
    2, 1, 0, 0, 2, 2, 0, 0, 2, 3, 0, 0, 2, 4, 0, 0, 3, 0, 0, 0, 3, 1, 0, 0, 3, 2, 0, 0, 3, 3,
    0, 0, 3, 4, 0, 0, 3, 5, 0, 0, 3, 6, 0, 0, 4, 0, 15, 160, 4, 1, 15, 160, 4, 2, 15, 160, 4,
    3, 15, 160, 4, 4, 15, 160, 7, 0, 0, 44, 7, 1, 0, 44, 7, 2, 0, 40, 7, 3, 11, 180, 7, 4, 11,
    179, 7, 5, 11, 180, 7, 6, 11, 179, 8, 0, 7, 189, 8, 1, 7, 189, 8, 2, 7, 189, 253, 0, 1, 13,
    254, 0, 1, 1, 215, 214,
];

#[test]
fn heartbeat_decode_test() {
    let hb_pkt: &[u8] = &[
        254, 254, 0, 223, 1, 2, 0, 0, 68, 67, 67, 103, 45, 234, 0, 0, 1, 0, 0, 0, 0, 0, 0, 0, 139,
        109, 49, 1, 0, 0, 0, 1, 1, 0, 0, 1, 2, 0, 0, 1, 3, 0, 0, 1, 4, 0, 0, 1, 5, 0, 0, 1, 6, 0,
        0, 1, 7, 0, 0, 1, 8, 0, 0, 1, 9, 0, 0, 1, 10, 0, 0, 1, 11, 0, 0, 1, 12, 0, 0, 1, 13, 0, 0,
        1, 14, 0, 0, 1, 15, 0, 0, 1, 16, 0, 0, 1, 17, 0, 0, 1, 18, 0, 0, 1, 19, 0, 0, 2, 0, 0, 0,
        2, 1, 0, 0, 2, 2, 0, 0, 2, 3, 0, 0, 2, 4, 0, 0, 3, 0, 0, 0, 3, 1, 0, 0, 3, 2, 0, 0, 3, 3,
        0, 0, 3, 4, 0, 0, 3, 5, 0, 0, 3, 6, 0, 0, 4, 0, 15, 160, 4, 1, 15, 160, 4, 2, 15, 160, 4,
        3, 15, 160, 4, 4, 15, 160, 7, 0, 0, 44, 7, 1, 0, 44, 7, 2, 0, 40, 7, 3, 11, 180, 7, 4, 11,
        179, 7, 5, 11, 180, 7, 6, 11, 179, 8, 0, 7, 189, 8, 1, 7, 189, 8, 2, 7, 189, 253, 0, 1, 13,
        254, 0, 1, 1, 215, 214,
    ];
    let _ = Dcc::decode(hb_pkt);
}

#[test]
fn heartbeat_repl_decode_test() {
    let d = &[
        254, 254, 0, 34, 1, 2, 0, 0, 68, 67, 67, 103, 45, 234, 0, 0, 1, 0, 0, 0, 0, 0, 0, 0, 2,
        87, 0, 0, 0, 0, 100, 126, 147, 197, 47, 81,
    ];
    let pkt = Dcc::decode(d).unwrap();
    println!("{:?}", pkt.header)
}

#[test]
fn do_ctr_encode_test() {
    let d = &[
        254, 254, 0, 30, 0, 0, 0, 0, 0, 0, 0, 0, 0, 0, 2, 0, 2, 2, 0, 0, 0, 0, 100, 126, 149,
        174, 2, 0, 0, 1, 255, 233,
    ];
    let pkt = Dcc::decode(d).unwrap();
    println!("{:?}", pkt)
}

fn check_header(h: &Header, expected: (u8, u8, u64, u8, u8, u8, u8, u64)) {
    assert_eq!(h.version, expected.0);
    assert_eq!(h.device_type, expected.1);
    assert_eq!(h.device_id, expected.2);
    assert_eq!(h.module, expected.3);
    assert_eq!(h.module_id, expected.4);
    assert_eq!(h.protocol, expected.5);
    assert_eq!(h.sub_protocol, expected.6);
    assert_eq!(h.msg_id, expected.7);
}

#[test]
fn heartbeat_decodes_header_and_points() {
    let pkt = Dcc::decode(&HEARTBEAT).unwrap();
    check_header(&pkt.header, (1, 2, 0x0000_4443_4367_2dea, 0, 0, 1, 0, 139));
    match pkt.body {
        DccPacketBody::HeartBeat(io) => {
            assert_eq!(io.di_list.len(), 20);
            assert_eq!(io.do_list.len(), 5);
            assert_eq!(io.ai_list.len(), 7);
            assert_eq!(io.ao_list.len(), 5);
            assert_eq!(io.via_list.len(), 3);
            assert_eq!(io.vir_list.len(), 4);
            assert_eq!(io.vo_list.len(), 3);
            assert_eq!(io.di_list[19].index, 19);
            assert_eq!(io.ao_list[2].index, 2);
            assert_eq!(io.ao_list[2].origin_value, 4000);
            assert_eq!(io.via_list[2].index, 2);
            assert_eq!(io.via_list[2].origin_value, 40);
            assert_eq!(io.vir_list[0].index, 3);
            assert_eq!(io.vir_list[0].origin_value, 2996);
            assert_eq!(io.vir_list[1].origin_value, 2995);
            assert_eq!(io.vo_list[1].origin_value, 1981);
            assert_eq!(io.hardware_ver, 0);
            assert_eq!(io.software_ver, 0);
        }
        _ => panic!("expected a heartbeat"),
    }
}

#[test]
fn heartbeat_reply_frame_decodes_empty_point_list() {
    let d = &[
        254, 254, 0, 34, 1, 2, 0, 0, 68, 67, 67, 103, 45, 234, 0, 0, 1, 0, 0, 0, 0, 0, 0, 0, 2,
        87, 0, 0, 0, 0, 100, 126, 147, 197, 47, 81,
    ];
    let pkt = Dcc::decode(d).unwrap();
    check_header(&pkt.header, (1, 2, 0x0000_4443_4367_2dea, 0, 0, 1, 0, 2));
    match pkt.body {
        DccPacketBody::HeartBeat(io) => {
            assert_eq!(io.di_list.len(), 0);
            assert_eq!(io.vo_list.len(), 0);
        }
        _ => panic!("expected a heartbeat"),
    }
}

#[test]
fn command_frame_decodes_as_text() {
    let d = &[
        254, 254, 0, 30, 0, 0, 0, 0, 0, 0, 0, 0, 0, 0, 2, 0, 2, 2, 0, 0, 0, 0, 100, 126, 149,
        174, 2, 0, 0, 1, 255, 233,
    ];
    let pkt = Dcc::decode(d).unwrap();
    // the message id is read one byte early: the sub-protocol lands on top
    check_header(&pkt.header, (0, 0, 0, 2, 0, 2, 2, 0x0200_0000_0064_7e95));
    match pkt.body {
        DccPacketBody::UnKnow(text) => assert_eq!(text, "[2, 0, 0, 1]"),
        _ => panic!("expected an unknown body"),
    }
}

#[test]
fn bad_checksum_is_refused() {
    let mut d = HEARTBEAT;
    d[224] = 0;
    match Dcc::decode(&d) {
        Err(e) => assert_eq!(e, "crc check error"),
        Ok(_) => panic!("a frame with a wrong checksum was accepted"),
    }
}

#[test]
fn bad_magic_is_refused() {
    let mut d = HEARTBEAT;
    d[1] = 0xff;
    assert_eq!(Dcc::decode(&d).err(), Some("crc check error"));
}

#[test]
fn short_inputs_are_refused() {
    assert_eq!(Dcc::decode(&[]).err(), Some("crc check error"));
    assert_eq!(Dcc::decode(&[254]).err(), Some("crc check error"));
    assert_eq!(Dcc::decode(&[254, 254, 0]).err(), Some("crc check error"));
}

#[test]
fn try_decode_refuses_where_decode_panics() {
    // two bytes
    assert!(Dcc::try_decode(&[254, 254]).is_none());
    // a heartbeat frame with no point list: header only
    let mut d: Vec<u8> = vec![254, 254, 0, 26, 1, 2, 0, 0, 0, 0, 0, 0, 0, 0, 0, 0, 1, 0, 0, 0, 0, 0, 0, 0, 0, 0];
    let c = checksum_of(&d);
    d.push((c >> 8) as u8);
    d.push((c & 0xff) as u8);
    assert!(Dcc::try_decode(&d).is_none());
    // the heartbeat of the device decodes
    match Dcc::try_decode(&HEARTBEAT) {
        Some(Ok(_)) => {}
        _ => panic!("the heartbeat should decode"),
    }
    // a frame with a bad checksum is an error, not a refusal
    let mut bad = HEARTBEAT;
    bad[224] = 1;
    assert_eq!(Dcc::try_decode(&bad).map(|r| r.err()), Some(Some("crc check error")));
}

#[test]
fn try_decode_refuses_large_or_short_point_lists() {
    // count 64
    let mut d: Vec<u8> = HEARTBEAT[..26].to_vec();
    d.push(64);
    let c = checksum_of(&d);
    d.push((c >> 8) as u8);
    d.push((c & 0xff) as u8);
    assert!(Dcc::try_decode(&d).is_none());
    // count 2 but only one chunk
    let mut d: Vec<u8> = HEARTBEAT[..26].to_vec();
    d.extend_from_slice(&[2, 1, 0, 0, 1]);
    let c = checksum_of(&d);
    d.push((c >> 8) as u8);
    d.push((c & 0xff) as u8);
    assert!(Dcc::try_decode(&d).is_none());
}

/// CRC-16/MODBUS, bit by bit, for building test frames.
fn checksum_of(bytes: &[u8]) -> u16 {
    let mut c: u16 = 0xffff;
    for b in bytes {
        c ^= *b as u16;
        for _ in 0..8 {
            c = if c & 1 == 1 { (c >> 1) ^ 0xa001 } else { c >> 1 };
        }
    }
    c
}

#[test]
fn test_checksum_helper_matches_catalog() {
    assert_eq!(checksum_of(b"123456789"), 0x4b37);
}

// law: each point of a known type is listed exactly once (49 chunks, 2 of
// unknown type)
#[test]
fn heartbeat_lists_every_known_point_once() {
    let pkt = Dcc::decode(&HEARTBEAT).unwrap();
    match pkt.body {
        DccPacketBody::HeartBeat(io) => {
            let total = io.di_list.len()
                + io.do_list.len()
                + io.ai_list.len()
                + io.ao_list.len()
                + io.via_list.len()
                + io.vir_list.len()
                + io.vo_list.len();
            assert_eq!(total, 47);
        }
        _ => panic!("expected a heartbeat"),
    }
}

use tl_mbox::bytes::u16_from_le;
use tl_mbox::cmd::serialize_cmd;
use tl_mbox::cmd::serialize_cmd_packet;
use tl_mbox::cmd::serialize_acl_packet;
use tl_mbox::evt::parse_cc;
use tl_mbox::evt::parse_evt;
use tl_mbox::WirelessFwInfoTable;

#[test]
fn version_word_decoding() {
    let info = WirelessFwInfoTable {
        version: 0x01020304,
        memory_size: 0x10203040,
        info_stack: 0,
        reserved: 0,
    };
    assert_eq!(info.version_major(), 1);
    assert_eq!(info.version_minor(), 2);
    assert_eq!(info.subversion(), 3);
    assert_eq!(info.sram2a_size(), 0x10);
    assert_eq!(info.sram2b_size(), 0x20);
    assert_eq!(info.flash_size(), 0x40);
}

#[test]
fn command_round_trip_twenty_byte_payload() {
    let payload: Vec<u8> = (0..20u8).collect();
    let pkt = serialize_cmd_packet(0x01, 0xFC4C, payload.as_slice());
    let mut expected: Vec<u8> = vec![0x01, 0x4C, 0xFC, 0x14];
    expected.extend_from_slice(payload.as_slice());
    assert_eq!(pkt, expected);
}

#[test]
fn command_serial_without_kind() {
    let serial = serialize_cmd(0x0C03, &[0x01]);
    assert_eq!(serial, vec![0x03, 0x0C, 0x01, 0x01]);
}

#[test]
fn acl_packet_layout() {
    let pkt = serialize_acl_packet(0x02, 0x0040, &[0xAA, 0xBB]);
    assert_eq!(pkt, vec![0x02, 0x40, 0x00, 0x02, 0x00, 0xAA, 0xBB]);
}

#[test]
fn event_round_trip_command_complete() {
    let body: Vec<u8> = vec![0x04, 0x0E, 0x04, 0x01, 0x00, 0x00, 0x00];
    let fields = parse_evt(&body);
    assert_eq!(fields.kind, tl_mbox::consts::TL_BLEEVT_PKT_TYPE);
    assert_eq!(fields.evt_code, tl_mbox::consts::TL_BLEEVT_CC_OPCODE);
    assert_eq!(fields.payload, vec![0x01, 0x00, 0x00, 0x00]);
    let cc = parse_cc(&fields.payload);
    assert_eq!(cc.num_hci_cmd_packets, 1);
    assert_eq!(cc.cmd_opcode, 0x0000);
    assert_eq!(cc.status, 0x00);
}

#[test]
fn malformed_length_is_truncated() {
    let body: Vec<u8> = vec![0x04, 0x3E, 200, 1, 2, 3];
    let fields = parse_evt(&body);
    assert_eq!(fields.kind, 0x04);
    assert_eq!(fields.evt_code, 0x3E);
    assert_eq!(fields.payload, vec![1, 2, 3]);
}

#[test]
fn short_event_is_empty() {
    let body: Vec<u8> = vec![0x04];
    let fields = parse_evt(&body);
    assert_eq!(fields.kind, 0x04);
    assert_eq!(fields.evt_code, 0);
    assert_eq!(fields.payload, Vec::<u8>::new());
}

#[test]
fn little_endian_words() {
    assert_eq!(u16_from_le(0x4C, 0xFC), 0xFC4C);
    assert_eq!(u16_from_le(0x00, 0x00), 0x0000);
}

#[test]
fn divc_rounds_up() {
    assert_eq!(tl_mbox::divc(266, 4), 67);
    assert_eq!(tl_mbox::divc(8, 4), 2);
    assert_eq!(tl_mbox::divc(9, 4), 3);
    assert_eq!(tl_mbox::POOL_SIZE, 5 * 4 * 67);
}

use tl_mbox::channels::CPU1_IPCC_BLE_CMD_CHANNEL;
use tl_mbox::channels::CPU1_IPCC_HCI_ACL_DATA_CHANNEL;
use tl_mbox::channels::CPU1_IPCC_MM_RELEASE_BUFFER_CHANNEL;
use tl_mbox::channels::CPU1_IPCC_SYSTEM_CMD_RSP_CHANNEL;
use tl_mbox::channels::CPU2_IPCC_THREAD_NOTIF_ACK_CHANNEL;
use tl_mbox::evt::parse_cc;
use tl_mbox::evt::parse_evt;
use tl_mbox::ipcc::Ipcc;
use tl_mbox::shci::ShciBleInitCmdParam;
use tl_mbox::sys::cmd_evt_handler;
use tl_mbox::DeviceInfoTable;
use tl_mbox::FusInfoTable;
use tl_mbox::SafeBootInfoTable;
use tl_mbox::TlMbox;
use tl_mbox::WirelessFwInfoTable;
use tl_mbox::EVT_QUEUE_ID;
use tl_mbox::FREE_BUFF_QUEUE_ID;
use tl_mbox::LOCAL_FREE_BUF_QUEUE_ID;
use tl_mbox::SYSTEM_EVT_QUEUE_ID;

fn boot() -> (TlMbox, Ipcc) {
    let mut ipcc = Ipcc::new();
    let mbox = TlMbox::init(&mut ipcc);
    (mbox, ipcc)
}

fn sample_param() -> ShciBleInitCmdParam {
    ShciBleInitCmdParam {
        p_ble_buffer_address: 0,
        ble_buffer_size: 0,
        num_attr_record: 68,
        num_attr_serv: 8,
        attr_value_arr_size: 1344,
        num_of_links: 2,
        extended_packet_length_enabled: 1,
        pr_write_list_size: 0x3A,
        mb_lock_count: 0x79,
        att_mtu: 156,
        slave_sca: 500,
        master_sca: 0,
        ls_source: 1,
        max_conn_event_length: 0xFFFFFFFF,
        hs_startup_time: 0x148,
        viterbi_enable: 1,
        ll_only: 0,
        hw_version: 0,
    }
}

#[test]
fn cold_boot_reports_no_firmware() {
    let (mbox, ipcc) = boot();
    assert!(mbox.wireless_fw_info().is_none());
    for ch in 1..=6u8 {
        assert!(ipcc.is_tx_pending(ch));
        assert!(!ipcc.is_rx_pending(ch));
    }
}

#[test]
fn init_fills_reference_table_with_static_addresses() {
    let (mbox, _ipcc) = boot();
    assert_eq!(mbox.ref_table.device_info_table, tl_mbox::TL_DEVICE_INFO_TABLE_ADDR);
    assert_eq!(mbox.ref_table.ble_table, tl_mbox::TL_BLE_TABLE_ADDR);
    assert_eq!(mbox.ref_table.thread_table, tl_mbox::TL_THREAD_TABLE_ADDR);
    assert_eq!(mbox.ref_table.sys_table, tl_mbox::TL_SYS_TABLE_ADDR);
    assert_eq!(mbox.ref_table.mem_manager_table, tl_mbox::TL_MEM_MANAGER_TABLE_ADDR);
    assert_eq!(mbox.ref_table.traces_table, tl_mbox::TL_TRACES_TABLE_ADDR);
    assert_eq!(mbox.ref_table.mac_802_15_4_table, tl_mbox::TL_MAC_802_15_4_TABLE_ADDR);
    assert_eq!(mbox.ref_table.zigbee_table, tl_mbox::TL_ZIGBEE_TABLE_ADDR);
    assert_eq!(mbox.ref_table.lld_tests_table, tl_mbox::TL_LLD_TESTS_TABLE_ADDR);
    assert_eq!(mbox.ref_table.ble_lld_table, tl_mbox::TL_BLE_LLD_TABLE_ADDR);
}

#[test]
fn init_zeroes_tables_and_makes_self_rings() {
    let (mbox, _ipcc) = boot();
    assert_eq!(mbox.device_info_table.wireless_fw_info_table.version, 0);
    assert_eq!(mbox.device_info_table.safe_boot_info_table.version, 0);
    assert_eq!(mbox.device_info_table.fus_info_table.version, 0);
    assert_eq!(mbox.thread_table.no_stack_buffer, 0);
    assert_eq!(mbox.traces_table.traces_queue, 0);
    assert_eq!(mbox.zigbee_table.notif_m0_to_m4_buffer, 0);
    assert_eq!(mbox.lld_tests_table.cli_cmd_rsp_buffer, 0);
    assert_eq!(mbox.ble_lld_table.cmd_rsp_buffer, 0);
    assert_eq!(mbox.mac_802_15_4_table.evt_queue, 0);
    assert_eq!(mbox.ble_table.pcmd_buffer, tl_mbox::BLE_CMD_BUFFER_ADDR);
    assert_eq!(mbox.sys_table.pcmd_buffer, tl_mbox::SYS_CMD_BUF_ADDR);
    assert_eq!(mbox.mem_manager_table.ble_pool_size, tl_mbox::POOL_SIZE as u32);
    for q in [EVT_QUEUE_ID, SYSTEM_EVT_QUEUE_ID, FREE_BUFF_QUEUE_ID, LOCAL_FREE_BUF_QUEUE_ID] {
        assert!(mbox.arena.is_empty(q));
        let n = mbox.arena.node(q);
        assert_eq!(n.next, q);
        assert_eq!(n.prev, q);
    }
}

#[test]
fn wireless_fw_info_reads_descriptor_fields() {
    let (mut mbox, _ipcc) = boot();
    let info = DeviceInfoTable {
        safe_boot_info_table: SafeBootInfoTable { version: 0 },
        fus_info_table: FusInfoTable { version: 0, memory_size: 0, fus_info: 0 },
        wireless_fw_info_table: WirelessFwInfoTable {
            version: 0x010D0203,
            memory_size: 0x20100080,
            info_stack: 0,
            reserved: 0,
        },
    };
    mbox.coprocessor_publish_device_info(info);
    let fw = mbox.wireless_fw_info().unwrap();
    assert_eq!(fw.version_major(), 1);
    assert_eq!(fw.version_minor(), 13);
    assert_eq!(fw.subversion(), 2);
    assert_eq!(fw.flash_size(), 0x80);
    assert_eq!(fw.sram2a_size(), 0x20);
    assert_eq!(fw.sram2b_size(), 0x10);
}

#[test]
fn wireless_fw_info_absent_iff_version_zero() {
    let (mut mbox, _ipcc) = boot();
    assert!(mbox.wireless_fw_info().is_none());
    let mut info = mbox.device_info_table;
    info.wireless_fw_info_table.version = 1;
    mbox.coprocessor_publish_device_info(info);
    assert!(mbox.wireless_fw_info().is_some());
    info.wireless_fw_info_table.version = 0;
    mbox.coprocessor_publish_device_info(info);
    assert!(mbox.wireless_fw_info().is_none());
}

#[test]
fn ble_command_send_writes_buffer_and_raises_channel() {
    let (mut mbox, mut ipcc) = boot();
    mbox.send_ble_cmd(&mut ipcc, &[0x03, 0x0C, 0x00]);
    assert_eq!(mbox.ble_cmd_buf, vec![0x01, 0x03, 0x0C, 0x00]);
    assert!(!ipcc.is_tx_pending(CPU1_IPCC_BLE_CMD_CHANNEL));
}

#[test]
fn acl_send_busy_until_acknowledged() {
    let (mut mbox, mut ipcc) = boot();
    assert!(mbox.send_acl(&mut ipcc, &[0x40, 0x00, 0x01, 0x00, 0xAA]));
    assert_eq!(mbox.acl_buf, vec![0x02, 0x40, 0x00, 0x01, 0x00, 0xAA]);
    // A second frame is refused while the first is in flight.
    assert!(!mbox.send_acl(&mut ipcc, &[0x41, 0x00, 0x00, 0x00]));
    assert_eq!(mbox.acl_buf, vec![0x02, 0x40, 0x00, 0x01, 0x00, 0xAA]);
    ipcc.complete_tx(CPU1_IPCC_HCI_ACL_DATA_CHANNEL);
    assert!(mbox.send_acl(&mut ipcc, &[0x41, 0x00, 0x00, 0x00]));
}

#[test]
fn event_receive_delivers_and_drop_releases() {
    let (mut mbox, mut ipcc) = boot();
    let body: Vec<u8> = vec![0x04, 0x3E, 0x04, 0x01, 0x00, 0x40, 0x00];
    let node = mbox.coprocessor_post_evt(&mut ipcc, body.clone());
    mbox.interrupt_ipcc_rx_handler(&mut ipcc);
    let evt = mbox.try_read().unwrap();
    assert_eq!(evt.node, node);
    assert_eq!(evt.data, body);
    let fields = parse_evt(&evt.data);
    assert_eq!(fields.evt_code, 0x3E);
    assert_eq!(fields.payload, vec![0x01, 0x00, 0x40, 0x00]);
    assert!(mbox.try_read().is_none());
    // Handing the box back puts the buffer on the to-release list and
    // raises the release channel.
    assert!(ipcc.is_tx_pending(CPU1_IPCC_MM_RELEASE_BUFFER_CHANNEL));
    mbox.evt_drop(&mut ipcc, evt);
    assert!(!ipcc.is_tx_pending(CPU1_IPCC_MM_RELEASE_BUFFER_CHANNEL));
    assert_eq!(mbox.arena.node(LOCAL_FREE_BUF_QUEUE_ID).next, node);
    assert_eq!(mbox.arena.node(node).next, LOCAL_FREE_BUF_QUEUE_ID);
}

#[test]
fn command_complete_rides_the_event_queue() {
    let (mut mbox, mut ipcc) = boot();
    let node = mbox.coprocessor_post_evt(&mut ipcc, vec![0x04, 0x0E, 0x04, 0x01, 0x00, 0x00, 0x00]);
    mbox.interrupt_ipcc_rx_handler(&mut ipcc);
    let evt = mbox.try_read().unwrap();
    assert_eq!(evt.node, node);
    let cc = parse_cc(&parse_evt(&evt.data).payload);
    assert_eq!(cc.num_hci_cmd_packets, 1);
    assert_eq!(cc.cmd_opcode, 0x0000);
    assert_eq!(cc.status, 0x00);
}

#[test]
fn backpressure_drops_sixth_event_to_release_list() {
    let (mut mbox, mut ipcc) = boot();
    let mut nodes = Vec::new();
    for k in 0..6u8 {
        nodes.push(mbox.coprocessor_post_evt(&mut ipcc, vec![0x04, 0x10 + k, 0x00]));
    }
    mbox.interrupt_ipcc_rx_handler(&mut ipcc);
    // The first five are observable, in order.
    for k in 0..5usize {
        let evt = mbox.try_read().unwrap();
        assert_eq!(evt.node, nodes[k]);
        assert_eq!(evt.data[1], 0x10 + k as u8);
    }
    assert!(mbox.try_read().is_none());
    // The sixth buffer went to the host-local release list instead.
    assert_eq!(mbox.arena.node(LOCAL_FREE_BUF_QUEUE_ID).next, nodes[5]);
    assert_eq!(mbox.arena.node(nodes[5]).next, LOCAL_FREE_BUF_QUEUE_ID);
    assert!(!ipcc.is_tx_pending(CPU1_IPCC_MM_RELEASE_BUFFER_CHANNEL));
}

#[test]
fn event_storm_five_delivered_five_released_no_corruption() {
    let (mut mbox, mut ipcc) = boot();
    let mut nodes = Vec::new();
    for k in 0..10u8 {
        nodes.push(mbox.coprocessor_post_evt(&mut ipcc, vec![0x04, 0x20 + k, 0x00]));
    }
    // Keep the system command channel busy so the transmit dispatch falls
    // through to the memory manager.
    mbox.shci_ble_init(&mut ipcc, sample_param());
    mbox.interrupt_ipcc_rx_handler(&mut ipcc);
    for k in 0..5usize {
        let evt = mbox.try_read().unwrap();
        assert_eq!(evt.node, nodes[k]);
    }
    assert!(mbox.try_read().is_none());
    // Nodes 5..9 sit on the local release list, still in order.
    let mut cur = mbox.arena.node(LOCAL_FREE_BUF_QUEUE_ID).next;
    for k in 5..10usize {
        assert_eq!(cur, nodes[k]);
        cur = mbox.arena.node(cur).next;
    }
    assert_eq!(cur, LOCAL_FREE_BUF_QUEUE_ID);
    // The coprocessor drains the release channel; the transmit interrupt
    // moves the batch to the shared free queue and re-raises.
    ipcc.complete_tx(CPU1_IPCC_MM_RELEASE_BUFFER_CHANNEL);
    mbox.interrupt_ipcc_tx_handler(&mut ipcc);
    assert!(mbox.arena.is_empty(LOCAL_FREE_BUF_QUEUE_ID));
    let mut cur = mbox.arena.node(FREE_BUFF_QUEUE_ID).next;
    for k in 5..10usize {
        assert_eq!(cur, nodes[k]);
        cur = mbox.arena.node(cur).next;
    }
    assert_eq!(cur, FREE_BUFF_QUEUE_ID);
    assert!(!ipcc.is_tx_pending(CPU1_IPCC_MM_RELEASE_BUFFER_CHANNEL));
}

#[test]
fn shci_ble_init_handshake() {
    let (mut mbox, mut ipcc) = boot();
    mbox.shci_ble_init(&mut ipcc, sample_param());
    assert!(!ipcc.is_tx_pending(CPU1_IPCC_SYSTEM_CMD_RSP_CHANNEL));
    // Kind, opcode little-endian, parameter length.
    assert_eq!(&mbox.sys_cmd_buf[0..4], &[0x10, 0x66, 0xFC, 33]);
    assert_eq!(mbox.sys_cmd_buf.len(), 4 + 33);
    // num_attr_record and num_attr_serv, little-endian, after the two
    // 32-bit buffer words.
    assert_eq!(&mbox.sys_cmd_buf[12..16], &[68, 0, 8, 0]);
    // The coprocessor answers with a command-complete written over the
    // command buffer; the transmit path reads it back.
    mbox.coprocessor_complete_sys_cmd(
        &mut ipcc,
        vec![0x11, 0x0E, 0x04, 0x01, 0x66, 0xFC, 0x00],
    );
    mbox.interrupt_ipcc_tx_handler(&mut ipcc);
    let cc = cmd_evt_handler(&mbox.sys_cmd_buf);
    assert_eq!(cc.cmd_opcode, 0xFC66);
    assert_eq!(cc.status, 0x00);
    assert_eq!(cc.num_hci_cmd_packets, 1);
}

#[test]
fn system_events_drain_to_the_same_consumer() {
    let (mut mbox, mut ipcc) = boot();
    let node = mbox.coprocessor_post_sys_evt(&mut ipcc, vec![0x12, 0x00, 0x01, 0xAA]);
    mbox.interrupt_ipcc_rx_handler(&mut ipcc);
    let evt = mbox.try_read().unwrap();
    assert_eq!(evt.node, node);
    assert_eq!(evt.data, vec![0x12, 0x00, 0x01, 0xAA]);
}

#[test]
fn unknown_channel_is_masked() {
    let (mut mbox, mut ipcc) = boot();
    ipcc.post_rx(CPU2_IPCC_THREAD_NOTIF_ACK_CHANNEL);
    mbox.interrupt_ipcc_rx_handler(&mut ipcc);
    // Nothing is consumed and nothing crashes; the flag stays for the
    // layer that owns it.
    assert!(ipcc.is_rx_pending(CPU2_IPCC_THREAD_NOTIF_ACK_CHANNEL));
    assert!(mbox.try_read().is_none());
}

#[test]
fn spurious_evt_drop_is_ignored() {
    let (mut mbox, mut ipcc) = boot();
    let fake = tl_mbox::evt::EvtBox { node: 0, data: Vec::new() };
    mbox.evt_drop(&mut ipcc, fake);
    assert!(mbox.arena.is_empty(LOCAL_FREE_BUF_QUEUE_ID));
    assert!(ipcc.is_tx_pending(CPU1_IPCC_MM_RELEASE_BUFFER_CHANNEL));
}

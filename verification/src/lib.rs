//! Host-side driver model for a transport-layer mailbox between an
//! application CPU and a radio coprocessor.
//!
//! The two processors cooperate through descriptor tables and intrusive
//! linked-list queues in shared SRAM, signalling each other over a hardware
//! mailbox (IPCC) with per-direction, per-channel pending flags.  This crate
//! models that shared state as explicit values owned by [`TlMbox`]: the
//! descriptor tables are structs of plain words, the shared queues live in a
//! node arena, and the IPCC is a pair of flag sets.  Every state transition
//! the host performs — table initialization, command writes, interrupt
//! dispatch, event delivery with backpressure, buffer release — is a verified
//! function with a contract over that state.

use vstd::prelude::*;

use crate::ipcc::Ipcc;

mod bits;
pub mod ble;
pub mod bytes;
pub mod channels;
pub mod chan;
pub mod cmd;
pub mod consts;
pub mod evt;
pub mod ill;
pub mod ipcc;
pub mod mm;
pub mod shci;
pub mod sys;

verus! {

/// Arena index of the BLE event queue sentinel.
pub const EVT_QUEUE_ID: usize = 0;

/// Arena index of the system event queue sentinel.
pub const SYSTEM_EVT_QUEUE_ID: usize = 1;

/// Arena index of the shared free-buffer queue sentinel, drained by the
/// coprocessor.
pub const FREE_BUFF_QUEUE_ID: usize = 2;

/// Arena index of the host-local to-release list sentinel.
pub const LOCAL_FREE_BUF_QUEUE_ID: usize = 3;

/// Number of queue sentinels the mailbox owns.
pub const MBOX_SENTINEL_COUNT: usize = 4;

/// Size in bytes of the packet header (an intrusive list node: two
/// pointer-sized words on the 32-bit target).
pub const TL_PACKET_HEADER_SIZE: usize = 8;

/// Size in bytes of the event header: kind, event code, payload length.
pub const TL_EVT_HEADER_SIZE: usize = 3;

/// Size in bytes of a command-status event payload.
pub const TL_CS_EVT_SIZE: usize = 4;

/// Number of slots in the BLE event queue and in the consumer channel.
pub const CFG_TL_BLE_EVT_QUEUE_LENGTH: usize = 5;

/// Largest event payload the coprocessor may deliver.
pub const CFG_TL_BLE_MOST_EVENT_PAYLOAD_SIZE: usize = 255;

/// Size in bytes of a full event frame (header plus largest payload).
pub const TL_BLE_EVENT_FRAME_SIZE: usize = TL_EVT_HEADER_SIZE + CFG_TL_BLE_MOST_EVENT_PAYLOAD_SIZE;

/// Size in bytes of the coprocessor-owned event buffer pool: queue length
/// times four buffers, each a full frame rounded up to a word multiple.
pub const POOL_SIZE: usize = 1340;

/// Division rounding up: the least `q` with `q * y >= x`.
pub fn divc(x: usize, y: usize) -> (r: usize)
    requires
        y > 0,
        x + y <= usize::MAX,
    ensures
        r == (x + y - 1) / (y as int),
{
    (x + y - 1) / y
}

/// The version word of the boot-loader descriptor, populated by the
/// coprocessor.
#[derive(Clone, Copy, PartialEq, Eq, Structural, Debug)]
pub struct SafeBootInfoTable {
    pub version: u32,
}

/// The firmware-upgrade-service descriptor, populated by the coprocessor.
#[derive(Clone, Copy, PartialEq, Eq, Structural, Debug)]
pub struct FusInfoTable {
    pub version: u32,
    pub memory_size: u32,
    pub fus_info: u32,
}

/// The wireless-firmware descriptor, populated by the coprocessor at boot.
///
/// The version word packs build\[3:0\], branch\[7:4\], subversion\[15:8\],
/// minor\[23:16\] and major\[31:24\]; the memory-size word packs the flash
/// size in 4k sectors\[7:0\], a reserved byte\[15:8\], the SRAM2b size in 1k
/// sectors\[23:16\] and the SRAM2a size in 1k sectors\[31:24\].  A version
/// word of zero means the coprocessor never booted.
#[derive(Clone, Copy, PartialEq, Eq, Structural, Debug)]
pub struct WirelessFwInfoTable {
    pub version: u32,
    pub memory_size: u32,
    pub info_stack: u32,
    pub reserved: u32,
}

/// The byte-wide field of `w` that starts at bit `lo`, `len` bits long.
pub open spec fn word_field(w: u32, lo: nat, len: nat) -> nat {
    ((w as nat) / vstd::arithmetic::power2::pow2(lo)) % vstd::arithmetic::power2::pow2(len)
}

impl WirelessFwInfoTable {
    /// Major version, bits 31..24 of the version word.
    pub fn version_major(&self) -> (r: u8)
        ensures
            r as nat == word_field(self.version, 24, 8),
    {
        let version = self.version;
        let bits = bits::get_bits_u32(version, 24, 32);
        proof {
            bits::lemma_word_field_fits_byte(version, 24);
        }
        (bits & 0xff) as u8
    }

    /// Minor version, bits 23..16 of the version word.
    pub fn version_minor(&self) -> (r: u8)
        ensures
            r as nat == word_field(self.version, 16, 8),
    {
        let version = self.version;
        let bits = bits::get_bits_u32(version, 16, 24);
        proof {
            bits::lemma_word_field_fits_byte(version, 16);
        }
        (bits & 0xff) as u8
    }

    /// Subversion, bits 15..8 of the version word.
    pub fn subversion(&self) -> (r: u8)
        ensures
            r as nat == word_field(self.version, 8, 8),
    {
        let version = self.version;
        let bits = bits::get_bits_u32(version, 8, 16);
        proof {
            bits::lemma_word_field_fits_byte(version, 8);
        }
        (bits & 0xff) as u8
    }

    /// Size of flash, in number of 4K sectors: bits 7..0 of the memory-size
    /// word.
    pub fn flash_size(&self) -> (r: u8)
        ensures
            r as nat == word_field(self.memory_size, 0, 8),
    {
        let memory_size = self.memory_size;
        let bits = bits::get_bits_u32(memory_size, 0, 8);
        proof {
            bits::lemma_word_field_fits_byte(memory_size, 0);
        }
        (bits & 0xff) as u8
    }

    /// Size of SRAM2a, in number of 1K sectors: bits 31..24 of the
    /// memory-size word.
    pub fn sram2a_size(&self) -> (r: u8)
        ensures
            r as nat == word_field(self.memory_size, 24, 8),
    {
        let memory_size = self.memory_size;
        let bits = bits::get_bits_u32(memory_size, 24, 32);
        proof {
            bits::lemma_word_field_fits_byte(memory_size, 24);
        }
        (bits & 0xff) as u8
    }

    /// Size of SRAM2b, in number of 1K sectors: bits 23..16 of the
    /// memory-size word.
    pub fn sram2b_size(&self) -> (r: u8)
        ensures
            r as nat == word_field(self.memory_size, 16, 8),
    {
        let memory_size = self.memory_size;
        let bits = bits::get_bits_u32(memory_size, 16, 24);
        proof {
            bits::lemma_word_field_fits_byte(memory_size, 16);
        }
        (bits & 0xff) as u8
    }
}

/// The device-information table, read-only for the host.
#[derive(Clone, Copy, PartialEq, Eq, Structural, Debug)]
pub struct DeviceInfoTable {
    pub safe_boot_info_table: SafeBootInfoTable,
    pub fus_info_table: FusInfoTable,
    pub wireless_fw_info_table: WirelessFwInfoTable,
}


/// Address of the device-information table in descriptor memory.
pub const TL_DEVICE_INFO_TABLE_ADDR: u32 = 0x20030040;

/// Address of the BLE table in descriptor memory.
pub const TL_BLE_TABLE_ADDR: u32 = 0x20030080;

/// Address of the thread table in descriptor memory.
pub const TL_THREAD_TABLE_ADDR: u32 = 0x200300c0;

/// Address of the system table in descriptor memory.
pub const TL_SYS_TABLE_ADDR: u32 = 0x20030100;

/// Address of the memory-manager table in descriptor memory.
pub const TL_MEM_MANAGER_TABLE_ADDR: u32 = 0x20030140;

/// Address of the traces table in descriptor memory.
pub const TL_TRACES_TABLE_ADDR: u32 = 0x20030180;

/// Address of the 802.15.4 table in descriptor memory.
pub const TL_MAC_802_15_4_TABLE_ADDR: u32 = 0x200301c0;

/// Address of the zigbee table in descriptor memory.
pub const TL_ZIGBEE_TABLE_ADDR: u32 = 0x20030200;

/// Address of the LLD-tests table in descriptor memory.
pub const TL_LLD_TESTS_TABLE_ADDR: u32 = 0x20030240;

/// Address of the BLE-LLD table in descriptor memory.
pub const TL_BLE_LLD_TABLE_ADDR: u32 = 0x20030280;

/// Address of the BLE command buffer in shared-buffer memory.
pub const BLE_CMD_BUFFER_ADDR: u32 = 0x20030400;

/// Address of the command-status buffer in shared-buffer memory.
pub const CS_BUFFER_ADDR: u32 = 0x20030540;

/// Address of the BLE event queue sentinel in shared-buffer memory.
pub const EVT_QUEUE_ADDR: u32 = 0x20030680;

/// Address of the ACL data buffer in shared-buffer memory.
pub const HCI_ACL_DATA_BUFFER_ADDR: u32 = 0x200306c0;

/// Address of the system command buffer in shared-buffer memory.
pub const SYS_CMD_BUF_ADDR: u32 = 0x20030800;

/// Address of the system event queue sentinel in shared-buffer memory.
pub const SYSTEM_EVT_QUEUE_ADDR: u32 = 0x20030940;

/// Address of the event buffer pool in shared-buffer memory.
pub const EVT_POOL_ADDR: u32 = 0x20030a00;

/// Address of the spare system event buffer in shared-buffer memory.
pub const SYS_SPARE_EVT_BUF_ADDR: u32 = 0x20031000;

/// Address of the spare BLE event buffer in shared-buffer memory.
pub const BLE_SPARE_EVT_BUF_ADDR: u32 = 0x20031140;

/// Address of the shared free-buffer queue sentinel.
pub const FREE_BUFF_QUEUE_ADDR: u32 = 0x20031280;

/// The BLE table: command buffer, command-status buffer, event queue and
/// ACL buffer addresses, filled by the host at initialization.
#[derive(Clone, Copy, PartialEq, Eq, Structural, Debug)]
pub struct BleTable {
    pub pcmd_buffer: u32,
    pub pcs_buffer: u32,
    pub pevt_queue: u32,
    pub phci_acl_data_buffer: u32,
}

/// The thread table; present for the ABI, left zero.
#[derive(Clone, Copy, PartialEq, Eq, Structural, Debug)]
pub struct ThreadTable {
    pub no_stack_buffer: u32,
    pub cli_cmd_rsp_buffer: u32,
    pub ot_cmd_rsp_buffer: u32,
}

/// The system table: command buffer and event queue addresses.
#[derive(Clone, Copy, PartialEq, Eq, Structural, Debug)]
pub struct SysTable {
    pub pcmd_buffer: u32,
    pub sys_queue: u32,
}

/// The LLD-tests table; present for the ABI, left zero.
#[derive(Clone, Copy, PartialEq, Eq, Structural, Debug)]
pub struct LldTestTable {
    pub cli_cmd_rsp_buffer: u32,
    pub m0_cmd_buffer: u32,
}

/// The BLE-LLD table; present for the ABI, left zero.
#[derive(Clone, Copy, PartialEq, Eq, Structural, Debug)]
pub struct BleLldTable {
    pub cmd_rsp_buffer: u32,
    pub m0_cmd_buffer: u32,
}

/// The zigbee table; present for the ABI, left zero.
#[derive(Clone, Copy, PartialEq, Eq, Structural, Debug)]
pub struct ZigbeeTable {
    pub notif_m0_to_m4_buffer: u32,
    pub appli_cmd_m4_to_m0_buffer: u32,
    pub request_m0_to_m4_buffer: u32,
}

/// The memory-manager table: spare buffers, the event pool and the free
/// queue.
#[derive(Clone, Copy, PartialEq, Eq, Structural, Debug)]
pub struct MemManagerTable {
    pub spare_ble_buffer: u32,
    pub spare_sys_buffer: u32,
    pub ble_pool: u32,
    pub ble_pool_size: u32,
    pub pevt_free_buffer_queue: u32,
    pub traces_evt_pool: u32,
    pub traces_pool_size: u32,
}

/// The traces table; present for the ABI, left zero.
#[derive(Clone, Copy, PartialEq, Eq, Structural, Debug)]
pub struct TracesTable {
    pub traces_queue: u32,
}

/// The 802.15.4 table; present for the ABI, left zero.
#[derive(Clone, Copy, PartialEq, Eq, Structural, Debug)]
pub struct Mac802_15_4Table {
    pub pcmd_rsp_buffer: u32,
    pub pnotack_buffer: u32,
    pub evt_queue: u32,
}

/// The reference table the coprocessor reads at boot: the addresses of
/// every subordinate table, the unused ones included so the layout stays
/// valid.
#[derive(Clone, Copy, PartialEq, Eq, Structural, Debug)]
pub struct RefTable {
    pub device_info_table: u32,
    pub ble_table: u32,
    pub thread_table: u32,
    pub sys_table: u32,
    pub mem_manager_table: u32,
    pub traces_table: u32,
    pub mac_802_15_4_table: u32,
    pub zigbee_table: u32,
    pub lld_tests_table: u32,
    pub ble_lld_table: u32,
}

/// Handler tag for the receive interrupt; the dispatch it stands for is
/// [`TlMbox::interrupt_ipcc_rx_handler`].
pub struct ReceiveInterruptHandler {}

/// Handler tag for the transmit interrupt; the dispatch it stands for is
/// [`TlMbox::interrupt_ipcc_tx_handler`].
pub struct TransmitInterruptHandler {}

/// The mailbox: every piece of state the host shares with the coprocessor,
/// as one explicit value.
pub struct TlMbox {
    /// The reference table, at its fixed address for the coprocessor.
    pub ref_table: RefTable,
    /// Written by the coprocessor at boot; zero until then.
    pub device_info_table: DeviceInfoTable,
    pub ble_table: BleTable,
    pub thread_table: ThreadTable,
    pub sys_table: SysTable,
    pub mem_manager_table: MemManagerTable,
    pub traces_table: TracesTable,
    pub mac_802_15_4_table: Mac802_15_4Table,
    pub zigbee_table: ZigbeeTable,
    pub lld_tests_table: LldTestTable,
    pub ble_lld_table: BleLldTable,
    /// The shared queues: event, system event, free-buffer, to-release.
    pub arena: ill::IllArena,
    /// The BLE command buffer; one command slot, reused in place.
    pub ble_cmd_buf: Vec<u8>,
    /// The system command buffer; one command slot, reused in place.
    pub sys_cmd_buf: Vec<u8>,
    /// The single ACL data buffer.
    pub acl_buf: Vec<u8>,
    /// The command-status buffer; zeroed, written by the coprocessor.
    pub cs_buf: Vec<u8>,
    /// The five-slot consumer channel.
    pub channel: chan::EvtChannel,
}

impl TlMbox {
    /// The mailbox invariant: the arena of shared queues is well formed
    /// and owns exactly the four mailbox sentinels.
    pub open spec fn wf(self) -> bool {
        &&& self.arena.wf()
        &&& self.arena.sentinel_count == MBOX_SENTINEL_COUNT
    }

    /// Initialize the transport: zero every descriptor table, point the
    /// reference table at the subordinate tables, fill the BLE, system
    /// and memory-manager tables with their buffer and queue addresses,
    /// make every queue an empty self-ring, and reset the mailbox flags.
    pub fn init(ipcc: &mut Ipcc) -> (mbox: TlMbox)
        ensures
            mbox.wf(),
            mbox.ref_table == (RefTable {
                device_info_table: TL_DEVICE_INFO_TABLE_ADDR,
                ble_table: TL_BLE_TABLE_ADDR,
                thread_table: TL_THREAD_TABLE_ADDR,
                sys_table: TL_SYS_TABLE_ADDR,
                mem_manager_table: TL_MEM_MANAGER_TABLE_ADDR,
                traces_table: TL_TRACES_TABLE_ADDR,
                mac_802_15_4_table: TL_MAC_802_15_4_TABLE_ADDR,
                zigbee_table: TL_ZIGBEE_TABLE_ADDR,
                lld_tests_table: TL_LLD_TESTS_TABLE_ADDR,
                ble_lld_table: TL_BLE_LLD_TABLE_ADDR,
            }),
            mbox.device_info_table == (DeviceInfoTable {
                safe_boot_info_table: SafeBootInfoTable { version: 0 },
                fus_info_table: FusInfoTable { version: 0, memory_size: 0, fus_info: 0 },
                wireless_fw_info_table: WirelessFwInfoTable {
                    version: 0,
                    memory_size: 0,
                    info_stack: 0,
                    reserved: 0,
                },
            }),
            mbox.ble_table == (BleTable {
                pcmd_buffer: BLE_CMD_BUFFER_ADDR,
                pcs_buffer: CS_BUFFER_ADDR,
                pevt_queue: EVT_QUEUE_ADDR,
                phci_acl_data_buffer: HCI_ACL_DATA_BUFFER_ADDR,
            }),
            mbox.sys_table == (SysTable {
                pcmd_buffer: SYS_CMD_BUF_ADDR,
                sys_queue: SYSTEM_EVT_QUEUE_ADDR,
            }),
            mbox.mem_manager_table == (MemManagerTable {
                spare_ble_buffer: BLE_SPARE_EVT_BUF_ADDR,
                spare_sys_buffer: SYS_SPARE_EVT_BUF_ADDR,
                ble_pool: EVT_POOL_ADDR,
                ble_pool_size: POOL_SIZE as u32,
                pevt_free_buffer_queue: FREE_BUFF_QUEUE_ADDR,
                traces_evt_pool: 0,
                traces_pool_size: 0,
            }),
            mbox.thread_table == (ThreadTable {
                no_stack_buffer: 0,
                cli_cmd_rsp_buffer: 0,
                ot_cmd_rsp_buffer: 0,
            }),
            mbox.traces_table == (TracesTable { traces_queue: 0 }),
            mbox.mac_802_15_4_table == (Mac802_15_4Table {
                pcmd_rsp_buffer: 0,
                pnotack_buffer: 0,
                evt_queue: 0,
            }),
            mbox.zigbee_table == (ZigbeeTable {
                notif_m0_to_m4_buffer: 0,
                appli_cmd_m4_to_m0_buffer: 0,
                request_m0_to_m4_buffer: 0,
            }),
            mbox.lld_tests_table == (LldTestTable { cli_cmd_rsp_buffer: 0, m0_cmd_buffer: 0 }),
            mbox.ble_lld_table == (BleLldTable { cmd_rsp_buffer: 0, m0_cmd_buffer: 0 }),
            forall|g: int| 0 <= g < MBOX_SENTINEL_COUNT ==> #[trigger] mbox.arena.ring(g)
                == Seq::<int>::empty(),
            mbox.arena.nodes@.len() == MBOX_SENTINEL_COUNT,
            mbox.ble_cmd_buf@ == Seq::<u8>::empty(),
            mbox.sys_cmd_buf@ == Seq::<u8>::empty(),
            mbox.acl_buf@ == Seq::<u8>::empty(),
            mbox.cs_buf@ == Seq::<u8>::empty(),
            chan::channel_evts(mbox.channel) == Seq::<evt::EvtBox>::empty(),
            final(ipcc).wf(),
            forall|ch: u8| Ipcc::valid_channel(ch) ==> !#[trigger] final(ipcc).tx_raised(ch),
            forall|ch: u8| Ipcc::valid_channel(ch) ==> !#[trigger] final(ipcc).rx_raised(ch),
    {
        ipcc.init();
        TlMbox {
            ref_table: RefTable {
                device_info_table: TL_DEVICE_INFO_TABLE_ADDR,
                ble_table: TL_BLE_TABLE_ADDR,
                thread_table: TL_THREAD_TABLE_ADDR,
                sys_table: TL_SYS_TABLE_ADDR,
                mem_manager_table: TL_MEM_MANAGER_TABLE_ADDR,
                traces_table: TL_TRACES_TABLE_ADDR,
                mac_802_15_4_table: TL_MAC_802_15_4_TABLE_ADDR,
                zigbee_table: TL_ZIGBEE_TABLE_ADDR,
                lld_tests_table: TL_LLD_TESTS_TABLE_ADDR,
                ble_lld_table: TL_BLE_LLD_TABLE_ADDR,
            },
            device_info_table: DeviceInfoTable {
                safe_boot_info_table: SafeBootInfoTable { version: 0 },
                fus_info_table: FusInfoTable { version: 0, memory_size: 0, fus_info: 0 },
                wireless_fw_info_table: WirelessFwInfoTable {
                    version: 0,
                    memory_size: 0,
                    info_stack: 0,
                    reserved: 0,
                },
            },
            ble_table: BleTable {
                pcmd_buffer: BLE_CMD_BUFFER_ADDR,
                pcs_buffer: CS_BUFFER_ADDR,
                pevt_queue: EVT_QUEUE_ADDR,
                phci_acl_data_buffer: HCI_ACL_DATA_BUFFER_ADDR,
            },
            thread_table: ThreadTable {
                no_stack_buffer: 0,
                cli_cmd_rsp_buffer: 0,
                ot_cmd_rsp_buffer: 0,
            },
            sys_table: SysTable { pcmd_buffer: SYS_CMD_BUF_ADDR, sys_queue: SYSTEM_EVT_QUEUE_ADDR },
            mem_manager_table: MemManagerTable {
                spare_ble_buffer: BLE_SPARE_EVT_BUF_ADDR,
                spare_sys_buffer: SYS_SPARE_EVT_BUF_ADDR,
                ble_pool: EVT_POOL_ADDR,
                ble_pool_size: POOL_SIZE as u32,
                pevt_free_buffer_queue: FREE_BUFF_QUEUE_ADDR,
                traces_evt_pool: 0,
                traces_pool_size: 0,
            },
            traces_table: TracesTable { traces_queue: 0 },
            mac_802_15_4_table: Mac802_15_4Table {
                pcmd_rsp_buffer: 0,
                pnotack_buffer: 0,
                evt_queue: 0,
            },
            zigbee_table: ZigbeeTable {
                notif_m0_to_m4_buffer: 0,
                appli_cmd_m4_to_m0_buffer: 0,
                request_m0_to_m4_buffer: 0,
            },
            lld_tests_table: LldTestTable { cli_cmd_rsp_buffer: 0, m0_cmd_buffer: 0 },
            ble_lld_table: BleLldTable { cmd_rsp_buffer: 0, m0_cmd_buffer: 0 },
            arena: ill::IllArena::new(MBOX_SENTINEL_COUNT),
            ble_cmd_buf: Vec::new(),
            sys_cmd_buf: Vec::new(),
            acl_buf: Vec::new(),
            cs_buf: Vec::new(),
            channel: chan::chan_new(),
        }
    }

    /// A copy of the wireless-firmware descriptor, or `None` exactly when
    /// its version word is zero, which means the coprocessor never booted.
    pub fn wireless_fw_info(&self) -> (r: Option<WirelessFwInfoTable>)
        ensures
            r is Some <==> self.device_info_table.wireless_fw_info_table.version != 0,
            r is Some ==> r.unwrap() == self.device_info_table.wireless_fw_info_table,
    {
        let info = self.device_info_table.wireless_fw_info_table;
        if info.version != 0 {
            Some(info)
        } else {
            None
        }
    }

    /// Issue the BLE-stack initialization command on the system channel.
    pub fn shci_ble_init(&mut self, ipcc: &mut Ipcc, param: shci::ShciBleInitCmdParam)
        requires
            old(ipcc).wf(),
        ensures
            final(self).sys_cmd_buf@ == cmd::spec_cmd_packet(
                consts::TL_SYSCMD_PKT_TYPE,
                shci::SHCI_OPCODE_BLE_INIT,
                param.spec_bytes(),
            ),
            *final(self) == (TlMbox { sys_cmd_buf: final(self).sys_cmd_buf, ..*old(self) }),
            final(ipcc).wf(),
            final(ipcc).c1_to_c2@ == old(ipcc).c1_to_c2@.update(
                channels::CPU1_IPCC_SYSTEM_CMD_RSP_CHANNEL as int - 1,
                true,
            ),
            final(ipcc).c2_to_c1 == old(ipcc).c2_to_c1,
    {
        shci::shci_ble_init(&mut self.sys_cmd_buf, ipcc, param);
    }

    /// Copy an HCI command into the BLE command buffer and raise the BLE
    /// command channel.
    pub fn send_ble_cmd(&mut self, ipcc: &mut Ipcc, buf: &[u8])
        requires
            old(ipcc).wf(),
        ensures
            final(self).ble_cmd_buf@ == seq![consts::TL_BLECMD_PKT_TYPE] + buf@,
            *final(self) == (TlMbox { ble_cmd_buf: final(self).ble_cmd_buf, ..*old(self) }),
            final(ipcc).wf(),
            final(ipcc).c1_to_c2@ == old(ipcc).c1_to_c2@.update(
                channels::CPU1_IPCC_BLE_CMD_CHANNEL as int - 1,
                true,
            ),
            final(ipcc).c2_to_c1 == old(ipcc).c2_to_c1,
    {
        ble::send_cmd(&mut self.ble_cmd_buf, ipcc, buf);
    }

    /// Copy an ACL data frame into the ACL buffer and raise the ACL
    /// channel, unless a prior frame is still in flight.
    pub fn send_acl(&mut self, ipcc: &mut Ipcc, buf: &[u8]) -> (sent: bool)
        requires
            old(ipcc).wf(),
        ensures
            final(ipcc).wf(),
            sent <==> !old(ipcc).tx_raised(channels::CPU1_IPCC_HCI_ACL_DATA_CHANNEL),
            sent ==> final(self).acl_buf@ == seq![consts::TL_ACL_DATA_PKT_TYPE] + buf@ && final(ipcc).c1_to_c2@ == old(ipcc).c1_to_c2@.update(
                channels::CPU1_IPCC_HCI_ACL_DATA_CHANNEL as int - 1,
                true,
            ),
            !sent ==> *final(self) == *old(self) && final(ipcc).c1_to_c2 == old(ipcc).c1_to_c2,
            *final(self) == (TlMbox { acl_buf: final(self).acl_buf, ..*old(self) }),
            final(ipcc).c2_to_c1 == old(ipcc).c2_to_c1,
    {
        ble::send_acl(&mut self.acl_buf, ipcc, buf)
    }

    /// Pop the oldest event from the consumer channel, if any.
    pub fn try_read(&mut self) -> (r: Option<evt::EvtBox>)
        ensures
            *final(self) == (TlMbox { channel: final(self).channel, ..*old(self) }),
            chan::channel_evts(old(self).channel).len() == 0 ==> r is None && chan::channel_evts(
                final(self).channel,
            ) == chan::channel_evts(old(self).channel),
            chan::channel_evts(old(self).channel).len() > 0 ==> r == Some(
                chan::channel_evts(old(self).channel)[0],
            ) && chan::channel_evts(final(self).channel) == chan::channel_evts(
                old(self).channel,
            ).drop_first(),
    {
        chan::chan_try_receive(&mut self.channel)
    }

    /// Hand a finished event buffer back: when the box names a live,
    /// self-linked (hence detached) node, the node goes on the host-local
    /// to-release list and the release channel is raised; any other box
    /// is spurious and ignored.
    pub fn evt_drop(&mut self, ipcc: &mut Ipcc, evt: evt::EvtBox)
        requires
            old(self).wf(),
            old(ipcc).wf(),
        ensures
            final(self).wf(),
            final(ipcc).wf(),
            old(self).arena.self_linked(evt.node as int) ==> {
                &&& final(self).arena.ring(LOCAL_FREE_BUF_QUEUE_ID as int) == old(self).arena.ring(LOCAL_FREE_BUF_QUEUE_ID as int).push(evt.node as int)
                &&& (forall|p: int|
                    0 <= p < MBOX_SENTINEL_COUNT && p != LOCAL_FREE_BUF_QUEUE_ID as int
                        ==> #[trigger] final(self).arena.ring(p) == old(self).arena.ring(p))
                &&& final(self).arena.bodies == old(self).arena.bodies
                &&& final(self).arena.nodes@.len() == old(self).arena.nodes@.len()
                &&& final(self).channel == old(self).channel
                &&& final(ipcc).c1_to_c2@ == old(ipcc).c1_to_c2@.update(
                    channels::CPU1_IPCC_MM_RELEASE_BUFFER_CHANNEL as int - 1,
                    true,
                )
                &&& final(ipcc).c2_to_c1 == old(ipcc).c2_to_c1
            },
            !old(self).arena.self_linked(evt.node as int) ==> *final(self) == *old(self) && *final(ipcc) == *old(ipcc),
    {
        let node = evt.node;
        if node >= MBOX_SENTINEL_COUNT && node < self.arena.len() {
            let n = self.arena.node(node);
            if n.next == node {
                proof {
                    ill::lemma_self_linked_detached(self.arena, node as int);
                }
                mm::evt_drop(&mut self.arena, ipcc, node);
            }
        }
    }

    /// Receive-interrupt dispatch: a pending system event channel drains
    /// the system queue, else a pending BLE event channel drains the BLE
    /// queue, else the interrupt is spurious and masked.
    pub fn interrupt_ipcc_rx_handler(&mut self, ipcc: &mut Ipcc)
        requires
            old(self).wf(),
            old(ipcc).wf(),
        ensures
            final(self).wf(),
            final(ipcc).wf(),
            *final(self) == (TlMbox {
                arena: final(self).arena,
                channel: final(self).channel,
                ..*old(self)
            }),
            old(ipcc).rx_raised(channels::CPU2_IPCC_SYSTEM_EVENT_CHANNEL) ==> {
                &&& evt::drain_post(
                    old(self).arena,
                    final(self).arena,
                    chan::channel_evts(old(self).channel),
                    chan::channel_evts(final(self).channel),
                    SYSTEM_EVT_QUEUE_ID as int,
                )
                &&& evt::drain_tx_post(
                    old(ipcc).c1_to_c2@,
                    final(ipcc).c1_to_c2@,
                    old(self).arena.ring(SYSTEM_EVT_QUEUE_ID as int).len() as int,
                    evt::delivered_count(
                        old(self).arena.ring(SYSTEM_EVT_QUEUE_ID as int).len() as int,
                        chan::channel_evts(old(self).channel),
                    ),
                )
                &&& final(ipcc).c2_to_c1@ == old(ipcc).c2_to_c1@.update(
                    channels::CPU2_IPCC_SYSTEM_EVENT_CHANNEL as int - 1,
                    false,
                )
            },
            !old(ipcc).rx_raised(channels::CPU2_IPCC_SYSTEM_EVENT_CHANNEL) && old(ipcc).rx_raised(
                channels::CPU2_IPCC_BLE_EVENT_CHANNEL,
            ) ==> {
                &&& evt::drain_post(
                    old(self).arena,
                    final(self).arena,
                    chan::channel_evts(old(self).channel),
                    chan::channel_evts(final(self).channel),
                    EVT_QUEUE_ID as int,
                )
                &&& evt::drain_tx_post(
                    old(ipcc).c1_to_c2@,
                    final(ipcc).c1_to_c2@,
                    old(self).arena.ring(EVT_QUEUE_ID as int).len() as int,
                    evt::delivered_count(
                        old(self).arena.ring(EVT_QUEUE_ID as int).len() as int,
                        chan::channel_evts(old(self).channel),
                    ),
                )
                &&& final(ipcc).c2_to_c1@ == old(ipcc).c2_to_c1@.update(
                    channels::CPU2_IPCC_BLE_EVENT_CHANNEL as int - 1,
                    false,
                )
            },
            !old(ipcc).rx_raised(channels::CPU2_IPCC_SYSTEM_EVENT_CHANNEL) && !old(ipcc).rx_raised(channels::CPU2_IPCC_BLE_EVENT_CHANNEL) ==> *final(self) == *old(self)
                && *final(ipcc) == *old(ipcc),
    {
        if ipcc.is_rx_pending(channels::CPU2_IPCC_SYSTEM_EVENT_CHANNEL) {
            evt::drain_queue(&mut self.arena, &mut self.channel, ipcc, SYSTEM_EVT_QUEUE_ID);
            ipcc.clear_rx(channels::CPU2_IPCC_SYSTEM_EVENT_CHANNEL);
        } else if ipcc.is_rx_pending(channels::CPU2_IPCC_BLE_EVENT_CHANNEL) {
            evt::drain_queue(&mut self.arena, &mut self.channel, ipcc, EVT_QUEUE_ID);
            ipcc.clear_rx(channels::CPU2_IPCC_BLE_EVENT_CHANNEL);
        }
    }

    /// Transmit-interrupt dispatch: a freed system command channel means a
    /// completion was written over the system command buffer; else a freed
    /// release channel lets the memory manager hand the next batch of
    /// buffers back to the coprocessor.
    pub fn interrupt_ipcc_tx_handler(&mut self, ipcc: &mut Ipcc)
        requires
            old(self).wf(),
            old(ipcc).wf(),
        ensures
            final(self).wf(),
            final(ipcc).wf(),
            *final(self) == (TlMbox { arena: final(self).arena, ..*old(self) }),
            !old(ipcc).tx_raised(channels::CPU1_IPCC_SYSTEM_CMD_RSP_CHANNEL) ==> *final(self)
                == *old(self) && *final(ipcc) == *old(ipcc),
            old(ipcc).tx_raised(channels::CPU1_IPCC_SYSTEM_CMD_RSP_CHANNEL) && !old(ipcc).tx_raised(channels::CPU1_IPCC_MM_RELEASE_BUFFER_CHANNEL) ==> {
                &&& final(self).arena.ring(LOCAL_FREE_BUF_QUEUE_ID as int).len() == 0
                &&& final(self).arena.ring(FREE_BUFF_QUEUE_ID as int) == old(self).arena.ring(
                    FREE_BUFF_QUEUE_ID as int,
                ) + old(self).arena.ring(LOCAL_FREE_BUF_QUEUE_ID as int)
                &&& final(self).arena.ring(EVT_QUEUE_ID as int) == old(self).arena.ring(
                    EVT_QUEUE_ID as int,
                )
                &&& final(self).arena.ring(SYSTEM_EVT_QUEUE_ID as int) == old(self).arena.ring(
                    SYSTEM_EVT_QUEUE_ID as int,
                )
                &&& final(self).arena.bodies == old(self).arena.bodies
                &&& final(self).arena.nodes@.len() == old(self).arena.nodes@.len()
                &&& final(ipcc).c2_to_c1 == old(ipcc).c2_to_c1
                &&& (old(self).arena.ring(LOCAL_FREE_BUF_QUEUE_ID as int).len() == 0 ==> final(ipcc).c1_to_c2 == old(ipcc).c1_to_c2)
                &&& (old(self).arena.ring(LOCAL_FREE_BUF_QUEUE_ID as int).len() > 0 ==> final(ipcc).c1_to_c2@ == old(ipcc).c1_to_c2@.update(
                    channels::CPU1_IPCC_MM_RELEASE_BUFFER_CHANNEL as int - 1,
                    true,
                ))
            },
            old(ipcc).tx_raised(channels::CPU1_IPCC_SYSTEM_CMD_RSP_CHANNEL) && old(ipcc).tx_raised(channels::CPU1_IPCC_MM_RELEASE_BUFFER_CHANNEL) ==> *final(self) == *old(self) && *final(ipcc) == *old(ipcc),
    {
        if ipcc.is_tx_pending(channels::CPU1_IPCC_SYSTEM_CMD_RSP_CHANNEL) {
            let _ = sys::cmd_evt_handler(&self.sys_cmd_buf);
        } else if ipcc.is_tx_pending(channels::CPU1_IPCC_MM_RELEASE_BUFFER_CHANNEL) {
            mm::free_buf_handler(&mut self.arena, ipcc);
        }
    }

    /// The coprocessor publishes the device-information table at boot.
    pub fn coprocessor_publish_device_info(&mut self, info: DeviceInfoTable)
        ensures
            final(self).device_info_table == info,
            *final(self) == (TlMbox { device_info_table: info, ..*old(self) }),
    {
        self.device_info_table = info;
    }

    /// The coprocessor posts an event on the BLE event queue and raises
    /// the BLE event channel: a fresh node holding `body` is carved in
    /// shared memory and linked at the queue's tail.
    pub fn coprocessor_post_evt(&mut self, ipcc: &mut Ipcc, body: Vec<u8>) -> (i: usize)
        requires
            old(self).wf(),
            old(self).arena.nodes@.len() < usize::MAX,
            old(ipcc).wf(),
        ensures
            final(self).wf(),
            final(ipcc).wf(),
            *final(self) == (TlMbox {
                arena: final(self).arena,
                ..*old(self)
            }),
            i as int == old(self).arena.nodes@.len(),
            final(self).arena.nodes@.len() == old(self).arena.nodes@.len() + 1,
            final(self).arena.bodies@ == old(self).arena.bodies@.push(body),
            final(self).arena.ring(EVT_QUEUE_ID as int) == old(self).arena.ring(
                EVT_QUEUE_ID as int,
            ).push(i as int),
            forall|p: int| 0 <= p < MBOX_SENTINEL_COUNT && p != EVT_QUEUE_ID as int
                ==> #[trigger] final(self).arena.ring(p) == old(self).arena.ring(p),
            final(ipcc).c2_to_c1@ == old(ipcc).c2_to_c1@.update(
                channels::CPU2_IPCC_BLE_EVENT_CHANNEL as int - 1,
                true,
            ),
            final(ipcc).c1_to_c2 == old(ipcc).c1_to_c2,
    {
        let i = self.arena.carve(body);
        self.arena.insert_tail(EVT_QUEUE_ID, i);
        ipcc.post_rx(channels::CPU2_IPCC_BLE_EVENT_CHANNEL);
        i
    }

    /// The coprocessor posts an event on the system event queue and raises
    /// the system event channel.
    pub fn coprocessor_post_sys_evt(&mut self, ipcc: &mut Ipcc, body: Vec<u8>) -> (i: usize)
        requires
            old(self).wf(),
            old(self).arena.nodes@.len() < usize::MAX,
            old(ipcc).wf(),
        ensures
            final(self).wf(),
            final(ipcc).wf(),
            *final(self) == (TlMbox {
                arena: final(self).arena,
                ..*old(self)
            }),
            i as int == old(self).arena.nodes@.len(),
            final(self).arena.nodes@.len() == old(self).arena.nodes@.len() + 1,
            final(self).arena.bodies@ == old(self).arena.bodies@.push(body),
            final(self).arena.ring(SYSTEM_EVT_QUEUE_ID as int) == old(self).arena.ring(
                SYSTEM_EVT_QUEUE_ID as int,
            ).push(i as int),
            forall|p: int| 0 <= p < MBOX_SENTINEL_COUNT && p != SYSTEM_EVT_QUEUE_ID as int
                ==> #[trigger] final(self).arena.ring(p) == old(self).arena.ring(p),
            final(ipcc).c2_to_c1@ == old(ipcc).c2_to_c1@.update(
                channels::CPU2_IPCC_SYSTEM_EVENT_CHANNEL as int - 1,
                true,
            ),
            final(ipcc).c1_to_c2 == old(ipcc).c1_to_c2,
    {
        let i = self.arena.carve(body);
        self.arena.insert_tail(SYSTEM_EVT_QUEUE_ID, i);
        ipcc.post_rx(channels::CPU2_IPCC_SYSTEM_EVENT_CHANNEL);
        i
    }

    /// The coprocessor answers a system command: it writes the completion
    /// event over the system command buffer and drains the command
    /// channel, leaving it free again.
    pub fn coprocessor_complete_sys_cmd(&mut self, ipcc: &mut Ipcc, response: Vec<u8>)
        requires
            old(ipcc).wf(),
        ensures
            final(self).sys_cmd_buf == response,
            *final(self) == (TlMbox { sys_cmd_buf: response, ..*old(self) }),
            final(ipcc).wf(),
            final(ipcc).c1_to_c2@ == old(ipcc).c1_to_c2@.update(
                channels::CPU1_IPCC_SYSTEM_CMD_RSP_CHANNEL as int - 1,
                false,
            ),
            final(ipcc).c2_to_c1 == old(ipcc).c2_to_c1,
    {
        self.sys_cmd_buf = response;
        ipcc.complete_tx(channels::CPU1_IPCC_SYSTEM_CMD_RSP_CHANNEL);
    }
}

} // verus!

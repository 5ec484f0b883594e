//! System HCI: the BLE-stack initialization command.

use vstd::prelude::*;

use crate::bytes::spec_u16_bytes;
use crate::bytes::spec_u32_bytes;
use crate::ipcc::Ipcc;

verus! {

/// Opcode of the system command that configures and starts the BLE stack.
pub const SHCI_OPCODE_BLE_INIT: u16 = 0xfc66;

/// Parameter block of the BLE-stack initialization command.  The fields
/// are packed little-endian in declaration order, with no padding.
#[derive(Clone, Copy)]
pub struct ShciBleInitCmdParam {
    /// Start address of the host buffer pool handed to the stack.
    pub p_ble_buffer_address: u32,
    /// Size of that buffer pool.
    pub ble_buffer_size: u32,
    pub num_attr_record: u16,
    pub num_attr_serv: u16,
    pub attr_value_arr_size: u16,
    pub num_of_links: u8,
    pub extended_packet_length_enabled: u8,
    pub pr_write_list_size: u8,
    pub mb_lock_count: u8,
    pub att_mtu: u16,
    pub slave_sca: u16,
    pub master_sca: u8,
    /// Low-speed clock source selector.
    pub ls_source: u8,
    pub max_conn_event_length: u32,
    pub hs_startup_time: u16,
    pub viterbi_enable: u8,
    pub ll_only: u8,
    pub hw_version: u8,
}

impl ShciBleInitCmdParam {
    /// The packed little-endian wire form of the parameter block.
    pub open spec fn spec_bytes(self) -> Seq<u8> {
        spec_u32_bytes(self.p_ble_buffer_address) + spec_u32_bytes(self.ble_buffer_size)
            + spec_u16_bytes(self.num_attr_record) + spec_u16_bytes(self.num_attr_serv)
            + spec_u16_bytes(self.attr_value_arr_size) + seq![
            self.num_of_links,
            self.extended_packet_length_enabled,
            self.pr_write_list_size,
            self.mb_lock_count,
        ] + spec_u16_bytes(self.att_mtu) + spec_u16_bytes(self.slave_sca) + seq![
            self.master_sca,
            self.ls_source,
        ] + spec_u32_bytes(self.max_conn_event_length) + spec_u16_bytes(self.hs_startup_time)
            + seq![self.viterbi_enable, self.ll_only, self.hw_version]
    }

    /// Pack the parameter block.
    pub fn to_bytes(&self) -> (r: Vec<u8>)
        ensures
            r@ == self.spec_bytes(),
            r@.len() == 33,
    {
        let mut out: Vec<u8> = Vec::new();
        crate::bytes::push_u32_le(&mut out, self.p_ble_buffer_address);
        crate::bytes::push_u32_le(&mut out, self.ble_buffer_size);
        crate::bytes::push_u16_le(&mut out, self.num_attr_record);
        crate::bytes::push_u16_le(&mut out, self.num_attr_serv);
        crate::bytes::push_u16_le(&mut out, self.attr_value_arr_size);
        out.push(self.num_of_links);
        out.push(self.extended_packet_length_enabled);
        out.push(self.pr_write_list_size);
        out.push(self.mb_lock_count);
        crate::bytes::push_u16_le(&mut out, self.att_mtu);
        crate::bytes::push_u16_le(&mut out, self.slave_sca);
        out.push(self.master_sca);
        out.push(self.ls_source);
        crate::bytes::push_u32_le(&mut out, self.max_conn_event_length);
        crate::bytes::push_u16_le(&mut out, self.hs_startup_time);
        out.push(self.viterbi_enable);
        out.push(self.ll_only);
        out.push(self.hw_version);
        proof {
            assert(out@ =~= self.spec_bytes());
        }
        out
    }
}

/// Issue the BLE-stack initialization command on the system channel.  The
/// completion event arrives later over the system command buffer and is
/// observed through the transmit interrupt path.
pub fn shci_ble_init(sys_cmd_buf: &mut Vec<u8>, ipcc: &mut Ipcc, param: ShciBleInitCmdParam)
    requires
        old(ipcc).wf(),
    ensures
        final(sys_cmd_buf)@ == crate::cmd::spec_cmd_packet(
            crate::consts::TL_SYSCMD_PKT_TYPE,
            SHCI_OPCODE_BLE_INIT,
            param.spec_bytes(),
        ),
        final(ipcc).wf(),
        final(ipcc).c1_to_c2@ == old(ipcc).c1_to_c2@.update(
            crate::channels::CPU1_IPCC_SYSTEM_CMD_RSP_CHANNEL as int - 1,
            true,
        ),
        final(ipcc).c2_to_c1 == old(ipcc).c2_to_c1,
{
    let p = param.to_bytes();
    crate::sys::send_cmd(sys_cmd_buf, ipcc, SHCI_OPCODE_BLE_INIT, p.as_slice());
}

} // verus!

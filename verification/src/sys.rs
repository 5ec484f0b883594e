//! System channel: boot handshake and radio-stack configuration commands.

use vstd::prelude::*;

use crate::channels::CPU1_IPCC_SYSTEM_CMD_RSP_CHANNEL;
use crate::consts::TL_SYSCMD_PKT_TYPE;
use crate::evt::CcEvt;
use crate::ipcc::Ipcc;

verus! {

/// Write a system command into the system command buffer — kind byte,
/// opcode little-endian, length, payload — and raise the system command
/// channel.  The response arrives asynchronously as a system event whose
/// opcode mirrors the command's.
pub fn send_cmd(sys_cmd_buf: &mut Vec<u8>, ipcc: &mut Ipcc, opcode: u16, payload: &[u8])
    requires
        payload@.len() <= 255,
        old(ipcc).wf(),
    ensures
        final(sys_cmd_buf)@ == crate::cmd::spec_cmd_packet(TL_SYSCMD_PKT_TYPE, opcode, payload@),
        final(ipcc).wf(),
        final(ipcc).c1_to_c2@ == old(ipcc).c1_to_c2@.update(
            CPU1_IPCC_SYSTEM_CMD_RSP_CHANNEL as int - 1,
            true,
        ),
        final(ipcc).c2_to_c1 == old(ipcc).c2_to_c1,
{
    let pkt = crate::cmd::serialize_cmd_packet(TL_SYSCMD_PKT_TYPE, opcode, payload);
    *sys_cmd_buf = pkt;
    ipcc.send(CPU1_IPCC_SYSTEM_CMD_RSP_CHANNEL);
}

/// Read the command-complete event the coprocessor wrote back over the
/// system command buffer once it drained the command channel: the buffer
/// then holds an event body (kind, event code, length, payload) whose
/// payload carries the completion.
pub fn cmd_evt_handler(sys_cmd_buf: &Vec<u8>) -> (cc: CcEvt)
    ensures
        cc.num_hci_cmd_packets == crate::evt::spec_cc_num(
            crate::evt::spec_evt_payload(sys_cmd_buf@),
        ),
        cc.cmd_opcode == crate::evt::spec_cc_opcode(crate::evt::spec_evt_payload(sys_cmd_buf@)),
        cc.status == crate::evt::spec_cc_status(crate::evt::spec_evt_payload(sys_cmd_buf@)),
{
    let fields = crate::evt::parse_evt(sys_cmd_buf);
    crate::evt::parse_cc(&fields.payload)
}

} // verus!

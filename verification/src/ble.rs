//! BLE channel: the HCI command path and the ACL data path.

use vstd::prelude::*;

use crate::channels::CPU1_IPCC_BLE_CMD_CHANNEL;
use crate::channels::CPU1_IPCC_HCI_ACL_DATA_CHANNEL;
use crate::consts::TL_ACL_DATA_PKT_TYPE;
use crate::consts::TL_BLECMD_PKT_TYPE;
use crate::ipcc::Ipcc;

verus! {

/// Copy an HCI command into the BLE command buffer, prefixed with the
/// BLE-command kind byte, and raise the BLE command channel.  The caller
/// keeps no obligation on `buf`: it is copied in full before the channel
/// is raised.
pub fn send_cmd(cmd_buf: &mut Vec<u8>, ipcc: &mut Ipcc, buf: &[u8])
    requires
        old(ipcc).wf(),
    ensures
        final(cmd_buf)@ == seq![TL_BLECMD_PKT_TYPE] + buf@,
        final(ipcc).wf(),
        final(ipcc).c1_to_c2@ == old(ipcc).c1_to_c2@.update(
            CPU1_IPCC_BLE_CMD_CHANNEL as int - 1,
            true,
        ),
        final(ipcc).c2_to_c1 == old(ipcc).c2_to_c1,
{
    cmd_buf.clear();
    cmd_buf.push(TL_BLECMD_PKT_TYPE);
    crate::bytes::push_all(cmd_buf, buf);
    proof {
        assert(cmd_buf@ =~= seq![TL_BLECMD_PKT_TYPE] + buf@);
    }
    ipcc.send(CPU1_IPCC_BLE_CMD_CHANNEL);
}

/// Copy an ACL data frame into the ACL buffer, prefixed with the ACL kind
/// byte, and raise the ACL channel — but only when no prior ACL frame is
/// still in flight: a single ACL buffer exists, so while the channel is
/// raised the buffer belongs to the coprocessor and the frame is refused.
pub fn send_acl(acl_buf: &mut Vec<u8>, ipcc: &mut Ipcc, buf: &[u8]) -> (sent: bool)
    requires
        old(ipcc).wf(),
    ensures
        final(ipcc).wf(),
        sent <==> !old(ipcc).tx_raised(CPU1_IPCC_HCI_ACL_DATA_CHANNEL),
        sent ==> final(acl_buf)@ == seq![TL_ACL_DATA_PKT_TYPE] + buf@ && final(ipcc).c1_to_c2@
            == old(ipcc).c1_to_c2@.update(CPU1_IPCC_HCI_ACL_DATA_CHANNEL as int - 1, true),
        !sent ==> *final(acl_buf) == *old(acl_buf) && final(ipcc).c1_to_c2 == old(ipcc).c1_to_c2,
        final(ipcc).c2_to_c1 == old(ipcc).c2_to_c1,
{
    if ipcc.is_tx_pending(CPU1_IPCC_HCI_ACL_DATA_CHANNEL) {
        acl_buf.clear();
        acl_buf.push(TL_ACL_DATA_PKT_TYPE);
        crate::bytes::push_all(acl_buf, buf);
        proof {
            assert(acl_buf@ =~= seq![TL_ACL_DATA_PKT_TYPE] + buf@);
        }
        ipcc.send(CPU1_IPCC_HCI_ACL_DATA_CHANNEL);
        true
    } else {
        false
    }
}

} // verus!

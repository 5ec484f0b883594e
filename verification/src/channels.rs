//! IPCC channel assignments, fixed by the coprocessor firmware.

use vstd::prelude::*;

verus! {

/// Number of channels per direction.
pub const IPCC_CHANNEL_COUNT: usize = 6;

/// CPU1 to CPU2: BLE command.
pub const CPU1_IPCC_BLE_CMD_CHANNEL: u8 = 1;

/// CPU1 to CPU2: system command, and its response acknowledgement.
pub const CPU1_IPCC_SYSTEM_CMD_RSP_CHANNEL: u8 = 2;

/// CPU1 to CPU2: thread command (present, unused).
pub const CPU1_IPCC_THREAD_OT_CMD_RSP_CHANNEL: u8 = 3;

/// CPU1 to CPU2: memory-manager buffer release.
pub const CPU1_IPCC_MM_RELEASE_BUFFER_CHANNEL: u8 = 4;

/// CPU1 to CPU2: HCI ACL data.
pub const CPU1_IPCC_HCI_ACL_DATA_CHANNEL: u8 = 6;

/// CPU2 to CPU1: BLE event.
pub const CPU2_IPCC_BLE_EVENT_CHANNEL: u8 = 1;

/// CPU2 to CPU1: system event.
pub const CPU2_IPCC_SYSTEM_EVENT_CHANNEL: u8 = 2;

/// CPU2 to CPU1: thread notification (present, unused).
pub const CPU2_IPCC_THREAD_NOTIF_ACK_CHANNEL: u8 = 3;

/// CPU2 to CPU1: traces (present, unused).
pub const CPU2_IPCC_TRACES_CHANNEL: u8 = 4;

/// CPU2 to CPU1: HCI ACL data acknowledgement.
pub const CPU2_IPCC_HCI_ACL_DATA_ACK_CHANNEL: u8 = 6;

} // verus!

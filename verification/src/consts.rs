//! Packet-type discriminators and event codes of the transport layer.

use vstd::prelude::*;

verus! {

/// Kind byte of a BLE (HCI) command packet.
pub const TL_BLECMD_PKT_TYPE: u8 = 0x01;

/// Kind byte of an ACL data packet.
pub const TL_ACL_DATA_PKT_TYPE: u8 = 0x02;

/// Kind byte of a BLE event packet.
pub const TL_BLEEVT_PKT_TYPE: u8 = 0x04;

/// Kind byte of a system command packet.
pub const TL_SYSCMD_PKT_TYPE: u8 = 0x10;

/// Kind byte of a system event packet.
pub const TL_SYSEVT_PKT_TYPE: u8 = 0x12;

/// Event code of a command-complete event.
pub const TL_BLEEVT_CC_OPCODE: u8 = 0x0e;

/// Event code of a command-status event.
pub const TL_BLEEVT_CS_OPCODE: u8 = 0x0f;

} // verus!

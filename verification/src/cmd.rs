//! Command and ACL packet serialization.
//!
//! On the wire a command is the kind byte, the opcode little-endian, a
//! one-byte payload length, then the payload; an ACL packet carries a
//! 16-bit connection handle and a 16-bit length instead.

use vstd::prelude::*;

verus! {

/// The serial part of a command: opcode little-endian, length, payload.
pub open spec fn spec_cmd_serial(opcode: u16, payload: Seq<u8>) -> Seq<u8> {
    seq![(opcode & 0xff) as u8, ((opcode >> 8) & 0xff) as u8, payload.len() as u8] + payload
}

/// A full command packet body: the kind byte, then the serial part.
pub open spec fn spec_cmd_packet(kind: u8, opcode: u16, payload: Seq<u8>) -> Seq<u8> {
    seq![kind] + spec_cmd_serial(opcode, payload)
}

/// A full ACL data packet body: the kind byte, the connection handle
/// little-endian, the length little-endian, then the payload.
pub open spec fn spec_acl_packet(kind: u8, handle: u16, payload: Seq<u8>) -> Seq<u8> {
    seq![
        kind,
        (handle & 0xff) as u8,
        ((handle >> 8) & 0xff) as u8,
        (payload.len() as u16 & 0xff) as u8,
        ((payload.len() as u16 >> 8) & 0xff) as u8,
    ] + payload
}

/// Serialize a command without its kind byte: opcode, length, payload.
pub fn serialize_cmd(opcode: u16, payload: &[u8]) -> (r: Vec<u8>)
    requires
        payload@.len() <= 255,
    ensures
        r@ == spec_cmd_serial(opcode, payload@),
{
    let mut out: Vec<u8> = Vec::new();
    out.push((opcode & 0xff) as u8);
    out.push(((opcode >> 8) & 0xff) as u8);
    out.push(payload.len() as u8);
    crate::bytes::push_all(&mut out, payload);
    proof {
        assert(out@ =~= spec_cmd_serial(opcode, payload@));
    }
    out
}

/// Serialize a full command packet: kind, opcode, length, payload.
pub fn serialize_cmd_packet(kind: u8, opcode: u16, payload: &[u8]) -> (r: Vec<u8>)
    requires
        payload@.len() <= 255,
    ensures
        r@ == spec_cmd_packet(kind, opcode, payload@),
{
    let mut out: Vec<u8> = Vec::new();
    out.push(kind);
    out.push((opcode & 0xff) as u8);
    out.push(((opcode >> 8) & 0xff) as u8);
    out.push(payload.len() as u8);
    crate::bytes::push_all(&mut out, payload);
    proof {
        assert(out@ =~= spec_cmd_packet(kind, opcode, payload@));
    }
    out
}

/// Serialize a full ACL data packet: kind, handle, length, payload.
pub fn serialize_acl_packet(kind: u8, handle: u16, payload: &[u8]) -> (r: Vec<u8>)
    requires
        payload@.len() <= 0xffff,
    ensures
        r@ == spec_acl_packet(kind, handle, payload@),
{
    let mut out: Vec<u8> = Vec::new();
    out.push(kind);
    out.push((handle & 0xff) as u8);
    out.push(((handle >> 8) & 0xff) as u8);
    let len16 = payload.len() as u16;
    out.push((len16 & 0xff) as u8);
    out.push(((len16 >> 8) & 0xff) as u8);
    crate::bytes::push_all(&mut out, payload);
    proof {
        assert(out@ =~= spec_acl_packet(kind, handle, payload@));
    }
    out
}

} // verus!

//! Event packet decoding and the consumer-side event handle.
//!
//! An event body is the kind byte, the event code, a one-byte declared
//! payload length, then the payload.  A declared length that exceeds the
//! buffer is treated as the buffer's remainder: the event is truncated,
//! never rejected, because the coprocessor cannot be answered with an
//! error.

use vstd::prelude::*;

use crate::chan::chan_try_send;
use crate::chan::channel_evts;
use crate::chan::EvtChannel;
use crate::channels::CPU1_IPCC_MM_RELEASE_BUFFER_CHANNEL;
use crate::ill::IllArena;
use crate::ipcc::Ipcc;

verus! {

/// Kind byte of an event body; zero when the buffer is too short.
pub open spec fn spec_evt_kind(b: Seq<u8>) -> u8 {
    if b.len() >= 1 {
        b[0]
    } else {
        0
    }
}

/// Event code of an event body; zero when the buffer is too short.
pub open spec fn spec_evt_code(b: Seq<u8>) -> u8 {
    if b.len() >= 2 {
        b[1]
    } else {
        0
    }
}

/// Declared payload length of an event body.
pub open spec fn spec_evt_declared_len(b: Seq<u8>) -> nat {
    if b.len() >= 3 {
        b[2] as nat
    } else {
        0
    }
}

/// The payload of an event body, truncated to what the buffer holds.
pub open spec fn spec_evt_payload(b: Seq<u8>) -> Seq<u8> {
    if b.len() < 3 {
        Seq::empty()
    } else if spec_evt_declared_len(b) <= b.len() - 3 {
        b.subrange(3, 3 + spec_evt_declared_len(b) as int)
    } else {
        b.subrange(3, b.len() as int)
    }
}

/// The fields of a decoded event.
pub struct EvtFields {
    pub kind: u8,
    pub evt_code: u8,
    pub payload: Vec<u8>,
}

/// Decode an event body into its fields, truncating a malformed length.
pub fn parse_evt(b: &Vec<u8>) -> (r: EvtFields)
    ensures
        r.kind == spec_evt_kind(b@),
        r.evt_code == spec_evt_code(b@),
        r.payload@ == spec_evt_payload(b@),
{
    let kind: u8 = if b.len() >= 1 {
        b[0]
    } else {
        0
    };
    let evt_code: u8 = if b.len() >= 2 {
        b[1]
    } else {
        0
    };
    let mut payload: Vec<u8> = Vec::new();
    if b.len() >= 3 {
        let blen = b.len();
        let avail = blen - 3;
        let declared = b[2] as usize;
        let take = if declared <= avail {
            declared
        } else {
            avail
        };
        let mut k: usize = 0;
        while k < take
            invariant
                k <= take,
                blen == b@.len(),
                take + 3 <= blen,
                payload@ == b@.subrange(3, 3 + k as int),
            decreases take - k,
        {
            payload.push(b[3 + k]);
            k = k + 1;
            proof {
                assert(b@.subrange(3, 3 + k as int) == b@.subrange(3, 3 + k - 1).push(
                    b@[3 + k - 1],
                ));
            }
        }
    }
    proof {
        assert(payload@ =~= spec_evt_payload(b@));
    }
    EvtFields { kind, evt_code, payload }
}

/// A decoded command-complete event.
#[derive(Clone, Copy, Debug)]
pub struct CcEvt {
    pub num_hci_cmd_packets: u8,
    pub cmd_opcode: u16,
    pub status: u8,
}

/// Number of further HCI commands the controller accepts; zero when the
/// payload is too short.
pub open spec fn spec_cc_num(p: Seq<u8>) -> u8 {
    if p.len() >= 1 {
        p[0]
    } else {
        0
    }
}

/// The opcode the completion answers, little-endian; zero when short.
pub open spec fn spec_cc_opcode(p: Seq<u8>) -> u16 {
    if p.len() >= 3 {
        crate::bytes::spec_u16_le(p[1], p[2])
    } else {
        0
    }
}

/// The completion status; zero when the payload is too short.
pub open spec fn spec_cc_status(p: Seq<u8>) -> u8 {
    if p.len() >= 4 {
        p[3]
    } else {
        0
    }
}

/// Decode a command-complete event out of an event payload.
pub fn parse_cc(p: &Vec<u8>) -> (r: CcEvt)
    ensures
        r.num_hci_cmd_packets == spec_cc_num(p@),
        r.cmd_opcode == spec_cc_opcode(p@),
        r.status == spec_cc_status(p@),
{
    let num: u8 = if p.len() >= 1 {
        p[0]
    } else {
        0
    };
    let opcode: u16 = if p.len() >= 3 {
        crate::bytes::u16_from_le(p[1], p[2])
    } else {
        0
    };
    let status: u8 = if p.len() >= 4 {
        p[3]
    } else {
        0
    };
    CcEvt { num_hci_cmd_packets: num, cmd_opcode: opcode, status }
}

/// A detached event node handed to the consumer: the index of its node in
/// the shared arena, and a copy of its body bytes.  When the consumer is
/// done it hands the box back through the memory manager, which returns
/// the node to the coprocessor's free queue.
pub struct EvtBox {
    pub node: usize,
    pub data: Vec<u8>,
}


/// How many consumer-channel slots are still free.
pub open spec fn free_slots(c: Seq<EvtBox>) -> int {
    if c.len() < 5 {
        5 - c.len()
    } else {
        0
    }
}

/// How many of `qlen` queued events a drain can hand to a consumer channel
/// currently holding `c`: the rest must be dropped and released.
pub open spec fn delivered_count(qlen: int, c: Seq<EvtBox>) -> int {
    if qlen <= free_slots(c) {
        qlen
    } else {
        free_slots(c)
    }
}

/// The event-delivery discipline: what draining the queue of sentinel `q`
/// does to the arena (`a0` to `a1`) and the consumer channel (`c0` to
/// `c1`); [`drain_tx_post`] states the companion effect on the flags.
///
/// The queue empties.  Its events go to the consumer channel in queue
/// order until the channel's five slots are full; each delivered entry
/// carries the node index and a copy of that node's body.  Every event
/// that does not fit is dropped: its node moves to the host-local
/// to-release list, still in queue order, and the release channel is
/// raised.  The coprocessor is never stalled and nothing is reordered.
pub open spec fn drain_post(
    a0: IllArena,
    a1: IllArena,
    c0: Seq<EvtBox>,
    c1: Seq<EvtBox>,
    q: int,
) -> bool {
    let q0 = a0.ring(q);
    let d = delivered_count(q0.len() as int, c0);
    &&& a1.wf()
    &&& a1.sentinel_count == a0.sentinel_count
    &&& a1.nodes@.len() == a0.nodes@.len()
    &&& a1.bodies == a0.bodies
    &&& a1.ring(q).len() == 0
    &&& forall|p: int|
        0 <= p < a0.sentinel_count && p != q && p != crate::LOCAL_FREE_BUF_QUEUE_ID as int
            ==> #[trigger] a1.ring(p) == a0.ring(p)
    &&& a1.ring(crate::LOCAL_FREE_BUF_QUEUE_ID as int) == a0.ring(
        crate::LOCAL_FREE_BUF_QUEUE_ID as int,
    ) + q0.skip(d)
    &&& forall|j: int| a0.detached(j) ==> #[trigger] a1.detached(j)
    &&& forall|t: int| 0 <= t < d ==> a1.detached(#[trigger] q0[t])
    &&& c1.len() == c0.len() + d
    &&& forall|i: int| 0 <= i < c0.len() ==> #[trigger] c1[i] == c0[i]
    &&& forall|t: int|
        0 <= t < d ==> (#[trigger] c1[c0.len() + t]).node as int == q0[t] && c1[c0.len()
            + t].data@ == a0.bodies@[q0[t]]@
}

/// What a drain does to the CPU1-to-CPU2 flags: when every one of the
/// `qlen` queued events was delivered nothing is raised; as soon as one
/// was dropped the memory-manager release channel is raised.
pub open spec fn drain_tx_post(p0: Seq<bool>, p1: Seq<bool>, qlen: int, d: int) -> bool {
    &&& (d == qlen ==> p1 == p0)
    &&& (d < qlen ==> p1 == p0.update(CPU1_IPCC_MM_RELEASE_BUFFER_CHANNEL as int - 1, true))
}

/// Drain the event queue of sentinel `q` to the consumer channel, dropping
/// and releasing whatever the channel cannot take.
pub fn drain_queue(arena: &mut IllArena, ch: &mut EvtChannel, ipcc: &mut Ipcc, q: usize)
    requires
        old(arena).wf(),
        old(arena).sentinel_count == crate::MBOX_SENTINEL_COUNT,
        q == crate::EVT_QUEUE_ID || q == crate::SYSTEM_EVT_QUEUE_ID,
        old(ipcc).wf(),
    ensures
        drain_post(
            *old(arena),
            *final(arena),
            channel_evts(*old(ch)),
            channel_evts(*final(ch)),
            q as int,
        ),
        final(ipcc).wf(),
        final(ipcc).c2_to_c1 == old(ipcc).c2_to_c1,
        drain_tx_post(
            old(ipcc).c1_to_c2@,
            final(ipcc).c1_to_c2@,
            old(arena).ring(q as int).len() as int,
            delivered_count(old(arena).ring(q as int).len() as int, channel_evts(*old(ch))),
        ),
{
    let ghost a0 = *old(arena);
    let ghost q0 = old(arena).ring(q as int);
    let ghost c0 = channel_evts(*old(ch));
    let ghost s0 = free_slots(c0);
    let ghost i0 = *old(ipcc);
    let ghost mut k: int = 0;
    proof {
        assert(a0.valid_ring(q as int));
        assert(q0.skip(0) =~= q0);
    }
    let mut done = arena.is_empty(q);
    while !done
        invariant
            arena.wf(),
            arena.sentinel_count == crate::MBOX_SENTINEL_COUNT,
            q == crate::EVT_QUEUE_ID || q == crate::SYSTEM_EVT_QUEUE_ID,
            arena.nodes@.len() == a0.nodes@.len(),
            arena.bodies == a0.bodies,
            a0.wf(),
            a0.sentinel_count == crate::MBOX_SENTINEL_COUNT,
            i0.wf(),
            q0 == a0.ring(q as int),
            c0 == channel_evts(*old(ch)),
            s0 == free_slots(c0),
            0 <= k <= q0.len(),
            arena.ring(q as int) == q0.skip(k),
            forall|p: int|
                0 <= p < crate::MBOX_SENTINEL_COUNT && p != q && p
                    != crate::LOCAL_FREE_BUF_QUEUE_ID as int ==> #[trigger] arena.ring(p)
                    == a0.ring(p),
            arena.ring(crate::LOCAL_FREE_BUF_QUEUE_ID as int) == a0.ring(
                crate::LOCAL_FREE_BUF_QUEUE_ID as int,
            ) + (if k <= s0 {
                Seq::<int>::empty()
            } else {
                q0.subrange(s0, k)
            }),
            forall|j: int| a0.detached(j) ==> #[trigger] arena.detached(j),
            forall|t: int| 0 <= t < delivered_count(k, c0) ==> arena.detached(#[trigger] q0[t]),
            channel_evts(*ch).len() == c0.len() + delivered_count(k, c0),
            forall|i: int| 0 <= i < c0.len() ==> #[trigger] channel_evts(*ch)[i] == c0[i],
            forall|t: int|
                0 <= t < delivered_count(k, c0) ==> (#[trigger] channel_evts(*ch)[c0.len()
                    + t]).node as int == q0[t] && channel_evts(*ch)[c0.len() + t].data@
                    == a0.bodies@[q0[t]]@,
            ipcc.wf(),
            ipcc.c2_to_c1 == i0.c2_to_c1,
            k <= s0 ==> ipcc.c1_to_c2 == i0.c1_to_c2,
            k > s0 ==> ipcc.c1_to_c2@ == i0.c1_to_c2@.update(
                CPU1_IPCC_MM_RELEASE_BUFFER_CHANNEL as int - 1,
                true,
            ),
            done <==> arena.ring(q as int).len() == 0,
        decreases q0.len() - k,
    {
        proof {
            assert(q0.skip(k)[0] == q0[k]);
        }
        let h = arena.remove_head(q).unwrap();
        proof {
            assert(h as int == q0[k]);
            assert(q0.skip(k).drop_first() =~= q0.skip(k + 1));
        }
        let data = crate::bytes::copy_bytes(arena.body(h));
        let evt = EvtBox { node: h, data };
        let dropped = chan_try_send(ch, evt);
        match dropped {
            None => {
                proof {
                    assert(delivered_count(k, c0) == k);
                    assert(delivered_count(k + 1, c0) == k + 1);
                }
            },
            Some(b) => {
                proof {
                    assert(k >= s0);
                    assert(b.node == h);
                }
                let node = b.node;
                crate::mm::evt_drop(arena, ipcc, node);
                proof {
                    assert(a0.on_queue(q as int, q0[k]));
                    assert forall|j: int| a0.detached(j) implies #[trigger] arena.detached(j) by {
                        assert(!a0.on_queue(q as int, j));
                    }
                    if k == s0 {
                        assert(a0.ring(crate::LOCAL_FREE_BUF_QUEUE_ID as int).push(q0[k]) =~= a0
                            .ring(crate::LOCAL_FREE_BUF_QUEUE_ID as int) + q0.subrange(
                            s0,
                            k + 1,
                        ));
                    } else {
                        assert((a0.ring(crate::LOCAL_FREE_BUF_QUEUE_ID as int) + q0.subrange(
                            s0,
                            k,
                        )).push(q0[k]) =~= a0.ring(crate::LOCAL_FREE_BUF_QUEUE_ID as int)
                            + q0.subrange(s0, k + 1));
                    }
                    if k > s0 {
                        assert(i0.c1_to_c2@.update(
                            CPU1_IPCC_MM_RELEASE_BUFFER_CHANNEL as int - 1,
                            true,
                        ).update(CPU1_IPCC_MM_RELEASE_BUFFER_CHANNEL as int - 1, true) =~= i0
                            .c1_to_c2@.update(CPU1_IPCC_MM_RELEASE_BUFFER_CHANNEL as int - 1, true));
                    }
                    assert forall|t: int| 0 <= t < delivered_count(k + 1, c0) implies arena
                        .detached(#[trigger] q0[t]) by {
                        assert(a0.valid_ring(q as int));
                        assert(0 <= t < k < q0.len());
                        assert(q0[t] != q0[k]);
                    }
                }
            },
        }
        proof {
            k = k + 1;
        }
        done = arena.is_empty(q);
    }
    proof {
        assert(k == q0.len());
        let d = delivered_count(q0.len() as int, c0);
        if k <= s0 {
            assert(d == q0.len());
            assert(q0.skip(d) =~= Seq::<int>::empty());
            assert(a0.ring(crate::LOCAL_FREE_BUF_QUEUE_ID as int) + q0.skip(d) =~= a0.ring(
                crate::LOCAL_FREE_BUF_QUEUE_ID as int,
            ) + Seq::<int>::empty());
        } else {
            assert(d == s0);
            assert(q0.subrange(s0, k) =~= q0.skip(d));
        }
    }
}

} // verus!

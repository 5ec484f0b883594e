//! Memory manager: returning event buffers to the coprocessor.
//!
//! The host never allocates event buffers; it borrows them during event
//! delivery and must give each one back.  A released buffer first goes on
//! the host-local to-release list; when the release channel is free the
//! whole list moves to the shared free queue and the channel is raised so
//! the coprocessor reclaims the batch.

use vstd::prelude::*;

use crate::channels::CPU1_IPCC_MM_RELEASE_BUFFER_CHANNEL;
use crate::ill::IllArena;
use crate::ipcc::Ipcc;

verus! {

/// Push a finished event buffer onto the host-local to-release list and
/// raise the release channel.
pub fn evt_drop(arena: &mut IllArena, ipcc: &mut Ipcc, node: usize)
    requires
        old(arena).wf(),
        old(arena).sentinel_count == crate::MBOX_SENTINEL_COUNT,
        old(arena).detached(node as int),
        old(ipcc).wf(),
    ensures
        final(arena).wf(),
        final(arena).sentinel_count == old(arena).sentinel_count,
        final(arena).nodes@.len() == old(arena).nodes@.len(),
        final(arena).bodies == old(arena).bodies,
        final(arena).ring(crate::LOCAL_FREE_BUF_QUEUE_ID as int) == old(arena).ring(
            crate::LOCAL_FREE_BUF_QUEUE_ID as int,
        ).push(node as int),
        forall|p: int|
            0 <= p < crate::MBOX_SENTINEL_COUNT && p != crate::LOCAL_FREE_BUF_QUEUE_ID as int
                ==> #[trigger] final(arena).ring(p) == old(arena).ring(p),
        forall|j: int| old(arena).detached(j) && j != node ==> #[trigger] final(arena).detached(j),
        final(ipcc).wf(),
        final(ipcc).c1_to_c2@ == old(ipcc).c1_to_c2@.update(
            CPU1_IPCC_MM_RELEASE_BUFFER_CHANNEL as int - 1,
            true,
        ),
        final(ipcc).c2_to_c1 == old(ipcc).c2_to_c1,
{
    arena.insert_tail(crate::LOCAL_FREE_BUF_QUEUE_ID, node);
    ipcc.send(CPU1_IPCC_MM_RELEASE_BUFFER_CHANNEL);
}

/// Release-channel handler: the coprocessor has taken the previous batch,
/// so move every node from the host-local list to the shared free queue
/// and re-raise the channel; with nothing to release the channel is left
/// quiet.
pub fn free_buf_handler(arena: &mut IllArena, ipcc: &mut Ipcc)
    requires
        old(arena).wf(),
        old(arena).sentinel_count == crate::MBOX_SENTINEL_COUNT,
        old(ipcc).wf(),
    ensures
        final(arena).wf(),
        final(arena).sentinel_count == old(arena).sentinel_count,
        final(arena).nodes@.len() == old(arena).nodes@.len(),
        final(arena).bodies == old(arena).bodies,
        final(arena).ring(crate::LOCAL_FREE_BUF_QUEUE_ID as int).len() == 0,
        final(arena).ring(crate::FREE_BUFF_QUEUE_ID as int) == old(arena).ring(
            crate::FREE_BUFF_QUEUE_ID as int,
        ) + old(arena).ring(crate::LOCAL_FREE_BUF_QUEUE_ID as int),
        final(arena).ring(crate::EVT_QUEUE_ID as int) == old(arena).ring(
            crate::EVT_QUEUE_ID as int,
        ),
        final(arena).ring(crate::SYSTEM_EVT_QUEUE_ID as int) == old(arena).ring(
            crate::SYSTEM_EVT_QUEUE_ID as int,
        ),
        forall|j: int| old(arena).detached(j) ==> #[trigger] final(arena).detached(j),
        final(ipcc).wf(),
        final(ipcc).c2_to_c1 == old(ipcc).c2_to_c1,
        old(arena).ring(crate::LOCAL_FREE_BUF_QUEUE_ID as int).len() == 0
            ==> final(ipcc).c1_to_c2 == old(ipcc).c1_to_c2,
        old(arena).ring(crate::LOCAL_FREE_BUF_QUEUE_ID as int).len() > 0
            ==> final(ipcc).c1_to_c2@ == old(ipcc).c1_to_c2@.update(
            CPU1_IPCC_MM_RELEASE_BUFFER_CHANNEL as int - 1,
            true,
        ),
{
    let ghost l0 = old(arena).ring(crate::LOCAL_FREE_BUF_QUEUE_ID as int);
    let ghost f0 = old(arena).ring(crate::FREE_BUFF_QUEUE_ID as int);
    let ghost mut j: int = 0;
    let mut done = arena.is_empty(crate::LOCAL_FREE_BUF_QUEUE_ID);
    let any = !done;
    while !done
        invariant
            arena.wf(),
            arena.sentinel_count == crate::MBOX_SENTINEL_COUNT,
            arena.nodes@.len() == old(arena).nodes@.len(),
            arena.bodies == old(arena).bodies,
            0 <= j <= l0.len(),
            arena.ring(crate::LOCAL_FREE_BUF_QUEUE_ID as int) == l0.skip(j),
            arena.ring(crate::FREE_BUFF_QUEUE_ID as int) == f0 + l0.take(j),
            arena.ring(crate::EVT_QUEUE_ID as int) == old(arena).ring(crate::EVT_QUEUE_ID as int),
            arena.ring(crate::SYSTEM_EVT_QUEUE_ID as int) == old(arena).ring(
                crate::SYSTEM_EVT_QUEUE_ID as int,
            ),
            forall|x: int| old(arena).detached(x) ==> #[trigger] arena.detached(x),
            done <==> arena.ring(crate::LOCAL_FREE_BUF_QUEUE_ID as int).len() == 0,
        decreases l0.len() - j,
    {
        let ghost a_pre = *arena;
        let h = arena.remove_head(crate::LOCAL_FREE_BUF_QUEUE_ID).unwrap();
        proof {
            assert(h as int == l0[j]);
            assert(l0.contains(l0[j]));
            assert(a_pre.on_queue(crate::LOCAL_FREE_BUF_QUEUE_ID as int, l0[j]));
        }
        arena.insert_tail(crate::FREE_BUFF_QUEUE_ID, h);
        proof {
            j = j + 1;
            assert(arena.ring(crate::LOCAL_FREE_BUF_QUEUE_ID as int) =~= l0.skip(j));
            assert(arena.ring(crate::FREE_BUFF_QUEUE_ID as int) =~= f0 + l0.take(j));
            assert forall|x: int| old(arena).detached(x) implies #[trigger] arena.detached(x) by {
                assert(a_pre.detached(x));
                assert(a_pre.on_queue(crate::LOCAL_FREE_BUF_QUEUE_ID as int, h as int));
            }
        }
        done = arena.is_empty(crate::LOCAL_FREE_BUF_QUEUE_ID);
    }
    proof {
        assert(j == l0.len());
        assert(l0.take(j) =~= l0);
    }
    if any {
        ipcc.send(CPU1_IPCC_MM_RELEASE_BUFFER_CHANNEL);
    }
}

} // verus!

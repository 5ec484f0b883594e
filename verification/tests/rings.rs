use tl_mbox::ill::IllArena;

const Q0: usize = 0;
const Q1: usize = 1;

fn arena_with_nodes(count: usize) -> (IllArena, Vec<usize>) {
    let mut arena = IllArena::new(4);
    let mut ids = Vec::new();
    for k in 0..count {
        ids.push(arena.carve(vec![k as u8]));
    }
    (arena, ids)
}

#[test]
fn fresh_arena_rings_are_empty_self_rings() {
    let arena = IllArena::new(4);
    for q in 0..4 {
        assert!(arena.is_empty(q));
        let n = arena.node(q);
        assert_eq!(n.next, q);
        assert_eq!(n.prev, q);
    }
}

#[test]
fn insert_then_remove_is_fifo() {
    let (mut arena, ids) = arena_with_nodes(3);
    for &i in &ids {
        arena.insert_tail(Q0, i);
    }
    assert!(!arena.is_empty(Q0));
    assert_eq!(arena.remove_head(Q0), Some(ids[0]));
    assert_eq!(arena.remove_head(Q0), Some(ids[1]));
    assert_eq!(arena.remove_head(Q0), Some(ids[2]));
    assert_eq!(arena.remove_head(Q0), None);
    assert!(arena.is_empty(Q0));
}

#[test]
fn interleaved_insert_remove_permutations_keep_rings_valid() {
    let (mut arena, ids) = arena_with_nodes(4);
    arena.insert_tail(Q0, ids[0]);
    arena.insert_tail(Q1, ids[1]);
    arena.insert_tail(Q0, ids[2]);
    let h = arena.remove_head(Q0).unwrap();
    assert_eq!(h, ids[0]);
    arena.insert_tail(Q1, h);
    arena.insert_tail(Q0, ids[3]);

    // Q0 carries ids[2], ids[3]; Q1 carries ids[1], ids[0].
    assert_eq!(arena.remove_head(Q0), Some(ids[2]));
    assert_eq!(arena.remove_head(Q0), Some(ids[3]));
    assert_eq!(arena.remove_head(Q0), None);
    assert_eq!(arena.remove_head(Q1), Some(ids[1]));
    assert_eq!(arena.remove_head(Q1), Some(ids[0]));
    assert_eq!(arena.remove_head(Q1), None);
}

#[test]
fn ring_links_close_in_both_directions() {
    let (mut arena, ids) = arena_with_nodes(3);
    for &i in &ids {
        arena.insert_tail(Q0, i);
    }
    // Forward: sentinel -> ids[0] -> ids[1] -> ids[2] -> sentinel.
    assert_eq!(arena.node(Q0).next, ids[0]);
    assert_eq!(arena.node(ids[0]).next, ids[1]);
    assert_eq!(arena.node(ids[1]).next, ids[2]);
    assert_eq!(arena.node(ids[2]).next, Q0);
    // Backward: sentinel -> ids[2] -> ids[1] -> ids[0] -> sentinel.
    assert_eq!(arena.node(Q0).prev, ids[2]);
    assert_eq!(arena.node(ids[2]).prev, ids[1]);
    assert_eq!(arena.node(ids[1]).prev, ids[0]);
    assert_eq!(arena.node(ids[0]).prev, Q0);
}

#[test]
fn removed_node_is_self_linked() {
    let (mut arena, ids) = arena_with_nodes(1);
    arena.insert_tail(Q0, ids[0]);
    let h = arena.remove_head(Q0).unwrap();
    assert_eq!(h, ids[0]);
    assert_eq!(arena.node(h).next, h);
    assert_eq!(arena.node(h).prev, h);
    assert!(arena.is_empty(Q0));
    let s = arena.node(Q0);
    assert_eq!(s.next, Q0);
    assert_eq!(s.prev, Q0);
}

#[test]
fn insert_head_puts_node_first() {
    let (mut arena, ids) = arena_with_nodes(3);
    arena.insert_tail(Q0, ids[0]);
    arena.insert_tail(Q0, ids[1]);
    arena.insert_head(Q0, ids[2]);
    assert_eq!(arena.remove_head(Q0), Some(ids[2]));
    assert_eq!(arena.remove_head(Q0), Some(ids[0]));
    assert_eq!(arena.remove_head(Q0), Some(ids[1]));
    assert_eq!(arena.remove_head(Q0), None);
}

#[test]
fn remove_node_splices_neighbours() {
    let (mut arena, ids) = arena_with_nodes(3);
    for &i in &ids {
        arena.insert_tail(Q0, i);
    }
    arena.remove_node(Q0, ids[1]);
    // The removed node is self-linked, the neighbours joined up.
    assert_eq!(arena.node(ids[1]).next, ids[1]);
    assert_eq!(arena.node(ids[1]).prev, ids[1]);
    assert_eq!(arena.node(ids[0]).next, ids[2]);
    assert_eq!(arena.node(ids[2]).prev, ids[0]);
    assert_eq!(arena.remove_head(Q0), Some(ids[0]));
    assert_eq!(arena.remove_head(Q0), Some(ids[2]));
    assert_eq!(arena.remove_head(Q0), None);
}

#[test]
fn remove_only_node_leaves_empty_ring() {
    let (mut arena, ids) = arena_with_nodes(1);
    arena.insert_tail(Q1, ids[0]);
    arena.remove_node(Q1, ids[0]);
    assert!(arena.is_empty(Q1));
    let s = arena.node(Q1);
    assert_eq!(s.next, Q1);
    assert_eq!(s.prev, Q1);
}

#[test]
fn bodies_ride_with_their_nodes() {
    let (mut arena, ids) = arena_with_nodes(2);
    arena.insert_tail(Q1, ids[1]);
    assert_eq!(arena.body(ids[0]), &vec![0u8]);
    assert_eq!(arena.body(ids[1]), &vec![1u8]);
}

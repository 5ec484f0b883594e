//! Intrusive doubly-linked rings in a shared node arena.
//!
//! Every packet that travels between the two processors begins with a pair
//! of link words, so the packet itself is the queue node.  A queue is a
//! sentinel node whose `next`/`prev` close into a ring; the queue is empty
//! exactly when both point back to the sentinel.  The arena models the
//! shared memory that holds those nodes: the sentinels sit at the fixed
//! indices below `sentinel_count`, packet nodes follow, and each packet
//! node carries its body bytes.
//!
//! The ghost `rings` map gives, for each sentinel, the sequence of nodes on
//! its ring in forward order.  [`IllArena::wf`] states the structural
//! invariant: every ring is a well-formed doubly-linked ring over distinct
//! non-sentinel nodes, and no node sits on two rings at once.  Every
//! mutating operation preserves it.

use vstd::prelude::*;

verus! {

/// The two link words at the start of every queued packet.
#[derive(Clone, Copy, Debug)]
pub struct IllNode {
    pub next: usize,
    pub prev: usize,
}

/// A shared-memory arena of list nodes and their packet bodies.
pub struct IllArena {
    /// How many of the leading nodes are queue sentinels.
    pub sentinel_count: usize,
    /// Link words of every node; sentinels first.
    pub nodes: Vec<IllNode>,
    /// Body bytes of every node; a sentinel's body stays empty.
    pub bodies: Vec<Vec<u8>>,
    /// For each sentinel, the nodes on its ring in forward order.
    pub rings: Ghost<Map<int, Seq<int>>>,
}

impl IllArena {
    /// The ring of sentinel `q`, in forward (`next`) order.
    pub open spec fn ring(self, q: int) -> Seq<int> {
        self.rings@[q]
    }

    /// The link words of node `i`.
    pub open spec fn node_at(self, i: int) -> IllNode {
        self.nodes@[i]
    }

    /// Node `r[k]` is in bounds and its links agree with its place on the
    /// ring of sentinel `q`.
    pub open spec fn ring_link_ok(self, q: int, r: Seq<int>, k: int) -> bool {
        &&& self.sentinel_count <= r[k] < self.nodes@.len()
        &&& self.node_at(r[k]).next as int == (if k + 1 < r.len() {
            r[k + 1]
        } else {
            q
        })
        &&& self.node_at(r[k]).prev as int == (if k > 0 {
            r[k - 1]
        } else {
            q
        })
    }

    /// The ring of sentinel `q` is a well-formed doubly-linked ring.
    pub open spec fn valid_ring(self, q: int) -> bool {
        let r = self.ring(q);
        &&& forall|k: int| 0 <= k < r.len() ==> #[trigger] self.ring_link_ok(q, r, k)
        &&& forall|k1: int, k2: int| 0 <= k1 < k2 < r.len() ==> #[trigger] r[k1] != #[trigger] r[k2]
        &&& self.node_at(q).next as int == (if r.len() > 0 {
            r[0]
        } else {
            q
        })
        &&& self.node_at(q).prev as int == (if r.len() > 0 {
            r[r.len() - 1]
        } else {
            q
        })
    }

    /// Node `i` sits on the ring of sentinel `q`.
    pub open spec fn on_queue(self, q: int, i: int) -> bool {
        self.ring(q).contains(i)
    }

    /// Node `i` sits on no ring at all.
    pub open spec fn detached(self, i: int) -> bool {
        &&& self.sentinel_count <= i < self.nodes@.len()
        &&& forall|q: int| 0 <= q < self.sentinel_count ==> !#[trigger] self.on_queue(q, i)
    }

    /// The structural invariant of the whole arena.
    pub open spec fn wf(self) -> bool {
        &&& self.sentinel_count as int <= self.nodes@.len()
        &&& self.bodies@.len() == self.nodes@.len()
        &&& forall|q: int| #[trigger] self.rings@.dom().contains(q) <==> 0 <= q < self.sentinel_count
        &&& forall|q: int| 0 <= q < self.sentinel_count ==> #[trigger] self.valid_ring(q)
        &&& forall|q1: int, q2: int, i: int|
            0 <= q1 < self.sentinel_count && 0 <= q2 < self.sentinel_count && q1 != q2
                && #[trigger] self.on_queue(q1, i) ==> !#[trigger] self.on_queue(q2, i)
    }

    /// A fresh arena: `count` sentinels, each a singleton self-ring, and no
    /// packet nodes yet.
    pub fn new(count: usize) -> (arena: IllArena)
        ensures
            arena.wf(),
            arena.sentinel_count == count,
            arena.nodes@.len() == count,
            forall|q: int| 0 <= q < count ==> #[trigger] arena.ring(q) == Seq::<int>::empty(),
    {
        let mut nodes: Vec<IllNode> = Vec::new();
        let mut bodies: Vec<Vec<u8>> = Vec::new();
        let mut k: usize = 0;
        while k < count
            invariant
                k <= count,
                nodes@.len() == k,
                bodies@.len() == k,
                forall|j: int| 0 <= j < k ==> #[trigger] nodes@[j].next == j && nodes@[j].prev == j,
            decreases count - k,
        {
            nodes.push(IllNode { next: k, prev: k });
            bodies.push(Vec::new());
            k = k + 1;
        }
        let arena = IllArena {
            sentinel_count: count,
            nodes,
            bodies,
            rings: Ghost(Map::new(|q: int| 0 <= q < count, |q: int| Seq::<int>::empty())),
        };
        arena
    }

    /// Carve a fresh, detached, self-linked node holding `body` out of the
    /// arena, and return its index.
    pub fn carve(&mut self, body: Vec<u8>) -> (i: usize)
        requires
            old(self).wf(),
            old(self).nodes@.len() < usize::MAX,
        ensures
            final(self).wf(),
            final(self).sentinel_count == old(self).sentinel_count,
            i as int == old(self).nodes@.len(),
            final(self).nodes@.len() == old(self).nodes@.len() + 1,
            final(self).bodies@ == old(self).bodies@.push(body),
            final(self).rings == old(self).rings,
            final(self).detached(i as int),
            forall|j: int| 0 <= j < old(self).nodes@.len() ==> #[trigger] final(self).node_at(j)
                == old(self).node_at(j),
    {
        let i = self.nodes.len();
        self.nodes.push(IllNode { next: i, prev: i });
        self.bodies.push(body);
        proof {
            assert forall|q: int| 0 <= q < self.sentinel_count implies #[trigger] self.valid_ring(
                q,
            ) by {
                assert(old(self).valid_ring(q));
                let r = self.ring(q);
                assert forall|k: int| 0 <= k < r.len() implies #[trigger] self.ring_link_ok(
                    q,
                    r,
                    k,
                ) by {
                    assert(old(self).ring_link_ok(q, r, k));
                }
            }
            assert forall|q: int| 0 <= q < self.sentinel_count implies !#[trigger] self.on_queue(
                q,
                i as int,
            ) by {
                assert(old(self).valid_ring(q));
                if self.ring(q).contains(i as int) {
                    let k = choose|k: int| 0 <= k < self.ring(q).len() && self.ring(q)[k]
                        == i as int;
                    assert(old(self).ring_link_ok(q, self.ring(q), k));
                }
            }
            assert forall|q1: int, q2: int, j: int|
                0 <= q1 < self.sentinel_count && 0 <= q2 < self.sentinel_count && q1 != q2
                    && #[trigger] self.on_queue(q1, j) implies !#[trigger] self.on_queue(
                q2,
                j,
            ) by {
                assert(self.ring(q1) == old(self).ring(q1));
                assert(self.ring(q2) == old(self).ring(q2));
                assert(old(self).on_queue(q1, j));
                assert(!old(self).on_queue(q2, j));
            }
        }
        i
    }

    /// Node `i` exists and its forward link closes on itself; under [`Self::wf`]
    /// such a node sits on no ring (see [`lemma_self_linked_detached`]).
    pub open spec fn self_linked(self, i: int) -> bool {
        &&& self.sentinel_count <= i < self.nodes@.len()
        &&& self.node_at(i).next as int == i
    }

    /// Number of nodes in the arena, sentinels included.
    pub fn len(&self) -> (n: usize)
        ensures
            n == self.nodes@.len(),
    {
        self.nodes.len()
    }

    /// Read the link words of node `i`.
    pub fn node(&self, i: usize) -> (n: IllNode)
        requires
            i < self.nodes@.len(),
        ensures
            n == self.node_at(i as int),
    {
        self.nodes[i]
    }

    /// A read-only view of the body of node `i`.
    pub fn body(&self, i: usize) -> (b: &Vec<u8>)
        requires
            self.wf(),
            i < self.bodies@.len(),
        ensures
            b == self.bodies@[i as int],
    {
        &self.bodies[i]
    }

    /// Whether the ring of sentinel `q` is empty, read off the sentinel's
    /// `next` link.
    pub fn is_empty(&self, q: usize) -> (r: bool)
        requires
            self.wf(),
            (q as int) < self.sentinel_count,
        ensures
            r <==> self.ring(q as int).len() == 0,
    {
        proof {
            assert(self.valid_ring(q as int));
            if self.ring(q as int).len() > 0 {
                assert(self.ring_link_ok(q as int, self.ring(q as int), 0));
            }
        }
        self.nodes[q].next == q
    }

    /// Append detached node `i` at the tail of the ring of sentinel `q`.
    pub fn insert_tail(&mut self, q: usize, i: usize)
        requires
            old(self).wf(),
            (q as int) < old(self).sentinel_count,
            old(self).detached(i as int),
        ensures
            final(self).wf(),
            final(self).sentinel_count == old(self).sentinel_count,
            final(self).nodes@.len() == old(self).nodes@.len(),
            final(self).bodies == old(self).bodies,
            final(self).ring(q as int) == old(self).ring(q as int).push(i as int),
            forall|p: int| 0 <= p < final(self).sentinel_count && p != q ==> #[trigger] final(self).ring(p)
                == old(self).ring(p),
            forall|j: int| old(self).detached(j) && j != i ==> #[trigger] final(self).detached(j),
            final(self).on_queue(q as int, i as int),
    {
        let ghost r0 = old(self).ring(q as int);
        proof {
            assert(old(self).valid_ring(q as int));
            if r0.len() > 0 {
                assert(old(self).ring_link_ok(q as int, r0, r0.len() - 1));
            }
        }
        let last = self.nodes[q].prev;
        self.nodes.set(i, IllNode { next: q, prev: last });
        let after_i = self.nodes[last];
        self.nodes.set(last, IllNode { next: i, prev: after_i.prev });
        let after_last = self.nodes[q];
        self.nodes.set(q, IllNode { next: after_last.next, prev: i });
        let ghost r1 = r0.push(i as int);
        proof {
            self.rings@ = self.rings@.insert(q as int, r1);
        }
        proof {
            assert(r1[r1.len() - 1] == i as int);
            assert(!old(self).on_queue(q as int, i as int));
            if r0.len() > 0 {
                assert(last as int == r0[r0.len() - 1]);
                assert(r0.contains(r0[r0.len() - 1]));
                assert(last as int != i as int);
            }
            assert(self.node_at(i as int) == IllNode { next: q, prev: last });
            assert forall|k: int| 0 <= k < r1.len() implies #[trigger] self.ring_link_ok(
                q as int,
                r1,
                k,
            ) by {
                if k < r0.len() {
                    assert(old(self).ring_link_ok(q as int, r0, k));
                    assert(r0.contains(r0[k]));
                    if k == r0.len() - 1 {
                        assert(self.node_at(r1[k]).next == i);
                        assert(self.node_at(r1[k]).prev == old(self).node_at(r0[k]).prev);
                    } else {
                        assert(r0[k] != r0[r0.len() - 1]);
                        assert(self.node_at(r1[k]) == old(self).node_at(r0[k]));
                    }
                } else {
                    assert(k == r0.len());
                    assert(r1[k] == i as int);
                }
            }
            assert(self.valid_ring(q as int));
            assert forall|p: int| 0 <= p < self.sentinel_count && p != q implies #[trigger] self
                .valid_ring(p) by {
                assert(old(self).valid_ring(p));
                let r = self.ring(p);
                assert(r == old(self).ring(p));
                assert forall|k: int| 0 <= k < r.len() implies #[trigger] self.ring_link_ok(
                    p,
                    r,
                    k,
                ) by {
                    assert(old(self).ring_link_ok(p, r, k));
                    assert(r.contains(r[k]));
                    assert(old(self).on_queue(p, r[k]));
                    assert(!old(self).on_queue(p, i as int));
                    if r0.len() > 0 {
                        assert(old(self).on_queue(q as int, r0[r0.len() - 1]));
                        assert(!old(self).on_queue(p, r0[r0.len() - 1]));
                    }
                }
            }
            assert forall|q1: int, q2: int, j: int|
                0 <= q1 < self.sentinel_count && 0 <= q2 < self.sentinel_count && q1 != q2
                    && #[trigger] self.on_queue(q1, j) implies !#[trigger] self.on_queue(
                q2,
                j,
            ) by {
                if self.on_queue(q2, j) {
                    assert(q1 == q as int || old(self).on_queue(q1, j));
                    assert(q2 == q as int || old(self).on_queue(q2, j));
                }
            }
            assert(self.wf());
            assert forall|j: int| old(self).detached(j) && j != i implies #[trigger] self.detached(
                j,
            ) by {
                assert forall|p: int| 0 <= p < self.sentinel_count implies !#[trigger] self
                    .on_queue(p, j) by {
                    assert(!old(self).on_queue(p, j));
                }
            }
        }
    }

    /// Link detached node `i` in right after sentinel `q`, at the head of
    /// its ring.
    pub fn insert_head(&mut self, q: usize, i: usize)
        requires
            old(self).wf(),
            (q as int) < old(self).sentinel_count,
            old(self).detached(i as int),
        ensures
            final(self).wf(),
            final(self).sentinel_count == old(self).sentinel_count,
            final(self).nodes@.len() == old(self).nodes@.len(),
            final(self).bodies == old(self).bodies,
            final(self).ring(q as int) == seq![i as int] + old(self).ring(q as int),
            forall|p: int| 0 <= p < final(self).sentinel_count && p != q
                ==> #[trigger] final(self).ring(p) == old(self).ring(p),
            forall|j: int| old(self).detached(j) && j != i ==> #[trigger] final(self).detached(j),
            final(self).on_queue(q as int, i as int),
    {
        let ghost r0 = old(self).ring(q as int);
        proof {
            assert(old(self).valid_ring(q as int));
            assert(!old(self).on_queue(q as int, i as int));
            if r0.len() > 0 {
                assert(old(self).ring_link_ok(q as int, r0, 0));
                assert(r0.contains(r0[0]));
            }
        }
        let first = self.nodes[q].next;
        self.nodes.set(i, IllNode { next: first, prev: q });
        let after_i = self.nodes[first];
        self.nodes.set(first, IllNode { next: after_i.next, prev: i });
        let after_first = self.nodes[q];
        self.nodes.set(q, IllNode { next: i, prev: after_first.prev });
        let ghost r1 = seq![i as int] + r0;
        proof {
            self.rings@ = self.rings@.insert(q as int, r1);
        }
        proof {
            assert(r1[0] == i as int);
            assert(self.node_at(i as int) == IllNode { next: first, prev: q });
            assert forall|k: int| 0 <= k < r1.len() implies #[trigger] self.ring_link_ok(
                q as int,
                r1,
                k,
            ) by {
                if k > 0 {
                    assert(r1[k] == r0[k - 1]);
                    assert(old(self).ring_link_ok(q as int, r0, k - 1));
                    assert(r0.contains(r0[k - 1]));
                    if k == 1 {
                        assert(self.node_at(r1[k]).next == after_i.next);
                        assert(self.node_at(r1[k]).prev == i);
                    } else {
                        assert(r0[k - 1] != r0[0]);
                        assert(self.node_at(r1[k]) == old(self).node_at(r0[k - 1]));
                    }
                }
            }
            assert(self.valid_ring(q as int));
            assert forall|p: int| 0 <= p < self.sentinel_count && p != q implies #[trigger] self
                .valid_ring(p) by {
                assert(old(self).valid_ring(p));
                let r = self.ring(p);
                assert(r == old(self).ring(p));
                assert forall|k: int| 0 <= k < r.len() implies #[trigger] self.ring_link_ok(
                    p,
                    r,
                    k,
                ) by {
                    assert(old(self).ring_link_ok(p, r, k));
                    assert(r.contains(r[k]));
                    assert(old(self).on_queue(p, r[k]));
                    assert(!old(self).on_queue(p, i as int));
                    if r0.len() > 0 {
                        assert(old(self).on_queue(q as int, r0[0]));
                        assert(!old(self).on_queue(p, r0[0]));
                    }
                }
            }
            assert forall|q1: int, q2: int, j: int|
                0 <= q1 < self.sentinel_count && 0 <= q2 < self.sentinel_count && q1 != q2
                    && #[trigger] self.on_queue(q1, j) implies !#[trigger] self.on_queue(
                q2,
                j,
            ) by {
                if self.on_queue(q2, j) {
                    assert(!old(self).on_queue(q1, i as int));
                    assert(!old(self).on_queue(q2, i as int));
                    if j != i as int {
                        if q1 == q as int {
                            let k = choose|k: int| 0 <= k < r1.len() && r1[k] == j;
                            assert(k > 0);
                            assert(r0[k - 1] == j);
                            assert(old(self).on_queue(q as int, j));
                        } else {
                            assert(old(self).on_queue(q1, j));
                        }
                        if q2 == q as int {
                            let k = choose|k: int| 0 <= k < r1.len() && r1[k] == j;
                            assert(k > 0);
                            assert(r0[k - 1] == j);
                            assert(old(self).on_queue(q as int, j));
                        } else {
                            assert(old(self).on_queue(q2, j));
                        }
                    } else {
                        if q1 != q as int {
                            assert(old(self).on_queue(q1, j));
                        }
                        if q2 != q as int {
                            assert(old(self).on_queue(q2, j));
                        }
                    }
                }
            }
            assert(self.wf());
            assert forall|j: int| old(self).detached(j) && j != i implies #[trigger] self.detached(
                j,
            ) by {
                assert forall|p: int| 0 <= p < self.sentinel_count implies !#[trigger] self
                    .on_queue(p, j) by {
                    assert(!old(self).on_queue(p, j));
                    if p == q as int && self.on_queue(p, j) {
                        let k = choose|k: int| 0 <= k < r1.len() && r1[k] == j;
                        assert(k > 0);
                        assert(r0[k - 1] == j);
                        assert(r0.contains(j));
                    }
                }
            }
        }
    }

    /// Detach and return the head of the ring of sentinel `q`, leaving the
    /// removed node self-linked; `None` when the ring is empty.
    pub fn remove_head(&mut self, q: usize) -> (r: Option<usize>)
        requires
            old(self).wf(),
            (q as int) < old(self).sentinel_count,
        ensures
            final(self).wf(),
            final(self).sentinel_count == old(self).sentinel_count,
            final(self).nodes@.len() == old(self).nodes@.len(),
            final(self).bodies == old(self).bodies,
            old(self).ring(q as int).len() == 0 ==> r is None && *final(self) == *old(self),
            old(self).ring(q as int).len() > 0 ==> {
                &&& r is Some
                &&& r.unwrap() as int == old(self).ring(q as int)[0]
                &&& final(self).ring(q as int) == old(self).ring(q as int).drop_first()
                &&& final(self).detached(old(self).ring(q as int)[0])
            },
            forall|p: int| 0 <= p < final(self).sentinel_count && p != q ==> #[trigger] final(self).ring(p)
                == old(self).ring(p),
            forall|j: int| old(self).detached(j) ==> #[trigger] final(self).detached(j),
    {
        let ghost r0 = old(self).ring(q as int);
        proof {
            assert(old(self).valid_ring(q as int));
            if r0.len() > 0 {
                assert(old(self).ring_link_ok(q as int, r0, 0));
                if r0.len() > 1 {
                    assert(old(self).ring_link_ok(q as int, r0, 1));
                    assert(old(self).ring_link_ok(q as int, r0, r0.len() - 1));
                }
            }
        }
        let h = self.nodes[q].next;
        if h == q {
            proof {
                if r0.len() > 0 {
                    assert(r0[0] >= self.sentinel_count);
                }
            }
            None
        } else {
            let n2 = self.nodes[h].next;
            let sentinel = self.nodes[q];
            self.nodes.set(q, IllNode { next: n2, prev: sentinel.prev });
            let after_q = self.nodes[n2];
            self.nodes.set(n2, IllNode { next: after_q.next, prev: q });
            self.nodes.set(h, IllNode { next: h, prev: h });
            let ghost r1 = r0.drop_first();
            proof {
                self.rings@ = self.rings@.insert(q as int, r1);
            }
            proof {
                assert forall|k: int| 0 <= k < r1.len() implies #[trigger] self.ring_link_ok(
                    q as int,
                    r1,
                    k,
                ) by {
                    assert(old(self).ring_link_ok(q as int, r0, k + 1));
                    assert(r1[k] == r0[k + 1]);
                    if k + 1 < r1.len() {
                        assert(r1[k + 1] == r0[k + 2]);
                    }
                }
                assert(self.valid_ring(q as int));
                assert forall|p: int| 0 <= p < self.sentinel_count && p != q implies #[trigger] self
                    .valid_ring(p) by {
                    assert(old(self).valid_ring(p));
                    let r = self.ring(p);
                    assert(r == old(self).ring(p));
                    assert forall|k: int| 0 <= k < r.len() implies #[trigger] self.ring_link_ok(
                        p,
                        r,
                        k,
                    ) by {
                        assert(old(self).ring_link_ok(p, r, k));
                        assert(r.contains(r[k]));
                        assert(old(self).on_queue(p, r[k]));
                        assert(old(self).on_queue(q as int, r0[0]));
                        if r0.len() > 1 {
                            assert(old(self).on_queue(q as int, r0[1]));
                        }
                    }
                }
                assert forall|q1: int, q2: int, j: int|
                    0 <= q1 < self.sentinel_count && 0 <= q2 < self.sentinel_count && q1 != q2
                        && #[trigger] self.on_queue(q1, j) implies !#[trigger] self.on_queue(
                    q2,
                    j,
                ) by {
                    if self.on_queue(q2, j) {
                        if q1 == q as int {
                            let k = choose|k: int| 0 <= k < r1.len() && r1[k] == j;
                            assert(r0[k + 1] == j);
                            assert(old(self).on_queue(q as int, j));
                        } else {
                            assert(old(self).on_queue(q1, j));
                        }
                        if q2 == q as int {
                            let k = choose|k: int| 0 <= k < r1.len() && r1[k] == j;
                            assert(r0[k + 1] == j);
                            assert(old(self).on_queue(q as int, j));
                        } else {
                            assert(old(self).on_queue(q2, j));
                        }
                    }
                }
                assert(self.wf());
                assert(self.detached(r0[0])) by {
                    assert forall|p: int| 0 <= p < self.sentinel_count implies !#[trigger] self
                        .on_queue(p, r0[0]) by {
                        if self.on_queue(p, r0[0]) {
                            if p == q as int {
                                let k = choose|k: int| 0 <= k < r1.len() && r1[k] == r0[0];
                                assert(r0[k + 1] == r0[0]);
                            } else {
                                assert(old(self).on_queue(p, r0[0]));
                                assert(old(self).on_queue(q as int, r0[0]));
                            }
                        }
                    }
                }
                assert forall|j: int| old(self).detached(j) implies #[trigger] self.detached(
                    j,
                ) by {
                    assert forall|p: int| 0 <= p < self.sentinel_count implies !#[trigger] self
                        .on_queue(p, j) by {
                        assert(!old(self).on_queue(p, j));
                        if p == q as int && self.on_queue(p, j) {
                            let k = choose|k: int| 0 <= k < r1.len() && r1[k] == j;
                            assert(r0[k + 1] == j);
                            assert(r0.contains(j));
                        }
                    }
                }
            }
            Some(h)
        }
    }
    /// Unlink node `i` from wherever it sits on the ring of sentinel `q`,
    /// splicing its neighbours together and leaving it self-linked.
    pub fn remove_node(&mut self, q: usize, i: usize)
        requires
            old(self).wf(),
            (q as int) < old(self).sentinel_count,
            old(self).on_queue(q as int, i as int),
        ensures
            final(self).wf(),
            final(self).sentinel_count == old(self).sentinel_count,
            final(self).nodes@.len() == old(self).nodes@.len(),
            final(self).bodies == old(self).bodies,
            final(self).ring(q as int) == old(self).ring(q as int).remove_value(i as int),
            forall|p: int| 0 <= p < final(self).sentinel_count && p != q
                ==> #[trigger] final(self).ring(p) == old(self).ring(p),
            forall|j: int| old(self).detached(j) ==> #[trigger] final(self).detached(j),
            final(self).detached(i as int),
    {
        let ghost r0 = old(self).ring(q as int);
        let ghost j = choose|j: int| 0 <= j < r0.len() && r0[j] == i as int;
        proof {
            assert(old(self).valid_ring(q as int));
            assert(0 <= j < r0.len() && r0[j] == i as int);
            assert(old(self).ring_link_ok(q as int, r0, j));
            if j > 0 {
                assert(old(self).ring_link_ok(q as int, r0, j - 1));
            }
            if j + 1 < r0.len() {
                assert(old(self).ring_link_ok(q as int, r0, j + 1));
            }
        }
        let p = self.nodes[i].prev;
        let n = self.nodes[i].next;
        let node_p = self.nodes[p];
        self.nodes.set(p, IllNode { next: n, prev: node_p.prev });
        let node_n = self.nodes[n];
        self.nodes.set(n, IllNode { next: node_n.next, prev: p });
        self.nodes.set(i, IllNode { next: i, prev: i });
        let ghost r1 = r0.remove(j);
        proof {
            self.rings@ = self.rings@.insert(q as int, r1);
        }
        proof {
            r0.remove_ensures(j);
            r0.index_of_first_ensures(i as int);
            assert(r0.index_of_first(i as int) is Some);
            let j0 = r0.index_of_first(i as int)->0;
            assert(r0[j0] == i as int);
            assert(j0 == j);
            assert(r0.remove_value(i as int) == r1);
            assert(self.node_at(i as int) == IllNode { next: i, prev: i });
            assert forall|k: int| 0 <= k < r1.len() implies #[trigger] self.ring_link_ok(
                q as int,
                r1,
                k,
            ) by {
                if k < j {
                    assert(r1[k] == r0[k]);
                    assert(old(self).ring_link_ok(q as int, r0, k));
                    assert(r0.contains(r0[k]));
                    if k == j - 1 {
                        assert(self.node_at(r1[k]).next == n);
                        assert(self.node_at(r1[k]).prev == node_p.prev);
                    } else {
                        assert(r0[k] != r0[j - 1]);
                        assert(r0[k] != r0[j]);
                        if j + 1 < r0.len() {
                            assert(r0[k] != r0[j + 1]);
                        }
                        assert(self.node_at(r1[k]) == old(self).node_at(r0[k]));
                    }
                } else {
                    assert(r1[k] == r0[k + 1]);
                    assert(old(self).ring_link_ok(q as int, r0, k + 1));
                    assert(r0.contains(r0[k + 1]));
                    if k == j {
                        assert(self.node_at(r1[k]).next == node_n.next);
                        assert(self.node_at(r1[k]).prev == p);
                    } else {
                        assert(r0[k + 1] != r0[j - 1] || j == 0);
                        assert(r0[k + 1] != r0[j]);
                        if j + 1 < r0.len() {
                            assert(r0[k + 1] != r0[j + 1] || k == j);
                        }
                        assert(self.node_at(r1[k]) == old(self).node_at(r0[k + 1]));
                    }
                }
            }
            assert(self.valid_ring(q as int));
            assert forall|pp: int| 0 <= pp < self.sentinel_count && pp != q implies #[trigger] self
                .valid_ring(pp) by {
                assert(old(self).valid_ring(pp));
                let r = self.ring(pp);
                assert(r == old(self).ring(pp));
                assert forall|k: int| 0 <= k < r.len() implies #[trigger] self.ring_link_ok(
                    pp,
                    r,
                    k,
                ) by {
                    assert(old(self).ring_link_ok(pp, r, k));
                    assert(r.contains(r[k]));
                    assert(old(self).on_queue(pp, r[k]));
                    assert(old(self).on_queue(q as int, r0[j]));
                    if j > 0 {
                        assert(old(self).on_queue(q as int, r0[j - 1]));
                    }
                    if j + 1 < r0.len() {
                        assert(old(self).on_queue(q as int, r0[j + 1]));
                    }
                }
            }
            assert forall|q1: int, q2: int, x: int|
                0 <= q1 < self.sentinel_count && 0 <= q2 < self.sentinel_count && q1 != q2
                    && #[trigger] self.on_queue(q1, x) implies !#[trigger] self.on_queue(
                q2,
                x,
            ) by {
                if self.on_queue(q2, x) {
                    if q1 == q as int {
                        let k = choose|k: int| 0 <= k < r1.len() && r1[k] == x;
                        assert(r1[k] == r0[k] || r1[k] == r0[k + 1]);
                        assert(old(self).on_queue(q as int, x));
                    } else {
                        assert(old(self).on_queue(q1, x));
                    }
                    if q2 == q as int {
                        let k = choose|k: int| 0 <= k < r1.len() && r1[k] == x;
                        assert(r1[k] == r0[k] || r1[k] == r0[k + 1]);
                        assert(old(self).on_queue(q as int, x));
                    } else {
                        assert(old(self).on_queue(q2, x));
                    }
                }
            }
            assert(self.wf());
            assert(self.detached(i as int)) by {
                assert forall|pp: int| 0 <= pp < self.sentinel_count implies !#[trigger] self
                    .on_queue(pp, i as int) by {
                    if self.on_queue(pp, i as int) {
                        if pp == q as int {
                            let k = choose|k: int| 0 <= k < r1.len() && r1[k] == i as int;
                            assert(r1[k] == r0[k] || r1[k] == r0[k + 1]);
                            assert(r0[k] != r0[j] || k == j);
                            if k + 1 < r0.len() {
                                assert(r0[k + 1] != r0[j] || k + 1 == j);
                            }
                        } else {
                            assert(old(self).on_queue(pp, i as int));
                            assert(old(self).on_queue(q as int, i as int));
                        }
                    }
                }
            }
            assert forall|x: int| old(self).detached(x) implies #[trigger] self.detached(x) by {
                assert forall|pp: int| 0 <= pp < self.sentinel_count implies !#[trigger] self
                    .on_queue(pp, x) by {
                    assert(!old(self).on_queue(pp, x));
                    if pp == q as int && self.on_queue(pp, x) {
                        let k = choose|k: int| 0 <= k < r1.len() && r1[k] == x;
                        assert(r1[k] == r0[k] || r1[k] == r0[k + 1]);
                        assert(r0.contains(x));
                    }
                }
            }
        }
    }
}

/// The node reached from `i` by following `next` links `k` times.
pub open spec fn nth_next(a: IllArena, i: int, k: nat) -> int
    decreases k,
{
    if k == 0 {
        i
    } else {
        a.node_at(nth_next(a, i, (k - 1) as nat)).next as int
    }
}

/// The node reached from `i` by following `prev` links `k` times.
pub open spec fn nth_prev(a: IllArena, i: int, k: nat) -> int
    decreases k,
{
    if k == 0 {
        i
    } else {
        a.node_at(nth_prev(a, i, (k - 1) as nat)).prev as int
    }
}

/// Law of the ring, forward direction: in a well-formed arena, walking
/// `next` from a sentinel visits exactly the nodes of its ring, in ring
/// order, and one more step from the last node comes back to the
/// sentinel.  So exactly `ring(q).len()` nodes are reachable forward.
pub proof fn lemma_ring_reachable_forward(a: IllArena, q: int, k: int)
    requires
        a.wf(),
        0 <= q < a.sentinel_count,
        0 <= k < a.ring(q).len(),
    ensures
        nth_next(a, q, (k + 1) as nat) == a.ring(q)[k],
    decreases k,
{
    assert(a.valid_ring(q));
    if k == 0 {
        assert(nth_next(a, q, 0) == q);
        assert(nth_next(a, q, 1) == a.node_at(q).next as int);
    } else {
        lemma_ring_reachable_forward(a, q, k - 1);
        assert(a.ring_link_ok(q, a.ring(q), k - 1));
    }
}

/// Law of the ring, closure: from the sentinel, `ring(q).len() + 1` steps
/// along `next` return to the sentinel.
pub proof fn lemma_ring_closes_forward(a: IllArena, q: int)
    requires
        a.wf(),
        0 <= q < a.sentinel_count,
    ensures
        nth_next(a, q, (a.ring(q).len() + 1) as nat) == q,
{
    assert(a.valid_ring(q));
    let n = a.ring(q).len() as int;
    if n == 0 {
        assert(nth_next(a, q, 0) == q);
        assert(nth_next(a, q, 1) == a.node_at(q).next as int);
    } else {
        lemma_ring_reachable_forward(a, q, n - 1);
        assert(a.ring_link_ok(q, a.ring(q), n - 1));
    }
}

/// Law of the ring, backward direction: walking `prev` from a sentinel
/// visits the same nodes in the opposite order.
pub proof fn lemma_ring_reachable_backward(a: IllArena, q: int, k: int)
    requires
        a.wf(),
        0 <= q < a.sentinel_count,
        0 <= k < a.ring(q).len(),
    ensures
        nth_prev(a, q, (k + 1) as nat) == a.ring(q)[a.ring(q).len() - 1 - k],
    decreases k,
{
    assert(a.valid_ring(q));
    if k == 0 {
        assert(nth_prev(a, q, 0) == q);
        assert(nth_prev(a, q, 1) == a.node_at(q).prev as int);
    } else {
        lemma_ring_reachable_backward(a, q, k - 1);
        assert(a.ring_link_ok(q, a.ring(q), a.ring(q).len() - k));
    }
}

/// Law of the ring, backward closure: from the sentinel,
/// `ring(q).len() + 1` steps along `prev` return to the sentinel.
pub proof fn lemma_ring_closes_backward(a: IllArena, q: int)
    requires
        a.wf(),
        0 <= q < a.sentinel_count,
    ensures
        nth_prev(a, q, (a.ring(q).len() + 1) as nat) == q,
{
    assert(a.valid_ring(q));
    let n = a.ring(q).len() as int;
    if n == 0 {
        assert(nth_prev(a, q, 0) == q);
        assert(nth_prev(a, q, 1) == a.node_at(q).prev as int);
    } else {
        lemma_ring_reachable_backward(a, q, n - 1);
        assert(a.ring_link_ok(q, a.ring(q), 0));
    }
}

/// A self-linked node sits on no ring: on a ring its forward link would
/// point at the next distinct node, or at the sentinel.
pub proof fn lemma_self_linked_detached(a: IllArena, i: int)
    requires
        a.wf(),
        a.self_linked(i),
    ensures
        a.detached(i),
{
    assert forall|q: int| 0 <= q < a.sentinel_count implies !#[trigger] a.on_queue(q, i) by {
        if a.on_queue(q, i) {
            assert(a.valid_ring(q));
            let r = a.ring(q);
            let k = choose|k: int| 0 <= k < r.len() && r[k] == i;
            assert(a.ring_link_ok(q, r, k));
            if k + 1 < r.len() {
                assert(r[k] != r[k + 1]);
            }
        }
    }
}

} // verus!

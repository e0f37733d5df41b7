//! The path of an analysis: from the node at the beginning of the sentence,
//! by `next`, to the node at its end.

use vstd::prelude::*;
use crate::arena::Arena;
use crate::node::Node;
use crate::record::{MECAB_BOS_NODE, MECAB_EOS_NODE};

verus! {

/// Where `next` leads from `addr`: null where no node lives at `addr`.
pub open spec fn next_of(arena: Arena, addr: usize) -> usize {
    if arena.has_node(addr) {
        arena.node_at(addr).next
    } else {
        0
    }
}

/// Where `prev` leads from `addr`: null where no node lives at `addr`.
pub open spec fn prev_of(arena: Arena, addr: usize) -> usize {
    if arena.has_node(addr) {
        arena.node_at(addr).prev
    } else {
        0
    }
}

/// Where `k` steps by `next` lead from `addr`.
pub open spec fn walk_next(arena: Arena, addr: usize, k: nat) -> usize
    decreases k,
{
    if k == 0 {
        addr
    } else {
        next_of(arena, walk_next(arena, addr, (k - 1) as nat))
    }
}

/// Where `k` steps by `prev` lead from `addr`.
pub open spec fn walk_prev(arena: Arena, addr: usize, k: nat) -> usize
    decreases k,
{
    if k == 0 {
        addr
    } else {
        walk_prev(arena, prev_of(arena, addr), (k - 1) as nat)
    }
}

/// The node `j` steps from `root` is a node of the arena, and `prev` leads
/// from it to the node one step before.
pub open spec fn step_holds(arena: Arena, root: usize, j: nat) -> bool {
    &&& arena.has_node(walk_next(arena, root, j))
    &&& j > 0 ==> prev_of(arena, walk_next(arena, root, j)) == walk_next(arena, root, (j - 1) as nat)
}

/// The node `j` steps from `root` ends a sentence.
pub open spec fn ends_at(arena: Arena, root: usize, j: nat) -> bool {
    arena.node_at(walk_next(arena, root, j)).stat == MECAB_EOS_NODE
}

/// `n` steps by `next` lead from `root`, a node that begins a sentence,
/// through nodes of the arena to the first node that ends a sentence, and
/// `prev` leads each step back. The walk is no longer than the arena has
/// nodes.
pub open spec fn is_sentence(arena: Arena, root: usize, n: nat) -> bool {
    &&& n < arena.nodes().len()
    &&& arena.has_node(root)
    &&& arena.node_at(root).stat == MECAB_BOS_NODE
    &&& forall|j: nat| j <= n ==> #[trigger] step_holds(arena, root, j)
    &&& forall|j: nat| j < n ==> !#[trigger] ends_at(arena, root, j)
    &&& ends_at(arena, root, n)
}

/// Walking `k` steps forward along a sentence and `k` steps back ends where
/// it began.
pub proof fn lemma_walk_back(arena: Arena, root: usize, n: nat, k: nat)
    requires
        is_sentence(arena, root, n),
        k <= n,
    ensures
        walk_prev(arena, walk_next(arena, root, k), k) == root,
    decreases k,
{
    if k > 0 {
        assert(step_holds(arena, root, k));
        lemma_walk_back(arena, root, n, (k - 1) as nat);
    }
}

/// Walking `next` from the first node of a sentence reaches a node that ends
/// the sentence before it reaches a null link, and walking `prev` from that
/// node as many steps leads back to the first node.
pub proof fn lemma_sentence_round_trip(arena: Arena, root: usize, n: nat)
    requires
        arena.wf(),
        is_sentence(arena, root, n),
    ensures
        forall|k: nat| k <= n ==> #[trigger] walk_next(arena, root, k) != 0,
        forall|k: nat| k < n ==> arena.node_at(#[trigger] walk_next(arena, root, k)).stat != MECAB_EOS_NODE,
        arena.node_at(walk_next(arena, root, n)).stat == MECAB_EOS_NODE,
        walk_prev(arena, walk_next(arena, root, n), n) == root,
{
    lemma_walk_back(arena, root, n, n);
    assert forall|k: nat| k <= n implies #[trigger] walk_next(arena, root, k) != 0 by {
        assert(step_holds(arena, root, k));
        let i = arena.node_slot(walk_next(arena, root, k));
        arena.lemma_node_slot(i);
    }
    assert forall|k: nat| k < n implies arena.node_at(#[trigger] walk_next(arena, root, k)).stat
        != MECAB_EOS_NODE by {
        assert(!ends_at(arena, root, k));
    }
}

/// The first `k` steps of the walk from `root` hold, and none of the nodes
/// that they reach ends a sentence.
pub open spec fn walk_holds(arena: Arena, root: usize, k: nat) -> bool {
    &&& forall|j: nat| j < k ==> #[trigger] step_holds(arena, root, j)
    &&& forall|j: nat| j < k ==> !#[trigger] ends_at(arena, root, j)
}

proof fn lemma_walk_holds_step(arena: Arena, root: usize, k: nat)
    requires
        walk_holds(arena, root, k),
        step_holds(arena, root, k),
        !ends_at(arena, root, k),
    ensures
        walk_holds(arena, root, k + 1),
{
}

proof fn lemma_walk_ends(arena: Arena, root: usize, k: nat)
    requires
        walk_holds(arena, root, k),
        k < arena.nodes().len(),
        arena.has_node(root),
        arena.node_at(root).stat == MECAB_BOS_NODE,
        step_holds(arena, root, k),
        ends_at(arena, root, k),
    ensures
        is_sentence(arena, root, k),
{
}

proof fn lemma_walk_breaks(arena: Arena, root: usize, k: nat, n: nat)
    requires
        walk_holds(arena, root, k),
        !step_holds(arena, root, k),
    ensures
        !is_sentence(arena, root, n),
{
    if n < k {
        assert(!ends_at(arena, root, n));
    }
}

proof fn lemma_walk_too_long(arena: Arena, root: usize, k: nat, n: nat)
    requires
        walk_holds(arena, root, k),
        !ends_at(arena, root, k),
        k + 1 >= arena.nodes().len(),
    ensures
        !is_sentence(arena, root, n),
{
    if n < k {
        assert(!ends_at(arena, root, n));
    }
}

struct Step {
    stat: u8,
    prev: usize,
    next: usize,
}

fn step_at(arena: &Arena, addr: usize) -> (r: Option<Step>)
    ensures
        r is Some <==> arena.has_node(addr),
        r is Some ==> r->0.stat == arena.node_at(addr).stat && r->0.prev == arena.node_at(addr).prev
            && r->0.next == arena.node_at(addr).next,
{
    match arena.find_node(addr) {
        Some(slot) => {
            let record = arena.node_record(slot);
            Some(Step { stat: record.stat, prev: record.prev, next: record.next })
        },
        None => None,
    }
}

/// An arena together with the first node of the analysis that it holds.
#[derive(Debug)]
pub struct Sentence {
    arena: Arena,
    root: usize,
    steps: usize,
}

impl Sentence {
    /// The arena of the sentence.
    pub closed spec fn arena(&self) -> Arena {
        self.arena
    }

    /// The address of the first node.
    pub closed spec fn root_addr(&self) -> usize {
        self.arena.nodes()[self.root as int].addr
    }

    /// The number of steps from the first node to the last.
    pub closed spec fn steps(&self) -> nat {
        self.steps as nat
    }

    /// The invariant of every sentence.
    #[verifier::type_invariant]
    pub closed spec fn wf(self) -> bool {
        &&& self.arena.wf()
        &&& self.root < self.arena.nodes().len()
        &&& is_sentence(self.arena, self.arena.nodes()[self.root as int].addr, self.steps as nat)
    }

    /// In every sentence, walking `next` from the first node reaches the
    /// node that ends the sentence before it reaches a null link, and
    /// walking `prev` from there as many steps leads back to the first node.
    pub proof fn lemma_round_trip(self)
        requires
            self.wf(),
        ensures
            self.arena().wf(),
            is_sentence(self.arena(), self.root_addr(), self.steps()),
            forall|k: nat| k <= self.steps() ==> #[trigger] walk_next(self.arena(), self.root_addr(), k) != 0,
            forall|k: nat|
                k < self.steps() ==> self.arena().node_at(
                    #[trigger] walk_next(self.arena(), self.root_addr(), k),
                ).stat != MECAB_EOS_NODE,
            self.arena().node_at(walk_next(self.arena(), self.root_addr(), self.steps())).stat
                == MECAB_EOS_NODE,
            walk_prev(
                self.arena(),
                walk_next(self.arena(), self.root_addr(), self.steps()),
                self.steps(),
            ) == self.root_addr(),
    {
        lemma_sentence_round_trip(self.arena, self.root_addr(), self.steps());
    }

    /// Takes `arena` as an analysis that begins at `root`. Succeeds exactly
    /// when `root` begins a sentence in it.
    pub fn new(arena: Arena, root: usize) -> (r: Option<Sentence>)
        ensures
            r is Some <==> exists|n: nat| is_sentence(arena, root, n),
            r is Some ==> r->0.wf() && r->0.arena() == arena && r->0.root_addr() == root && is_sentence(
                arena,
                root,
                r->0.steps(),
            ),
    {
        proof {
            use_type_invariant(&arena);
        }
        let root_slot = match arena.find_node(root) {
            Some(slot) => slot,
            None => {
                return None;
            },
        };
        if arena.node_record(root_slot).stat != MECAB_BOS_NODE {
            return None;
        }
        let count = arena.node_count();
        let mut cur: usize = root;
        let mut before: usize = 0;
        let mut k: usize = 0;
        loop
            invariant
                arena.wf(),
                count == arena.nodes().len(),
                k < count,
                root_slot < arena.nodes().len(),
                arena.nodes()[root_slot as int].addr == root,
                arena.has_node(root),
                arena.node_at(root).stat == MECAB_BOS_NODE,
                cur == walk_next(arena, root, k as nat),
                k > 0 ==> before == walk_next(arena, root, (k - 1) as nat),
                walk_holds(arena, root, k as nat),
            decreases count - k,
        {
            let step = match step_at(&arena, cur) {
                Some(step) => step,
                None => {
                    assert forall|n: nat| !is_sentence(arena, root, n) by {
                        lemma_walk_breaks(arena, root, k as nat, n);
                    }
                    return None;
                },
            };
            if k > 0 && step.prev != before {
                assert forall|n: nat| !is_sentence(arena, root, n) by {
                    lemma_walk_breaks(arena, root, k as nat, n);
                }
                return None;
            }
            if step.stat == MECAB_EOS_NODE {
                proof {
                    lemma_walk_ends(arena, root, k as nat);
                    arena.lemma_node_slot(root_slot as int);
                }
                return Some(Sentence { arena, root: root_slot, steps: k });
            }
            if k >= count - 1 {
                assert forall|n: nat| !is_sentence(arena, root, n) by {
                    lemma_walk_too_long(arena, root, k as nat, n);
                }
                return None;
            }
            proof {
                lemma_walk_holds_step(arena, root, k as nat);
                assert(walk_next(arena, root, (k + 1) as nat) == next_of(arena, walk_next(arena, root, k as nat)));
            }
            before = cur;
            cur = step.next;
            k += 1;
        }
    }

    /// The first node: the one that begins the sentence.
    pub fn root(&self) -> (r: Node<'_>)
        ensures
            r.wf(),
            r.arena() == self.arena(),
            r@.addr == self.root_addr(),
            r@ == self.arena().node_at(self.root_addr()),
            r@.stat == MECAB_BOS_NODE,
    {
        proof {
            use_type_invariant(self);
            self.arena.lemma_node_slot(self.root as int);
        }
        let addr = self.arena.node_record(self.root).addr;
        Node::from_ptr_unchecked(&self.arena, addr)
    }

    /// The nodes of the path in their order, from the node that begins the
    /// sentence to the node that ends it: what walking `next` from the first
    /// node visits.
    pub fn path(&self) -> (r: Vec<Node<'_>>)
        ensures
            r@.len() == self.steps() + 1,
            forall|k: int|
                0 <= k < r@.len() ==> (#[trigger] r@[k]).wf() && r@[k].arena() == self.arena() && r@[k]@.addr
                    == walk_next(self.arena(), self.root_addr(), k as nat),
            r@[0]@.stat == MECAB_BOS_NODE,
            r@[self.steps() as int]@.stat == MECAB_EOS_NODE,
    {
        proof {
            use_type_invariant(self);
            self.lemma_round_trip();
        }
        let ghost arena = self.arena;
        let ghost root = self.root_addr();
        let mut out: Vec<Node<'_>> = Vec::new();
        let mut cur = self.root();
        let mut k: usize = 0;
        out.push(cur);
        while k < self.steps
            invariant
                self.wf(),
                arena == self.arena(),
                root == self.root_addr(),
                is_sentence(arena, root, self.steps()),
                k <= self.steps,
                out@.len() == k + 1,
                cur == out@[k as int],
                forall|j: int|
                    0 <= j < out@.len() ==> (#[trigger] out@[j]).wf() && out@[j].arena() == arena && out@[j]@.addr
                        == walk_next(arena, root, j as nat),
            decreases self.steps - k,
        {
            proof {
                cur.lemma_in_arena();
                assert(step_holds(arena, root, (k + 1) as nat));
                assert(walk_next(arena, root, (k + 1) as nat) == next_of(arena, walk_next(arena, root, k as nat)));
                let i = arena.node_slot(walk_next(arena, root, (k + 1) as nat));
                arena.lemma_node_slot(i);
            }
            let next = cur.next();
            cur = next.unwrap();
            out.push(cur);
            k += 1;
        }
        proof {
            let first = out@[0];
            let last = out@[self.steps as int];
            first.lemma_in_arena();
            last.lemma_in_arena();
            assert(walk_next(arena, root, 0) == root);
            assert(ends_at(arena, root, self.steps()));
        }
        out
    }

    /// The arena that holds the sentence.
    pub fn nodes(&self) -> (r: &Arena)
        ensures
            *r == self.arena(),
            r.wf(),
    {
        proof {
            use_type_invariant(self);
        }
        &self.arena
    }

    /// The number of steps by `next` from the first node to the last.
    pub fn len(&self) -> (r: usize)
        ensures
            r == self.steps(),
            is_sentence(self.arena(), self.root_addr(), r as nat),
    {
        proof {
            use_type_invariant(self);
        }
        self.steps
    }
}

} // verus!

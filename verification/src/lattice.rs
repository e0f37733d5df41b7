//! The lattice handle: the workspace that owns the nodes and edges of one
//! analysis.

use vstd::prelude::*;
use crate::arena::{node_addrs, resolves, Arena};
use crate::node::{node_for, Node};

verus! {

/// How many positions a lattice of `size` token boundaries can be asked
/// about: four more than `size`, for the slots that the analyser keeps at
/// the ends, and none while the lattice holds nothing.
pub open spec fn boundary_slots(size: usize) -> nat {
    if size > 0 {
        (size + 4) as nat
    } else {
        0
    }
}

/// `pos` is a position that a lattice of `size` token boundaries can be
/// asked about.
pub open spec fn admits(size: usize, pos: usize) -> bool {
    size > 0 && pos < size + 4
}

/// What a lattice holds, as the analyser reports it.
pub struct LatticeModel {
    /// The nodes and edges.
    pub arena: Arena,
    /// Number of token boundary positions of the latest analysis.
    pub size: usize,
    /// Whether a completed analysis is held.
    pub available: bool,
    /// Address of the node that begins the sentence, or null.
    pub bos: usize,
    /// Address of the node that ends the sentence, or null.
    pub eos: usize,
    /// For each position, the first node that begins there, or null.
    pub begin: Seq<usize>,
    /// For each position, the first node that ends there, or null.
    pub end: Seq<usize>,
}

/// The parts can stand for the state of one lattice: every address is null
/// or a node of the arena, there is one entry for each position that the
/// size admits, and a lattice that holds a result has both end nodes.
pub open spec fn state_consistent(m: LatticeModel) -> bool {
    &&& m.size + 4 <= usize::MAX
    &&& resolves(node_addrs(m.arena.nodes()), m.bos)
    &&& resolves(node_addrs(m.arena.nodes()), m.eos)
    &&& m.available ==> m.bos != 0 && m.eos != 0
    &&& m.begin.len() == boundary_slots(m.size)
    &&& m.end.len() == boundary_slots(m.size)
    &&& forall|i: int| 0 <= i < m.begin.len() ==> resolves(node_addrs(m.arena.nodes()), #[trigger] m.begin[i])
    &&& forall|i: int| 0 <= i < m.end.len() ==> resolves(node_addrs(m.arena.nodes()), #[trigger] m.end[i])
}

/// The lattice holds nothing.
pub open spec fn is_blank(m: LatticeModel) -> bool {
    &&& m.arena.nodes().len() == 0
    &&& m.arena.paths().len() == 0
    &&& m.size == 0
    &&& !m.available
    &&& m.bos == 0
    &&& m.eos == 0
    &&& m.begin.len() == 0
    &&& m.end.len() == 0
}

/// A lattice that holds nothing admits no position.
pub proof fn lemma_blank_admits_nothing(m: LatticeModel, pos: usize)
    requires
        is_blank(m),
    ensures
        !admits(m.size, pos),
{
}

/// How many positions a lattice of `size` token boundaries can be asked
/// about: the number of entries that the analyser keeps for it.
pub fn slot_count(size: usize) -> (r: usize)
    requires
        size + 4 <= usize::MAX,
    ensures
        r == boundary_slots(size),
{
    if size > 0 {
        size + 4
    } else {
        0
    }
}

fn all_resolve(arena: &Arena, links: &Vec<usize>) -> (r: bool)
    ensures
        r == forall|i: int| 0 <= i < links@.len() ==> resolves(node_addrs(arena.nodes()), #[trigger] links@[i]),
{
    let mut i: usize = 0;
    while i < links.len()
        invariant
            0 <= i <= links.len(),
            forall|k: int| 0 <= k < i ==> resolves(node_addrs(arena.nodes()), #[trigger] links@[k]),
        decreases links.len() - i,
    {
        let link = links[i];
        if link != 0 && arena.find_node(link).is_none() {
            assert(!resolves(node_addrs(arena.nodes()), links@[i as int]));
            return false;
        }
        i += 1;
    }
    true
}

/// A checked copy of the state of a lattice.
#[derive(Debug)]
pub struct LatticeState {
    arena: Arena,
    size: usize,
    available: bool,
    bos: usize,
    eos: usize,
    begin: Vec<usize>,
    end: Vec<usize>,
}

impl View for LatticeState {
    type V = LatticeModel;

    closed spec fn view(&self) -> LatticeModel {
        LatticeModel {
            arena: self.arena,
            size: self.size,
            available: self.available,
            bos: self.bos,
            eos: self.eos,
            begin: self.begin@,
            end: self.end@,
        }
    }
}

impl LatticeState {
    /// The invariant of every state.
    #[verifier::type_invariant]
    pub closed spec fn wf(self) -> bool {
        self.arena.wf() && state_consistent(self@)
    }

    /// The state of a lattice that holds nothing.
    pub fn blank() -> (r: LatticeState)
        ensures
            r.wf(),
            is_blank(r@),
    {
        LatticeState {
            arena: Arena::empty(),
            size: 0,
            available: false,
            bos: 0,
            eos: 0,
            begin: Vec::new(),
            end: Vec::new(),
        }
    }

    /// Takes what the analyser reports of a lattice. Succeeds exactly when
    /// the parts are consistent.
    pub fn new(
        arena: Arena,
        size: usize,
        available: bool,
        bos: usize,
        eos: usize,
        begin: Vec<usize>,
        end: Vec<usize>,
    ) -> (r: Option<LatticeState>)
        ensures
            r is Some <==> state_consistent(
                (LatticeModel { arena, size, available, bos, eos, begin: begin@, end: end@ }),
            ),
            r is Some ==> r->0.wf() && r->0@ == (LatticeModel {
                arena,
                size,
                available,
                bos,
                eos,
                begin: begin@,
                end: end@,
            }),
    {
        proof {
            use_type_invariant(&arena);
        }
        if size > usize::MAX - 4 {
            return None;
        }
        let slots = slot_count(size);
        if begin.len() != slots || end.len() != slots {
            return None;
        }
        if bos != 0 && arena.find_node(bos).is_none() {
            return None;
        }
        if eos != 0 && arena.find_node(eos).is_none() {
            return None;
        }
        if available && (bos == 0 || eos == 0) {
            return None;
        }
        if !all_resolve(&arena, &begin) || !all_resolve(&arena, &end) {
            return None;
        }
        Some(LatticeState { arena, size, available, bos, eos, begin, end })
    }
}

/// The handle of one lattice. It owns what the lattice holds: a view of a
/// node borrows the handle, and the handle cannot be cleared or refreshed
/// while such a view is alive.
#[derive(Debug)]
pub struct Lattice {
    addr: usize,
    state: LatticeState,
}

impl View for Lattice {
    type V = LatticeModel;

    closed spec fn view(&self) -> LatticeModel {
        self.state@
    }
}

impl Lattice {
    /// The invariant of every handle: it is not null, and what it holds is
    /// consistent.
    #[verifier::type_invariant]
    pub closed spec fn wf(self) -> bool {
        self.addr != 0 && self.state.wf()
    }

    /// The address of the analyser's lattice.
    pub closed spec fn addr(&self) -> usize {
        self.addr
    }

    /// The handle for the lattice that the analyser made at `ptr`. The
    /// lattice holds nothing yet.
    pub fn new(ptr: usize) -> (r: Lattice)
        requires
            ptr != 0,
        ensures
            r.wf(),
            r.addr() == ptr,
            is_blank(r@),
    {
        Lattice { addr: ptr, state: LatticeState::blank() }
    }

    /// The handle for the lattice at `ptr`, or nothing where `ptr` is null.
    pub fn from_ptr(ptr: usize) -> (r: Option<Lattice>)
        ensures
            r is Some <==> ptr != 0,
            r is Some ==> r->0.wf() && r->0.addr() == ptr && is_blank(r->0@),
    {
        if ptr == 0 {
            None
        } else {
            Some(Lattice::new(ptr))
        }
    }

    /// The handle for the lattice at `ptr`, for a caller who knows that
    /// `ptr` is not null.
    pub fn from_ptr_unchecked(ptr: usize) -> (r: Lattice)
        requires
            ptr != 0,
        ensures
            r.wf(),
            r.addr() == ptr,
            is_blank(r@),
    {
        Lattice::new(ptr)
    }

    /// The address of the analyser's lattice. Never null.
    pub fn as_ptr(&self) -> (r: usize)
        ensures
            r == self.addr(),
            r != 0,
    {
        proof {
            use_type_invariant(self);
        }
        self.addr
    }

    /// Takes over what the analyser now reports of this lattice.
    pub fn refresh(&mut self, state: LatticeState)
        ensures
            final(self).wf(),
            final(self).addr() == old(self).addr(),
            final(self)@ == state@,
    {
        proof {
            use_type_invariant(&*self);
            use_type_invariant(&state);
        }
        self.state = state;
    }

    /// Empties the lattice. Every view of a node or an edge that was taken
    /// from it has ended before this call.
    pub fn clear(&mut self)
        ensures
            final(self).wf(),
            final(self).addr() == old(self).addr(),
            is_blank(final(self)@),
    {
        proof {
            use_type_invariant(&*self);
        }
        self.state = LatticeState::blank();
    }

    /// Whether the lattice holds a completed analysis.
    pub fn is_available(&self) -> (r: bool)
        ensures
            r == self@.available,
    {
        self.state.available
    }

    /// Number of token boundary positions of the latest analysis: zero
    /// before any analysis.
    pub fn size(&self) -> (r: usize)
        ensures
            r == self@.size,
            r + 4 <= usize::MAX,
    {
        proof {
            use_type_invariant(self);
            use_type_invariant(&self.state);
        }
        self.state.size
    }

    /// Whether `pos` is a position that this lattice can be asked about.
    pub fn in_range(&self, pos: usize) -> (r: bool)
        ensures
            r == admits(self@.size, pos),
    {
        let size = self.size();
        size > 0 && pos < size + 4
    }

    /// The node that begins the sentence. It is there whenever the lattice
    /// holds a result.
    pub fn bos_node(&self) -> (r: Option<Node<'_>>)
        ensures
            node_for(self@.arena, self@.bos, r),
            self@.available ==> r is Some,
    {
        proof {
            use_type_invariant(self);
            use_type_invariant(&self.state);
        }
        Node::at_link(&self.state.arena, self.state.bos)
    }

    /// The node that ends the sentence. It is there whenever the lattice
    /// holds a result.
    pub fn eos_node(&self) -> (r: Option<Node<'_>>)
        ensures
            node_for(self@.arena, self@.eos, r),
            self@.available ==> r is Some,
    {
        proof {
            use_type_invariant(self);
            use_type_invariant(&self.state);
        }
        Node::at_link(&self.state.arena, self.state.eos)
    }

    /// The first node that begins at `pos`.
    pub fn begin_nodes(&self, pos: usize) -> (r: Option<Node<'_>>)
        requires
            admits(self@.size, pos),
        ensures
            node_for(self@.arena, self@.begin[pos as int], r),
    {
        proof {
            use_type_invariant(self);
            use_type_invariant(&self.state);
        }
        Node::at_link(&self.state.arena, self.state.begin[pos])
    }

    /// The first node that ends at `pos`.
    pub fn end_nodes(&self, pos: usize) -> (r: Option<Node<'_>>)
        requires
            admits(self@.size, pos),
        ensures
            node_for(self@.arena, self@.end[pos as int], r),
    {
        proof {
            use_type_invariant(self);
            use_type_invariant(&self.state);
        }
        Node::at_link(&self.state.arena, self.state.end[pos])
    }

    /// For every position that the lattice can be asked about, the first
    /// node that begins there.
    pub fn all_begin_nodes(&self) -> (r: Vec<Option<Node<'_>>>)
        ensures
            r@.len() == boundary_slots(self@.size),
            forall|i: int| 0 <= i < r@.len() ==> node_for(self@.arena, self@.begin[i], #[trigger] r@[i]),
    {
        proof {
            use_type_invariant(self);
            use_type_invariant(&self.state);
        }
        let mut out: Vec<Option<Node<'_>>> = Vec::new();
        let mut i: usize = 0;
        while i < self.state.begin.len()
            invariant
                self.wf(),
                0 <= i <= self.state.begin.len(),
                out@.len() == i,
                forall|k: int| 0 <= k < i ==> node_for(self@.arena, self@.begin[k], #[trigger] out@[k]),
            decreases self.state.begin.len() - i,
        {
            let node = Node::at_link(&self.state.arena, self.state.begin[i]);
            out.push(node);
            i += 1;
        }
        out
    }

    /// For every position that the lattice can be asked about, the first
    /// node that ends there.
    pub fn all_end_nodes(&self) -> (r: Vec<Option<Node<'_>>>)
        ensures
            r@.len() == boundary_slots(self@.size),
            forall|i: int| 0 <= i < r@.len() ==> node_for(self@.arena, self@.end[i], #[trigger] r@[i]),
    {
        proof {
            use_type_invariant(self);
            use_type_invariant(&self.state);
        }
        let mut out: Vec<Option<Node<'_>>> = Vec::new();
        let mut i: usize = 0;
        while i < self.state.end.len()
            invariant
                self.wf(),
                0 <= i <= self.state.end.len(),
                out@.len() == i,
                forall|k: int| 0 <= k < i ==> node_for(self@.arena, self@.end[k], #[trigger] out@[k]),
            decreases self.state.end.len() - i,
        {
            let node = Node::at_link(&self.state.arena, self.state.end[i]);
            out.push(node);
            i += 1;
        }
        out
    }

    /// The node at `addr`, if the lattice holds one there.
    pub fn node(&self, addr: usize) -> (r: Option<Node<'_>>)
        ensures
            r is Some <==> self@.arena.has_node(addr),
            r is Some ==> node_for(self@.arena, addr, r),
    {
        Node::from_ptr(&self.state.arena, addr)
    }
}

} // verus!

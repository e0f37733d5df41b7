//! Read-only views of the nodes and edges of an arena.
//!
//! A view borrows its arena, so it cannot outlive it, and whatever owns the
//! arena cannot change it while a view is alive.

use vstd::prelude::*;
use vstd::utf8::{decode_utf8, valid_utf8};
use crate::arena::{node_addrs, path_addrs, resolves, Arena};
use crate::record::{node_status_of, NodeRecord, NodeStatus, PathRecord};
use crate::text::from_utf8;

verus! {

/// The text that `bytes` hold: absent where there are no bytes, and where
/// they are not UTF-8.
pub open spec fn text_of(bytes: Option<Vec<u8>>) -> Option<Seq<char>> {
    match bytes {
        Some(b) => if valid_utf8(b@) {
            Some(decode_utf8(b@))
        } else {
            None
        },
        None => None,
    }
}

/// The bytes of an optional buffer.
pub open spec fn bytes_of(bytes: Option<Vec<u8>>) -> Option<Seq<u8>> {
    match bytes {
        Some(b) => Some(b@),
        None => None,
    }
}

/// The view of an optional byte slice.
pub open spec fn slice_view(r: Option<&[u8]>) -> Option<Seq<u8>> {
    match r {
        Some(b) => Some(b@),
        None => None,
    }
}

/// The view of an optional text.
pub open spec fn str_view(r: Option<&str>) -> Option<Seq<char>> {
    match r {
        Some(s) => Some(s@),
        None => None,
    }
}

fn optional_bytes(bytes: &Option<Vec<u8>>) -> (r: Option<&[u8]>)
    ensures
        slice_view(r) == bytes_of(*bytes),
{
    match bytes {
        Some(b) => Some(b.as_slice()),
        None => None,
    }
}

fn optional_text(bytes: &Option<Vec<u8>>) -> (r: Option<&str>)
    ensures
        str_view(r) == text_of(*bytes),
{
    match bytes {
        Some(b) => match from_utf8(b.as_slice()) {
            Ok(s) => Some(s),
            Err(_) => None,
        },
        None => None,
    }
}

/// One node of an arena.
#[derive(Debug, Clone, Copy)]
pub struct Node<'a> {
    arena: &'a Arena,
    slot: usize,
}

/// One edge of an arena.
#[derive(Debug, Clone, Copy)]
pub struct Path<'a> {
    arena: &'a Arena,
    slot: usize,
}

impl<'a> View for Node<'a> {
    type V = NodeRecord;

    closed spec fn view(&self) -> NodeRecord {
        self.arena.nodes()[self.slot as int]
    }
}

impl<'a> View for Path<'a> {
    type V = PathRecord;

    closed spec fn view(&self) -> PathRecord {
        self.arena.paths()[self.slot as int]
    }
}

/// `r` is what the link `link` gives in `arena`: nothing for the null link,
/// else the node of `arena` that lives at `link`.
pub open spec fn node_for(arena: Arena, link: usize, r: Option<Node<'_>>) -> bool {
    match r {
        None => link == 0,
        Some(n) => {
            &&& link != 0
            &&& n.wf()
            &&& n.arena() == arena
            &&& n@ == arena.node_at(link)
            &&& n@.addr == link
        },
    }
}

/// `r` is what the link `link` gives in `arena`: nothing for the null link,
/// else the edge of `arena` that lives at `link`.
pub open spec fn path_for(arena: Arena, link: usize, r: Option<Path<'_>>) -> bool {
    match r {
        None => link == 0,
        Some(p) => {
            &&& link != 0
            &&& p.wf()
            &&& p.arena() == arena
            &&& p@ == arena.path_at(link)
            &&& p@.addr == link
        },
    }
}

impl<'a> Node<'a> {
    /// The invariant of every view: it shows a node of its arena.
    #[verifier::type_invariant]
    pub closed spec fn wf(self) -> bool {
        self.arena.wf() && self.slot < self.arena.nodes().len()
    }

    /// The arena that this node belongs to.
    pub closed spec fn arena(&self) -> Arena {
        *self.arena
    }

    /// A view shows the record that its arena holds at the view's address,
    /// and each of its links is null or leads to a record of that arena.
    pub proof fn lemma_in_arena(self)
        requires
            self.wf(),
        ensures
            self.arena().wf(),
            self@.addr != 0,
            self.arena().has_node(self@.addr),
            self.arena().node_at(self@.addr) == self@,
            resolves(node_addrs(self.arena().nodes()), self@.prev),
            resolves(node_addrs(self.arena().nodes()), self@.next),
            resolves(node_addrs(self.arena().nodes()), self@.enext),
            resolves(node_addrs(self.arena().nodes()), self@.bnext),
            resolves(path_addrs(self.arena().paths()), self@.rpath),
            resolves(path_addrs(self.arena().paths()), self@.lpath),
            self@.surface is Some ==> self@.surface->0@.len() == self@.length,
            node_status_of(self@.stat) is Some,
    {
        self.arena.lemma_consistent();
        self.arena.lemma_node_slot(self.slot as int);
    }

    /// The node of `arena` at `addr`. There is none at the null address, nor
    /// at an address that the arena does not know.
    pub fn from_ptr(arena: &'a Arena, addr: usize) -> (r: Option<Node<'a>>)
        ensures
            r is Some <==> arena.has_node(addr),
            r is Some ==> r->0.wf() && r->0.arena() == *arena && r->0@ == arena.node_at(addr)
                && r->0@.addr == addr,
            addr == 0 ==> r is None,
    {
        proof {
            use_type_invariant(arena);
            if arena.has_node(0) {
                let i = choose|i: int| 0 <= i < node_addrs(arena.nodes()).len() && node_addrs(arena.nodes())[i] == 0;
                arena.lemma_node_slot(i);
            }
        }
        match arena.find_node(addr) {
            Some(slot) => Some(Node { arena, slot }),
            None => None,
        }
    }

    /// The node of `arena` at `addr`, for a caller who knows that one lives
    /// there.
    pub fn from_ptr_unchecked(arena: &'a Arena, addr: usize) -> (r: Node<'a>)
        requires
            arena.has_node(addr),
        ensures
            r.wf(),
            r.arena() == *arena,
            r@ == arena.node_at(addr),
            r@.addr == addr,
    {
        proof {
            use_type_invariant(arena);
        }
        let slot = arena.find_node(addr).unwrap();
        Node { arena, slot }
    }

    /// What the link `link` gives in `arena`, for a link that is null or
    /// leads to a node of the arena.
    pub fn at_link(arena: &'a Arena, link: usize) -> (r: Option<Node<'a>>)
        requires
            resolves(node_addrs(arena.nodes()), link),
        ensures
            node_for(*arena, link, r),
    {
        if link == 0 {
            None
        } else {
            let r = Node::from_ptr(arena, link);
            r
        }
    }

    fn record(&self) -> (r: &'a NodeRecord)
        ensures
            *r == self@,
            self.wf(),
    {
        proof {
            use_type_invariant(self);
        }
        self.arena.node_record(self.slot)
    }

    /// The address at which the analyser holds this node. Never null.
    pub fn as_ptr(&self) -> (r: usize)
        ensures
            r == self@.addr,
            r != 0,
    {
        let record = self.record();
        proof {
            self.lemma_in_arena();
        }
        record.addr
    }

    /// The node before this one on the path.
    pub fn prev(&self) -> (r: Option<Node<'a>>)
        ensures
            node_for(self.arena(), self@.prev, r),
    {
        let record = self.record();
        proof {
            self.lemma_in_arena();
        }
        Node::at_link(self.arena, record.prev)
    }

    /// The node after this one on the path.
    pub fn next(&self) -> (r: Option<Node<'a>>)
        ensures
            node_for(self.arena(), self@.next, r),
    {
        let record = self.record();
        proof {
            self.lemma_in_arena();
        }
        Node::at_link(self.arena, record.next)
    }

    /// The next node that ends where this one ends.
    pub fn enext(&self) -> (r: Option<Node<'a>>)
        ensures
            node_for(self.arena(), self@.enext, r),
    {
        let record = self.record();
        proof {
            self.lemma_in_arena();
        }
        Node::at_link(self.arena, record.enext)
    }

    /// The next node that begins where this one begins.
    pub fn bnext(&self) -> (r: Option<Node<'a>>)
        ensures
            node_for(self.arena(), self@.bnext, r),
    {
        let record = self.record();
        proof {
            self.lemma_in_arena();
        }
        Node::at_link(self.arena, record.bnext)
    }

    /// The first edge to the right. Absent when no edges are recorded.
    pub fn rpath(&self) -> (r: Option<Path<'a>>)
        ensures
            path_for(self.arena(), self@.rpath, r),
    {
        let record = self.record();
        proof {
            self.lemma_in_arena();
        }
        Path::at_link(self.arena, record.rpath)
    }

    /// The first edge to the left. Absent when no edges are recorded.
    pub fn lpath(&self) -> (r: Option<Path<'a>>)
        ensures
            path_for(self.arena(), self@.lpath, r),
    {
        let record = self.record();
        proof {
            self.lemma_in_arena();
        }
        Path::at_link(self.arena, record.lpath)
    }

    /// The surface form as bytes: exactly as many as `length` says.
    pub fn surface_bytes(&self) -> (r: Option<&'a [u8]>)
        ensures
            slice_view(r) == bytes_of(self@.surface),
            r is Some ==> r->0@.len() == self@.length,
    {
        let record = self.record();
        proof {
            self.lemma_in_arena();
        }
        optional_bytes(&record.surface)
    }

    /// The surface form as text. Absent where the node has no surface, and
    /// where its bytes are not UTF-8.
    pub fn surface(&self) -> (r: Option<&'a str>)
        ensures
            str_view(r) == text_of(self@.surface),
    {
        optional_text(&self.record().surface)
    }

    /// The feature string as bytes.
    pub fn feature_bytes(&self) -> (r: Option<&'a [u8]>)
        ensures
            slice_view(r) == bytes_of(self@.feature),
    {
        optional_bytes(&self.record().feature)
    }

    /// The feature string as text. Absent where the node has none, and where
    /// its bytes are not UTF-8.
    pub fn feature(&self) -> (r: Option<&'a str>)
        ensures
            str_view(r) == text_of(self@.feature),
    {
        optional_text(&self.record().feature)
    }

    /// The node's unique number.
    pub fn id(&self) -> (r: u32)
        ensures
            r == self@.id,
    {
        self.record().id
    }

    /// Byte length of the surface form.
    pub fn length(&self) -> (r: u16)
        ensures
            r == self@.length,
    {
        self.record().length
    }

    /// Byte length of the surface form with the white space before it.
    pub fn rlength(&self) -> (r: u16)
        ensures
            r == self@.rlength,
    {
        self.record().rlength
    }

    /// Right attribute id.
    #[allow(non_snake_case)]
    pub fn rcAttr(&self) -> (r: u16)
        ensures
            r == self@.rcAttr,
    {
        self.record().rcAttr
    }

    /// Left attribute id.
    #[allow(non_snake_case)]
    pub fn lcAttr(&self) -> (r: u16)
        ensures
            r == self@.lcAttr,
    {
        self.record().lcAttr
    }

    /// Part-of-speech id.
    pub fn posid(&self) -> (r: u16)
        ensures
            r == self@.posid,
    {
        self.record().posid
    }

    /// Character type.
    pub fn char_type(&self) -> (r: u8)
        ensures
            r == self@.char_type,
    {
        self.record().char_type
    }

    /// Status code: one of the `MECAB_*_NODE` constants.
    pub fn stat(&self) -> (r: u8)
        ensures
            r == self@.stat,
    {
        self.record().stat
    }

    /// The status of the node.
    pub fn status(&self) -> (r: NodeStatus)
        ensures
            node_status_of(self@.stat) == Some(r),
    {
        let record = self.record();
        proof {
            self.lemma_in_arena();
        }
        NodeStatus::from_code(record.stat).unwrap()
    }

    /// Whether the node is on the best path.
    pub fn isbest(&self) -> (r: bool)
        ensures
            r == (self@.isbest != 0),
    {
        self.record().isbest != 0
    }

    /// Forward log summation, as the bits of a 32-bit float.
    pub fn alpha_bits(&self) -> (r: u32)
        ensures
            r == self@.alpha_bits,
    {
        self.record().alpha_bits
    }

    /// Backward log summation, as the bits of a 32-bit float.
    pub fn beta_bits(&self) -> (r: u32)
        ensures
            r == self@.beta_bits,
    {
        self.record().beta_bits
    }

    /// Marginal probability, as the bits of a 32-bit float.
    pub fn prob_bits(&self) -> (r: u32)
        ensures
            r == self@.prob_bits,
    {
        self.record().prob_bits
    }

    /// Word cost.
    pub fn wcost(&self) -> (r: i16)
        ensures
            r == self@.wcost,
    {
        self.record().wcost
    }

    /// Best accumulated cost from the beginning of the sentence.
    pub fn cost(&self) -> (r: i64)
        ensures
            r == self@.cost,
    {
        self.record().cost
    }
}

impl<'a> Path<'a> {
    /// The invariant of every view: it shows an edge of its arena.
    #[verifier::type_invariant]
    pub closed spec fn wf(self) -> bool {
        self.arena.wf() && self.slot < self.arena.paths().len()
    }

    /// The arena that this edge belongs to.
    pub closed spec fn arena(&self) -> Arena {
        *self.arena
    }

    /// A view shows the record that its arena holds at the view's address,
    /// and each of its links is null or leads to a record of that arena.
    pub proof fn lemma_in_arena(self)
        requires
            self.wf(),
        ensures
            self.arena().wf(),
            self@.addr != 0,
            self.arena().has_path(self@.addr),
            self.arena().path_at(self@.addr) == self@,
            resolves(node_addrs(self.arena().nodes()), self@.rnode),
            resolves(path_addrs(self.arena().paths()), self@.rnext),
            resolves(node_addrs(self.arena().nodes()), self@.lnode),
            resolves(path_addrs(self.arena().paths()), self@.lnext),
    {
        self.arena.lemma_consistent();
        self.arena.lemma_path_slot(self.slot as int);
    }

    /// The edge of `arena` at `addr`. There is none at the null address, nor
    /// at an address that the arena does not know.
    pub fn from_ptr(arena: &'a Arena, addr: usize) -> (r: Option<Path<'a>>)
        ensures
            r is Some <==> arena.has_path(addr),
            r is Some ==> r->0.wf() && r->0.arena() == *arena && r->0@ == arena.path_at(addr)
                && r->0@.addr == addr,
            addr == 0 ==> r is None,
    {
        proof {
            use_type_invariant(arena);
            if arena.has_path(0) {
                let i = choose|i: int| 0 <= i < path_addrs(arena.paths()).len() && path_addrs(arena.paths())[i] == 0;
                arena.lemma_path_slot(i);
            }
        }
        match arena.find_path(addr) {
            Some(slot) => Some(Path { arena, slot }),
            None => None,
        }
    }

    /// The edge of `arena` at `addr`, for a caller who knows that one lives
    /// there.
    pub fn from_ptr_unchecked(arena: &'a Arena, addr: usize) -> (r: Path<'a>)
        requires
            arena.has_path(addr),
        ensures
            r.wf(),
            r.arena() == *arena,
            r@ == arena.path_at(addr),
            r@.addr == addr,
    {
        proof {
            use_type_invariant(arena);
        }
        let slot = arena.find_path(addr).unwrap();
        Path { arena, slot }
    }

    /// What the link `link` gives in `arena`, for a link that is null or
    /// leads to an edge of the arena.
    pub fn at_link(arena: &'a Arena, link: usize) -> (r: Option<Path<'a>>)
        requires
            resolves(path_addrs(arena.paths()), link),
        ensures
            path_for(*arena, link, r),
    {
        if link == 0 {
            None
        } else {
            let r = Path::from_ptr(arena, link);
            r
        }
    }

    fn record(&self) -> (r: &'a PathRecord)
        ensures
            *r == self@,
            self.wf(),
    {
        proof {
            use_type_invariant(self);
        }
        self.arena.path_record(self.slot)
    }

    /// The address at which the analyser holds this edge. Never null.
    pub fn as_ptr(&self) -> (r: usize)
        ensures
            r == self@.addr,
            r != 0,
    {
        let record = self.record();
        proof {
            self.lemma_in_arena();
        }
        record.addr
    }

    /// The node on the right.
    pub fn rnode(&self) -> (r: Option<Node<'a>>)
        ensures
            node_for(self.arena(), self@.rnode, r),
    {
        let record = self.record();
        proof {
            self.lemma_in_arena();
        }
        Node::at_link(self.arena, record.rnode)
    }

    /// The next edge with the same left node.
    pub fn rnext(&self) -> (r: Option<Path<'a>>)
        ensures
            path_for(self.arena(), self@.rnext, r),
    {
        let record = self.record();
        proof {
            self.lemma_in_arena();
        }
        Path::at_link(self.arena, record.rnext)
    }

    /// The node on the left.
    pub fn lnode(&self) -> (r: Option<Node<'a>>)
        ensures
            node_for(self.arena(), self@.lnode, r),
    {
        let record = self.record();
        proof {
            self.lemma_in_arena();
        }
        Node::at_link(self.arena, record.lnode)
    }

    /// The next edge with the same right node.
    pub fn lnext(&self) -> (r: Option<Path<'a>>)
        ensures
            path_for(self.arena(), self@.lnext, r),
    {
        let record = self.record();
        proof {
            self.lemma_in_arena();
        }
        Path::at_link(self.arena, record.lnext)
    }

    /// Local cost.
    pub fn cost(&self) -> (r: i32)
        ensures
            r == self@.cost,
    {
        self.record().cost
    }

    /// Marginal probability, as the bits of a 32-bit float.
    pub fn prob_bits(&self) -> (r: u32)
        ensures
            r == self@.prob_bits,
    {
        self.record().prob_bits
    }
}

} // verus!

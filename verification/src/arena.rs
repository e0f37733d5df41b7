//! A checked copy of what a lattice holds: its nodes and its edges.
//!
//! An arena stands for the memory that the analyser owns on behalf of one
//! lattice. It is built once from the records found there; building checks
//! that every link leads to a record of the arena or is null. A view into
//! the arena can then follow any link without a test of its own.

use vstd::prelude::*;
use crate::index::{distinct_nonzero, indexes, AddressIndex};
use crate::record::{node_status_of, NodeRecord, NodeStatus, PathRecord};

verus! {

/// The addresses of `nodes`, in their order.
pub open spec fn node_addrs(nodes: Seq<NodeRecord>) -> Seq<usize> {
    Seq::new(nodes.len(), |i: int| nodes[i].addr)
}

/// The addresses of `paths`, in their order.
pub open spec fn path_addrs(paths: Seq<PathRecord>) -> Seq<usize> {
    Seq::new(paths.len(), |i: int| paths[i].addr)
}

/// `link` is null or one of `addrs`.
pub open spec fn resolves(addrs: Seq<usize>, link: usize) -> bool {
    link == 0 || addrs.contains(link)
}

/// Every link of `n` is null or leads to a record.
pub open spec fn node_links_resolve(n: NodeRecord, nodes: Seq<usize>, paths: Seq<usize>) -> bool {
    &&& resolves(nodes, n.prev)
    &&& resolves(nodes, n.next)
    &&& resolves(nodes, n.enext)
    &&& resolves(nodes, n.bnext)
    &&& resolves(paths, n.rpath)
    &&& resolves(paths, n.lpath)
}

/// Every link of `p` is null or leads to a record.
pub open spec fn path_links_resolve(p: PathRecord, nodes: Seq<usize>, paths: Seq<usize>) -> bool {
    &&& resolves(nodes, p.rnode)
    &&& resolves(paths, p.rnext)
    &&& resolves(nodes, p.lnode)
    &&& resolves(paths, p.lnext)
}

/// The surface bytes of `n`, where it has any, are as many as its `length`
/// says.
pub open spec fn surface_fits(n: NodeRecord) -> bool {
    n.surface is Some ==> n.surface->0@.len() == n.length
}

/// The status code of `n` is one of the known ones.
pub open spec fn status_known(n: NodeRecord) -> bool {
    node_status_of(n.stat) is Some
}

/// The records can stand for one lattice: no address is null or used twice,
/// every link resolves, every surface has its recorded length, and every
/// status code is known.
pub open spec fn consistent(nodes: Seq<NodeRecord>, paths: Seq<PathRecord>) -> bool {
    &&& distinct_nonzero(node_addrs(nodes))
    &&& distinct_nonzero(path_addrs(paths))
    &&& forall|i: int|
        0 <= i < nodes.len() ==> node_links_resolve(
            #[trigger] nodes[i],
            node_addrs(nodes),
            path_addrs(paths),
        ) && surface_fits(nodes[i]) && status_known(nodes[i])
    &&& forall|i: int|
        0 <= i < paths.len() ==> path_links_resolve(
            #[trigger] paths[i],
            node_addrs(nodes),
            path_addrs(paths),
        )
}

/// An index knows exactly the addresses that it was built from.
pub proof fn lemma_index_contains(m: Map<usize, usize>, addrs: Seq<usize>, a: usize)
    requires
        indexes(m, addrs),
    ensures
        m.contains_key(a) <==> addrs.contains(a),
{
    if m.contains_key(a) {
        assert(addrs[m[a] as int] == a);
    }
    if addrs.contains(a) {
        let i = choose|i: int| 0 <= i < addrs.len() && addrs[i] == a;
        assert(m.contains_key(addrs[i]));
    }
}

fn collect_node_addrs(nodes: &Vec<NodeRecord>) -> (r: Vec<usize>)
    ensures
        r@ == node_addrs(nodes@),
{
    let mut out: Vec<usize> = Vec::new();
    let mut i: usize = 0;
    while i < nodes.len()
        invariant
            0 <= i <= nodes.len(),
            out@.len() == i,
            forall|k: int| 0 <= k < i ==> out@[k] == nodes@[k].addr,
        decreases nodes.len() - i,
    {
        out.push(nodes[i].addr);
        i += 1;
    }
    assert(out@ =~= node_addrs(nodes@));
    out
}

fn collect_path_addrs(paths: &Vec<PathRecord>) -> (r: Vec<usize>)
    ensures
        r@ == path_addrs(paths@),
{
    let mut out: Vec<usize> = Vec::new();
    let mut i: usize = 0;
    while i < paths.len()
        invariant
            0 <= i <= paths.len(),
            out@.len() == i,
            forall|k: int| 0 <= k < i ==> out@[k] == paths@[k].addr,
        decreases paths.len() - i,
    {
        out.push(paths[i].addr);
        i += 1;
    }
    assert(out@ =~= path_addrs(paths@));
    out
}

fn link_resolves(index: &AddressIndex, link: usize, Ghost(addrs): Ghost<Seq<usize>>) -> (r: bool)
    requires
        indexes(index@, addrs),
    ensures
        r == resolves(addrs, link),
{
    proof {
        lemma_index_contains(index@, addrs, link);
    }
    link == 0 || index.find(link).is_some()
}

fn surface_has_length(n: &NodeRecord) -> (r: bool)
    ensures
        r == surface_fits(*n),
{
    match &n.surface {
        Some(bytes) => bytes.len() == n.length as usize,
        None => true,
    }
}

/// The nodes and edges of one lattice, with every link checked.
#[derive(Debug)]
pub struct Arena {
    nodes: Vec<NodeRecord>,
    paths: Vec<PathRecord>,
    node_index: AddressIndex,
    path_index: AddressIndex,
}

impl Arena {
    /// The node records, in the order in which they were given.
    pub closed spec fn nodes(&self) -> Seq<NodeRecord> {
        self.nodes@
    }

    /// The edge records, in the order in which they were given.
    pub closed spec fn paths(&self) -> Seq<PathRecord> {
        self.paths@
    }

    /// The invariant of every arena.
    #[verifier::type_invariant]
    pub closed spec fn wf(self) -> bool {
        &&& consistent(self.nodes@, self.paths@)
        &&& indexes(self.node_index@, node_addrs(self.nodes@))
        &&& indexes(self.path_index@, path_addrs(self.paths@))
    }

    /// A node lives at `addr`.
    pub open spec fn has_node(&self, addr: usize) -> bool {
        node_addrs(self.nodes()).contains(addr)
    }

    /// An edge lives at `addr`.
    pub open spec fn has_path(&self, addr: usize) -> bool {
        path_addrs(self.paths()).contains(addr)
    }

    /// The position of the node at `addr`.
    pub open spec fn node_slot(&self, addr: usize) -> int {
        choose|i: int| 0 <= i < self.nodes().len() && self.nodes()[i].addr == addr
    }

    /// The position of the edge at `addr`.
    pub open spec fn path_slot(&self, addr: usize) -> int {
        choose|i: int| 0 <= i < self.paths().len() && self.paths()[i].addr == addr
    }

    /// The node at `addr`.
    pub open spec fn node_at(&self, addr: usize) -> NodeRecord
        recommends
            self.has_node(addr),
    {
        self.nodes()[self.node_slot(addr)]
    }

    /// The edge at `addr`.
    pub open spec fn path_at(&self, addr: usize) -> PathRecord
        recommends
            self.has_path(addr),
    {
        self.paths()[self.path_slot(addr)]
    }

    /// What the invariant says of the records.
    pub proof fn lemma_consistent(self)
        requires
            self.wf(),
        ensures
            consistent(self.nodes(), self.paths()),
    {
    }

    /// A node is found at its own address, and null is no node's address.
    pub proof fn lemma_node_slot(self, i: int)
        requires
            self.wf(),
            0 <= i < self.nodes().len(),
        ensures
            self.has_node(self.nodes()[i].addr),
            self.node_slot(self.nodes()[i].addr) == i,
            self.nodes()[i].addr != 0,
            !self.has_node(0),
    {
        let addrs = node_addrs(self.nodes());
        assert(addrs[i] == self.nodes()[i].addr);
        let j = self.node_slot(self.nodes()[i].addr);
        if j != i {
            assert(addrs[j] == addrs[i]);
        }
        if self.has_node(0) {
            let k = choose|k: int| 0 <= k < addrs.len() && addrs[k] == 0;
            assert(addrs[k] != 0);
        }
    }

    /// An edge is found at its own address, and null is no edge's address.
    pub proof fn lemma_path_slot(self, i: int)
        requires
            self.wf(),
            0 <= i < self.paths().len(),
        ensures
            self.has_path(self.paths()[i].addr),
            self.path_slot(self.paths()[i].addr) == i,
            self.paths()[i].addr != 0,
            !self.has_path(0),
    {
        let addrs = path_addrs(self.paths());
        assert(addrs[i] == self.paths()[i].addr);
        let j = self.path_slot(self.paths()[i].addr);
        if j != i {
            assert(addrs[j] == addrs[i]);
        }
        if self.has_path(0) {
            let k = choose|k: int| 0 <= k < addrs.len() && addrs[k] == 0;
            assert(addrs[k] != 0);
        }
    }

    /// An arena without records.
    pub fn empty() -> (r: Arena)
        ensures
            r.wf(),
            r.nodes().len() == 0,
            r.paths().len() == 0,
    {
        let nodes: Vec<NodeRecord> = Vec::new();
        let paths: Vec<PathRecord> = Vec::new();
        let r = Arena::build(nodes, paths);
        r.unwrap()
    }

    /// Takes the records of one lattice. Succeeds exactly when they are
    /// consistent, and then holds them as they were given.
    pub fn build(nodes: Vec<NodeRecord>, paths: Vec<PathRecord>) -> (r: Option<Arena>)
        ensures
            r is Some <==> consistent(nodes@, paths@),
            r is Some ==> r->0.wf() && r->0.nodes() == nodes@ && r->0.paths() == paths@,
    {
        let node_list = collect_node_addrs(&nodes);
        let path_list = collect_path_addrs(&paths);
        let node_index = match AddressIndex::build(&node_list) {
            Some(index) => index,
            None => { return None; },
        };
        let path_index = match AddressIndex::build(&path_list) {
            Some(index) => index,
            None => { return None; },
        };
        let ghost na = node_addrs(nodes@);
        let ghost pa = path_addrs(paths@);
        let mut i: usize = 0;
        while i < nodes.len()
            invariant
                0 <= i <= nodes.len(),
                na == node_addrs(nodes@),
                pa == path_addrs(paths@),
                indexes(node_index@, na),
                indexes(path_index@, pa),
                forall|k: int|
                    0 <= k < i ==> node_links_resolve(#[trigger] nodes@[k], na, pa) && surface_fits(nodes@[k])
                        && status_known(nodes@[k]),
            decreases nodes.len() - i,
        {
            let n = &nodes[i];
            let ok = link_resolves(&node_index, n.prev, Ghost(na))
                && link_resolves(&node_index, n.next, Ghost(na))
                && link_resolves(&node_index, n.enext, Ghost(na))
                && link_resolves(&node_index, n.bnext, Ghost(na))
                && link_resolves(&path_index, n.rpath, Ghost(pa))
                && link_resolves(&path_index, n.lpath, Ghost(pa))
                && surface_has_length(n)
                && NodeStatus::from_code(n.stat).is_some();
            if !ok {
                assert(!(node_links_resolve(nodes@[i as int], na, pa) && surface_fits(nodes@[i as int])
                    && status_known(nodes@[i as int])));
                return None;
            }
            i += 1;
        }
        let mut j: usize = 0;
        while j < paths.len()
            invariant
                0 <= j <= paths.len(),
                na == node_addrs(nodes@),
                pa == path_addrs(paths@),
                indexes(node_index@, na),
                indexes(path_index@, pa),
                forall|k: int| 0 <= k < j ==> path_links_resolve(#[trigger] paths@[k], na, pa),
            decreases paths.len() - j,
        {
            let p = &paths[j];
            let ok = link_resolves(&node_index, p.rnode, Ghost(na))
                && link_resolves(&path_index, p.rnext, Ghost(pa))
                && link_resolves(&node_index, p.lnode, Ghost(na))
                && link_resolves(&path_index, p.lnext, Ghost(pa));
            if !ok {
                assert(!path_links_resolve(paths@[j as int], na, pa));
                return None;
            }
            j += 1;
        }
        Some(Arena { nodes, paths, node_index, path_index })
    }

    /// Number of nodes.
    pub fn node_count(&self) -> (r: usize)
        ensures
            r == self.nodes().len(),
    {
        self.nodes.len()
    }

    /// Number of edges.
    pub fn path_count(&self) -> (r: usize)
        ensures
            r == self.paths().len(),
    {
        self.paths.len()
    }

    /// The position of the node at `addr`, or `None` where no node lives
    /// there.
    pub fn find_node(&self, addr: usize) -> (r: Option<usize>)
        ensures
            r is Some <==> self.has_node(addr),
            r is Some ==> r->0 < self.nodes().len() && r->0 == self.node_slot(addr)
                && self.nodes()[r->0 as int].addr == addr,
    {
        proof {
            use_type_invariant(self);
            lemma_index_contains(self.node_index@, node_addrs(self.nodes@), addr);
        }
        let r = self.node_index.find(addr);
        proof {
            if r is Some {
                assert(node_addrs(self.nodes@)[r->0 as int] == addr);
                self.lemma_node_slot(r->0 as int);
            }
        }
        r
    }

    /// The position of the edge at `addr`, or `None` where no edge lives
    /// there.
    pub fn find_path(&self, addr: usize) -> (r: Option<usize>)
        ensures
            r is Some <==> self.has_path(addr),
            r is Some ==> r->0 < self.paths().len() && r->0 == self.path_slot(addr)
                && self.paths()[r->0 as int].addr == addr,
    {
        proof {
            use_type_invariant(self);
            lemma_index_contains(self.path_index@, path_addrs(self.paths@), addr);
        }
        let r = self.path_index.find(addr);
        proof {
            if r is Some {
                assert(path_addrs(self.paths@)[r->0 as int] == addr);
                self.lemma_path_slot(r->0 as int);
            }
        }
        r
    }

    /// The node record at position `slot`.
    pub fn node_record(&self, slot: usize) -> (r: &NodeRecord)
        requires
            slot < self.nodes().len(),
        ensures
            *r == self.nodes()[slot as int],
    {
        &self.nodes[slot]
    }

    /// The edge record at position `slot`.
    pub fn path_record(&self, slot: usize) -> (r: &PathRecord)
        requires
            slot < self.paths().len(),
        ensures
            *r == self.paths()[slot as int],
    {
        &self.paths[slot]
    }
}

} // verus!

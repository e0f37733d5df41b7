//! Finding a record by the address that the analyser knows it by.

use vstd::prelude::*;
use std::collections::HashMap;

verus! {

broadcast use vstd::std_specs::hash::group_hash_axioms;

/// No address is null and none occurs twice.
pub open spec fn distinct_nonzero(addrs: Seq<usize>) -> bool {
    &&& forall|i: int| 0 <= i < addrs.len() ==> #[trigger] addrs[i] != 0
    &&& forall|i: int, j: int| 0 <= i < j < addrs.len() ==> #[trigger] addrs[i] != #[trigger] addrs[j]
}

/// `m` maps each address of `addrs` to its position, and nothing else.
pub open spec fn indexes(m: Map<usize, usize>, addrs: Seq<usize>) -> bool {
    &&& forall|a: usize| #[trigger] m.contains_key(a) ==> 0 <= m[a] < addrs.len() && addrs[m[a] as int] == a
    &&& forall|i: int| 0 <= i < addrs.len() ==> m.contains_key(#[trigger] addrs[i]) && m[addrs[i]] == i
}

/// Positions of records, keyed by address.
#[derive(Debug)]
pub struct AddressIndex {
    slots: HashMap<usize, usize>,
}

impl View for AddressIndex {
    type V = Map<usize, usize>;

    closed spec fn view(&self) -> Map<usize, usize> {
        self.slots@
    }
}

impl AddressIndex {
    /// Indexes `addrs`. Fails exactly when an address is null or occurs
    /// twice.
    pub fn build(addrs: &Vec<usize>) -> (r: Option<AddressIndex>)
        ensures
            r is Some <==> distinct_nonzero(addrs@),
            r is Some ==> indexes(r->0@, addrs@),
    {
        let mut slots: HashMap<usize, usize> = HashMap::new();
        let mut i: usize = 0;
        while i < addrs.len()
            invariant
                0 <= i <= addrs.len(),
                forall|a: usize| #[trigger] slots@.contains_key(a) ==> 0 <= slots@[a] < i && addrs@[slots@[a] as int] == a,
                forall|k: int| 0 <= k < i ==> slots@.contains_key(#[trigger] addrs@[k]) && slots@[addrs@[k]] == k,
                forall|k: int| 0 <= k < i ==> #[trigger] addrs@[k] != 0,
            decreases addrs.len() - i,
        {
            let addr = addrs[i];
            if addr == 0 {
                return None;
            }
            if slots.contains_key(&addr) {
                proof {
                    let k = slots@[addr] as int;
                    assert(addrs@[k] == addrs@[i as int] && k < i);
                }
                return None;
            }
            slots.insert(addr, i);
            i += 1;
        }
        proof {
            assert forall|k: int, l: int| 0 <= k < l < addrs@.len() implies #[trigger] addrs@[k] != #[trigger] addrs@[l] by {
                if addrs@[k] == addrs@[l] {
                    assert(slots@[addrs@[k]] == k);
                    assert(slots@[addrs@[l]] == l);
                }
            }
        }
        Some(AddressIndex { slots })
    }

    /// The position of the record at `addr`, if there is one.
    pub fn find(&self, addr: usize) -> (r: Option<usize>)
        ensures
            r is Some <==> self@.contains_key(addr),
            r is Some ==> r->0 == self@[addr],
    {
        match self.slots.get(&addr) {
            Some(slot) => Some(*slot),
            None => None,
        }
    }
}

} // verus!

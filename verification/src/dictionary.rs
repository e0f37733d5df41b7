//! What the analyser tells about the dictionaries of a model: a list of
//! records, each linked to the next.

use vstd::prelude::*;
use crate::node::{bytes_of, slice_view};
use crate::record::{DictionaryRecord, MECAB_SYS_DIC, MECAB_UNK_DIC, MECAB_USR_DIC};

verus! {

/// The kind of a dictionary.
#[allow(non_camel_case_types)]
#[derive(Debug, Clone, Copy, PartialEq, Eq, PartialOrd, Ord, Hash)]
pub enum DictionaryType {
    /// A system dictionary.
    MECAB_SYS_DIC,
    /// A user dictionary.
    MECAB_USR_DIC,
    /// A dictionary for unknown words.
    MECAB_UNK_DIC,
}

/// The kind that a code stands for. Only three codes stand for one.
pub open spec fn dictionary_type_of(code: i32) -> Option<DictionaryType> {
    if code == MECAB_SYS_DIC {
        Some(DictionaryType::MECAB_SYS_DIC)
    } else if code == MECAB_USR_DIC {
        Some(DictionaryType::MECAB_USR_DIC)
    } else if code == MECAB_UNK_DIC {
        Some(DictionaryType::MECAB_UNK_DIC)
    } else {
        None
    }
}

impl DictionaryType {
    /// The kind that `code` stands for, if it stands for one.
    pub fn from_code(code: i32) -> (r: Option<DictionaryType>)
        ensures
            r == dictionary_type_of(code),
    {
        if code == MECAB_SYS_DIC {
            Some(DictionaryType::MECAB_SYS_DIC)
        } else if code == MECAB_USR_DIC {
            Some(DictionaryType::MECAB_USR_DIC)
        } else if code == MECAB_UNK_DIC {
            Some(DictionaryType::MECAB_UNK_DIC)
        } else {
            None
        }
    }

    /// The code of this kind.
    pub fn code(self) -> (r: i32)
        ensures
            dictionary_type_of(r) == Some(self),
    {
        match self {
            DictionaryType::MECAB_SYS_DIC => MECAB_SYS_DIC,
            DictionaryType::MECAB_USR_DIC => MECAB_USR_DIC,
            DictionaryType::MECAB_UNK_DIC => MECAB_UNK_DIC,
        }
    }
}

/// The record at position `i` has an address and a known kind, and its link
/// leads to the record after it, or is null at the end.
pub open spec fn link_holds(records: Seq<DictionaryRecord>, i: int) -> bool {
    &&& records[i].addr != 0
    &&& dictionary_type_of(records[i].type_) is Some
    &&& records[i].next == if i + 1 < records.len() {
        records[i + 1].addr
    } else {
        0
    }
}

/// The records form one list, in their order.
pub open spec fn chained(records: Seq<DictionaryRecord>) -> bool {
    forall|i: int| 0 <= i < records.len() ==> #[trigger] link_holds(records, i)
}

/// Some record of `records` lives at `addr`.
pub open spec fn lists(records: Seq<DictionaryRecord>, addr: usize) -> bool {
    exists|i: int| 0 <= i < records.len() && #[trigger] records[i].addr == addr
}

/// `i` is the position of the first record of `records` that lives at
/// `addr`.
pub open spec fn is_first_at(records: Seq<DictionaryRecord>, addr: usize, i: int) -> bool {
    &&& 0 <= i < records.len()
    &&& records[i].addr == addr
    &&& forall|k: int| 0 <= k < i ==> (#[trigger] records[k]).addr != addr
}

/// The dictionaries of a model, first to last.
#[derive(Debug)]
pub struct DictionaryList {
    records: Vec<DictionaryRecord>,
}

impl View for DictionaryList {
    type V = Seq<DictionaryRecord>;

    closed spec fn view(&self) -> Seq<DictionaryRecord> {
        self.records@
    }
}

impl DictionaryList {
    /// The invariant of every list.
    #[verifier::type_invariant]
    pub closed spec fn wf(self) -> bool {
        chained(self.records@)
    }

    /// The list without a record: what a null pointer stands for.
    pub fn empty() -> (r: DictionaryList)
        ensures
            r.wf(),
            r@.len() == 0,
    {
        DictionaryList { records: Vec::new() }
    }

    /// Takes the records of a list in their order. Succeeds exactly when
    /// each has an address and a known kind and is linked to the next.
    pub fn new(records: Vec<DictionaryRecord>) -> (r: Option<DictionaryList>)
        ensures
            r is Some <==> chained(records@),
            r is Some ==> r->0.wf() && r->0@ == records@,
    {
        let mut i: usize = 0;
        while i < records.len()
            invariant
                0 <= i <= records.len(),
                forall|k: int| 0 <= k < i ==> #[trigger] link_holds(records@, k),
            decreases records.len() - i,
        {
            let record = &records[i];
            let after: usize = if i < records.len() - 1 {
                records[i + 1].addr
            } else {
                0
            };
            if record.addr == 0 || DictionaryType::from_code(record.type_).is_none() || record.next != after {
                assert(!link_holds(records@, i as int));
                return None;
            }
            i += 1;
        }
        Some(DictionaryList { records })
    }

    /// Number of dictionaries.
    pub fn len(&self) -> (r: usize)
        ensures
            r == self@.len(),
    {
        self.records.len()
    }

    /// The first dictionary. Absent exactly when the list is empty.
    pub fn head(&self) -> (r: Option<DictionaryInfo<'_>>)
        ensures
            r is Some <==> self@.len() > 0,
            r is Some ==> r->0.wf() && r->0.list() == *self && r->0.position() == 0 && r->0@ == self@[0],
    {
        proof {
            use_type_invariant(self);
        }
        if self.records.len() > 0 {
            Some(DictionaryInfo { list: self, slot: 0 })
        } else {
            None
        }
    }

    fn find(&self, addr: usize) -> (r: Option<usize>)
        ensures
            r is Some <==> lists(self@, addr),
            r is Some ==> is_first_at(self@, addr, r->0 as int),
    {
        let mut i: usize = 0;
        while i < self.records.len()
            invariant
                0 <= i <= self.records.len(),
                forall|k: int| 0 <= k < i ==> (#[trigger] self.records@[k]).addr != addr,
            decreases self.records.len() - i,
        {
            if self.records[i].addr == addr {
                return Some(i);
            }
            i += 1;
        }
        None
    }
}

/// One dictionary of a list.
#[derive(Debug, Clone, Copy)]
pub struct DictionaryInfo<'a> {
    list: &'a DictionaryList,
    slot: usize,
}

impl<'a> View for DictionaryInfo<'a> {
    type V = DictionaryRecord;

    closed spec fn view(&self) -> DictionaryRecord {
        self.list@[self.slot as int]
    }
}

impl<'a> DictionaryInfo<'a> {
    /// The invariant of every view: it shows a record of its list.
    #[verifier::type_invariant]
    pub closed spec fn wf(self) -> bool {
        self.list.wf() && self.slot < self.list@.len()
    }

    /// The list that this record belongs to.
    pub closed spec fn list(&self) -> DictionaryList {
        *self.list
    }

    /// The position of this record in its list.
    pub closed spec fn position(&self) -> int {
        self.slot as int
    }

    /// The first record of `list` at `addr`. There is none at the null
    /// address, nor at an address that the list does not know.
    pub fn from_ptr(list: &'a DictionaryList, addr: usize) -> (r: Option<DictionaryInfo<'a>>)
        ensures
            r is Some <==> lists(list@, addr),
            r is Some ==> r->0.wf() && r->0.list() == *list && r->0@.addr == addr
                && r->0@ == list@[r->0.position()] && is_first_at(list@, addr, r->0.position()),
            addr == 0 ==> r is None,
    {
        proof {
            use_type_invariant(list);
            if lists(list@, 0) {
                let i = choose|i: int| 0 <= i < list@.len() && #[trigger] list@[i].addr == 0;
                assert(link_holds(list@, i));
            }
        }
        match list.find(addr) {
            Some(slot) => Some(DictionaryInfo { list, slot }),
            None => None,
        }
    }

    /// The first record of `list` at `addr`, for a caller who knows that one
    /// lives there.
    pub fn from_ptr_unchecked(list: &'a DictionaryList, addr: usize) -> (r: DictionaryInfo<'a>)
        requires
            lists(list@, addr),
        ensures
            r.wf(),
            r.list() == *list,
            r@.addr == addr,
            r@ == list@[r.position()],
            is_first_at(list@, addr, r.position()),
    {
        proof {
            use_type_invariant(list);
        }
        let slot = list.find(addr).unwrap();
        DictionaryInfo { list, slot }
    }

    fn record(&self) -> (r: &'a DictionaryRecord)
        ensures
            *r == self@,
            self.wf(),
            link_holds(self.list()@, self.position()),
    {
        proof {
            use_type_invariant(self);
            use_type_invariant(self.list);
        }
        &self.list.records[self.slot]
    }

    /// The address at which the analyser holds this record. Never null.
    pub fn as_ptr(&self) -> (r: usize)
        ensures
            r == self@.addr,
            r != 0,
    {
        self.record().addr
    }

    /// File name of the dictionary.
    pub fn filename(&self) -> (r: Option<&'a [u8]>)
        ensures
            slice_view(r) == bytes_of(self@.filename),
    {
        match &self.record().filename {
            Some(bytes) => Some(bytes.as_slice()),
            None => None,
        }
    }

    /// Character set of the dictionary.
    pub fn charset(&self) -> (r: Option<&'a [u8]>)
        ensures
            slice_view(r) == bytes_of(self@.charset),
    {
        match &self.record().charset {
            Some(bytes) => Some(bytes.as_slice()),
            None => None,
        }
    }

    /// Number of words.
    pub fn size(&self) -> (r: u32)
        ensures
            r == self@.size,
    {
        self.record().size
    }

    /// Kind of the dictionary.
    pub fn type_(&self) -> (r: DictionaryType)
        ensures
            dictionary_type_of(self@.type_) == Some(r),
    {
        let record = self.record();
        DictionaryType::from_code(record.type_).unwrap()
    }

    /// Number of left attribute ids.
    pub fn lsize(&self) -> (r: u32)
        ensures
            r == self@.lsize,
    {
        self.record().lsize
    }

    /// Number of right attribute ids.
    pub fn rsize(&self) -> (r: u32)
        ensures
            r == self@.rsize,
    {
        self.record().rsize
    }

    /// Version of the dictionary format.
    pub fn version(&self) -> (r: u16)
        ensures
            r == self@.version,
    {
        self.record().version
    }

    /// The dictionary after this one. Absent exactly at the null link, which
    /// the last record of the list has and no other.
    pub fn next(&self) -> (r: Option<DictionaryInfo<'a>>)
        ensures
            r is None <==> self@.next == 0,
            r is None <==> self.position() + 1 == self.list()@.len(),
            r is Some ==> r->0.wf() && r->0.list() == self.list() && r->0.position() == self.position() + 1
                && r->0@.addr == self@.next,
    {
        let record = self.record();
        let count = self.list.len();
        proof {
            if self.slot + 1 < count {
                assert(link_holds(self.list@, self.slot + 1));
            }
        }
        if record.next == 0 {
            None
        } else {
            assert(self.slot + 1 < count);
            assert(link_holds(self.list@, self.slot + 1));
            Some(DictionaryInfo { list: self.list, slot: self.slot + 1 })
        }
    }
}

} // verus!

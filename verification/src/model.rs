//! The model handle: a loaded dictionary with its parameters.

use vstd::prelude::*;
use crate::dictionary::{DictionaryInfo, DictionaryList};
use crate::error::{diagnostic_view, translate_diagnostic, MecabError};
use crate::lattice::{is_blank, Lattice, LatticeState};
use crate::node::{node_for, Node};
use crate::tagger::{is_new_tagger, Settings, Tagger};

verus! {

/// The handle of one model. It is never null, and it knows the dictionaries
/// that the model was loaded from.
#[derive(Debug)]
pub struct Model {
    addr: usize,
    dictionaries: DictionaryList,
}

impl Model {
    /// The invariant of every handle: it is not null.
    #[verifier::type_invariant]
    pub closed spec fn wf(self) -> bool {
        self.addr != 0 && self.dictionaries.wf()
    }

    /// The address of the analyser's model.
    pub closed spec fn addr(&self) -> usize {
        self.addr
    }

    /// The dictionaries of the model, first to last.
    pub closed spec fn dictionaries(&self) -> DictionaryList {
        self.dictionaries
    }

    /// Decides what the making of a model gave. `ptr` is what the analyser
    /// returned, `dictionaries` what the new model reports, and `diagnostic`
    /// what the analyser says of its last failure. A null `ptr` is a failure,
    /// and the error is the diagnostic translated.
    pub fn create(ptr: usize, dictionaries: DictionaryList, diagnostic: Option<&[u8]>) -> (r: Result<
        Model,
        MecabError,
    >)
        ensures
            r is Ok <==> ptr != 0,
            r is Ok ==> r->Ok_0.wf() && r->Ok_0.addr() == ptr && r->Ok_0.dictionaries() == dictionaries,
            r is Err ==> r->Err_0@ == translate_diagnostic(diagnostic_view(diagnostic)),
    {
        match Model::from_ptr(ptr, dictionaries) {
            Some(model) => Ok(model),
            None => Err(MecabError::last(diagnostic)),
        }
    }

    /// The handle for the model at `ptr`, or nothing where `ptr` is null.
    pub fn from_ptr(ptr: usize, dictionaries: DictionaryList) -> (r: Option<Model>)
        ensures
            r is Some <==> ptr != 0,
            r is Some ==> r->0.wf() && r->0.addr() == ptr && r->0.dictionaries() == dictionaries,
    {
        if ptr == 0 {
            None
        } else {
            Some(Model::from_ptr_unchecked(ptr, dictionaries))
        }
    }

    /// The handle for the model at `ptr`, for a caller who knows that `ptr`
    /// is not null.
    pub fn from_ptr_unchecked(ptr: usize, dictionaries: DictionaryList) -> (r: Model)
        requires
            ptr != 0,
        ensures
            r.wf(),
            r.addr() == ptr,
            r.dictionaries() == dictionaries,
    {
        proof {
            use_type_invariant(&dictionaries);
        }
        Model { addr: ptr, dictionaries }
    }

    /// The address of the analyser's model. Never null.
    pub fn as_ptr(&self) -> (r: usize)
        ensures
            r == self.addr(),
            r != 0,
    {
        proof {
            use_type_invariant(self);
        }
        self.addr
    }

    /// Decides what the making of a tagger for this model gave. The tagger
    /// borrows the model, so the model outlives it.
    #[allow(non_snake_case)]
    pub fn createTagger(&self, ptr: usize, settings: Settings, diagnostic: Option<&[u8]>) -> (r: Result<
        Tagger<'_>,
        MecabError,
    >)
        ensures
            r is Ok <==> ptr != 0,
            r is Ok ==> r->Ok_0.wf() && is_new_tagger(r->Ok_0@, ptr, settings)
                && r->Ok_0.dictionaries() == self.dictionaries(),
            r is Err ==> r->Err_0@ == translate_diagnostic(diagnostic_view(diagnostic)),
    {
        if ptr == 0 {
            Err(MecabError::last(diagnostic))
        } else {
            Ok(Tagger::bound(self, ptr, settings))
        }
    }

    /// Decides what the making of a lattice gave. The lattice does not
    /// borrow the model.
    #[allow(non_snake_case)]
    pub fn createLattice(&self, ptr: usize, diagnostic: Option<&[u8]>) -> (r: Result<Lattice, MecabError>)
        ensures
            r is Ok <==> ptr != 0,
            r is Ok ==> r->Ok_0.wf() && r->Ok_0.addr() == ptr && is_blank(r->Ok_0@),
            r is Err ==> r->Err_0@ == translate_diagnostic(diagnostic_view(diagnostic)),
    {
        match Lattice::from_ptr(ptr) {
            Some(lattice) => Ok(lattice),
            None => Err(MecabError::last(diagnostic)),
        }
    }

    /// Decides what replacing this model by `other` gave. `status` is what
    /// the analyser returned: zero is a failure. On success this handle
    /// keeps its address and has what `other` had; on failure it is as it
    /// was. Either way `other` is used up.
    ///
    /// The exclusive borrow stands for what the analyser asks of the caller:
    /// no second replacement, no query on this model and no tagger of it is
    /// under way during the call.
    pub fn swap(&mut self, other: Model, status: i32, diagnostic: Option<&[u8]>) -> (r: Result<
        (),
        MecabError,
    >)
        ensures
            r is Ok <==> status != 0,
            final(self).wf(),
            final(self).addr() == old(self).addr(),
            r is Ok ==> final(self).dictionaries() == other.dictionaries(),
            r is Err ==> final(self).dictionaries() == old(self).dictionaries()
                && r->Err_0@ == translate_diagnostic(diagnostic_view(diagnostic)),
    {
        proof {
            use_type_invariant(&*self);
            use_type_invariant(&other);
        }
        if status != 0 {
            self.dictionaries = other.dictionaries;
            Ok(())
        } else {
            Err(MecabError::last(diagnostic))
        }
    }

    /// The first dictionary of the model. Absent where it reports none.
    pub fn dictionary_info(&self) -> (r: Option<DictionaryInfo<'_>>)
        ensures
            r is Some <==> self.dictionaries()@.len() > 0,
            r is Some ==> r->0.wf() && r->0.list() == self.dictionaries() && r->0.position() == 0
                && r->0@ == self.dictionaries()@[0],
    {
        self.dictionaries.head()
    }

    /// Decides what a common-prefix search gave. `head` is the node that
    /// the analyser returned and `state` what `lattice` holds after the
    /// search: the nodes that the search made belong to the lattice, and
    /// the view that is returned borrows it.
    pub fn lookup<'a>(&self, lattice: &'a mut Lattice, head: usize, state: LatticeState) -> (r: Option<
        Node<'a>,
    >)
        ensures
            final(lattice).wf(),
            final(lattice).addr() == old(lattice).addr(),
            final(lattice)@ == state@,
            r is Some <==> state@.arena.has_node(head),
            r is Some ==> node_for(state@.arena, head, r),
            head == 0 ==> r is None,
    {
        lattice.refresh(state);
        let r = lattice.node(head);
        r
    }
}

} // verus!

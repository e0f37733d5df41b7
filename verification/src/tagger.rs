//! The tagger handle: the entry point of analysis.
//!
//! A tagger has one output buffer and one node graph, and every analysis
//! overwrites both. What an analysis returns borrows the tagger exclusively,
//! so no view of an earlier result is alive when the next analysis begins.

use vstd::prelude::*;
use vstd::utf8::{decode_utf8, encode_utf8, valid_utf8};
use crate::dictionary::{DictionaryInfo, DictionaryList};
use crate::error::{
    diagnostic_view, lemma_fixed_sentences, lemma_translate_encoded, translate_diagnostic, ErrorModel, MecabError,
};
use crate::model::Model;
use crate::node::Node;
use crate::record::MECAB_BOS_NODE;
use crate::sentence::Sentence;
use crate::text::{from_utf8, utf8_failure};

verus! {

/// The largest number of analyses that one N-best request may ask for.
pub const NBEST_MAX: usize = 512;

/// The configuration of a tagger.
#[derive(Debug, Clone, Copy, PartialEq, Eq)]
pub struct Settings {
    /// Whether the input is read in the partial-parsing format.
    pub partial: bool,
    /// The softmax temperature, as the bits of a 32-bit float.
    pub theta_bits: u32,
    /// How much of the lattice an analysis records.
    pub lattice_level: i32,
    /// Whether the result path runs through every node of the lattice.
    pub all_morphs: bool,
}

impl Settings {
    /// The settings that the analyser reports with its own integers: a flag
    /// is set when its integer is not zero.
    pub fn from_raw(partial: i32, theta_bits: u32, lattice_level: i32, all_morphs: i32) -> (r: Settings)
        ensures
            r == (Settings {
                partial: partial != 0,
                theta_bits,
                lattice_level,
                all_morphs: all_morphs != 0,
            }),
    {
        Settings { partial: partial != 0, theta_bits, lattice_level, all_morphs: all_morphs != 0 }
    }
}

/// What a tagger is at one moment.
pub struct TaggerModel {
    /// The address of the analyser's tagger.
    pub addr: usize,
    /// The configuration.
    pub settings: Settings,
    /// Whether N-best mode has been enabled.
    pub nbest: bool,
    /// What the output buffer holds.
    pub output: Seq<char>,
    /// The node graph of the latest analysis to nodes, if there is one.
    pub graph: Option<Sentence>,
}

/// The tagger is as it is right after it was made at `ptr`.
pub open spec fn is_new_tagger(m: TaggerModel, ptr: usize, settings: Settings) -> bool {
    &&& m.addr == ptr
    &&& m.settings == settings
    &&& !m.nbest
    &&& m.output.len() == 0
    &&& m.graph is None
}

/// The bytes of an optional reply.
pub open spec fn reply_view(raw: Option<&[u8]>) -> Option<Seq<u8>> {
    match raw {
        None => None,
        Some(bytes) => Some(bytes@),
    }
}

/// What a call that asks for text returns: the text of the reply, the
/// encoding failure where the reply is not UTF-8, and the diagnostic
/// translated where the analyser returned null.
pub open spec fn text_outcome(raw: Option<Seq<u8>>, diagnostic: Option<Seq<u8>>) -> Result<
    Seq<char>,
    ErrorModel,
> {
    match raw {
        None => Err(translate_diagnostic(diagnostic)),
        Some(bytes) => if valid_utf8(bytes) {
            Ok(decode_utf8(bytes))
        } else {
            Err(ErrorModel::NonUtf8String(utf8_failure(bytes)))
        },
    }
}

/// What an N-best request for `n` analyses returns on a tagger whose N-best
/// mode is `nbest`.
pub open spec fn nbest_outcome(nbest: bool, n: usize, raw: Option<Seq<u8>>, diagnostic: Option<Seq<u8>>) -> Result<
    Seq<char>,
    ErrorModel,
> {
    if !nbest {
        Err(ErrorModel::NBestRequired)
    } else if n == 0 || n > NBEST_MAX {
        Err(ErrorModel::NBestSizeOutOfRange)
    } else {
        text_outcome(raw, diagnostic)
    }
}

/// The tagger after a call that asked for text: the buffer holds the new
/// text, or nothing after a failure, and no node graph is left.
pub open spec fn after_text(m: TaggerModel, outcome: Result<Seq<char>, ErrorModel>) -> TaggerModel {
    TaggerModel {
        output: match outcome {
            Ok(text) => text,
            Err(_) => Seq::empty(),
        },
        graph: None,
        ..m
    }
}

/// The tagger after a call that asked for nodes: it holds the new graph, or
/// none after a failure, and the buffer is empty.
pub open spec fn after_nodes(m: TaggerModel, reply: Option<Sentence>) -> TaggerModel {
    TaggerModel { output: Seq::empty(), graph: reply, ..m }
}

/// The tagger after the start of an N-best enumeration that returned
/// `status`: success enables N-best mode, and either way the results of
/// earlier analyses are gone.
pub open spec fn after_init(m: TaggerModel, status: i32) -> TaggerModel {
    TaggerModel { nbest: m.nbest || status != 0, output: Seq::empty(), graph: None, ..m }
}

/// The view of what a call for text returned.
pub open spec fn text_result(r: Result<&str, MecabError>) -> Result<Seq<char>, ErrorModel> {
    match r {
        Ok(s) => Ok(s@),
        Err(e) => Err(e@),
    }
}

/// Two analyses in a row: what the first call returned is exactly the text
/// of its reply, and the buffer holds that text until the second call. After
/// the second call the tagger is as if the first had never been made: the
/// buffer holds what the second call gave, and nothing of the first.
pub proof fn lemma_second_call_overwrites(
    m: TaggerModel,
    first: Seq<u8>,
    second: Option<Seq<u8>>,
    d1: Option<Seq<u8>>,
    d2: Option<Seq<u8>>,
)
    requires
        valid_utf8(first),
    ensures
        text_outcome(Some(first), d1) == Ok::<Seq<char>, ErrorModel>(decode_utf8(first)),
        after_text(m, text_outcome(Some(first), d1)).output == decode_utf8(first),
        after_text(after_text(m, text_outcome(Some(first), d1)), text_outcome(second, d2)) == after_text(
            m,
            text_outcome(second, d2),
        ),
        text_outcome(second, d2) is Ok ==> after_text(
            after_text(m, text_outcome(Some(first), d1)),
            text_outcome(second, d2),
        ).output == text_outcome(second, d2)->Ok_0,
{
}

/// An N-best request fails for want of N-best mode until an enumeration has
/// been started with success. After that a request for a number of analyses
/// out of range fails for its size, and one in range returns what the
/// analyser gave.
pub proof fn lemma_nbest_mode(
    m: TaggerModel,
    status: i32,
    n: usize,
    raw: Option<Seq<u8>>,
    diagnostic: Option<Seq<u8>>,
)
    ensures
        !m.nbest ==> nbest_outcome(m.nbest, n, raw, diagnostic) == Err::<Seq<char>, ErrorModel>(
            ErrorModel::NBestRequired,
        ),
        status != 0 && (n == 0 || n > NBEST_MAX) ==> nbest_outcome(after_init(m, status).nbest, n, raw, diagnostic)
            == Err::<Seq<char>, ErrorModel>(ErrorModel::NBestSizeOutOfRange),
        status != 0 && 1 <= n <= NBEST_MAX ==> nbest_outcome(after_init(m, status).nbest, n, raw, diagnostic)
            == text_outcome(raw, diagnostic),
        status == 0 ==> after_init(m, status).nbest == m.nbest,
{
}

/// When the analyser returns null and says that there are no more results,
/// a step of the enumeration fails with `NoMoreResults`.
pub proof fn lemma_exhaustion_reported()
    ensures
        text_outcome(None, Some(encode_utf8("no more results"@))) == Err::<Seq<char>, ErrorModel>(
            ErrorModel::NoMoreResults,
        ),
{
    lemma_translate_encoded("no more results"@);
    lemma_fixed_sentences();
}

/// Where a tagger's dictionaries come from: the model that it is bound to,
/// or the private model of a tagger that was made on its own.
#[derive(Debug)]
enum Binding<'model> {
    Shared(&'model Model),
    Private(DictionaryList),
}

/// The handle of one tagger. It is never null. A tagger that a model made
/// borrows that model.
#[derive(Debug)]
pub struct Tagger<'model> {
    addr: usize,
    binding: Binding<'model>,
    settings: Settings,
    nbest: bool,
    output: String,
    graph: Option<Sentence>,
}

impl<'model> View for Tagger<'model> {
    type V = TaggerModel;

    closed spec fn view(&self) -> TaggerModel {
        TaggerModel {
            addr: self.addr,
            settings: self.settings,
            nbest: self.nbest,
            output: self.output@,
            graph: self.graph,
        }
    }
}

impl Tagger<'static> {
    /// Decides what the making of a tagger gave. `ptr` is what the analyser
    /// returned, `settings` and `dictionaries` what the new tagger reports,
    /// and `diagnostic` what the analyser says of its last failure. A null
    /// `ptr` is a failure, and the error is the diagnostic translated.
    pub fn create(ptr: usize, settings: Settings, dictionaries: DictionaryList, diagnostic: Option<&[u8]>) -> (r:
        Result<Tagger<'static>, MecabError>)
        ensures
            r is Ok <==> ptr != 0,
            r is Ok ==> r->Ok_0.wf() && is_new_tagger(r->Ok_0@, ptr, settings) && r->Ok_0.dictionaries()
                == dictionaries,
            r is Err ==> r->Err_0@ == translate_diagnostic(diagnostic_view(diagnostic)),
    {
        match Tagger::from_ptr(ptr, settings, dictionaries) {
            Some(tagger) => Ok(tagger),
            None => Err(MecabError::last(diagnostic)),
        }
    }

    /// The handle for the tagger at `ptr`, or nothing where `ptr` is null.
    pub fn from_ptr(ptr: usize, settings: Settings, dictionaries: DictionaryList) -> (r: Option<
        Tagger<'static>,
    >)
        ensures
            r is Some <==> ptr != 0,
            r is Some ==> r->0.wf() && is_new_tagger(r->0@, ptr, settings) && r->0.dictionaries()
                == dictionaries,
    {
        if ptr == 0 {
            None
        } else {
            Some(Tagger::from_ptr_unchecked(ptr, settings, dictionaries))
        }
    }

    /// The handle for the tagger at `ptr`, for a caller who knows that `ptr`
    /// is not null.
    pub fn from_ptr_unchecked(ptr: usize, settings: Settings, dictionaries: DictionaryList) -> (r: Tagger<
        'static,
    >)
        requires
            ptr != 0,
        ensures
            r.wf(),
            is_new_tagger(r@, ptr, settings),
            r.dictionaries() == dictionaries,
    {
        proof {
            use_type_invariant(&dictionaries);
        }
        Tagger {
            addr: ptr,
            binding: Binding::Private(dictionaries),
            settings,
            nbest: false,
            output: String::new(),
            graph: None,
        }
    }
}

impl<'model> Tagger<'model> {
    /// The invariant of every handle: it is not null.
    #[verifier::type_invariant]
    pub closed spec fn wf(self) -> bool {
        &&& self.addr != 0
        &&& match self.binding {
            Binding::Shared(model) => model.wf(),
            Binding::Private(list) => list.wf(),
        }
        &&& match self.graph {
            Some(sentence) => sentence.wf(),
            None => true,
        }
    }

    /// The dictionaries that the tagger works with: those of its model.
    pub closed spec fn dictionaries(&self) -> DictionaryList {
        match self.binding {
            Binding::Shared(model) => model.dictionaries(),
            Binding::Private(list) => list,
        }
    }

    /// The tagger that `model` made at `ptr`.
    pub(crate) fn bound(model: &'model Model, ptr: usize, settings: Settings) -> (r: Tagger<'model>)
        requires
            ptr != 0,
        ensures
            r.wf(),
            is_new_tagger(r@, ptr, settings),
            r.dictionaries() == model.dictionaries(),
    {
        proof {
            use_type_invariant(model);
        }
        Tagger {
            addr: ptr,
            binding: Binding::Shared(model),
            settings,
            nbest: false,
            output: String::new(),
            graph: None,
        }
    }

    /// The address of the analyser's tagger. Never null.
    pub fn as_ptr(&self) -> (r: usize)
        ensures
            r == self@.addr,
            r != 0,
    {
        proof {
            use_type_invariant(self);
        }
        self.addr
    }

    /// Whether the input is read in the partial-parsing format.
    pub fn partial(&self) -> (r: bool)
        ensures
            r == self@.settings.partial,
    {
        self.settings.partial
    }

    /// Sets whether the input is read in the partial-parsing format.
    /// Nothing else changes: what the latest analysis gave stays as it is.
    pub fn set_partial(&mut self, partial: bool)
        ensures
            final(self).wf(),
            final(self).dictionaries() == old(self).dictionaries(),
            final(self)@ == (TaggerModel {
                settings: Settings { partial, ..old(self)@.settings },
                ..old(self)@
            }),
    {
        proof {
            use_type_invariant(&*self);
        }
        self.settings = Settings { partial, ..self.settings };
    }

    /// The softmax temperature, as the bits of a 32-bit float.
    pub fn theta_bits(&self) -> (r: u32)
        ensures
            r == self@.settings.theta_bits,
    {
        self.settings.theta_bits
    }

    /// Sets the softmax temperature. Nothing else changes.
    pub fn set_theta_bits(&mut self, theta_bits: u32)
        ensures
            final(self).wf(),
            final(self).dictionaries() == old(self).dictionaries(),
            final(self)@ == (TaggerModel {
                settings: Settings { theta_bits, ..old(self)@.settings },
                ..old(self)@
            }),
    {
        proof {
            use_type_invariant(&*self);
        }
        self.settings = Settings { theta_bits, ..self.settings };
    }

    /// How much of the lattice an analysis records.
    pub fn lattice_level(&self) -> (r: i32)
        ensures
            r == self@.settings.lattice_level,
    {
        self.settings.lattice_level
    }

    /// Sets how much of the lattice an analysis records. Nothing else
    /// changes.
    pub fn set_lattice_level(&mut self, lattice_level: i32)
        ensures
            final(self).wf(),
            final(self).dictionaries() == old(self).dictionaries(),
            final(self)@ == (TaggerModel {
                settings: Settings { lattice_level, ..old(self)@.settings },
                ..old(self)@
            }),
    {
        proof {
            use_type_invariant(&*self);
        }
        self.settings = Settings { lattice_level, ..self.settings };
    }

    /// Whether the result path runs through every node of the lattice.
    pub fn all_morphs(&self) -> (r: bool)
        ensures
            r == self@.settings.all_morphs,
    {
        self.settings.all_morphs
    }

    /// Sets whether the result path runs through every node of the lattice.
    /// Nothing else changes.
    pub fn set_all_morphs(&mut self, all_morphs: bool)
        ensures
            final(self).wf(),
            final(self).dictionaries() == old(self).dictionaries(),
            final(self)@ == (TaggerModel {
                settings: Settings { all_morphs, ..old(self)@.settings },
                ..old(self)@
            }),
    {
        proof {
            use_type_invariant(&*self);
        }
        self.settings = Settings { all_morphs, ..self.settings };
    }

    /// Whether N-best mode has been enabled.
    pub fn nbest_enabled(&self) -> (r: bool)
        ensures
            r == self@.nbest,
    {
        self.nbest
    }

    /// Takes the reply to a call that asks for text into the output buffer
    /// and returns a view of it. `raw` is what the analyser returned, `None`
    /// for null; `diagnostic` is what it reports for this tagger.
    fn convert_result_str<'a>(&'a mut self, raw: Option<&[u8]>, diagnostic: Option<&[u8]>) -> (r: Result<
        &'a str,
        MecabError,
    >)
        ensures
            final(self).wf(),
            final(self).dictionaries() == old(self).dictionaries(),
            text_result(r) == text_outcome(reply_view(raw), diagnostic_view(diagnostic)),
            final(self)@ == after_text(old(self)@, text_outcome(reply_view(raw), diagnostic_view(diagnostic))),
    {
        proof {
            use_type_invariant(&*self);
        }
        self.graph = None;
        match raw {
            None => {
                self.output = String::new();
                Err(self.last_error(diagnostic))
            },
            Some(bytes) => match from_utf8(bytes) {
                Ok(s) => {
                    self.output = s.to_owned();
                    Ok(self.output.as_str())
                },
                Err(e) => {
                    self.output = String::new();
                    Err(MecabError::NonUtf8String(e))
                },
            },
        }
    }

    /// Decides what an analysis to text gave.
    pub fn parse<'a>(&'a mut self, raw: Option<&[u8]>, diagnostic: Option<&[u8]>) -> (r: Result<
        &'a str,
        MecabError,
    >)
        ensures
            final(self).wf(),
            final(self).dictionaries() == old(self).dictionaries(),
            text_result(r) == text_outcome(reply_view(raw), diagnostic_view(diagnostic)),
            final(self)@ == after_text(old(self)@, text_outcome(reply_view(raw), diagnostic_view(diagnostic))),
    {
        self.convert_result_str(raw, diagnostic)
    }

    /// Decides what a request for the `n` best analyses gave. The request
    /// fails where N-best mode has not been enabled, and where `n` is not
    /// between one and `NBEST_MAX`, whatever the analyser returned.
    #[allow(non_snake_case)]
    pub fn parseNBest<'a>(&'a mut self, n: usize, raw: Option<&[u8]>, diagnostic: Option<&[u8]>) -> (r:
        Result<&'a str, MecabError>)
        ensures
            final(self).wf(),
            final(self).dictionaries() == old(self).dictionaries(),
            text_result(r) == nbest_outcome(old(self)@.nbest, n, reply_view(raw), diagnostic_view(diagnostic)),
            final(self)@ == after_text(
                old(self)@,
                nbest_outcome(old(self)@.nbest, n, reply_view(raw), diagnostic_view(diagnostic)),
            ),
    {
        proof {
            use_type_invariant(&*self);
        }
        if !self.nbest {
            self.graph = None;
            self.output = String::new();
            Err(MecabError::NBestRequired)
        } else if n == 0 || n > NBEST_MAX {
            self.graph = None;
            self.output = String::new();
            Err(MecabError::NBestSizeOutOfRange)
        } else {
            self.convert_result_str(raw, diagnostic)
        }
    }

    /// Decides what the start of an N-best enumeration gave. `status` is
    /// what the analyser returned: zero is a failure. Success enables N-best
    /// mode. Either way the results of earlier analyses are gone.
    #[allow(non_snake_case)]
    pub fn parseNBestInit(&mut self, status: i32, diagnostic: Option<&[u8]>) -> (r: Result<(), MecabError>)
        ensures
            final(self).wf(),
            final(self).dictionaries() == old(self).dictionaries(),
            r is Ok <==> status != 0,
            r is Err ==> r->Err_0@ == translate_diagnostic(diagnostic_view(diagnostic)),
            final(self)@ == after_init(old(self)@, status),
    {
        proof {
            use_type_invariant(&*self);
        }
        self.graph = None;
        self.output = String::new();
        if status != 0 {
            self.nbest = true;
            Ok(())
        } else {
            Err(self.last_error(diagnostic))
        }
    }

    /// Decides what the step to the next-best analysis, as text, gave.
    pub fn next<'a>(&'a mut self, raw: Option<&[u8]>, diagnostic: Option<&[u8]>) -> (r: Result<
        &'a str,
        MecabError,
    >)
        ensures
            final(self).wf(),
            final(self).dictionaries() == old(self).dictionaries(),
            text_result(r) == text_outcome(reply_view(raw), diagnostic_view(diagnostic)),
            final(self)@ == after_text(old(self)@, text_outcome(reply_view(raw), diagnostic_view(diagnostic))),
    {
        self.convert_result_str(raw, diagnostic)
    }

    /// Decides what the formatting of `node` gave.
    #[allow(non_snake_case)]
    pub fn formatNode<'a>(&'a mut self, node: &Node<'_>, raw: Option<&[u8]>, diagnostic: Option<&[u8]>) -> (r:
        Result<&'a str, MecabError>)
        ensures
            final(self).wf(),
            final(self).dictionaries() == old(self).dictionaries(),
            text_result(r) == text_outcome(reply_view(raw), diagnostic_view(diagnostic)),
            final(self)@ == after_text(old(self)@, text_outcome(reply_view(raw), diagnostic_view(diagnostic))),
    {
        self.convert_result_str(raw, diagnostic)
    }

    /// Takes the reply to a call that asks for nodes and returns a view of
    /// the first node. `reply` is the graph that the analyser returned,
    /// `None` for null.
    fn convert_result_node<'a>(&'a mut self, reply: Option<Sentence>, diagnostic: Option<&[u8]>) -> (r: Result<
        Node<'a>,
        MecabError,
    >)
        ensures
            final(self).wf(),
            final(self).dictionaries() == old(self).dictionaries(),
            final(self)@ == after_nodes(old(self)@, reply),
            r is Ok <==> reply is Some,
            r is Ok ==> r->Ok_0.wf() && r->Ok_0.arena() == reply->0.arena() && r->Ok_0@.addr
                == reply->0.root_addr() && r->Ok_0@.stat == MECAB_BOS_NODE,
            r is Err ==> r->Err_0@ == translate_diagnostic(diagnostic_view(diagnostic)),
    {
        proof {
            use_type_invariant(&*self);
        }
        self.output = String::new();
        match reply {
            Some(sentence) => {
                proof {
                    use_type_invariant(&sentence);
                }
                self.graph = Some(sentence);
            },
            None => {
                self.graph = None;
            },
        }
        match &self.graph {
            Some(sentence) => Ok(sentence.root()),
            None => Err(MecabError::from_tagger(diagnostic)),
        }
    }

    /// Decides what an analysis to nodes gave. On success the view shows
    /// the node that begins the sentence, from which `next` leads to the
    /// node that ends it.
    #[allow(non_snake_case)]
    pub fn parseToNode<'a>(&'a mut self, reply: Option<Sentence>, diagnostic: Option<&[u8]>) -> (r: Result<
        Node<'a>,
        MecabError,
    >)
        ensures
            final(self).wf(),
            final(self).dictionaries() == old(self).dictionaries(),
            final(self)@ == after_nodes(old(self)@, reply),
            r is Ok <==> reply is Some,
            r is Ok ==> r->Ok_0.wf() && r->Ok_0.arena() == reply->0.arena() && r->Ok_0@.addr
                == reply->0.root_addr() && r->Ok_0@.stat == MECAB_BOS_NODE,
            r is Err ==> r->Err_0@ == translate_diagnostic(diagnostic_view(diagnostic)),
    {
        self.convert_result_node(reply, diagnostic)
    }

    /// Decides what the step to the next-best analysis, as nodes, gave.
    #[allow(non_snake_case)]
    pub fn nextNode<'a>(&'a mut self, reply: Option<Sentence>, diagnostic: Option<&[u8]>) -> (r: Result<
        Node<'a>,
        MecabError,
    >)
        ensures
            final(self).wf(),
            final(self).dictionaries() == old(self).dictionaries(),
            final(self)@ == after_nodes(old(self)@, reply),
            r is Ok <==> reply is Some,
            r is Ok ==> r->Ok_0.wf() && r->Ok_0.arena() == reply->0.arena() && r->Ok_0@.addr
                == reply->0.root_addr() && r->Ok_0@.stat == MECAB_BOS_NODE,
            r is Err ==> r->Err_0@ == translate_diagnostic(diagnostic_view(diagnostic)),
    {
        self.convert_result_node(reply, diagnostic)
    }

    /// The node graph of the latest analysis to nodes, while no later call
    /// has replaced it.
    pub fn sentence(&self) -> (r: Option<&Sentence>)
        ensures
            r is Some <==> self@.graph is Some,
            r is Some ==> *r->0 == self@.graph->0 && r->0.wf(),
    {
        proof {
            use_type_invariant(self);
        }
        self.graph.as_ref()
    }

    /// The first dictionary of the tagger's model. Absent where it reports
    /// none.
    pub fn dictionary_info(&self) -> (r: Option<DictionaryInfo<'_>>)
        ensures
            r is Some <==> self.dictionaries()@.len() > 0,
            r is Some ==> r->0.wf() && r->0.list() == self.dictionaries() && r->0.position() == 0
                && r->0@ == self.dictionaries()@[0],
    {
        match &self.binding {
            Binding::Shared(model) => model.dictionary_info(),
            Binding::Private(list) => list.head(),
        }
    }

    /// The error that the analyser's diagnostic for this tagger stands for.
    pub fn last_error(&self, diagnostic: Option<&[u8]>) -> (r: MecabError)
        ensures
            r@ == translate_diagnostic(diagnostic_view(diagnostic)),
    {
        MecabError::from_tagger(diagnostic)
    }
}

} // verus!

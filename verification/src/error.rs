//! The closed taxonomy of failures, and the translation of the analyser's
//! diagnostics into it.

use vstd::prelude::*;
use vstd::utf8::{decode_utf8, encode_utf8, encode_utf8_decode_utf8, encode_utf8_valid_utf8, valid_utf8};
use vstd::std_specs::convert::FromSpecImpl;
use crate::cstr::NulError;
use crate::text::{from_utf8, str_eq, Utf8Error};

verus! {

/// Everything that an operation of this crate can fail with.
///
/// A value owns what it carries: nothing in it points into the analyser's
/// memory.
#[allow(missing_docs)]
#[derive(Debug, Clone, PartialEq, Eq)]
pub enum MecabError {
    /// An argument holds a zero byte and cannot be a C string.
    NulString(NulError),
    /// The analyser produced bytes that are not UTF-8.
    NonUtf8String(Utf8Error),
    ModelNotAvailable,
    CurrentModelNotAvailable,
    PassedModelNotAvailable,
    InvalidModel,
    NoMoreResults,
    NBestRequired,
    NBestSizeOutOfRange,
    NodeIsNull,
    OutputBufferOverflow,
    NoAtomicSwap,
    /// The analyser gave no diagnostic, or said that it knows none.
    UnknownError,
    /// A diagnostic that is no fixed sentence, as text.
    Other(String),
    /// A diagnostic that is not UTF-8, as it came.
    OtherBytes(Vec<u8>),
}

/// What a `MecabError` is, with its payloads as sequences.
#[allow(missing_docs)]
pub enum ErrorModel {
    NulString { position: usize, bytes: Seq<u8> },
    NonUtf8String(Utf8Error),
    ModelNotAvailable,
    CurrentModelNotAvailable,
    PassedModelNotAvailable,
    InvalidModel,
    NoMoreResults,
    NBestRequired,
    NBestSizeOutOfRange,
    NodeIsNull,
    OutputBufferOverflow,
    NoAtomicSwap,
    UnknownError,
    Other(Seq<char>),
    OtherBytes(Seq<u8>),
}

impl View for MecabError {
    type V = ErrorModel;

    open spec fn view(&self) -> ErrorModel {
        match *self {
            MecabError::NulString(e) => ErrorModel::NulString { position: e.position, bytes: e.bytes@ },
            MecabError::NonUtf8String(e) => ErrorModel::NonUtf8String(e),
            MecabError::ModelNotAvailable => ErrorModel::ModelNotAvailable,
            MecabError::CurrentModelNotAvailable => ErrorModel::CurrentModelNotAvailable,
            MecabError::PassedModelNotAvailable => ErrorModel::PassedModelNotAvailable,
            MecabError::InvalidModel => ErrorModel::InvalidModel,
            MecabError::NoMoreResults => ErrorModel::NoMoreResults,
            MecabError::NBestRequired => ErrorModel::NBestRequired,
            MecabError::NBestSizeOutOfRange => ErrorModel::NBestSizeOutOfRange,
            MecabError::NodeIsNull => ErrorModel::NodeIsNull,
            MecabError::OutputBufferOverflow => ErrorModel::OutputBufferOverflow,
            MecabError::NoAtomicSwap => ErrorModel::NoAtomicSwap,
            MecabError::UnknownError => ErrorModel::UnknownError,
            MecabError::Other(s) => ErrorModel::Other(s@),
            MecabError::OtherBytes(b) => ErrorModel::OtherBytes(b@),
        }
    }
}

/// The error that a diagnostic sentence stands for. A sentence that is none
/// of the fixed ones is carried as it is.
pub open spec fn translate_text(s: Seq<char>) -> ErrorModel {
    if s == "Model is not available"@ {
        ErrorModel::ModelNotAvailable
    } else if s == "current model is not available"@ {
        ErrorModel::CurrentModelNotAvailable
    } else if s == "Passed model is not available"@ {
        ErrorModel::PassedModelNotAvailable
    } else if s == "Invalid model is passed"@ {
        ErrorModel::InvalidModel
    } else if s == "no more results"@ {
        ErrorModel::NoMoreResults
    } else if s == "MECAB_NBEST request type is not set"@ {
        ErrorModel::NBestRequired
    } else if s == "nbest size must be 1 <= nbest <= 512"@ {
        ErrorModel::NBestSizeOutOfRange
    } else if s == "output buffer overflow"@ {
        ErrorModel::OutputBufferOverflow
    } else if s == "node is NULL"@ {
        ErrorModel::NodeIsNull
    } else if s == "atomic model replacement is not supported"@ {
        ErrorModel::NoAtomicSwap
    } else if s == "Unknown Error"@ {
        ErrorModel::UnknownError
    } else {
        ErrorModel::Other(s)
    }
}

/// The error that a diagnostic stands for, given as bytes: that of its text
/// where the bytes are UTF-8, the bytes themselves where they are not.
pub open spec fn translate_bytes(bytes: Seq<u8>) -> ErrorModel {
    if valid_utf8(bytes) {
        translate_text(decode_utf8(bytes))
    } else {
        ErrorModel::OtherBytes(bytes)
    }
}

/// The error for what the analyser reports after a failure: `None` where it
/// has no diagnostic at all.
pub open spec fn translate_diagnostic(diagnostic: Option<Seq<u8>>) -> ErrorModel {
    match diagnostic {
        None => ErrorModel::UnknownError,
        Some(bytes) => translate_bytes(bytes),
    }
}

/// The diagnostic as a sequence, for contracts.
pub open spec fn diagnostic_view(diagnostic: Option<&[u8]>) -> Option<Seq<u8>> {
    match diagnostic {
        None => None,
        Some(bytes) => Some(bytes@),
    }
}

/// Each fixed sentence of the analyser stands for its own error.
pub proof fn lemma_fixed_sentences()
    ensures
        translate_text("Model is not available"@) == ErrorModel::ModelNotAvailable,
        translate_text("current model is not available"@) == ErrorModel::CurrentModelNotAvailable,
        translate_text("Passed model is not available"@) == ErrorModel::PassedModelNotAvailable,
        translate_text("Invalid model is passed"@) == ErrorModel::InvalidModel,
        translate_text("no more results"@) == ErrorModel::NoMoreResults,
        translate_text("MECAB_NBEST request type is not set"@) == ErrorModel::NBestRequired,
        translate_text("nbest size must be 1 <= nbest <= 512"@) == ErrorModel::NBestSizeOutOfRange,
        translate_text("output buffer overflow"@) == ErrorModel::OutputBufferOverflow,
        translate_text("node is NULL"@) == ErrorModel::NodeIsNull,
        translate_text("atomic model replacement is not supported"@) == ErrorModel::NoAtomicSwap,
        translate_text("Unknown Error"@) == ErrorModel::UnknownError,
{
    reveal_strlit("Model is not available");
    reveal_strlit("current model is not available");
    reveal_strlit("Passed model is not available");
    reveal_strlit("Invalid model is passed");
    reveal_strlit("no more results");
    reveal_strlit("MECAB_NBEST request type is not set");
    reveal_strlit("nbest size must be 1 <= nbest <= 512");
    reveal_strlit("output buffer overflow");
    reveal_strlit("node is NULL");
    reveal_strlit("atomic model replacement is not supported");
    reveal_strlit("Unknown Error");
    assert("Model is not available"@.len() == 22);
    assert("current model is not available"@.len() == 30);
    assert("Passed model is not available"@.len() == 29);
    assert("Invalid model is passed"@.len() == 23);
    assert("no more results"@.len() == 15);
    assert("MECAB_NBEST request type is not set"@.len() == 35);
    assert("nbest size must be 1 <= nbest <= 512"@.len() == 36);
    assert("output buffer overflow"@.len() == 22);
    assert("node is NULL"@.len() == 12);
    assert("atomic model replacement is not supported"@.len() == 41);
    assert("Unknown Error"@.len() == 13);
    assert("output buffer overflow"@[0] != "Model is not available"@[0]);
}

/// A diagnostic given as the encoding of a sentence is translated as the
/// sentence.
pub proof fn lemma_translate_encoded(s: Seq<char>)
    ensures
        translate_bytes(encode_utf8(s)) == translate_text(s),
{
    encode_utf8_valid_utf8(s);
    encode_utf8_decode_utf8(s);
}

impl MecabError {
    /// Translates a diagnostic sentence.
    pub fn from_text(s: &str) -> (r: MecabError)
        ensures
            r@ == translate_text(s@),
    {
        if str_eq(s, "Model is not available") {
            MecabError::ModelNotAvailable
        } else if str_eq(s, "current model is not available") {
            MecabError::CurrentModelNotAvailable
        } else if str_eq(s, "Passed model is not available") {
            MecabError::PassedModelNotAvailable
        } else if str_eq(s, "Invalid model is passed") {
            MecabError::InvalidModel
        } else if str_eq(s, "no more results") {
            MecabError::NoMoreResults
        } else if str_eq(s, "MECAB_NBEST request type is not set") {
            MecabError::NBestRequired
        } else if str_eq(s, "nbest size must be 1 <= nbest <= 512") {
            MecabError::NBestSizeOutOfRange
        } else if str_eq(s, "output buffer overflow") {
            MecabError::OutputBufferOverflow
        } else if str_eq(s, "node is NULL") {
            MecabError::NodeIsNull
        } else if str_eq(s, "atomic model replacement is not supported") {
            MecabError::NoAtomicSwap
        } else if str_eq(s, "Unknown Error") {
            MecabError::UnknownError
        } else {
            MecabError::Other(s.to_owned())
        }
    }

    /// Translates a diagnostic given as bytes. This never fails: bytes that
    /// are not UTF-8 are carried as they are.
    pub fn from_bytes(bytes: &[u8]) -> (r: MecabError)
        ensures
            r@ == translate_bytes(bytes@),
    {
        match from_utf8(bytes) {
            Ok(s) => MecabError::from_text(s),
            Err(_) => MecabError::OtherBytes(vstd::slice::slice_to_vec(bytes)),
        }
    }

    /// Translates what the analyser reports for a handle after a failure.
    /// `None` stands for a null diagnostic pointer.
    pub fn from_tagger(diagnostic: Option<&[u8]>) -> (r: MecabError)
        ensures
            r@ == translate_diagnostic(diagnostic_view(diagnostic)),
    {
        match diagnostic {
            None => MecabError::UnknownError,
            Some(bytes) => MecabError::from_bytes(bytes),
        }
    }

    /// Translates the process-wide last diagnostic, which the analyser keeps
    /// for failures that left no handle to ask.
    pub fn last(diagnostic: Option<&[u8]>) -> (r: MecabError)
        ensures
            r@ == translate_diagnostic(diagnostic_view(diagnostic)),
    {
        MecabError::from_tagger(diagnostic)
    }
}

impl From<NulError> for MecabError {
    fn from(e: NulError) -> (r: MecabError) {
        MecabError::NulString(e)
    }
}

impl FromSpecImpl<NulError> for MecabError {
    open spec fn obeys_from_spec() -> bool {
        true
    }

    open spec fn from_spec(e: NulError) -> MecabError {
        MecabError::NulString(e)
    }
}

impl From<Utf8Error> for MecabError {
    fn from(e: Utf8Error) -> (r: MecabError) {
        MecabError::NonUtf8String(e)
    }
}

impl FromSpecImpl<Utf8Error> for MecabError {
    open spec fn obeys_from_spec() -> bool {
        true
    }

    open spec fn from_spec(e: Utf8Error) -> MecabError {
        MecabError::NonUtf8String(e)
    }
}

impl<'a> From<&'a str> for MecabError {
    fn from(s: &'a str) -> (r: MecabError)
        ensures
            r@ == translate_text(s@),
    {
        MecabError::from_text(s)
    }
}

impl<'a> FromSpecImpl<&'a str> for MecabError {
    open spec fn obeys_from_spec() -> bool {
        false
    }

    open spec fn from_spec(s: &'a str) -> MecabError {
        choose|e: MecabError| e@ == translate_text(s@)
    }
}

impl<'a> From<&'a [u8]> for MecabError {
    fn from(bytes: &'a [u8]) -> (r: MecabError)
        ensures
            r@ == translate_bytes(bytes@),
    {
        MecabError::from_bytes(bytes)
    }
}

impl<'a> FromSpecImpl<&'a [u8]> for MecabError {
    open spec fn obeys_from_spec() -> bool {
        false
    }

    open spec fn from_spec(bytes: &'a [u8]) -> MecabError {
        choose|e: MecabError| e@ == translate_bytes(bytes@)
    }
}

} // verus!

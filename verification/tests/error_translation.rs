use metalcab::cstr::{CString, NulError};
use metalcab::error::MecabError;
use metalcab::text::Utf8Error;

#[test]
fn fixed_sentences_translate_to_their_variants() {
    assert_eq!(MecabError::from_bytes(b"Model is not available"), MecabError::ModelNotAvailable);
    assert_eq!(
        MecabError::from_bytes(b"current model is not available"),
        MecabError::CurrentModelNotAvailable
    );
    assert_eq!(
        MecabError::from_bytes(b"Passed model is not available"),
        MecabError::PassedModelNotAvailable
    );
    assert_eq!(MecabError::from_bytes(b"Invalid model is passed"), MecabError::InvalidModel);
    assert_eq!(MecabError::from_bytes(b"no more results"), MecabError::NoMoreResults);
    assert_eq!(
        MecabError::from_bytes(b"MECAB_NBEST request type is not set"),
        MecabError::NBestRequired
    );
    assert_eq!(
        MecabError::from_bytes(b"nbest size must be 1 <= nbest <= 512"),
        MecabError::NBestSizeOutOfRange
    );
    assert_eq!(MecabError::from_bytes(b"output buffer overflow"), MecabError::OutputBufferOverflow);
    assert_eq!(MecabError::from_bytes(b"node is NULL"), MecabError::NodeIsNull);
    assert_eq!(
        MecabError::from_bytes(b"atomic model replacement is not supported"),
        MecabError::NoAtomicSwap
    );
    assert_eq!(MecabError::from_bytes(b"Unknown Error"), MecabError::UnknownError);
}

#[test]
fn fixed_sentences_translate_from_text() {
    assert_eq!(MecabError::from_text("Model is not available"), MecabError::ModelNotAvailable);
    assert_eq!(MecabError::from_text("no more results"), MecabError::NoMoreResults);
    assert_eq!(MecabError::from_text("node is NULL"), MecabError::NodeIsNull);
    assert_eq!(MecabError::from_text("Unknown Error"), MecabError::UnknownError);
}

#[test]
fn match_is_exact() {
    assert_eq!(
        MecabError::from_text("no more results "),
        MecabError::Other("no more results ".to_string())
    );
    assert_eq!(
        MecabError::from_text("No more results"),
        MecabError::Other("No more results".to_string())
    );
    assert_eq!(
        MecabError::from_text("model is not available"),
        MecabError::Other("model is not available".to_string())
    );
    assert_eq!(MecabError::from_text(""), MecabError::Other(String::new()));
}

#[test]
fn unmatched_text_is_carried() {
    let e = MecabError::from_bytes("辞書が見つかりません".as_bytes());
    assert_eq!(e, MecabError::Other("辞書が見つかりません".to_string()));
    let e = MecabError::from_bytes(b"tagger.cpp(151) [load_dictionary_resource(param)]");
    assert_eq!(
        e,
        MecabError::Other("tagger.cpp(151) [load_dictionary_resource(param)]".to_string())
    );
}

#[test]
fn bytes_that_are_not_text_are_carried() {
    let e = MecabError::from_bytes(&[0x8e, 0xab, 0x8f, 0x91]);
    assert_eq!(e, MecabError::OtherBytes(vec![0x8e, 0xab, 0x8f, 0x91]));
    let e = MecabError::from_bytes(b"no more results\xff");
    assert_eq!(e, MecabError::OtherBytes(b"no more results\xff".to_vec()));
}

#[test]
fn missing_diagnostic_is_unknown() {
    assert_eq!(MecabError::from_tagger(None), MecabError::UnknownError);
    assert_eq!(MecabError::last(None), MecabError::UnknownError);
}

#[test]
fn present_diagnostic_is_translated() {
    assert_eq!(MecabError::from_tagger(Some(b"no more results")), MecabError::NoMoreResults);
    assert_eq!(MecabError::last(Some(b"Invalid model is passed")), MecabError::InvalidModel);
    assert_eq!(
        MecabError::last(Some(b"param.cpp(69) [ifs] no such file or directory: /x/dicrc")),
        MecabError::Other("param.cpp(69) [ifs] no such file or directory: /x/dicrc".to_string())
    );
    assert_eq!(MecabError::from_tagger(Some(&[0xff])), MecabError::OtherBytes(vec![0xff]));
}

#[test]
fn conversions_by_from() {
    let e: MecabError = MecabError::from("output buffer overflow");
    assert_eq!(e, MecabError::OutputBufferOverflow);
    let bytes: &[u8] = b"atomic model replacement is not supported";
    let e: MecabError = MecabError::from(bytes);
    assert_eq!(e, MecabError::NoAtomicSwap);
    let e: MecabError = MecabError::from(Utf8Error { valid_up_to: 3, error_len: Some(1) });
    assert_eq!(e, MecabError::NonUtf8String(Utf8Error { valid_up_to: 3, error_len: Some(1) }));
    let e: MecabError = MecabError::from(NulError { position: 1, bytes: vec![b'a', 0] });
    assert_eq!(e, MecabError::NulString(NulError { position: 1, bytes: vec![b'a', 0] }));
}

#[test]
fn argument_with_a_zero_becomes_nul_string() {
    let r = CString::new(b"-d\0/usr".to_vec());
    let e = match r {
        Ok(_) => panic!("a zero byte was accepted"),
        Err(e) => MecabError::from(e),
    };
    assert_eq!(e, MecabError::NulString(NulError { position: 2, bytes: b"-d\0/usr".to_vec() }));
}

#[test]
fn an_error_owns_its_payload() {
    let e = {
        let diagnostic = String::from("something else went wrong");
        MecabError::from_bytes(diagnostic.as_bytes())
    };
    assert_eq!(e, MecabError::Other("something else went wrong".to_string()));
}

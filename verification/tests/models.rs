use metalcab::arena::Arena;
use metalcab::dictionary::{DictionaryList, DictionaryType};
use metalcab::error::MecabError;
use metalcab::lattice::{Lattice, LatticeState};
use metalcab::model::Model;
use metalcab::record::{DictionaryRecord, NodeRecord, MECAB_NOR_NODE};
use metalcab::tagger::Settings;

fn dictionary(addr: usize, name: &[u8], type_: i32, next: usize) -> DictionaryRecord {
    DictionaryRecord {
        addr,
        filename: Some(name.to_vec()),
        charset: Some(b"UTF-8".to_vec()),
        size: 10,
        type_,
        lsize: 3,
        rsize: 3,
        version: 102,
        next,
    }
}

fn ipadic() -> DictionaryList {
    DictionaryList::new(vec![dictionary(0x40, b"ipadic/sys.dic", 0, 0)]).unwrap()
}

fn unidic() -> DictionaryList {
    DictionaryList::new(vec![
        dictionary(0x80, b"unidic/sys.dic", 0, 0xc0),
        dictionary(0xc0, b"user.dic", 1, 0),
    ])
    .unwrap()
}

fn plain() -> Settings {
    Settings::from_raw(0, 0x3f40_0000, 0, 0)
}

fn candidate(addr: usize, bnext: usize, surface: &[u8]) -> NodeRecord {
    NodeRecord {
        addr,
        prev: 0,
        next: 0,
        enext: 0,
        bnext,
        rpath: 0,
        lpath: 0,
        surface: Some(surface.to_vec()),
        feature: None,
        id: 0,
        length: surface.len() as u16,
        rlength: surface.len() as u16,
        rcAttr: 0,
        lcAttr: 0,
        posid: 0,
        char_type: 0,
        stat: MECAB_NOR_NODE,
        isbest: 0,
        alpha_bits: 0,
        beta_bits: 0,
        prob_bits: 0,
        wcost: 0,
        cost: 0,
    }
}

#[test]
fn a_model_is_made_from_a_pointer_that_is_not_null() {
    let m = Model::create(0x5000, ipadic(), None).unwrap();
    assert_eq!(m.as_ptr(), 0x5000);
    let d = m.dictionary_info().unwrap();
    assert_eq!(d.filename(), Some(&b"ipadic/sys.dic"[..]));
    assert_eq!(d.type_(), DictionaryType::MECAB_SYS_DIC);
    assert!(d.next().is_none());
}

#[test]
fn a_diagnostic_is_ignored_on_success() {
    let m = Model::create(0x5000, ipadic(), Some(b"no more results")).unwrap();
    assert_eq!(m.as_ptr(), 0x5000);
}

#[test]
fn a_null_model_is_a_failure_with_the_diagnostic() {
    let e = Model::create(0, DictionaryList::empty(), Some(b"Model is not available")).unwrap_err();
    assert_eq!(e, MecabError::ModelNotAvailable);
    let e = Model::create(0, ipadic(), None).unwrap_err();
    assert_eq!(e, MecabError::UnknownError);
    let e = Model::create(0, DictionaryList::empty(), Some(b"no such file: /x/dicrc")).unwrap_err();
    assert_eq!(e, MecabError::Other("no such file: /x/dicrc".to_string()));
    let e = Model::create(0, DictionaryList::empty(), Some(&[0x83, 0x47])).unwrap_err();
    assert_eq!(e, MecabError::OtherBytes(vec![0x83, 0x47]));
}

#[test]
fn model_from_pointer() {
    assert!(Model::from_ptr(0, ipadic()).is_none());
    assert_eq!(Model::from_ptr(0x5000, ipadic()).unwrap().as_ptr(), 0x5000);
    assert_eq!(Model::from_ptr_unchecked(0x5008, ipadic()).as_ptr(), 0x5008);
}

#[test]
fn a_model_without_dictionaries_reports_none() {
    let m = Model::create(0x5000, DictionaryList::empty(), None).unwrap();
    assert!(m.dictionary_info().is_none());
}

#[test]
fn a_model_makes_taggers_that_share_its_dictionaries() {
    let m = Model::create(0x5000, unidic(), None).unwrap();
    let t = m.createTagger(0x6000, plain(), None).unwrap();
    let u = m.createTagger(0x6100, plain(), None).unwrap();
    assert_eq!(t.as_ptr(), 0x6000);
    assert_eq!(u.as_ptr(), 0x6100);
    assert_eq!(t.dictionary_info().unwrap().filename(), Some(&b"unidic/sys.dic"[..]));
    assert_eq!(
        u.dictionary_info().unwrap().next().unwrap().type_(),
        DictionaryType::MECAB_USR_DIC
    );
    assert!(!t.nbest_enabled());
    assert_eq!(t.theta_bits(), 0x3f40_0000);
}

#[test]
fn a_null_tagger_is_a_failure() {
    let m = Model::create(0x5000, ipadic(), None).unwrap();
    let e = m.createTagger(0, plain(), Some(b"current model is not available")).unwrap_err();
    assert_eq!(e, MecabError::CurrentModelNotAvailable);
    let e = m.createTagger(0, plain(), None).unwrap_err();
    assert_eq!(e, MecabError::UnknownError);
}

#[test]
fn a_model_makes_lattices() {
    let m = Model::create(0x5000, ipadic(), None).unwrap();
    let l = m.createLattice(0x7000, None).unwrap();
    assert_eq!(l.as_ptr(), 0x7000);
    assert_eq!(l.size(), 0);
    let e = m.createLattice(0, Some(b"Invalid model is passed")).unwrap_err();
    assert_eq!(e, MecabError::InvalidModel);
    drop(m);
    assert!(!l.is_available());
}

#[test]
fn swap_gives_this_model_what_the_other_had() {
    let mut a = Model::create(0x5000, ipadic(), None).unwrap();
    let b = Model::create(0x5800, unidic(), None).unwrap();
    assert_eq!(a.swap(b, 1, None), Ok(()));
    assert_eq!(a.as_ptr(), 0x5000);
    let d = a.dictionary_info().unwrap();
    assert_eq!(d.filename(), Some(&b"unidic/sys.dic"[..]));
    assert_eq!(d.next().unwrap().filename(), Some(&b"user.dic"[..]));
    let t = a.createTagger(0x6000, plain(), None).unwrap();
    assert_eq!(t.dictionary_info().unwrap().as_ptr(), 0x80);
}

#[test]
fn swap_twice() {
    let mut a = Model::create(0x5000, ipadic(), None).unwrap();
    let b = Model::create(0x5800, unidic(), None).unwrap();
    let c = Model::create(0x5900, ipadic(), None).unwrap();
    assert!(a.swap(b, -1, None).is_ok());
    assert!(a.swap(c, 1, None).is_ok());
    assert_eq!(a.dictionary_info().unwrap().filename(), Some(&b"ipadic/sys.dic"[..]));
    assert!(a.dictionary_info().unwrap().next().is_none());
}

#[test]
fn a_failed_swap_leaves_the_model_as_it_was() {
    let mut a = Model::create(0x5000, ipadic(), None).unwrap();
    let b = Model::create(0x5800, unidic(), None).unwrap();
    let e = a.swap(b, 0, Some(b"atomic model replacement is not supported")).unwrap_err();
    assert_eq!(e, MecabError::NoAtomicSwap);
    assert_eq!(a.as_ptr(), 0x5000);
    assert_eq!(a.dictionary_info().unwrap().filename(), Some(&b"ipadic/sys.dic"[..]));
    let c = Model::create(0x5900, unidic(), None).unwrap();
    let e = a.swap(c, 0, Some(b"Passed model is not available")).unwrap_err();
    assert_eq!(e, MecabError::PassedModelNotAvailable);
    let d = Model::create(0x5a00, unidic(), None).unwrap();
    assert_eq!(a.swap(d, 0, None), Err(MecabError::UnknownError));
}

#[test]
fn lookup_gives_the_lattice_the_nodes() {
    let m = Model::create(0x5000, ipadic(), None).unwrap();
    let mut l = Lattice::new(0x7000);
    let arena = Arena::build(
        vec![candidate(0x300, 0x340, "東京都".as_bytes()), candidate(0x340, 0, "東京".as_bytes())],
        Vec::new(),
    )
    .unwrap();
    let state = LatticeState::new(arena, 0, false, 0, 0, Vec::new(), Vec::new()).unwrap();
    {
        let first = m.lookup(&mut l, 0x300, state).unwrap();
        assert_eq!(first.surface(), Some("東京都"));
        let second = first.bnext().unwrap();
        assert_eq!(second.surface(), Some("東京"));
        assert!(second.bnext().is_none());
    }
    assert_eq!(l.node(0x340).unwrap().surface(), Some("東京"));
    assert_eq!(l.as_ptr(), 0x7000);
}

#[test]
fn lookup_that_finds_nothing() {
    let m = Model::create(0x5000, ipadic(), None).unwrap();
    let mut l = Lattice::new(0x7000);
    assert!(m.lookup(&mut l, 0, LatticeState::blank()).is_none());
    let arena = Arena::build(vec![candidate(0x300, 0, b"a")], Vec::new()).unwrap();
    let state = LatticeState::new(arena, 0, false, 0, 0, Vec::new(), Vec::new()).unwrap();
    assert!(m.lookup(&mut l, 0x999, state).is_none());
    assert!(l.node(0x300).is_some());
}

#[test]
fn handles_can_be_shared_between_threads() {
    fn shared<T: Send + Sync>(_: &T) {}
    let m = Model::create(0x5000, ipadic(), None).unwrap();
    shared(&m);
    let t = m.createTagger(0x6000, plain(), None).unwrap();
    shared(&t);
    let l = m.createLattice(0x7000, None).unwrap();
    shared(&l);
}

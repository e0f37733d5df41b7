use metalcab::dictionary::{DictionaryInfo, DictionaryList, DictionaryType};
use metalcab::record::{DictionaryRecord, MECAB_SYS_DIC, MECAB_UNK_DIC, MECAB_USR_DIC};

fn record(addr: usize, type_: i32, next: usize) -> DictionaryRecord {
    DictionaryRecord {
        addr,
        filename: Some(b"/usr/lib/mecab/dic/ipadic/sys.dic".to_vec()),
        charset: Some(b"UTF-8".to_vec()),
        size: 392126,
        type_,
        lsize: 1316,
        rsize: 1317,
        version: 102,
        next,
    }
}

#[test]
fn codes_and_kinds() {
    assert_eq!(DictionaryType::from_code(0), Some(DictionaryType::MECAB_SYS_DIC));
    assert_eq!(DictionaryType::from_code(1), Some(DictionaryType::MECAB_USR_DIC));
    assert_eq!(DictionaryType::from_code(2), Some(DictionaryType::MECAB_UNK_DIC));
    assert_eq!(DictionaryType::from_code(3), None);
    assert_eq!(DictionaryType::from_code(-1), None);
    assert_eq!(DictionaryType::from_code(i32::MAX), None);
    assert_eq!(DictionaryType::MECAB_SYS_DIC.code(), 0);
    assert_eq!(DictionaryType::MECAB_USR_DIC.code(), 1);
    assert_eq!(DictionaryType::MECAB_UNK_DIC.code(), 2);
    assert_eq!(MECAB_SYS_DIC, 0);
    assert_eq!(MECAB_USR_DIC, 1);
    assert_eq!(MECAB_UNK_DIC, 2);
}

#[test]
fn empty_list_has_no_head() {
    let list = DictionaryList::empty();
    assert_eq!(list.len(), 0);
    assert!(list.head().is_none());
    let list = DictionaryList::new(Vec::new()).unwrap();
    assert!(list.head().is_none());
    assert!(DictionaryInfo::from_ptr(&list, 0).is_none());
    assert!(DictionaryInfo::from_ptr(&list, 0x40).is_none());
}

#[test]
fn a_list_is_walked_to_its_null_link() {
    let list = DictionaryList::new(vec![
        record(0x40, 0, 0x80),
        record(0x80, 1, 0xc0),
        record(0xc0, 2, 0),
    ])
    .unwrap();
    assert_eq!(list.len(), 3);
    let mut kinds = Vec::new();
    let mut addrs = Vec::new();
    let mut cur = list.head();
    while let Some(d) = cur {
        kinds.push(d.type_());
        addrs.push(d.as_ptr());
        cur = d.next();
    }
    assert_eq!(
        kinds,
        vec![
            DictionaryType::MECAB_SYS_DIC,
            DictionaryType::MECAB_USR_DIC,
            DictionaryType::MECAB_UNK_DIC
        ]
    );
    assert_eq!(addrs, vec![0x40, 0x80, 0xc0]);
}

#[test]
fn dictionary_fields_are_read_as_recorded() {
    let mut r = record(0x40, 1, 0);
    r.charset = None;
    let list = DictionaryList::new(vec![r]).unwrap();
    let d = list.head().unwrap();
    assert_eq!(d.filename(), Some(&b"/usr/lib/mecab/dic/ipadic/sys.dic"[..]));
    assert_eq!(d.charset(), None);
    assert_eq!(d.size(), 392126);
    assert_eq!(d.type_(), DictionaryType::MECAB_USR_DIC);
    assert_eq!(d.lsize(), 1316);
    assert_eq!(d.rsize(), 1317);
    assert_eq!(d.version(), 102);
    assert!(d.next().is_none());
}

#[test]
fn unknown_kind_is_refused() {
    assert!(DictionaryList::new(vec![record(0x40, 3, 0)]).is_none());
    assert!(DictionaryList::new(vec![record(0x40, -1, 0)]).is_none());
    assert!(DictionaryList::new(vec![record(0x40, 0, 0x80), record(0x80, 9, 0)]).is_none());
}

#[test]
fn broken_links_are_refused() {
    assert!(DictionaryList::new(vec![record(0x40, 0, 0x80)]).is_none());
    assert!(DictionaryList::new(vec![record(0x40, 0, 0), record(0x80, 0, 0)]).is_none());
    assert!(DictionaryList::new(vec![record(0x40, 0, 0xc0), record(0x80, 0, 0)]).is_none());
    assert!(DictionaryList::new(vec![record(0, 0, 0)]).is_none());
}

#[test]
fn records_are_found_by_address() {
    let list = DictionaryList::new(vec![record(0x40, 0, 0x80), record(0x80, 2, 0)]).unwrap();
    let d = DictionaryInfo::from_ptr(&list, 0x80).unwrap();
    assert_eq!(d.type_(), DictionaryType::MECAB_UNK_DIC);
    assert!(d.next().is_none());
    assert!(DictionaryInfo::from_ptr(&list, 0).is_none());
    assert!(DictionaryInfo::from_ptr(&list, 0x81).is_none());
    let d = DictionaryInfo::from_ptr_unchecked(&list, 0x40);
    assert_eq!(d.next().unwrap().as_ptr(), 0x80);
}

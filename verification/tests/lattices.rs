use metalcab::arena::Arena;
use metalcab::lattice::{slot_count, Lattice, LatticeState};
use metalcab::record::{NodeRecord, MECAB_BOS_NODE, MECAB_EOS_NODE, MECAB_NOR_NODE};

fn word(addr: usize, prev: usize, next: usize, stat: u8, surface: &[u8]) -> NodeRecord {
    NodeRecord {
        addr,
        prev,
        next,
        enext: 0,
        bnext: 0,
        rpath: 0,
        lpath: 0,
        surface: Some(surface.to_vec()),
        feature: None,
        id: 0,
        length: surface.len() as u16,
        rlength: surface.len() as u16,
        rcAttr: 0,
        lcAttr: 0,
        posid: 0,
        char_type: 0,
        stat,
        isbest: 1,
        alpha_bits: 0,
        beta_bits: 0,
        prob_bits: 0,
        wcost: 0,
        cost: 0,
    }
}

fn two_letters() -> Arena {
    Arena::build(
        vec![
            word(0x100, 0, 0x200, MECAB_BOS_NODE, b""),
            word(0x200, 0x100, 0x300, MECAB_NOR_NODE, b"a"),
            word(0x300, 0x200, 0x400, MECAB_NOR_NODE, b"b"),
            word(0x400, 0x300, 0, MECAB_EOS_NODE, b""),
        ],
        Vec::new(),
    )
    .unwrap()
}

fn analysed() -> LatticeState {
    LatticeState::new(
        two_letters(),
        2,
        true,
        0x100,
        0x400,
        vec![0x200, 0x300, 0x400, 0, 0, 0],
        vec![0x100, 0x200, 0x300, 0, 0, 0],
    )
    .unwrap()
}

#[test]
fn a_new_lattice_holds_nothing() {
    let l = Lattice::new(0x7000);
    assert_eq!(l.as_ptr(), 0x7000);
    assert_eq!(l.size(), 0);
    assert!(!l.is_available());
    assert!(l.bos_node().is_none());
    assert!(l.eos_node().is_none());
    assert!(l.all_begin_nodes().is_empty());
    assert!(l.all_end_nodes().is_empty());
}

#[test]
fn a_new_lattice_refuses_every_position() {
    let l = Lattice::new(0x7000);
    for pos in [0usize, 1, 2, 3, 4, 5, 100, usize::MAX - 4, usize::MAX] {
        assert!(!l.in_range(pos), "position {}", pos);
    }
}

#[test]
fn null_is_no_lattice() {
    assert!(Lattice::from_ptr(0).is_none());
    let l = Lattice::from_ptr(0x7000).unwrap();
    assert_eq!(l.as_ptr(), 0x7000);
    assert_eq!(l.size(), 0);
    assert_eq!(Lattice::from_ptr_unchecked(8).as_ptr(), 8);
}

#[test]
fn positions_up_to_four_past_the_size_are_admitted() {
    let mut l = Lattice::new(0x7000);
    l.refresh(analysed());
    assert_eq!(l.size(), 2);
    for pos in 0..6usize {
        assert!(l.in_range(pos), "position {}", pos);
    }
    for pos in [6usize, 7, 100, usize::MAX] {
        assert!(!l.in_range(pos), "position {}", pos);
    }
}

#[test]
fn nodes_by_position() {
    let mut l = Lattice::new(0x7000);
    l.refresh(analysed());
    assert!(l.is_available());
    assert_eq!(l.bos_node().unwrap().as_ptr(), 0x100);
    assert_eq!(l.eos_node().unwrap().as_ptr(), 0x400);
    assert_eq!(l.begin_nodes(0).unwrap().surface(), Some("a"));
    assert_eq!(l.begin_nodes(1).unwrap().surface(), Some("b"));
    assert_eq!(l.begin_nodes(2).unwrap().stat(), MECAB_EOS_NODE);
    assert!(l.begin_nodes(3).is_none());
    assert!(l.begin_nodes(5).is_none());
    assert_eq!(l.end_nodes(0).unwrap().stat(), MECAB_BOS_NODE);
    assert_eq!(l.end_nodes(2).unwrap().surface(), Some("b"));
    assert!(l.end_nodes(5).is_none());
    assert_eq!(l.node(0x300).unwrap().surface(), Some("b"));
    assert!(l.node(0x301).is_none());
    assert!(l.node(0).is_none());
}

#[test]
fn all_positions_at_once() {
    let mut l = Lattice::new(0x7000);
    l.refresh(analysed());
    let begin = l.all_begin_nodes();
    assert_eq!(begin.len(), 6);
    let addrs: Vec<Option<usize>> = begin.iter().map(|n| n.map(|n| n.as_ptr())).collect();
    assert_eq!(addrs, vec![Some(0x200), Some(0x300), Some(0x400), None, None, None]);
    let end = l.all_end_nodes();
    assert_eq!(end.len(), 6);
    let addrs: Vec<Option<usize>> = end.iter().map(|n| n.map(|n| n.as_ptr())).collect();
    assert_eq!(addrs, vec![Some(0x100), Some(0x200), Some(0x300), None, None, None]);
}

#[test]
fn clear_empties_the_lattice() {
    let mut l = Lattice::new(0x7000);
    l.refresh(analysed());
    assert_eq!(l.bos_node().unwrap().next().unwrap().surface(), Some("a"));
    l.clear();
    assert_eq!(l.as_ptr(), 0x7000);
    assert_eq!(l.size(), 0);
    assert!(!l.is_available());
    assert!(l.bos_node().is_none());
    assert!(l.eos_node().is_none());
    assert!(l.node(0x100).is_none());
    assert!(l.all_begin_nodes().is_empty());
    assert!(!l.in_range(0));
}

#[test]
fn refresh_replaces_what_was_held() {
    let mut l = Lattice::new(0x7000);
    l.refresh(analysed());
    let other = Arena::build(
        vec![
            word(0x900, 0, 0xa00, MECAB_BOS_NODE, b""),
            word(0xa00, 0x900, 0, MECAB_EOS_NODE, b""),
        ],
        Vec::new(),
    )
    .unwrap();
    let state =
        LatticeState::new(other, 1, true, 0x900, 0xa00, vec![0xa00, 0, 0, 0, 0], vec![0x900, 0, 0, 0, 0])
            .unwrap();
    l.refresh(state);
    assert_eq!(l.size(), 1);
    assert!(l.node(0x100).is_none());
    assert_eq!(l.bos_node().unwrap().as_ptr(), 0x900);
    assert_eq!(l.all_begin_nodes().len(), 5);
    assert!(l.in_range(4));
    assert!(!l.in_range(5));
}

#[test]
fn blank_state() {
    let mut l = Lattice::new(0x7000);
    l.refresh(analysed());
    l.refresh(LatticeState::blank());
    assert_eq!(l.size(), 0);
    assert!(!l.in_range(0));
    let s = LatticeState::new(Arena::empty(), 0, false, 0, 0, Vec::new(), Vec::new());
    assert!(s.is_some());
}

#[test]
fn entries_must_match_the_size() {
    let five = vec![0usize; 5];
    let six = vec![0usize; 6];
    let seven = vec![0usize; 7];
    assert!(LatticeState::new(two_letters(), 2, false, 0, 0, six.clone(), six.clone()).is_some());
    assert!(LatticeState::new(two_letters(), 2, false, 0, 0, five.clone(), six.clone()).is_none());
    assert!(LatticeState::new(two_letters(), 2, false, 0, 0, six.clone(), seven.clone()).is_none());
    assert!(LatticeState::new(two_letters(), 2, false, 0, 0, Vec::new(), Vec::new()).is_none());
    assert!(LatticeState::new(two_letters(), 0, false, 0, 0, Vec::new(), Vec::new()).is_some());
    assert!(LatticeState::new(two_letters(), 0, false, 0, 0, vec![0; 4], vec![0; 4]).is_none());
    assert!(LatticeState::new(two_letters(), 1, false, 0, 0, five.clone(), five).is_some());
}

#[test]
fn a_size_too_large_for_its_slots_is_refused() {
    assert!(LatticeState::new(Arena::empty(), usize::MAX, false, 0, 0, Vec::new(), Vec::new()).is_none());
    assert!(
        LatticeState::new(Arena::empty(), usize::MAX - 3, false, 0, 0, Vec::new(), Vec::new()).is_none()
    );
}

#[test]
fn addresses_must_be_nodes_of_the_arena() {
    let six = vec![0usize; 6];
    assert!(LatticeState::new(two_letters(), 2, false, 0x999, 0, six.clone(), six.clone()).is_none());
    assert!(LatticeState::new(two_letters(), 2, false, 0, 0x999, six.clone(), six.clone()).is_none());
    let mut begin = six.clone();
    begin[5] = 0x999;
    assert!(LatticeState::new(two_letters(), 2, false, 0, 0, begin, six.clone()).is_none());
    let mut end = six.clone();
    end[0] = 0x201;
    assert!(LatticeState::new(two_letters(), 2, false, 0, 0, six, end).is_none());
}

#[test]
fn a_result_has_both_end_nodes() {
    let six = vec![0usize; 6];
    assert!(LatticeState::new(two_letters(), 2, true, 0, 0x400, six.clone(), six.clone()).is_none());
    assert!(LatticeState::new(two_letters(), 2, true, 0x100, 0, six.clone(), six.clone()).is_none());
    assert!(LatticeState::new(two_letters(), 2, true, 0x100, 0x400, six.clone(), six.clone()).is_some());
    assert!(LatticeState::new(two_letters(), 2, false, 0x100, 0, six.clone(), six).is_some());
}

#[test]
fn four_slots_more_than_the_size() {
    assert_eq!(slot_count(0), 0);
    assert_eq!(slot_count(1), 5);
    assert_eq!(slot_count(2), 6);
    assert_eq!(slot_count(1000), 1004);
    assert_eq!(slot_count(usize::MAX - 4), usize::MAX);
}

//! The analyser's fixed-layout records, as plain values.
//!
//! A record is a copy of what the analyser holds at one address. A link to
//! another record is that record's address, and zero is the null link.
//! Floating-point fields are carried as their bit patterns.

use vstd::prelude::*;

verus! {

/// A node that the dictionary defines.
pub const MECAB_NOR_NODE: u8 = 0;

/// A node for a word that the dictionary does not know.
pub const MECAB_UNK_NODE: u8 = 1;

/// The virtual node at the beginning of a sentence.
pub const MECAB_BOS_NODE: u8 = 2;

/// The virtual node at the end of a sentence.
pub const MECAB_EOS_NODE: u8 = 3;

/// The virtual node at the end of an N-best enumeration.
pub const MECAB_EON_NODE: u8 = 4;

/// Code of a system dictionary.
pub const MECAB_SYS_DIC: i32 = 0;

/// Code of a user dictionary.
pub const MECAB_USR_DIC: i32 = 1;

/// Code of a dictionary for unknown words.
pub const MECAB_UNK_DIC: i32 = 2;

/// The status of a node.
#[derive(Debug, Clone, Copy, PartialEq, Eq, Hash)]
pub enum NodeStatus {
    /// A node that the dictionary defines.
    Normal,
    /// A node for a word that the dictionary does not know.
    Unknown,
    /// The virtual node at the beginning of a sentence.
    BeginOfSentence,
    /// The virtual node at the end of a sentence.
    EndOfSentence,
    /// The virtual node at the end of an N-best enumeration.
    EndOfNBest,
}

/// The status that a code stands for. Only five codes stand for one.
pub open spec fn node_status_of(code: u8) -> Option<NodeStatus> {
    if code == MECAB_NOR_NODE {
        Some(NodeStatus::Normal)
    } else if code == MECAB_UNK_NODE {
        Some(NodeStatus::Unknown)
    } else if code == MECAB_BOS_NODE {
        Some(NodeStatus::BeginOfSentence)
    } else if code == MECAB_EOS_NODE {
        Some(NodeStatus::EndOfSentence)
    } else if code == MECAB_EON_NODE {
        Some(NodeStatus::EndOfNBest)
    } else {
        None
    }
}

impl NodeStatus {
    /// The status that `code` stands for, if it stands for one.
    pub fn from_code(code: u8) -> (r: Option<NodeStatus>)
        ensures
            r == node_status_of(code),
    {
        if code == MECAB_NOR_NODE {
            Some(NodeStatus::Normal)
        } else if code == MECAB_UNK_NODE {
            Some(NodeStatus::Unknown)
        } else if code == MECAB_BOS_NODE {
            Some(NodeStatus::BeginOfSentence)
        } else if code == MECAB_EOS_NODE {
            Some(NodeStatus::EndOfSentence)
        } else if code == MECAB_EON_NODE {
            Some(NodeStatus::EndOfNBest)
        } else {
            None
        }
    }

    /// The code of this status.
    pub fn code(self) -> (r: u8)
        ensures
            node_status_of(r) == Some(self),
    {
        match self {
            NodeStatus::Normal => MECAB_NOR_NODE,
            NodeStatus::Unknown => MECAB_UNK_NODE,
            NodeStatus::BeginOfSentence => MECAB_BOS_NODE,
            NodeStatus::EndOfSentence => MECAB_EOS_NODE,
            NodeStatus::EndOfNBest => MECAB_EON_NODE,
        }
    }
}

/// One candidate morpheme of a lattice.
#[allow(non_snake_case)]
#[derive(Debug, Clone, PartialEq, Eq)]
pub struct NodeRecord {
    /// Where the analyser holds this node. Never zero in an arena.
    pub addr: usize,
    /// The node before this one on the path.
    pub prev: usize,
    /// The node after this one on the path.
    pub next: usize,
    /// The next node that ends at the same position.
    pub enext: usize,
    /// The next node that begins at the same position.
    pub bnext: usize,
    /// The first edge to the right. Null when no edges are recorded.
    pub rpath: usize,
    /// The first edge to the left. Null when no edges are recorded.
    pub lpath: usize,
    /// The surface form: exactly `length` bytes, not terminated.
    pub surface: Option<Vec<u8>>,
    /// The feature string, without its terminator.
    pub feature: Option<Vec<u8>>,
    /// The node's unique number.
    pub id: u32,
    /// Byte length of the surface form.
    pub length: u16,
    /// Byte length of the surface form with the white space before it.
    pub rlength: u16,
    /// Right attribute id.
    pub rcAttr: u16,
    /// Left attribute id.
    pub lcAttr: u16,
    /// Part-of-speech id.
    pub posid: u16,
    /// Character type.
    pub char_type: u8,
    /// Status code: one of the `MECAB_*_NODE` constants.
    pub stat: u8,
    /// Nonzero when the node is on the best path.
    pub isbest: u8,
    /// Forward log summation, as the bits of a 32-bit float.
    pub alpha_bits: u32,
    /// Backward log summation, as the bits of a 32-bit float.
    pub beta_bits: u32,
    /// Marginal probability, as the bits of a 32-bit float.
    pub prob_bits: u32,
    /// Word cost.
    pub wcost: i16,
    /// Best accumulated cost from the beginning of the sentence.
    pub cost: i64,
}

/// One edge of a lattice, from a left node to a right node.
#[derive(Debug, Clone, Copy, PartialEq, Eq)]
pub struct PathRecord {
    /// Where the analyser holds this edge. Never zero in an arena.
    pub addr: usize,
    /// The node on the right.
    pub rnode: usize,
    /// The next edge with the same left node.
    pub rnext: usize,
    /// The node on the left.
    pub lnode: usize,
    /// The next edge with the same right node.
    pub lnext: usize,
    /// Local cost.
    pub cost: i32,
    /// Marginal probability, as the bits of a 32-bit float.
    pub prob_bits: u32,
}

/// What the analyser tells about one dictionary.
#[derive(Debug, Clone, PartialEq, Eq)]
pub struct DictionaryRecord {
    /// Where the analyser holds this record. Never zero in a list.
    pub addr: usize,
    /// File name of the dictionary, without its terminator.
    pub filename: Option<Vec<u8>>,
    /// Character set of the dictionary, without its terminator.
    pub charset: Option<Vec<u8>>,
    /// Number of words.
    pub size: u32,
    /// Kind of dictionary: one of the `MECAB_*_DIC` constants.
    pub type_: i32,
    /// Number of left attribute ids.
    pub lsize: u32,
    /// Number of right attribute ids.
    pub rsize: u32,
    /// Version of the dictionary format.
    pub version: u16,
    /// The record after this one.
    pub next: usize,
}

} // verus!

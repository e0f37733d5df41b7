//! A verified safety layer in front of a handle-based morphological analyser.
//!
//! The analyser itself hands out untracked, nullable addresses. This crate
//! turns what it reports into values with checked invariants: handles that
//! are never null, node graphs whose every link resolves, views that cannot
//! outlive the handle they were read from, and a closed taxonomy of errors.
//!
//! The crate never talks to the analyser. Every operation takes what the
//! analyser answered as plain values and decides what the caller sees.

pub mod text;
pub mod cstr;
pub mod error;
pub mod index;
pub mod record;
pub mod arena;
pub mod node;
pub mod sentence;
pub mod dictionary;
pub mod lattice;
pub mod model;
pub mod tagger;

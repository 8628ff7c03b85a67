//! A small single-threaded ownership and shared-mutability runtime.
//!
//! The crate provides the building blocks of deterministic ownership:
//! an exclusive box, a transparent pointer-like wrapper, a runtime-checked
//! interior-mutability cell, a reference-counted shared owner with weak
//! back-references, and deterministic destructor hooks, together with a
//! quota tracker that reports usage levels through a caller-supplied
//! messenger.

pub mod boxed;
pub mod cell;
pub mod hook;
pub mod rc;
pub mod tracker;
pub mod tree;

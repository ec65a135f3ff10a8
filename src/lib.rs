//! Atomic load, store, swap and compare-exchange on byte patterns that may be
//! uninitialized, with the per-architecture instruction choices that realise them.
//!
//! - `ordering`: the memory orderings and which of them each operation accepts.
//! - `backend`: the instruction forms and fences that give each ordering, per architecture.
//! - `strategy`: which instruction sequence each architecture uses for a width and an operation.
//! - `retry`: the load-exclusive / store-conditional retry loop as a state machine.
//! - `partword`: 8- and 16-bit operations carried out on the containing word.
//! - `s390x`: condition-code and rotation helpers of the z/Architecture backend.
//! - `memory`: the operations themselves, on a byte-addressed memory.
//! - `laws`: what holds of several operations in sequence.
pub mod backend;
pub mod laws;
pub mod memory;
pub mod ordering;
pub mod partword;
pub mod retry;
pub mod s390x;
pub mod strategy;

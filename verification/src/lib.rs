//! Generation core for compile-time-checked incremental builders.
//!
//! Given the shape of a plain data record (its fields, each named or
//! positional, and its generic parameters), this library computes the
//! description of a typestate builder for that record: one boolean
//! compile-time flag per field, a setter per field that flips exactly its
//! own flag, a finalizer gated on every flag being set or defaultable, and
//! a deterministic collision-free namespace for the emitted items.
//!
//! The library also provides the fixed capability markers consumed by the
//! emitted code, and a slot-table model of the builders themselves, whose
//! contracts establish the typestate discipline: flags track exactly the
//! fields written, a field cannot be set twice, finalization demands every
//! field set or defaultable, and the outcome is independent of the order
//! in which distinct fields are set.

pub mod builder;
pub mod emit;
pub mod flags;
pub mod markers;
pub mod naming;
pub mod shape;
pub mod text;

//! Capability markers consumed by the emitted builder code.
//!
//! `InitSt<T, IS_INIT>` stands for one storage slot of field type `T`
//! whose compile-time flag is `IS_INIT`. The marker traits are pure
//! compile-time predicates on such a slot: `Uninit` holds exactly of a
//! slot whose flag is still `false`, `Init` of one whose flag is `true`,
//! and `AutoInit` of any slot that can be brought to the initialized
//! state — either because it already is, or because the field type can
//! supply a default value.

use vstd::prelude::*;

verus! {

/// One storage slot of field type `T`, tagged with its compile-time flag.
///
/// The slot holds `Some` value exactly when the field has been written;
/// the flag `IS_INIT` is the type-level record of that fact.
pub struct InitSt<T, const IS_INIT: bool>(pub Option<T>);

/// Compile-time predicate: this slot's flag is still `false`.
pub trait Uninit {

}

/// Compile-time predicate: this slot's flag is `true`.
pub trait Init {

}

impl<T> Uninit for InitSt<T, false> {

}

impl<T> Init for InitSt<T, true> {

}

/// A field type able to supply a default value when left unset.
pub trait FillDefault: Sized {
    /// The default value, as seen by contracts.
    spec fn fill_spec() -> Self;

    /// Produce the default value.
    fn fill() -> (r: Self)
        ensures
            r == Self::fill_spec(),
    ;
}

impl FillDefault for u64 {
    open spec fn fill_spec() -> u64 {
        0u64
    }

    fn fill() -> u64 {
        0u64
    }
}

impl FillDefault for bool {
    open spec fn fill_spec() -> bool {
        false
    }

    fn fill() -> bool {
        false
    }
}

/// Capability of a slot to reach the initialized state: fill the slot
/// with the field type's default value if its flag is still `false`,
/// and leave it untouched if the flag is already `true`.
pub trait AutoInit: Sized {
    /// The field type held by the slot.
    type Value;

    /// The initialized slot that `init` yields, as seen by contracts.
    spec fn filled_spec(self) -> InitSt<Self::Value, true>;

    /// Bring the slot to the initialized state.
    fn init(self) -> (r: InitSt<Self::Value, true>)
        ensures
            r == self.filled_spec(),
    ;
}

impl<T: FillDefault> AutoInit for InitSt<T, false> {
    type Value = T;

    open spec fn filled_spec(self) -> InitSt<T, true> {
        InitSt(Some(T::fill_spec()))
    }

    fn init(self) -> (r: InitSt<T, true>) {
        InitSt(Some(T::fill()))
    }
}

impl<T> AutoInit for InitSt<T, true> {
    type Value = T;

    open spec fn filled_spec(self) -> InitSt<T, true> {
        self
    }

    fn init(self) -> (r: InitSt<T, true>) {
        self
    }
}

} // verus!

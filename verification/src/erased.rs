//! Type-erased values.
//!
//! The store holds values of many distinct types in one slot sequence, so
//! each value is erased to an `ErasedValue` on insertion and recovered at
//! its concrete type on access. Recovery leans on `std::any` downcasting
//! and is the one trusted boundary of this crate: the type parameter `V` is
//! threaded by the Rust type system from `erase::<V>` through the token that
//! names the value to the matching recovery call, so a recovery applied to
//! the value a valid token names always sees the type the value was erased
//! at. A recovery at any other type would panic — the downcast cannot be
//! given a contract that rules this out, since types are not specification
//! values — but under the tokens' typing discipline no such call is ever
//! made. Verus checks everything around this boundary — which slot is
//! read, and that it holds the value the token's episode stored — but not
//! the downcast itself.

use vstd::prelude::*;

verus! {

/// A value of some `'static` type, erased for uniform storage.
///
/// Opaque to verification: the slot bookkeeping around it is verified, the
/// boxed content is not.
#[verifier::external_body]
pub struct ErasedValue {
    inner: Box<dyn core::any::Any>,
}

/// Erase a value for uniform storage. Relies on `Box::new` and the
/// unsizing coercion to `dyn Any`: the box holds exactly `value`, at
/// dynamic type `V`.
#[verifier::external_body]
pub(crate) fn erase<V: 'static>(value: V) -> ErasedValue {
    ErasedValue { inner: Box::new(value) }
}

/// Recover a shared reference at the erasure type. Relies on
/// `<dyn Any>::downcast_ref`, which returns the boxed value whenever the
/// dynamic type is `V`; it is `V` here because `e` came from `erase::<V>`
/// (the token type parameter ties the two calls together).
#[verifier::external_body]
pub(crate) fn erased_ref<V: 'static>(e: &ErasedValue) -> &V {
    e.inner.downcast_ref::<V>().unwrap()
}

/// Recover an exclusive reference at the erasure type. Relies on
/// `<dyn Any>::downcast_mut`, as `erased_ref` relies on `downcast_ref`.
#[verifier::external_body]
pub(crate) fn erased_mut<V: 'static>(e: &mut ErasedValue) -> &mut V {
    e.inner.downcast_mut::<V>().unwrap()
}

/// Recover the owned value at the erasure type. Relies on
/// `Box::<dyn Any>::downcast`, as `erased_ref` relies on `downcast_ref`.
#[verifier::external_body]
pub(crate) fn erased_take<V: 'static>(e: ErasedValue) -> V {
    *e.inner.downcast::<V>().unwrap()
}

} // verus!

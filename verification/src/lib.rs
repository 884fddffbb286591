//! A heterogeneous value store.
//!
//! A single [`Store`] holds values of many distinct types at once. Each
//! insertion hands back a small, cloneable, typed [`Token`] naming the
//! stored value; reads, writes and removal all go through tokens. Removal
//! through any clone of a token invalidates every clone at once, and a
//! freed slot is recycled for later insertions without ever honouring a
//! stale token. Nested access sessions ([`StoreProxy`]) let a caller mutate
//! one value while still operating on the rest of the store, with
//! double-borrows detected at runtime.

pub mod arena;
pub mod erased;
pub mod session;
pub mod store;

pub use arena::Arena;
pub use arena::Slot;
pub use erased::ErasedValue;
pub use session::StoreProxy;
pub use store::Store;
pub use store::Token;

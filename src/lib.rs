//! A container that holds either an initializer or the value it produced, and turns the first
//! into the second on demand.
//!
//! `LazyMut<T>` starts out either holding an initializer (`LazyMut::Init`) or already holding a
//! value (`LazyMut::Value`). Reading the value requires it to be initialized; mutable access
//! initializes it first when needed.
mod lazy;
mod laws;

pub use lazy::LazyMut;
pub use lazy::UNINITIALIZED_TEXT;
pub use laws::{init_is_idempotent, pending_is_uninitialized, ready_is_initialized};

use vstd::prelude::*;

use crate::lazy::LazyMut;

verus! {

/// A container built from an initializer is not initialized, and holds no value yet.
pub proof fn pending_is_uninitialized<T, F: Fn() -> T>(init: F)
    ensures
        !LazyMut::<T, F>::Init(init).spec_is_initialized(),
        LazyMut::<T, F>::Init(init).spec_get() is None,
{
}

/// A container built from a value is initialized, and `get` gives back exactly that value.
pub proof fn ready_is_initialized<T, F: Fn() -> T>(v: T)
    ensures
        LazyMut::<T, F>::Value(v).spec_is_initialized(),
        LazyMut::<T, F>::Value(v).spec_get() == Some(v),
{
}

/// Initializing twice is the same as initializing once: the first `init` on a pending container
/// stores a result of its initializer, and the second leaves the container as it was, without
/// running the initializer again.
pub proof fn init_is_idempotent<T, F: Fn() -> T>(
    c: LazyMut<T, F>,
    once: LazyMut<T, F>,
    twice: LazyMut<T, F>,
)
    requires
        c.initializes_to(once),
        once.initializes_to(twice),
    ensures
        once.spec_is_initialized(),
        once.can_initialize(),
        c.yields(once.spec_get().unwrap()),
        twice == once,
{
}

} // verus!

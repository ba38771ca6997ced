use vstd::prelude::*;

verus! {

/// The text rendered for a container whose initializer has not run yet.
pub const UNINITIALIZED_TEXT: &'static str = "{uninitialized}";

/// A mutable lazy value with either an initializer or a value.
///
/// The initializer is a zero-argument callable; by default a plain function pointer, so that a
/// container can be built in a constant context and cloned cheaply.
#[derive(Clone, Debug)]
pub enum LazyMut<T, F = fn() -> T> {
    /// An initializer that will be run to obtain the first value
    Init(F),
    /// The value from the initializer
    Value(T),
}

impl<T, F: Fn() -> T> LazyMut<T, F> {
    /// Whether the value is present.
    pub open spec fn spec_is_initialized(&self) -> bool {
        self is Value
    }

    /// The value, where it is present.
    pub open spec fn spec_get(&self) -> Option<T> {
        match self {
            LazyMut::Init(_) => None,
            LazyMut::Value(v) => Some(*v),
        }
    }

    /// The initializer can be run, where it is still pending.
    pub open spec fn can_initialize(&self) -> bool {
        self matches LazyMut::Init(f) ==> f.requires(())
    }

    /// `v` is a value that the container yields when it is initialized: the held value, or a
    /// result of running the initializer.
    pub open spec fn yields(&self, v: T) -> bool {
        match self {
            LazyMut::Init(f) => f.ensures((), v),
            LazyMut::Value(w) => v == *w,
        }
    }

    /// `next` is the state after initializing `self` if needed: a pending container becomes
    /// `Value` holding a result of its initializer, and an initialized one is left as it was.
    pub open spec fn initializes_to(&self, next: Self) -> bool {
        match next {
            LazyMut::Init(_) => false,
            LazyMut::Value(v) => match self {
                LazyMut::Init(f) => f.ensures((), v),
                LazyMut::Value(_) => next == *self,
            },
        }
    }

    /// Returns the wrapped value, initializing if needed
    pub fn unwrap(self) -> (r: T)
        requires
            self.can_initialize(),
        ensures
            self.yields(r),
    {
        match self {
            LazyMut::Init(init) => init(),
            LazyMut::Value(val) => val,
        }
    }

    /// Initializes the wrapped value if it is uninitialized
    pub fn init(&mut self) -> (r: &mut LazyMut<T, F>)
        requires
            old(self).can_initialize(),
        ensures
            old(self).initializes_to(*r),
            *final(self) == *final(r),
    {
        let val = match self {
            LazyMut::Init(init) => init(),
            LazyMut::Value(_) => {
                return self;
            },
        };
        *self = LazyMut::Value(val);
        self
    }

    /// Initializes the wrapped value; the container must not be initialized yet
    pub fn init_once(&mut self) -> (r: &mut LazyMut<T, F>)
        requires
            !old(self).spec_is_initialized(),
            old(self).can_initialize(),
        ensures
            old(self).initializes_to(*r),
            *final(self) == *final(r),
    {
        let val = match self {
            LazyMut::Init(init) => init(),
            LazyMut::Value(_) => {
                return self;
            },
        };
        *self = LazyMut::Value(val);
        self
    }

    /// Tries to get a reference to the value, returns `None` if the value is uninitialized
    ///
    /// Uses associated function syntax (`LazyMut::get(&VAL)`)
    pub fn get(this: &LazyMut<T, F>) -> (r: Option<&T>)
        ensures
            match this.spec_get() {
                None => r is None,
                Some(v) => r matches Some(x) && *x == v,
            },
    {
        match this {
            LazyMut::Init(_) => None,
            LazyMut::Value(val) => Some(val),
        }
    }

    /// Tries to get a mutable reference to the value, returns `None` if the value is uninitialized
    ///
    /// Uses associated function syntax (`LazyMut::get_mut(&mut VAL)`)
    pub fn get_mut(this: &mut LazyMut<T, F>) -> (r: Option<&mut T>)
        ensures
            match r {
                None => !old(this).spec_is_initialized() && *final(this) == *old(this),
                Some(x) => old(this).spec_get() == Some(*x) && *final(this) == LazyMut::<
                    T,
                    F,
                >::Value(*final(x)),
            },
    {
        match this {
            LazyMut::Init(_) => None,
            LazyMut::Value(val) => Some(val),
        }
    }

    /// Returns `true` if the wrapped value has been initialized
    pub fn is_initialized(&self) -> (r: bool)
        ensures
            r == self.spec_is_initialized(),
    {
        match self {
            LazyMut::Init(_) => false,
            LazyMut::Value(_) => true,
        }
    }

    /// A reference to the value, which must have been initialized
    pub fn deref(&self) -> (r: &T)
        requires
            self.spec_is_initialized(),
        ensures
            self.spec_get() == Some(*r),
    {
        match self {
            LazyMut::Init(_) => vstd::pervasive::unreached(),
            LazyMut::Value(val) => val,
        }
    }

    /// A mutable reference to the value, initializing it first if needed
    pub fn deref_mut(&mut self) -> (r: &mut T)
        requires
            old(self).can_initialize(),
        ensures
            old(self).yields(*r),
            *final(self) == LazyMut::<T, F>::Value(*final(r)),
    {
        self.init();
        match self {
            LazyMut::Init(_) => vstd::pervasive::unreached(),
            LazyMut::Value(val) => val,
        }
    }

    /// Renders the value as text, or `{uninitialized}` while the initializer is pending
    pub fn to_string(&self) -> (r: String) where T: std::fmt::Display
        ensures
            match self {
                LazyMut::Init(_) => r@ == UNINITIALIZED_TEXT@,
                LazyMut::Value(v) => vstd::string::to_string_from_display_ensures::<T>(v, r),
            },
    {
        match self {
            LazyMut::Init(_) => UNINITIALIZED_TEXT.to_owned(),
            LazyMut::Value(val) => val.to_string(),
        }
    }
}

} // verus!

use vstd::prelude::*;

verus! {

/// Wraps a value into an owning handle.
pub trait ObjectMethods<T>: Sized {
    /// The value that the handle holds.
    spec fn held(&self) -> T;

    fn construct(value: T) -> (r: Self)
        ensures
            r.held() == value,
    ;
}

impl<T> ObjectMethods<T> for Box<T> {
    open spec fn held(&self) -> T {
        **self
    }

    fn construct(value: T) -> Box<T> {
        Box::new(value)
    }
}

} // verus!

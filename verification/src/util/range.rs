//! Ranges with optional bounds.
use vstd::prelude::*;

verus! {

/// A range of values of which either bound may be missing.
pub trait Range<T> {
    /// The lower bound, if there is one.
    spec fn spec_start(&self) -> Option<T>;

    /// The upper bound, if there is one.
    spec fn spec_end(&self) -> Option<T>;

    /// The lower bound, if there is one.
    fn start(&self) -> (start: Option<&T>)
        ensures
            start is Some <==> self.spec_start() is Some,
            start is Some ==> *start->0 == self.spec_start()->0,
    ;

    /// The upper bound, if there is one.
    fn end(&self) -> (end: Option<&T>)
        ensures
            end is Some <==> self.spec_end() is Some,
            end is Some ==> *end->0 == self.spec_end()->0,
    ;
}

impl<T> Range<T> for core::ops::Range<T> {
    open spec fn spec_start(&self) -> Option<T> {
        Some(self.start)
    }

    open spec fn spec_end(&self) -> Option<T> {
        Some(self.end)
    }

    fn start(&self) -> (start: Option<&T>) {
        Some(&self.start)
    }

    fn end(&self) -> (end: Option<&T>) {
        Some(&self.end)
    }
}

/// A pair of optional bounds, the lower one first: a range that may be open
/// at either side, or at both.
impl<T> Range<T> for (Option<T>, Option<T>) {
    open spec fn spec_start(&self) -> Option<T> {
        self.0
    }

    open spec fn spec_end(&self) -> Option<T> {
        self.1
    }

    fn start(&self) -> (start: Option<&T>) {
        self.0.as_ref()
    }

    fn end(&self) -> (end: Option<&T>) {
        self.1.as_ref()
    }
}

} // verus!

use vstd::prelude::*;

verus! {

/// A value that may not have been observed yet.
///
/// Trace events reveal the properties of an object one at a time, so most
/// properties start `Unknown` and become `Known` once the event that carries
/// them has been processed.
#[derive(Debug, Clone, Copy, PartialEq, Eq, Hash)]
pub enum Known<T> {
    Known(T),
    Unknown,
}

/// The abstract value of a `Known` whose payload has a view.
pub open spec fn known_view<T: View>(k: Known<T>) -> Known<T::V> {
    match k {
        Known::Known(v) => Known::Known(v@),
        Known::Unknown => Known::Unknown,
    }
}

/// The `Option` that holds the same information as a `Known`.
pub open spec fn known_to_option<T>(k: Known<T>) -> Option<T> {
    match k {
        Known::Known(v) => Some(v),
        Known::Unknown => None,
    }
}

/// True when the value is unknown or equal to `v`.
pub open spec fn unknown_or_eq<T>(k: Known<T>, v: T) -> bool {
    match k {
        Known::Known(x) => x == v,
        Known::Unknown => true,
    }
}

impl<T> Known<T> {
    pub fn new(value: T) -> (r: Self)
        ensures
            r == Known::Known(value),
    {
        Known::Known(value)
    }

    pub fn is_unknown(&self) -> (b: bool)
        ensures
            b == (*self is Unknown),
    {
        match self {
            Known::Known(_) => false,
            Known::Unknown => true,
        }
    }

    pub fn is_known(&self) -> (b: bool)
        ensures
            b == (*self is Known),
    {
        match self {
            Known::Known(_) => true,
            Known::Unknown => false,
        }
    }

    pub fn as_ref(&self) -> (r: Known<&T>)
        ensures
            match r {
                Known::Known(x) => *self == Known::Known(*x),
                Known::Unknown => *self is Unknown,
            },
    {
        match self {
            Known::Known(x) => Known::Known(x),
            Known::Unknown => Known::Unknown,
        }
    }

    /// Converts into an `Option`, `Unknown` becoming `None`.
    pub fn into_option(self) -> (r: Option<T>)
        ensures
            r == known_to_option(self),
    {
        match self {
            Known::Known(x) => Some(x),
            Known::Unknown => None,
        }
    }

    pub fn unwrap(self) -> (r: T)
        requires
            self is Known,
        ensures
            self == Known::Known(r),
    {
        match self {
            Known::Known(x) => x,
            Known::Unknown => vstd::pervasive::unreached(),
        }
    }
}

impl Known<u64> {
    /// True when the value is still unknown or already equal to `other`.
    pub fn is_unknown_or_eq(&self, other: &u64) -> (b: bool)
        ensures
            b == unknown_or_eq(*self, *other),
    {
        match self {
            Known::Known(x) => *x == *other,
            Known::Unknown => true,
        }
    }
}

impl Known<String> {
    /// Borrows the string payload.
    pub fn as_deref(&self) -> (r: Known<&str>)
        ensures
            match r {
                Known::Known(s) => self is Known && s@ == self->Known_0@,
                Known::Unknown => self is Unknown,
            },
    {
        match self {
            Known::Known(s) => Known::Known(s.as_str()),
            Known::Unknown => Known::Unknown,
        }
    }
}

/// A property read through a reference to another object: `Droped` when the
/// reference leads to no object.
#[derive(Debug, Clone, Copy, PartialEq, Eq, Hash)]
pub enum WeakKnown<T> {
    Known(T),
    Unknown,
    Droped,
}

/// The abstract value of a `WeakKnown` whose payload has a view.
pub open spec fn weak_known_view<T: View>(k: WeakKnown<T>) -> WeakKnown<T::V> {
    match k {
        WeakKnown::Known(v) => WeakKnown::Known(v@),
        WeakKnown::Unknown => WeakKnown::Unknown,
        WeakKnown::Droped => WeakKnown::Droped,
    }
}

/// The `WeakKnown` of a reference that leads to an object: what is known of the property.
pub open spec fn reached<T>(k: Known<T>) -> WeakKnown<T> {
    match k {
        Known::Known(v) => WeakKnown::Known(v),
        Known::Unknown => WeakKnown::Unknown,
    }
}

impl<T> WeakKnown<T> {
    /// The property as read from the object that the reference reached.
    pub fn from_known(k: Known<T>) -> (r: Self)
        ensures
            r == reached(k),
    {
        match k {
            Known::Known(v) => WeakKnown::Known(v),
            Known::Unknown => WeakKnown::Unknown,
        }
    }
}

} // verus!

//! Generic tagged error values.
//!
//! An error is a [`GenericError`] wrapping a description value: a member of a
//! closed set of error kinds that can render itself as text and optionally
//! carry a numeric code.

use vstd::prelude::*;

verus! {

/// A value that describes an error: human-readable text, an optional numeric
/// code, and the name of the describing type.
pub trait ErrorDescription {
    fn description(&self) -> String;

    fn code(&self) -> (c: Option<i32>) {
        None
    }

    fn error_name(&self) -> (n: &'static str) {
        ""
    }
}

/// An error tagged with a description value of type `T`.
#[derive(Debug)]
pub struct GenericError<T>(pub T) where T: ErrorDescription;

impl<T> GenericError<T> where T: ErrorDescription {
    pub fn new(err: T) -> (r: Self)
        ensures
            r.0 == err,
    {
        Self(err)
    }

    pub fn into_inner(self) -> (r: T)
        ensures
            r == self.0,
    {
        self.0
    }

    pub fn as_inner(&self) -> (r: &T)
        ensures
            *r == self.0,
    {
        &self.0
    }

    pub fn as_inner_mut(&mut self) -> (r: &mut T)
        ensures
            *r == old(self).0,
            final(self).0 == *final(r),
    {
        &mut self.0
    }

    pub fn map<U, F>(self, f: F) -> (r: GenericError<U>) where
        U: ErrorDescription,
        F: FnOnce(T) -> U,

        requires
            f.requires((self.0,)),
        ensures
            f.ensures((self.0,), r.0),
    {
        GenericError(f(self.0))
    }

    pub fn error_name(&self) -> &'static str {
        self.0.error_name()
    }

    pub fn code(&self) -> Option<i32> {
        self.0.code()
    }
}

impl<T> From<T> for GenericError<T> where T: ErrorDescription {
    fn from(err: T) -> (r: Self) {
        Self(err)
    }
}

impl<T> vstd::std_specs::convert::FromSpecImpl<T> for GenericError<T> where T: ErrorDescription {
    open spec fn obeys_from_spec() -> bool {
        true
    }

    open spec fn from_spec(err: T) -> Self {
        GenericError(err)
    }
}

} // verus!

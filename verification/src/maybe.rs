//! A value that may or may not be present, with the full set of adapters for
//! querying, transforming and combining such values.

use vstd::prelude::*;

verus! {

/// Represents a value that may or may not be present.
#[derive(Clone, Debug, PartialEq, Eq)]
pub enum Maybe<T> {
    /// When the value is present.
    Just(T),
    /// When the value is absent.
    Nothing,
}

impl<T> Default for Maybe<T> {
    /// The absent value.
    fn default() -> (r: Self)
        ensures
            r is Nothing,
    {
        Maybe::Nothing
    }
}

impl<T> From<Maybe<T>> for Option<T> {
    fn from(value: Maybe<T>) -> (r: Self)
        ensures
            (match value {
                Maybe::Just(v) => r == Option::Some(v),
                Maybe::Nothing => r is None,
            }),
    {
        match value {
            Maybe::Just(v) => Option::Some(v),
            Maybe::Nothing => Option::None,
        }
    }
}

impl<T> vstd::std_specs::convert::FromSpecImpl<Maybe<T>> for Option<T> {
    open spec fn obeys_from_spec() -> bool {
        true
    }

    open spec fn from_spec(v: Maybe<T>) -> Self {
        match v {
            Maybe::Just(x) => Option::Some(x),
            Maybe::Nothing => Option::None,
        }
    }
}

impl<T> Maybe<T> {
    /// Checks if the value is present.
    pub fn is_some(&self) -> (r: bool)
        ensures
            r == (self is Just),
    {
        match self {
            Maybe::Just(_) => true,
            Maybe::Nothing => false,
        }
    }

    /// Checks if the value is absent.
    pub fn is_none(&self) -> (r: bool)
        ensures
            r == (self is Nothing),
    {
        match self {
            Maybe::Just(_) => false,
            Maybe::Nothing => true,
        }
    }

    /// Returns `true` if the value is present and matches a predicate.
    pub fn is_some_and<F: FnOnce(T) -> bool>(self, f: F) -> (r: bool)
        requires
            self matches Maybe::Just(v) ==> f.requires((v,)),
        ensures
            self is Nothing ==> r == false,
            self matches Maybe::Just(v) ==> f.ensures((v,), r),
    {
        match self {
            Maybe::Nothing => false,
            Maybe::Just(x) => f(x),
        }
    }

    /// Converts from `&Maybe<T>` to `Maybe<&T>`.
    pub fn as_ref(&self) -> (r: Maybe<&T>)
        ensures
            (match *self {
                Maybe::Just(v) => r matches Maybe::Just(x) && *x == v,
                Maybe::Nothing => r is Nothing,
            }),
    {
        match *self {
            Maybe::Just(ref x) => Maybe::Just(x),
            Maybe::Nothing => Maybe::Nothing,
        }
    }

    /// Converts from `&mut Maybe<T>` to `Maybe<&mut T>`.
    pub fn as_mut(&mut self) -> (r: Maybe<&mut T>)
        ensures
            (*old(self)) is Nothing ==> r is Nothing && (*final(self)) is Nothing,
            (*old(self)) matches Maybe::Just(v) ==> r matches Maybe::Just(x) && *x == v
                && *final(self) == Maybe::Just(*final(x)),
    {
        match *self {
            Maybe::Just(ref mut x) => Maybe::Just(x),
            Maybe::Nothing => Maybe::Nothing,
        }
    }

    /// Returns the contained value; callers must know the value is present.
    /// The message documents why they expect it to be.
    pub fn expect(self, msg: &str) -> (r: T)
        requires
            self is Just,
        ensures
            self == Maybe::Just(r),
    {
        match self {
            Maybe::Just(val) => val,
            Maybe::Nothing => unreached(),
        }
    }

    /// Returns the contained value; callers must know the value is present.
    pub fn unwrap(self) -> (r: T)
        requires
            self is Just,
        ensures
            self == Maybe::Just(r),
    {
        match self {
            Maybe::Just(val) => val,
            Maybe::Nothing => unreached(),
        }
    }

    /// Returns the contained value or the provided default.
    pub fn unwrap_or(self, default: T) -> (r: T)
        ensures
            (match self {
                Maybe::Just(v) => r == v,
                Maybe::Nothing => r == default,
            }),
    {
        match self {
            Maybe::Just(x) => x,
            Maybe::Nothing => default,
        }
    }

    /// Returns the contained value or computes one from a closure.
    pub fn unwrap_or_else<F: FnOnce() -> T>(self, f: F) -> (r: T)
        requires
            self is Nothing ==> f.requires(()),
        ensures
            self matches Maybe::Just(v) ==> r == v,
            self is Nothing ==> f.ensures((), r),
    {
        match self {
            Maybe::Just(x) => x,
            Maybe::Nothing => f(),
        }
    }

    /// Returns the contained value or the type's default.
    pub fn unwrap_or_default(self) -> (r: T) where T: Default
        ensures
            self matches Maybe::Just(v) ==> r == v,
            self is Nothing ==> call_ensures(T::default, (), r),
    {
        match self {
            Maybe::Just(x) => x,
            Maybe::Nothing => T::default(),
        }
    }

    /// Maps the contained value with `f`, keeping absence.
    pub fn map<U, F: FnOnce(T) -> U>(self, f: F) -> (r: Maybe<U>)
        requires
            self matches Maybe::Just(v) ==> f.requires((v,)),
        ensures
            self is Nothing ==> r is Nothing,
            self matches Maybe::Just(v) ==> r matches Maybe::Just(u) && f.ensures((v,), u),
    {
        match self {
            Maybe::Just(x) => Maybe::Just(f(x)),
            Maybe::Nothing => Maybe::Nothing,
        }
    }

    /// Calls `f` on a reference to the contained value, if any, and returns
    /// the original.
    pub fn inspect<F: FnOnce(&T)>(self, f: F) -> (r: Self)
        requires
            self matches Maybe::Just(v) ==> f.requires((&v,)),
        ensures
            r == self,
    {
        if let Maybe::Just(ref x) = self {
            f(x);
        }
        self
    }

    /// Returns the provided default if absent, or applies `f`.
    pub fn map_or<U, F: FnOnce(T) -> U>(self, default: U, f: F) -> (r: U)
        requires
            self matches Maybe::Just(v) ==> f.requires((v,)),
        ensures
            self is Nothing ==> r == default,
            self matches Maybe::Just(v) ==> f.ensures((v,), r),
    {
        match self {
            Maybe::Just(t) => f(t),
            Maybe::Nothing => default,
        }
    }

    /// Computes a default if absent, or applies `f`.
    pub fn map_or_else<U, D: FnOnce() -> U, F: FnOnce(T) -> U>(self, default: D, f: F) -> (r: U)
        requires
            self matches Maybe::Just(v) ==> f.requires((v,)),
            self is Nothing ==> default.requires(()),
        ensures
            self is Nothing ==> default.ensures((), r),
            self matches Maybe::Just(v) ==> f.ensures((v,), r),
    {
        match self {
            Maybe::Just(t) => f(t),
            Maybe::Nothing => default(),
        }
    }

    /// Transforms into a result: a present value becomes the success case,
    /// absence becomes the provided error.
    pub fn ok_or<E>(self, err: E) -> (r: Result<T, E>)
        ensures
            (match self {
                Maybe::Just(v) => r == Result::<T, E>::Ok(v),
                Maybe::Nothing => r == Result::<T, E>::Err(err),
            }),
    {
        match self {
            Maybe::Just(v) => Ok(v),
            Maybe::Nothing => Err(err),
        }
    }

    /// Transforms into a result: absence becomes the computed error.
    pub fn ok_or_else<E, F: FnOnce() -> E>(self, err: F) -> (r: Result<T, E>)
        requires
            self is Nothing ==> err.requires(()),
        ensures
            self matches Maybe::Just(v) ==> r == Result::<T, E>::Ok(v),
            self is Nothing ==> (r matches Result::Err(e) && err.ensures((), e)),
    {
        match self {
            Maybe::Just(v) => Ok(v),
            Maybe::Nothing => Err(err()),
        }
    }

    /// Returns absence if absent, otherwise `optb`.
    pub fn and<U>(self, optb: Maybe<U>) -> (r: Maybe<U>)
        ensures
            self is Just ==> r == optb,
            self is Nothing ==> r is Nothing,
    {
        match self {
            Maybe::Just(_) => optb,
            Maybe::Nothing => Maybe::Nothing,
        }
    }

    /// Returns absence if absent, otherwise applies `f` to the value.
    pub fn and_then<U, F: FnOnce(T) -> Maybe<U>>(self, f: F) -> (r: Maybe<U>)
        requires
            self matches Maybe::Just(v) ==> f.requires((v,)),
        ensures
            self is Nothing ==> r is Nothing,
            self matches Maybe::Just(v) ==> f.ensures((v,), r),
    {
        match self {
            Maybe::Just(x) => f(x),
            Maybe::Nothing => Maybe::Nothing,
        }
    }

    /// Keeps the value only where the predicate accepts it.
    pub fn filter<P: FnOnce(&T) -> bool>(self, predicate: P) -> (r: Self)
        requires
            self matches Maybe::Just(v) ==> predicate.requires((&v,)),
        ensures
            self is Nothing ==> r is Nothing,
            self matches Maybe::Just(v) ==> ((r == self || r is Nothing) && (r == self
                ==> predicate.ensures((&v,), true)) && (r is Nothing ==> predicate.ensures(
                (&v,),
                false,
            ))),
    {
        if let Maybe::Just(x) = self {
            if predicate(&x) {
                return Maybe::Just(x);
            } else {
                return Maybe::Nothing;
            }
        }
        Maybe::Nothing
    }

    /// Returns itself if present, otherwise `optb`.
    pub fn or(self, optb: Maybe<T>) -> (r: Maybe<T>)
        ensures
            self is Just ==> r == self,
            self is Nothing ==> r == optb,
    {
        match self {
            Maybe::Just(x) => Maybe::Just(x),
            Maybe::Nothing => optb,
        }
    }

    /// Returns itself if present, otherwise computes a fallback.
    pub fn or_else<F: FnOnce() -> Maybe<T>>(self, f: F) -> (r: Maybe<T>)
        requires
            self is Nothing ==> f.requires(()),
        ensures
            self is Just ==> r == self,
            self is Nothing ==> f.ensures((), r),
    {
        match self {
            Maybe::Just(x) => Maybe::Just(x),
            Maybe::Nothing => f(),
        }
    }

    /// Present exactly when one of the two is present.
    pub fn xor(self, optb: Maybe<T>) -> (r: Maybe<T>)
        ensures
            self is Just && optb is Nothing ==> r == self,
            self is Nothing && optb is Just ==> r == optb,
            self is Just && optb is Just ==> r is Nothing,
            self is Nothing && optb is Nothing ==> r is Nothing,
    {
        match (self, optb) {
            (Maybe::Just(a), Maybe::Nothing) => Maybe::Just(a),
            (Maybe::Nothing, Maybe::Just(b)) => Maybe::Just(b),
            _ => Maybe::Nothing,
        }
    }

    /// Takes the value out, leaving absence in its place.
    pub fn take(&mut self) -> (r: Maybe<T>)
        ensures
            r == *old(self),
            (*final(self)) is Nothing,
    {
        let mut out = Maybe::Nothing;
        core::mem::swap(self, &mut out);
        out
    }

    /// Replaces the value, returning the old one.
    pub fn replace(&mut self, value: T) -> (r: Maybe<T>)
        ensures
            r == *old(self),
            *final(self) == Maybe::Just(value),
    {
        let mut out = Maybe::Just(value);
        core::mem::swap(self, &mut out);
        out
    }

    /// Pairs two present values; absence on either side wins.
    pub fn zip<U>(self, other: Maybe<U>) -> (r: Maybe<(T, U)>)
        ensures
            self matches Maybe::Just(a) ==> (other matches Maybe::Just(b) ==> r == Maybe::Just(
                (a, b),
            )),
            self is Nothing || other is Nothing ==> r is Nothing,
    {
        match (self, other) {
            (Maybe::Just(a), Maybe::Just(b)) => Maybe::Just((a, b)),
            _ => Maybe::Nothing,
        }
    }

    /// Combines two present values with `f`; absence on either side wins.
    pub fn zip_with<U, F: FnOnce(T, U) -> R, R>(self, other: Maybe<U>, f: F) -> (r: Maybe<R>)
        requires
            self matches Maybe::Just(a) ==> (other matches Maybe::Just(b) ==> f.requires(
                (a, b),
            )),
        ensures
            self is Nothing || other is Nothing ==> r is Nothing,
            self matches Maybe::Just(a) ==> (other matches Maybe::Just(b) ==> (r
                matches Maybe::Just(v) && f.ensures((a, b), v))),
    {
        match (self, other) {
            (Maybe::Just(a), Maybe::Just(b)) => Maybe::Just(f(a, b)),
            _ => Maybe::Nothing,
        }
    }
}

} // verus!

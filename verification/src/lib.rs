//! A bound that says "these two type parameters are one and the same type", and a way to
//! move a value from one to the other once the bound is known to hold.
//!
//! Generic code sometimes has two type parameters that every caller will set to the same
//! type, while the compiler still treats them as unrelated inside the function. Asking for
//! `T: Is<U>` makes the relation part of the signature: a caller can only meet it with
//! `T` = `U`, and inside the function [`Is::coerce`] and [`Is::rcoerce`] carry a value
//! across without any reinterpretation of memory.
//!
//! # Examples
//!
//! Flattening a nested `Result` whose two error types both convert into a third:
//!
//! ```
//! use eq_type::Is;
//!
//! pub trait ResultExt<T, E>: Sized + Is<Result<T, E>> {
//!     fn flatten_into<TI, EI, ER>(self) -> Result<TI, ER>
//!     where
//!         T: Is<Result<TI, EI>>,
//!         E: Into<ER>,
//!         EI: Into<ER>,
//!     {
//!         match self.coerce() {
//!             Ok(inner) => inner.coerce().map_err(Into::into),
//!             Err(e) => Err(e.into()),
//!         }
//!     }
//! }
//!
//! impl<T, E> ResultExt<T, E> for Result<T, E> {}
//! ```
//!
//! # What is proved
//!
//! The trait describes its two operations by two specification functions,
//! [`Is::coerced`] and [`Is::rcoerced`], and obliges every implementation to prove that they
//! undo each other. There is one implementation, of `Is<T>` for every `T`, and there both
//! are the identity. The trait cannot be implemented anywhere else, so what is proved of
//! that one implementation is proved of every use of the bound. The module [`laws`] states
//! what follows for a value that is coerced to its own type.

use vstd::prelude::*;

pub mod laws;
mod private;

verus! {

/// `Self: Is<Rhs>` holds exactly when `Self` and `Rhs` are the same type.
///
/// The trait is sealed: its supertrait lives in a private module and is implemented only
/// for a type towards itself, so the implementation below is the only one there can be.
pub trait Is<Rhs: ?Sized>: private::Sealed<Rhs> {
    /// The value of type `Rhs` that `self` is.
    spec fn coerced(self) -> Rhs where Self: Sized, Rhs: Sized;

    /// The value of type `Self` that `rhs` is.
    spec fn rcoerced(rhs: Rhs) -> Self where Self: Sized, Rhs: Sized;

    /// Taking a value to `Rhs` and back gives the value.
    proof fn lemma_coerced_rcoerced(v: Self) where Self: Sized, Rhs: Sized
        ensures
            Self::rcoerced(v.coerced()) == v,
    ;

    /// Taking a value of `Rhs` to `Self` and back gives the value.
    proof fn lemma_rcoerced_coerced(rhs: Rhs) where Self: Sized, Rhs: Sized
        ensures
            Self::rcoerced(rhs).coerced() == rhs,
    ;

    /// Turns `self` into the same value of type `Rhs`. Never fails.
    fn coerce(self) -> (rhs: Rhs) where Self: Sized, Rhs: Sized
        ensures
            rhs == self.coerced(),
    ;

    /// Turns `rhs` into the same value of type `Self`. Never fails.
    fn rcoerce(rhs: Rhs) -> (this: Self) where Self: Sized, Rhs: Sized
        ensures
            this == Self::rcoerced(rhs),
    ;
}

/// Every type is itself, and both operations hand their argument back untouched.
impl<T: ?Sized> Is<T> for T {
    open spec fn coerced(self) -> T where T: Sized {
        self
    }

    open spec fn rcoerced(t: T) -> T where T: Sized {
        t
    }

    proof fn lemma_coerced_rcoerced(v: T) where T: Sized {
    }

    proof fn lemma_rcoerced_coerced(t: T) where T: Sized {
    }

    #[inline(always)]
    fn coerce(self) -> (rhs: T) where T: Sized
        ensures
            rhs == self,
    {
        self
    }

    #[inline(always)]
    fn rcoerce(t: T) -> (this: T) where T: Sized
        ensures
            this == t,
    {
        t
    }
}

} // verus!

//! The marker that [`Is`](crate::Is) is built on.

use vstd::prelude::*;

verus! {

/// A marker without operations. Every type carries it towards itself, and towards no other
/// type: this module is private, so no code elsewhere can name the trait to add to that.
pub trait Sealed<Rhs: ?Sized> {

}

impl<T: ?Sized> Sealed<T> for T {

}

} // verus!

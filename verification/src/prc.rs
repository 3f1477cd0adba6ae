//! The shared cell: an immutable value on the heap behind counted handles.
//!
//! The cell is std's atomically counted pointer. Cloning a handle adds one to
//! the cell's strong count, dropping one takes one off, and the value is freed
//! when the last handle is dropped.

use std::sync::Arc;
use vstd::prelude::*;
use vstd::std_specs::cmp::PartialEqSpec;

verus! {

/// `Arc::<T>::from` on a box: the boxed value moves into a new shared cell.
#[verifier::external_body]
pub(crate) fn arc_from_boxed<T: ?Sized>(data: Box<T>) -> (cell: Arc<T>)
    ensures
        &*cell == &*data,
{
    Arc::from(data)
}

/// `Arc::strong_count`: the number of handles on the cell at this moment. The
/// handle it is asked through is one of them, so the number is at least one.
/// Beyond that it changes as handles are cloned and dropped elsewhere, and
/// nothing more is claimed of it.
#[verifier::external_body]
pub(crate) fn arc_strong_count<T: ?Sized>(cell: &Arc<T>) -> (count: usize)
    ensures
        count >= 1,
{
    Arc::strong_count(cell)
}

/// `Arc::ptr_eq`: whether the two handles point to one allocation. Two handles
/// on one allocation see the same value.
#[verifier::external_body]
pub(crate) fn arc_ptr_eq<T: ?Sized>(a: &Arc<T>, b: &Arc<T>) -> (same: bool)
    ensures
        same ==> &**a == &**b,
{
    Arc::ptr_eq(a, b)
}

/// `Arc::clone`: another handle on the same allocation.
#[verifier::external_body]
pub(crate) fn arc_clone<T: ?Sized>(cell: &Arc<T>) -> (dup: Arc<T>)
    ensures
        &*dup == &**cell,
{
    Arc::clone(cell)
}

/// `Arc::as_ptr`, then the pointer's address: where the cell lies in memory.
#[verifier::external_body]
fn arc_addr<T: ?Sized>(cell: &Arc<T>) -> (addr: usize) {
    Arc::as_ptr(cell).addr()
}

/// A counted handle on a shared, immutable value. Handles are compared, ordered
/// and hashed by the value in the cell, in full, never by where the cell lies.
#[derive(Debug, Hash, Eq, PartialOrd, Ord)]
pub struct Prc<T: ?Sized>(Arc<T>);

impl<T: ?Sized> Prc<T> {
    /// The value in the cell.
    pub closed spec fn data(&self) -> &T {
        &*self.0
    }

    /// Moves the boxed value into a new cell and returns the one handle on it.
    pub fn from_box(data: Box<T>) -> (prc: Self)
        ensures
            prc.data() == &*data,
    {
        Prc(arc_from_boxed(data))
    }

    /// The value in the cell.
    pub fn get(&self) -> (data: &T)
        ensures
            data == self.data(),
    {
        &*self.0
    }

    /// The address of the cell, the same for all handles on it.
    pub fn inner_ptr_usize(&self) -> (addr: usize) {
        arc_addr(&self.0)
    }

    /// The number of handles on the cell at this moment, `this` among them: a
    /// cell that a handle is on has a count of at least one. How many more there
    /// are depends on the handles that exist elsewhere.
    pub fn strong_count(this: &Self) -> (count: usize)
        ensures
            count >= 1,
    {
        arc_strong_count(&this.0)
    }

    /// Whether the two handles are on one cell.
    pub fn ptr_eq(&self, other: &Self) -> (same: bool)
        ensures
            same ==> self.data() == other.data(),
    {
        arc_ptr_eq(&self.0, &other.0)
    }
}

impl<T: ?Sized + PartialEq> PartialEq for Prc<T> {
    /// Equality of the values in the two cells, as the type of the value defines
    /// it. The values are compared in full, be the handles on one cell or on two.
    fn eq(&self, other: &Self) -> (same: bool) {
        *self.get() == *other.get()
    }
}

impl<T: ?Sized + PartialEq> vstd::std_specs::cmp::PartialEqSpecImpl for Prc<T> {
    open spec fn obeys_eq_spec() -> bool {
        T::obeys_eq_spec()
    }

    open spec fn eq_spec(&self, other: &Self) -> bool {
        self.data().eq_spec(other.data())
    }
}

impl<T: ?Sized> Clone for Prc<T> {
    /// Another handle on the same cell.
    fn clone(&self) -> (dup: Self)
        ensures
            dup.data() == self.data(),
    {
        Prc(arc_clone(&self.0))
    }
}

impl<T: ?Sized> std::ops::Deref for Prc<T> {
    type Target = T;

    fn deref(&self) -> (data: &T)
        ensures
            data == self.data(),
    {
        self.get()
    }
}

} // verus!

//! Non-zero 64-bit keys, typed by the entity they identify.

use std::cmp::Ordering;
use std::marker::PhantomData;
use vstd::prelude::*;

verus! {

/// The error of converting zero into a key.
#[derive(Debug, Clone, Copy, PartialEq, Eq, Structural)]
pub struct InvalidId;

/// A key of an entity of type `T`. The wrapped integer is never zero, and a
/// key of one entity type cannot be passed where another is expected. Keys
/// are equal, ordered and hashed as their integers are.
#[derive(Debug, Ord, Hash)]
pub struct Id<T: ?Sized> {
    value: i64,
    marker: PhantomData<T>,
}

impl<T: ?Sized> View for Id<T> {
    type V = int;

    /// The wrapped integer.
    closed spec fn view(&self) -> int {
        self.value as int
    }
}

impl<T: ?Sized> Id<T> {
    #[verifier::type_invariant]
    spec fn non_zero(self) -> bool {
        self.value != 0
    }

    /// Converts an integer into a key; zero is the only integer refused.
    pub fn try_from(id: i64) -> (res: Result<Self, InvalidId>)
        ensures
            id == 0 <==> res is Err,
            res matches Ok(key) ==> key@ == id,
    {
        if id == 0 {
            Err(InvalidId)
        } else {
            Ok(Id { value: id, marker: PhantomData })
        }
    }

    /// The key of the row at position `index` of a table whose keys start at one.
    pub(crate) fn of_index(index: usize) -> (key: Self)
        requires
            index < i64::MAX,
        ensures
            key@ == index + 1,
    {
        Id { value: (index as i64) + 1, marker: PhantomData }
    }

    /// The wrapped integer.
    pub fn get(&self) -> (value: i64)
        ensures
            value == self@,
            value != 0,
    {
        proof {
            use_type_invariant(self);
        }
        self.value
    }
}

impl<T: ?Sized> Clone for Id<T> {
    fn clone(&self) -> (res: Self)
        ensures
            res == *self,
    {
        *self
    }
}

impl<T: ?Sized> Copy for Id<T> {

}

impl<T: ?Sized> PartialEq for Id<T> {
    fn eq(&self, rhs: &Self) -> (res: bool) {
        self.value == rhs.value
    }
}

impl<T: ?Sized> vstd::std_specs::cmp::PartialEqSpecImpl for Id<T> {
    open spec fn obeys_eq_spec() -> bool {
        true
    }

    open spec fn eq_spec(&self, rhs: &Self) -> bool {
        self@ == rhs@
    }
}

impl<T: ?Sized> Eq for Id<T> {

}

impl<T: ?Sized> PartialOrd for Id<T> {
    fn partial_cmp(&self, rhs: &Self) -> (res: Option<Ordering>) {
        if self.value < rhs.value {
            Some(Ordering::Less)
        } else if self.value > rhs.value {
            Some(Ordering::Greater)
        } else {
            Some(Ordering::Equal)
        }
    }
}

impl<T: ?Sized> vstd::std_specs::cmp::PartialOrdSpecImpl for Id<T> {
    open spec fn obeys_partial_cmp_spec() -> bool {
        true
    }

    open spec fn partial_cmp_spec(&self, rhs: &Self) -> Option<Ordering> {
        if self@ < rhs@ {
            Some(Ordering::Less)
        } else if self@ > rhs@ {
            Some(Ordering::Greater)
        } else {
            Some(Ordering::Equal)
        }
    }
}

impl<T: ?Sized> Default for Id<T> {
    /// The key one.
    fn default() -> (res: Self)
        ensures
            res@ == 1,
    {
        Id { value: 1, marker: PhantomData }
    }
}

} // verus!

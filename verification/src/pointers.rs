//! Owned wrappers and reference-counted lists.

use std::rc::Rc;
use vstd::prelude::*;

verus! {

/// A thin owned wrapper around a value.
pub struct CustomSmartPointer<T> {
    data: T,
}

pub type CSP<T> = CustomSmartPointer<T>;

impl<T> CSP<T> {
    /// The wrapped value, as seen by specifications.
    pub closed spec fn spec_data(self) -> T {
        self.data
    }

    pub fn new(data: T) -> (pointer: Self)
        ensures
            pointer.spec_data() == data,
    {
        CustomSmartPointer { data }
    }

    /// Borrow the wrapped value.
    pub fn get(&self) -> (data: &T)
        ensures
            data == self.spec_data(),
    {
        &self.data
    }
}

/// A cons list whose tails are shared by reference counting.
pub enum RefList {
    Cons(i32, Rc<RefList>),
    Nil,
}

impl RefList {
    /// The rest of the list, or nothing at its end.
    pub fn tail(&self) -> (rest: Option<&Rc<RefList>>)
        ensures
            match self {
                RefList::Cons(_, item) => rest == Some(item),
                RefList::Nil => rest is None,
            },
    {
        match self {
            RefList::Cons(_, item) => Some(item),
            RefList::Nil => None,
        }
    }
}

/// A cons list over shared tails, with no operations of its own.
pub enum List {
    Cons(i32, Rc<List>),
    Nil,
}

} // verus!

//! Values that a widget is configured with: fixed ones and ones that change.
use vstd::prelude::*;

verus! {

/// A cell whose value can be replaced while widgets watch it. Its view is the
/// value it holds now.
#[derive(Debug)]
pub struct Dynamic<T> {
    value: T,
}

impl<T> View for Dynamic<T> {
    type V = T;

    closed spec fn view(&self) -> T {
        self.value
    }
}

impl<T> Dynamic<T> {
    /// Returns a cell that holds `value`.
    pub fn new(value: T) -> (cell: Self)
        ensures
            cell@ == value,
    {
        Dynamic { value }
    }

    /// The value held now.
    pub fn get(&self) -> (value: &T)
        ensures
            *value == self@,
    {
        &self.value
    }

    /// Replaces the value held with `value`.
    pub fn set(&mut self, value: T)
        ensures
            final(self)@ == value,
    {
        self.value = value;
    }

    /// Returns a cell that holds what `map` makes of the value held now.
    pub fn map_each<R, F: Fn(&T) -> R>(&self, map: F) -> (mapped: Dynamic<R>)
        requires
            call_requires(map, (&self@,)),
        ensures
            call_ensures(map, (&self@,), mapped@),
    {
        Dynamic::new(map(&self.value))
    }
}

/// Either a fixed value or a [`Dynamic`] one.
#[derive(Debug)]
pub enum Value<T> {
    /// A value that never changes.
    Constant(T),
    /// A value that may be replaced.
    Dynamic(Dynamic<T>),
}

impl<T> Value<T> {
    /// What the value is now: the constant itself, or what the cell holds.
    pub open spec fn current(&self) -> T {
        match *self {
            Value::Constant(value) => value,
            Value::Dynamic(cell) => cell@,
        }
    }

    /// The value as it is now.
    pub fn get(&self) -> (value: &T)
        ensures
            *value == self.current(),
    {
        match self {
            Value::Constant(value) => value,
            Value::Dynamic(cell) => cell.get(),
        }
    }

    /// Turns the value into a cell that holds what the value is now.
    pub fn into_dynamic(self) -> (cell: Dynamic<T>)
        ensures
            cell@ == self.current(),
    {
        match self {
            Value::Constant(value) => Dynamic::new(value),
            Value::Dynamic(cell) => cell,
        }
    }
}

} // verus!

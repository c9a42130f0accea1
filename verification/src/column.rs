//! A component array: the components of one type, addressed by the number
//! of the entity's slot.

use vstd::prelude::*;

verus! {

/// The components of one type for all entities of a store. A column is as
/// long as its highest occupied slot requires: slots beyond its end hold
/// nothing.
pub struct Column<T: Copy> {
    cells: Vec<Option<T>>,
}

impl<T: Copy> Column<T> {
    /// The component in slot `index`, if there is one.
    pub closed spec fn at(&self, index: int) -> Option<T> {
        if 0 <= index < self.cells@.len() {
            self.cells@[index]
        } else {
            None
        }
    }

    /// A column without components.
    pub fn new() -> (column: Self)
        ensures
            forall|index: int| (#[trigger] column.at(index)) is None,
    {
        Column { cells: Vec::new() }
    }

    /// The component in slot `index`, if there is one.
    pub fn get(&self, index: usize) -> (found: Option<T>)
        ensures
            found == self.at(index as int),
    {
        if index < self.cells.len() {
            self.cells[index]
        } else {
            None
        }
    }

    /// Puts `value` into slot `index`: a component, or nothing. Every other
    /// slot stays as it is.
    pub fn put(&mut self, index: usize, value: Option<T>)
        ensures
            forall|other: int|
                (#[trigger] final(self).at(other)) == if other == index {
                    value
                } else {
                    old(self).at(other)
                },
    {
        if index < self.cells.len() {
            self.cells[index] = value;
        } else if value.is_some() {
            let ghost before = *self;
            while self.cells.len() < index
                invariant
                    before.cells@.len() <= self.cells@.len() <= index,
                    forall|j: int|
                        0 <= j < before.cells@.len() ==> self.cells@[j] == before.cells@[j],
                    forall|j: int|
                        before.cells@.len() <= j < self.cells@.len() ==> self.cells@[j] is None,
                decreases index - self.cells.len(),
            {
                self.cells.push(None);
            }
            self.cells.push(value);
        }
    }
}

} // verus!

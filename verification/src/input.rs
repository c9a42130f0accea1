//! Press and release tracking for input symbols such as key codes.

use std::collections::HashSet;
use std::hash::Hash;
use vstd::prelude::*;
use vstd::std_specs::hash::obeys_key_model;

verus! {

/// Which symbols are held down, and which changed state since the last
/// [`Input::clear`].
///
/// The contents are described by three sets. What the methods promise about
/// them holds for every symbol type whose equality and hashing behave as the
/// hash-set model expects, which includes all primitive integers.
pub struct Input<T: Copy + Eq + Hash> {
    pressed: HashSet<T>,
    just_pressed: HashSet<T>,
    just_released: HashSet<T>,
}

/// Copies a set with `HashSet::clone`, which clones every element into a
/// new set. Taken on trust: for a symbol type that follows the hash-set
/// model, in which a clone of a symbol equals the symbol, the copy holds
/// exactly the elements of the set that was copied.
#[verifier::external_body]
fn clone_set<T: Copy + Eq + Hash>(set: &HashSet<T>) -> (copy: HashSet<T>)
    ensures
        obeys_key_model::<T>() ==> copy@ == set@,
{
    set.clone()
}

impl<T: Copy + Eq + Hash> Clone for Input<T> {
    fn clone(&self) -> (copy: Self)
        ensures
            obeys_key_model::<T>() ==> {
                &&& copy.pressed_set() == self.pressed_set()
                &&& copy.just_pressed_set() == self.just_pressed_set()
                &&& copy.just_released_set() == self.just_released_set()
            },
    {
        Input {
            pressed: clone_set(&self.pressed),
            just_pressed: clone_set(&self.just_pressed),
            just_released: clone_set(&self.just_released),
        }
    }
}

impl<T: Copy + Eq + Hash> Input<T> {
    /// The symbols currently held down.
    pub closed spec fn pressed_set(&self) -> Set<T> {
        self.pressed@
    }

    /// The symbols that went down since the last clear.
    pub closed spec fn just_pressed_set(&self) -> Set<T> {
        self.just_pressed@
    }

    /// The symbols that went up since the last clear.
    pub closed spec fn just_released_set(&self) -> Set<T> {
        self.just_released@
    }

    pub fn new() -> (input: Self)
        ensures
            input.pressed_set() == Set::<T>::empty(),
            input.just_pressed_set() == Set::<T>::empty(),
            input.just_released_set() == Set::<T>::empty(),
    {
        Input {
            pressed: HashSet::new(),
            just_pressed: HashSet::new(),
            just_released: HashSet::new(),
        }
    }

    pub fn is_pressed(&self, input: T) -> (held: bool)
        ensures
            obeys_key_model::<T>() ==> held == self.pressed_set().contains(input),
    {
        self.pressed.contains(&input)
    }

    /// True only during the frame in which the symbol went down.
    pub fn is_just_pressed(&self, input: T) -> (went_down: bool)
        ensures
            obeys_key_model::<T>() ==> went_down == self.just_pressed_set().contains(input),
    {
        self.just_pressed.contains(&input)
    }

    /// True only during the frame in which the symbol went up.
    pub fn is_just_released(&self, input: T) -> (went_up: bool)
        ensures
            obeys_key_model::<T>() ==> went_up == self.just_released_set().contains(input),
    {
        self.just_released.contains(&input)
    }

    /// Records that `input` went down. A repeat of a symbol already held is
    /// not a new press.
    pub fn press(&mut self, input: T)
        ensures
            obeys_key_model::<T>() ==> {
                &&& final(self).pressed_set() == old(self).pressed_set().insert(input)
                &&& final(self).just_pressed_set() == if old(self).pressed_set().contains(input) {
                    old(self).just_pressed_set()
                } else {
                    old(self).just_pressed_set().insert(input)
                }
                &&& final(self).just_released_set() == old(self).just_released_set()
            },
    {
        if self.pressed.insert(input) {
            self.just_pressed.insert(input);
        }
    }

    /// Records that `input` went up. Releasing a symbol that is not held
    /// changes nothing.
    pub fn release(&mut self, input: T)
        ensures
            obeys_key_model::<T>() ==> {
                &&& final(self).pressed_set() == old(self).pressed_set().remove(input)
                &&& final(self).just_released_set() == if old(self).pressed_set().contains(input) {
                    old(self).just_released_set().insert(input)
                } else {
                    old(self).just_released_set()
                }
                &&& final(self).just_pressed_set() == old(self).just_pressed_set()
            },
    {
        if self.pressed.remove(&input) {
            self.just_released.insert(input);
        }
    }

    /// Forgets the changes of the past frame; what is held stays held.
    pub fn clear(&mut self)
        ensures
            final(self).pressed_set() == old(self).pressed_set(),
            final(self).just_pressed_set() == Set::<T>::empty(),
            final(self).just_released_set() == Set::<T>::empty(),
    {
        self.just_pressed.clear();
        self.just_released.clear();
    }
}

} // verus!

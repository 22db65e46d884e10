//! The data shapes that the fixture entity carries.
//!
//! Each shape is an inert aggregate. Shapes made of integers alone are their
//! own mathematical model; a shape that holds text or a collection has a view
//! that says what it holds.

use bevy::platform::collections::{HashMap, HashSet};
use bevy::platform::hash::FixedHasher;
use crate::tables::{map_entries, set_members};
use std::collections::VecDeque;
use vstd::prelude::*;

verus! {

/// A marker without data.
#[derive(Clone, Copy, Debug, PartialEq, Eq)]
pub struct Special;

/// A marker without data that the engine is never told about.
#[derive(Clone, Copy, Debug, PartialEq, Eq)]
pub struct UnregisteredType;

/// One single-precision number, held as its IEEE 754 bit pattern.
#[derive(Clone, Copy, Debug, PartialEq, Eq)]
pub struct SingleValue(pub u32);

/// One single-precision number that travels in serialized form, held as its
/// IEEE 754 bit pattern.
#[derive(Clone, Copy, Debug, PartialEq, Eq)]
pub struct SingleValueSerialized(pub u32);

/// A person: a name, a number of friends and a birth date as day, month and
/// year.
#[derive(Debug, PartialEq, Eq)]
pub struct Person {
    pub name: String,
    pub friends: u32,
    pub birth_date: (u8, u8, u32),
}

/// What a [`Person`] holds.
pub ghost struct PersonView {
    pub name: Seq<char>,
    pub friends: u32,
    pub birth_date: (u8, u8, u32),
}

impl View for Person {
    type V = PersonView;

    open spec fn view(&self) -> PersonView {
        PersonView { name: self.name@, friends: self.friends, birth_date: self.birth_date }
    }
}

/// An enum with unit variants and a tuple variant.
#[derive(Clone, Copy, Debug, PartialEq, Eq)]
pub enum GameState {
    Playing,
    Pause,
    Loading(i32),
}

/// An enum with unit variants and a struct variant.
#[derive(Clone, Copy, Debug, PartialEq, Eq)]
pub enum GameDifficulty {
    Easy,
    Medium,
    Hard { enemies: u32 },
}

/// An enum whose tuple variant has two fields: a width and a height.
#[derive(Clone, Copy, Debug, PartialEq, Eq)]
pub enum WindowMode {
    Fullscreen,
    Window(u32, u32),
}

/// One signed integer of each width.
#[derive(Clone, Copy, Debug, PartialEq, Eq)]
pub struct SignedIntegers(pub i8, pub i16, pub i32, pub i64, pub i128);

/// One unsigned integer of each width.
#[derive(Clone, Copy, Debug, PartialEq, Eq)]
pub struct UnsignedIntegers(pub u8, pub u16, pub u32, pub u64, pub u128);

/// The three kinds of sequence: fixed, growable and double-ended.
#[derive(Debug, PartialEq, Eq)]
pub struct Sequences {
    pub array: [i32; 5],
    pub vec: Vec<i32>,
    pub vec_deque: VecDeque<i32>,
}

/// What a [`Sequences`] holds, each sequence front to back.
pub ghost struct SequencesView {
    pub array: Seq<i32>,
    pub vec: Seq<i32>,
    pub vec_deque: Seq<i32>,
}

impl View for Sequences {
    type V = SequencesView;

    open spec fn view(&self) -> SequencesView {
        SequencesView { array: self.array@, vec: self.vec@, vec_deque: self.vec_deque@ }
    }
}

/// A map from text to numbers.
#[derive(Debug, PartialEq, Eq)]
pub struct Maps {
    pub hash_map: HashMap<String, i32, FixedHasher>,
}

/// What a [`Maps`] holds.
pub ghost struct MapsView {
    pub hash_map: Map<Seq<char>, i32>,
}

impl View for Maps {
    type V = MapsView;

    open spec fn view(&self) -> MapsView {
        MapsView { hash_map: map_entries(self.hash_map) }
    }
}

/// A set of numbers.
#[derive(Debug, PartialEq, Eq)]
pub struct Sets {
    pub hash_set: HashSet<i32, FixedHasher>,
}

/// What a [`Sets`] holds.
pub ghost struct SetsView {
    pub hash_set: Set<i32>,
}

impl View for Sets {
    type V = SetsView;

    open spec fn view(&self) -> SetsView {
        SetsView { hash_set: set_members(self.hash_set) }
    }
}

/// Every kind of collection in one aggregate.
#[derive(Debug, PartialEq, Eq)]
pub struct Collections {
    pub sequences: Sequences,
    pub maps: Maps,
    pub sets: Sets,
    pub tuples: (SignedIntegers, UnsignedIntegers),
}

/// What a [`Collections`] holds.
pub ghost struct CollectionsView {
    pub sequences: SequencesView,
    pub maps: MapsView,
    pub sets: SetsView,
    pub tuples: (SignedIntegers, UnsignedIntegers),
}

impl View for Collections {
    type V = CollectionsView;

    open spec fn view(&self) -> CollectionsView {
        CollectionsView {
            sequences: self.sequences@,
            maps: self.maps@,
            sets: self.sets@,
            tuples: self.tuples,
        }
    }
}

} // verus!

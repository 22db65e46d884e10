//! The values that the fixture entity starts with.
//!
//! Every function here builds one shape with fixed contents; its contract
//! states those contents exactly, over the shape's view.

use bevy::platform::collections::{HashMap, HashSet};
use bevy::platform::hash::FixedHasher;
use crate::shapes::{
    Collections, CollectionsView, GameDifficulty, GameState, Maps, MapsView, Person, PersonView,
    Sequences, SequencesView, Sets, SetsView, SignedIntegers, SingleValue, SingleValueSerialized,
    Special, UnregisteredType, UnsignedIntegers, WindowMode,
};
use crate::tables::{
    empty_map, empty_set, map_entries, map_insert, no_entries, no_members, set_insert,
    set_members,
};
use std::collections::VecDeque;
use vstd::prelude::*;

verus! {

/// Everything that the fixture entity carries: its name and one instance of
/// every shape.
#[derive(Debug, PartialEq, Eq)]
pub struct AllComponents {
    pub name: String,
    pub special: Special,
    pub unregistered: UnregisteredType,
    pub single_value: SingleValue,
    pub single_value_serialized: SingleValueSerialized,
    pub person: Person,
    pub game_state: GameState,
    pub game_difficulty: GameDifficulty,
    pub window_mode: WindowMode,
    pub collections: Collections,
}

/// What an [`AllComponents`] holds.
pub ghost struct AllComponentsView {
    pub name: Seq<char>,
    pub special: Special,
    pub unregistered: UnregisteredType,
    pub single_value: SingleValue,
    pub single_value_serialized: SingleValueSerialized,
    pub person: PersonView,
    pub game_state: GameState,
    pub game_difficulty: GameDifficulty,
    pub window_mode: WindowMode,
    pub collections: CollectionsView,
}

impl View for AllComponents {
    type V = AllComponentsView;

    open spec fn view(&self) -> AllComponentsView {
        AllComponentsView {
            name: self.name@,
            special: self.special,
            unregistered: self.unregistered,
            single_value: self.single_value,
            single_value_serialized: self.single_value_serialized,
            person: self.person@,
            game_state: self.game_state,
            game_difficulty: self.game_difficulty,
            window_mode: self.window_mode,
            collections: self.collections@,
        }
    }
}

/// What start-up spawns: an entity that carries a name and nothing else, and
/// the fixture entity.
#[derive(Debug, PartialEq, Eq)]
pub struct Spawns {
    pub named_entity: String,
    pub all_components: AllComponents,
}

/// What a [`Spawns`] holds.
pub ghost struct SpawnsView {
    pub named_entity: Seq<char>,
    pub all_components: AllComponentsView,
}

impl View for Spawns {
    type V = SpawnsView;

    open spec fn view(&self) -> SpawnsView {
        SpawnsView { named_entity: self.named_entity@, all_components: self.all_components@ }
    }
}

/// Bit pattern of the single-precision number 138.
pub const SINGLE_VALUE_BITS: u32 = 0x430A_0000;

/// Bit pattern of the single-precision number 28.
pub const SINGLE_VALUE_SERIALIZED_BITS: u32 = 0x41E0_0000;

/// The entries of the map at start-up.
pub open spec fn initial_entries() -> Map<Seq<char>, i32> {
    no_entries().insert("First"@, 73682i32).insert("Second"@, 5882i32).insert("Third"@, 34234i32)
}

/// The members of the set at start-up.
pub open spec fn initial_members() -> Set<i32> {
    no_members().insert(7368i32).insert(1232i32).insert(2324i32)
}

/// The three sequences at start-up.
pub open spec fn initial_sequences() -> SequencesView {
    SequencesView {
        array: seq![1i32, 2i32, 3i32, 4i32, 5i32],
        vec: seq![1i32, 2i32, 3i32],
        vec_deque: seq![4i32, 5i32, 6i32],
    }
}

/// The collections at start-up.
pub open spec fn initial_collections() -> CollectionsView {
    CollectionsView {
        sequences: initial_sequences(),
        maps: MapsView { hash_map: initial_entries() },
        sets: SetsView { hash_set: initial_members() },
        tuples: (SignedIntegers(0, -1i16, 2, -3i64, 4), UnsignedIntegers(0, 1, 2, 3, 4)),
    }
}

/// The person at start-up.
pub open spec fn initial_person() -> PersonView {
    PersonView { name: "David"@, friends: 4, birth_date: (4, 8, 1998) }
}

/// The fixture entity at start-up.
pub open spec fn initial_components() -> AllComponentsView {
    AllComponentsView {
        name: "All Components"@,
        special: Special,
        unregistered: UnregisteredType,
        single_value: SingleValue(SINGLE_VALUE_BITS),
        single_value_serialized: SingleValueSerialized(SINGLE_VALUE_SERIALIZED_BITS),
        person: initial_person(),
        game_state: GameState::Playing,
        game_difficulty: GameDifficulty::Hard { enemies: 4 },
        window_mode: WindowMode::Window(512, 256),
        collections: initial_collections(),
    }
}

/// The two entities at start-up.
pub open spec fn initial_spawns() -> SpawnsView {
    SpawnsView { named_entity: "Named Entity"@, all_components: initial_components() }
}

/// The three keys of the map differ from one another, so no entry replaces
/// another: the map holds three entries, each key with the number that was
/// given for it.
pub proof fn lemma_initial_entries()
    ensures
        initial_entries().dom().finite(),
        initial_entries().dom().len() == 3,
        initial_entries().dom() == set!["First"@, "Second"@, "Third"@],
        initial_entries()["First"@] == 73682,
        initial_entries()["Second"@] == 5882,
        initial_entries()["Third"@] == 34234,
{
    reveal_strlit("First");
    reveal_strlit("Second");
    reveal_strlit("Third");
    assert("First"@[0] == 'F' && "Third"@[0] == 'T');
    assert("First"@.len() == 5 && "Second"@.len() == 6 && "Third"@.len() == 5);
    assert(initial_entries().dom() =~= set!["First"@, "Second"@, "Third"@]);
}

/// The set holds three members.
pub proof fn lemma_initial_members()
    ensures
        initial_members().finite(),
        initial_members().len() == 3,
        initial_members() == set![7368i32, 1232i32, 2324i32],
{
    assert(initial_members() =~= set![7368i32, 1232i32, 2324i32]);
}

/// Builds the map of the fixture.
pub fn hash_map() -> (table: HashMap<String, i32, FixedHasher>)
    ensures
        map_entries(table) == initial_entries(),
{
    let mut table = empty_map();
    map_insert(&mut table, "First".to_string(), 73682);
    map_insert(&mut table, "Second".to_string(), 5882);
    map_insert(&mut table, "Third".to_string(), 34234);
    table
}

/// Builds the set of the fixture.
pub fn hash_set() -> (set: HashSet<i32, FixedHasher>)
    ensures
        set_members(set) == initial_members(),
{
    let mut set = empty_set();
    set_insert(&mut set, 7368);
    set_insert(&mut set, 1232);
    set_insert(&mut set, 2324);
    set
}

/// Builds the three sequences of the fixture.
pub fn sequences() -> (sequences: Sequences)
    ensures
        sequences@ == initial_sequences(),
{
    let array: [i32; 5] = [1, 2, 3, 4, 5];
    let mut vec: Vec<i32> = Vec::new();
    vec.push(1);
    vec.push(2);
    vec.push(3);
    let mut vec_deque: VecDeque<i32> = VecDeque::new();
    vec_deque.push_back(4);
    vec_deque.push_back(5);
    vec_deque.push_back(6);
    assert(array@ =~= initial_sequences().array);
    assert(vec@ =~= initial_sequences().vec);
    assert(vec_deque@ =~= initial_sequences().vec_deque);
    Sequences { array, vec, vec_deque }
}

/// Builds the collections of the fixture.
pub fn collections() -> (collections: Collections)
    ensures
        collections@ == initial_collections(),
{
    Collections {
        sequences: sequences(),
        maps: Maps { hash_map: hash_map() },
        sets: Sets { hash_set: hash_set() },
        tuples: (SignedIntegers(0, -1, 2, -3, 4), UnsignedIntegers(0, 1, 2, 3, 4)),
    }
}

/// Builds the person of the fixture.
pub fn person() -> (person: Person)
    ensures
        person@ == initial_person(),
{
    Person { name: "David".to_string(), friends: 4, birth_date: (4, 8, 1998) }
}

/// Builds the fixture entity.
pub fn all_components() -> (bundle: AllComponents)
    ensures
        bundle@ == initial_components(),
{
    AllComponents {
        name: "All Components".to_string(),
        special: Special,
        unregistered: UnregisteredType,
        single_value: SingleValue(SINGLE_VALUE_BITS),
        single_value_serialized: SingleValueSerialized(SINGLE_VALUE_SERIALIZED_BITS),
        person: person(),
        game_state: GameState::Playing,
        game_difficulty: GameDifficulty::Hard { enemies: 4 },
        window_mode: WindowMode::Window(512, 256),
        collections: collections(),
    }
}

/// Builds what start-up spawns.
pub fn setup() -> (spawns: Spawns)
    ensures
        spawns@ == initial_spawns(),
{
    Spawns { named_entity: "Named Entity".to_string(), all_components: all_components() }
}

} // verus!

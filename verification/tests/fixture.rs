use std::collections::VecDeque;

use brp_fixture::fixture::{
    all_components, collections, hash_map, hash_set, person, sequences, setup,
    SINGLE_VALUE_BITS, SINGLE_VALUE_SERIALIZED_BITS,
};
use brp_fixture::shapes::{
    GameDifficulty, GameState, SignedIntegers, SingleValue, SingleValueSerialized, Special,
    UnregisteredType, UnsignedIntegers, WindowMode,
};

#[test]
fn setup_names_both_entities() {
    let spawns = setup();
    assert_eq!(spawns.named_entity, "Named Entity");
    assert_eq!(spawns.all_components.name, "All Components");
}

#[test]
fn setup_carries_the_fixture_entity() {
    assert_eq!(setup().all_components, all_components());
}

#[test]
fn markers_are_present() {
    let bundle = all_components();
    assert_eq!(bundle.special, Special);
    assert_eq!(bundle.unregistered, UnregisteredType);
}

#[test]
fn single_value_is_138() {
    let bundle = all_components();
    assert_eq!(bundle.single_value, SingleValue(SINGLE_VALUE_BITS));
    assert_eq!(bundle.single_value.0, 0x430A_0000);
    assert_eq!(f32::from_bits(bundle.single_value.0), 138.0);
}

#[test]
fn single_value_serialized_is_28() {
    let bundle = all_components();
    assert_eq!(
        bundle.single_value_serialized,
        SingleValueSerialized(SINGLE_VALUE_SERIALIZED_BITS)
    );
    assert_eq!(bundle.single_value_serialized.0, 0x41E0_0000);
    assert_eq!(f32::from_bits(bundle.single_value_serialized.0), 28.0);
}

#[test]
fn person_is_david() {
    let david = person();
    assert_eq!(david.name, "David");
    assert_eq!(david.friends, 4);
    assert_eq!(david.birth_date, (4, 8, 1998));
    assert_eq!(all_components().person, david);
}

#[test]
fn enums_start_in_their_variants() {
    let bundle = all_components();
    assert_eq!(bundle.game_state, GameState::Playing);
    assert_eq!(bundle.game_difficulty, GameDifficulty::Hard { enemies: 4 });
    assert_eq!(bundle.window_mode, WindowMode::Window(512, 256));
    assert_ne!(bundle.game_state, GameState::Loading(0));
    assert_ne!(bundle.game_difficulty, GameDifficulty::Easy);
    assert_ne!(bundle.window_mode, WindowMode::Fullscreen);
}

#[test]
fn sequences_hold_their_items_in_order() {
    let built = sequences();
    assert_eq!(built.array, [1, 2, 3, 4, 5]);
    assert_eq!(built.vec, vec![1, 2, 3]);
    assert_eq!(built.vec_deque, VecDeque::from([4, 5, 6]));
    assert_eq!(built.vec_deque.front(), Some(&4));
    assert_eq!(built.vec_deque.back(), Some(&6));
}

#[test]
fn hash_map_holds_three_entries() {
    let table = hash_map();
    assert_eq!(table.len(), 3);
    assert_eq!(table.get("First"), Some(&73682));
    assert_eq!(table.get("Second"), Some(&5882));
    assert_eq!(table.get("Third"), Some(&34234));
    assert_eq!(table.get("Fourth"), None);
}

#[test]
fn hash_set_holds_three_members() {
    let set = hash_set();
    assert_eq!(set.len(), 3);
    assert!(set.contains(&7368));
    assert!(set.contains(&1232));
    assert!(set.contains(&2324));
    assert!(!set.contains(&0));
}

#[test]
fn hash_collections_are_the_same_on_every_build() {
    assert_eq!(hash_map(), hash_map());
    assert_eq!(hash_set(), hash_set());
    let first: Vec<(String, i32)> = hash_map().into_iter().collect();
    let second: Vec<(String, i32)> = hash_map().into_iter().collect();
    assert_eq!(first, second);
}

#[test]
fn collections_hold_every_kind() {
    let built = collections();
    assert_eq!(built.sequences, sequences());
    assert_eq!(built.maps.hash_map, hash_map());
    assert_eq!(built.sets.hash_set, hash_set());
    assert_eq!(built.tuples.0, SignedIntegers(0, -1, 2, -3, 4));
    assert_eq!(built.tuples.1, UnsignedIntegers(0, 1, 2, 3, 4));
    assert_eq!(all_components().collections, built);
}

use car_story_service::crypto::{PublicKey, PUBLIC_KEY_LENGTH};
use car_story_service::ledger::{Blockchain, Fork};
use car_story_service::order::{compare_keys, KeyOrder};
use car_story_service::schema::{CarsSchema, OwnersSchema};
use car_story_service::storage::MapIndex;
use car_story_service::structs::{Car, Owner};

fn key(byte: u8) -> PublicKey {
    PublicKey::new([byte; PUBLIC_KEY_LENGTH])
}

fn car(vin: &str, brand: &str) -> Car {
    Car::new(vin, brand, "Roadster", "red", 17, 42_000, &key(1))
}

#[test]
fn keys_compare_byte_by_byte() {
    assert_eq!(compare_keys("a", "b"), KeyOrder::Before);
    assert_eq!(compare_keys("b", "a"), KeyOrder::After);
    assert_eq!(compare_keys("abc", "abc"), KeyOrder::Same);
    assert_eq!(compare_keys("abc", "abd"), KeyOrder::Before);
    assert_eq!(compare_keys("B", "a"), KeyOrder::Before);
    assert_eq!(compare_keys("10", "9"), KeyOrder::Before);
}

#[test]
fn a_prefix_comes_before_its_extensions() {
    assert_eq!(compare_keys("", ""), KeyOrder::Same);
    assert_eq!(compare_keys("", "a"), KeyOrder::Before);
    assert_eq!(compare_keys("a", ""), KeyOrder::After);
    assert_eq!(compare_keys("ab", "abc"), KeyOrder::Before);
    assert_eq!(compare_keys("abc", "ab"), KeyOrder::After);
}

#[test]
fn keys_outside_ascii_compare_by_their_utf8_bytes() {
    assert_eq!(compare_keys("z", "é"), KeyOrder::Before);
    assert_eq!(compare_keys("é", "z"), KeyOrder::After);
    assert_eq!(compare_keys("é", "é"), KeyOrder::Same);
    assert_eq!(compare_keys("é", "✓"), KeyOrder::Before);
    assert_eq!(compare_keys("✓", "🚗"), KeyOrder::Before);
}

#[test]
fn new_store_is_empty() {
    let index: MapIndex<Car> = MapIndex::new();
    assert_eq!(index.len(), 0);
    assert!(index.is_empty());
    assert_eq!(index.get("VIN1"), None);
    assert!(!index.contains("VIN1"));
    assert!(index.keys().is_empty());
    assert!(index.values().is_empty());
}

#[test]
fn put_then_get_gives_the_record_back() {
    let mut index = MapIndex::new();
    index.put(car("VIN1", "Acme"));
    assert_eq!(index.get("VIN1"), Some(car("VIN1", "Acme")));
    assert!(index.contains("VIN1"));
    assert_eq!(index.get("VIN2"), None);
    assert_eq!(index.get("VIN"), None);
    assert_eq!(index.get("VIN11"), None);
    assert!(!index.contains("vin1"));
    assert_eq!(index.len(), 1);
    assert!(!index.is_empty());
}

#[test]
fn put_under_a_key_in_use_replaces_the_record() {
    let mut index = MapIndex::new();
    index.put(car("VIN1", "Acme"));
    index.put(car("VIN2", "Apex"));
    index.put(car("VIN1", "Zenith"));
    assert_eq!(index.len(), 2);
    assert_eq!(index.get("VIN1"), Some(car("VIN1", "Zenith")));
    assert_eq!(index.get("VIN2"), Some(car("VIN2", "Apex")));
}

#[test]
fn store_lists_in_ascending_order_of_key() {
    let mut index = MapIndex::new();
    for vin in ["m", "c", "x", "a", "ab", "", "é", "b", "Z"] {
        index.put(car(vin, vin));
    }
    let expected = vec!["", "Z", "a", "ab", "b", "c", "m", "x", "é"];
    assert_eq!(index.keys(), expected);
    let brands: Vec<String> = index.values().iter().map(|c| c.brand().to_string()).collect();
    assert_eq!(brands, expected);
    assert_eq!(index.len(), 9);
    for vin in expected {
        assert_eq!(index.get(vin), Some(car(vin, vin)));
    }
}

#[test]
fn store_finds_every_key_among_many() {
    let mut index = MapIndex::new();
    for i in (0..200u32).rev() {
        index.put(car(&format!("VIN{:03}", (i * 37) % 200), "Acme"));
    }
    assert_eq!(index.len(), 200);
    for i in 0..200u32 {
        assert!(index.contains(&format!("VIN{:03}", i)));
    }
    assert!(!index.contains("VIN200"));
    assert!(!index.contains("VIN"));
    let keys = index.keys();
    for i in 0..200usize {
        assert_eq!(keys[i], format!("VIN{:03}", i));
    }
}

#[test]
fn a_copy_of_a_store_does_not_follow_the_store() {
    let mut index = MapIndex::new();
    index.put(car("VIN1", "Acme"));
    let copy = index.clone();
    index.put(car("VIN2", "Apex"));
    index.put(car("VIN1", "Zenith"));
    assert_eq!(copy.len(), 1);
    assert_eq!(copy.get("VIN1"), Some(car("VIN1", "Acme")));
    assert_eq!(copy.get("VIN2"), None);
}

#[test]
fn owners_are_stored_under_the_hex_of_their_key() {
    let mut index = MapIndex::new();
    index.put(Owner::new("Bob", &key(0xb0)));
    index.put(Owner::new("Alice", &key(0x0a)));
    assert_eq!(index.keys(), vec!["0a".repeat(32), "b0".repeat(32)]);
    assert_eq!(index.get(&"0a".repeat(32)), Some(Owner::new("Alice", &key(0x0a))));
    assert_eq!(index.get(&"0A".repeat(32)), None);
}

#[test]
fn schema_reads_what_the_store_holds() {
    let mut fork = Fork::new();
    let mut schema = CarsSchema { view: &mut fork };
    assert_eq!(schema.car("VIN1"), None);
    schema.cars().put(car("VIN1", "Acme"));
    assert_eq!(schema.car("VIN1"), Some(car("VIN1", "Acme")));
    assert_eq!(schema.car("VIN2"), None);
    assert_eq!(schema.cars().len(), 1);
    assert_eq!(fork.cars.get("VIN1"), Some(car("VIN1", "Acme")));
    assert!(fork.owners.is_empty());
}

#[test]
fn owners_schema_reads_what_the_store_holds() {
    let mut fork = Fork::new();
    let mut schema = OwnersSchema { view: &mut fork };
    assert_eq!(schema.owner(&key(3)), None);
    schema.owners().put(Owner::new("Carol", &key(3)));
    assert_eq!(schema.owner(&key(3)), Some(Owner::new("Carol", &key(3))));
    assert_eq!(schema.owner(&key(4)), None);
    assert!(fork.cars.is_empty());
    assert_eq!(fork.owners.len(), 1);
}

#[test]
fn the_two_stores_are_independent() {
    let mut fork = Fork::new();
    fork.cars.put(car("VIN1", "Acme"));
    fork.owners.put(Owner::new("Alice", &key(2)));
    assert_eq!(fork.cars.len(), 1);
    assert_eq!(fork.owners.len(), 1);
    assert_eq!(fork.cars.get(&key(2).to_hex()), None);
    assert_eq!(fork.owners.get("VIN1"), None);
    // a car may name an owner that was never registered
    assert_eq!(fork.owners.get(&key(1).to_hex()), None);
}

#[test]
fn a_fork_is_invisible_until_it_is_merged() {
    let mut blockchain = Blockchain::new();
    let mut fork = blockchain.fork();
    fork.cars.put(car("VIN1", "Acme"));
    assert!(blockchain.fork().cars.is_empty());
    blockchain.merge(fork);
    assert_eq!(blockchain.fork().cars.get("VIN1"), Some(car("VIN1", "Acme")));
    let mut dropped = blockchain.fork();
    dropped.cars.put(car("VIN2", "Apex"));
    assert_eq!(blockchain.fork().cars.len(), 1);
}

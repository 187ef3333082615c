use std::time::Duration;
use std::time::Instant;

use dynamic_pool::{DynamicPool, DynamicPoolConfig, NoopDynamicReset, Person};

fn wait_millis(ms: u64) {
    let start = Instant::now();
    while start.elapsed() < Duration::from_millis(ms) {}
}

#[test]
fn create_and_insert() {
    let pool = DynamicPool::new(DynamicPoolConfig {
        max_capacity: 10,
        ..Default::default()
    });

    assert_eq!(pool.used(&"hello_world"), 0);
    assert!(pool.try_take(&"hello_world").is_none());

    pool.insert("hello_world", Person::default()).unwrap();

    let _person = pool.try_take(&"hello_world").unwrap();
    assert_eq!(pool.used(&"hello_world"), 1);
    assert!(pool.try_take(&"hello_world").is_none());
}

#[test]
fn reset() {
    let pool = DynamicPool::new(DynamicPoolConfig {
        max_capacity: 10,
        ..Default::default()
    });

    pool.insert("hello_world", Person::default()).unwrap();

    let mut person = pool.try_take(&"hello_world").unwrap();
    person.age = 100;
    person.name = String::from("Elon Musk");
    drop(person);

    let person = pool.try_take(&"hello_world").unwrap();
    assert!(person.name.is_empty());
    assert_eq!(person.age, 0);
}

#[test]
fn time_to_live() {
    let pool = DynamicPool::new(DynamicPoolConfig {
        max_capacity: 10,
        time_to_live: Some(Duration::from_millis(10)),
    });

    pool.insert("hello_world", Person::default()).unwrap();

    wait_millis(100);

    assert_eq!(pool.used(&"hello_world"), 0);
    assert!(pool.try_take(&"hello_world").is_none());
}

#[test]
fn emptiness() {
    let pool: DynamicPool<&str, Person> = DynamicPool::new(DynamicPoolConfig {
        max_capacity: 10,
        ..Default::default()
    });

    assert!(pool.try_take(&"anything").is_none());
    assert_eq!(pool.used(&"anything"), 0);
    assert_eq!(pool.capacity(&"anything"), 0);
}

#[test]
fn capacity_bound() {
    let pool = DynamicPool::new(DynamicPoolConfig {
        max_capacity: 2,
        ..Default::default()
    });

    pool.insert("k", Person::default()).unwrap();
    assert_eq!(pool.capacity(&"k"), 2);
    pool.insert("k", Person::default()).unwrap();

    let rejected = Person {
        name: String::from("third"),
        age: 33,
    };
    let back = pool.insert("k", rejected).unwrap_err();
    assert_eq!(back.name, "third");
    assert_eq!(back.age, 33);
}

#[test]
fn exclusivity_until_drop() {
    let pool = DynamicPool::new(DynamicPoolConfig {
        max_capacity: 10,
        ..Default::default()
    });

    pool.insert("k", Person::default()).unwrap();
    let person = pool.try_take(&"k").unwrap();
    assert!(pool.try_take(&"k").is_none());
    drop(person);
    assert!(pool.try_take(&"k").is_some());
}

#[test]
fn round_trip_scenario() {
    let pool = DynamicPool::new(DynamicPoolConfig {
        max_capacity: 10,
        ..Default::default()
    });

    pool.insert("k", Person::default()).unwrap();

    let mut person = pool.try_take(&"k").unwrap();
    assert_eq!(pool.used(&"k"), 1);
    person.age = 42;
    person.name = String::from("mutated");
    drop(person);

    let person = pool.try_take(&"k").unwrap();
    assert_eq!(pool.used(&"k"), 1);
    assert!(person.name.is_empty());
    assert_eq!(person.age, 0);
    assert!(pool.try_take(&"k").is_none());
}

#[test]
fn used_accounting() {
    let pool = DynamicPool::new(DynamicPoolConfig {
        max_capacity: 10,
        ..Default::default()
    });

    pool.insert("k", Person::default()).unwrap();
    pool.insert("k", Person::default()).unwrap();

    let a = pool.try_take(&"k").unwrap();
    let b = pool.try_take(&"k").unwrap();
    assert_eq!(pool.used(&"k"), 2);

    drop(a);
    assert_eq!(pool.used(&"k"), 1);

    let _ = b.detach();
    assert_eq!(pool.used(&"k"), 0);
}

#[test]
fn detach_forfeiture() {
    let pool = DynamicPool::new(DynamicPoolConfig {
        max_capacity: 10,
        ..Default::default()
    });

    pool.insert("k", Person::default()).unwrap();
    let person = pool.try_take(&"k").unwrap();
    let owned = person.detach();
    assert_eq!(owned.age, 0);

    assert!(pool.try_take(&"k").is_none());
    assert_eq!(pool.used(&"k"), 0);
}

#[test]
fn ttl_sweep() {
    let pool = DynamicPool::new(DynamicPoolConfig {
        max_capacity: 10,
        time_to_live: Some(Duration::from_millis(10)),
    });

    pool.insert("k", Person::default()).unwrap();
    wait_millis(100);
    pool.sweep_expired();

    assert_eq!(pool.used(&"k"), 0);
    assert!(pool.try_take(&"k").is_none());
}

#[test]
fn no_ttl_never_expires() {
    let pool = DynamicPool::new(DynamicPoolConfig {
        max_capacity: 10,
        ..Default::default()
    });

    pool.insert("k", Person::default()).unwrap();
    wait_millis(50);
    pool.sweep_expired();

    assert!(pool.try_take(&"k").is_some());
}

#[test]
fn clone_shares_pool() {
    let pool = DynamicPool::new(DynamicPoolConfig {
        max_capacity: 10,
        ..Default::default()
    });
    let other = pool.clone();

    other.insert("k", Person::default()).unwrap();
    let guard = pool.try_take(&"k");
    assert!(guard.is_some());
    assert_eq!(other.used(&"k"), 1);
    drop(guard);
    assert_eq!(pool.used(&"k"), 0);
}

#[test]
fn distinct_keys_are_independent() {
    let pool = DynamicPool::new(DynamicPoolConfig {
        max_capacity: 10,
        ..Default::default()
    });

    pool.insert("a", Person::default()).unwrap();
    assert!(pool.try_take(&"b").is_none());
    assert_eq!(pool.capacity(&"b"), 0);
    assert!(pool.try_take(&"a").is_some());
}

#[test]
fn string_keys() {
    let pool = DynamicPool::new(DynamicPoolConfig {
        max_capacity: 10,
        ..Default::default()
    });

    pool.insert(String::from("key"), Person::default()).unwrap();
    let guard = pool.try_take(&String::from("key"));
    assert!(guard.is_some());
    assert_eq!(pool.used(&String::from("key")), 1);
}

#[test]
fn noop_reset_keeps_mutations() {
    let pool = DynamicPool::new(DynamicPoolConfig {
        max_capacity: 10,
        ..Default::default()
    });

    pool.insert("k", NoopDynamicReset(5u32)).unwrap();
    let mut guard = pool.try_take(&"k").unwrap();
    guard.0 = 7;
    drop(guard);

    let guard = pool.try_take(&"k").unwrap();
    assert_eq!(guard.0, 7);
}

#[test]
fn builder_methods() {
    let config = DynamicPoolConfig::default()
        .with_max_capacity(3)
        .with_ttl(Duration::from_millis(250));
    assert_eq!(config.max_capacity, 3);
    assert_eq!(config.time_to_live, Some(Duration::from_millis(250)));

    let pool: DynamicPool<&str, Person> = DynamicPool::new(config);
    pool.insert("k", Person::default()).unwrap();
    assert_eq!(pool.capacity(&"k"), 3);
}

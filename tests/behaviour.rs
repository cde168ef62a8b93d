use typemap::TypeMap;

#[test]
fn test() {
    let mut map = TypeMap::new();

    // Insert a value of type i32. The key will be the type_id of the value provided,
    // so it does not need to be specified.
    map.insert(7);

    // Items are retrieved via their type, so there is no need to specify a key
    assert_eq!(map.get::<i32>(), Some(&7));

    // `insert` also returns the previous value
    let previous_value = map.insert(42);

    assert_eq!(previous_value, Some(7)); // Note no reference, this is the owned value
    assert_eq!(map.get::<i32>(), Some(&42));

    // Values of different types can co-exist
    map.insert(64_u32);

    assert_eq!(map.get::<i32>(), Some(&42));
    assert_eq!(map.get::<u32>(), Some(&64));

    // Values can also be retrived mutably
    let map_u32 = map.get_mut::<u32>().unwrap();
    *map_u32 *= 10;

    assert_eq!(map.get::<u32>(), Some(&640));

    // Removing values updates the map and returns the value
    let map_i32 = map.remove::<i32>();

    assert_eq!(map_i32, Some(42));
    assert_eq!(map.get::<i32>(), None);
}

#[derive(Debug, PartialEq)]
struct Meters(u64);

#[derive(Debug, PartialEq)]
struct Seconds(u64);

#[test]
fn insert_then_get_and_contains() {
    let mut map = TypeMap::new();
    assert!(!map.contains::<String>());
    assert_eq!(map.insert(String::from("hello")), None);
    assert_eq!(map.get::<String>(), Some(&String::from("hello")));
    assert!(map.contains::<String>());
    assert_eq!(map.len(), 1);
}

#[test]
fn insert_returns_prior_value() {
    let mut map = TypeMap::new();
    map.insert(vec![1_u8, 2, 3]);
    let prior = map.insert(vec![9_u8]);
    assert_eq!(prior, Some(vec![1_u8, 2, 3]));
    assert_eq!(map.get::<Vec<u8>>(), Some(&vec![9_u8]));
    assert_eq!(map.len(), 1);
}

#[test]
fn first_insert_on_empty_returns_none() {
    let mut map = TypeMap::new();
    assert_eq!(map.insert(true), None);
    assert_eq!(map.len(), 1);
}

#[test]
fn types_with_same_bytes_are_kept_apart() {
    let mut map = TypeMap::new();
    map.insert(Meters(5));
    map.insert(Seconds(5));
    map.insert(5_u64);
    map.insert(5_i64);
    assert_eq!(map.len(), 4);
    assert_eq!(map.get::<Meters>(), Some(&Meters(5)));
    assert_eq!(map.insert(Seconds(8)), Some(Seconds(5)));
    assert_eq!(map.get::<Meters>(), Some(&Meters(5)));
    assert_eq!(map.get::<u64>(), Some(&5));
    assert_eq!(map.remove::<u64>(), Some(5));
    assert_eq!(map.get::<i64>(), Some(&5));
    assert!(!map.contains::<u64>());
    assert!(map.contains::<i64>());
    assert_eq!(map.get::<u32>(), None);
}

#[test]
fn remove_then_get_is_none() {
    let mut map = TypeMap::new();
    map.insert('x');
    assert_eq!(map.remove::<char>(), Some('x'));
    assert_eq!(map.get::<char>(), None);
    assert!(!map.contains::<char>());
    assert_eq!(map.remove::<char>(), None);
    assert_eq!(map.len(), 0);
}

#[test]
fn clear_empties_the_map() {
    let mut map = TypeMap::with_capacity(8);
    map.insert(1_u8);
    map.insert(2_u16);
    map.insert(String::from("s"));
    assert_eq!(map.len(), 3);
    map.clear();
    assert_eq!(map.len(), 0);
    assert!(map.is_empty());
    assert!(!map.contains::<u8>());
    assert!(!map.contains::<u16>());
    assert!(!map.contains::<String>());
    assert_eq!(map.insert(4_u8), None);
}

#[test]
fn len_and_is_empty_agree() {
    let mut map = TypeMap::default();
    assert!(map.is_empty());
    assert_eq!(map.len(), 0);
    map.insert(1_i8);
    assert!(!map.is_empty());
    assert_eq!(map.len(), 1);
    map.insert(2_i8);
    assert_eq!(map.len(), 1);
    map.insert(3_i16);
    assert_eq!(map.len(), 2);
    map.remove::<i8>();
    assert_eq!(map.len(), 1);
    assert!(!map.is_empty());
    map.remove::<i16>();
    assert!(map.is_empty());
    assert_eq!(map.len(), 0);
}

#[test]
fn mutation_through_get_mut_is_visible() {
    let mut map = TypeMap::new();
    assert!(map.get_mut::<String>().is_none());
    map.insert(String::from("ab"));
    map.get_mut::<String>().unwrap().push('c');
    assert_eq!(map.get::<String>().map(|s| s.as_str()), Some("abc"));
    assert_eq!(map.len(), 1);
}

#[test]
fn with_capacity_starts_empty() {
    let map = TypeMap::with_capacity(0);
    assert!(map.is_empty());
    let map = TypeMap::with_capacity(100);
    assert_eq!(map.len(), 0);
    assert_eq!(map.get::<u8>(), None);
}

#[test]
fn two_integer_types_side_by_side() {
    let mut map = TypeMap::new();
    map.insert(7_i32);
    assert_eq!(map.get::<i32>(), Some(&7));
    assert_eq!(map.insert(42_i32), Some(7));
    assert_eq!(map.get::<i32>(), Some(&42));
    map.insert(64_u32);
    assert_eq!(map.get::<i32>(), Some(&42));
    assert_eq!(map.get::<u32>(), Some(&64));
    *map.get_mut::<u32>().unwrap() *= 10;
    assert_eq!(map.get::<u32>(), Some(&640));
    assert_eq!(map.remove::<i32>(), Some(42));
    assert_eq!(map.get::<i32>(), None);
    assert_eq!(map.get::<u32>(), Some(&640));
}

#[test]
fn insertion_order_does_not_matter() {
    let mut first = TypeMap::new();
    first.insert(1_u8);
    first.insert(String::from("a"));
    let mut second = TypeMap::new();
    second.insert(String::from("a"));
    second.insert(1_u8);
    assert_eq!(first.len(), second.len());
    assert_eq!(first.get::<u8>(), second.get::<u8>());
    assert_eq!(first.get::<String>(), second.get::<String>());
    assert_eq!(first.get::<u16>(), second.get::<u16>());
}

#[test]
fn insert_then_remove_restores_the_map() {
    let mut map = TypeMap::new();
    map.insert(3_u64);
    map.insert(Meters(2));
    assert_eq!(map.remove::<Meters>(), Some(Meters(2)));
    assert_eq!(map.len(), 1);
    assert_eq!(map.get::<u64>(), Some(&3));
    assert!(!map.contains::<Meters>());
}

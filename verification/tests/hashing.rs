use object_safe::{
    as_hash_object, hash_into, to_hash_object, EqObj, HashObj, HashSink, Obj, PartialEqObj,
};
use std::collections::hash_map::DefaultHasher;
use std::hash::{Hash, Hasher};

trait MyHash: HashObj {}

#[derive(Hash)]
struct MyHashWrapper(Obj<Box<dyn MyHash>>);

impl<T> MyHash for T where T: Hash {}

trait MyTrait: HashObj + EqObj + PartialEqObj {}

impl<T> MyTrait for T where T: Hash + Eq + PartialEq + 'static {}

impl Hash for dyn MyTrait {
    fn hash<H: Hasher>(&self, state: &mut H) {
        hash_into(self, state);
    }
}

impl Eq for dyn MyTrait {}

impl PartialEq for dyn MyTrait {
    fn eq(&self, other: &Self) -> bool {
        self.eq_object(other.as_partial_eq_object())
    }
}

fn hash<T: Hash>(t: T) -> u64 {
    let mut hasher = DefaultHasher::new();
    t.hash(&mut hasher);
    hasher.finish()
}

fn shadow_hash<T: HashObj + ?Sized>(t: &T) -> u64 {
    let mut hasher = DefaultHasher::new();
    t.hash_object(&mut HashSink(&mut hasher));
    hasher.finish()
}

#[test]
fn hash_works() {
    let x: &str = "Hello, World!";
    let y: &dyn HashObj = as_hash_object(&"Hello, World!");
    let z: &dyn HashObj = as_hash_object(&"banana");
    assert_eq!(hash(x), hash(y));
    assert_ne!(hash(y), hash(z));
}

#[test]
fn hash_obj_works() {
    let a = hash(0);
    let b = hash(Box::new(0));
    let c = hash(Obj(Box::new(0)));
    let d = hash(MyHashWrapper(Obj(Box::new(0))));
    assert_eq!(a, b);
    assert_eq!(a, c);
    assert_eq!(a, d);
}

#[test]
fn box_dyn_custom_eq() {
    if Box::new(0) as Box<dyn MyTrait> != Box::new(0) as Box<dyn MyTrait> {
        panic!("should be equal");
    }
    if Box::new(0) as Box<dyn MyTrait> == Box::new(1) as Box<dyn MyTrait> {
        panic!("should not be equal");
    }
}

#[test]
fn box_dyn_custom_hash() {
    assert_eq!(hash(Box::new(5u64) as Box<dyn MyTrait>), hash(5u64));
    assert_ne!(hash(Box::new(5u64) as Box<dyn MyTrait>), hash(6u64));
}

#[test]
fn shadow_hash_is_the_own_hash() {
    assert_eq!(shadow_hash(&17u32), hash(17u32));
    assert_eq!(shadow_hash(&-1i64), hash(-1i64));
    assert_eq!(shadow_hash(&String::from("Hello, World!")), hash("Hello, World!"));
    assert_eq!(shadow_hash(&(1u8, 'x', true)), hash((1u8, 'x', true)));
    assert_eq!(shadow_hash(&vec![1u8, 2, 3]), hash(vec![1u8, 2, 3]));
    assert_eq!(shadow_hash(&()), hash(()));
    assert_ne!(shadow_hash(&17u32), hash(18u32));
}

#[test]
fn equal_values_have_equal_shadow_hashes() {
    let a = String::from("equal");
    let b = String::from("equal");
    assert!(a == b);
    assert_eq!(shadow_hash(&a), shadow_hash(&b));
    let c = vec![(1i8, 2u16), (3, 4)];
    let d = vec![(1i8, 2u16), (3, 4)];
    assert!(c == d);
    assert_eq!(shadow_hash(&c), shadow_hash(&d));
}

#[test]
fn shadow_hash_appends_to_what_the_hasher_holds() {
    let mut direct = DefaultHasher::new();
    1u8.hash(&mut direct);
    2u16.hash(&mut direct);
    "three".hash(&mut direct);
    let mut shadow = DefaultHasher::new();
    {
        let mut sink = HashSink(&mut shadow);
        1u8.hash_object(&mut sink);
        2u16.hash_object(&mut sink);
        "three".hash_object(&mut sink);
    }
    assert_eq!(shadow.finish(), direct.finish());
    let mut swapped = DefaultHasher::new();
    {
        let mut sink = HashSink(&mut swapped);
        2u16.hash_object(&mut sink);
        1u8.hash_object(&mut sink);
        "three".hash_object(&mut sink);
    }
    assert_ne!(swapped.finish(), direct.finish());
}

#[test]
fn hash_into_feeds_a_hasher_of_any_type() {
    let mut direct = DefaultHasher::new();
    "a".hash(&mut direct);
    7u8.hash(&mut direct);
    let mut shadow = DefaultHasher::new();
    hash_into(&"a", &mut shadow);
    hash_into(as_hash_object(&7u8), &mut shadow);
    assert_eq!(shadow.finish(), direct.finish());
}

#[test]
fn an_empty_contribution_leaves_the_hasher_alone() {
    let untouched = DefaultHasher::new().finish();
    assert_eq!(shadow_hash(&()), untouched);
}

#[test]
fn hash_objects_hash_as_their_values() {
    let word: &dyn HashObj = as_hash_object(&"word");
    assert_eq!(hash(word), hash("word"));
    assert_eq!(shadow_hash(word), hash("word"));
    let boxed: Box<dyn HashObj> = to_hash_object(99i16);
    assert_eq!(hash(&boxed), hash(99i16));
    assert_eq!(hash(boxed), hash(99i16));
    let other: Box<dyn HashObj> = to_hash_object(100i16);
    assert_ne!(hash(other), hash(99i16));
}

#[test]
fn the_wrapper_hashes_as_its_payload() {
    assert_eq!(hash(Obj(Box::new("payload"))), shadow_hash(&"payload"));
    assert_eq!(hash(Obj::new(&7u8)), shadow_hash(&7u8));
    assert_eq!(hash(Obj(std::rc::Rc::new(7u8))), hash(7u8));
    assert_eq!(hash(Obj(to_hash_object(7u8))), hash(7u8));
    assert_ne!(hash(Obj(Box::new(7u8))), hash(8u8));
    assert_eq!(shadow_hash(&Obj(Box::new(7u8))), hash(7u8));
}

use std::cell::Cell;
use std::cmp::Ordering;
use std::collections::hash_map::DefaultHasher;
use std::collections::BTreeSet;
use std::collections::HashSet;
use std::hash::Hash;
use std::hash::Hasher;
use std::rc::Rc;
use variance::Invariant;

/// A parameter that can do nothing: no `Clone`, no `PartialEq`, no `Debug`.
struct Plain;

/// A structure that is invariant over `T` and holds one word besides.
struct Tagged<T> {
    word: u64,
    tag: Invariant<T>,
}

fn digest<V: Hash>(value: &V) -> u64 {
    let mut hasher = DefaultHasher::new();
    value.hash(&mut hasher);
    hasher.finish()
}

fn needs_send<V: Send>(_: &V) {}

fn needs_sync<V: Sync>(_: &V) {}

fn needs_copy<V: Copy>(_: &V) {}

#[test]
fn markers_are_equal() {
    let a = Invariant::<u8>::new();
    let b = Invariant::<u8>::new();
    assert!(a == b);
    assert!(!(a != b));
    assert_eq!(a, b);
}

#[test]
fn markers_order_as_equal() {
    let a = Invariant::<String>::new();
    let b = Invariant::<String>::new();
    assert!(a <= b);
    assert!(a >= b);
    assert!(!(a < b));
    assert!(!(a > b));
    assert_eq!(a.partial_cmp(&b), Some(Ordering::Equal));
    assert_eq!(a.cmp(&b), Ordering::Equal);
    assert_eq!(b.cmp(&a), Ordering::Equal);
}

#[test]
fn comparison_methods_agree_with_the_operators() {
    let a = Invariant::<i64>::new();
    let b = Invariant::<i64>::default();
    assert!(PartialEq::eq(&a, &b));
    assert!(!PartialEq::ne(&a, &b));
    assert!(!PartialOrd::lt(&a, &b));
    assert!(PartialOrd::le(&a, &b));
    assert!(!PartialOrd::gt(&a, &b));
    assert!(PartialOrd::ge(&a, &b));
    assert_eq!(PartialOrd::partial_cmp(&a, &b), Some(Ordering::Equal));
    assert_eq!(Ord::cmp(&a, &b), Ordering::Equal);
}

#[test]
fn a_marker_equals_itself() {
    let a = Invariant::<u8>::new();
    assert!(a == a);
    assert!(a <= a);
    assert!(!(a < a));
    assert_eq!(a.cmp(&a), Ordering::Equal);
}

#[test]
fn markers_of_a_parameter_without_capabilities_compare() {
    let a = Invariant::<Plain>::new();
    let b = Invariant::<Plain>::default();
    assert!(a == b);
    assert!(!(a != b));
    assert!(a <= b && a >= b);
    assert!(!(a < b) && !(a > b));
    assert_eq!(a.partial_cmp(&b), Some(Ordering::Equal));
    assert_eq!(a.cmp(&b), Ordering::Equal);
    assert_eq!(digest(&a), digest(&b));
    assert_eq!(format!("{:?}", a), "Invariant Type Marker");
    needs_copy(&a);
}

#[test]
fn provided_ord_methods_return_a_marker() {
    let a = Invariant::<u8>::new();
    let b = Invariant::<u8>::new();
    assert_eq!(a.max(b), a);
    assert_eq!(a.min(b), b);
    assert_eq!(a.clamp(a, b), a);
}

#[test]
fn markers_hash_alike() {
    let a = Invariant::<u8>::new();
    let b = Invariant::<u8>::new();
    assert_eq!(digest(&a), digest(&b));
    assert_eq!(digest(&a), digest(&a.clone()));
    assert_eq!(digest(&a), digest(&Invariant::<u8>::default()));
}

#[test]
fn hashing_a_marker_is_hashing_unit() {
    let marker = Invariant::<Vec<u8>>::new();
    assert_eq!(digest(&marker), digest(&()));
}

#[test]
fn hashing_a_marker_feeds_the_hasher_nothing() {
    let mut untouched = DefaultHasher::new();
    let mut fed = DefaultHasher::new();
    Invariant::<u32>::new().hash(&mut fed);
    assert_eq!(fed.finish(), untouched.finish());

    untouched.write_u32(7);
    fed.write_u32(7);
    Invariant::<u32>::new().hash(&mut fed);
    Invariant::<u32>::new().hash(&mut fed);
    assert_eq!(fed.finish(), untouched.finish());
}

#[test]
fn hash_does_not_depend_on_the_parameter() {
    assert_eq!(digest(&Invariant::<u8>::new()), digest(&Invariant::<String>::new()));
    assert_eq!(digest(&Invariant::<u8>::new()), digest(&Invariant::<Plain>::new()));
}

#[test]
fn clone_equals_its_source() {
    let a = Invariant::<u16>::new();
    let b = a.clone();
    assert!(a == b);
    assert_eq!(a.cmp(&b), Ordering::Equal);
}

#[test]
fn copy_leaves_its_source_usable() {
    let a = Invariant::<Plain>::new();
    let b = a;
    let c = a;
    assert!(a == b);
    assert!(b == c);
}

#[test]
fn default_equals_new() {
    let made = Invariant::<u8>::new();
    let default = Invariant::<u8>::default();
    assert!(default == made);
    assert!(made == default);
    let inferred: Invariant<String> = Default::default();
    assert!(inferred == Invariant::new());
}

#[test]
fn debug_text_is_fixed() {
    assert_eq!(format!("{:?}", Invariant::<u8>::new()), "Invariant Type Marker");
    assert_eq!(format!("{:?}", Invariant::<String>::new()), "Invariant Type Marker");
    assert_eq!(format!("{:?}", Invariant::<Plain>::new()), "Invariant Type Marker");
    assert_eq!(format!("{:?}", Invariant::<Rc<Cell<u8>>>::default()), "Invariant Type Marker");
    assert_eq!(format!("{:?}", Invariant::<&str>::new().clone()), "Invariant Type Marker");
}

#[test]
fn debug_text_ignores_formatting_flags() {
    let marker = Invariant::<u8>::new();
    assert_eq!(format!("{:#?}", marker), "Invariant Type Marker");
    assert_eq!(format!("{:>40?}", marker), "Invariant Type Marker");
    assert_eq!(format!("{:.3?}", marker), "Invariant Type Marker");
}

#[test]
fn debug_text_stands_where_it_is_written() {
    let marker = Invariant::<u8>::new();
    assert_eq!(format!("<{:?}|{:?}>", marker, marker), "<Invariant Type Marker|Invariant Type Marker>");
}

#[test]
fn marker_takes_no_space() {
    assert_eq!(std::mem::size_of::<Invariant<u8>>(), 0);
    assert_eq!(std::mem::size_of::<Invariant<[u64; 32]>>(), 0);
    assert_eq!(std::mem::size_of::<Invariant<Plain>>(), 0);
    assert_eq!(std::mem::align_of::<Invariant<u64>>(), 1);
}

#[test]
fn embedding_a_marker_adds_no_space() {
    assert_eq!(std::mem::size_of::<Tagged<String>>(), std::mem::size_of::<u64>());
    assert_eq!(std::mem::size_of::<Tagged<[u8; 100]>>(), std::mem::size_of::<u64>());
    assert_eq!(std::mem::align_of::<Tagged<String>>(), std::mem::align_of::<u64>());
    let tagged = Tagged::<String> { word: 9, tag: Invariant::new() };
    assert_eq!(tagged.word, 9);
    assert!(tagged.tag == Invariant::new());
}

#[test]
fn marker_of_a_thread_bound_parameter_is_send_and_sync() {
    let of_rc = Invariant::<Rc<u8>>::new();
    needs_send(&of_rc);
    needs_sync(&of_rc);
    let of_cell = Invariant::<Cell<u8>>::new();
    needs_send(&of_cell);
    needs_sync(&of_cell);
    assert!(of_rc == Invariant::default());
    assert_eq!(of_rc.cmp(&of_rc.clone()), Ordering::Equal);
    assert_eq!(digest(&of_rc), digest(&Invariant::<u8>::new()));
    assert_eq!(format!("{:?}", of_rc), "Invariant Type Marker");
    assert_eq!(std::mem::size_of::<Invariant<Rc<u8>>>(), 0);
}

#[test]
fn markers_collapse_in_sets() {
    let mut hashed = HashSet::new();
    assert!(hashed.insert(Invariant::<u8>::new()));
    assert!(!hashed.insert(Invariant::<u8>::default()));
    assert_eq!(hashed.len(), 1);
    assert!(hashed.contains(&Invariant::new()));

    let mut ordered = BTreeSet::new();
    assert!(ordered.insert(Invariant::<Plain>::new()));
    assert!(!ordered.insert(Invariant::<Plain>::new()));
    assert_eq!(ordered.len(), 1);
}

#[test]
fn markers_sort_and_dedup() {
    let mut markers = vec![Invariant::<u8>::new(), Invariant::default(), Invariant::new()];
    markers.sort();
    assert_eq!(markers.len(), 3);
    markers.dedup();
    assert_eq!(markers.len(), 1);
    assert_eq!(markers.binary_search(&Invariant::new()), Ok(0));
}

use rcstr::RcStr;
use std::cmp::Ordering;
use std::collections::hash_map::DefaultHasher;
use std::collections::{BTreeSet, HashSet};
use std::hash::{Hash, Hasher};

fn hash_of<T: Hash + ?Sized>(value: &T) -> u64 {
    let mut h = DefaultHasher::new();
    value.hash(&mut h);
    h.finish()
}

#[test]
fn construct_dereferences_to_its_text() {
    let a = RcStr::new("foo");
    let view: &str = &a;
    assert_eq!(view, "foo");
    assert_eq!(&*a, "foo");
    assert_eq!(a.as_str(), "foo");
    assert_eq!(a.len(), 3);
    assert!(!a.is_empty());

    let owned = RcStr::new(String::from("from an owned string"));
    assert_eq!(owned.as_str(), "from an owned string");
}

#[test]
fn empty_text_is_valid() {
    let e = RcStr::new("");
    assert_eq!(e.as_str(), "");
    assert_eq!(e.len(), 0);
    assert!(e.is_empty());
    assert!(e == RcStr::new(String::new()));
}

#[test]
fn equality_follows_content() {
    assert!(RcStr::new("x") == RcStr::new("x"));
    assert!(RcStr::new("x") != RcStr::new("y"));
    assert!(RcStr::new("") == RcStr::new(""));
    assert!(RcStr::new("x") != RcStr::new(""));
    assert!(RcStr::new(String::from("mixed")) == RcStr::new("mixed"));
}

#[test]
fn independently_constructed_handles_compare_equal() {
    let a = RcStr::new("x");
    let b = RcStr::new("x");
    assert!(a == b);
    assert_eq!(a.as_str(), b.as_str());
}

#[test]
fn ordering_matches_lexicographic_order() {
    let pairs = [
        ("a", "b"),
        ("ab", "abc"),
        ("", "a"),
        ("abc", "abd"),
        ("Z", "a"),
        ("same", "same"),
    ];
    for (s, t) in pairs {
        let a = RcStr::new(s);
        let b = RcStr::new(t);
        assert_eq!(a.partial_cmp(&b), Some(s.cmp(t)));
        assert_eq!(a.cmp(&b), s.cmp(t));
        assert_eq!(a < b, s < t);
        assert_eq!(a <= b, s <= t);
        assert_eq!(a > b, s > t);
    }
    assert_eq!(
        RcStr::new("ab").partial_cmp(&RcStr::new("b")),
        Some(Ordering::Less)
    );
}

#[test]
fn sorted_container_orders_by_content() {
    let mut set: BTreeSet<RcStr> = BTreeSet::new();
    set.insert(RcStr::new("pear"));
    set.insert(RcStr::new("apple"));
    set.insert(RcStr::new("quince"));
    set.insert(RcStr::new(""));
    let in_order: Vec<&str> = set.iter().map(|s| s.as_str()).collect();
    assert_eq!(in_order, vec!["", "apple", "pear", "quince"]);
}

#[test]
fn hashes_like_the_borrowed_view() {
    for s in ["", "foo", "hello world", "\u{00e9}t\u{00e9}"] {
        assert_eq!(hash_of(&RcStr::new(s)), hash_of(s));
    }
}

#[test]
fn heterogeneous_lookup_in_a_hash_set() {
    let mut map: HashSet<RcStr> = HashSet::new();
    map.insert(RcStr::new("foo"));

    assert!(map.contains("foo"));
    assert!(map.contains(&RcStr::new("foo")));
    assert!(!map.contains("bar"));
    assert!(!map.contains(&RcStr::new("bar")));
}

#[test]
fn clone_shares_content_and_outlives_the_original() {
    let a = RcStr::new("keep me");
    let b = a.clone();
    assert!(a == b);
    drop(a);
    assert_eq!(b.as_str(), "keep me");
    assert_eq!(b.len(), 7);
}

#[test]
fn formatting_shows_the_raw_text() {
    let h = RcStr::new("hello");
    assert_eq!(format!("{}", h), "hello");
    assert_eq!(format!("{}", h), format!("{}", h.as_str()));
    assert_eq!(format!("{:?}", h), format!("{:?}", "hello"));
    assert_eq!(format!("{:?}", h), "\"hello\"");
}

#[test]
fn debug_formatting_escapes_like_the_view() {
    let h = RcStr::new("a\"b\\c\nd");
    assert_eq!(format!("{:?}", h), format!("{:?}", "a\"b\\c\nd"));
    assert_eq!(format!("{}", h), "a\"b\\c\nd");
}

#[test]
fn non_ascii_content_is_kept_exactly() {
    let s = "gr\u{00fc}\u{00df} \u{4e16}\u{754c}";
    let a = RcStr::new(s);
    assert_eq!(a.as_str(), s);
    assert!(a == RcStr::new(String::from(s)));
    assert_eq!(a.cmp(&RcStr::new(s)), Ordering::Equal);
}

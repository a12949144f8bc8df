use mcdk::utils::{create_compact_uuid, create_random_uuid};
use mcdk::version::Version;

#[test]
fn test_version() {
    let v1 = Version::new("1.2.3").unwrap();
    let v2 = Version::new("1.2.4").unwrap();
    assert!(v1 < v2);

    let v3 = Version::new("2.0.0").unwrap();
    assert!(v1 < v3);
}

#[test]
fn test_uuid() {
    let uuid = create_random_uuid();
    assert_eq!(uuid.len(), 36);

    let compact = create_compact_uuid();
    assert_eq!(compact.len(), 32);
}

#[test]
fn random_uuid_has_hyphenated_v4_layout() {
    let uuid = create_random_uuid();
    let chars: Vec<char> = uuid.chars().collect();
    for (i, c) in chars.iter().enumerate() {
        if i == 8 || i == 13 || i == 18 || i == 23 {
            assert_eq!(*c, '-');
        } else {
            assert!(c.is_ascii_hexdigit() && !c.is_ascii_uppercase());
        }
    }
    assert_eq!(chars[14], '4');
    assert!(matches!(chars[19], '8' | '9' | 'a' | 'b'));
}

#[test]
fn compact_uuid_has_v4_layout() {
    let uuid = create_compact_uuid();
    let chars: Vec<char> = uuid.chars().collect();
    assert!(chars.iter().all(|c| c.is_ascii_hexdigit() && !c.is_ascii_uppercase()));
    assert_eq!(chars[12], '4');
    assert!(matches!(chars[16], '8' | '9' | 'a' | 'b'));
}

#[test]
fn two_random_uuids_differ() {
    assert_ne!(create_random_uuid(), create_random_uuid());
}

#[test]
fn version_skips_pieces_that_are_not_numbers() {
    let v = Version::new("1.x.3").unwrap();
    assert_eq!(v.components(), &vec![1, 3]);
    let v = Version::new("+7..08").unwrap();
    assert_eq!(v.components(), &vec![7, 8]);
    assert!(Version::new("").is_none());
    assert!(Version::new("a.b").is_none());
    assert!(Version::new("-1").is_none());
    assert!(Version::new("4294967296").is_none());
    assert_eq!(Version::new("4294967295").unwrap().components(), &vec![4294967295]);
}

#[test]
fn version_text_reads_back() {
    let v = Version::from_components(vec![10, 0, 305]);
    assert_eq!(v.to_string(), "10.0.305");
    let w = Version::new(&v.to_string()).unwrap();
    assert_eq!(w.components(), v.components());
    assert_eq!(Version::from_components(vec![]).to_string(), "");
}

#[test]
fn trailing_zeros_do_not_change_a_version() {
    let a = Version::new("1.2").unwrap();
    let b = Version::new("1.2.0.0").unwrap();
    assert!(a == b);
    assert_eq!(a.compare_to(&b), 0);
    assert!(!(a < b) && !(b < a));
}

#[test]
fn version_order_is_consistent() {
    let a = Version::new("1.10").unwrap();
    let b = Version::new("1.9.9").unwrap();
    let c = Version::new("2").unwrap();
    assert!(b < a && a < c && b < c);
    assert_eq!(a.compare_to(&b), 1);
    assert_eq!(b.compare_to(&a), -1);
    assert_eq!(a.compare_to(&a), 0);
    assert_eq!(a.partial_cmp(&c), Some(std::cmp::Ordering::Less));
}

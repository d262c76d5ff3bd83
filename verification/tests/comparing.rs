use rocket_uuid::order::first_difference;
use rocket_uuid::Uuid;
use std::cmp::Ordering;

const SORTED: [&str; 6] = [
    "00000000-0000-0000-0000-000000000000",
    "00000000-0000-0000-0000-000000000001",
    "00000000-0000-0100-0000-000000000000",
    "01234567-89ab-cdef-0123-456789abcdef",
    "c1aa1e3b-9614-4895-9ebd-705255fa5bc2",
    "ffffffff-ffff-ffff-ffff-ffffffffffff",
];

#[test]
fn same_text_gives_equal_values() {
    for text in SORTED {
        let a = Uuid::from_str(text).unwrap();
        let b = Uuid::from_param(text).unwrap();
        let direct = uuid::Uuid::parse_str(text).unwrap();
        assert!(a == b);
        assert!(!(a != b));
        assert!(a == *direct.as_bytes());
        assert_eq!(a.partial_cmp(&b), Some(Ordering::Equal));
        assert_eq!(a.cmp(&b), Ordering::Equal);
    }
}

#[test]
fn different_texts_give_different_values() {
    for i in 0..SORTED.len() {
        for k in 0..SORTED.len() {
            let a = Uuid::from_str(SORTED[i]).unwrap();
            let b = Uuid::from_str(SORTED[k]).unwrap();
            assert_eq!(a == b, i == k);
            assert_eq!(a == b.into_inner(), i == k);
        }
    }
}

#[test]
fn order_is_that_of_the_bytes() {
    for i in 0..SORTED.len() {
        for k in 0..SORTED.len() {
            let a = Uuid::from_str(SORTED[i]).unwrap();
            let b = Uuid::from_str(SORTED[k]).unwrap();
            assert_eq!(a.partial_cmp(&b), Some(i.cmp(&k)));
            assert_eq!(a.cmp(&b), i.cmp(&k));
            assert_eq!(a < b, i < k);
            assert_eq!(a >= b, i >= k);
        }
    }
}

#[test]
fn order_agrees_with_the_parser_s_values() {
    for i in 0..SORTED.len() {
        for k in 0..SORTED.len() {
            let a = Uuid::from_str(SORTED[i]).unwrap();
            let b = Uuid::from_str(SORTED[k]).unwrap();
            let x = uuid::Uuid::parse_str(SORTED[i]).unwrap();
            let y = uuid::Uuid::parse_str(SORTED[k]).unwrap();
            assert_eq!(a.partial_cmp(&b), x.partial_cmp(&y));
            assert_eq!(a.cmp(&b), x.cmp(&y));
            assert_eq!(a == b, x == y);
        }
    }
}

#[test]
fn first_byte_that_differs_decides() {
    let a = Uuid::from_str("00ff0000-0000-0000-0000-000000000000").unwrap();
    let b = Uuid::from_str("0100ffff-ffff-ffff-ffff-ffffffffffff").unwrap();
    let c = Uuid::from_str("0100ffff-ffff-ffff-ffff-fffffffffffe").unwrap();
    assert_eq!(a.partial_cmp(&b), Some(Ordering::Less));
    assert_eq!(b.partial_cmp(&a), Some(Ordering::Greater));
    assert_eq!(b.partial_cmp(&c), Some(Ordering::Greater));
    assert_eq!(c.partial_cmp(&b), Some(Ordering::Less));
}

#[test]
fn first_difference_finds_the_index() {
    let a: [u8; 16] = [1, 2, 3, 4, 5, 6, 7, 8, 9, 10, 11, 12, 13, 14, 15, 16];
    let mut b = a;
    assert_eq!(first_difference(&a, &b), 16);
    b[15] = 0;
    assert_eq!(first_difference(&a, &b), 15);
    b[3] = 9;
    assert_eq!(first_difference(&a, &b), 3);
    b[0] = 0;
    assert_eq!(first_difference(&a, &b), 0);
    assert_eq!(first_difference(&b, &a), 0);
}

#[test]
fn values_are_copied_not_moved() {
    let a = Uuid::from_str("c1aa1e3b-9614-4895-9ebd-705255fa5bc2").unwrap();
    let b = a;
    let c = a.clone();
    assert_eq!(a, b);
    assert_eq!(a, c);
    assert_eq!(a.into_inner(), *b.as_bytes());
}

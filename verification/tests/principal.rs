use anchor_lang::prelude::Pubkey;
use sanctos_messenger::principal::{sort_pair, Principal};

fn key(first: u8, last: u8) -> Principal {
    let mut bytes = [0u8; 32];
    bytes[0] = first;
    bytes[31] = last;
    Principal::new(bytes)
}

fn samples() -> Vec<Principal> {
    let mut middle = [7u8; 32];
    middle[16] = 200;
    vec![
        Principal::zero(),
        key(0, 1),
        key(0, 255),
        key(1, 0),
        key(1, 9),
        key(2, 0),
        key(127, 128),
        key(128, 127),
        key(255, 0),
        key(255, 255),
        Principal::new([7u8; 32]),
        Principal::new(middle),
        Principal::new([255u8; 32]),
    ]
}

#[test]
fn sort_pair_orders_by_first_difference() {
    let a = key(1, 9);
    let b = key(2, 0);
    assert_eq!(sort_pair(a, b), (a, b));
    assert_eq!(sort_pair(b, a), (a, b));
}

#[test]
fn sort_pair_is_decided_by_the_last_byte_when_all_others_agree() {
    let a = key(5, 3);
    let b = key(5, 4);
    assert_eq!(sort_pair(a, b), (a, b));
    assert_eq!(sort_pair(b, a), (a, b));
}

#[test]
fn sort_pair_compares_bytes_as_unsigned() {
    let low = key(127, 0);
    let high = key(128, 0);
    assert_eq!(sort_pair(high, low), (low, high));
}

#[test]
fn sort_pair_of_equal_identifiers_keeps_both() {
    let a = key(9, 9);
    assert_eq!(sort_pair(a, a), (a, a));
}

#[test]
fn sort_pair_does_not_depend_on_argument_order() {
    let all = samples();
    for a in all.iter() {
        for b in all.iter() {
            assert_eq!(sort_pair(*a, *b), sort_pair(*b, *a));
        }
    }
}

#[test]
fn sort_pair_returns_the_two_arguments_smaller_first() {
    let all = samples();
    for a in all.iter() {
        for b in all.iter() {
            let (lower, higher) = sort_pair(*a, *b);
            assert!(lower.le(&higher));
            assert!((lower, higher) == (*a, *b) || (lower, higher) == (*b, *a));
        }
    }
}

#[test]
fn le_is_total_and_antisymmetric() {
    let all = samples();
    for a in all.iter() {
        for b in all.iter() {
            assert!(a.le(b) || b.le(a));
            if a.le(b) && b.le(a) {
                assert_eq!(a, b);
            }
        }
    }
}

#[test]
fn le_agrees_with_the_order_of_public_keys() {
    let all = samples();
    for a in all.iter() {
        for b in all.iter() {
            let x = Pubkey::new_from_array(a.bytes);
            let y = Pubkey::new_from_array(b.bytes);
            assert_eq!(a.le(b), x <= y);
            let (lower, higher) = sort_pair(*a, *b);
            assert_eq!(lower.bytes, std::cmp::min(x, y).to_bytes());
            assert_eq!(higher.bytes, std::cmp::max(x, y).to_bytes());
        }
    }
}

#[test]
fn equality_compares_all_bytes() {
    assert_eq!(key(1, 2), key(1, 2));
    assert_ne!(key(1, 2), key(1, 3));
    assert_ne!(key(1, 2), key(0, 2));
    let mut bytes = [0u8; 32];
    bytes[17] = 1;
    assert_ne!(Principal::new(bytes), Principal::zero());
}

#[test]
fn zero_is_thirty_two_zero_bytes() {
    assert_eq!(Principal::zero().bytes, [0u8; 32]);
    assert_eq!(Principal::zero().bytes, Pubkey::default().to_bytes());
}

#[test]
fn new_keeps_the_bytes() {
    let mut bytes = [0u8; 32];
    for i in 0..32 {
        bytes[i] = (i * 7) as u8;
    }
    assert_eq!(Principal::new(bytes).bytes, bytes);
}

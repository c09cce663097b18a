use anchor_lang::prelude::Pubkey;
use sanctos_messenger::address::{
    delegate_address, delegate_seeds, derive_address, thread_address, thread_seeds, Seeds,
};
use sanctos_messenger::Principal;

fn who(tag: u8) -> Principal {
    Principal::new([tag; 32])
}

fn program() -> Principal {
    let mut bytes = [0u8; 32];
    for i in 0..32 {
        bytes[i] = (3 * i + 1) as u8;
    }
    Principal::new(bytes)
}

#[test]
fn thread_seeds_are_the_tag_and_the_sorted_pair() {
    let seeds = thread_seeds(&who(9), &who(3));
    assert_eq!(seeds.tag, b"thread".to_vec());
    assert_eq!(seeds.first, who(3));
    assert_eq!(seeds.second, who(9));
    assert_eq!(seeds, thread_seeds(&who(3), &who(9)));
}

#[test]
fn delegate_seeds_keep_the_given_order() {
    let seeds = delegate_seeds(&who(9), &who(3));
    assert_eq!(seeds.tag, b"delegate".to_vec());
    assert_eq!(seeds.first, who(9));
    assert_eq!(seeds.second, who(3));
    assert_ne!(seeds, delegate_seeds(&who(3), &who(9)));
}

#[test]
fn thread_address_is_the_program_derived_address_of_its_seeds() {
    let id = program();
    let a = who(9);
    let b = who(3);
    let expected = Pubkey::find_program_address(
        &[b"thread", &b.bytes[..], &a.bytes[..]],
        &Pubkey::new_from_array(id.bytes),
    );
    let (address, bump) = thread_address(&id, &a, &b).unwrap();
    assert_eq!(address.bytes, expected.0.to_bytes());
    assert_eq!(bump, expected.1);
    assert_ne!(address, id);
    assert_ne!(address, a);
    assert_ne!(address, b);
}

#[test]
fn thread_address_does_not_depend_on_argument_order() {
    let id = program();
    for (x, y) in [(1u8, 2u8), (2, 1), (0, 255), (77, 77), (200, 13)] {
        assert_eq!(thread_address(&id, &who(x), &who(y)), thread_address(&id, &who(y), &who(x)));
    }
}

#[test]
fn thread_address_depends_on_the_pair_and_on_the_program() {
    let id = program();
    let ab = thread_address(&id, &who(1), &who(2)).unwrap();
    let ac = thread_address(&id, &who(1), &who(3)).unwrap();
    let other = thread_address(&who(200), &who(1), &who(2)).unwrap();
    assert_ne!(ab.0, ac.0);
    assert_ne!(ab.0, other.0);
}

#[test]
fn delegate_address_is_the_program_derived_address_of_its_seeds() {
    let id = program();
    let owner = who(9);
    let delegate = who(3);
    let expected = Pubkey::find_program_address(
        &[b"delegate", &owner.bytes[..], &delegate.bytes[..]],
        &Pubkey::new_from_array(id.bytes),
    );
    let (address, bump) = delegate_address(&id, &owner, &delegate).unwrap();
    assert_eq!(address.bytes, expected.0.to_bytes());
    assert_eq!(bump, expected.1);
}

#[test]
fn delegate_address_depends_on_who_authorizes_whom() {
    let id = program();
    let forth = delegate_address(&id, &who(9), &who(3)).unwrap();
    let back = delegate_address(&id, &who(3), &who(9)).unwrap();
    assert_ne!(forth.0, back.0);
}

#[test]
fn thread_and_delegate_addresses_of_one_pair_differ() {
    let id = program();
    let thread = thread_address(&id, &who(3), &who(9)).unwrap();
    let delegate = delegate_address(&id, &who(3), &who(9)).unwrap();
    assert_ne!(thread.0, delegate.0);
}

#[test]
fn derived_address_is_off_the_curve_and_reproduced_from_its_bump() {
    let id = program();
    let (address, bump) = thread_address(&id, &who(1), &who(2)).unwrap();
    let key = Pubkey::new_from_array(address.bytes);
    assert!(!key.is_on_curve());
    let again = Pubkey::create_program_address(
        &[b"thread", &[1u8; 32][..], &[2u8; 32][..], &[bump][..]],
        &Pubkey::new_from_array(id.bytes),
    )
    .unwrap();
    assert_eq!(again, key);
}

#[test]
fn derive_yields_nothing_for_a_tag_longer_than_a_seed_may_be() {
    let seeds = Seeds { tag: vec![1u8; 33], first: who(1), second: who(2) };
    assert_eq!(derive_address(&seeds, &program()), None);
    let seeds = Seeds { tag: vec![1u8; 32], first: who(1), second: who(2) };
    assert!(derive_address(&seeds, &program()).is_some());
}

#[test]
fn derive_accepts_an_empty_tag() {
    let id = program();
    let seeds = Seeds { tag: Vec::new(), first: who(1), second: who(2) };
    let expected = Pubkey::find_program_address(
        &[&[][..], &[1u8; 32][..], &[2u8; 32][..]],
        &Pubkey::new_from_array(id.bytes),
    );
    assert_eq!(derive_address(&seeds, &id).map(|(a, bump)| (a.bytes, bump)), Some((expected.0.to_bytes(), expected.1)));
}

#[test]
fn thread_address_of_a_known_pair() {
    let id = Principal::new([42u8; 32]);
    let expected: [u8; 32] = [
        164, 108, 224, 236, 118, 47, 7, 0, 221, 110, 189, 147, 172, 104, 0, 239, 211, 104, 215,
        229, 156, 99, 92, 229, 149, 74, 120, 148, 99, 92, 55, 24,
    ];
    assert_eq!(thread_address(&id, &who(11), &who(5)), Some((Principal::new(expected), 255)));
    assert_eq!(thread_address(&id, &who(5), &who(11)), Some((Principal::new(expected), 255)));
}

#[test]
fn delegate_address_of_a_known_pair() {
    let id = Principal::new([42u8; 32]);
    let expected: [u8; 32] = [
        58, 151, 56, 220, 56, 211, 128, 36, 78, 160, 184, 236, 136, 70, 205, 86, 251, 96, 184, 68,
        233, 183, 13, 130, 201, 29, 102, 10, 216, 27, 10, 115,
    ];
    assert_eq!(delegate_address(&id, &who(11), &who(23)), Some((Principal::new(expected), 255)));
}

use kitties::combine_dna;
use kitties::combine_dna_bytes;
use kitties::random_value;
use kitties::Error;
use kitties::Event;
use kitties::Kitty;
use kitties::Registry;

/// The byte-level selection formula on a few exact values.
#[test]
fn combine_dna_exact_values() {
    assert_eq!(combine_dna(0xAA, 0x55, 0xF0), 0xA5);
    assert_eq!(combine_dna(0xFF, 0x00, 0xF0), 0xF0);
    assert_eq!(combine_dna(0x12, 0x34, 0x00), 0x34);
    assert_eq!(combine_dna(0x12, 0x34, 0xFF), 0x12);
}

/// Exhaustively over all 256 x 256 parent byte pairs, for representative
/// selectors: the derived byte equals `(s & a) | (!s & b)`, and every bit
/// comes from the parent the matching selector bit picks.
#[test]
fn combine_dna_exhaustive() {
    let selectors: [u8; 6] = [0x00, 0xFF, 0xF0, 0x0F, 0xAA, 0x55];
    for &s in selectors.iter() {
        for a in 0..=255u8 {
            for b in 0..=255u8 {
                let c = combine_dna(a, b, s);
                assert_eq!(c, (s & a) | (!s & b));
                for i in 0..8 {
                    let expected = if (s >> i) & 1 == 1 { (a >> i) & 1 } else { (b >> i) & 1 };
                    assert_eq!((c >> i) & 1, expected);
                }
            }
        }
    }
}

/// All-ones parent A, all-zeros parent B: the child is exactly the selector.
#[test]
fn combine_payloads_all_ones_all_zeros() {
    let a = Kitty([0xFF; 16]);
    let b = Kitty([0x00; 16]);
    let selector = [0xF0u8; 16];
    let child = combine_dna_bytes(&a.0, &b.0, &selector);
    assert_eq!(child, [0xF0u8; 16]);
}

/// The derivation is a fixed function of `(seed, caller, extrinsic_index)`:
/// repeated runs agree, and a known input gives the known digest.
#[test]
fn derivation_deterministic() {
    let seed = [0u8; 32];
    let first = random_value(&seed, 0, 0);
    let second = random_value(&seed, 0, 0);
    assert_eq!(first, second);
    let expected: [u8; 16] = [
        0xe3, 0x8e, 0x29, 0x32, 0xba, 0x70, 0x8e, 0x92, 0x4f, 0xe0, 0xb6, 0xb8, 0x46, 0x0a, 0x2a,
        0x58,
    ];
    assert_eq!(first, expected);
    let other = random_value(&[7u8; 32], 7, 3);
    let expected_other: [u8; 16] = [
        0x8a, 0x70, 0xe8, 0x79, 0xbf, 0x45, 0xea, 0x5a, 0x4a, 0x70, 0x7e, 0xa9, 0x8a, 0x34, 0x1a,
        0xf0,
    ];
    assert_eq!(other, expected_other);
    assert_ne!(first, other);
}

/// A change in any one payload component changes the hash input.
#[test]
fn derivation_depends_on_each_input() {
    let seed = [0u8; 32];
    let base = random_value(&seed, 0, 0);
    assert_ne!(base, random_value(&[1u8; 32], 0, 0));
    assert_ne!(base, random_value(&seed, 1, 0));
    assert_ne!(base, random_value(&seed, 0, 1));
}

/// Creating in an empty registry issues id 0, advances the counter to 1,
/// records the caller as owner, and derives the payload from the inputs.
#[test]
fn create_first_kitty() {
    let mut r = Registry::new();
    let seed = [0u8; 32];
    let (id, event) = r.create(42, &seed, 0).unwrap();
    assert_eq!(id, 0);
    assert_eq!(r.kitties_count(), 1);
    assert_eq!(r.kitty_owner(0), Some(42));
    assert_eq!(event, Event::Created(42, 0));
    let expected: [u8; 16] = [
        0x0b, 0xe6, 0xc4, 0xd5, 0xfd, 0x7c, 0x17, 0xac, 0x4e, 0x3f, 0x80, 0xe9, 0x3d, 0x8d, 0x23,
        0x8b,
    ];
    assert_eq!(r.kitties(0).unwrap().0, expected);
    assert_eq!(r.kitties(0).unwrap().0, random_value(&seed, 42, 0));
}

/// Successful creations issue 0, 1, 2, ... in order; a failed call in
/// between issues nothing and skips nothing.
#[test]
fn creation_ids_are_ordinals() {
    let mut r = Registry::new();
    let seed = [9u8; 32];
    let (id0, _) = r.create(1, &seed, 0).unwrap();
    let (id1, _) = r.create(2, &seed, 1).unwrap();
    assert_eq!(r.breed(1, 0, 0, &seed, 2).unwrap_err(), Error::RequireDifferentParent);
    let (id2, _) = r.breed(1, 0, 1, &seed, 3).unwrap();
    let (id3, _) = r.create(3, &seed, 4).unwrap();
    assert_eq!((id0, id1, id2, id3), (0, 1, 2, 3));
    assert_eq!(r.kitties_count(), 4);
}

/// Transfer passes ownership when the caller owns the kitty, and is refused
/// with the exact error otherwise.
#[test]
fn transfer_owned_kitty() {
    let mut r = Registry::new();
    let seed = [0u8; 32];
    let (id, _) = r.create(1, &seed, 0).unwrap();
    let event = r.transfer(1, 2, id).unwrap();
    assert_eq!(event, Event::Transferred(1, 2, id));
    assert_eq!(r.kitty_owner(id), Some(2));
    assert_eq!(r.transfer(1, 3, id).unwrap_err(), Error::NotOwner);
    assert_eq!(r.kitty_owner(id), Some(2));
    assert_eq!(r.transfer(2, 3, 77).unwrap_err(), Error::InvalidKittyId);
    assert_eq!(r.kitties_count(), 1);
}

/// Breeding a kitty with itself is always refused and mutates nothing.
#[test]
fn self_breed_rejected() {
    let mut r = Registry::new();
    let seed = [5u8; 32];
    let (id, _) = r.create(9, &seed, 0).unwrap();
    assert_eq!(r.breed(9, id, id, &seed, 1).unwrap_err(), Error::RequireDifferentParent);
    assert_eq!(r.kitties_count(), 1);
    assert_eq!(r.kitty_owner(id), Some(9));
    assert!(r.kitties(1).is_none());
}

/// A breed request naming a kitty that does not exist is refused, whichever
/// parent is missing.
#[test]
fn unknown_parent_rejected() {
    let mut r = Registry::new();
    let seed = [5u8; 32];
    let (id, _) = r.create(9, &seed, 0).unwrap();
    assert_eq!(r.breed(9, 5, 6, &seed, 1).unwrap_err(), Error::InvalidKittyId);
    assert_eq!(r.breed(9, id, 6, &seed, 2).unwrap_err(), Error::InvalidKittyId);
    assert_eq!(r.breed(9, 6, id, &seed, 3).unwrap_err(), Error::InvalidKittyId);
    assert_eq!(r.kitties_count(), 1);
}

/// With the counter at the largest identifier, create and breed both fail
/// with the overflow error and leave the counter unchanged.
#[test]
fn overflow_boundary() {
    let mut r = Registry::with_count(u32::MAX);
    let seed = [0u8; 32];
    assert_eq!(r.create(1, &seed, 0).unwrap_err(), Error::KittiesCountOverflow);
    assert_eq!(r.kitties_count(), u32::MAX);

    let mut r2 = Registry::new();
    r2.insert_kitty(&1, 0, Kitty([0x11; 16]));
    r2.insert_kitty(&1, u32::MAX - 1, Kitty([0x22; 16]));
    assert_eq!(r2.kitties_count(), u32::MAX);
    assert_eq!(r2.breed(1, 0, u32::MAX - 1, &seed, 0).unwrap_err(), Error::KittiesCountOverflow);
    assert_eq!(r2.kitties_count(), u32::MAX);
}

/// A bred child's payload is the bitwise combination of its parents'
/// payloads under the selector derived for the call.
#[test]
fn breed_combines_parent_dna() {
    let mut r = Registry::new();
    let seed = [3u8; 32];
    r.insert_kitty(&7, 0, Kitty([0xFF; 16]));
    r.insert_kitty(&7, 1, Kitty([0x00; 16]));
    let (id, event) = r.breed(7, 0, 1, &seed, 5).unwrap();
    assert_eq!(id, 2);
    assert_eq!(event, Event::Created(7, 2));
    let selector = random_value(&seed, 7, 5);
    let child = r.kitties(id).unwrap();
    // All-ones and all-zeros parents: the child is exactly the selector.
    assert_eq!(child.0, selector);
    assert_eq!(r.kitty_owner(id), Some(7));
    assert_eq!(r.kitties_count(), 3);

    let mut r2 = Registry::new();
    r2.insert_kitty(&7, 0, Kitty([0xAA; 16]));
    r2.insert_kitty(&7, 1, Kitty([0x55; 16]));
    let (id2, _) = r2.breed(7, 0, 1, &seed, 5).unwrap();
    let child2 = r2.kitties(id2).unwrap();
    for i in 0..16 {
        assert_eq!(child2.0[i], (selector[i] & 0xAA) | (!selector[i] & 0x55));
    }
}

/// The registry getters report exactly what was recorded.
#[test]
fn getters_report_records() {
    let mut r = Registry::new();
    assert_eq!(r.kitties_count(), 0);
    assert!(r.kitties(0).is_none());
    assert!(r.kitty_owner(0).is_none());
    r.insert_kitty(&11, 0, Kitty([0xCD; 16]));
    assert_eq!(r.kitties(0).unwrap().0, [0xCD; 16]);
    assert_eq!(r.kitty_owner(0), Some(11));
    assert_eq!(r.kitties_count(), 1);
}

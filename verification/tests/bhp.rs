use bhp_crh::crh::{BHPCRH, CRHError};

use snarkvm_algorithms::hash_to_curve::hash_to_curve;
use snarkvm_curves::edwards_bls12::EdwardsAffine;
use snarkvm_curves::traits::{AffineCurve, Group, ProjectiveCurve};
use snarkvm_fields::Zero;

const NUM_WINDOWS: usize = 8;
const WINDOW_SIZE: usize = 32;

#[test]
fn test_bhp_sanity_check() {
    let crh = BHPCRH::setup("test_bowe_pedersen", NUM_WINDOWS, WINDOW_SIZE).unwrap();
    let input = vec![127u8; 32];

    let output = crh.hash_bytes(&input).unwrap();
    assert_eq!(
        &*output.to_string(),
        "2591648422993904809826711498838675948697848925001720514073745852367402669969"
    );
}

#[test]
fn test_determinism() {
    let crh1 = BHPCRH::setup("determinism_probe", NUM_WINDOWS, WINDOW_SIZE).unwrap();
    let crh2 = BHPCRH::setup("determinism_probe", NUM_WINDOWS, WINDOW_SIZE).unwrap();
    let bits: Vec<bool> = (0..100).map(|i| i % 3 == 0).collect();
    let first = crh1.hash(&bits).unwrap();
    let again = crh1.hash(&bits).unwrap();
    let other = crh2.hash(&bits).unwrap();
    assert_eq!(first, again);
    assert_eq!(first, other);
}

#[test]
fn test_domain_separation() {
    let crh1 = BHPCRH::setup("separation_one", NUM_WINDOWS, WINDOW_SIZE).unwrap();
    let crh2 = BHPCRH::setup("separation_two", NUM_WINDOWS, WINDOW_SIZE).unwrap();
    // the derived base points differ between the two domains
    let base1 = crh1.parameters()[0][0].to_x_coordinate();
    let base2 = crh2.parameters()[0][0].to_x_coordinate();
    assert_ne!(base1, base2);
    // and so do the hashes of one and the same input
    let bits: Vec<bool> = (0..50).map(|i| i % 2 == 0).collect();
    assert_ne!(crh1.hash(&bits).unwrap(), crh2.hash(&bits).unwrap());
}

#[test]
fn test_capacity_boundary() {
    let crh = BHPCRH::setup("capacity_probe", NUM_WINDOWS, WINDOW_SIZE).unwrap();
    let capacity = WINDOW_SIZE * NUM_WINDOWS;
    let full: Vec<bool> = vec![true; capacity];
    assert!(crh.hash(&full).is_ok());
    let over: Vec<bool> = vec![true; capacity + 1];
    assert_eq!(
        crh.hash(&over).unwrap_err(),
        CRHError::IncorrectInputLength(capacity + 1, WINDOW_SIZE, NUM_WINDOWS)
    );
    // the byte interface reports the offending bit count the same way
    let over_bytes: Vec<u8> = vec![0u8; capacity / 8 + 1];
    assert_eq!(
        crh.hash_bytes(&over_bytes).unwrap_err(),
        CRHError::IncorrectInputLength(capacity + 8, WINDOW_SIZE, NUM_WINDOWS)
    );
}

#[test]
fn test_padding_idempotence() {
    let crh = BHPCRH::setup("padding_probe", NUM_WINDOWS, WINDOW_SIZE).unwrap();
    let bits: Vec<bool> = (0..7).map(|i| i % 2 == 0).collect();
    let with_one: Vec<bool> = bits.iter().cloned().chain([false]).collect();
    let with_two: Vec<bool> = bits.iter().cloned().chain([false, false]).collect();
    let with_three: Vec<bool> = bits.iter().cloned().chain([false, false, false]).collect();
    let base = crh.hash(&bits).unwrap();
    // seven bits pad to nine: up to two appended zero bits change nothing
    assert_eq!(base, crh.hash(&with_one).unwrap());
    assert_eq!(base, crh.hash(&with_two).unwrap());
    // a third zero bit starts a new chunk, which contributes its own entry
    assert_ne!(base, crh.hash(&with_three).unwrap());
}

#[test]
fn test_chunk_encoding_entries() {
    // derive the first window's base point exactly as the library does
    let (generator, _, _) = hash_to_curve::<EdwardsAffine>("chunk_probe at 0");
    let g = generator.into_projective();
    let crh = BHPCRH::setup("chunk_probe", 2, 4).unwrap();
    for selector in 0..8usize {
        let c0 = selector & 1 != 0;
        let c1 = selector & 2 != 0;
        let c2 = selector & 4 != 0;
        // sign(c2) * (g + c0*g + c1*2g), straight from the outside crate
        let mut expected = g;
        if c0 {
            expected += &g;
        }
        if c1 {
            expected += &g.double();
        }
        if c2 {
            expected = -expected;
        }
        // a three-bit input exercises exactly one lookup entry
        let bits = vec![c0, c1, c2];
        let output = crh.hash(&bits).unwrap();
        assert_eq!(output, expected.into_affine().to_x_coordinate());
    }
}

#[test]
fn test_empty_input() {
    let crh = BHPCRH::setup("empty_probe", NUM_WINDOWS, WINDOW_SIZE).unwrap();
    // no chunks are selected, so the sum is the identity, whose affine
    // x-coordinate is zero
    let output = crh.hash(&[]).unwrap();
    assert!(output.is_zero());
}

#[test]
fn test_to_field_elements_is_empty() {
    let crh = BHPCRH::setup("export_probe", 2, 4).unwrap();
    assert!(crh.to_field_elements().is_empty());
}

#[test]
fn test_smallest_instance() {
    let crh = BHPCRH::setup("tiny_probe", 1, 1).unwrap();
    let (generator, _, _) = hash_to_curve::<EdwardsAffine>("tiny_probe at 0");
    let g = generator.into_projective();
    // one set bit pads to the chunk (1, 0, 0), which encodes to g + g
    let out = crh.hash(&[true]).unwrap();
    let expected = (g + &g).into_affine().to_x_coordinate();
    assert_eq!(out, expected);
    // the capacity of a one-point window is a single bit
    assert_eq!(
        crh.hash(&[true, true]).unwrap_err(),
        CRHError::IncorrectInputLength(2, 1, 1)
    );
}

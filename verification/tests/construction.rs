use bhp_crh::bits::{bytes_to_bits, chunk_index, padded_len};
use bhp_crh::bound::calculate_maximum_window_size;
use bhp_crh::crh::BHPCRH;
use bhp_crh::curve::Point;
use bhp_crh::generators::{derive_window_generator, lookup_table_for, window_points};

use rayon::iter::{IntoParallelIterator, IntoParallelRefIterator, ParallelIterator};

use snarkvm_algorithms::hash_to_curve::hash_to_curve;
use snarkvm_curves::edwards_bls12::EdwardsAffine;
use snarkvm_curves::traits::{AffineCurve, Group, ProjectiveCurve};

#[test]
fn test_maximum_window_size() {
    // 2 * 16^63 is the first value at or above (r - 1) / 2 for the 251-bit
    // scalar field modulus
    assert_eq!(calculate_maximum_window_size(), 63);
}

#[test]
fn test_padded_len() {
    assert_eq!(padded_len(0), 0);
    assert_eq!(padded_len(1), 3);
    assert_eq!(padded_len(2), 3);
    assert_eq!(padded_len(3), 3);
    assert_eq!(padded_len(7), 9);
    assert_eq!(padded_len(256), 258);
}

#[test]
fn test_chunk_index() {
    assert_eq!(chunk_index(false, false, false), 0);
    assert_eq!(chunk_index(true, false, false), 1);
    assert_eq!(chunk_index(false, true, false), 2);
    assert_eq!(chunk_index(true, true, false), 3);
    assert_eq!(chunk_index(false, false, true), 4);
    assert_eq!(chunk_index(true, true, true), 7);
}

#[test]
fn test_bytes_to_bits() {
    // 0xB4 = 0b1011_0100, least significant bit first
    let bits = bytes_to_bits(&[0xB4]);
    assert_eq!(bits, vec![false, false, true, false, true, true, false, true]);
    assert_eq!(bytes_to_bits(&[]).len(), 0);
    assert_eq!(bytes_to_bits(&[0x01, 0x80]).len(), 16);
}

#[test]
fn test_window_points_are_sixteen_fold_multiples() {
    let (generator, _, _) = hash_to_curve::<EdwardsAffine>("expansion_probe at 0");
    let g = generator.into_projective();
    let base = derive_window_generator("expansion_probe", 0).unwrap();
    let points = window_points(&base, 4);
    let mut expected = g;
    for point in &points {
        assert_eq!(point.to_x_coordinate(), expected.into_affine().to_x_coordinate());
        for _ in 0..4 {
            expected.double_in_place();
        }
    }
}

#[test]
fn test_parallel_sequential_equivalence() {
    let domain = "parallel_probe";
    let num_windows: usize = 8;
    let window_size: usize = 16;
    let crh = BHPCRH::setup(domain, num_windows, window_size).unwrap();

    let sequential: Vec<Vec<Point>> = (0..num_windows)
        .map(|i| window_points(&derive_window_generator(domain, i as u64).unwrap(), window_size))
        .collect();
    let parallel: Vec<Vec<Point>> = (0..num_windows)
        .into_par_iter()
        .map(|i| window_points(&derive_window_generator(domain, i as u64).unwrap(), window_size))
        .collect();

    // the assembled windows agree with each other and with the instance,
    // index by index, point by point
    let bases = crh.parameters();
    assert_eq!(sequential.len(), parallel.len());
    assert_eq!(sequential.len(), bases.len());
    for i in 0..num_windows {
        for j in 0..window_size {
            let x = sequential[i][j].to_x_coordinate();
            assert_eq!(x, parallel[i][j].to_x_coordinate());
            assert_eq!(x, bases[i][j].to_x_coordinate());
        }
    }

    // the lookup tables built per point agree between the two schedules too
    let seq_tables: Vec<Vec<Point>> =
        sequential[0].iter().map(|g| lookup_table_for(g)).collect();
    let par_tables: Vec<Vec<Point>> =
        sequential[0].par_iter().map(|g| lookup_table_for(g)).collect();
    for j in 0..window_size {
        for k in 0..8 {
            assert_eq!(
                seq_tables[j][k].to_x_coordinate(),
                par_tables[j][k].to_x_coordinate()
            );
        }
    }
}

use iq_features::pairing::pairs;
use iq_features::pairing::quadruples;

#[test]
fn pair_sequence_has_floor_n_half_elements() {
    for n in 0..9i16 {
        let samples: Vec<i16> = (0..n).collect();
        let p = pairs(&samples);
        assert_eq!(p.len(), samples.len() / 2);
    }
}

#[test]
fn pairs_are_non_overlapping() {
    let samples: Vec<i16> = vec![1, 2, 3, 4, 5];
    let p = pairs(&samples);
    assert_eq!(p, vec![(1, 2), (3, 4)]);
}

#[test]
fn pairs_of_empty_source_are_empty() {
    let samples: Vec<i16> = Vec::new();
    assert!(pairs(&samples).is_empty());
    assert!(quadruples(&samples).is_empty());
}

#[test]
fn quadruple_sequence_count() {
    // floor((n - 2) / 2) quadruples for n >= 2, none below that.
    let expected: [usize; 9] = [0, 0, 0, 0, 1, 1, 2, 2, 3];
    for n in 0..9i16 {
        let samples: Vec<i16> = (0..n).collect();
        let q = quadruples(&samples);
        assert_eq!(q.len(), expected[n as usize]);
    }
}

#[test]
fn quadruples_overlap_by_one_pair() {
    let samples: Vec<i16> = vec![1, 2, 3, 4, 5, 6];
    let q = quadruples(&samples);
    assert_eq!(q, vec![(1, 2, 3, 4), (3, 4, 5, 6)]);
}

#[test]
fn quadruple_second_pair_is_not_degenerate() {
    // The second pair is (samples[2k+2], samples[2k+3]): Q2 comes from
    // its own position, never a copy of I2.
    let samples: Vec<i16> = vec![10, 20, 30, 40];
    let q = quadruples(&samples);
    assert_eq!(q, vec![(10, 20, 30, 40)]);
}

use iq_features::spectrum::lift_mono;
use iq_features::spectrum::truncate_to_windows;
use iq_features::spectrum::windows;

fn log_power(re: f64, im: f64, sample_rate: usize, window_size: usize) -> f64 {
    let power = re * re + im * im;
    (power / ((sample_rate * window_size) as f64)).log10()
}

#[test]
fn lift_mono_keeps_length_and_zeroes_imaginary() {
    let samples: Vec<i16> = vec![5, -3, 0, 32767, -32768];
    let lifted = lift_mono(&samples);
    assert_eq!(lifted.len(), samples.len());
    for (k, &(re, im)) in lifted.iter().enumerate() {
        assert_eq!(re, samples[k]);
        assert_eq!(im, 0);
    }
}

#[test]
fn output_length_is_whole_windows_only() {
    for n in 0..11i16 {
        let cs = lift_mono(&(0..n).collect());
        for w in 1..6usize {
            let ws = windows(&cs, w);
            let flat = truncate_to_windows(&cs, w);
            assert_eq!(ws.len(), cs.len() / w);
            assert_eq!(flat.len(), (cs.len() / w) * w);
            for win in &ws {
                assert_eq!(win.len(), w);
            }
        }
    }
}

#[test]
fn input_shorter_than_one_window_gives_nothing() {
    let cs = lift_mono(&vec![1, 2, 3]);
    assert!(windows(&cs, 4).is_empty());
    assert!(truncate_to_windows(&cs, 4).is_empty());
}

#[test]
fn windows_preserve_order_and_contents() {
    let cs = lift_mono(&vec![1, 2, 3, 4, 5, 6, 7]);
    let ws = windows(&cs, 3);
    assert_eq!(ws, vec![vec![(1, 0), (2, 0), (3, 0)], vec![(4, 0), (5, 0), (6, 0)]]);
    assert_eq!(truncate_to_windows(&cs, 3), vec![(1, 0), (2, 0), (3, 0), (4, 0), (5, 0), (6, 0)]);
}

#[test]
fn all_zero_window_yields_negative_infinity_throughout() {
    // A silent window has |z|^2 == 0 in every bin, and log10(0) is the
    // -inf sentinel, once per bin.
    let w = 4usize;
    let cs = lift_mono(&vec![0, 0, 0, 0]);
    let ws = windows(&cs, w);
    assert_eq!(ws.len(), 1);
    let reduced: Vec<f64> = ws[0].iter().map(|&(re, im)| log_power(re as f64, im as f64, 62500, w)).collect();
    assert_eq!(reduced.len(), w);
    for v in reduced {
        assert_eq!(v, f64::NEG_INFINITY);
    }
}

#[test]
fn round_trip_mono_lift_with_identity_transform() {
    // Lifting [5, -3, 0] and windowing with w == 3 hands an identity
    // transform exactly the three unmodified complex values, so the
    // log-power reduction sees log10(|z|^2 / (rate * 3)) of each.
    let rate = 4usize;
    let w = 3usize;
    let samples: Vec<i16> = vec![5, -3, 0];
    let ws = windows(&lift_mono(&samples), w);
    assert_eq!(ws.len(), 1);
    let reduced: Vec<f64> = ws[0].iter().map(|&(re, im)| log_power(re as f64, im as f64, rate, w)).collect();
    let expected: Vec<f64> = samples.iter().map(|&s| {
        let z = (s as f64, 0.0);
        ((z.0 * z.0 + z.1 * z.1) / ((rate * w) as f64)).log10()
    }).collect();
    assert_eq!(reduced, expected);
    assert_eq!(reduced[0], (25.0f64 / 12.0).log10());
    assert_eq!(reduced[2], f64::NEG_INFINITY);
}

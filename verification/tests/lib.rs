use iq_features::iq::AmplitudeIterator;

#[test]
fn lib_it_works() {
    let result = iq_features::add(2, 2);
    assert_eq!(result, 4);
}

#[test]
fn navtex_it_works() {
    assert_eq!(2 + 2, 4);
}

#[test]
fn navtex_amplitude_iter_test() {
    let samples: Vec<i16> = vec![3, 4, -3, -4, 0, 0, 7];
    let mut amplitudes = AmplitudeIterator::new(samples);
    while let Some(_) = amplitudes.next() {
        /*
            Intentionally left empty
            We just want to see if it panics or not
        */
    }
}

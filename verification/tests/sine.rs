use beep::convert::CODE_ONE;
use beep::oscillator::DoNotMoveThis;

const RATE: u32 = 1024;

/// One period of the 440 Hz sine as canonical fixed-point codes, one entry
/// per phase value, as the program builds it before streaming.
fn sine_codes(rate: u32) -> Vec<i32> {
    (0..rate)
        .map(|p| {
            let v = (p as f32 * 440.0 * 2.0 * std::f32::consts::PI / rate as f32).sin();
            (v * CODE_ONE as f32) as i32
        })
        .collect()
}

#[test]
fn sine_samples_stay_in_canonical_range() {
    for p in 0..RATE {
        let v = (p as f32 * 440.0 * 2.0 * std::f32::consts::PI / RATE as f32).sin();
        assert!((-1.0..=1.0).contains(&v), "sample out of range at phase {p}");
    }
    for code in sine_codes(RATE) {
        assert!(-CODE_ONE <= code && code <= CODE_ONE);
    }
}

#[test]
fn filled_buffers_stay_in_canonical_range() {
    let wave = sine_codes(RATE);
    let mut osc = DoNotMoveThis::new(RATE, 2);
    let mut buf: Vec<i32> = vec![0; 4096];
    osc.write_data(&mut buf, &wave);
    for s in buf {
        assert!(-CODE_ONE <= s && s <= CODE_ONE);
    }
}

#[test]
fn sine_starts_at_amplitude_of_first_step() {
    let wave = sine_codes(RATE);
    let mut osc = DoNotMoveThis::new(RATE, 1);
    let mut buf: Vec<i32> = vec![0; 3];
    osc.write_data(&mut buf, &wave);
    assert_eq!(buf, vec![wave[1], wave[2], wave[3]]);
}

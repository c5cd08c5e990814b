use signal_plots::generator::{
    angle_axis, cosine_factors, generate_plot_data, signal_grid, sine_factors, time_axis,
    unit_from,
};

#[test]
fn test_time_axis_values() {
    // 100 strictly increasing samples from 0 to 600, evenly spaced:
    // time[j] = 0 + j * 600 / 99, evaluated in double arithmetic.
    let bits = time_axis();
    assert_eq!(bits.len(), 100);
    let axis: Vec<f64> = bits.iter().map(|b| f64::from_bits(*b)).collect();
    assert_eq!(axis[0], 0.0);
    assert_eq!(axis[99], 600.0);
    for j in 0..100 {
        let expected = 0.0 + (j as f64) * 600.0 / 99.0;
        assert_eq!(axis[j], expected, "time sample {} is off", j);
        if j > 0 {
            assert!(axis[j - 1] < axis[j], "time axis must strictly increase");
        }
    }
}

#[test]
fn test_angle_axis_values() {
    // 50 strictly increasing samples from -180 to 180, evenly spaced:
    // angle[i] = -180 + i * 360 / 49, evaluated in double arithmetic.
    let bits = angle_axis();
    assert_eq!(bits.len(), 50);
    let axis: Vec<f64> = bits.iter().map(|b| f64::from_bits(*b)).collect();
    assert_eq!(axis[0], -180.0);
    assert_eq!(axis[49], 180.0);
    for i in 0..50 {
        let expected = -180.0 + (i as f64) * 360.0 / 49.0;
        assert_eq!(axis[i], expected, "angle sample {} is off", i);
        if i > 0 {
            assert!(axis[i - 1] < axis[i], "angle axis must strictly increase");
        }
    }
}

#[test]
fn test_grid_dimensions_and_bounds() {
    // The grid is 50 x 100 and every cell is finite and lies in
    // [60, 85): 70 plus at most +/-10 from the sine/cosine product plus
    // a noise term in [0, 5).
    let (times, angles, grid) = generate_plot_data();
    assert_eq!(times.len(), 100);
    assert_eq!(angles.len(), 50);
    assert_eq!(grid.len(), 50);
    for row in &grid {
        assert_eq!(row.len(), 100);
        for cell in row {
            let v = f64::from_bits(*cell);
            assert!(v.is_finite(), "every sample must be finite");
            assert!((60.0..85.0).contains(&v), "sample {} out of bounds", v);
        }
    }
}

#[test]
fn test_grid_formula_with_stub_draws() {
    // With the random draws held at zero, every cell must equal the
    // deterministic part of the formula exactly:
    // 70 + 10 * sin(radians(angle) / 90) * cos(t / 300).
    let times = time_axis();
    let angles = angle_axis();
    let sines = sine_factors(&angles);
    let cosines = cosine_factors(&times);
    let zero = 0.0f64.to_bits();
    let draws = vec![vec![zero; times.len()]; angles.len()];
    let grid = signal_grid(&sines, &cosines, &draws);
    assert_eq!(grid.len(), 50);
    for (i, row) in grid.iter().enumerate() {
        assert_eq!(row.len(), 100);
        let angle = f64::from_bits(angles[i]);
        for (j, cell) in row.iter().enumerate() {
            let t = f64::from_bits(times[j]);
            let expected = 70.0 + 10.0 * (angle.to_radians() / 90.0).sin() * (t / 300.0).cos()
                + 5.0 * 0.0;
            assert_eq!(
                f64::from_bits(*cell),
                expected,
                "cell ({}, {}) must equal the deterministic formula",
                i,
                j
            );
        }
    }
}

#[test]
fn test_grid_with_constant_draws() {
    // With every draw held at one half, every cell carries the noise
    // term 5 * 0.5 exactly.
    let times = time_axis();
    let angles = angle_axis();
    let sines = sine_factors(&angles);
    let cosines = cosine_factors(&times);
    let half = 0.5f64.to_bits();
    let draws = vec![vec![half; times.len()]; angles.len()];
    let grid = signal_grid(&sines, &cosines, &draws);
    for (i, row) in grid.iter().enumerate() {
        let angle = f64::from_bits(angles[i]);
        for (j, cell) in row.iter().enumerate() {
            let t = f64::from_bits(times[j]);
            let expected = 70.0 + 10.0 * (angle.to_radians() / 90.0).sin() * (t / 300.0).cos()
                + 5.0 * 0.5;
            assert_eq!(f64::from_bits(*cell), expected);
        }
    }
}

#[test]
fn test_unit_mapping() {
    // The unit-interval mapping takes a word's top 53 bits over 2^53;
    // this is the standard uniform mapping of a word to [0, 1).
    let samples: [u64; 5] = [0, 1 << 11, u64::MAX, 0x0123_4567_89ab_cdef, 1 << 63];
    for x in samples {
        let expected = ((x >> 11) as f64) / 9007199254740992.0;
        let got = f64::from_bits(unit_from(x));
        assert_eq!(got, expected);
        assert!((0.0..1.0).contains(&got));
    }
}

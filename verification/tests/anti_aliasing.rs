use raytracer::anti_aliasing::{uniform_grid_cells, SuperSampling};

#[test]
fn test_grid_sampling_single() {
    let cells = uniform_grid_cells(1);
    assert_eq!(
        cells.len(),
        1,
        "invalid sample count: expected 1 got {}",
        cells.len()
    );
    let step = 1.0 / 1 as f64;
    let sample = (cells[0].0 as f64 * step, cells[0].1 as f64 * step);
    assert_eq!(
        sample,
        (0.0, 0.0),
        "invalid sample: expected (0.0, 0.0) got {:?}",
        sample
    );
}

#[test]
fn test_grid_sampling_multiple() {
    let cells = uniform_grid_cells(2);
    assert_eq!(
        cells.len(),
        4,
        "invalid sample count: expected 4 got {}",
        cells.len()
    );
    let step = 1.0 / 2 as f64;
    let samples: Vec<(f64, f64)> = cells
        .iter()
        .map(|c| (c.0 as f64 * step, c.1 as f64 * step))
        .collect();
    assert_eq!(
        samples[0],
        (0.0, 0.0),
        "invalid samples: expected sample 0 to be (0.0, 0.0) got {:?}",
        samples[0]
    );
    assert_eq!(
        samples[1],
        (0.0, 0.5),
        "invalid samples: expected sample 1 to be (0.0, 0.5) got {:?}",
        samples[1]
    );
    assert_eq!(
        samples[2],
        (0.5, 0.0),
        "invalid samples: expected sample 2 to be (0.5, 0.0) got {:?}",
        samples[2]
    );
    assert_eq!(
        samples[3],
        (0.5, 0.5),
        "invalid samples: expected sample 3 to be (0.5, 0.5) got {:?}",
        samples[3]
    );
}

#[test]
fn test_ssaa_uniform_from_str() {
    let valid_uniform = SuperSampling::from_str("uniform:2");
    let invalid_uniform = SuperSampling::from_str("uniform");
    let invalid_uniform_arg = SuperSampling::from_str("uniform:invalid");

    assert!(
        valid_uniform.is_ok(),
        "expected from_str to return ok got {:?}",
        valid_uniform.err().unwrap()
    );
    let valid_samples_len = valid_uniform.unwrap().sample_count();

    assert_eq!(
        valid_samples_len,
        4,
        "expected resolution 2 got {}",
        f64::sqrt(valid_samples_len as f64)
    );

    assert!(
        invalid_uniform.is_err()
            && invalid_uniform.err().unwrap().error
                == "no arguments supplied, need resolution for uniform",
        "expected no args error from invalid uniform"
    );

    assert!(
        invalid_uniform_arg.is_err()
            && invalid_uniform_arg.err().unwrap().error == "resolution has to be an integer",
        "expected wrong datatype error from invalid uniform"
    );
}

#[test]
fn test_ssaa_jitter_from_str() {
    let valid_jitter = SuperSampling::from_str("jitter:2");
    let invalid_jitter = SuperSampling::from_str("jitter");
    let invalid_uniform_arg = SuperSampling::from_str("jitter:invalid");

    assert!(
        valid_jitter.is_ok(),
        "expected from_str to return ok got {:?}",
        valid_jitter.err().unwrap()
    );
    let valid_samples_len = valid_jitter.unwrap().sample_count();

    assert_eq!(
        valid_samples_len,
        4,
        "expected resolution 2 got {}",
        f64::sqrt(valid_samples_len as f64)
    );

    assert!(
        invalid_jitter.is_err()
            && invalid_jitter.err().unwrap().error
                == "no arguments supplied, need resolution for jitter",
        "expected no args error from invalid jitter"
    );

    assert!(
        invalid_uniform_arg.is_err()
            && invalid_uniform_arg.err().unwrap().error == "resolution has to be an integer",
        "expected wrong datatype error from invalid jitter"
    );
}

#[test]
fn test_ssaa_invalid_method_from_str() {
    let invalid_method = SuperSampling::from_str("invalid");

    assert!(
        invalid_method.is_err() && invalid_method.err().unwrap().error == "unknown method",
        "expected unknown method error"
    )
}

#[test]
fn test_ssaa_from_str_variants() {
    assert!(matches!(
        SuperSampling::from_str("uniform:2"),
        Ok(SuperSampling::Uniform(2))
    ));
    assert!(matches!(
        SuperSampling::from_str("jitter:4"),
        Ok(SuperSampling::Jitter(4))
    ));
    assert!(matches!(
        SuperSampling::from_str("uniform:3:9"),
        Ok(SuperSampling::Uniform(3))
    ));
    assert!(matches!(
        SuperSampling::from_str("uniform:+2"),
        Ok(SuperSampling::Uniform(2))
    ));
}

#[test]
fn test_ssaa_from_str_empty_resolution() {
    let r = SuperSampling::from_str("uniform:");
    assert!(r.is_err() && r.err().unwrap().error == "resolution has to be an integer");
}

#[test]
fn test_ssaa_sample_cells_matches_grid() {
    let s = SuperSampling::Jitter(3);
    assert_eq!(s.resolution(), 3);
    assert_eq!(s.sample_count(), 9);
    let cells = s.sample_cells();
    assert_eq!(cells, uniform_grid_cells(3));
    for (k, cell) in cells.iter().enumerate() {
        assert_eq!(*cell, (k / 3, k % 3));
    }
}

#[test]
fn test_grid_sampling_zero_resolution() {
    assert_eq!(uniform_grid_cells(0).len(), 0);
}

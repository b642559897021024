use julia_explorer::orbit;

fn square_plus(z: (f32, f32), c: (f32, f32)) -> (f32, f32) {
    (z.0 * z.0 - z.1 * z.1 + c.0, 2.0 * z.0 * z.1 + c.1)
}

#[test]
fn orbit_of_sample_start_with_power_two() {
    let start = (-0.61f32, -0.1f32);
    let picked = (-1.0f32, 0.0f32);
    let t = 0.0f32;
    let c = (t * picked.0 + (1.0 - t) * start.0, t * picked.1 + (1.0 - t) * start.1);
    let path = orbit(start, 3, |z: (f32, f32)| square_plus(z, c));
    let z1 = square_plus(start, start);
    let z2 = square_plus(z1, start);
    let z3 = square_plus(z2, start);
    assert_eq!(path, vec![z1, z2, z3]);
}

#[test]
fn orbit_with_no_iterations_is_empty() {
    let path = orbit((1.0f32, 2.0f32), 0, |z: (f32, f32)| z);
    assert!(path.is_empty());
}

#[test]
fn orbit_does_not_stop_on_divergence() {
    let path = orbit((2.0f32, 0.0f32), 50, |z: (f32, f32)| square_plus(z, (2.0, 0.0)));
    assert_eq!(path.len(), 50);
    assert!(path[3].0 > 1000.0);
    assert!(path[49].0.is_infinite() || path[49].0.is_nan());
}

#[test]
fn orbit_counts_steps_exactly() {
    let path = orbit(0u64, 5, |n: u64| n + 1);
    assert_eq!(path, vec![1, 2, 3, 4, 5]);
}

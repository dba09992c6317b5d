use missile_sim::Accumulator;
use nalgebra::Vector3;

fn sum(v: &[Vector3<f64>]) -> Vector3<f64> {
    v.iter().fold(Vector3::zeros(), |s, x| s + x)
}

#[test]
fn new_accumulator_is_clear() {
    let acc: Accumulator<Vector3<f64>> = Accumulator::new();
    assert!(acc.is_clear());
}

#[test]
fn contributions_come_out_in_order() {
    let mut acc = Accumulator::new();
    acc.add_force(Vector3::new(24000.0, 0.0, 0.0));
    acc.add(Vector3::new(-1.0, 2.0, 3.0), Vector3::new(0.0, 4.0, -5.0));
    acc.add_moment(Vector3::new(0.5, 0.0, 0.0));
    assert!(!acc.is_clear());
    let (forces, moments) = acc.take();
    assert_eq!(forces, vec![Vector3::new(24000.0, 0.0, 0.0), Vector3::new(-1.0, 2.0, 3.0)]);
    assert_eq!(moments, vec![Vector3::new(0.0, 4.0, -5.0), Vector3::new(0.5, 0.0, 0.0)]);
    assert_eq!(sum(&forces), Vector3::new(23999.0, 2.0, 3.0));
}

#[test]
fn take_leaves_zero_sums_whatever_was_held() {
    let mut acc = Accumulator::new();
    for i in 0..10 {
        let k = i as f64;
        acc.add(Vector3::new(k, -k, 2.0 * k), Vector3::new(1.0, k, 0.0));
    }
    let (forces, moments) = acc.take();
    assert_eq!(forces.len(), 10);
    assert_eq!(moments.len(), 10);
    assert!(acc.is_clear());
    let (forces, moments) = acc.take();
    assert!(forces.is_empty() && moments.is_empty());
    assert_eq!(sum(&forces), Vector3::zeros());
    assert_eq!(sum(&moments), Vector3::zeros());
}

#[test]
fn take_on_empty_accumulator() {
    let mut acc: Accumulator<u32> = Accumulator::new();
    let (forces, moments) = acc.take();
    assert!(forces.is_empty());
    assert!(moments.is_empty());
    assert!(acc.is_clear());
}

#[test]
fn invalid_contribution_is_skipped() {
    // zero speed: the normalised relative wind is NaN in every component
    let wind = Vector3::new(0.0f64, 0.0, 0.0).normalize();
    let force = wind * 3.0;
    let mut acc = Accumulator::new();
    acc.add_force(Vector3::new(1.0, 0.0, 0.0));
    acc.add_if_valid(force.x.is_finite(), force, force);
    let (forces, moments) = acc.take();
    assert_eq!(forces, vec![Vector3::new(1.0, 0.0, 0.0)]);
    assert!(moments.is_empty());
    assert!(sum(&forces).iter().all(|c| c.is_finite()));
}

#[test]
fn valid_contribution_is_added() {
    let mut acc = Accumulator::new();
    acc.add_if_valid(true, Vector3::new(-2.0, 0.0, 0.0), Vector3::new(0.0, 1.0, 1.0));
    let (forces, moments) = acc.take();
    assert_eq!(forces, vec![Vector3::new(-2.0, 0.0, 0.0)]);
    assert_eq!(moments, vec![Vector3::new(0.0, 1.0, 1.0)]);
}

use raytracer::sphere::{select_root, Root};

#[test]
fn no_real_roots_is_a_miss() {
    for near in [false, true] {
        for far in [false, true] {
            assert_eq!(select_root(false, near, far), None);
        }
    }
}

#[test]
fn near_root_is_taken_first() {
    assert_eq!(select_root(true, true, true), Some(Root::Near));
    assert_eq!(select_root(true, true, false), Some(Root::Near));
}

#[test]
fn far_root_is_taken_when_near_is_out_of_bounds() {
    assert_eq!(select_root(true, false, true), Some(Root::Far));
}

#[test]
fn both_roots_out_of_bounds_is_a_miss() {
    assert_eq!(select_root(true, false, false), None);
}

#[test]
fn ray_aimed_at_the_centre_hits_the_near_side() {
    // Origin (0, 0, 0), direction (0, 0, -1), centre (0, 0, -3), radius 1:
    // the roots are 2 and 4, and the hit is at distance - radius = 2.
    let (t_min, t_max) = (0.001_f64, f64::INFINITY);
    let (a, half_b, c) = (1.0_f64, -3.0_f64, 9.0_f64 - 1.0);
    let discriminant = half_b * half_b - a * c;
    let near = (-half_b - discriminant.sqrt()) / a;
    let far = (-half_b + discriminant.sqrt()) / a;
    let within = |t: f64| !(t < t_min || t_max < t);
    let root = select_root(!(discriminant < 0.0), within(near), within(far));
    assert_eq!(root, Some(Root::Near));
    assert_eq!(near, 3.0 - 1.0);
    assert_eq!(far, 3.0 + 1.0);
}

#[test]
fn ray_pointing_away_misses() {
    // The same sphere seen from the other side of the origin: both roots
    // are negative and so below the lower bound.
    let (t_min, t_max) = (0.001_f64, f64::INFINITY);
    let within = |t: f64| !(t < t_min || t_max < t);
    assert_eq!(select_root(true, within(-4.0), within(-2.0)), None);
}

#[test]
fn ray_starting_inside_hits_the_far_side() {
    // Origin at the centre of a unit sphere: roots -1 and 1.
    let (t_min, t_max) = (0.001_f64, f64::INFINITY);
    let within = |t: f64| !(t < t_min || t_max < t);
    assert_eq!(select_root(true, within(-1.0), within(1.0)), Some(Root::Far));
}

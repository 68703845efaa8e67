use pi_collision::velocity;
use pi_collision::Collisions;
use pi_collision::PairCoords;

/// Drives the verified core the way the numeric front end does: the
/// elastic-collision arithmetic runs here, every velocity crosses into the
/// library as its binary64 bit pattern, and the library decides the wall
/// bounces and the termination.
fn calculate(mass_big: f64) -> Collisions {
    assert!(mass_big > 0.0);
    let mut c = Collisions::new(mass_big.to_bits());
    let mut v_big: f64 = 1.0;
    let mut v_small: f64 = 0.0;
    let mass_small: f64 = 1.0;
    let mass_sum = mass_big + mass_small;
    loop {
        let offset = 2.0 * ((mass_small * v_small + mass_big * v_big) / mass_sum);
        v_big = offset - v_big;
        v_small = offset - v_small;
        let (done, v_small_next) = c.record_step(v_big.to_bits(), v_small.to_bits());
        if done {
            break;
        }
        v_small = f64::from_bits(v_small_next);
    }
    c
}

/// Maps each pair's velocities to drawing-surface coordinate text, the way
/// the rendering front end does.
fn coords_for(c: &Collisions) -> Vec<PairCoords> {
    let mass_big = f64::from_bits(c.mass_bits());
    let radius = mass_big.sqrt();
    let sqrt_m_b = mass_big.sqrt();
    let mut out = Vec::new();
    for i in 0..c.num_pairs() {
        let p = c.pair_at(i);
        let x = f64::from_bits(p.v_small_after_box_collision) / radius;
        let y = (f64::from_bits(p.v_big_after_box_collision) * sqrt_m_b) / radius;
        let x_box = format!("{}", 700.0 + x * 500.0);
        let y_text = format!("{}", 700.0 + (-y) * 500.0);
        let x_wall = p
            .v_small_after_wall_collision
            .map(|w| format!("{}", 700.0 + (f64::from_bits(w) / radius) * 500.0));
        out.push(PairCoords { x_box, y: y_text, x_wall });
    }
    out
}

#[test]
fn test_new_sequence_is_empty_and_running() {
    let c = Collisions::new(2.5f64.to_bits());
    assert_eq!(c.num_pairs(), 0);
    assert!(!c.is_done());
    assert_eq!(c.mass_bits(), 2.5f64.to_bits());
}

#[test]
fn test_record_step_continue_branch() {
    let mut c = Collisions::new(1.0f64.to_bits());
    let (done, next) = c.record_step(0.0f64.to_bits(), 1.0f64.to_bits());
    assert!(!done);
    assert!(!c.is_done());
    assert_eq!(next, (-1.0f64).to_bits());
    let p = c.pair_at(0);
    assert_eq!(p.v_big_after_box_collision, 0.0f64.to_bits());
    assert_eq!(p.v_small_after_box_collision, 1.0f64.to_bits());
    assert_eq!(p.v_small_after_wall_collision, Some((-1.0f64).to_bits()));
}

#[test]
fn test_record_step_end_after_box_collision() {
    let mut c = Collisions::new(1.0f64.to_bits());
    let (done, next) = c.record_step((-1.0f64).to_bits(), 0.0f64.to_bits());
    assert!(done);
    assert!(c.is_done());
    assert_eq!(next, 0.0f64.to_bits());
    let p = c.pair_at(0);
    assert_eq!(p.v_small_after_wall_collision, None);
    assert_eq!(c.count(), 1);
}

#[test]
fn test_record_step_end_after_wall_collision() {
    let mut c = Collisions::new(4.0f64.to_bits());
    // After reflection the small box moves rightward at -1, slower away
    // than the big box at -2: it never catches up, so the step ends with
    // its wall bounce recorded.
    let (done, _) = c.record_step((-2.0f64).to_bits(), 1.0f64.to_bits());
    assert!(done);
    let p = c.pair_at(0);
    assert_eq!(p.v_small_after_wall_collision, Some((-1.0f64).to_bits()));
    assert_eq!(c.count(), 2);
}

#[test]
fn test_mass_one_boundary_sequence() {
    // The smallest scenario is fully deterministic: two pairs, count 3.
    let c = calculate(1.0);
    assert!(c.is_done());
    assert_eq!(c.num_pairs(), 2);

    let p0 = c.pair_at(0);
    assert_eq!(p0.v_big_after_box_collision, 0.0f64.to_bits());
    assert_eq!(p0.v_small_after_box_collision, 1.0f64.to_bits());
    assert_eq!(p0.v_small_after_wall_collision, Some((-1.0f64).to_bits()));

    let p1 = c.pair_at(1);
    assert_eq!(p1.v_big_after_box_collision, (-1.0f64).to_bits());
    assert_eq!(p1.v_small_after_box_collision, 0.0f64.to_bits());
    assert_eq!(p1.v_small_after_wall_collision, None);

    assert_eq!(c.count(), 3);
}

#[test]
fn test_pi_digit_counts_are_monotone() {
    // Masses of the form 100^n count out the digits of pi.
    let c1 = calculate(1.0).count();
    let c100 = calculate(100.0).count();
    let c10000 = calculate(10000.0).count();
    assert_eq!(c1, 3);
    assert_eq!(c100, 31);
    assert_eq!(c10000, 314);
    assert!(c1 <= c100);
    assert!(c100 <= c10000);
}

#[test]
fn test_count_matches_pair_formula() {
    for mass in [1.0, 2.0, 5.0, 12.34, 100.0, 777.0] {
        let c = calculate(mass);
        let n = c.num_pairs();
        assert!(n >= 1);
        let last = c.pair_at(n - 1);
        let last_events = if last.v_small_after_wall_collision.is_some() { 2 } else { 1 };
        assert_eq!(c.count(), (n as u64 - 1) * 2 + last_events);
        assert_eq!(last.num_collisions(), last_events);
    }
}

#[test]
fn test_all_pairs_but_last_have_wall_collision() {
    for mass in [1.0, 3.0, 42.0, 100.0, 9999.5] {
        let c = calculate(mass);
        let n = c.num_pairs();
        for i in 0..n - 1 {
            assert!(c.pair_at(i).v_small_after_wall_collision.is_some());
        }
        let last = c.pair_at(n - 1);
        // The wall field is absent exactly when the small box stopped
        // moving leftward right after the final box collision.
        let v_small = f64::from_bits(last.v_small_after_box_collision);
        assert_eq!(last.v_small_after_wall_collision.is_none(), v_small <= 0.0);
    }
}

#[test]
fn test_calculate_is_deterministic() {
    let a = calculate(123.456);
    let b = calculate(123.456);
    assert_eq!(a.num_pairs(), b.num_pairs());
    assert_eq!(a.count(), b.count());
    for i in 0..a.num_pairs() {
        let pa = a.pair_at(i);
        let pb = b.pair_at(i);
        assert_eq!(pa.v_big_after_box_collision, pb.v_big_after_box_collision);
        assert_eq!(pa.v_small_after_box_collision, pb.v_small_after_box_collision);
        assert_eq!(pa.v_small_after_wall_collision, pb.v_small_after_wall_collision);
    }
}

#[test]
fn test_velocity_bits_agree_with_numeric_comparisons() {
    let samples: [f64; 16] = [
        0.0,
        -0.0,
        1.0,
        -1.0,
        1.5,
        -2.75,
        0.1,
        -0.1,
        f64::INFINITY,
        f64::NEG_INFINITY,
        f64::NAN,
        -f64::NAN,
        f64::MIN_POSITIVE,
        5e-324,
        -5e-324,
        1e300,
    ];
    for &a in samples.iter() {
        assert_eq!(velocity::le_zero(a.to_bits()), a <= 0.0, "le_zero of {}", a);
        assert_eq!(velocity::flip_sign(a.to_bits()), (-a).to_bits(), "flip_sign of {}", a);
        for &b in samples.iter() {
            assert_eq!(velocity::lt(a.to_bits(), b.to_bits()), a < b, "lt of {} {}", a, b);
        }
    }
}

#[test]
fn test_diagram_point_and_segment_counts() {
    for mass in [1.0, 7.5, 100.0] {
        let c = calculate(mass);
        let coords = coords_for(&c);
        let doc = c.svg_document(&coords);
        let points = doc.matches("<circle ").count();
        let segments = doc.matches("<line ").count();
        let count = c.count() as usize;
        // One point and one segment per collision event, plus the fixed
        // boundary circle and the two axis guide lines.
        assert_eq!(points, count + 1);
        assert_eq!(segments, count + 2);
        assert!(doc.starts_with("<svg "));
        assert!(doc.ends_with("</svg>\n"));
        assert!(doc.contains("sqrt(m_b) * v_b"));
        assert!(doc.contains("sqrt(m_s) * v_s"));
    }
}

#[test]
fn test_diagram_mass_one_golden() {
    let c = calculate(1.0);
    let coords = coords_for(&c);
    let doc = c.svg_document(&coords);
    let expected = "<svg width=\"1400\" height=\"1400\" version=\"1.1\" xmlns=\"http://www.w3.org/2000/svg\">\n\
<style>\n\
.text { font-weight: bold; font-size: 20px; font-family: sans-serif; }\n\
</style>\n\
<rect width=\"100%\" height=\"100%\" fill=\"white\"/>\n\
<circle cx=\"700\" cy=\"700\" r=\"500\" stroke=\"red\" fill=\"transparent\" stroke-width=\"3\"/>\n\
<line x1=\"700\" x2=\"700\" y1=\"50\" y2=\"1350\" stroke=\"orange\" stroke-width=\"5\"/>\n\
<text x=\"700\" y=\"25\" text-anchor=\"middle\" dominant-baseline=\"middle\" class=\"text\">sqrt(m_b) * v_b</text>\n\
<line x1=\"50\" x2=\"1350\" y1=\"700\" y2=\"700\" stroke=\"orange\" stroke-width=\"5\"/>\n\
<text x=\"1300\" y=\"690\" text-anchor=\"middle\" class=\"text\">sqrt(m_s) * v_s</text>\n\
<circle cx=\"1200\" cy=\"700\" r=\"4\" stroke=\"black\" fill=\"blue\" stroke-width=\"1\"/>\n\
<line x1=\"700\" x2=\"1200\" y1=\"200\" y2=\"700\" stroke=\"black\" stroke-width=\"1\"/>\n\
<circle cx=\"200\" cy=\"700\" r=\"4\" stroke=\"black\" fill=\"blue\" stroke-width=\"1\"/>\n\
<line x1=\"1200\" x2=\"200\" y1=\"700\" y2=\"700\" stroke=\"black\" stroke-width=\"1\"/>\n\
<circle cx=\"700\" cy=\"1200\" r=\"4\" stroke=\"black\" fill=\"blue\" stroke-width=\"1\"/>\n\
<line x1=\"200\" x2=\"700\" y1=\"700\" y2=\"1200\" stroke=\"black\" stroke-width=\"1\"/>\n\
</svg>\n";
    assert_eq!(doc, expected);
}

use std::f32::consts::PI;
use svg_path::Path;

fn coord(v: f32) -> String {
    format!("{}", v)
}

/// Mirrors the float-facing front end's arc geometry: computes the start,
/// mid and optional end point of the requested circular arc and hands their
/// text to the verified builder.
fn partial_circle(center_x: f32, center_y: f32, radius: f32, start_angle: f32, arc_angle: f32) -> Path {
    let start_x = center_x + radius * start_angle.cos();
    let start_y = center_y - radius * start_angle.sin();
    let mid_angle = start_angle + arc_angle.signum() * arc_angle.abs().min(PI);
    let mid_x = center_x + radius * mid_angle.cos();
    let mid_y = center_y - radius * mid_angle.sin();
    let end = if arc_angle.abs() > PI {
        let end_angle = start_angle + arc_angle;
        Some((
            coord(center_x + radius * end_angle.cos()),
            coord(center_y - radius * end_angle.sin()),
        ))
    } else {
        None
    };
    Path::partial_circle(
        &coord(radius),
        &coord(start_x),
        &coord(start_y),
        &coord(mid_x),
        &coord(mid_y),
        end.as_ref().map(|(x, y)| (x.as_str(), y.as_str())),
        arc_angle < 0.0,
    )
}

fn count(text: &str, c: char) -> usize {
    text.chars().filter(|&x| x == c).count()
}

/// The whitespace-separated fields after the first arc command letter:
/// `rx ry xrot large_arc sweep x y ...`.
fn first_arc_fields(text: &str) -> Vec<String> {
    let at = text.find('A').expect("no arc command in path text");
    text[at + 1..].split_whitespace().map(|s| s.to_string()).collect()
}

#[test]
fn partial_circle_assembles_move_and_one_arc() {
    let path = Path::partial_circle("2", "3", "0", "-3", "0", None, false);
    assert_eq!(path.render(), "M 3 0A 2 2 0 0 0 -3 0");
}

#[test]
fn partial_circle_assembles_second_arc_when_requested() {
    let path = Path::partial_circle("2", "3", "0", "-3", "0", Some(("3", "0")), true);
    assert_eq!(path.render(), "M 3 0A 2 2 0 0 1 -3 0A 2 2 0 0 1 3 0");
}

#[test]
fn half_turn_or_less_emits_one_move_and_one_arc() {
    for arc_angle in [PI, PI / 2.0, -PI / 2.0, 0.25, -PI] {
        let text = partial_circle(0.0, 0.0, 1.0, 0.0, arc_angle).render();
        assert_eq!(count(&text, 'M'), 1, "angle {}: {}", arc_angle, text);
        assert_eq!(count(&text, 'A'), 1, "angle {}: {}", arc_angle, text);
    }
}

#[test]
fn more_than_half_turn_emits_one_move_and_two_arcs() {
    for arc_angle in [1.5 * PI, 2.0 * PI, -1.5 * PI, 3.5] {
        let text = partial_circle(0.0, 0.0, 1.0, 0.0, arc_angle).render();
        assert_eq!(count(&text, 'M'), 1, "angle {}: {}", arc_angle, text);
        assert_eq!(count(&text, 'A'), 2, "angle {}: {}", arc_angle, text);
    }
}

#[test]
fn half_turn_moves_to_start_and_arcs_to_opposite_point() {
    let text = partial_circle(0.0, 0.0, 1.0, 0.0, PI).render();
    assert!(text.starts_with("M 1 0A"), "{}", text);
    let fields = first_arc_fields(&text);
    assert_eq!(&fields[0], "1");
    assert_eq!(&fields[1], "1");
    assert_eq!(&fields[2], "0");
    assert_eq!(&fields[3], "0", "large-arc flag: {}", text);
    assert_eq!(&fields[4], "0", "sweep flag: {}", text);
    let end_x: f32 = fields[5].parse().unwrap();
    let end_y: f32 = fields[6].parse().unwrap();
    assert!((end_x + 1.0).abs() < 1e-6, "{}", text);
    assert!(end_y.abs() < 1e-6, "{}", text);
}

#[test]
fn negative_angle_sets_the_sweep_flag() {
    let text = partial_circle(0.0, 0.0, 1.0, 0.0, -PI / 2.0).render();
    assert_eq!(count(&text, 'A'), 1, "{}", text);
    let fields = first_arc_fields(&text);
    assert_eq!(&fields[4], "1", "sweep flag: {}", text);
}

#[test]
fn zero_angle_still_emits_a_degenerate_arc() {
    let text = partial_circle(0.0, 0.0, 1.0, 0.0, 0.0).render();
    assert_eq!(text, "M 1 0A 1 1 0 0 0 1 0");
}

use svg_path::Path;

fn coord(v: f32) -> String {
    format!("{}", v)
}

#[test]
fn new_renders_empty() {
    assert_eq!(Path::new().render(), "");
}

#[test]
fn move_to_appends_command() {
    let path = Path::new().move_to(&coord(1.0), &coord(2.0));
    assert_eq!(path.render(), "M 1 2");
}

#[test]
fn chained_commands_concatenate() {
    let path = Path::new().move_to(&coord(1.0), &coord(2.0)).line_to(&coord(3.0), &coord(4.0));
    assert_eq!(path.render(), "M 1 2L 3 4");
}

#[test]
fn relative_commands_use_lowercase_letters() {
    let path = Path::new().move_by("1", "2").line_by("3", "4");
    assert_eq!(path.render(), "m 1 2l 3 4");
}

#[test]
fn horizontal_and_vertical_lines() {
    let path = Path::new()
        .horizontal_line_to("10")
        .horizontal_line_by("-2")
        .vertical_line_to("5")
        .vertical_line_by("0.5");
    assert_eq!(path.render(), "H 10h -2V 5v 0.5");
}

#[test]
fn close_appends_z_alone() {
    let path = Path::new().move_to("1", "2").close();
    assert_eq!(path.render(), "M 1 2Z");
    assert_eq!(Path::new().close().render(), "Z");
}

#[test]
fn close_then_more_commands_has_no_separator() {
    let path = Path::new().close().line_to("3", "4");
    assert_eq!(path.render(), "ZL 3 4");
}

#[test]
fn cubic_bezier_groups_points_with_commas() {
    let path = Path::new().cubic_bezier_to("1", "2", "3", "4", "5", "6");
    assert_eq!(path.render(), "C 1 2, 3 4, 5 6");
    let path = Path::new().cubic_bezier_by("1", "2", "3", "4", "5", "6");
    assert_eq!(path.render(), "c 1 2, 3 4, 5 6");
}

#[test]
fn smooth_cubic_bezier_groups_points_with_commas() {
    assert_eq!(Path::new().smooth_cubic_bezier_to("1", "2", "3", "4").render(), "S 1 2, 3 4");
    assert_eq!(Path::new().smooth_cubic_bezier_by("1", "2", "3", "4").render(), "s 1 2, 3 4");
}

#[test]
fn quadratic_bezier_groups_points_with_commas() {
    assert_eq!(Path::new().quadratic_bezier_to("1", "2", "3", "4").render(), "Q 1 2, 3 4");
    assert_eq!(Path::new().quadratic_bezier_by("1", "2", "3", "4").render(), "q 1 2, 3 4");
}

#[test]
fn smooth_quadratic_bezier_takes_only_endpoint() {
    assert_eq!(Path::new().smooth_quadratic_cubic_bezier_to("1", "2").render(), "T 1 2");
    assert_eq!(Path::new().smooth_quadratic_cubic_bezier_by("1", "2").render(), "t 1 2");
}

#[test]
fn elliptical_arc_flags_render_as_digits() {
    let path = Path::new().elliptical_arc_to(
        &coord(5.0),
        &coord(5.0),
        &coord(0.0),
        true,
        false,
        &coord(10.0),
        &coord(0.0),
    );
    assert_eq!(path.render(), "A 5 5 0 1 0 10 0");
}

#[test]
fn elliptical_arc_by_flags_render_as_digits() {
    let path = Path::new().elliptical_arc_by("5", "5", "0", false, true, "10", "0");
    assert_eq!(path.render(), "a 5 5 0 0 1 10 0");
}

#[test]
fn float_coordinates_format_as_decimal_text() {
    let path = Path::new().move_to(&coord(1.5), &coord(-2.25));
    assert_eq!(path.render(), "M 1.5 -2.25");
}

#[test]
fn non_finite_coordinates_pass_through_as_text() {
    let path = Path::new().move_to(&coord(f32::NAN), &coord(f32::INFINITY));
    assert_eq!(path.render(), "M NaN inf");
}

#[test]
fn render_is_idempotent_and_non_mutating() {
    let path = Path::new().move_to("1", "2").close();
    let first = path.render();
    let second = path.render();
    assert_eq!(first, second);
    assert_eq!(first, "M 1 2Z");
    let extended = path.line_to("3", "4");
    assert_eq!(extended.render(), "M 1 2ZL 3 4");
}

#[test]
fn render_mid_chain_matches_prefix() {
    let path = Path::new().move_to("1", "2");
    assert_eq!(path.render(), "M 1 2");
    let path = path.line_to("3", "4");
    assert_eq!(path.render(), "M 1 2L 3 4");
}

#[test]
fn clone_renders_same_text_and_chains_independently() {
    let path = Path::new().move_to("1", "2");
    let copy = path.clone();
    assert_eq!(copy.render(), path.render());
    let closed = path.close();
    let lined = copy.line_to("3", "4");
    assert_eq!(closed.render(), "M 1 2Z");
    assert_eq!(lined.render(), "M 1 2L 3 4");
}

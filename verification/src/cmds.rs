//! Spec-level models of the path-command text that the builder emits.
//!
//! Every builder method appends one command: a letter, a single space, and
//! the command's arguments separated by single spaces (with a comma-space
//! between the point groups of a curve command). These functions state that
//! text exactly, as sequences of characters.

use vstd::prelude::*;

verus! {

/// An arc flag rendered as the digit `1` (set) or `0` (clear), never a word.
pub open spec fn flag_text(b: bool) -> Seq<char> {
    if b {
        "1"@
    } else {
        "0"@
    }
}

/// A command letter followed by a single coordinate, as in `H 10`.
pub open spec fn single_cmd(letter: Seq<char>, a: Seq<char>) -> Seq<char> {
    letter + " "@ + a
}

/// A command letter followed by one point, as in `M 1 2`.
pub open spec fn point_cmd(letter: Seq<char>, x: Seq<char>, y: Seq<char>) -> Seq<char> {
    letter + " "@ + x + " "@ + y
}

/// A command letter followed by two comma-separated points, as in
/// `S x2 y2, x y`.
pub open spec fn two_point_cmd(
    letter: Seq<char>,
    x2: Seq<char>,
    y2: Seq<char>,
    x: Seq<char>,
    y: Seq<char>,
) -> Seq<char> {
    letter + " "@ + x2 + " "@ + y2 + ", "@ + x + " "@ + y
}

/// A command letter followed by three comma-separated points, as in
/// `C x1 y1, x2 y2, x y`.
pub open spec fn three_point_cmd(
    letter: Seq<char>,
    x1: Seq<char>,
    y1: Seq<char>,
    x2: Seq<char>,
    y2: Seq<char>,
    x: Seq<char>,
    y: Seq<char>,
) -> Seq<char> {
    letter + " "@ + x1 + " "@ + y1 + ", "@ + x2 + " "@ + y2 + ", "@ + x + " "@ + y
}

/// An elliptical-arc command, as in `A rx ry xrot large_arc sweep x y`,
/// with both flags rendered as digits.
pub open spec fn arc_cmd(
    letter: Seq<char>,
    rx: Seq<char>,
    ry: Seq<char>,
    xrot: Seq<char>,
    large_arc: bool,
    sweep: bool,
    x: Seq<char>,
    y: Seq<char>,
) -> Seq<char> {
    letter + " "@ + rx + " "@ + ry + " "@ + xrot + " "@ + flag_text(large_arc) + " "@ + flag_text(
        sweep,
    ) + " "@ + x + " "@ + y
}

/// The full text of a partial-circle path: an absolute move to the start
/// point, an arc of the circle's radius to the mid point, and, when the
/// requested angle exceeds half a turn, a second arc to the end point.
/// Both arcs carry x-axis rotation `0`, a clear large-arc flag, and the
/// same sweep flag.
pub open spec fn partial_circle_text(
    radius: Seq<char>,
    start_x: Seq<char>,
    start_y: Seq<char>,
    mid_x: Seq<char>,
    mid_y: Seq<char>,
    end_point: Option<(Seq<char>, Seq<char>)>,
    sweep: bool,
) -> Seq<char> {
    point_cmd("M"@, start_x, start_y) + arc_cmd(
        "A"@,
        radius,
        radius,
        "0"@,
        false,
        sweep,
        mid_x,
        mid_y,
    ) + match end_point {
        Some((end_x, end_y)) => arc_cmd("A"@, radius, radius, "0"@, false, sweep, end_x, end_y),
        None => Seq::<char>::empty(),
    }
}

} // verus!

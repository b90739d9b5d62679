//! The path builder: a growable text buffer behind a fluent interface.

use crate::cmds::arc_cmd;
use crate::cmds::flag_text;
use crate::cmds::partial_circle_text;
use crate::cmds::point_cmd;
use crate::cmds::single_cmd;
use crate::cmds::three_point_cmd;
use crate::cmds::two_point_cmd;
use vstd::prelude::*;

verus! {

/// The data of a vector-graphics path. Each command method consumes the
/// builder, appends one complete command to its buffer, and returns the
/// builder for further chaining; `render` yields the accumulated text at any
/// point in the chain. The view of a `Path` is the character sequence of its
/// buffer.
pub struct Path {
    text: String,
}

impl View for Path {
    type V = Seq<char>;

    closed spec fn view(&self) -> Seq<char> {
        self.text@
    }
}

impl Path {
    /// Create an empty path.
    pub fn new() -> (r: Path)
        ensures
            r@ == Seq::<char>::empty(),
    {
        Path { text: String::new() }
    }

    /// Append a command letter followed by one point.
    fn append_point(self, letter: &str, x: &str, y: &str) -> (r: Path)
        ensures
            r@ == self@ + point_cmd(letter@, x@, y@),
    {
        let ghost orig = self@;
        let mut text = self.text;
        text.append(letter);
        text.append(" ");
        text.append(x);
        text.append(" ");
        text.append(y);
        proof {
            assert(text@ =~= orig + point_cmd(letter@, x@, y@));
        }
        Path { text }
    }

    /// Append a command letter followed by a single coordinate.
    fn append_single(self, letter: &str, a: &str) -> (r: Path)
        ensures
            r@ == self@ + single_cmd(letter@, a@),
    {
        let ghost orig = self@;
        let mut text = self.text;
        text.append(letter);
        text.append(" ");
        text.append(a);
        proof {
            assert(text@ =~= orig + single_cmd(letter@, a@));
        }
        Path { text }
    }

    /// Append a command letter followed by two comma-separated points.
    fn append_two_points(self, letter: &str, x2: &str, y2: &str, x: &str, y: &str) -> (r: Path)
        ensures
            r@ == self@ + two_point_cmd(letter@, x2@, y2@, x@, y@),
    {
        let ghost orig = self@;
        let mut text = self.text;
        text.append(letter);
        text.append(" ");
        text.append(x2);
        text.append(" ");
        text.append(y2);
        text.append(", ");
        text.append(x);
        text.append(" ");
        text.append(y);
        proof {
            assert(text@ =~= orig + two_point_cmd(letter@, x2@, y2@, x@, y@));
        }
        Path { text }
    }

    /// Append a command letter followed by three comma-separated points.
    fn append_three_points(
        self,
        letter: &str,
        x1: &str,
        y1: &str,
        x2: &str,
        y2: &str,
        x: &str,
        y: &str,
    ) -> (r: Path)
        ensures
            r@ == self@ + three_point_cmd(letter@, x1@, y1@, x2@, y2@, x@, y@),
    {
        let ghost orig = self@;
        let mut text = self.text;
        text.append(letter);
        text.append(" ");
        text.append(x1);
        text.append(" ");
        text.append(y1);
        text.append(", ");
        text.append(x2);
        text.append(" ");
        text.append(y2);
        text.append(", ");
        text.append(x);
        text.append(" ");
        text.append(y);
        proof {
            assert(text@ =~= orig + three_point_cmd(letter@, x1@, y1@, x2@, y2@, x@, y@));
        }
        Path { text }
    }

    /// Append an arc command letter, its radii, rotation, the two flags as
    /// digits, and the endpoint.
    fn append_arc(
        self,
        letter: &str,
        rx: &str,
        ry: &str,
        xrot: &str,
        large_arc: bool,
        sweep: bool,
        x: &str,
        y: &str,
    ) -> (r: Path)
        ensures
            r@ == self@ + arc_cmd(letter@, rx@, ry@, xrot@, large_arc, sweep, x@, y@),
    {
        let ghost orig = self@;
        let large_arc_digit: &str = if large_arc {
            "1"
        } else {
            "0"
        };
        let sweep_digit: &str = if sweep {
            "1"
        } else {
            "0"
        };
        let mut text = self.text;
        text.append(letter);
        text.append(" ");
        text.append(rx);
        text.append(" ");
        text.append(ry);
        text.append(" ");
        text.append(xrot);
        text.append(" ");
        text.append(large_arc_digit);
        text.append(" ");
        text.append(sweep_digit);
        text.append(" ");
        text.append(x);
        text.append(" ");
        text.append(y);
        proof {
            assert(large_arc_digit@ == flag_text(large_arc));
            assert(sweep_digit@ == flag_text(sweep));
            assert(text@ =~= orig + arc_cmd(letter@, rx@, ry@, xrot@, large_arc, sweep, x@, y@));
        }
        Path { text }
    }

    /// Move the current point to `(x, y)` and set it as the initial point of
    /// a new subpath.
    pub fn move_to(self, x: &str, y: &str) -> (r: Path)
        ensures
            r@ == self@ + point_cmd("M"@, x@, y@),
    {
        self.append_point("M", x, y)
    }

    /// Move the current point by `(dx, dy)` and set it as the initial point
    /// of a new subpath.
    pub fn move_by(self, dx: &str, dy: &str) -> (r: Path)
        ensures
            r@ == self@ + point_cmd("m"@, dx@, dy@),
    {
        self.append_point("m", dx, dy)
    }

    /// Draw a line to the point `(x, y)`.
    /// The endpoint of this line becomes the new current point.
    pub fn line_to(self, x: &str, y: &str) -> (r: Path)
        ensures
            r@ == self@ + point_cmd("L"@, x@, y@),
    {
        self.append_point("L", x, y)
    }

    /// Draw a line of length `(dx, dy)` from the current point.
    /// The endpoint of this line becomes the new current point.
    pub fn line_by(self, dx: &str, dy: &str) -> (r: Path)
        ensures
            r@ == self@ + point_cmd("l"@, dx@, dy@),
    {
        self.append_point("l", dx, dy)
    }

    /// Draw a horizontal line from the current point to the given
    /// x-coordinate. The endpoint of this line becomes the new current point.
    pub fn horizontal_line_to(self, x: &str) -> (r: Path)
        ensures
            r@ == self@ + single_cmd("H"@, x@),
    {
        self.append_single("H", x)
    }

    /// Draw a horizontal line of length `dx` from the current point.
    /// The endpoint of this line becomes the new current point.
    pub fn horizontal_line_by(self, dx: &str) -> (r: Path)
        ensures
            r@ == self@ + single_cmd("h"@, dx@),
    {
        self.append_single("h", dx)
    }

    /// Draw a vertical line from the current point to the given y-coordinate.
    /// The endpoint of this line becomes the new current point.
    pub fn vertical_line_to(self, y: &str) -> (r: Path)
        ensures
            r@ == self@ + single_cmd("V"@, y@),
    {
        self.append_single("V", y)
    }

    /// Draw a vertical line of length `dy` from the current point.
    /// The endpoint of this line becomes the new current point.
    pub fn vertical_line_by(self, dy: &str) -> (r: Path)
        ensures
            r@ == self@ + single_cmd("v"@, dy@),
    {
        self.append_single("v", dy)
    }

    /// Draw a cubic bezier curve from the current point to `(x, y)`, with
    /// control points at `(x1, y1)` and `(x2, y2)`.
    /// The endpoint of this curve becomes the new current point.
    pub fn cubic_bezier_to(
        self,
        x1: &str,
        y1: &str,
        x2: &str,
        y2: &str,
        x: &str,
        y: &str,
    ) -> (r: Path)
        ensures
            r@ == self@ + three_point_cmd("C"@, x1@, y1@, x2@, y2@, x@, y@),
    {
        self.append_three_points("C", x1, y1, x2, y2, x, y)
    }

    /// Draw a cubic bezier curve from the current point to the point
    /// `(dx, dy)` away, with control points at `(dx1, dy1)` and `(dx2, dy2)`
    /// relative to the current point.
    /// The endpoint of this curve becomes the new current point.
    pub fn cubic_bezier_by(
        self,
        dx1: &str,
        dy1: &str,
        dx2: &str,
        dy2: &str,
        dx: &str,
        dy: &str,
    ) -> (r: Path)
        ensures
            r@ == self@ + three_point_cmd("c"@, dx1@, dy1@, dx2@, dy2@, dx@, dy@),
    {
        self.append_three_points("c", dx1, dy1, dx2, dy2, dx, dy)
    }

    /// Draw a cubic bezier curve from the current point to `(x, y)`, with
    /// control points at the reflection of a previous cubic curve's second
    /// control point and `(x2, y2)`.
    /// The endpoint of this curve becomes the new current point.
    pub fn smooth_cubic_bezier_to(self, x2: &str, y2: &str, x: &str, y: &str) -> (r: Path)
        ensures
            r@ == self@ + two_point_cmd("S"@, x2@, y2@, x@, y@),
    {
        self.append_two_points("S", x2, y2, x, y)
    }

    /// Draw a cubic bezier curve from the current point to the point
    /// `(dx, dy)` away, with control points at the reflection of a previous
    /// cubic curve's second control point and the point `(dx2, dy2)` away
    /// from the current point.
    /// The endpoint of this curve becomes the new current point.
    pub fn smooth_cubic_bezier_by(self, dx2: &str, dy2: &str, dx: &str, dy: &str) -> (r: Path)
        ensures
            r@ == self@ + two_point_cmd("s"@, dx2@, dy2@, dx@, dy@),
    {
        self.append_two_points("s", dx2, dy2, dx, dy)
    }

    /// Draw a quadratic bezier curve from the current point to `(x, y)`,
    /// with a control point at `(x1, y1)`.
    /// The endpoint of this curve becomes the new current point.
    pub fn quadratic_bezier_to(self, x1: &str, y1: &str, x: &str, y: &str) -> (r: Path)
        ensures
            r@ == self@ + two_point_cmd("Q"@, x1@, y1@, x@, y@),
    {
        self.append_two_points("Q", x1, y1, x, y)
    }

    /// Draw a quadratic bezier curve from the current point to the point
    /// `(dx, dy)` away, with a control point `(dx1, dy1)` away from the
    /// current point.
    /// The endpoint of this curve becomes the new current point.
    pub fn quadratic_bezier_by(self, dx1: &str, dy1: &str, dx: &str, dy: &str) -> (r: Path)
        ensures
            r@ == self@ + two_point_cmd("q"@, dx1@, dy1@, dx@, dy@),
    {
        self.append_two_points("q", dx1, dy1, dx, dy)
    }

    /// Draw a quadratic bezier curve from the current point to `(x, y)`,
    /// with a control point at the reflection of a previous quadratic
    /// curve's control point.
    /// The endpoint of this curve becomes the new current point.
    pub fn smooth_quadratic_cubic_bezier_to(self, x: &str, y: &str) -> (r: Path)
        ensures
            r@ == self@ + point_cmd("T"@, x@, y@),
    {
        self.append_point("T", x, y)
    }

    /// Draw a quadratic bezier curve from the current point to the point
    /// `(dx, dy)` away, with a control point at the reflection of a previous
    /// quadratic curve's control point.
    /// The endpoint of this curve becomes the new current point.
    pub fn smooth_quadratic_cubic_bezier_by(self, dx: &str, dy: &str) -> (r: Path)
        ensures
            r@ == self@ + point_cmd("t"@, dx@, dy@),
    {
        self.append_point("t", dx, dy)
    }

    /// Draw an elliptical arc beginning at the current point and ending at
    /// `(x, y)`. The ellipse will have radii `rx` and `ry` and its
    /// horizontal axis will be rotated by `xrot` degrees. As there are two
    /// possible ellipses of given radius connecting two points, the
    /// `large_arc` and `sweep` flags determine which segment of which
    /// ellipse will be drawn; each is emitted as the digit `1` or `0`.
    pub fn elliptical_arc_to(
        self,
        rx: &str,
        ry: &str,
        xrot: &str,
        large_arc: bool,
        sweep: bool,
        x: &str,
        y: &str,
    ) -> (r: Path)
        ensures
            r@ == self@ + arc_cmd("A"@, rx@, ry@, xrot@, large_arc, sweep, x@, y@),
    {
        self.append_arc("A", rx, ry, xrot, large_arc, sweep, x, y)
    }

    /// Draw an elliptical arc beginning at the current point and ending at
    /// the point `(dx, dy)` away. The ellipse will have radii `rx` and `ry`
    /// and its horizontal axis will be rotated by `xrot` degrees. As there
    /// are two possible ellipses of given radius connecting two points, the
    /// `large_arc` and `sweep` flags determine which segment of which
    /// ellipse will be drawn; each is emitted as the digit `1` or `0`.
    pub fn elliptical_arc_by(
        self,
        rx: &str,
        ry: &str,
        xrot: &str,
        large_arc: bool,
        sweep: bool,
        dx: &str,
        dy: &str,
    ) -> (r: Path)
        ensures
            r@ == self@ + arc_cmd("a"@, rx@, ry@, xrot@, large_arc, sweep, dx@, dy@),
    {
        self.append_arc("a", rx, ry, xrot, large_arc, sweep, dx, dy)
    }

    /// Build the path that draws a circular arc: an absolute move to the
    /// arc's start point, one arc command of radius `radius` to `(mid_x,
    /// mid_y)`, and, when `end_point` is given (an arc spanning more than
    /// half a turn needs a second segment), one more arc command to that
    /// point. Both arc commands carry x-axis rotation `0`, a clear
    /// large-arc flag, and the `sweep` flag.
    pub fn partial_circle(
        radius: &str,
        start_x: &str,
        start_y: &str,
        mid_x: &str,
        mid_y: &str,
        end_point: Option<(&str, &str)>,
        sweep: bool,
    ) -> (r: Path)
        ensures
            r@ == partial_circle_text(
                radius@,
                start_x@,
                start_y@,
                mid_x@,
                mid_y@,
                match end_point {
                    Some((end_x, end_y)) => Some((end_x@, end_y@)),
                    None => None,
                },
                sweep,
            ),
    {
        let mut path = Path::new().move_to(start_x, start_y);
        path = path.elliptical_arc_to(radius, radius, "0", false, sweep, mid_x, mid_y);
        if let Some((end_x, end_y)) = end_point {
            path = path.elliptical_arc_to(radius, radius, "0", false, sweep, end_x, end_y);
        }
        proof {
            assert(path@ =~= partial_circle_text(
                radius@,
                start_x@,
                start_y@,
                mid_x@,
                mid_y@,
                match end_point {
                    Some((end_x, end_y)) => Some((end_x@, end_y@)),
                    None => None,
                },
                sweep,
            ));
        }
        path
    }

    /// Close the current subpath by drawing a line to its initial point.
    /// This appends exactly `Z`, with no arguments.
    pub fn close(self) -> (r: Path)
        ensures
            r@ == self@ + "Z"@,
    {
        let mut text = self.text;
        text.append("Z");
        Path { text }
    }

    /// The text accumulated so far. Rendering reads the buffer and nothing
    /// else: the result is fully determined by the builder's state, and the
    /// builder is left unchanged.
    pub fn render(&self) -> (r: String)
        ensures
            r@ == self@,
    {
        self.text.clone()
    }
}

impl Clone for Path {
    /// Duplicating a builder copies its buffer: the copy renders the same
    /// text, and the two builders chain on independently afterwards.
    fn clone(&self) -> (r: Path)
        ensures
            r@ == self@,
    {
        Path { text: self.text.clone() }
    }
}

/// Rendering is deterministic and non-mutating: `render` takes the builder
/// by shared reference, so it cannot change the builder, and its contract
/// pins the rendered characters to the builder's view alone, so any two
/// renderings of one builder state agree.
pub proof fn lemma_render_deterministic(p: Path, first: String, second: String)
    requires
        first@ == p@,
        second@ == p@,
    ensures
        first@ == second@,
{
}

} // verus!

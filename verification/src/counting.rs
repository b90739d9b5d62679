//! Counting command letters in emitted path text.
//!
//! A path command contributes exactly one letter to the output, so the number
//! of commands in a rendered path can be read off by counting occurrences of
//! the command letters. The lemmas here culminate in the command count of a
//! partial-circle path.

use crate::cmds::arc_cmd;
use crate::cmds::flag_text;
use crate::cmds::partial_circle_text;
use crate::cmds::point_cmd;
use vstd::prelude::*;

verus! {

/// How many times the character `c` occurs in `s`.
pub open spec fn count_char(s: Seq<char>, c: char) -> nat
    decreases s.len(),
{
    if s.len() == 0 {
        0
    } else {
        count_char(s.drop_last(), c) + if s.last() == c {
            1nat
        } else {
            0nat
        }
    }
}

/// The character `c` occurs nowhere in `s`.
pub open spec fn avoids(s: Seq<char>, c: char) -> bool {
    forall|i: int| 0 <= i < s.len() ==> s[i] != c
}

/// Occurrence counts add up over concatenation.
pub proof fn lemma_count_char_add(a: Seq<char>, b: Seq<char>, c: char)
    ensures
        count_char(a + b, c) == count_char(a, c) + count_char(b, c),
    decreases b.len(),
{
    if b.len() == 0 {
        assert(a + b =~= a);
    } else {
        lemma_count_char_add(a, b.drop_last(), c);
        assert((a + b).drop_last() =~= a + b.drop_last());
    }
}

/// A character that occurs nowhere has count zero.
pub proof fn lemma_count_char_absent(s: Seq<char>, c: char)
    requires
        avoids(s, c),
    ensures
        count_char(s, c) == 0,
    decreases s.len(),
{
    if s.len() > 0 {
        lemma_count_char_absent(s.drop_last(), c);
    }
}

/// In a one-character sequence the count is one or zero, by whether the one
/// character is `c`.
pub proof fn lemma_count_char_single(s: Seq<char>, c: char)
    requires
        s.len() == 1,
    ensures
        count_char(s, c) == if s[0] == c {
            1nat
        } else {
            0nat
        },
{
    assert(count_char(s.drop_last(), c) == 0);
    assert(s.last() == s[0]);
}

/// The text contains neither of the command letters that a partial-circle
/// path emits. Decimal coordinate text — digits, `.`, `-`, and exponent
/// markers — satisfies this.
pub open spec fn avoids_cmd_letters(s: Seq<char>) -> bool {
    avoids(s, 'M') && avoids(s, 'A')
}

/// A point command contributes `c` only through its letter, provided `c` is
/// not the separator and occurs in neither coordinate.
proof fn lemma_count_point_cmd(letter: Seq<char>, x: Seq<char>, y: Seq<char>, c: char)
    requires
        c != ' ',
        avoids(x, c),
        avoids(y, c),
    ensures
        count_char(point_cmd(letter, x, y), c) == count_char(letter, c),
{
    let sp = " "@;
    reveal_strlit(" ");
    lemma_count_char_absent(sp, c);
    lemma_count_char_absent(x, c);
    lemma_count_char_absent(y, c);
    lemma_count_char_add(letter, sp, c);
    lemma_count_char_add(letter + sp, x, c);
    lemma_count_char_add(letter + sp + x, sp, c);
    lemma_count_char_add(letter + sp + x + sp, y, c);
}

/// An arc command contributes `c` only through its letter, provided `c` is
/// not the separator or a flag digit and occurs in none of its numeric
/// arguments.
proof fn lemma_count_arc_cmd(
    letter: Seq<char>,
    rx: Seq<char>,
    ry: Seq<char>,
    xrot: Seq<char>,
    large_arc: bool,
    sweep: bool,
    x: Seq<char>,
    y: Seq<char>,
    c: char,
)
    requires
        c != ' ',
        c != '0',
        c != '1',
        avoids(rx, c),
        avoids(ry, c),
        avoids(xrot, c),
        avoids(x, c),
        avoids(y, c),
    ensures
        count_char(arc_cmd(letter, rx, ry, xrot, large_arc, sweep, x, y), c) == count_char(
            letter,
            c,
        ),
{
    let sp = " "@;
    let laf = flag_text(large_arc);
    let sf = flag_text(sweep);
    reveal_strlit(" ");
    reveal_strlit("0");
    reveal_strlit("1");
    lemma_count_char_absent(sp, c);
    lemma_count_char_absent(laf, c);
    lemma_count_char_absent(sf, c);
    lemma_count_char_absent(rx, c);
    lemma_count_char_absent(ry, c);
    lemma_count_char_absent(xrot, c);
    lemma_count_char_absent(x, c);
    lemma_count_char_absent(y, c);
    lemma_count_char_add(letter, sp, c);
    lemma_count_char_add(letter + sp, rx, c);
    lemma_count_char_add(letter + sp + rx, sp, c);
    lemma_count_char_add(letter + sp + rx + sp, ry, c);
    lemma_count_char_add(letter + sp + rx + sp + ry, sp, c);
    lemma_count_char_add(letter + sp + rx + sp + ry + sp, xrot, c);
    lemma_count_char_add(letter + sp + rx + sp + ry + sp + xrot, sp, c);
    lemma_count_char_add(letter + sp + rx + sp + ry + sp + xrot + sp, laf, c);
    lemma_count_char_add(letter + sp + rx + sp + ry + sp + xrot + sp + laf, sp, c);
    lemma_count_char_add(letter + sp + rx + sp + ry + sp + xrot + sp + laf + sp, sf, c);
    lemma_count_char_add(letter + sp + rx + sp + ry + sp + xrot + sp + laf + sp + sf, sp, c);
    lemma_count_char_add(letter + sp + rx + sp + ry + sp + xrot + sp + laf + sp + sf + sp, x, c);
    lemma_count_char_add(
        letter + sp + rx + sp + ry + sp + xrot + sp + laf + sp + sf + sp + x,
        sp,
        c,
    );
    lemma_count_char_add(
        letter + sp + rx + sp + ry + sp + xrot + sp + laf + sp + sf + sp + x + sp,
        y,
        c,
    );
}

/// A partial-circle path holds exactly one move command, and exactly one arc
/// command when no second segment is requested or exactly two when one is —
/// read off by counting the command letters `M` and `A` — provided the
/// coordinate text itself contains neither letter, as decimal coordinate
/// text never does.
pub proof fn lemma_partial_circle_command_count(
    radius: Seq<char>,
    start_x: Seq<char>,
    start_y: Seq<char>,
    mid_x: Seq<char>,
    mid_y: Seq<char>,
    end_point: Option<(Seq<char>, Seq<char>)>,
    sweep: bool,
)
    requires
        avoids_cmd_letters(radius),
        avoids_cmd_letters(start_x),
        avoids_cmd_letters(start_y),
        avoids_cmd_letters(mid_x),
        avoids_cmd_letters(mid_y),
        match end_point {
            Some((end_x, end_y)) => avoids_cmd_letters(end_x) && avoids_cmd_letters(end_y),
            None => true,
        },
    ensures
        count_char(
            partial_circle_text(radius, start_x, start_y, mid_x, mid_y, end_point, sweep),
            'M',
        ) == 1,
        count_char(
            partial_circle_text(radius, start_x, start_y, mid_x, mid_y, end_point, sweep),
            'A',
        ) == if end_point is Some {
            2nat
        } else {
            1nat
        },
{
    let zero = "0"@;
    let move_part = point_cmd("M"@, start_x, start_y);
    let first_arc = arc_cmd("A"@, radius, radius, zero, false, sweep, mid_x, mid_y);
    reveal_strlit("M");
    reveal_strlit("A");
    reveal_strlit("0");
    lemma_count_char_single("M"@, 'M');
    lemma_count_char_single("M"@, 'A');
    lemma_count_char_single("A"@, 'M');
    lemma_count_char_single("A"@, 'A');
    lemma_count_point_cmd("M"@, start_x, start_y, 'M');
    lemma_count_point_cmd("M"@, start_x, start_y, 'A');
    lemma_count_arc_cmd("A"@, radius, radius, zero, false, sweep, mid_x, mid_y, 'M');
    lemma_count_arc_cmd("A"@, radius, radius, zero, false, sweep, mid_x, mid_y, 'A');
    lemma_count_char_add(move_part, first_arc, 'M');
    lemma_count_char_add(move_part, first_arc, 'A');
    match end_point {
        Some((end_x, end_y)) => {
            let second_arc = arc_cmd("A"@, radius, radius, zero, false, sweep, end_x, end_y);
            lemma_count_arc_cmd("A"@, radius, radius, zero, false, sweep, end_x, end_y, 'M');
            lemma_count_arc_cmd("A"@, radius, radius, zero, false, sweep, end_x, end_y, 'A');
            lemma_count_char_add(move_part + first_arc, second_arc, 'M');
            lemma_count_char_add(move_part + first_arc, second_arc, 'A');
        },
        None => {
            lemma_count_char_add(move_part + first_arc, Seq::<char>::empty(), 'M');
            lemma_count_char_add(move_part + first_arc, Seq::<char>::empty(), 'A');
        },
    }
}

} // verus!

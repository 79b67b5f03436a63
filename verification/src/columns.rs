//! Text in the columns of a terminal.

use vstd::prelude::*;

use crate::text::cat3;
use crate::text::chars_of;
use crate::text::has_suffix;
use crate::text::repeat;
use crate::text::repeated;
use crate::text::string_between;

verus! {

pub open spec fn is_printable_ascii(c: char) -> bool {
    ' ' <= c <= '~'
}

pub open spec fn all_printable_ascii(s: Seq<char>) -> bool {
    forall|i: int| 0 <= i < s.len() ==> is_printable_ascii(#[trigger] s[i])
}

/// The columns that a character takes; none for a control character.
pub uninterp spec fn char_columns(c: char) -> Option<usize>;

/// `unicode_width::UnicodeWidthChar::width`: a function of the character alone; a printable
/// ASCII character takes one column.
#[verifier::external_body]
fn char_width(c: char) -> (r: Option<usize>)
    ensures
        r == char_columns(c),
        is_printable_ascii(c) ==> r == Some(1usize),
{
    unicode_width::UnicodeWidthChar::width(c)
}

/// The columns that a text takes.
pub uninterp spec fn columns(s: Seq<char>) -> usize;

/// `unicode_width::UnicodeWidthStr::width`: a function of the text alone; printable ASCII
/// characters take one column each.
#[verifier::external_body]
pub(crate) fn width(s: &str) -> (r: usize)
    ensures
        r == columns(s@),
        all_printable_ascii(s@) ==> r == s@.len(),
{
    unicode_width::UnicodeWidthStr::width(s)
}

// ---------------------------------------------------------------------------
// Cutting text
// ---------------------------------------------------------------------------

/// How many of the characters with these widths stand in `width` columns, one after the
/// other, before the first that does not.
pub open spec fn fitting(widths: Seq<usize>, width: int) -> int
    decreases widths.len(),
{
    if widths.len() == 0 || widths[0] > width {
        0
    } else {
        1 + fitting(widths.drop_first(), width - widths[0])
    }
}

pub proof fn lemma_fitting(widths: Seq<usize>, width: int)
    ensures
        0 <= fitting(widths, width) <= widths.len(),
    decreases widths.len(),
{
    if widths.len() > 0 && widths[0] <= width {
        lemma_fitting(widths.drop_first(), width - widths[0]);
    }
}

pub open spec fn sum(widths: Seq<usize>) -> int
    decreases widths.len(),
{
    if widths.len() == 0 {
        0
    } else {
        widths[0] + sum(widths.drop_first())
    }
}

/// The characters that are kept fit, and the next one would not.
pub proof fn law_cut_is_longest(widths: Seq<usize>, width: int)
    requires
        0 <= width,
    ensures
        0 <= fitting(widths, width) <= widths.len(),
        sum(widths.take(fitting(widths, width))) <= width,
        fitting(widths, width) < widths.len() ==> sum(widths.take(fitting(widths, width)))
            + widths[fitting(widths, width)] > width,
    decreases widths.len(),
{
    lemma_fitting(widths, width);
    let n = fitting(widths, width);
    if widths.len() > 0 && widths[0] <= width {
        let tail = widths.drop_first();
        law_cut_is_longest(tail, width - widths[0]);
        assert(widths.take(n).drop_first() =~= tail.take(n - 1));
        assert(widths.take(n)[0] == widths[0]);
        if n < widths.len() {
            assert(widths[n] == tail[n - 1]);
        }
    } else {
        assert(widths.take(n) =~= Seq::empty());
    }
}

/// The longest prefix of a text, whose characters have these widths, that fits.
pub fn cut_by_widths(text: &str, widths: &Vec<usize>, width: usize) -> (r: String)
    requires
        widths@.len() == text@.len(),
    ensures
        r@ == text@.take(fitting(widths@, width as int)),
{
    let v = chars_of(text);
    let mut left: usize = width;
    let mut i: usize = 0;
    assert(widths@.skip(0) =~= widths@);
    while i < v.len() && widths[i] <= left
        invariant
            i <= v@.len(),
            v@.len() == widths@.len(),
            fitting(widths@, width as int) == i + fitting(widths@.skip(i as int), left as int),
        decreases v.len() - i,
    {
        assert(widths@.skip(i as int).drop_first() =~= widths@.skip(i + 1));
        left = left - widths[i];
        i = i + 1;
    }
    assert(v@.subrange(0, i as int) =~= v@.take(i as int));
    string_between(&v, 0, i)
}

pub open spec fn counted(c: char) -> usize {
    match char_columns(c) {
        Some(n) => n,
        None => 0,
    }
}

/// The widths of the characters; a control character takes no column.
pub open spec fn char_widths(s: Seq<char>) -> Seq<usize> {
    s.map_values(|c: char| counted(c))
}

/// The longest prefix of a text that fits.
pub open spec fn cut(text: Seq<char>, width: int) -> Seq<char> {
    text.take(fitting(char_widths(text), width))
}

pub fn trim_to_width(text: &str, width: usize) -> (r: String)
    ensures
        r@ == cut(text@, width as int),
{
    let v = chars_of(text);
    let ghost target = char_widths(v@);
    let mut widths: Vec<usize> = Vec::new();
    let mut i: usize = 0;
    while i < v.len()
        invariant
            i <= v@.len(),
            target == char_widths(v@),
            widths@ == target.take(i as int),
        decreases v.len() - i,
    {
        let w: usize = match char_width(v[i]) {
            Some(n) => n,
            None => 0,
        };
        assert(target[i as int] == w);
        widths.push(w);
        i = i + 1;
        assert(widths@ =~= target.take(i as int));
    }
    assert(target.take(i as int) =~= target);
    cut_by_widths(text, &widths, width)
}

// ---------------------------------------------------------------------------
// Lines
// ---------------------------------------------------------------------------

/// A text on the left and a marker on the right of a line, with at least one space between
/// them; the marker alone, cut, where they do not fit. `left_columns` and `marker_columns`
/// are the columns that they take.
pub open spec fn laid_out(
    left: Seq<char>,
    left_columns: int,
    marker: Seq<char>,
    marker_columns: int,
    cut_marker: Seq<char>,
    width: int,
) -> Seq<char> {
    if left_columns + 1 + marker_columns <= width {
        left + repeated(" "@, width - (left_columns + marker_columns)) + marker
    } else {
        cut_marker
    }
}

pub fn lay_out(
    left: &str,
    left_columns: usize,
    marker: &str,
    marker_columns: usize,
    cut_marker: &str,
    width: usize,
) -> (r: String)
    ensures
        r@ == laid_out(
            left@,
            left_columns as int,
            marker@,
            marker_columns as int,
            cut_marker@,
            width as int,
        ),
{
    if left_columns as u128 + 1 + marker_columns as u128 <= width as u128 {
        let gap: usize = width - (left_columns + marker_columns);
        let space = repeat(" ", gap);
        cat3(left, space.as_str(), marker)
    } else {
        cut_marker.to_owned()
    }
}

/// The columns that are left for a text beside a marker.
pub open spec fn room_beside(marker_columns: int, width: int) -> int {
    if width >= marker_columns + 1 {
        width - (marker_columns + 1)
    } else {
        0
    }
}

/// A status line of `width` columns.
pub open spec fn status(left: Seq<char>, marker: Seq<char>, width: int) -> Seq<char> {
    let kept = cut(left, room_beside(columns(marker) as int, width));
    laid_out(
        kept,
        columns(kept) as int,
        marker,
        columns(marker) as int,
        cut(marker, width),
        width,
    )
}

pub fn status_line(left: &str, marker: &str, width: usize) -> (r: String)
    ensures
        r@ == status(left@, marker@, width as int),
{
    let marker_columns: usize = self::width(marker);
    let room: usize = if (marker_columns as u128) < width as u128 {
        width - marker_columns - 1
    } else {
        0
    };
    let kept = trim_to_width(left, room);
    let kept_columns: usize = self::width(kept.as_str());
    let cut_marker = trim_to_width(marker, width);
    lay_out(kept.as_str(), kept_columns, marker, marker_columns, cut_marker.as_str(), width)
}

/// The marker stays whole at the end of the line wherever both have room.
pub proof fn law_marker_ends_the_line(
    left: Seq<char>,
    left_columns: int,
    marker: Seq<char>,
    marker_columns: int,
    cut_marker: Seq<char>,
    width: int,
)
    requires
        0 <= left_columns,
        0 <= marker_columns,
        left_columns + 1 + marker_columns <= width,
    ensures
        has_suffix(
            laid_out(left, left_columns, marker, marker_columns, cut_marker, width),
            marker,
        ),
{
    let line = laid_out(left, left_columns, marker, marker_columns, cut_marker, width);
    assert(line.subrange(line.len() - marker.len(), line.len() as int) =~= marker);
}

/// A line with space in front, so that it stands in the middle.
pub open spec fn centred(line: Seq<char>, line_columns: int, width: int) -> Seq<char> {
    if line_columns >= width {
        line
    } else {
        repeated(" "@, (width - line_columns) / 2) + line
    }
}

pub fn centre(line: &str, line_columns: usize, width: usize) -> (r: String)
    ensures
        r@ == centred(line@, line_columns as int, width as int),
{
    if line_columns >= width {
        line.to_owned()
    } else {
        let space = repeat(" ", (width - line_columns) / 2);
        crate::text::cat(space.as_str(), line)
    }
}

pub open spec fn centre_of(line: Seq<char>, width: int) -> Seq<char> {
    let kept = cut(line, width);
    centred(kept, columns(kept) as int, width)
}

pub fn center_line(line: &str, width: usize) -> (r: String)
    ensures
        r@ == centre_of(line@, width as int),
{
    let kept = trim_to_width(line, width);
    let kept_columns: usize = self::width(kept.as_str());
    centre(kept.as_str(), kept_columns, width)
}

} // verus!

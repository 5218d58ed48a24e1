use vstd::prelude::*;
use vstd::string::StringExecFns;
use vstd::utf8::encode_utf8;
use crate::text::{spaces, spaces_string};

verus! {

/// What `str::split_whitespace` yields for a text: its runs of
/// non-whitespace characters, in order.
pub uninterp spec fn words_of(text: Seq<char>) -> Seq<Seq<char>>;

/// The strings of a list, as character sequences.
pub open spec fn texts(v: Seq<String>) -> Seq<Seq<char>> {
    Seq::new(v.len(), |i: int| v[i]@)
}

/// Relies on `str::split_whitespace`: the words of `text`, each one copied
/// into a `String`.
#[verifier::external_body]
fn split_words(text: &str) -> (r: Vec<String>)
    ensures
        texts(r@) == words_of(text@),
{
    text.split_whitespace().map(|w| w.to_string()).collect()
}

/// Word wrapping: the first line starts empty; each word goes, after a space,
/// onto the current line when the line's length plus the word's is within
/// `limit`, and otherwise starts a new line of its own, after a space.
pub open spec fn wrap(words: Seq<Seq<char>>, limit: nat) -> Seq<Seq<char>>
    decreases words.len(),
{
    if words.len() == 0 {
        seq![Seq::empty()]
    } else {
        let lines = wrap(words.drop_last(), limit);
        let w = words.last();
        if lines.last().len() + w.len() <= limit {
            lines.update(lines.len() - 1, lines.last() + seq![' '] + w)
        } else {
            lines.push(seq![' '] + w)
        }
    }
}

proof fn lemma_wrap_not_empty(words: Seq<Seq<char>>, limit: nat)
    ensures
        wrap(words, limit).len() >= 1,
    decreases words.len(),
{
    if words.len() > 0 {
        lemma_wrap_not_empty(words.drop_last(), limit);
    }
}

/// The widest of `lines`, in bytes of UTF-8.
pub open spec fn widest(lines: Seq<Seq<char>>) -> nat
    decreases lines.len(),
{
    if lines.len() == 0 {
        0
    } else {
        let w = encode_utf8(lines.last()).len();
        let rest = widest(lines.drop_last());
        if w > rest {
            w
        } else {
            rest
        }
    }
}

/// A count as a column or row number; zero when it does not fit.
pub open spec fn fit_u16(n: nat) -> u16 {
    if n <= u16::MAX {
        n as u16
    } else {
        0
    }
}

/// `line` padded with spaces to `width` characters: on the right for `<`, on
/// the left for `>`, and on both sides for `^`, the odd space going right.
/// Any other alignment counts as `<`. A line that is already as wide is kept.
pub open spec fn aligned(line: Seq<char>, width: nat, alignment: char) -> Seq<char> {
    if line.len() >= width {
        line
    } else {
        let pad = (width - line.len()) as nat;
        if alignment == '>' {
            spaces(pad) + line
        } else if alignment == '^' {
            spaces(pad / 2) + line + spaces((pad - pad / 2) as nat)
        } else {
            line + spaces(pad)
        }
    }
}

/// Pads `line` to `width` characters as `aligned` says.
pub fn align_line(line: &String, width: u16, alignment: char) -> (r: String)
    ensures
        r@ == aligned(line@, width as nat, alignment),
{
    let len = line.as_str().unicode_len();
    if len >= width as usize {
        return line.clone();
    }
    let pad: u16 = width - len as u16;
    if alignment == '>' {
        let mut r = spaces_string(pad);
        r.append(line.as_str());
        r
    } else if alignment == '^' {
        let mut r = spaces_string(pad / 2);
        r.append(line.as_str());
        let tail = spaces_string(pad - pad / 2);
        r.append(tail.as_str());
        r
    } else {
        let mut r = line.clone();
        let tail = spaces_string(pad);
        r.append(tail.as_str());
        r
    }
}

/// Why a shape could not be drawn or erased.
#[derive(Clone, Copy, Debug, PartialEq, Eq, Structural)]
pub enum ShapeError {
    /// The operation is not supported.
    Unsupported,
}

/// Wraps `words` into lines as `wrap` says.
pub fn wrap_words(words: &Vec<String>, line_length: u16) -> (r: Vec<String>)
    ensures
        texts(r@) == wrap(texts(words@), line_length as nat),
{
    let ghost ws = texts(words@);
    let mut done: Vec<String> = Vec::new();
    let mut cur = String::new();
    let mut i: usize = 0;
    proof {
        reveal_strlit(" ");
    }
    assert(texts(done@).push(cur@) =~= wrap(ws.take(0), line_length as nat));
    while i < words.len()
        invariant
            i <= words@.len(),
            ws == texts(words@),
            " "@ == seq![' '],
            texts(done@).push(cur@) == wrap(ws.take(i as int), line_length as nat),
        decreases words@.len() - i,
    {
        let w = words[i].as_str();
        let cur_len = cur.as_str().unicode_len();
        let w_len = w.unicode_len();
        let limit = line_length as usize;
        let ghost lines = wrap(ws.take(i as int), line_length as nat);
        proof {
            lemma_wrap_not_empty(ws.take(i as int), line_length as nat);
            assert(ws.take(i + 1).drop_last() =~= ws.take(i as int));
            assert(ws.take(i + 1).last() == w@);
            assert(lines.last() == cur@);
        }
        if cur_len <= limit && w_len <= limit - cur_len {
            cur.append(" ");
            cur.append(w);
            assert(texts(done@).push(cur@) =~= lines.update(
                lines.len() - 1,
                lines.last() + seq![' '] + w@,
            ));
        } else {
            let ghost prev = cur@;
            let mut next = String::from_str(" ");
            next.append(w);
            done.push(cur);
            cur = next;
            assert(texts(done@) =~= texts(done@).drop_last().push(prev));
            assert(texts(done@).push(cur@) =~= lines.push(seq![' '] + w@));
        }
        i = i + 1;
    }
    assert(ws.take(i as int) =~= ws);
    done.push(cur);
    assert(texts(done@) =~= wrap(ws, line_length as nat));
    done
}

/// A block of text, wrapped to a line length and aligned.
pub struct Text {
    pub origin: (u16, u16),
    pub text: String,
    pub line_legnth: u16,
    /// `<` left, `^` centred, `>` right; anything else counts as left.
    pub alignment: char,
}

impl Text {
    /// The lines of the text: its words wrapped to the line length.
    pub fn string_builder(&self) -> (r: Vec<String>)
        ensures
            texts(r@) == wrap(words_of(self.text@), self.line_legnth as nat),
    {
        let words = split_words(self.text.as_str());
        wrap_words(&words, self.line_legnth)
    }

    /// Columns and rows that the text takes: the widest line in bytes and the
    /// number of lines, each zero when it does not fit a `u16`.
    pub fn dimensions(&self) -> (r: (u16, u16))
        ensures
            ({
                let lines = wrap(words_of(self.text@), self.line_legnth as nat);
                r == (fit_u16(widest(lines)), fit_u16(lines.len()))
            }),
    {
        let lines = self.string_builder();
        let ghost ls = texts(lines@);
        let rows: u16 = if lines.len() <= u16::MAX as usize {
            lines.len() as u16
        } else {
            0
        };
        let mut col: usize = 0;
        let mut i: usize = 0;
        while i < lines.len()
            invariant
                i <= lines@.len(),
                ls == texts(lines@),
                col == widest(ls.take(i as int)),
            decreases lines@.len() - i,
        {
            let n = lines[i].as_str().as_bytes().len();
            proof {
                assert(ls.take(i + 1).drop_last() =~= ls.take(i as int));
                assert(ls.take(i + 1).last() == lines@[i as int]@);
            }
            if n > col {
                col = n;
            }
            i = i + 1;
        }
        assert(ls.take(i as int) =~= ls);
        let cols: u16 = if col <= u16::MAX as usize {
            col as u16
        } else {
            0
        };
        (cols, rows)
    }

    /// The lines to draw, top to bottom: each line of `string_builder`
    /// aligned to the width that `dimensions` gives.
    pub fn aligned_lines(&self) -> (r: Vec<String>)
        ensures
            ({
                let lines = wrap(words_of(self.text@), self.line_legnth as nat);
                let width = fit_u16(widest(lines)) as nat;
                texts(r@) == Seq::new(
                    lines.len(),
                    |i: int| aligned(lines[i], width, self.alignment),
                )
            }),
    {
        let lines = self.string_builder();
        let dims = self.dimensions();
        let ghost ls = texts(lines@);
        let mut r: Vec<String> = Vec::new();
        let mut i: usize = 0;
        while i < lines.len()
            invariant
                i <= lines@.len(),
                r@.len() == i,
                ls == texts(lines@),
                texts(r@) == Seq::new(
                    i as nat,
                    |j: int| aligned(ls[j], dims.0 as nat, self.alignment),
                ),
            decreases lines@.len() - i,
        {
            let ghost before = r@;
            let a = align_line(&lines[i], dims.0, self.alignment);
            assert(ls[i as int] == lines@[i as int]@);
            r.push(a);
            assert(r@ == before.push(a));
            assert(texts(r@)[i as int] == aligned(ls[i as int], dims.0 as nat, self.alignment));
            assert forall|j: int| 0 <= j < i implies texts(r@)[j] == aligned(
                ls[j],
                dims.0 as nat,
                self.alignment,
            ) by {
                assert(r@[j] == before[j]);
                assert(texts(before)[j] == aligned(ls[j], dims.0 as nat, self.alignment));
            }
            i = i + 1;
            assert(texts(r@) =~= Seq::new(
                i as nat,
                |j: int| aligned(ls[j], dims.0 as nat, self.alignment),
            ));
        }
        assert(texts(r@) =~= Seq::new(
            ls.len(),
            |j: int| aligned(ls[j], dims.0 as nat, self.alignment),
        ));
        r
    }

    /// Erasing a text is not supported.
    pub fn erase(&self) -> (r: Result<(), ShapeError>)
        ensures
            r == Err::<(), ShapeError>(ShapeError::Unsupported),
    {
        Err(ShapeError::Unsupported)
    }
}

/// A box drawn with line characters.
pub struct Rectangle {
    pub origin: (u16, u16),
    /// Columns and rows, borders included.
    pub dimensions: (u16, u16),
    pub char_corner_top_left: char,
    pub char_corner_top_right: char,
    pub char_corner_bottom_left: char,
    pub char_corner_bottom_right: char,
    pub char_horizontal_top: char,
    pub char_horizontal_bottom: char,
    pub char_verticle_left: char,
    pub char_verticle_right: char,
    pub char_fill: char,
}

/// `n` cells along a row from `col`, each holding `c`.
pub open spec fn row_cells(col: int, row: int, n: nat, c: char) -> Seq<(u16, u16, char)> {
    Seq::new(n, |i: int| ((col + i) as u16, row as u16, c))
}

/// `n` cells down a column from `row`, each holding `c`.
pub open spec fn column_cells(col: int, row: int, n: nat, c: char) -> Seq<(u16, u16, char)> {
    Seq::new(n, |i: int| (col as u16, (row + i) as u16, c))
}

/// The inner length of a side `size` cells long, corners left out.
pub open spec fn inner(size: u16) -> nat {
    if size > 2 {
        (size - 2) as nat
    } else {
        0
    }
}

/// Whether the box is non-empty and its far corner lies within `term_max`.
pub open spec fn fits(r: Rectangle, term_max: (u16, u16)) -> bool {
    &&& r.dimensions.0 > 0
    &&& r.dimensions.1 > 0
    &&& r.origin.0 + r.dimensions.0 - 1 <= term_max.0
    &&& r.origin.1 + r.dimensions.1 - 1 <= term_max.1
}

/// The cells of the border: top and bottom sides, left and right sides, then
/// the four corners; none when the box is empty or does not fit.
pub open spec fn border_cells(r: Rectangle, term_max: (u16, u16)) -> Seq<(u16, u16, char)> {
    if !fits(r, term_max) {
        seq![]
    } else {
        let (x, y) = (r.origin.0 as int, r.origin.1 as int);
        let (col, row) = (r.dimensions.0 - 1, r.dimensions.1 - 1);
        row_cells(x + 1, y, inner(r.dimensions.0), r.char_horizontal_top)
            + row_cells(x + 1, y + row, inner(r.dimensions.0), r.char_horizontal_bottom)
            + column_cells(x, y + 1, inner(r.dimensions.1), r.char_verticle_left)
            + column_cells(x + col, y + 1, inner(r.dimensions.1), r.char_verticle_right)
            + seq![
            (x as u16, y as u16, r.char_corner_top_left),
            ((x + col) as u16, y as u16, r.char_corner_top_right),
            (x as u16, (y + row) as u16, r.char_corner_bottom_left),
            ((x + col) as u16, (y + row) as u16, r.char_corner_bottom_right),
        ]
    }
}

fn push_row(out: &mut Vec<(u16, u16, char)>, col: u16, row: u16, n: u16, c: char)
    requires
        col + n <= u16::MAX,
    ensures
        final(out)@ == old(out)@ + row_cells(col as int, row as int, n as nat, c),
{
    let ghost start = out@;
    let mut i: u16 = 0;
    while i < n
        invariant
            i <= n,
            col + n <= u16::MAX,
            out@ == start + row_cells(col as int, row as int, i as nat, c),
        decreases n - i,
    {
        out.push((col + i, row, c));
        i = i + 1;
        assert(out@ =~= start + row_cells(col as int, row as int, i as nat, c));
    }
}

fn push_column(out: &mut Vec<(u16, u16, char)>, col: u16, row: u16, n: u16, c: char)
    requires
        row + n <= u16::MAX,
    ensures
        final(out)@ == old(out)@ + column_cells(col as int, row as int, n as nat, c),
{
    let ghost start = out@;
    let mut i: u16 = 0;
    while i < n
        invariant
            i <= n,
            row + n <= u16::MAX,
            out@ == start + column_cells(col as int, row as int, i as nat, c),
        decreases n - i,
    {
        out.push((col, row + i, c));
        i = i + 1;
        assert(out@ =~= start + column_cells(col as int, row as int, i as nat, c));
    }
}

impl Rectangle {
    /// A box at the top left corner, `dimensions` in size, drawn with thin
    /// line characters and filled with `#`.
    pub fn with_dimensions(dimensions: (u16, u16)) -> (r: Rectangle)
        ensures
            r.origin == (0u16, 0u16),
            r.dimensions == dimensions,
            r.char_corner_top_left == '\u{250c}',
            r.char_corner_top_right == '\u{2510}',
            r.char_corner_bottom_left == '\u{2514}',
            r.char_corner_bottom_right == '\u{2518}',
            r.char_horizontal_top == '\u{2500}',
            r.char_horizontal_bottom == '\u{2500}',
            r.char_verticle_left == '\u{2502}',
            r.char_verticle_right == '\u{2502}',
            r.char_fill == '#',
    {
        Rectangle {
            origin: (0, 0),
            dimensions,
            char_corner_top_left: '\u{250c}',
            char_corner_top_right: '\u{2510}',
            char_corner_bottom_left: '\u{2514}',
            char_corner_bottom_right: '\u{2518}',
            char_horizontal_top: '\u{2500}',
            char_horizontal_bottom: '\u{2500}',
            char_verticle_left: '\u{2502}',
            char_verticle_right: '\u{2502}',
            char_fill: '#',
        }
    }

    /// The cells of the border, each with its character, on a terminal whose
    /// last column and row are `term_max`.
    pub fn border(&self, term_max: (u16, u16)) -> (r: Vec<(u16, u16, char)>)
        ensures
            r@ == border_cells(*self, term_max),
    {
        let mut out: Vec<(u16, u16, char)> = Vec::new();
        if self.dimensions.0 == 0 || self.dimensions.1 == 0 {
            return out;
        }
        let col = self.dimensions.0 - 1;
        let row = self.dimensions.1 - 1;
        if col > u16::MAX - self.origin.0 || self.origin.0 + col > term_max.0 || row > u16::MAX
            - self.origin.1 || self.origin.1 + row > term_max.1 {
            return out;
        }
        let (x, y) = self.origin;
        let wide: u16 = if col > 1 { col - 1 } else { 0 };
        let tall: u16 = if row > 1 { row - 1 } else { 0 };
        let x1: u16 = if col > 1 { x + 1 } else { x };
        let y1: u16 = if row > 1 { y + 1 } else { y };
        push_row(&mut out, x1, y, wide, self.char_horizontal_top);
        push_row(&mut out, x1, y + row, wide, self.char_horizontal_bottom);
        push_column(&mut out, x, y1, tall, self.char_verticle_left);
        push_column(&mut out, x + col, y1, tall, self.char_verticle_right);
        out.push((x, y, self.char_corner_top_left));
        out.push((x + col, y, self.char_corner_top_right));
        out.push((x, y + row, self.char_corner_bottom_left));
        out.push((x + col, y + row, self.char_corner_bottom_right));
        assert(out@ =~= border_cells(*self, term_max));
        out
    }

    /// Filling a box is not supported.
    pub fn fill(&self) -> (r: Result<(), ShapeError>)
        ensures
            r == Err::<(), ShapeError>(ShapeError::Unsupported),
    {
        Err(ShapeError::Unsupported)
    }

    /// Filling a box's background is not supported.
    pub fn fill_background(&self) -> (r: Result<(), ShapeError>)
        ensures
            r == Err::<(), ShapeError>(ShapeError::Unsupported),
    {
        Err(ShapeError::Unsupported)
    }

    /// Erasing a box is not supported.
    pub fn erase(&self) -> (r: Result<(), ShapeError>)
        ensures
            r == Err::<(), ShapeError>(ShapeError::Unsupported),
    {
        Err(ShapeError::Unsupported)
    }

    /// Erasing a box's fill is not supported.
    pub fn erase_fill(&self) -> (r: Result<(), ShapeError>)
        ensures
            r == Err::<(), ShapeError>(ShapeError::Unsupported),
    {
        Err(ShapeError::Unsupported)
    }

    /// Erasing a box's background is not supported.
    pub fn erase_background(&self) -> (r: Result<(), ShapeError>)
        ensures
            r == Err::<(), ShapeError>(ShapeError::Unsupported),
    {
        Err(ShapeError::Unsupported)
    }
}

/// A straight line between two cells.
pub struct Line {
    start_point: (u16, u16),
    end_point: (u16, u16),
    char_line: char,
}

impl View for Line {
    /// The start point, the end point and the character drawn.
    type V = ((u16, u16), (u16, u16), char);

    closed spec fn view(&self) -> Self::V {
        (self.start_point, self.end_point, self.char_line)
    }
}

impl Line {
    pub fn new(start_point: (u16, u16), end_point: (u16, u16), char_line: char) -> (r: Line)
        ensures
            r@ == (start_point, end_point, char_line),
    {
        Line { start_point, end_point, char_line }
    }

    /// Drawing a line is not supported.
    pub fn draw(&self) -> (r: Result<(), ShapeError>)
        ensures
            r == Err::<(), ShapeError>(ShapeError::Unsupported),
    {
        Err(ShapeError::Unsupported)
    }

    /// Erasing a line is not supported.
    pub fn erase(&self) -> (r: Result<(), ShapeError>)
        ensures
            r == Err::<(), ShapeError>(ShapeError::Unsupported),
    {
        Err(ShapeError::Unsupported)
    }
}

} // verus!

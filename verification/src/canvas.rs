//! A rectangular grid of pixels and its encoding as a plain-text PPM image.
use vstd::prelude::*;

use crate::ppm::{concat, lemma_concat_prepend, ppm_header, PPM};
use crate::text::{decimal, push_decimal, string_from_chars};

verus! {

/// The longest run of pixel data, in characters, that a PPM body line
/// holds before it is broken.
pub const MAX_LINE: usize = 70;

/// A pixel as the three channel values written to a PPM file (0 to 255).
#[derive(Clone, Copy, Debug, PartialEq, Eq, Structural)]
pub struct Rgb {
    pub red: u8,
    pub green: u8,
    pub blue: u8,
}

/// `r g b` in decimal, separated by single spaces.
pub open spec fn pixel_text(p: Rgb) -> Seq<char> {
    decimal(p.red as nat) + seq![' '] + decimal(p.green as nat) + seq![' '] + decimal(
        p.blue as nat,
    )
}

/// The texts of the pixels of a row, separated by single spaces.
pub open spec fn row_text(row: Seq<Rgb>) -> Seq<char>
    decreases row.len(),
{
    if row.len() == 0 {
        Seq::empty()
    } else if row.len() == 1 {
        pixel_text(row[0])
    } else {
        row_text(row.drop_last()) + seq![' '] + pixel_text(row.last())
    }
}

/// A line of pixel data broken into pieces of `MAX_LINE` characters (the
/// last piece holds the rest, possibly nothing), each followed by a newline.
pub open spec fn wrap_line(line: Seq<char>) -> Seq<Seq<char>>
    decreases line.len(),
{
    if line.len() > MAX_LINE {
        seq![line.take(MAX_LINE as int).push('\n')] + wrap_line(line.skip(MAX_LINE as int))
    } else {
        seq![line.push('\n')]
    }
}

/// The body lines of a PPM image: the wrapped text of each row in turn.
pub open spec fn ppm_body(rows: Seq<Seq<Rgb>>) -> Seq<Seq<char>>
    decreases rows.len(),
{
    if rows.len() == 0 {
        Seq::empty()
    } else {
        ppm_body(rows.drop_last()) + wrap_line(row_text(rows.last()))
    }
}

/// The lines of the PPM image of a grid of pixels, header included.
pub open spec fn ppm_lines(rows: Seq<Seq<Rgb>>) -> Seq<Seq<char>>
    recommends
        rows.len() > 0,
{
    ppm_header(rows[0].len(), rows.len()) + ppm_body(rows)
}

/// A grid of `height` rows holding `width` copies of `fill` each.
pub open spec fn filled<P>(width: nat, height: nat, fill: P) -> Seq<Seq<P>> {
    Seq::new(height, |_y: int| Seq::new(width, |_x: int| fill))
}

/// A canvas: rows of pixels, the first row at the top.
#[derive(Debug)]
pub struct Canvas<P> {
    pixels: Vec<Vec<P>>,
}

impl<P> View for Canvas<P> {
    type V = Seq<Seq<P>>;

    closed spec fn view(&self) -> Seq<Seq<P>> {
        self.pixels@.map_values(|row: Vec<P>| row@)
    }
}

impl<P> Default for Canvas<P> {
    /// A canvas with no rows.
    fn default() -> (c: Canvas<P>)
        ensures
            c@ == Seq::<Seq<P>>::empty(),
    {
        let c = Canvas { pixels: Vec::new() };
        assert(c@ =~= Seq::<Seq<P>>::empty());
        c
    }
}

impl<P: Copy> Canvas<P> {
    /// A `width` x `height` canvas with every pixel set to `fill`.
    pub fn new(width: usize, height: usize, fill: P) -> (c: Canvas<P>)
        ensures
            c@ == filled(width as nat, height as nat, fill),
    {
        let mut rows: Vec<Vec<P>> = Vec::new();
        let mut y: usize = 0;
        while y < height
            invariant
                y <= height,
                rows@.len() == y,
                forall|i: int| 0 <= i < y ==> #[trigger] rows@[i]@ == Seq::new(width as nat, |_x: int| fill),
            decreases height - y,
        {
            let mut row: Vec<P> = Vec::new();
            let mut x: usize = 0;
            while x < width
                invariant
                    x <= width,
                    row@ == Seq::new(x as nat, |_x: int| fill),
                decreases width - x,
            {
                row.push(fill);
                x += 1;
                assert(row@ =~= Seq::new(x as nat, |_x: int| fill));
            }
            rows.push(row);
            y += 1;
        }
        let c = Canvas { pixels: rows };
        assert(c@ =~= filled(width as nat, height as nat, fill));
        c
    }

    /// The number of pixels in the first row.
    pub fn width(&self) -> (w: usize)
        requires
            self@.len() > 0,
        ensures
            w == self@[0].len(),
    {
        self.pixels[0].len()
    }

    /// The number of rows.
    pub fn height(&self) -> (h: usize)
        ensures
            h == self@.len(),
    {
        self.pixels.len()
    }

    /// The pixel in column `x` of row `y`.
    pub fn pixel_at(&self, x: usize, y: usize) -> (p: P)
        requires
            y < self@.len(),
            x < self@[y as int].len(),
        ensures
            p == self@[y as int][x as int],
    {
        self.pixels[y][x]
    }

    /// Sets the pixel in column `x` of row `y` to `c`.
    pub fn write(&mut self, x: usize, y: usize, c: P)
        requires
            y < old(self)@.len(),
            x < old(self)@[y as int].len(),
        ensures
            final(self)@ == old(self)@.update(y as int, old(self)@[y as int].update(x as int, c)),
    {
        self.pixels[y].set(x, c);
        assert(self@ =~= old(self)@.update(y as int, old(self)@[y as int].update(x as int, c)));
    }

    /// A canvas of the same shape whose every pixel is `f` applied to the
    /// pixel in the same place here.
    pub fn map<Q, F: Fn(P) -> Q>(&self, f: F) -> (c: Canvas<Q>)
        requires
            forall|p: P| #[trigger] f.requires((p,)),
        ensures
            c@.len() == self@.len(),
            forall|y: int| 0 <= y < self@.len() ==> #[trigger] c@[y].len() == self@[y].len(),
            forall|y: int, x: int|
                0 <= y < self@.len() && 0 <= x < self@[y].len() ==> f.ensures(
                    (self@[y][x],),
                    #[trigger] c@[y][x],
                ),
    {
        let mut rows: Vec<Vec<Q>> = Vec::new();
        let mut y: usize = 0;
        while y < self.pixels.len()
            invariant
                forall|p: P| #[trigger] f.requires((p,)),
                y <= self@.len(),
                self@.len() == self.pixels@.len(),
                rows@.len() == y,
                forall|i: int| 0 <= i < y ==> #[trigger] rows@[i]@.len() == self@[i].len(),
                forall|i: int, j: int|
                    0 <= i < y && 0 <= j < self@[i].len() ==> f.ensures(
                        (self@[i][j],),
                        #[trigger] rows@[i]@[j],
                    ),
            decreases self@.len() - y,
        {
            let src = &self.pixels[y];
            let mut row: Vec<Q> = Vec::new();
            let mut x: usize = 0;
            while x < src.len()
                invariant
                    forall|p: P| #[trigger] f.requires((p,)),
                    x <= src@.len(),
                    src@ == self@[y as int],
                    row@.len() == x,
                    forall|j: int| 0 <= j < x ==> f.ensures((src@[j],), #[trigger] row@[j]),
                decreases src@.len() - x,
            {
                let q = f(src[x]);
                row.push(q);
                x += 1;
            }
            rows.push(row);
            y += 1;
        }
        Canvas { pixels: rows }
    }
}

/// Appends the PPM text of one pixel to `out`.
fn push_pixel_text(out: &mut Vec<char>, p: Rgb)
    ensures
        final(out)@ == old(out)@ + pixel_text(p),
{
    push_decimal(out, p.red as usize);
    out.push(' ');
    push_decimal(out, p.green as usize);
    out.push(' ');
    push_decimal(out, p.blue as usize);
    assert(out@ =~= old(out)@ + pixel_text(p));
}

/// The PPM text of a row of pixels.
fn row_chars(row: &Vec<Rgb>) -> (line: Vec<char>)
    ensures
        line@ == row_text(row@),
{
    let mut line: Vec<char> = Vec::new();
    let mut x: usize = 0;
    while x < row.len()
        invariant
            x <= row@.len(),
            line@ == row_text(row@.take(x as int)),
        decreases row@.len() - x,
    {
        let ghost before = row@.take(x as int);
        if x > 0 {
            line.push(' ');
        }
        push_pixel_text(&mut line, row[x]);
        x += 1;
        assert(row@.take(x as int).drop_last() =~= before);
        assert(line@ =~= row_text(row@.take(x as int)));
    }
    assert(row@.take(row@.len() as int) =~= row@);
    line
}

/// The characters `line[from..to]` followed by a newline, as a `String`.
fn terminated_piece(line: &Vec<char>, from: usize, to: usize) -> (s: String)
    requires
        from <= to <= line@.len(),
    ensures
        s@ == line@.subrange(from as int, to as int).push('\n'),
{
    let mut piece: Vec<char> = Vec::new();
    let mut i: usize = from;
    while i < to
        invariant
            from <= i <= to <= line@.len(),
            piece@ == line@.subrange(from as int, i as int),
        decreases to - i,
    {
        piece.push(line[i]);
        i += 1;
        assert(piece@ =~= line@.subrange(from as int, i as int));
    }
    piece.push('\n');
    string_from_chars(&piece)
}

/// Appends the wrapped lines of `line` to `ppm`.
fn add_wrapped(ppm: &mut PPM, line: &Vec<char>)
    ensures
        final(ppm)@ == old(ppm)@ + wrap_line(line@),
{
    let mut start: usize = 0;
    assert(line@.skip(0) =~= line@);
    while line.len() - start > MAX_LINE
        invariant
            start <= line@.len(),
            ppm@ + wrap_line(line@.skip(start as int)) == old(ppm)@ + wrap_line(line@),
        decreases line@.len() - start,
    {
        let ghost rest = line@.skip(start as int);
        let piece = terminated_piece(line, start, start + MAX_LINE);
        assert(piece@ == rest.take(MAX_LINE as int).push('\n')) by {
            assert(line@.subrange(start as int, start + MAX_LINE) =~= rest.take(MAX_LINE as int));
        }
        ppm.add_line(piece);
        start = start + MAX_LINE;
        assert(rest.skip(MAX_LINE as int) =~= line@.skip(start as int));
        assert(ppm@ + wrap_line(line@.skip(start as int)) =~= old(ppm)@ + wrap_line(line@));
    }
    let ghost rest = line@.skip(start as int);
    let last = terminated_piece(line, start, line.len());
    assert(line@.subrange(start as int, line@.len() as int) =~= rest);
    ppm.add_line(last);
    assert(ppm@ =~= old(ppm)@ + wrap_line(line@));
}

impl Canvas<Rgb> {
    /// The canvas as a PPM image: the header, then the pixel text of each
    /// row broken into lines of at most `MAX_LINE` characters.
    pub fn to_ppm(&self) -> (ppm: PPM)
        requires
            self@.len() > 0,
        ensures
            ppm@ == ppm_lines(self@),
    {
        let mut ppm = PPM::new(self.width(), self.height());
        let mut y: usize = 0;
        assert(self@.take(0) =~= Seq::<Seq<Rgb>>::empty());
        assert(ppm@ =~= ppm_header(self@[0].len(), self@.len()) + ppm_body(self@.take(0)));
        while y < self.pixels.len()
            invariant
                y <= self@.len(),
                self@.len() == self.pixels@.len(),
                self@.len() > 0,
                ppm@ == ppm_header(self@[0].len(), self@.len()) + ppm_body(self@.take(y as int)),
            decreases self@.len() - y,
        {
            let line = row_chars(&self.pixels[y]);
            add_wrapped(&mut ppm, &line);
            y += 1;
            assert(self@.take(y as int).drop_last() =~= self@.take(y - 1));
            assert(ppm@ =~= ppm_header(self@[0].len(), self@.len()) + ppm_body(
                self@.take(y as int),
            ));
        }
        assert(self@.take(self@.len() as int) =~= self@);
        ppm
    }
}

impl Rgb {
    /// The pixel's PPM text: the three channel values in decimal.
    pub fn as_ppm_string(&self) -> (s: String)
        ensures
            s@ == pixel_text(*self),
    {
        let mut chars: Vec<char> = Vec::new();
        push_pixel_text(&mut chars, *self);
        string_from_chars(&chars)
    }
}

} // verus!

verus! {

/// Every line that `wrap_line` produces holds at most `MAX_LINE` characters
/// before its terminating newline, and ends with that newline.
pub proof fn lemma_wrapped_lines_are_short(line: Seq<char>)
    ensures
        forall|i: int|
            0 <= i < wrap_line(line).len() ==> {
                &&& 1 <= (#[trigger] wrap_line(line)[i]).len() <= MAX_LINE + 1
                &&& wrap_line(line)[i].last() == '\n'
            },
        wrap_line(line).len() > 0,
    decreases line.len(),
{
    if line.len() > MAX_LINE {
        lemma_wrapped_lines_are_short(line.skip(MAX_LINE as int));
    }
}

/// Dropping the newline from each wrapped line and joining the pieces gives
/// back the original line: wrapping loses no pixel data.
pub proof fn lemma_wrapping_is_lossless(line: Seq<char>)
    ensures
        concat(wrap_line(line).map_values(|l: Seq<char>| l.drop_last())) == line,
    decreases line.len(),
{
    let pieces = wrap_line(line).map_values(|l: Seq<char>| l.drop_last());
    if line.len() > MAX_LINE {
        let rest = line.skip(MAX_LINE as int);
        lemma_wrapping_is_lossless(rest);
        let rest_pieces = wrap_line(rest).map_values(|l: Seq<char>| l.drop_last());
        assert(line.take(MAX_LINE as int).push('\n').drop_last() =~= line.take(MAX_LINE as int));
        assert(pieces =~= seq![line.take(MAX_LINE as int)] + rest_pieces);
        lemma_concat_prepend(line.take(MAX_LINE as int), rest_pieces);
        assert(line.take(MAX_LINE as int) + rest =~= line);
    } else {
        assert(line.push('\n').drop_last() =~= line);
        assert(pieces =~= seq![line]);
        assert(pieces.drop_last() =~= Seq::<Seq<char>>::empty());
        assert(concat(pieces) == concat(pieces.drop_last()) + pieces.last());
        assert(concat(Seq::<Seq<char>>::empty()) == Seq::<char>::empty());
        assert(concat(pieces) =~= line);
    }
}

/// The body of a PPM image is made of lines of at most `MAX_LINE`
/// characters, each ending with a newline.
pub proof fn lemma_ppm_body_lines_are_short(rows: Seq<Seq<Rgb>>)
    ensures
        forall|i: int|
            0 <= i < ppm_body(rows).len() ==> {
                &&& 1 <= (#[trigger] ppm_body(rows)[i]).len() <= MAX_LINE + 1
                &&& ppm_body(rows)[i].last() == '\n'
            },
    decreases rows.len(),
{
    if rows.len() > 0 {
        lemma_ppm_body_lines_are_short(rows.drop_last());
        lemma_wrapped_lines_are_short(row_text(rows.last()));
        let a = ppm_body(rows.drop_last());
        let b = wrap_line(row_text(rows.last()));
        assert forall|i: int| 0 <= i < ppm_body(rows).len() implies {
            &&& 1 <= (#[trigger] ppm_body(rows)[i]).len() <= MAX_LINE + 1
            &&& ppm_body(rows)[i].last() == '\n'
        } by {
            if i < a.len() {
                assert(ppm_body(rows)[i] == a[i]);
            } else {
                assert(ppm_body(rows)[i] == b[i - a.len()]);
            }
        }
    }
}

/// The PPM file of a canvas ends with a newline character.
pub proof fn lemma_ppm_file_ends_with_newline(rows: Seq<Seq<Rgb>>)
    requires
        rows.len() > 0,
    ensures
        concat(ppm_lines(rows)).len() > 0,
        concat(ppm_lines(rows)).last() == '\n',
{
    let lines = ppm_lines(rows);
    let body = ppm_body(rows);
    lemma_ppm_body_lines_are_short(rows);
    lemma_wrapped_lines_are_short(row_text(rows.last()));
    assert(body.len() > 0);
    assert(lines.len() == 3 + body.len());
    assert(lines.last() == body.last());
    assert(body.last().last() == '\n');
    assert(body.last().len() >= 1);
    assert(concat(lines) == concat(lines.drop_last()) + lines.last());
    assert((concat(lines.drop_last()) + lines.last()).last() == lines.last().last());
}

/// Writing a pixel and reading it back gives the written value; every other
/// pixel, and the shape of the canvas, stay as they were.
pub proof fn lemma_read_after_write<P>(rows: Seq<Seq<P>>, x: int, y: int, c: P)
    requires
        0 <= y < rows.len(),
        0 <= x < rows[y].len(),
    ensures
        ({
            let written = rows.update(y, rows[y].update(x, c));
            &&& written.len() == rows.len()
            &&& forall|j: int| 0 <= j < rows.len() ==> #[trigger] written[j].len() == rows[j].len()
            &&& written[y][x] == c
            &&& forall|j: int, i: int|
                0 <= j < rows.len() && 0 <= i < rows[j].len() && (j != y || i != x)
                    ==> #[trigger] written[j][i] == rows[j][i]
        }),
{
}

} // verus!

verus! {

/// A new canvas is `width` pixels wide (when it has rows) and `height` rows
/// high, and every pixel is the fill value.
pub proof fn lemma_new_canvas_shape<P>(width: nat, height: nat, fill: P)
    ensures
        filled(width, height, fill).len() == height,
        forall|y: int| 0 <= y < height ==> #[trigger] filled(width, height, fill)[y].len() == width,
        forall|y: int, x: int|
            0 <= y < height && 0 <= x < width ==> #[trigger] filled(width, height, fill)[y][x] == fill,
{
}

} // verus!

verus! {

/// Lines are broken as late as allowed: every wrapped line but the last
/// holds exactly `MAX_LINE` characters before its newline, and the last
/// holds the at most `MAX_LINE` characters that remain.
pub proof fn lemma_wrapped_lines_are_full_but_last(line: Seq<char>)
    ensures
        forall|i: int|
            0 <= i < wrap_line(line).len() - 1 ==> (#[trigger] wrap_line(line)[i]).len() == MAX_LINE
                + 1,
        wrap_line(line).last().len() <= MAX_LINE + 1,
        wrap_line(line).len() > 0,
    decreases line.len(),
{
    if line.len() > MAX_LINE {
        let rest = line.skip(MAX_LINE as int);
        lemma_wrapped_lines_are_full_but_last(rest);
        let w = wrap_line(line);
        let b = wrap_line(rest);
        assert(w == seq![line.take(MAX_LINE as int).push('\n')] + b);
        assert(w.last() == b.last());
        assert forall|i: int| 0 <= i < w.len() - 1 implies (#[trigger] w[i]).len() == MAX_LINE + 1 by {
            if i > 0 {
                assert(w[i] == b[i - 1]);
            }
        }
    }
}

} // verus!

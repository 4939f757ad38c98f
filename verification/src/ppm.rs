//! Plain-text PPM (`P3`) images held as a list of lines.
use vstd::prelude::*;

use crate::text::{decimal, push_decimal, string_from_chars};

verus! {

/// All the given lines written one after another.
pub open spec fn concat(lines: Seq<Seq<char>>) -> Seq<char>
    decreases lines.len(),
{
    if lines.len() == 0 {
        Seq::empty()
    } else {
        concat(lines.drop_last()) + lines.last()
    }
}

/// The three header lines of a `P3` image of the given size with a maximum
/// colour value of 255: `P3`, `<width> <height>` and `255`, each ending in a
/// newline.
pub open spec fn ppm_header(width: nat, height: nat) -> Seq<Seq<char>> {
    seq![
        seq!['P', '3', '\n'],
        decimal(width) + seq![' '] + decimal(height) + seq!['\n'],
        seq!['2', '5', '5', '\n'],
    ]
}

/// A PPM image as the sequence of its text lines; each line carries its own
/// line terminator.
#[derive(Debug)]
pub struct PPM {
    lines: Vec<String>,
}

impl View for PPM {
    type V = Seq<Seq<char>>;

    closed spec fn view(&self) -> Seq<Seq<char>> {
        self.lines@.map_values(|l: String| l@)
    }
}

impl PPM {
    /// A PPM holding only the header for a `width` x `height` image.
    pub fn new(width: usize, height: usize) -> (ppm: PPM)
        ensures
            ppm@ == ppm_header(width as nat, height as nat),
    {
        let mut lines: Vec<String> = Vec::new();
        let magic = vec!['P', '3', '\n'];
        assert(magic@ =~= seq!['P', '3', '\n']);
        lines.push(string_from_chars(&magic));
        let mut size: Vec<char> = Vec::new();
        push_decimal(&mut size, width);
        size.push(' ');
        push_decimal(&mut size, height);
        size.push('\n');
        assert(size@ =~= decimal(width as nat) + seq![' '] + decimal(height as nat) + seq!['\n']);
        lines.push(string_from_chars(&size));
        let max = vec!['2', '5', '5', '\n'];
        assert(max@ =~= seq!['2', '5', '5', '\n']);
        lines.push(string_from_chars(&max));
        let ppm = PPM { lines };
        assert(ppm@ =~= ppm_header(width as nat, height as nat));
        ppm
    }

    /// Appends one line (which should carry its own terminator).
    pub fn add_line(&mut self, line: String)
        ensures
            final(self)@ == old(self)@.push(line@),
    {
        self.lines.push(line);
        assert(self@ =~= old(self)@.push(line@));
    }

    /// The lines with indices `start` (inclusive) to `end` (exclusive),
    /// joined.
    pub fn lines_range(&self, start: usize, end: usize) -> (s: String)
        requires
            start <= end <= self@.len(),
        ensures
            s@ == concat(self@.subrange(start as int, end as int)),
    {
        let mut s = String::new();
        let mut i: usize = start;
        assert(self@.subrange(start as int, start as int) =~= Seq::<Seq<char>>::empty());
        while i < end
            invariant
                start <= i <= end <= self@.len(),
                self@.len() == self.lines@.len(),
                s@ == concat(self@.subrange(start as int, i as int)),
            decreases end - i,
        {
            s.append(self.lines[i].as_str());
            i += 1;
            assert(self@.subrange(start as int, i as int).drop_last() =~= self@.subrange(
                start as int,
                i - 1,
            ));
        }
        s
    }

    /// The whole image file: all lines joined.
    pub fn whole_file(&self) -> (s: String)
        ensures
            s@ == concat(self@),
    {
        assert(self@.subrange(0, self@.len() as int) =~= self@);
        self.lines_range(0, self.lines.len())
    }
}

} // verus!

verus! {

/// Joining a first line with the rest is that line followed by the join
/// of the rest.
pub proof fn lemma_concat_prepend(first: Seq<char>, rest: Seq<Seq<char>>)
    ensures
        concat(seq![first] + rest) == first + concat(rest),
    decreases rest.len(),
{
    if rest.len() == 0 {
        assert(seq![first] + rest =~= seq![first]);
        assert(seq![first].drop_last() =~= Seq::<Seq<char>>::empty());
        assert(concat(Seq::<Seq<char>>::empty()) == Seq::<char>::empty());
        assert(concat(seq![first]) == concat(seq![first].drop_last()) + seq![first].last());
        assert(first + concat(rest) =~= first);
    } else {
        lemma_concat_prepend(first, rest.drop_last());
        assert((seq![first] + rest).drop_last() =~= seq![first] + rest.drop_last());
        assert((seq![first] + rest).last() == rest.last());
        assert(first + concat(rest) =~= first + concat(rest.drop_last()) + rest.last());
    }
}

/// Joining two runs of lines is joining each and putting the results
/// one after the other.
pub proof fn lemma_concat_append(a: Seq<Seq<char>>, b: Seq<Seq<char>>)
    ensures
        concat(a + b) == concat(a) + concat(b),
    decreases b.len(),
{
    if b.len() == 0 {
        assert(a + b =~= a);
        assert(concat(b) == Seq::<char>::empty());
        assert(concat(a) + concat(b) =~= concat(a));
    } else {
        lemma_concat_append(a, b.drop_last());
        assert((a + b).drop_last() =~= a + b.drop_last());
        assert((a + b).last() == b.last());
        assert(concat(a) + concat(b) =~= concat(a) + concat(b.drop_last()) + b.last());
    }
}

/// Joining a range of lines and then the range right after it is joining
/// the two ranges at once; the whole file is the range of all lines.
pub proof fn lemma_line_ranges_compose(lines: Seq<Seq<char>>, a: int, b: int, c: int)
    requires
        0 <= a <= b <= c <= lines.len(),
    ensures
        concat(lines.subrange(a, b)) + concat(lines.subrange(b, c)) == concat(lines.subrange(a, c)),
        concat(lines.subrange(0, lines.len() as int)) == concat(lines),
{
    lemma_concat_append(lines.subrange(a, b), lines.subrange(b, c));
    assert(lines.subrange(a, b) + lines.subrange(b, c) =~= lines.subrange(a, c));
    assert(lines.subrange(0, lines.len() as int) =~= lines);
}

/// Adding a line keeps the earlier lines as they were and puts the new
/// line last: the file grows by exactly that line.
pub proof fn lemma_add_line_appends(lines: Seq<Seq<char>>, line: Seq<char>)
    ensures
        lines.push(line).len() == lines.len() + 1,
        concat(lines.push(line)) == concat(lines) + line,
        concat(lines.push(line).subrange(0, lines.len() as int)) == concat(lines),
        concat(lines.push(line).subrange(lines.len() as int, lines.len() as int + 1)) == line,
{
    let all = lines.push(line);
    assert(all.drop_last() =~= lines);
    assert(all.subrange(0, lines.len() as int) =~= lines);
    let one = all.subrange(lines.len() as int, lines.len() as int + 1);
    assert(one =~= seq![line]);
    assert(one.drop_last() =~= Seq::<Seq<char>>::empty());
    assert(concat(one) == concat(one.drop_last()) + one.last());
    assert(concat(Seq::<Seq<char>>::empty()) == Seq::<char>::empty());
    assert(concat(one) =~= line);
}

/// A PPM never holds more lines than a `usize` can count, so every line
/// index and the index just past the last line can be passed to
/// `lines_range`.
pub proof fn lemma_line_count_fits(p: &PPM)
    ensures
        p@.len() <= usize::MAX,
{
    broadcast use vstd::std_specs::vec::axiom_spec_len;

    assert(p.lines.len() == p.lines@.len());
}

} // verus!

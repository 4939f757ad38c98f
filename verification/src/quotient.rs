//! The written quotients of scenario text such as `π/4`, `-√2/2`: a sign,
//! a dividend that is π or a square root, and a divisor. Evaluating them is
//! left to the caller.
use vstd::prelude::*;

use crate::call_text::{lemma_split_on_nonempty, split_on};
use crate::text::{chars_of, string_from_chars};

verus! {

/// Whether `c` has the Unicode `White_Space` property (what
/// `char::is_whitespace` tests).
pub open spec fn is_white_space(c: char) -> bool {
    ||| '\u{9}' <= c <= '\u{d}'
    ||| c == ' '
    ||| c == '\u{85}'
    ||| c == '\u{a0}'
    ||| c == '\u{1680}'
    ||| '\u{2000}' <= c <= '\u{200a}'
    ||| c == '\u{2028}'
    ||| c == '\u{2029}'
    ||| c == '\u{202f}'
    ||| c == '\u{205f}'
    ||| c == '\u{3000}'
}

/// Whether `c` is white space.
pub fn white_space(c: char) -> (b: bool)
    ensures
        b == is_white_space(c),
{
    ('\u{9}' <= c && c <= '\u{d}') || c == ' ' || c == '\u{85}' || c == '\u{a0}' || c
        == '\u{1680}' || ('\u{2000}' <= c && c <= '\u{200a}') || c == '\u{2028}' || c == '\u{2029}'
        || c == '\u{202f}' || c == '\u{205f}' || c == '\u{3000}'
}

/// `s` without its leading white space.
pub open spec fn trim_start(s: Seq<char>) -> Seq<char>
    decreases s.len(),
{
    if s.len() > 0 && is_white_space(s[0]) {
        trim_start(s.drop_first())
    } else {
        s
    }
}

/// `s` without its trailing white space.
pub open spec fn trim_end(s: Seq<char>) -> Seq<char>
    decreases s.len(),
{
    if s.len() > 0 && is_white_space(s.last()) {
        trim_end(s.drop_last())
    } else {
        s
    }
}

/// `s` without leading and trailing white space.
pub open spec fn trim(s: Seq<char>) -> Seq<char> {
    trim_end(trim_start(s))
}

/// π
pub open spec fn pi_sign() -> char {
    '\u{3c0}'
}

/// √
pub open spec fn root_sign() -> char {
    '\u{221a}'
}

/// `s` without its leading minus sign, if it has one.
pub open spec fn unsigned(s: Seq<char>) -> Seq<char> {
    if s.len() > 0 && s[0] == '-' {
        s.drop_first()
    } else {
        s
    }
}

/// The pieces of a quotient's text: sign removed, cut at every `/`.
pub open spec fn quotient_pieces(s: Seq<char>) -> Seq<Seq<char>> {
    split_on(unsigned(s), '/')
}

/// The two written parts of a quotient: the texts before the first `/` and
/// between it and the next one (or the end), trimmed.
pub open spec fn quotient_parts(s: Seq<char>) -> (Seq<char>, Seq<char>) {
    let parts = quotient_pieces(s);
    (trim(parts[0]), trim(parts[1]))
}

/// The message for a text without a `/`.
pub open spec fn bad_format_message() -> Seq<char> {
    seq!['b', 'a', 'd', ' ', 'f', 'o', 'r', 'm', 'a', 't']
}

/// The message for a dividend that is neither π nor a square root.
pub open spec fn bad_dividend_message(dividend: Seq<char>) -> Seq<char> {
    seq!['b', 'a', 'd', ' ', 'd', 'i', 'v', 'i', 'd', 'e', 'n', 'd', ':', ' '] + dividend
}

/// The dividend of a written quotient.
#[derive(Debug, Clone, PartialEq, Eq)]
pub enum Dividend {
    /// π
    Pi,
    /// The square root of the number written after `√`.
    SquareRoot(String),
}

/// A written quotient: an optional minus sign, a dividend and the text of
/// the divisor.
#[derive(Debug, Clone, PartialEq, Eq)]
pub struct Quotient {
    pub negated: bool,
    pub dividend: Dividend,
    pub divisor: String,
}

/// The characters `s[from..]`.
fn tail_chars(s: &Vec<char>, from: usize) -> (t: Vec<char>)
    requires
        from <= s@.len(),
    ensures
        t@ == s@.skip(from as int),
{
    let mut t: Vec<char> = Vec::new();
    let mut i: usize = from;
    while i < s.len()
        invariant
            from <= i <= s@.len(),
            t@ == s@.subrange(from as int, i as int),
        decreases s@.len() - i,
    {
        t.push(s[i]);
        i += 1;
        assert(t@ =~= s@.subrange(from as int, i as int));
    }
    assert(t@ =~= s@.skip(from as int));
    t
}

/// `s` trimmed of white space at both ends.
fn trimmed(s: &Vec<char>) -> (t: Vec<char>)
    ensures
        t@ == trim(s@),
{
    let mut start: usize = 0;
    assert(s@.skip(0) =~= s@);
    while start < s.len() && white_space(s[start])
        invariant
            start <= s@.len(),
            trim_start(s@.skip(start as int)) == trim_start(s@),
        decreases s@.len() - start,
    {
        assert(s@.skip(start as int).drop_first() =~= s@.skip(start + 1));
        start += 1;
    }
    let front = tail_chars(s, start);
    assert(trim_start(front@) == front@);
    let mut end: usize = front.len();
    assert(front@.take(end as int) =~= front@);
    while end > 0 && white_space(front[end - 1])
        invariant
            end <= front@.len(),
            trim_end(front@.take(end as int)) == trim_end(front@),
        decreases end,
    {
        assert(front@.take(end as int).drop_last() =~= front@.take(end - 1));
        end -= 1;
    }
    let mut t: Vec<char> = Vec::new();
    let mut i: usize = 0;
    while i < end
        invariant
            i <= end <= front@.len(),
            t@ == front@.take(i as int),
        decreases end - i,
    {
        t.push(front[i]);
        i += 1;
        assert(t@ =~= front@.take(i as int));
    }
    t
}

/// The pieces of `s` between occurrences of `sep`.
fn pieces_of(s: &Vec<char>, sep: char) -> (pieces: Vec<Vec<char>>)
    ensures
        pieces@.map_values(|v: Vec<char>| v@) == split_on(s@, sep),
{
    let mut done: Vec<Vec<char>> = Vec::new();
    let mut piece: Vec<char> = Vec::new();
    let mut j: usize = 0;
    assert(s@.take(0) =~= Seq::<char>::empty());
    while j < s.len()
        invariant
            j <= s@.len(),
            done@.map_values(|v: Vec<char>| v@).push(piece@) == split_on(s@.take(j as int), sep),
        decreases s@.len() - j,
    {
        proof {
            lemma_split_on_nonempty(s@.take(j as int), sep);
        }
        if s[j] == sep {
            done.push(piece);
            piece = Vec::new();
        } else {
            piece.push(s[j]);
        }
        j += 1;
        assert(s@.take(j as int).drop_last() =~= s@.take(j - 1));
        assert(done@.map_values(|v: Vec<char>| v@).push(piece@) =~= split_on(
            s@.take(j as int),
            sep,
        ));
    }
    assert(s@.take(s@.len() as int) =~= s@);
    let ghost before = done@;
    done.push(piece);
    assert(done@.map_values(|v: Vec<char>| v@) =~= before.map_values(|v: Vec<char>| v@).push(
        piece@,
    ));
    done
}

/// Reads a written quotient `[-]D/V`: its sign, a dividend `D` that is `π`
/// or `√n`, and the divisor text `V` (up to a further `/`, if any); both
/// parts are trimmed of white space. A text without `/` is the error
/// `bad format`; a dividend of any other form is the error `bad dividend: D`.
pub fn read_quotient(s: &str) -> (r: Result<Quotient, String>)
    ensures
        quotient_pieces(s@).len() < 2 ==> (r matches Err(e) && e@ == bad_format_message()),
        quotient_pieces(s@).len() >= 2 ==> ({
            let (dividend, divisor) = quotient_parts(s@);
            let negated = s@.len() > 0 && s@[0] == '-';
            if dividend == seq![pi_sign()] {
                r matches Ok(q) && q.negated == negated && q.dividend == Dividend::Pi && q.divisor@
                    == divisor
            } else if dividend.len() > 0 && dividend[0] == root_sign() {
                r matches Ok(q) && q.negated == negated && q.divisor@ == divisor && (
                q.dividend matches Dividend::SquareRoot(operand) && operand@ == dividend.drop_first())
            } else {
                r matches Err(e) && e@ == bad_dividend_message(dividend)
            }
        }),
{
    let chars = chars_of(s);
    let negated = chars.len() > 0 && chars[0] == '-';
    let rest = if negated {
        tail_chars(&chars, 1)
    } else {
        tail_chars(&chars, 0)
    };
    assert(rest@ == unsigned(s@)) by {
        assert(chars@.skip(0) =~= chars@);
    }
    let pieces = pieces_of(&rest, '/');
    let ghost views = pieces@.map_values(|v: Vec<char>| v@);
    if pieces.len() < 2 {
        assert(views.len() == pieces@.len());
        let message = vec!['b', 'a', 'd', ' ', 'f', 'o', 'r', 'm', 'a', 't'];
        assert(message@ =~= bad_format_message());
        return Err(string_from_chars(&message));
    }
    assert(views[0] == pieces@[0]@ && views[1] == pieces@[1]@);
    let dividend = trimmed(&pieces[0]);
    let divisor_chars = trimmed(&pieces[1]);
    let divisor = string_from_chars(&divisor_chars);
    if dividend.len() == 1 && dividend[0] == '\u{3c0}' {
        assert(dividend@ =~= seq![pi_sign()]);
        Ok(Quotient { negated, dividend: Dividend::Pi, divisor })
    } else if dividend.len() > 0 && dividend[0] == '\u{221a}' {
        assert(dividend@ != seq![pi_sign()]);
        let operand = string_from_chars(&tail_chars(&dividend, 1));
        assert(dividend@.skip(1) =~= dividend@.drop_first());
        Ok(Quotient { negated, dividend: Dividend::SquareRoot(operand), divisor })
    } else {
        assert(dividend@ != seq![pi_sign()]) by {
            if dividend@.len() == 1 {
                assert(dividend@[0] != pi_sign());
            }
        }
        let mut message = vec!['b', 'a', 'd', ' ', 'd', 'i', 'v', 'i', 'd', 'e', 'n', 'd', ':', ' '];
        assert(message@ =~= seq!['b', 'a', 'd', ' ', 'd', 'i', 'v', 'i', 'd', 'e', 'n', 'd', ':', ' ']);
        let mut i: usize = 0;
        let ghost head = message@;
        while i < dividend.len()
            invariant
                i <= dividend@.len(),
                message@ == head + dividend@.take(i as int),
            decreases dividend@.len() - i,
        {
            message.push(dividend[i]);
            i += 1;
            assert(message@ =~= head + dividend@.take(i as int));
        }
        assert(dividend@.take(dividend@.len() as int) =~= dividend@);
        Err(string_from_chars(&message))
    }
}

} // verus!

verus! {

/// A leading minus sign is only a sign: a quotient written `-t` (with `t`
/// not itself starting with `-`) has exactly the pieces, dividend and divisor
/// of `t`, whatever `t` begins with.
pub proof fn lemma_minus_sign_only_negates(t: Seq<char>)
    requires
        t.len() == 0 || t[0] != '-',
    ensures
        quotient_pieces(seq!['-'] + t) == split_on(t, '/'),
        quotient_pieces(seq!['-'] + t) == quotient_pieces(t),
        quotient_pieces(t).len() >= 2 ==> quotient_parts(seq!['-'] + t) == quotient_parts(t),
{
    assert((seq!['-'] + t).drop_first() =~= t);
    assert((seq!['-'] + t)[0] == '-');
}

} // verus!

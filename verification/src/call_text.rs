//! The text forms `color(r, g, b)`, `point(x, y, z)`, `vector(x, y, z)`
//! and `tuple(x, y, z, w)`: finding the argument list and cutting it into
//! the argument texts. Reading each argument as a number is left to the
//! caller.
use vstd::prelude::*;

use crate::text::{chars_of, string_from_chars};

verus! {

/// The result of compiling `pattern` with the `regex` crate and searching
/// `text` with it: `None` when the pattern does not compile, `Some(None)`
/// when there is no match (or capture group 1 takes no part in it), and
/// `Some(Some(g))` where `g` is the text of capture group 1 of the first
/// match.
pub uninterp spec fn regex_first_group(pattern: Seq<char>, text: Seq<char>) -> Option<
    Option<Seq<char>>,
>;

/// The name a call is written with, for the two call patterns searched for
/// here: nothing (a bare argument list) or `color`.
pub open spec fn color_word() -> Seq<char> {
    seq!['c', 'o', 'l', 'o', 'r']
}

/// The regular expression `<word>\((.+)\)`: the word, an opening
/// parenthesis, a captured run of at least one character, and a closing
/// parenthesis.
pub open spec fn regex_call_pattern(word: Seq<char>) -> Seq<char> {
    word + seq!['\\', '('] + seq!['(', '.', '+', ')'] + seq!['\\', ')']
}

/// Whether `s` holds `word(` at position `i`.
pub open spec fn opens_at(s: Seq<char>, word: Seq<char>, i: int) -> bool {
    0 <= i && i + word.len() + 1 <= s.len() && s.subrange(i, i + word.len() + 1) == word.push('(')
}

/// Whether the character at `j` is a `)` that can end an argument list
/// starting at `g`: the list is not empty and holds no newline (the regex
/// `.` matches anything but a newline).
pub open spec fn closes_at(s: Seq<char>, g: int, j: int) -> bool {
    &&& 0 <= g < j < s.len()
    &&& s[j] == ')'
    &&& forall|k: int| g <= k < j ==> #[trigger] s[k] != '\n'
}

/// Whether a call `word(...)` written at `i` is complete.
pub open spec fn call_at(s: Seq<char>, word: Seq<char>, i: int) -> bool {
    opens_at(s, word, i) && exists|j: int| #[trigger] closes_at(s, i + word.len() + 1, j)
}

/// The argument list of the first complete call `word(...)` in `s`, as the
/// regex search finds it (leftmost start, then the longest list): from just
/// after the `(` of the leftmost complete call to the last `)` that ends a
/// list there; `None` when `s` holds no complete call.
pub open spec fn call_argument_list(s: Seq<char>, word: Seq<char>) -> Option<Seq<char>> {
    if exists|i: int| #[trigger] call_at(s, word, i) {
        let i = choose|i: int|
            #[trigger] call_at(s, word, i) && forall|i2: int| i2 < i ==> !#[trigger] call_at(s, word, i2);
        let g = i + word.len() + 1;
        let j = choose|j: int|
            #[trigger] closes_at(s, g, j) && forall|j2: int| j < j2 ==> !#[trigger] closes_at(s, g, j2);
        Some(s.subrange(g, j))
    } else {
        None
    }
}

/// The views of the strings inside a nested option.
pub open spec fn nested_view(r: Option<Option<String>>) -> Option<Option<Seq<char>>> {
    match r {
        None => None,
        Some(None) => Some(None),
        Some(Some(g)) => Some(Some(g@)),
    }
}

/// Compiles `pattern` with `regex::Regex::new` and, when that succeeds,
/// searches `text` with `Regex::captures`, returning the text of capture
/// group 1 (`Captures::get(1)`, `Match::as_str`). The contract claims that
/// the result is the one `regex_first_group` names for these two strings,
/// and, for the two patterns `\((.+)\)` and `color\((.+)\)`, what the regex
/// crate documents: the patterns compile, the search is leftmost-first,
/// `.+` is greedy and `.` matches any character but a newline, so group 1
/// is `call_argument_list`. For other patterns it says nothing more.
#[verifier::external_body]
fn first_group(pattern: &str, text: &str) -> (r: Option<Option<String>>)
    ensures
        nested_view(r) == regex_first_group(pattern@, text@),
        pattern@ == regex_call_pattern(Seq::empty()) ==> nested_view(r) == Some(
            call_argument_list(text@, Seq::empty()),
        ),
        pattern@ == regex_call_pattern(color_word()) ==> nested_view(r) == Some(
            call_argument_list(text@, color_word()),
        ),
{
    match regex::Regex::new(pattern) {
        Ok(re) => match re.captures(text) {
            Some(caps) => match caps.get(1) {
                Some(m) => Some(Some(m.as_str().to_string())),
                None => Some(None),
            },
            None => Some(None),
        },
        Err(_) => None,
    }
}

/// The pattern that finds the arguments of `color(...)`: `color\((.+)\)`.
pub open spec fn color_pattern() -> Seq<char> {
    seq!['c', 'o', 'l', 'o', 'r', '\\', '(', '(', '.', '+', ')', '\\', ')']
}

/// The pattern that finds a parenthesised argument list: `\((.+)\)`.
pub open spec fn parens_pattern() -> Seq<char> {
    seq!['\\', '(', '(', '.', '+', ')', '\\', ')']
}

/// `s` with every space removed.
pub open spec fn without_spaces(s: Seq<char>) -> Seq<char>
    decreases s.len(),
{
    if s.len() == 0 {
        s
    } else if s.last() == ' ' {
        without_spaces(s.drop_last())
    } else {
        without_spaces(s.drop_last()).push(s.last())
    }
}

/// The pieces of `s` between occurrences of `sep`; `n` separators give
/// `n + 1` pieces, some possibly empty.
pub open spec fn split_on(s: Seq<char>, sep: char) -> Seq<Seq<char>>
    decreases s.len(),
{
    if s.len() == 0 {
        seq![Seq::empty()]
    } else {
        let pieces = split_on(s.drop_last(), sep);
        if s.last() == sep {
            pieces.push(Seq::empty())
        } else {
            pieces.update(pieces.len() - 1, pieces.last().push(s.last()))
        }
    }
}

/// The argument texts of an argument list: spaces dropped, then cut at
/// every comma.
pub open spec fn argument_texts(list: Seq<char>) -> Seq<Seq<char>> {
    split_on(without_spaces(list), ',')
}

/// The views of a vector of strings.
pub open spec fn views(v: Seq<String>) -> Seq<Seq<char>> {
    v.map_values(|s: String| s@)
}

/// There is always at least one piece.
pub proof fn lemma_split_on_nonempty(s: Seq<char>, sep: char)
    ensures
        split_on(s, sep).len() > 0,
    decreases s.len(),
{
    if s.len() > 0 {
        lemma_split_on_nonempty(s.drop_last(), sep);
    }
}

/// The argument texts of the argument list `list`.
pub fn split_arguments(list: &str) -> (args: Vec<String>)
    ensures
        views(args@) == argument_texts(list@),
{
    let chars = chars_of(list);
    let mut compact: Vec<char> = Vec::new();
    let mut i: usize = 0;
    assert(chars@.take(0) =~= Seq::<char>::empty());
    while i < chars.len()
        invariant
            i <= chars@.len(),
            compact@ == without_spaces(chars@.take(i as int)),
        decreases chars@.len() - i,
    {
        if chars[i] != ' ' {
            compact.push(chars[i]);
        }
        i += 1;
        assert(chars@.take(i as int).drop_last() =~= chars@.take(i - 1));
    }
    assert(chars@.take(chars@.len() as int) =~= chars@);
    let mut args: Vec<String> = Vec::new();
    let mut piece: Vec<char> = Vec::new();
    let mut j: usize = 0;
    assert(compact@.take(0) =~= Seq::<char>::empty());
    while j < compact.len()
        invariant
            j <= compact@.len(),
            views(args@).push(piece@) == split_on(compact@.take(j as int), ','),
        decreases compact@.len() - j,
    {
        proof {
            lemma_split_on_nonempty(compact@.take(j as int), ',');
        }
        let c = compact[j];
        if c == ',' {
            let s = string_from_chars(&piece);
            args.push(s);
            piece = Vec::new();
        } else {
            piece.push(c);
        }
        j += 1;
        assert(compact@.take(j as int).drop_last() =~= compact@.take(j - 1));
        assert(views(args@).push(piece@) =~= split_on(compact@.take(j as int), ','));
    }
    assert(compact@.take(compact@.len() as int) =~= compact@);
    let s = string_from_chars(&piece);
    args.push(s);
    assert(views(args@) =~= argument_texts(list@));
    args
}

/// The argument texts of `color(...)` text: the arguments inside the
/// outermost parentheses after `color` (as found by `color_pattern`), or
/// the text itself as the error when there are none.
pub fn color_text_arguments(s: &str) -> (r: Result<Vec<String>, String>)
    ensures
        match regex_first_group(color_pattern(), s@) {
            Some(Some(list)) => r matches Ok(args) && views(args@) == argument_texts(list),
            _ => r matches Err(e) && e@ == s@,
        },
        match call_argument_list(s@, color_word()) {
            Some(list) => r matches Ok(args) && views(args@) == argument_texts(list),
            None => r matches Err(e) && e@ == s@,
        },
{
    let pattern = "color\\((.+)\\)";
    proof {
        reveal_strlit("color\\((.+)\\)");
    }
    assert(pattern@ =~= color_pattern());
    assert(color_pattern() =~= regex_call_pattern(color_word()));
    match first_group(pattern, s) {
        Some(Some(list)) => Ok(split_arguments(list.as_str())),
        _ => Err(s.to_owned()),
    }
}

/// Which kind of tuple a text names by its first word.
#[derive(Clone, Copy, Debug, PartialEq, Eq, Structural)]
pub enum TupleKind {
    /// `tuple(x, y, z, w)`
    Tuple,
    /// `point(x, y, z)`: `w` is 1
    Point,
    /// `vector(x, y, z)`: `w` is 0
    Vector,
}

/// Whether `s` begins with `prefix`.
pub open spec fn starts_with(s: Seq<char>, prefix: Seq<char>) -> bool {
    prefix.len() <= s.len() && s.take(prefix.len() as int) == prefix
}

/// The kind a text names by its beginning: `tuple`, `point` or `vector`,
/// tried in that order.
pub open spec fn tuple_kind(s: Seq<char>) -> Option<TupleKind> {
    if starts_with(s, seq!['t', 'u', 'p', 'l', 'e']) {
        Some(TupleKind::Tuple)
    } else if starts_with(s, seq!['p', 'o', 'i', 'n', 't']) {
        Some(TupleKind::Point)
    } else if starts_with(s, seq!['v', 'e', 'c', 't', 'o', 'r']) {
        Some(TupleKind::Vector)
    } else {
        None
    }
}

/// Whether the characters `s` begin with `prefix`.
fn begins_with(s: &Vec<char>, prefix: &Vec<char>) -> (b: bool)
    ensures
        b == starts_with(s@, prefix@),
{
    if prefix.len() > s.len() {
        return false;
    }
    let mut i: usize = 0;
    while i < prefix.len()
        invariant
            prefix@.len() <= s@.len(),
            i <= prefix@.len(),
            forall|k: int| 0 <= k < i ==> s@[k] == prefix@[k],
        decreases prefix@.len() - i,
    {
        if s[i] != prefix[i] {
            assert(s@.take(prefix@.len() as int)[i as int] != prefix@[i as int]);
            return false;
        }
        i += 1;
    }
    assert(s@.take(prefix@.len() as int) =~= prefix@);
    true
}

/// The kind named at the beginning of `s`.
pub fn kind_of(s: &str) -> (k: Option<TupleKind>)
    ensures
        k == tuple_kind(s@),
{
    let chars = chars_of(s);
    let tuple_word = vec!['t', 'u', 'p', 'l', 'e'];
    let point_word = vec!['p', 'o', 'i', 'n', 't'];
    let vector_word = vec!['v', 'e', 'c', 't', 'o', 'r'];
    assert(tuple_word@ =~= seq!['t', 'u', 'p', 'l', 'e']);
    assert(point_word@ =~= seq!['p', 'o', 'i', 'n', 't']);
    assert(vector_word@ =~= seq!['v', 'e', 'c', 't', 'o', 'r']);
    if begins_with(&chars, &tuple_word) {
        Some(TupleKind::Tuple)
    } else if begins_with(&chars, &point_word) {
        Some(TupleKind::Point)
    } else if begins_with(&chars, &vector_word) {
        Some(TupleKind::Vector)
    } else {
        None
    }
}

/// The kind and argument texts of `tuple(...)`, `point(...)` or
/// `vector(...)` text, or the text itself as the error when it has no
/// parenthesised arguments (as found by `parens_pattern`) or does not begin
/// with one of the three words.
pub fn tuple_text_arguments(s: &str) -> (r: Result<(TupleKind, Vec<String>), String>)
    ensures
        match (regex_first_group(parens_pattern(), s@), tuple_kind(s@)) {
            (Some(Some(list)), Some(kind)) => r matches Ok((k, args)) && k == kind && views(args@)
                == argument_texts(list),
            _ => r matches Err(e) && e@ == s@,
        },
        match (call_argument_list(s@, Seq::empty()), tuple_kind(s@)) {
            (Some(list), Some(kind)) => r matches Ok((k, args)) && k == kind && views(args@)
                == argument_texts(list),
            _ => r matches Err(e) && e@ == s@,
        },
{
    let pattern = "\\((.+)\\)";
    proof {
        reveal_strlit("\\((.+)\\)");
    }
    assert(pattern@ =~= parens_pattern());
    assert(parens_pattern() =~= regex_call_pattern(Seq::<char>::empty()));
    match first_group(pattern, s) {
        Some(Some(list)) => {
            let args = split_arguments(list.as_str());
            match kind_of(s) {
                Some(kind) => Ok((kind, args)),
                None => Err(s.to_owned()),
            }
        },
        _ => Err(s.to_owned()),
    }
}

} // verus!

verus! {

/// The pieces written one after another with `sep` between each two.
pub open spec fn join_with(pieces: Seq<Seq<char>>, sep: char) -> Seq<char>
    decreases pieces.len(),
{
    if pieces.len() == 0 {
        Seq::empty()
    } else if pieces.len() == 1 {
        pieces[0]
    } else {
        join_with(pieces.drop_last(), sep) + seq![sep] + pieces.last()
    }
}

/// Cutting at a separator loses nothing: the pieces joined again with the
/// separator give back the text, and no piece holds the separator.
pub proof fn lemma_split_then_join(s: Seq<char>, sep: char)
    ensures
        join_with(split_on(s, sep), sep) == s,
        forall|i: int| 0 <= i < split_on(s, sep).len() ==> !(#[trigger] split_on(s, sep)[i]).contains(sep),
    decreases s.len(),
{
    if s.len() == 0 {
        assert(split_on(s, sep) =~= seq![Seq::<char>::empty()]);
        assert(join_with(split_on(s, sep), sep) =~= s);
        assert forall|i: int| 0 <= i < split_on(s, sep).len() implies !(#[trigger] split_on(s, sep)[i]).contains(sep) by {
            assert(split_on(s, sep)[i] =~= Seq::<char>::empty());
        }
    } else {
        let init = s.drop_last();
        let c = s.last();
        let p = split_on(init, sep);
        lemma_split_then_join(init, sep);
        lemma_split_on_nonempty(init, sep);
        assert(init.push(c) =~= s);
        if c == sep {
            let q = p.push(Seq::<char>::empty());
            assert(q.drop_last() =~= p);
            assert(join_with(q, sep) =~= join_with(p, sep) + seq![sep]);
            assert forall|i: int| 0 <= i < q.len() implies !(#[trigger] q[i]).contains(sep) by {
                if i == q.len() - 1 {
                    assert(q[i] =~= Seq::<char>::empty());
                } else {
                    assert(q[i] == p[i]);
                }
            }
        } else {
            let q = p.update(p.len() - 1, p.last().push(c));
            if p.len() == 1 {
                assert(join_with(p, sep) == p[0]);
                assert(join_with(q, sep) == q[0]);
            } else {
                assert(q.drop_last() =~= p.drop_last());
                assert(join_with(q, sep) =~= join_with(p.drop_last(), sep) + seq![sep] + p.last().push(c));
            }
            assert forall|i: int| 0 <= i < q.len() implies !(#[trigger] q[i]).contains(sep) by {
                if i == q.len() - 1 {
                    assert(!p[i].contains(sep));
                    if q[i].contains(sep) {
                        let k = choose|k: int| 0 <= k < q[i].len() && q[i][k] == sep;
                        if k < p[i].len() {
                            assert(p[i][k] == sep);
                        }
                    }
                } else {
                    assert(q[i] == p[i]);
                }
            }
        }
    }
}

} // verus!

verus! {

/// When the only call `word(` in `s` starts at `i` and the text after its
/// `(` is a non-empty list `a` without newlines followed by a final `)`, the
/// argument list found is `a`.
proof fn lemma_single_call_list(s: Seq<char>, word: Seq<char>, i: int, a: Seq<char>)
    requires
        opens_at(s, word, i),
        forall|i2: int| i2 < i ==> !opens_at(s, word, i2),
        a.len() > 0,
        forall|k: int| 0 <= k < a.len() ==> a[k] != '\n',
        s.len() == i + word.len() + 1 + a.len() + 1,
        s.subrange(i + word.len() + 1, s.len() - 1) == a,
        s.last() == ')',
    ensures
        call_argument_list(s, word) == Some(a),
{
    let g = i + word.len() + 1;
    let j0 = s.len() - 1;
    assert forall|k: int| g <= k < j0 implies #[trigger] s[k] != '\n' by {
        assert(s[k] == a[k - g]);
    }
    assert(closes_at(s, g, j0));
    assert(call_at(s, word, i));
    assert forall|i2: int| i2 < i implies !#[trigger] call_at(s, word, i2) by {}
    let ci = choose|ci: int|
        #[trigger] call_at(s, word, ci) && forall|i2: int| i2 < ci ==> !#[trigger] call_at(s, word, i2);
    assert(call_at(s, word, ci) && forall|i2: int| i2 < ci ==> !#[trigger] call_at(s, word, i2));
    if ci < i {
        assert(!call_at(s, word, ci));
    }
    if ci > i {
        assert(!call_at(s, word, i));
    }
    assert(ci == i);
    assert forall|j2: int| j0 < j2 implies !#[trigger] closes_at(s, g, j2) by {}
    let cj = choose|cj: int|
        #[trigger] closes_at(s, g, cj) && forall|j2: int| cj < j2 ==> !#[trigger] closes_at(s, g, j2);
    assert(closes_at(s, g, cj) && forall|j2: int| cj < j2 ==> !#[trigger] closes_at(s, g, j2));
    if cj < j0 {
        assert(!closes_at(s, g, j0));
    }
    assert(cj == j0);
}

/// Colour text `color(a)` reads as exactly the argument list `a`, whatever
/// `a` holds (a leading minus sign, more parentheses), as long as it is not
/// empty and holds no newline.
pub proof fn lemma_color_text_reads_its_arguments(a: Seq<char>)
    requires
        a.len() > 0,
        forall|k: int| 0 <= k < a.len() ==> a[k] != '\n',
    ensures
        call_argument_list(color_word().push('(') + a + seq![')'], color_word()) == Some(a),
{
    let s = color_word().push('(') + a + seq![')'];
    assert(s.subrange(0, 6) =~= color_word().push('('));
    assert(s.subrange(6, s.len() - 1) =~= a);
    lemma_single_call_list(s, color_word(), 0, a);
}

/// The first word of tuple text and the kind it names.
pub open spec fn kind_word(kind: TupleKind) -> Seq<char> {
    match kind {
        TupleKind::Tuple => seq!['t', 'u', 'p', 'l', 'e'],
        TupleKind::Point => seq!['p', 'o', 'i', 'n', 't'],
        TupleKind::Vector => seq!['v', 'e', 'c', 't', 'o', 'r'],
    }
}

/// A word without `(` followed by `(a)`: the argument list found is `a`.
proof fn lemma_word_call_list(w: Seq<char>, a: Seq<char>)
    requires
        !w.contains('('),
        a.len() > 0,
        forall|k: int| 0 <= k < a.len() ==> a[k] != '\n',
    ensures
        call_argument_list(w.push('(') + a + seq![')'], Seq::empty()) == Some(a),
{
    let s = w.push('(') + a + seq![')'];
    let e = Seq::<char>::empty();
    assert(e.push('(') =~= seq!['(']);
    assert(s.subrange(w.len() as int, w.len() as int + 1) =~= e.push('('));
    assert forall|i2: int| i2 < w.len() implies !opens_at(s, e, i2) by {
        if 0 <= i2 {
            assert(s.subrange(i2, i2 + 1)[0] == s[i2]);
            assert(s[i2] == w[i2]);
        }
    }
    assert forall|i2: int| i2 < w.len() as int implies !opens_at(s, e, i2) by {}
    assert(s.subrange(w.len() as int + 1, s.len() - 1) =~= a);
    lemma_single_call_list(s, e, w.len() as int, a);
}

/// The kind word of tuple text has no parenthesis, and text starting with
/// it names that kind.
proof fn lemma_kind_word(kind: TupleKind, rest: Seq<char>)
    ensures
        !kind_word(kind).contains('('),
        tuple_kind(kind_word(kind) + rest) == Some(kind),
{
    let w = kind_word(kind);
    let s = w + rest;
    assert(!w.contains('(')) by {
        if w.contains('(') {
            let k = choose|k: int| 0 <= k < w.len() && w[k] == '(';
        }
    }
    let tw = seq!['t', 'u', 'p', 'l', 'e'];
    let pw = seq!['p', 'o', 'i', 'n', 't'];
    let vw = seq!['v', 'e', 'c', 't', 'o', 'r'];
    match kind {
        TupleKind::Tuple => {
            assert(s.take(5) =~= tw);
        },
        TupleKind::Point => {
            assert(s.take(5) =~= pw);
            assert(s.take(5)[0] != tw[0]);
        },
        TupleKind::Vector => {
            assert(s.take(6) =~= vw);
            assert(s.take(5)[0] != tw[0]);
            assert(s.take(5)[0] != pw[0]);
        },
    }
}

/// Tuple text `kind(a)` (`tuple`, `point` or `vector`) reads as that kind
/// and exactly the argument list `a`, whatever `a` holds (a leading minus
/// sign, more parentheses), as long as it is not empty and holds no newline.
pub proof fn lemma_tuple_text_reads_its_kind_and_arguments(kind: TupleKind, a: Seq<char>)
    requires
        a.len() > 0,
        forall|k: int| 0 <= k < a.len() ==> a[k] != '\n',
    ensures
        call_argument_list(kind_word(kind).push('(') + a + seq![')'], Seq::empty()) == Some(a),
        tuple_kind(kind_word(kind).push('(') + a + seq![')']) == Some(kind),
{
    let w = kind_word(kind);
    let rest = seq!['('] + a + seq![')'];
    lemma_kind_word(kind, rest);
    assert(w.push('(') + a + seq![')'] =~= w + rest);
    lemma_word_call_list(w, a);
}

} // verus!

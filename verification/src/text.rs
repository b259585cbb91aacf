//! Operations on text.
//!
//! Text is modelled by its characters, `Seq<char>`. Where a limit counts bytes,
//! the model goes through the UTF-8 encoding of vstd.

use vstd::prelude::*;
use vstd::string::*;
use vstd::utf8::*;

verus! {

// ---------------------------------------------------------------------------
// Characters
// ---------------------------------------------------------------------------

/// `String::push` appends one character to the end of the string.
pub assume_specification[ String::push ](s: &mut String, c: char)
    ensures
        final(s)@ == old(s)@.push(c),
;

/// The characters with the Unicode property `White_Space`.
pub open spec fn is_white(c: char) -> bool {
    ('\u{9}' <= c && c <= '\u{d}') || c == '\u{20}' || c == '\u{85}' || c == '\u{a0}'
        || c == '\u{1680}' || ('\u{2000}' <= c && c <= '\u{200a}') || c == '\u{2028}'
        || c == '\u{2029}' || c == '\u{202f}' || c == '\u{205f}' || c == '\u{3000}'
}

/// Tells whether `c` is white space.
pub fn white(c: char) -> (r: bool)
    ensures
        r == is_white(c),
{
    ('\u{9}' <= c && c <= '\u{d}') || c == '\u{20}' || c == '\u{85}' || c == '\u{a0}'
        || c == '\u{1680}' || ('\u{2000}' <= c && c <= '\u{200a}') || c == '\u{2028}'
        || c == '\u{2029}' || c == '\u{202f}' || c == '\u{205f}' || c == '\u{3000}'
}

/// The ASCII letters and digits.
pub open spec fn is_alnum(c: char) -> bool {
    ('a' <= c && c <= 'z') || ('A' <= c && c <= 'Z') || ('0' <= c && c <= '9')
}

/// Tells whether `c` is an ASCII letter or digit.
pub fn alnum(c: char) -> (r: bool)
    ensures
        r == is_alnum(c),
{
    ('a' <= c && c <= 'z') || ('A' <= c && c <= 'Z') || ('0' <= c && c <= '9')
}

/// The characters of `s`.
pub fn chars_of(s: &str) -> (v: Vec<char>)
    ensures
        v@ == s@,
{
    let mut v: Vec<char> = Vec::new();
    for c in it: s.chars()
        invariant
            v@ == it.seq().take(it.index@),
            it.seq() == s@,
    {
        v.push(c);
    }
    v
}

/// The string made of the characters of `v` from `from` up to `to`.
pub fn string_of(v: &Vec<char>, from: usize, to: usize) -> (s: String)
    requires
        from <= to <= v@.len(),
    ensures
        s@ == v@.subrange(from as int, to as int),
{
    let mut s = String::new();
    let mut i: usize = from;
    while i < to
        invariant
            from <= i <= to <= v@.len(),
            s@ == v@.subrange(from as int, i as int),
        decreases to - i,
    {
        s.push(v[i]);
        proof {
            assert(v@.subrange(from as int, i + 1) =~= v@.subrange(from as int, i as int).push(
                v@[i as int],
            ));
        }
        i = i + 1;
    }
    s
}

/// Tells whether two strings hold the same text.
pub fn str_eq(a: &str, b: &str) -> (r: bool)
    ensures
        r == (a@ == b@),
{
    let x = a.as_bytes();
    let y = b.as_bytes();
    proof {
        encode_utf8_decode_utf8(a@);
        encode_utf8_decode_utf8(b@);
    }
    if x.len() != y.len() {
        return false;
    }
    let mut i: usize = 0;
    while i < x.len()
        invariant
            x@.len() == y@.len(),
            i <= x@.len(),
            x@ == encode_utf8(a@),
            y@ == encode_utf8(b@),
            forall|k: int| 0 <= k < i ==> x@[k] == y@[k],
        decreases x.len() - i,
    {
        if x[i] != y[i] {
            return false;
        }
        i = i + 1;
    }
    assert(x@ =~= y@);
    true
}

// ---------------------------------------------------------------------------
// Numbers as text
// ---------------------------------------------------------------------------

/// The decimal digit for a number below ten.
pub open spec fn digit_char(d: nat) -> char {
    if d == 0 {
        '0'
    } else if d == 1 {
        '1'
    } else if d == 2 {
        '2'
    } else if d == 3 {
        '3'
    } else if d == 4 {
        '4'
    } else if d == 5 {
        '5'
    } else if d == 6 {
        '6'
    } else if d == 7 {
        '7'
    } else if d == 8 {
        '8'
    } else {
        '9'
    }
}

/// The decimal text of a natural number, without leading zeros.
pub open spec fn dec(n: nat) -> Seq<char>
    decreases n,
{
    if n < 10 {
        seq![digit_char(n)]
    } else {
        dec(n / 10).push(digit_char(n % 10))
    }
}

/// The decimal text of an integer, with a leading minus sign if it is negative.
pub open spec fn dec_int(n: int) -> Seq<char> {
    if n < 0 {
        "-"@ + dec((-n) as nat)
    } else {
        dec(n as nat)
    }
}

fn digit(d: u64) -> (c: char)
    requires
        d < 10,
    ensures
        c == digit_char(d as nat),
{
    if d == 0 {
        '0'
    } else if d == 1 {
        '1'
    } else if d == 2 {
        '2'
    } else if d == 3 {
        '3'
    } else if d == 4 {
        '4'
    } else if d == 5 {
        '5'
    } else if d == 6 {
        '6'
    } else if d == 7 {
        '7'
    } else if d == 8 {
        '8'
    } else {
        '9'
    }
}

/// Writes `n` in decimal.
pub fn dec_u64(n: u64) -> (s: String)
    ensures
        s@ == dec(n as nat),
    decreases n,
{
    if n < 10 {
        let mut s = String::new();
        s.push(digit(n));
        assert(s@ =~= dec(n as nat));
        s
    } else {
        let mut s = dec_u64(n / 10);
        s.push(digit(n % 10));
        s
    }
}

/// Writes `n` in decimal.
pub fn dec_usize(n: usize) -> (s: String)
    ensures
        s@ == dec(n as nat),
{
    dec_u64(n as u64)
}

/// Writes `n` in decimal, with a minus sign if it is negative.
pub fn dec_i64(n: i64) -> (s: String)
    ensures
        s@ == dec_int(n as int),
{
    if n >= 0 {
        dec_u64(n as u64)
    } else {
        let magnitude: u64 = if n == i64::MIN {
            9223372036854775808u64
        } else {
            (-n) as u64
        };
        let mut s = String::from_str("-");
        s.append(dec_u64(magnitude).as_str());
        s
    }
}

/// A truth value as text.
pub open spec fn flag_text(b: bool) -> Seq<char> {
    if b {
        "true"@
    } else {
        "false"@
    }
}

/// Writes a truth value.
pub fn flag_str(b: bool) -> (r: &'static str)
    ensures
        r@ == flag_text(b),
{
    if b {
        "true"
    } else {
        "false"
    }
}

// ---------------------------------------------------------------------------
// Trimming
// ---------------------------------------------------------------------------

/// `s` without its leading white space.
pub open spec fn trimmed_start(s: Seq<char>) -> Seq<char>
    decreases s.len(),
{
    if s.len() > 0 && is_white(s[0]) {
        trimmed_start(s.drop_first())
    } else {
        s
    }
}

/// `s` without its trailing white space.
pub open spec fn trimmed_end(s: Seq<char>) -> Seq<char>
    decreases s.len(),
{
    if s.len() > 0 && is_white(s.last()) {
        trimmed_end(s.drop_last())
    } else {
        s
    }
}

/// `s` without leading and trailing white space.
pub open spec fn trimmed(s: Seq<char>) -> Seq<char> {
    trimmed_end(trimmed_start(s))
}

/// `s` without the repetitions of `c` at its end.
pub open spec fn trimmed_end_of(s: Seq<char>, c: char) -> Seq<char>
    decreases s.len(),
{
    if s.len() > 0 && s.last() == c {
        trimmed_end_of(s.drop_last(), c)
    } else {
        s
    }
}

/// The bounds of the part of `v` between `from` and `to` that is left when the
/// white space at both ends is removed.
pub fn trim_bounds(v: &Vec<char>, from: usize, to: usize) -> (r: (usize, usize))
    requires
        from <= to <= v@.len(),
    ensures
        from <= r.0 <= r.1 <= to,
        v@.subrange(r.0 as int, r.1 as int) == trimmed(v@.subrange(from as int, to as int)),
{
    let ghost part = v@.subrange(from as int, to as int);
    let mut i: usize = from;
    while i < to && white(v[i])
        invariant
            from <= i <= to <= v@.len(),
            trimmed_start(part) == trimmed_start(v@.subrange(i as int, to as int)),
        decreases to - i,
    {
        assert(v@.subrange(i as int, to as int).drop_first() =~= v@.subrange(i + 1, to as int));
        i = i + 1;
    }
    let mut j: usize = to;
    while j > i && white(v[j - 1])
        invariant
            i <= j <= to <= v@.len(),
            trimmed_end(v@.subrange(i as int, to as int)) == trimmed_end(
                v@.subrange(i as int, j as int),
            ),
        decreases j,
    {
        assert(v@.subrange(i as int, j as int).drop_last() =~= v@.subrange(i as int, j - 1));
        j = j - 1;
    }
    (i, j)
}

/// Removes leading and trailing white space.
pub fn trim(s: &str) -> (r: String)
    ensures
        r@ == trimmed(s@),
{
    let v = chars_of(s);
    let (i, j) = trim_bounds(&v, 0, v.len());
    assert(v@.subrange(0, v@.len() as int) =~= v@);
    string_of(&v, i, j)
}

/// Tells whether `s` holds nothing but white space.
pub fn is_blank(s: &str) -> (r: bool)
    ensures
        r == (trimmed(s@).len() == 0),
{
    trim(s).as_str().is_empty()
}

/// Removes the repetitions of `c` at the end of `s`.
pub fn trim_end_of(s: &str, c: char) -> (r: String)
    ensures
        r@ == trimmed_end_of(s@, c),
{
    let v = chars_of(s);
    let mut j: usize = v.len();
    assert(v@.subrange(0, v@.len() as int) =~= v@);
    while j > 0 && v[j - 1] == c
        invariant
            j <= v@.len(),
            trimmed_end_of(v@, c) == trimmed_end_of(v@.subrange(0, j as int), c),
        decreases j,
    {
        assert(v@.subrange(0, j as int).drop_last() =~= v@.subrange(0, j - 1));
        j = j - 1;
    }
    string_of(&v, 0, j)
}

// ---------------------------------------------------------------------------
// Searching
// ---------------------------------------------------------------------------

/// `p` stands in `s` at index `i`.
pub open spec fn occurs_at(s: Seq<char>, p: Seq<char>, i: int) -> bool {
    0 <= i && i + p.len() <= s.len() && s.subrange(i, i + p.len()) == p
}

/// `p` stands somewhere in `s`.
pub open spec fn has_text(s: Seq<char>, p: Seq<char>) -> bool {
    exists|i: int| occurs_at(s, p, i)
}

/// The index of the first occurrence of `p` in `s` at or behind `from`.
pub open spec fn first_occurrence(s: Seq<char>, p: Seq<char>, from: int) -> Option<int>
    decreases s.len() + 1 - from,
{
    if from < 0 || from + p.len() > s.len() {
        None
    } else if occurs_at(s, p, from) {
        Some(from)
    } else {
        first_occurrence(s, p, from + 1)
    }
}

/// `s` begins with `p`.
pub open spec fn begins_with(s: Seq<char>, p: Seq<char>) -> bool {
    occurs_at(s, p, 0)
}

/// What follows the prefix `p` of `s`.
pub open spec fn behind_prefix(s: Seq<char>, p: Seq<char>) -> Option<Seq<char>> {
    if begins_with(s, p) {
        Some(s.subrange(p.len() as int, s.len() as int))
    } else {
        None
    }
}

/// Tells whether `p` stands in `s` at index `i`.
pub fn stands_at(s: &Vec<char>, p: &Vec<char>, i: usize) -> (r: bool)
    ensures
        r == occurs_at(s@, p@, i as int),
{
    if i > s.len() || p.len() > s.len() - i {
        return false;
    }
    let mut k: usize = 0;
    while k < p.len()
        invariant
            i + p@.len() <= s.len(),
            k <= p@.len(),
            forall|j: int| 0 <= j < k ==> s@[i + j] == p@[j],
        decreases p@.len() - k,
    {
        if s[i + k] != p[k] {
            assert(s@.subrange(i as int, i + p@.len())[k as int] != p@[k as int]);
            return false;
        }
        k = k + 1;
    }
    assert(s@.subrange(i as int, i + p@.len()) =~= p@);
    true
}

/// Finds the first occurrence of `p` in `s` at or behind `from`.
pub fn find_from(s: &Vec<char>, p: &Vec<char>, from: usize) -> (r: Option<usize>)
    requires
        from <= s@.len(),
    ensures
        match r {
            Some(i) => first_occurrence(s@, p@, from as int) == Some(i as int),
            None => first_occurrence(s@, p@, from as int) is None,
        },
{
    let mut i: usize = from;
    while i < s.len() && p.len() <= s.len() - i
        invariant
            from <= i <= s@.len(),
            first_occurrence(s@, p@, from as int) == first_occurrence(s@, p@, i as int),
        decreases s@.len() - i,
    {
        if stands_at(s, p, i) {
            return Some(i);
        }
        i = i + 1;
    }
    if p.len() == 0 && i == s.len() {
        assert(s@.subrange(i as int, i as int) =~= p@);
        return Some(i);
    }
    None
}

/// What `first_occurrence` returns is an occurrence, and none stands before it;
/// where it returns nothing there is none.
pub proof fn first_occurrence_is_first(s: Seq<char>, p: Seq<char>, from: int)
    requires
        0 <= from,
    ensures
        match first_occurrence(s, p, from) {
            Some(i) => from <= i && occurs_at(s, p, i) && (forall|j: int|
                from <= j < i ==> !occurs_at(s, p, j)),
            None => forall|j: int| from <= j ==> !occurs_at(s, p, j),
        },
    decreases s.len() + 1 - from,
{
    if from + p.len() > s.len() {
    } else if occurs_at(s, p, from) {
    } else {
        first_occurrence_is_first(s, p, from + 1);
    }
}

/// The first index at or behind `from` at which `c` stands.
pub open spec fn index_of(s: Seq<char>, c: char, from: int) -> Option<int>
    decreases s.len() - from,
{
    if from < 0 || from >= s.len() {
        None
    } else if s[from] == c {
        Some(from)
    } else {
        index_of(s, c, from + 1)
    }
}

/// What `index_of` finds is there, and nothing before it.
pub proof fn index_of_is_first(s: Seq<char>, c: char, from: int)
    requires
        0 <= from,
    ensures
        match index_of(s, c, from) {
            Some(i) => from <= i < s.len() && s[i] == c && forall|k: int|
                from <= k < i ==> s[k] != c,
            None => forall|k: int| from <= k < s.len() ==> s[k] != c,
        },
    decreases s.len() - from,
{
    if from < s.len() && s[from] != c {
        index_of_is_first(s, c, from + 1);
    }
}

/// Finds the first index at or behind `from` at which `c` stands.
pub fn find_char(v: &Vec<char>, c: char, from: usize) -> (r: Option<usize>)
    requires
        from <= v@.len(),
    ensures
        match r {
            Some(i) => index_of(v@, c, from as int) == Some(i as int) && from <= i < v@.len(),
            None => index_of(v@, c, from as int) is None,
        },
{
    let mut i: usize = from;
    while i < v.len()
        invariant
            from <= i <= v@.len(),
            index_of(v@, c, from as int) == index_of(v@, c, i as int),
        decreases v@.len() - i,
    {
        if v[i] == c {
            return Some(i);
        }
        i = i + 1;
    }
    None
}

/// `c` stands in `s` at `from` first, so it does in any longer text.
pub proof fn index_of_longer(s: Seq<char>, t: Seq<char>, c: char, from: int)
    requires
        0 <= from,
        index_of(s, c, from) is Some,
    ensures
        index_of(s + t, c, from) == index_of(s, c, from),
    decreases s.len() - from,
{
    assert((s + t)[from] == s[from]);
    if s[from] != c {
        index_of_longer(s, t, c, from + 1);
    }
}

/// An index in a part of a text is shifted by where the part begins.
pub proof fn index_of_shift(s: Seq<char>, c: char, pos: int, from: int)
    requires
        0 <= pos <= s.len(),
        0 <= from,
    ensures
        match index_of(s.subrange(pos, s.len() as int), c, from) {
            Some(i) => index_of(s, c, pos + from) == Some(pos + i),
            None => index_of(s, c, pos + from) is None,
        },
    decreases s.len() - pos - from,
{
    let part = s.subrange(pos, s.len() as int);
    if from < part.len() {
        assert(part[from] == s[pos + from]);
        if part[from] != c {
            index_of_shift(s, c, pos, from + 1);
        }
    }
}

/// Tells whether `p` stands somewhere in `s`.
pub fn contains_text(s: &str, p: &str) -> (r: bool)
    ensures
        r == has_text(s@, p@),
{
    let sv = chars_of(s);
    let pv = chars_of(p);
    proof {
        first_occurrence_is_first(s@, p@, 0);
    }
    match find_from(&sv, &pv, 0) {
        Some(i) => {
            assert(occurs_at(s@, p@, i as int));
            true
        },
        None => false,
    }
}

/// Tells whether `s` begins with `p`.
pub fn starts_with(s: &str, p: &str) -> (r: bool)
    ensures
        r == begins_with(s@, p@),
{
    stands_at(&chars_of(s), &chars_of(p), 0)
}

/// Returns what follows the prefix `p`, if `s` begins with it.
pub fn strip_prefix(s: &str, p: &str) -> (r: Option<String>)
    ensures
        match r {
            Some(rest) => behind_prefix(s@, p@) == Some(rest@),
            None => behind_prefix(s@, p@) is None,
        },
{
    let sv = chars_of(s);
    let pv = chars_of(p);
    if stands_at(&sv, &pv, 0) {
        Some(string_of(&sv, pv.len(), sv.len()))
    } else {
        None
    }
}

// ---------------------------------------------------------------------------
// Pieces and lists
// ---------------------------------------------------------------------------

/// The texts of a list of strings.
pub open spec fn texts(v: Seq<String>) -> Seq<Seq<char>> {
    Seq::new(v.len(), |i: int| v[i]@)
}

/// The text of an optional string.
pub open spec fn opt_text(o: Option<String>) -> Option<Seq<char>> {
    match o {
        Some(s) => Some(s@),
        None => None,
    }
}

/// The pieces of `s` between the occurrences of `c`.
pub open spec fn pieces(s: Seq<char>, c: char) -> Seq<Seq<char>>
    decreases s.len(),
{
    if s.len() == 0 {
        seq![Seq::<char>::empty()]
    } else if s.last() == c {
        pieces(s.drop_last(), c).push(Seq::<char>::empty())
    } else {
        let front = pieces(s.drop_last(), c);
        front.drop_last().push(front.last().push(s.last()))
    }
}

/// There is always at least one piece.
pub proof fn pieces_not_empty(s: Seq<char>, c: char)
    ensures
        pieces(s, c).len() > 0,
    decreases s.len(),
{
    if s.len() > 0 {
        pieces_not_empty(s.drop_last(), c);
    }
}

/// A line without the carriage return at its end.
pub open spec fn without_cr(s: Seq<char>) -> Seq<char> {
    if s.len() > 0 && s.last() == '\r' {
        s.drop_last()
    } else {
        s
    }
}

/// The lines of `s`: what the line feeds separate, with a carriage return
/// before a line feed removed, and without an empty last line.
pub open spec fn lines_of(s: Seq<char>) -> Seq<Seq<char>> {
    let all = pieces(s, '\n');
    let ended = Seq::new((all.len() - 1) as nat, |i: int| without_cr(all[i]));
    if all.last().len() == 0 {
        ended
    } else {
        ended.push(all.last())
    }
}

/// `parts` with `sep` between every two of them.
pub open spec fn joined(parts: Seq<Seq<char>>, sep: Seq<char>) -> Seq<char>
    decreases parts.len(),
{
    if parts.len() == 0 {
        Seq::empty()
    } else if parts.len() == 1 {
        parts[0]
    } else {
        joined(parts.drop_last(), sep) + sep + parts.last()
    }
}

/// Copies a list of strings.
pub fn clone_strings(v: &Vec<String>) -> (r: Vec<String>)
    ensures
        r@ == v@,
        texts(r@) == texts(v@),
{
    let r = v.clone();
    assert(r@ =~= v@);
    r
}

/// Copies an optional string.
pub fn clone_opt(o: &Option<String>) -> (r: Option<String>)
    ensures
        r == *o,
{
    match o {
        Some(s) => Some(s.clone()),
        None => None,
    }
}

/// Cuts `s` at every `c`.
pub fn split_on(s: &str, c: char) -> (r: Vec<String>)
    ensures
        texts(r@) == pieces(s@, c),
{
    let v = chars_of(s);
    let mut out: Vec<String> = Vec::new();
    let mut current = String::new();
    let mut i: usize = 0;
    assert(texts(out@).push(current@) =~= pieces(v@.subrange(0, 0), c));
    while i < v.len()
        invariant
            i <= v@.len(),
            texts(out@).push(current@) == pieces(v@.subrange(0, i as int), c),
        decreases v@.len() - i,
    {
        let ghost before = texts(out@).push(current@);
        let ghost now = v@.subrange(0, i + 1);
        assert(now.drop_last() =~= v@.subrange(0, i as int));
        assert(before.drop_last() =~= texts(out@));
        if v[i] == c {
            out.push(current);
            current = String::new();
            assert(texts(out@) =~= before);
            assert(current@ =~= Seq::<char>::empty());
        } else {
            current.push(v[i]);
        }
        i = i + 1;
    }
    assert(v@.subrange(0, v@.len() as int) =~= v@);
    let ghost last = current@;
    let ghost front = out@;
    out.push(current);
    assert(texts(out@) =~= texts(front).push(last));
    out
}

/// Cuts `s` into its lines.
pub fn split_lines(s: &str) -> (r: Vec<String>)
    ensures
        texts(r@) == lines_of(s@),
{
    let parts = split_on(s, '\n');
    let ghost all = pieces(s@, '\n');
    let mut out: Vec<String> = Vec::new();
    proof {
        pieces_not_empty(s@, '\n');
        assert(texts(parts@).len() == all.len());
    }
    let last: usize = parts.len() - 1;
    let mut i: usize = 0;
    while i < last
        invariant
            i <= last < parts@.len(),
            texts(parts@) == all,
            out@.len() == i,
            forall|k: int| 0 <= k < i ==> out@[k]@ == without_cr(#[trigger] all[k]),
        decreases last - i,
    {
        let line = chars_of(parts[i].as_str());
        assert(parts@[i as int]@ == all[i as int]);
        let end: usize = if line.len() > 0 && line[line.len() - 1] == '\r' {
            line.len() - 1
        } else {
            line.len()
        };
        let piece = string_of(&line, 0, end);
        assert(piece@ =~= without_cr(all[i as int]));
        out.push(piece);
        i = i + 1;
    }
    let ghost ended = Seq::new((all.len() - 1) as nat, |i: int| without_cr(all[i]));
    assert(texts(out@) =~= ended);
    assert(parts@[last as int]@ == all.last());
    if !parts[last].as_str().is_empty() {
        let ghost front = out@;
        let tail = parts[last].clone();
        out.push(tail);
        assert(texts(out@) =~= ended.push(all.last()));
    }
    out
}

/// Texts put together.
pub open spec fn put_together(said: Seq<Seq<char>>) -> Seq<char>
    decreases said.len(),
{
    if said.len() == 0 {
        Seq::empty()
    } else {
        put_together(said.drop_last()) + said.last()
    }
}

/// Joins `parts` with `sep` between every two of them.
pub fn join(parts: &Vec<String>, sep: &str) -> (r: String)
    ensures
        r@ == joined(texts(parts@), sep@),
{
    let mut out = String::new();
    let mut i: usize = 0;
    assert(out@ =~= joined(texts(parts@).subrange(0, 0), sep@));
    while i < parts.len()
        invariant
            i <= parts@.len(),
            out@ == joined(texts(parts@).subrange(0, i as int), sep@),
        decreases parts@.len() - i,
    {
        let ghost next = texts(parts@).subrange(0, i + 1);
        assert(next.drop_last() =~= texts(parts@).subrange(0, i as int));
        if i > 0 {
            out.append(sep);
        }
        out.append(parts[i].as_str());
        proof {
            if i == 0 {
                assert(out@ =~= parts@[0]@);
            }
        }
        i = i + 1;
    }
    assert(texts(parts@).subrange(0, parts@.len() as int) =~= texts(parts@));
    out
}

/// The first `n` texts of a list, or all of them if there are fewer.
pub open spec fn first_n<T>(s: Seq<T>, n: int) -> Seq<T> {
    if s.len() <= n {
        s
    } else {
        s.subrange(0, n)
    }
}

/// Returns the first `n` characters of `s`, or all of it if it is shorter.
pub fn take_chars(s: &str, n: usize) -> (r: String)
    ensures
        r@ == first_n(s@, n as int),
{
    let v = chars_of(s);
    let end: usize = if v.len() < n {
        v.len()
    } else {
        n
    };
    assert(v@.subrange(0, end as int) =~= first_n(s@, n as int));
    string_of(&v, 0, end)
}

/// Tells whether `list` holds `s`.
pub fn list_has(list: &Vec<String>, s: &str) -> (r: bool)
    ensures
        r == texts(list@).contains(s@),
{
    let mut i: usize = 0;
    while i < list.len()
        invariant
            i <= list@.len(),
            forall|k: int| 0 <= k < i ==> texts(list@)[k] != s@,
        decreases list@.len() - i,
    {
        if str_eq(list[i].as_str(), s) {
            assert(texts(list@)[i as int] == s@);
            return true;
        }
        i = i + 1;
    }
    false
}

// ---------------------------------------------------------------------------
// Bytes
// ---------------------------------------------------------------------------

/// `String::from_utf8`: the text that the bytes encode, if they are valid UTF-8.
#[verifier::external_body]
pub(crate) fn utf8_text(bytes: Vec<u8>) -> (r: Option<String>)
    ensures
        match r {
            Some(s) => valid_utf8(bytes@) && s@ == decode_utf8(bytes@),
            None => !valid_utf8(bytes@),
        },
{
    String::from_utf8(bytes).ok()
}

/// The text of bytes that need not be valid UTF-8.
pub uninterp spec fn lossy(bytes: Seq<u8>) -> Seq<char>;

/// `String::from_utf8_lossy`: the text that the bytes encode, with a replacement
/// character for what is not valid UTF-8. The contract says that the bytes decide the
/// text, and that valid UTF-8 gives the text that it encodes.
#[verifier::external_body]
pub(crate) fn lossy_text(bytes: &Vec<u8>) -> (s: String)
    ensures
        s@ == lossy(bytes@),
        valid_utf8(bytes@) ==> s@ == decode_utf8(bytes@),
{
    String::from_utf8_lossy(bytes).into_owned()
}

/// The number of bytes of the UTF-8 encoding of `s`.
pub open spec fn byte_len(s: Seq<char>) -> nat {
    encode_utf8(s).len()
}

/// The byte index `n` stands between two characters of `s`, or at its end.
pub open spec fn cuts_cleanly(s: Seq<char>, n: int) -> bool {
    is_char_boundary(encode_utf8(s), n)
}

/// The characters in the first `n` bytes of `s`.
pub open spec fn byte_prefix(s: Seq<char>, n: int) -> Seq<char> {
    decode_utf8(encode_utf8(s).subrange(0, n))
}

/// `s` if it has at most `limit` bytes, otherwise its first `keep` bytes and
/// three dots.
pub open spec fn shortened(s: Seq<char>, limit: nat, keep: int) -> Seq<char> {
    if byte_len(s) > limit {
        byte_prefix(s, keep) + "..."@
    } else {
        s
    }
}

/// Returns the characters in the first `n` bytes of `s`.
pub fn prefix_bytes(s: &str, n: usize) -> (r: String)
    requires
        cuts_cleanly(s@, n as int),
    ensures
        r@ == byte_prefix(s@, n as int),
{
    let (head, tail) = s.split_at(n);
    proof {
        encode_utf8_decode_utf8(head@);
    }
    head.to_owned()
}

/// Shortens `s` to `keep` bytes and three dots if it has more than `limit` bytes.
pub fn shorten(s: &str, limit: usize, keep: usize) -> (r: String)
    requires
        byte_len(s@) > limit ==> cuts_cleanly(s@, keep as int),
    ensures
        r@ == shortened(s@, limit as nat, keep as int),
{
    if over_bytes(s, limit) {
        let mut r = prefix_bytes(s, keep);
        r.append("...");
        r
    } else {
        s.to_owned()
    }
}

/// Tells whether `s` has more than `limit` bytes.
pub fn over_bytes(s: &str, limit: usize) -> (r: bool)
    ensures
        r == (byte_len(s@) > limit),
{
    s.as_bytes().len() > limit
}

/// Tells whether the byte index `n` stands between two characters of `s`.
pub fn clean_cut(s: &str, n: usize) -> (r: bool)
    ensures
        r == cuts_cleanly(s@, n as int),
{
    s.is_char_boundary(n)
}

// ---------------------------------------------------------------------------
// Laws
// ---------------------------------------------------------------------------

/// A part of a text is found in it.
pub proof fn part_is_found(front: Seq<char>, part: Seq<char>, rest: Seq<char>)
    ensures
        has_text(front + part + rest, part),
{
    let s = front + part + rest;
    assert(s.subrange(front.len() as int, (front.len() + part.len()) as int) =~= part);
    assert(occurs_at(s, part, front.len() as int));
}

/// The end of a text is found in it.
pub proof fn end_is_found(front: Seq<char>, part: Seq<char>)
    ensures
        has_text(front + part, part),
{
    part_is_found(front, part, Seq::empty());
    assert(front + part + Seq::<char>::empty() =~= front + part);
}

/// The beginning of a text is found in it.
pub proof fn start_is_found(part: Seq<char>, rest: Seq<char>)
    ensures
        has_text(part + rest, part),
{
    part_is_found(Seq::empty(), part, rest);
    assert(Seq::empty() + part + rest =~= part + rest);
}

/// What is found in a text is found in every longer text around it.
pub proof fn found_in_longer(front: Seq<char>, s: Seq<char>, rest: Seq<char>, part: Seq<char>)
    requires
        has_text(s, part),
    ensures
        has_text(front + s + rest, part),
{
    let i = choose|i: int| occurs_at(s, part, i);
    let longer = front + s + rest;
    assert(longer.subrange(front.len() + i, front.len() + i + part.len()) =~= s.subrange(
        i,
        i + part.len(),
    ));
    assert(occurs_at(longer, part, front.len() + i));
}

/// A text that is short enough stays as it is. A longer one is cut: its beginning stays,
/// and three dots follow.
pub proof fn short_texts_stay(s: Seq<char>, limit: nat, keep: int)
    ensures
        encode_utf8(s).len() <= limit ==> shortened(s, limit, keep) == s,
        encode_utf8(s).len() > limit && cuts_cleanly(s, keep) ==> {
            let r = shortened(s, limit, keep);
            &&& r.len() >= 3
            &&& r.subrange(r.len() - 3, r.len() as int) == "..."@
            &&& encode_utf8(r.subrange(0, r.len() - 3)) == encode_utf8(s).subrange(0, keep)
        },
{
    if encode_utf8(s).len() > limit && cuts_cleanly(s, keep) {
        let head = byte_prefix(s, keep);
        let r = head + "..."@;
        reveal_strlit("...");
        assert("..."@.len() == 3);
        assert(r.subrange(r.len() - 3, r.len() as int) =~= "..."@);
        assert(r.subrange(0, r.len() - 3) =~= head);
        encode_utf8_valid_utf8(s);
        valid_utf8_split(encode_utf8(s), keep);
        decode_utf8_encode_utf8(encode_utf8(s).subrange(0, keep));
    }
}

/// Every part of a joined text is found in it.
#[verifier::rlimit(40)]
pub proof fn joined_parts_are_found(parts: Seq<Seq<char>>, sep: Seq<char>, i: int)
    requires
        0 <= i < parts.len(),
    ensures
        has_text(joined(parts, sep), parts[i]),
    decreases parts.len(),
{
    if parts.len() == 1 {
        part_is_found(Seq::empty(), parts[0], Seq::empty());
        assert(Seq::empty() + parts[0] + Seq::<char>::empty() =~= parts[0]);
    } else {
        let front = joined(parts.drop_last(), sep);
        if i == parts.len() - 1 {
            part_is_found(front + sep, parts.last(), Seq::empty());
            assert(front + sep + parts.last() + Seq::<char>::empty() =~= joined(parts, sep));
        } else {
            joined_parts_are_found(parts.drop_last(), sep, i);
            found_in_longer(Seq::empty(), front, sep + parts.last(), parts[i]);
            assert(Seq::empty() + front + (sep + parts.last()) =~= joined(parts, sep));
        }
    }
}

/// What is found in a part is found in the whole.
pub proof fn found_by_way(s: Seq<char>, middle: Seq<char>, part: Seq<char>)
    requires
        has_text(s, middle),
        has_text(middle, part),
    ensures
        has_text(s, part),
{
    let i = choose|i: int| occurs_at(s, middle, i);
    let front = s.subrange(0, i);
    let rest = s.subrange(i + middle.len(), s.len() as int);
    assert(front + middle + rest =~= s);
    found_in_longer(front, middle, rest, part);
}

} // verus!

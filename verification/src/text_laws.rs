//! Laws of texts: numbers, trimming, pieces and lines.

use vstd::prelude::*;
use vstd::string::*;

use crate::text::{
    dec, dec_int, digit_char, is_white, joined, lines_of, pieces, pieces_not_empty, trimmed,
    trimmed_end, trimmed_end_of, trimmed_start,
};

verus! {

/// The number that digits stand for.
pub open spec fn number_in(s: Seq<char>) -> int
    decreases s.len(),
{
    if s.len() == 0 {
        0
    } else {
        10 * number_in(s.drop_last()) + (s.last() as int - '0' as int)
    }
}

/// The digits of a number stand for it. There are no others, and none too many.
pub proof fn digits_stand_for_number(n: nat)
    ensures
        number_in(dec(n)) == n,
        forall|i: int| 0 <= i < dec(n).len() ==> '0' <= #[trigger] dec(n)[i] && dec(n)[i] <= '9',
        dec(n).len() > 0,
        dec(n).len() > 1 ==> dec(n)[0] != '0',
    decreases n,
{
    reveal_with_fuel(number_in, 2);
    if n >= 10 {
        digits_stand_for_number(n / 10);
        assert(dec(n).drop_last() =~= dec(n / 10));
        assert(dec(n).last() == digit_char(n % 10));
        assert(dec(n)[0] == dec(n / 10)[0]);
        if n / 10 < 10 {
            assert(dec(n / 10) == seq![digit_char(n / 10)]);
        }
    } else {
        assert(dec(n).drop_last() =~= Seq::empty());
        assert(dec(n).last() == digit_char(n));
    }
}

/// Different numbers have different texts.
pub proof fn numbers_are_told_apart(a: int, b: int)
    requires
        dec_int(a) == dec_int(b),
    ensures
        a == b,
{
    let sign = "-"@;
    reveal_strlit("-");
    assert(sign.len() == 1 && sign[0] == '-');
    if a < 0 {
        digits_stand_for_number((-a) as nat);
        assert(dec_int(a)[0] == '-');
        assert(dec_int(a).subrange(1, dec_int(a).len() as int) =~= dec((-a) as nat));
    } else {
        digits_stand_for_number(a as nat);
        assert(dec_int(a)[0] != '-');
    }
    if b < 0 {
        digits_stand_for_number((-b) as nat);
        assert(dec_int(b)[0] == '-');
        assert(dec_int(b).subrange(1, dec_int(b).len() as int) =~= dec((-b) as nat));
    } else {
        digits_stand_for_number(b as nat);
        assert(dec_int(b)[0] != '-');
    }
}

/// The text holds nothing but white space.
pub open spec fn all_white(s: Seq<char>) -> bool {
    forall|i: int| 0 <= i < s.len() ==> is_white(#[trigger] s[i])
}

/// Trimming takes away white space at both ends, all of it and nothing else.
pub proof fn trimming_takes_white_space(s: Seq<char>)
    ensures
        exists|a: Seq<char>, b: Seq<char>|
            all_white(a) && all_white(b) && s == #[trigger] (a + trimmed(s) + b),
        trimmed(s).len() > 0 ==> !is_white(trimmed(s)[0]) && !is_white(trimmed(s).last()),
        trimmed(s).len() == 0 <==> all_white(s),
{
    let m = trimmed_start(s);
    let a = front_goes(s);
    let b = end_goes(m);
    assert(a + trimmed(s) + b =~= s);
    if trimmed(s).len() > 0 {
        assert(trimmed(s)[0] == m[0]);
        assert(s[a.len() as int] == trimmed(s)[0]);
        assert(!all_white(s));
    } else {
        assert forall|i: int| 0 <= i < s.len() implies is_white(#[trigger] s[i]) by {
            if i < a.len() {
                assert(s[i] == a[i]);
            } else {
                assert(s[i] == b[i - a.len()]);
            }
        }
    }
}

proof fn front_goes(s: Seq<char>) -> (a: Seq<char>)
    ensures
        all_white(a),
        s == a + trimmed_start(s),
        trimmed_start(s).len() > 0 ==> !is_white(trimmed_start(s)[0]),
    decreases s.len(),
{
    if s.len() > 0 && is_white(s[0]) {
        let rest = front_goes(s.drop_first());
        let a = seq![s[0]] + rest;
        assert(a + trimmed_start(s) =~= s) by {
            assert(s.drop_first() == rest + trimmed_start(s));
            assert(s =~= seq![s[0]] + s.drop_first());
        }
        a
    } else {
        assert(Seq::<char>::empty() + s =~= s);
        Seq::empty()
    }
}

proof fn end_goes(s: Seq<char>) -> (b: Seq<char>)
    ensures
        all_white(b),
        s == trimmed_end(s) + b,
        trimmed_end(s).len() > 0 ==> !is_white(trimmed_end(s).last()),
    decreases s.len(),
{
    if s.len() > 0 && is_white(s.last()) {
        let rest = end_goes(s.drop_last());
        let b = rest.push(s.last());
        assert(trimmed_end(s) + b =~= s) by {
            assert(s.drop_last() == trimmed_end(s) + rest);
            assert(s =~= s.drop_last().push(s.last()));
        }
        b
    } else {
        assert(s + Seq::<char>::empty() =~= s);
        Seq::empty()
    }
}

/// Taking a character from the end takes all of its repetitions there and nothing else.
pub proof fn repetitions_go(s: Seq<char>, c: char)
    ensures
        ({
            let r = trimmed_end_of(s, c);
            &&& r.len() <= s.len()
            &&& s.subrange(0, r.len() as int) == r
            &&& forall|i: int| r.len() <= i < s.len() ==> #[trigger] s[i] == c
            &&& r.len() > 0 ==> r.last() != c
        }),
    decreases s.len(),
{
    if s.len() > 0 && s.last() == c {
        repetitions_go(s.drop_last(), c);
        let r = trimmed_end_of(s, c);
        assert(s.subrange(0, r.len() as int) =~= s.drop_last().subrange(0, r.len() as int));
        assert forall|i: int| r.len() <= i < s.len() implies #[trigger] s[i] == c by {
            if i < s.len() - 1 {
                assert(s.drop_last()[i] == s[i]);
            }
        }
    } else {
        assert(s.subrange(0, s.len() as int) =~= s);
    }
}

/// The pieces of a text, put together with what separates them, are the text, and no piece
/// holds the separator.
pub proof fn pieces_make_the_text(s: Seq<char>, c: char)
    ensures
        joined(pieces(s, c), seq![c]) == s,
        forall|i: int| 0 <= i < pieces(s, c).len() ==> !(#[trigger] pieces(s, c)[i]).contains(c),
    decreases s.len(),
{
    pieces_not_empty(s, c);
    if s.len() == 0 {
        assert(joined(pieces(s, c), seq![c]) =~= s);
    } else {
        let rest = s.drop_last();
        let front = pieces(rest, c);
        let all = pieces(s, c);
        pieces_not_empty(rest, c);
        pieces_make_the_text(rest, c);
        if s.last() == c {
            assert(all.drop_last() =~= front);
            assert(joined(all, seq![c]) =~= s);
            assert forall|i: int| 0 <= i < all.len() implies !(#[trigger] all[i]).contains(c) by {
                if i < front.len() {
                    assert(all[i] == front[i]);
                }
            }
        } else {
            assert(all.drop_last() =~= front.drop_last());
            assert(joined(all, seq![c]) =~= joined(front, seq![c]).push(s.last()));
            assert(joined(all, seq![c]) =~= s);
            assert forall|i: int| 0 <= i < all.len() implies !(#[trigger] all[i]).contains(c) by {
                if i < all.len() - 1 {
                    assert(all[i] == front[i]);
                } else {
                    let last = front[front.len() - 1];
                    assert(all[i] == last.push(s.last()));
                    assert(!last.contains(c));
                    if all[i].contains(c) {
                        let k = choose|k: int| 0 <= k < all[i].len() && all[i][k] == c;
                        if k < last.len() {
                            assert(last[k] == c);
                        }
                    }
                }
            }
        }
    }
}

proof fn one_piece(s: Seq<char>, c: char)
    requires
        !s.contains(c),
    ensures
        pieces(s, c) == seq![s],
    decreases s.len(),
{
    if s.len() == 0 {
        assert(s =~= Seq::<char>::empty());
        assert(pieces(s, c) =~= seq![s]);
    } else {
        let rest = s.drop_last();
        assert(s.last() != c) by {
            assert(s[s.len() - 1] == s.last());
        }
        assert(!rest.contains(c)) by {
            if rest.contains(c) {
                let k = choose|k: int| 0 <= k < rest.len() && rest[k] == c;
                assert(s[k] == c);
            }
        }
        one_piece(rest, c);
        assert(rest.push(s.last()) =~= s);
        assert(pieces(s, c) =~= seq![s]);
    }
}

/// What stands in front of a separator is the first piece, and the others are those of the
/// rest.
pub proof fn first_piece_comes_first(a: Seq<char>, c: char, b: Seq<char>)
    requires
        !a.contains(c),
    ensures
        pieces(a + seq![c] + b, c) == seq![a] + pieces(b, c),
    decreases b.len(),
{
    let s = a + seq![c] + b;
    pieces_not_empty(b, c);
    if b.len() == 0 {
        one_piece(a, c);
        assert(s.drop_last() =~= a);
        assert(pieces(s, c) =~= seq![a] + pieces(b, c));
    } else {
        first_piece_comes_first(a, c, b.drop_last());
        assert(s.drop_last() =~= a + seq![c] + b.drop_last());
        let front = pieces(b.drop_last(), c);
        pieces_not_empty(b.drop_last(), c);
        assert((seq![a] + front).last() == front.last());
        assert(pieces(s, c) =~= seq![a] + pieces(b, c));
    }
}

/// A text without line feeds is one line. Nothing has no lines.
pub proof fn one_line(s: Seq<char>)
    requires
        !s.contains('\n'),
    ensures
        lines_of(s) == if s.len() == 0 {
            Seq::empty()
        } else {
            seq![s]
        },
{
    one_piece(s, '\n');
    let all = pieces(s, '\n');
    if s.len() == 0 {
        assert(lines_of(s) =~= Seq::empty());
    } else {
        assert(lines_of(s) =~= seq![s]);
    }
}

/// A line feed ends the first line, and the other lines are those of the rest.
pub proof fn first_line_comes_first(a: Seq<char>, b: Seq<char>)
    requires
        !a.contains('\n'),
        a.len() > 0 ==> a.last() != '\r',
    ensures
        lines_of(a + seq!['\n'] + b) == seq![a] + lines_of(b),
{
    first_piece_comes_first(a, '\n', b);
    pieces_not_empty(b, '\n');
    let s = a + seq!['\n'] + b;
    let all = pieces(s, '\n');
    let rest = pieces(b, '\n');
    assert(all.last() == rest.last());
    assert(lines_of(s) =~= seq![a] + lines_of(b));
}

} // verus!

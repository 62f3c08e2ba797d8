//! Small verified operations on text: equality, splitting on a separator,
//! and reading an unsigned decimal number.
use vstd::prelude::*;
use vstd::string::*;

verus! {

/// `s` cut at every occurrence of `sep`; the pieces keep their order and an
/// empty `s` is one empty piece.
pub open spec fn split_on(s: Seq<char>, sep: char) -> Seq<Seq<char>>
    decreases s.len(),
{
    if s.len() == 0 {
        seq![Seq::<char>::empty()]
    } else {
        let rest = split_on(s.drop_last(), sep);
        if s.last() == sep {
            rest.push(Seq::<char>::empty())
        } else {
            rest.update(rest.len() - 1, rest.last().push(s.last()))
        }
    }
}

pub proof fn lemma_split_on_nonempty(s: Seq<char>, sep: char)
    ensures
        split_on(s, sep).len() >= 1,
    decreases s.len(),
{
    if s.len() > 0 {
        lemma_split_on_nonempty(s.drop_last(), sep);
    }
}

/// The piece at position `k`, or the empty text past the last piece.
pub open spec fn piece_at(pieces: Seq<Seq<char>>, k: int) -> Seq<char> {
    if 0 <= k < pieces.len() {
        pieces[k]
    } else {
        Seq::<char>::empty()
    }
}

pub open spec fn is_digit(c: char) -> bool {
    '0' <= c && c <= '9'
}

pub open spec fn all_digits(s: Seq<char>) -> bool {
    forall|i: int| 0 <= i < s.len() ==> is_digit(#[trigger] s[i])
}

/// The number that the decimal digits `s` spell.
pub open spec fn digits_value(s: Seq<char>) -> nat
    decreases s.len(),
{
    if s.len() == 0 {
        0
    } else {
        digits_value(s.drop_last()) * 10 + (s.last() as nat - '0' as nat) as nat
    }
}

/// An unsigned decimal as std's `usize::from_str` reads it: an optional `+`,
/// then one or more digits, the value fitting in `usize`.
pub open spec fn decimal_usize(s: Seq<char>) -> Option<usize> {
    let d = if s.len() > 0 && s[0] == '+' {
        s.drop_first()
    } else {
        s
    };
    if d.len() > 0 && all_digits(d) && digits_value(d) <= usize::MAX {
        Some(digits_value(d) as usize)
    } else {
        None
    }
}

proof fn lemma_digits_value_monotone(s: Seq<char>, k: int)
    requires
        0 <= k <= s.len(),
        all_digits(s),
    ensures
        digits_value(s.subrange(0, k)) <= digits_value(s),
    decreases s.len() - k,
{
    if k < s.len() {
        lemma_digits_value_monotone(s, k + 1);
        assert(s.subrange(0, k + 1).drop_last() =~= s.subrange(0, k));
    } else {
        assert(s.subrange(0, k) =~= s);
    }
}

/// Whether two texts are the same sequence of characters.
pub fn text_eq(a: &str, b: &str) -> (r: bool)
    ensures
        r == (a@ == b@),
{
    let n = a.unicode_len();
    let m = b.unicode_len();
    if n != m {
        return false;
    }
    let mut i: usize = 0;
    while i < n
        invariant
            a@.len() == n,
            b@.len() == n,
            i <= n,
            forall|j: int| 0 <= j < i ==> a@[j] == b@[j],
        decreases n - i,
    {
        if a.get_char(i) != b.get_char(i) {
            return false;
        }
        i = i + 1;
    }
    assert(a@ =~= b@);
    true
}

/// Cuts `s` at every `sep`.
pub fn split_text<'a>(s: &'a str, sep: char) -> (r: Vec<&'a str>)
    ensures
        r@.map_values(|p: &str| p@) == split_on(s@, sep),
{
    let n = s.unicode_len();
    let mut parts: Vec<&'a str> = Vec::new();
    let mut start: usize = 0;
    let mut i: usize = 0;
    assert(parts@.map_values(|p: &str| p@) =~= Seq::<Seq<char>>::empty());
    assert(s@.subrange(0, 0) =~= Seq::<char>::empty());
    while i < n
        invariant
            s@.len() == n,
            start <= i <= n,
            parts@.map_values(|p: &str| p@).push(s@.subrange(start as int, i as int))
                == split_on(s@.subrange(0, i as int), sep),
        decreases n - i,
    {
        let c = s.get_char(i);
        let ghost prev = s@.subrange(0, i as int);
        let ghost next = s@.subrange(0, i as int + 1);
        assert(next.drop_last() =~= prev);
        assert(next.last() == c);
        if c == sep {
            let piece = s.substring_char(start, i);
            parts.push(piece);
            start = i + 1;
            proof {
                assert(s@.subrange(start as int, i as int + 1) =~= Seq::<char>::empty());
                assert(parts@.map_values(|p: &str| p@) =~= split_on(prev, sep).drop_last().push(
                    piece@,
                ));
                lemma_split_on_nonempty(prev, sep);
                assert(split_on(prev, sep).drop_last().push(piece@) =~= split_on(prev, sep));
            }
        } else {
            proof {
                lemma_split_on_nonempty(prev, sep);
                assert(s@.subrange(start as int, i as int + 1) =~= s@.subrange(
                    start as int,
                    i as int,
                ).push(c));
                let old_parts = parts@.map_values(|p: &str| p@);
                assert(old_parts.push(s@.subrange(start as int, i as int + 1)) =~= split_on(
                    prev,
                    sep,
                ).update(split_on(prev, sep).len() - 1, split_on(prev, sep).last().push(c)));
            }
        }
        i = i + 1;
    }
    let last = s.substring_char(start, n);
    parts.push(last);
    assert(s@.subrange(0, n as int) =~= s@);
    assert(parts@.map_values(|p: &str| p@) =~= split_on(s@.subrange(0, n as int), sep));
    parts
}

/// Reads an unsigned decimal as std's `usize::from_str` does.
pub fn parse_usize(s: &str) -> (r: Option<usize>)
    ensures
        r == decimal_usize(s@),
{
    let n = s.unicode_len();
    let mut i: usize = 0;
    if n > 0 && s.get_char(0) == '+' {
        i = 1;
    }
    let first = i;
    let ghost d = s@.subrange(first as int, n as int);
    assert(d =~= if s@.len() > 0 && s@[0] == '+' { s@.drop_first() } else { s@ });
    if i == n {
        return None;
    }
    let mut value: usize = 0;
    while i < n
        invariant
            s@.len() == n,
            first <= i <= n,
            d == s@.subrange(first as int, n as int),
            d == (if s@.len() > 0 && s@[0] == '+' { s@.drop_first() } else { s@ }),
            d.len() > 0,
            all_digits(s@.subrange(first as int, i as int)),
            value as nat == digits_value(s@.subrange(first as int, i as int)),
        decreases n - i,
    {
        let c = s.get_char(i);
        let ghost prev = s@.subrange(first as int, i as int);
        let ghost next = s@.subrange(first as int, i as int + 1);
        assert(next.drop_last() =~= prev);
        assert(next =~= d.subrange(0, i - first + 1));
        if !('0' <= c && c <= '9') {
            assert(!all_digits(d)) by {
                assert(d[i - first] == c);
                assert(!is_digit(d[i - first]));
            }
            assert(decimal_usize(s@).is_none());
            return None;
        }
        let digit = (c as u32 - '0' as u32) as usize;
        assert(all_digits(next)) by {
            assert forall|j: int| 0 <= j < next.len() implies is_digit(#[trigger] next[j]) by {
                if j < prev.len() {
                    assert(next[j] == prev[j]);
                }
            }
        }
        if value > (usize::MAX - digit) / 10 {
            proof {
                assert(value * 10 + digit > usize::MAX) by (nonlinear_arith)
                    requires
                        value > (usize::MAX - digit) / 10,
                        digit <= 9,
                ;
                assert(digits_value(next) == digits_value(prev) * 10 + digit);
                if all_digits(d) {
                    lemma_digits_value_monotone(d, i - first + 1);
                }
                assert(decimal_usize(s@).is_none());
            }
            return None;
        }
        assert(value * 10 + digit <= usize::MAX) by (nonlinear_arith)
            requires
                value <= (usize::MAX - digit) / 10,
                digit <= 9,
        ;
        assert(digits_value(next) == digits_value(prev) * 10 + digit);
        value = value * 10 + digit;
        i = i + 1;
    }
    assert(s@.subrange(first as int, n as int) =~= d);
    Some(value)
}

pub open spec fn digit_char(d: nat) -> char {
    if d == 0 {
        '0'
    } else if d == 1 {
        '1'
    } else if d == 2 {
        '2'
    } else if d == 3 {
        '3'
    } else if d == 4 {
        '4'
    } else if d == 5 {
        '5'
    } else if d == 6 {
        '6'
    } else if d == 7 {
        '7'
    } else if d == 8 {
        '8'
    } else {
        '9'
    }
}

/// The decimal digits of `n`, without sign or leading zeros.
pub open spec fn decimal_chars(n: nat) -> Seq<char>
    decreases n,
{
    if n < 10 {
        seq![digit_char(n)]
    } else {
        decimal_chars(n / 10).push(digit_char(n % 10))
    }
}

/// Relies on std's `ToString` for `usize` (through its `Display`): the
/// decimal digits of `n`, without sign or leading zeros.
#[verifier::external_body]
pub(crate) fn usize_text(n: usize) -> (r: String)
    ensures
        r@ == decimal_chars(n as nat),
{
    n.to_string()
}

} // verus!

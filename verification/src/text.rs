//! Text helpers: characters in and out of strings, joining, and the decimal
//! notation of unsigned integers.

use crate::bindings::push_char;
use vstd::prelude::*;
use vstd::string::*;

verus! {

/// The characters of a string, in order.
pub fn chars_of(s: &str) -> (v: Vec<char>)
    ensures
        v@ == s@,
{
    let mut v: Vec<char> = Vec::new();
    for c in it: s.chars()
        invariant
            it.seq() == s@,
            v@ == s@.take(it.index() as int),
    {
        v.push(c);
        assert(s@.take(it.index() + 1) == s@.take(it.index() as int).push(s@[it.index() as int]));
    }
    assert(s@.take(s@.len() as int) == s@);
    v
}

/// The string made of the given characters, in order.
pub fn string_of(chars: &Vec<char>) -> (s: String)
    ensures
        s@ == chars@,
{
    let mut s = String::new();
    let mut i: usize = 0;
    while i < chars.len()
        invariant
            i <= chars.len(),
            s@ == chars@.take(i as int),
        decreases chars.len() - i,
    {
        push_char(&mut s, chars[i]);
        assert(chars@.take(i + 1) == chars@.take(i as int).push(chars@[i as int]));
        i = i + 1;
    }
    assert(chars@.take(chars@.len() as int) == chars@);
    s
}

/// `a` followed by `b`.
pub fn join2(a: &str, b: &str) -> (s: String)
    ensures
        s@ == a@ + b@,
{
    let mut s = String::from_str(a);
    s.append(b);
    s
}

/// `a`, `b` and `c` in a row.
pub fn join3(a: &str, b: &str, c: &str) -> (s: String)
    ensures
        s@ == a@ + b@ + c@,
{
    let mut s = String::from_str(a);
    s.append(b);
    s.append(c);
    s
}

/// The character that writes the digit `d` (0 to 9).
pub open spec fn digit_char(d: int) -> char {
    if d == 0 {
        '0'
    } else if d == 1 {
        '1'
    } else if d == 2 {
        '2'
    } else if d == 3 {
        '3'
    } else if d == 4 {
        '4'
    } else if d == 5 {
        '5'
    } else if d == 6 {
        '6'
    } else if d == 7 {
        '7'
    } else if d == 8 {
        '8'
    } else {
        '9'
    }
}

/// The digit that a character writes, if it writes one.
pub open spec fn digit_value(c: char) -> Option<int> {
    if c == '0' {
        Some(0)
    } else if c == '1' {
        Some(1)
    } else if c == '2' {
        Some(2)
    } else if c == '3' {
        Some(3)
    } else if c == '4' {
        Some(4)
    } else if c == '5' {
        Some(5)
    } else if c == '6' {
        Some(6)
    } else if c == '7' {
        Some(7)
    } else if c == '8' {
        Some(8)
    } else if c == '9' {
        Some(9)
    } else {
        None
    }
}

/// Decimal notation of `n`, without sign and without leading zeros.
pub open spec fn decimal(n: nat) -> Seq<char>
    decreases n,
{
    if n < 10 {
        seq![digit_char(n as int)]
    } else {
        decimal(n / 10).push(digit_char((n % 10) as int))
    }
}

/// Whether every character of `s` is a decimal digit.
pub open spec fn all_digits(s: Seq<char>) -> bool {
    forall|i: int| 0 <= i < s.len() ==> (#[trigger] digit_value(s[i])) is Some
}

/// The number that a run of decimal digits writes, most significant first.
pub open spec fn digits_value(s: Seq<char>) -> nat
    decreases s.len(),
{
    if s.len() == 0 {
        0
    } else {
        (digits_value(s.drop_last()) * 10 + digit_value(s.last()).unwrap_or(0)) as nat
    }
}

/// What reading `s` as an unsigned 64-bit decimal number gives: an optional
/// `+`, then at least one digit and nothing else, the value within range.
pub open spec fn parsed_u64(s: Seq<char>) -> Option<u64> {
    let body = if s.len() > 0 && s[0] == '+' {
        s.skip(1)
    } else {
        s
    };
    if body.len() > 0 && all_digits(body) && digits_value(body) <= u64::MAX {
        Some(digits_value(body) as u64)
    } else {
        None
    }
}

pub(crate) fn digit_to_char(d: u64) -> (c: char)
    requires
        d < 10,
    ensures
        c == digit_char(d as int),
{
    if d == 0 {
        '0'
    } else if d == 1 {
        '1'
    } else if d == 2 {
        '2'
    } else if d == 3 {
        '3'
    } else if d == 4 {
        '4'
    } else if d == 5 {
        '5'
    } else if d == 6 {
        '6'
    } else if d == 7 {
        '7'
    } else if d == 8 {
        '8'
    } else {
        '9'
    }
}

pub(crate) fn char_to_digit(c: char) -> (d: Option<u64>)
    ensures
        match d {
            Some(v) => digit_value(c) == Some(v as int) && v < 10,
            None => digit_value(c) is None,
        },
{
    if c == '0' {
        Some(0)
    } else if c == '1' {
        Some(1)
    } else if c == '2' {
        Some(2)
    } else if c == '3' {
        Some(3)
    } else if c == '4' {
        Some(4)
    } else if c == '5' {
        Some(5)
    } else if c == '6' {
        Some(6)
    } else if c == '7' {
        Some(7)
    } else if c == '8' {
        Some(8)
    } else if c == '9' {
        Some(9)
    } else {
        None
    }
}

/// Decimal notation of `n`.
pub fn u64_to_string(n: u64) -> (s: String)
    ensures
        s@ == decimal(n as nat),
{
    // Digits come out least significant first; `rev` collects them in that order.
    let mut rev: Vec<char> = Vec::new();
    let mut rest: u64 = n;
    while rest >= 10
        invariant
            decimal(n as nat) == decimal(rest as nat) + rev@.reverse(),
        decreases rest,
    {
        let d: u64 = rest % 10;
        let ghost before = rev@;
        rev.push(digit_to_char(d));
        proof {
            assert(rev@.reverse() == seq![digit_char(d as int)] + before.reverse());
            assert(decimal(rest as nat) == decimal((rest / 10) as nat).push(digit_char(d as int)));
            assert(decimal((rest / 10) as nat).push(digit_char(d as int)) + before.reverse()
                == decimal((rest / 10) as nat) + (seq![digit_char(d as int)] + before.reverse()));
        }
        rest = rest / 10;
    }
    let mut s = String::new();
    push_char(&mut s, digit_to_char(rest));
    let mut i: usize = rev.len();
    while i > 0
        invariant
            i <= rev.len(),
            s@ == decimal(rest as nat) + rev@.reverse().take(rev.len() - i),
            rest < 10,
        decreases i,
    {
        i = i - 1;
        push_char(&mut s, rev[i]);
        proof {
            let r = rev@.reverse();
            let k = rev.len() - i - 1;
            assert(r[k] == rev@[i as int]);
            assert(r.take(k + 1) == r.take(k).push(r[k]));
            assert((decimal(rest as nat) + r.take(k)).push(r[k]) == decimal(rest as nat) + r.take(
                k,
            ).push(r[k]));
        }
    }
    assert(rev@.reverse().take(rev.len() as int) == rev@.reverse());
    s
}

/// Reads an unsigned 64-bit number in decimal notation.
pub fn parse_u64(s: &str) -> (r: Option<u64>)
    ensures
        r == parsed_u64(s@),
{
    let chars = chars_of(s);
    let start: usize = if chars.len() > 0 && chars[0] == '+' {
        1
    } else {
        0
    };
    let ghost body = chars@.skip(start as int);
    assert(s@.skip(0) == s@);
    if start == chars.len() {
        return None;
    }
    let mut acc: u64 = 0;
    let mut i: usize = start;
    while i < chars.len()
        invariant
            start <= i <= chars.len(),
            start < chars.len(),
            chars@ == s@,
            start == (if s@.len() > 0 && s@[0] == '+' {
                1int
            } else {
                0int
            }),
            body == chars@.skip(start as int),
            s@.skip(0) == s@,
            all_digits(body.take(i - start)),
            acc == digits_value(body.take(i - start)),
        decreases chars.len() - i,
    {
        let ghost seen = body.take(i - start);
        let ghost next = body.take(i - start + 1);
        proof {
            assert(next.drop_last() == seen);
            assert(next.last() == chars@[i as int]);
        }
        match char_to_digit(chars[i]) {
            None => {
                proof {
                    assert(body[i - start] == chars@[i as int]);
                    assert(digit_value(body[i - start]) is None);
                }
                return None;
            },
            Some(d) => {
                proof {
                    assert forall|j: int| 0 <= j < next.len() implies (#[trigger] digit_value(
                        next[j],
                    )) is Some by {
                        if j < seen.len() {
                            assert(next[j] == seen[j]);
                        }
                    }
                    assert(digits_value(next) == acc * 10 + d);
                }
                if acc > (u64::MAX - d) / 10 {
                    proof {
                        assert(digits_value(next) > u64::MAX);
                        lemma_digits_value_grows(body, (i - start + 1) as int);
                    }
                    return None;
                }
                acc = acc * 10 + d;
            },
        }
        i = i + 1;
    }
    assert(body.take(body.len() as int) == body);
    Some(acc)
}

/// A run of digits writes a number no smaller than any of its beginnings.
pub proof fn lemma_digits_value_grows(s: Seq<char>, k: int)
    requires
        0 <= k <= s.len(),
    ensures
        digits_value(s.take(k)) <= digits_value(s),
    decreases s.len() - k,
{
    if k == s.len() {
        assert(s.take(k) == s);
    } else {
        lemma_digits_value_grows(s, k + 1);
        assert(s.take(k + 1).drop_last() == s.take(k));
    }
}

/// The decimal notation of a number is made of digits and writes that number.
pub proof fn lemma_decimal_value(n: nat)
    ensures
        decimal(n).len() > 0,
        all_digits(decimal(n)),
        digits_value(decimal(n)) == n,
        decimal(n)[0] != '+',
    decreases n,
{
    let s = decimal(n);
    if n < 10 {
        assert(s.drop_last() =~= Seq::<char>::empty());
        assert(digits_value(s.drop_last()) == 0);
        assert(digit_value(s.last()) == Some(n as int));
    } else {
        lemma_decimal_value(n / 10);
        let head = decimal(n / 10);
        assert(s.drop_last() =~= head);
        assert(digit_value(s.last()) == Some((n % 10) as int));
        assert forall|i: int| 0 <= i < s.len() implies (#[trigger] digit_value(s[i])) is Some by {
            if i < head.len() {
                assert(s[i] == head[i]);
            }
        }
        assert(s[0] == head[0]);
    }
}

/// Reading the decimal notation of a number gives the number back.
pub proof fn law_decimal_round_trip(n: u64)
    ensures
        parsed_u64(decimal(n as nat)) == Some(n),
{
    lemma_decimal_value(n as nat);
}

/// Whether `i` is the first place at which `c` stands in `s`.
pub open spec fn is_first(s: Seq<char>, c: char, i: int) -> bool {
    0 <= i < s.len() && s[i] == c && forall|j: int| 0 <= j < i ==> s[j] != c
}

/// The first place at which `c` stands in `s`, if it stands anywhere.
pub open spec fn first_at(s: Seq<char>, c: char) -> Option<int> {
    if exists|i: int| is_first(s, c, i) {
        Some(choose|i: int| is_first(s, c, i))
    } else {
        None
    }
}

/// What stands before the first `c` in `s`: all of `s` where there is none.
pub open spec fn before(s: Seq<char>, c: char) -> Seq<char> {
    match first_at(s, c) {
        Some(i) => s.take(i),
        None => s,
    }
}

/// What stands after the first `c` in `s`, where there is one.
pub open spec fn after(s: Seq<char>, c: char) -> Option<Seq<char>> {
    match first_at(s, c) {
        Some(i) => Some(s.skip(i + 1)),
        None => None,
    }
}

/// The first place at which `c` stands in `v`.
pub fn find_char(v: &Vec<char>, c: char) -> (at: Option<usize>)
    ensures
        match at {
            Some(i) => first_at(v@, c) == Some(i as int) && i < v@.len(),
            None => first_at(v@, c) is None,
        },
{
    let mut i: usize = 0;
    while i < v.len()
        invariant
            i <= v@.len(),
            forall|j: int| 0 <= j < i ==> v@[j] != c,
        decreases v@.len() - i,
    {
        if v[i] == c {
            assert(is_first(v@, c, i as int));
            let ghost k = choose|k: int| is_first(v@, c, k);
            assert(k == i) by {
                if k < i {
                    assert(v@[k] != c);
                }
            }
            return Some(i);
        }
        i = i + 1;
    }
    assert forall|k: int| !is_first(v@, c, k) by {
        if 0 <= k < v@.len() {
            assert(v@[k] != c);
        }
    }
    None
}

/// The characters of `v` from place `from` up to, not counting, place `to`.
pub fn copy_range(v: &Vec<char>, from: usize, to: usize) -> (out: Vec<char>)
    requires
        from <= to <= v@.len(),
    ensures
        out@ == v@.subrange(from as int, to as int),
{
    let mut out: Vec<char> = Vec::new();
    let mut i: usize = from;
    while i < to
        invariant
            from <= i <= to <= v@.len(),
            out@ == v@.subrange(from as int, i as int),
        decreases to - i,
    {
        out.push(v[i]);
        assert(v@.subrange(from as int, i + 1) == v@.subrange(from as int, i as int).push(
            v@[i as int],
        ));
        i = i + 1;
    }
    out
}

/// The two sides of the first `c` in `v`: what stands before it, and what
/// stands after it where `v` has a `c`.
pub fn cut(v: &Vec<char>, c: char) -> (sides: (Vec<char>, Option<Vec<char>>))
    ensures
        sides.0@ == before(v@, c),
        match sides.1 {
            Some(rest) => after(v@, c) == Some(rest@),
            None => after(v@, c) is None,
        },
{
    let n: usize = v.len();
    match find_char(v, c) {
        Some(i) => {
            let head = copy_range(v, 0, i);
            let rest = copy_range(v, i + 1, n);
            (head, Some(rest))
        },
        None => {
            let head = copy_range(v, 0, v.len());
            assert(v@.subrange(0, v@.len() as int) == v@);
            (head, None)
        },
    }
}

/// Whether `s` is the text `word`.
pub fn text_is(s: &str, word: &str) -> (same: bool)
    ensures
        same == (s@ == word@),
{
    String::from_str(s) == String::from_str(word)
}

} // verus!

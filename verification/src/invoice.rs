//! The amount that an invoice names in its prefix, read from the text of the
//! invoice alone.
//!
//! The text of an invoice is a prefix, the separator `1` and the data. The
//! prefix names the currency, then the amount as a number and a letter that
//! scales it down. Where the letter is missing the amount is in whole coins,
//! and only a small number of those can be held in 64 bits once it is
//! counted in the smallest unit, a million millionth of a coin.

use crate::text::{char_to_digit, chars_of, digit_value, digits_value, lemma_digits_value_grows};
use vstd::prelude::*;

verus! {

/// The most whole coins that an invoice can name: one more, counted in
/// million millionths, is beyond 64 bits.
pub const MAX_WHOLE_COINS: u64 = 18_446_744;

/// Whether `i` is the last place at which `c` stands in `s`.
pub open spec fn is_last(s: Seq<char>, c: char, i: int) -> bool {
    0 <= i < s.len() && s[i] == c && forall|j: int| i < j < s.len() ==> s[j] != c
}

/// The prefix of an invoice text: what stands before the last `1`, where the
/// text has one.
pub open spec fn prefix_of(text: Seq<char>) -> Option<Seq<char>> {
    if exists|i: int| is_last(text, '1', i) {
        Some(text.take(choose|i: int| is_last(text, '1', i)))
    } else {
        None
    }
}

/// Whether the digits at the end of `s` begin at place `j`: from there on
/// all are digits, and what stands before, if anything, is none.
pub open spec fn digits_begin(s: Seq<char>, j: int) -> bool {
    &&& 0 <= j <= s.len()
    &&& forall|k: int| j <= k < s.len() ==> (#[trigger] digit_value(s[k])) is Some
    &&& j > 0 ==> digit_value(s[j - 1]) is None
}

/// The digits that `s` ends in, as many as there are.
pub open spec fn trailing_digits(s: Seq<char>) -> Seq<char> {
    s.skip(choose|j: int| digits_begin(s, j))
}

/// The whole coins that the invoice text names: the number that its prefix
/// ends in. `None` where the text has no prefix or the prefix does not end
/// in a digit, so that the amount is missing or scaled by a letter.
pub open spec fn whole_coins(text: Seq<char>) -> Option<nat> {
    match prefix_of(text) {
        Some(prefix) => if trailing_digits(prefix).len() > 0 {
            Some(digits_value(trailing_digits(prefix)))
        } else {
            None
        },
        None => None,
    }
}

/// Whether the invoice text names more whole coins than an invoice can.
pub open spec fn names_too_much(text: Seq<char>) -> bool {
    match whole_coins(text) {
        Some(coins) => coins > MAX_WHOLE_COINS,
        None => false,
    }
}

/// The digits at the end of a text begin at one place only.
pub proof fn lemma_digits_begin_once(s: Seq<char>, i: int, j: int)
    requires
        digits_begin(s, i),
        digits_begin(s, j),
    ensures
        i == j,
{
    if i < j {
        assert(digit_value(s[j - 1]) is Some);
    }
    if j < i {
        assert(digit_value(s[i - 1]) is Some);
    }
}

/// The place of the last `1` in `v`.
fn last_separator(v: &Vec<char>) -> (at: Option<usize>)
    ensures
        match at {
            Some(i) => i < v@.len() && prefix_of(v@) == Some(v@.take(i as int)),
            None => prefix_of(v@) is None,
        },
{
    let mut i: usize = v.len();
    while i > 0
        invariant
            i <= v@.len(),
            forall|j: int| i <= j < v@.len() ==> v@[j] != '1',
        decreases i,
    {
        i = i - 1;
        if v[i] == '1' {
            proof {
                assert(is_last(v@, '1', i as int));
                let k = choose|k: int| is_last(v@, '1', k);
                assert(k == i) by {
                    if k < i {
                        assert(v@[i as int] != '1');
                    }
                    if k > i {
                        assert(v@[k] != '1');
                    }
                }
            }
            return Some(i);
        }
    }
    proof {
        assert forall|k: int| !is_last(v@, '1', k) by {
            if 0 <= k < v@.len() {
                assert(v@[k] != '1');
            }
        }
    }
    None
}

/// The place at which the digits at the end of the first `end` characters
/// of `v` begin.
fn digits_start(v: &Vec<char>, end: usize) -> (start: usize)
    requires
        end <= v@.len(),
    ensures
        start <= end,
        digits_begin(v@.take(end as int), start as int),
        trailing_digits(v@.take(end as int)) == v@.subrange(start as int, end as int),
{
    let ghost s = v@.take(end as int);
    let mut j: usize = end;
    let mut open = true;
    while open && j > 0
        invariant
            j <= end <= v@.len(),
            s == v@.take(end as int),
            forall|k: int| j <= k < end ==> (#[trigger] digit_value(s[k])) is Some,
            !open ==> j > 0 && digit_value(s[j - 1]) is None,
        decreases j + (if open {
            1int
        } else {
            0int
        }),
    {
        assert(s[j - 1] == v@[j - 1]);
        if char_to_digit(v[j - 1]).is_none() {
            open = false;
        } else {
            j = j - 1;
        }
    }
    proof {
        assert(digits_begin(s, j as int));
        let chosen = choose|k: int| digits_begin(s, k);
        lemma_digits_begin_once(s, chosen, j as int);
        assert(s.skip(j as int) =~= v@.subrange(j as int, end as int));
    }
    j
}

/// Whether an invoice text names an amount that an invoice can name. It
/// cannot where the amount is in whole coins and above `MAX_WHOLE_COINS`.
pub fn amount_fits(text: &str) -> (fits: bool)
    ensures
        fits == !names_too_much(text@),
{
    let chars = chars_of(text);
    let end = match last_separator(&chars) {
        Some(end) => end,
        None => {
            return true;
        },
    };
    let start = digits_start(&chars, end);
    let ghost run = chars@.subrange(start as int, end as int);
    let mut coins: u64 = 0;
    let mut i: usize = start;
    while i < end
        invariant
            start <= i <= end <= chars@.len(),
            chars@ == text@,
            prefix_of(chars@) == Some(chars@.take(end as int)),
            trailing_digits(chars@.take(end as int)) == run,
            run == chars@.subrange(start as int, end as int),
            forall|k: int| 0 <= k < run.len() ==> (#[trigger] digit_value(run[k])) is Some,
            coins == digits_value(run.take(i - start)),
            coins <= MAX_WHOLE_COINS,
        decreases end - i,
    {
        let ghost next = run.take(i - start + 1);
        proof {
            assert(next.drop_last() == run.take(i - start));
            assert(next.last() == chars@[i as int]);
            assert(digit_value(run[i - start]) is Some);
        }
        let d: u64 = match char_to_digit(chars[i]) {
            Some(d) => d,
            None => 0,
        };
        assert(digits_value(next) == coins * 10 + d);
        if coins > (MAX_WHOLE_COINS - d) / 10 {
            proof {
                assert(digits_value(next) > MAX_WHOLE_COINS);
                lemma_digits_value_grows(run, (i - start + 1) as int);
            }
            return false;
        }
        coins = coins * 10 + d;
        i = i + 1;
    }
    assert(run.take(run.len() as int) == run);
    true
}

} // verus!

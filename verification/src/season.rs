//! Season keys: the markers `s<N>` under which a mapping record lists the
//! seasons it covers.

use crate::text::{
    all_digits, char_is_digit, chars_of, decimal_digits, decimal_value, digit_char, digit_run_end,
    digit_value, is_digit, lemma_digit_run_end, parse_u32_chars, push_decimal, string_of,
    subrange_of,
};
use vstd::prelude::*;

verus! {

/// The key under which season `season` is listed: `s` and the season's number
/// in decimal.
pub open spec fn season_key_text(season: u32) -> Seq<char> {
    seq!['s'] + decimal_digits(season as nat)
}

/// The season that a key names: the key starts with `s`, and the digits that
/// follow (up to the first character that is no digit) are the season's
/// number. A key of another shape, or whose number does not fit in a `u32`,
/// names no season.
pub open spec fn season_of_key(key: Seq<char>) -> Option<u32> {
    if key.len() > 0 && key[0] == 's' {
        let digits = key.subrange(1, digit_run_end(key, 1));
        if digits.len() > 0 && decimal_value(digits) <= u32::MAX {
            Some(decimal_value(digits) as u32)
        } else {
            None
        }
    } else {
        None
    }
}

/// The smallest season that any of the keys names, if any of them names one.
pub open spec fn min_season(keys: Seq<Seq<char>>) -> Option<u32>
    decreases keys.len(),
{
    if keys.len() == 0 {
        None
    } else {
        match (min_season(keys.drop_last()), season_of_key(keys.last())) {
            (Some(a), Some(b)) => Some(
                if b < a {
                    b
                } else {
                    a
                },
            ),
            (Some(a), None) => Some(a),
            (None, found) => found,
        }
    }
}

/// `min_season` is the least of the seasons named: some key names it, and no
/// key names a smaller one. It is `None` exactly when no key names a season.
pub proof fn lemma_min_season_is_least(keys: Seq<Seq<char>>)
    ensures
        match min_season(keys) {
            Some(m) => {
                &&& exists|i: int| 0 <= i < keys.len() && season_of_key(#[trigger] keys[i]) == Some(m)
                &&& forall|i: int|
                    0 <= i < keys.len() ==> match season_of_key(#[trigger] keys[i]) {
                        Some(n) => m <= n,
                        None => true,
                    }
            },
            None => forall|i: int| 0 <= i < keys.len() ==> season_of_key(#[trigger] keys[i]) is None,
        },
    decreases keys.len(),
{
    if keys.len() > 0 {
        let front = keys.drop_last();
        lemma_min_season_is_least(front);
        let last = keys.len() - 1;
        assert(forall|i: int| 0 <= i < front.len() ==> front[i] == keys[i]);
        match min_season(keys) {
            Some(m) => {
                if season_of_key(keys.last()) == Some(m) {
                    assert(season_of_key(keys[last]) == Some(m));
                } else {
                    let i = choose|i: int|
                        0 <= i < front.len() && season_of_key(#[trigger] front[i]) == Some(m);
                    assert(season_of_key(keys[i]) == Some(m));
                }
                assert forall|i: int| 0 <= i < keys.len() implies match season_of_key(
                    #[trigger] keys[i],
                ) {
                    Some(n) => m <= n,
                    None => true,
                } by {
                    if i < last {
                        assert(front[i] == keys[i]);
                    }
                }
            },
            None => {
                assert forall|i: int| 0 <= i < keys.len() implies season_of_key(
                    #[trigger] keys[i],
                ) is None by {
                    if i < last {
                        assert(front[i] == keys[i]);
                    }
                }
            },
        }
    }
}

/// The digits of a canonical rendering are digits, and are worth the number
/// rendered.
pub proof fn lemma_decimal_digits_value(n: nat)
    ensures
        decimal_digits(n).len() > 0,
        all_digits(decimal_digits(n)),
        decimal_value(decimal_digits(n)) == n,
    decreases n,
{
    if n < 10 {
        let s = seq![digit_char(n)];
        assert(s.drop_last() =~= Seq::<char>::empty());
        assert(decimal_value(s.drop_last()) == 0);
        assert(digit_value(s.last()) == n);
    } else {
        lemma_decimal_digits_value(n / 10);
        let front = decimal_digits(n / 10);
        let c = digit_char(n % 10);
        assert(front.push(c).drop_last() =~= front);
        assert(digit_value(c) == n % 10);
    }
}

/// The key written for a season names that season.
pub proof fn lemma_season_key_round_trip(season: u32)
    ensures
        season_of_key(season_key_text(season)) == Some(season),
{
    let digits = decimal_digits(season as nat);
    let key = season_key_text(season);
    lemma_decimal_digits_value(season as nat);
    lemma_digit_run_end(key, 1);
    let end = digit_run_end(key, 1);
    assert(key.len() == digits.len() + 1);
    assert forall|i: int| 1 <= i < key.len() implies is_digit(key[i]) by {
        assert(key[i] == digits[i - 1]);
    }
    assert(end == key.len());
    assert(key.subrange(1, end) =~= digits);
}

/// Reads the season that a key names.
pub fn parse_season_key(key: &str) -> (r: Option<u32>)
    ensures
        r == season_of_key(key@),
{
    let chars = chars_of(key);
    let n = chars.len();
    if n == 0 || chars[0] != 's' {
        return None;
    }
    let mut end: usize = 1;
    while end < n && char_is_digit(chars[end])
        invariant
            1 <= end <= n == chars.len(),
            digit_run_end(chars@, 1) == digit_run_end(chars@, end as int),
        decreases n - end,
    {
        end += 1;
    }
    if end == 1 {
        return None;
    }
    let digits = subrange_of(&chars, 1, end);
    proof {
        lemma_digit_run_end(chars@, 1);
        assert(all_digits(digits@));
        assert(digits@.skip(0) =~= digits@);
    }
    parse_u32_chars(&digits)
}

/// Writes the key under which a season is listed.
pub fn season_key(season: u32) -> (r: String)
    ensures
        r@ == season_key_text(season),
{
    let mut out: Vec<char> = Vec::new();
    out.push('s');
    push_decimal(&mut out, season as u64);
    assert(out@ =~= season_key_text(season));
    string_of(&out)
}

/// The smallest season that any of the keys names.
pub fn earliest_season(keys: &Vec<String>) -> (r: Option<u32>)
    ensures
        r == min_season(keys.deep_view()),
{
    let mut best: Option<u32> = None;
    let mut i: usize = 0;
    while i < keys.len()
        invariant
            i <= keys.len(),
            best == min_season(keys.deep_view().take(i as int)),
        decreases keys.len() - i,
    {
        let found = parse_season_key(keys[i].as_str());
        proof {
            let next = keys.deep_view().take(i + 1);
            assert(next.drop_last() =~= keys.deep_view().take(i as int));
            assert(next.last() == keys@[i as int]@);
        }
        best = match (best, found) {
            (Some(a), Some(b)) => Some(
                if b < a {
                    b
                } else {
                    a
                },
            ),
            (Some(a), None) => Some(a),
            (None, found) => found,
        };
        i += 1;
    }
    assert(keys.deep_view().take(keys.len() as int) =~= keys.deep_view());
    best
}

} // verus!

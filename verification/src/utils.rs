//! Countdown arithmetic and text: rendering a remaining-seconds count as
//! `"37s"` or `"2m 30s"`, parsing a typed duration, and deciding when a
//! session has expired.

use vstd::prelude::*;

verus! {

/// The decimal digit character for `d`, which must lie in `0 ..= 9`.
pub open spec fn digit_char(d: int) -> char {
    if d == 0 {
        '0'
    } else if d == 1 {
        '1'
    } else if d == 2 {
        '2'
    } else if d == 3 {
        '3'
    } else if d == 4 {
        '4'
    } else if d == 5 {
        '5'
    } else if d == 6 {
        '6'
    } else if d == 7 {
        '7'
    } else if d == 8 {
        '8'
    } else {
        '9'
    }
}

/// The decimal rendering of `n`, most significant digit first, with no
/// leading zeros (a single `'0'` for zero).
pub open spec fn dec_str(n: nat) -> Seq<char>
    decreases n,
{
    if n < 10 {
        seq![digit_char(n as int)]
    } else {
        dec_str(n / 10).push(digit_char((n % 10) as int))
    }
}

/// A decimal digit character.
pub open spec fn is_digit(c: char) -> bool {
    '0' <= c && c <= '9'
}

/// Every character of `s` is a decimal digit.
pub open spec fn all_digits(s: Seq<char>) -> bool {
    forall|i: int| 0 <= i < s.len() ==> is_digit(#[trigger] s[i])
}

/// Every character a decimal rendering produces is a digit.
pub proof fn lemma_dec_str_digits(n: nat)
    ensures
        all_digits(dec_str(n)),
        dec_str(n).len() >= 1,
    decreases n,
{
    if n >= 10 {
        lemma_dec_str_digits(n / 10);
    }
}

/// One-character string slice for the digit `d`.
pub(crate) fn digit_str(d: u64) -> (r: &'static str)
    requires
        d < 10,
    ensures
        r@ =~= seq![digit_char(d as int)],
{
    proof {
        reveal_strlit("0");
        reveal_strlit("1");
        reveal_strlit("2");
        reveal_strlit("3");
        reveal_strlit("4");
        reveal_strlit("5");
        reveal_strlit("6");
        reveal_strlit("7");
        reveal_strlit("8");
        reveal_strlit("9");
    }
    match d {
        0 => "0",
        1 => "1",
        2 => "2",
        3 => "3",
        4 => "4",
        5 => "5",
        6 => "6",
        7 => "7",
        8 => "8",
        _ => "9",
    }
}

/// Renders `n` in decimal.
pub fn u64_to_string(n: u64) -> (r: String)
    ensures
        r@ == dec_str(n as nat),
    decreases n,
{
    if n < 10 {
        let r = digit_str(n).to_owned();
        proof {
            assert(r@ =~= dec_str(n as nat));
        }
        r
    } else {
        let mut r = u64_to_string(n / 10);
        r.append(digit_str(n % 10));
        proof {
            assert(r@ =~= dec_str(n as nat));
        }
        r
    }
}

/// The text shown for a count of `s` remaining seconds: the bare seconds
/// under a minute, and whole minutes with the leftover seconds from a
/// minute up.
pub open spec fn time_str(s: nat) -> Seq<char> {
    if s < 60 {
        dec_str(s) + seq!['s']
    } else {
        dec_str(s / 60) + seq!['m', ' '] + dec_str(s % 60) + seq!['s']
    }
}

/// Below one minute the display is exactly the seconds count followed
/// by `'s'`.
pub proof fn lemma_time_str_seconds(s: nat)
    requires
        s < 60,
    ensures
        time_str(s) == dec_str(s) + seq!['s'],
{
}

/// From one minute up the display is `"{m}m {r}s"` where `m` is the whole
/// minutes, `r` the leftover seconds: `r < 60` and `m * 60 + r == s`.
pub proof fn lemma_time_str_minutes(s: nat)
    requires
        s >= 60,
    ensures
        time_str(s) == dec_str(s / 60) + seq!['m', ' '] + dec_str(s % 60) + seq!['s'],
        s % 60 < 60,
        (s / 60) * 60 + s % 60 == s,
{
    vstd::arithmetic::div_mod::lemma_fundamental_div_mod(s as int, 60);
}

/// Formats a remaining-seconds count for display.
pub fn to_time_str(seconds: u64) -> (r: String)
    ensures
        r@ == time_str(seconds as nat),
{
    proof {
        reveal_strlit("s");
        reveal_strlit("m ");
    }
    if seconds < 60 {
        let mut r = u64_to_string(seconds);
        r.append("s");
        proof {
            assert(r@ =~= time_str(seconds as nat));
        }
        r
    } else {
        let mut r = u64_to_string(seconds / 60);
        r.append("m ");
        let tail = u64_to_string(seconds % 60);
        r.append(tail.as_str());
        r.append("s");
        proof {
            assert(r@ =~= time_str(seconds as nat));
        }
        r
    }
}

/// The signed countdown, in seconds, of a session that started at `start`
/// with a planned length of `duration` minutes, seen at instant `now`.
pub open spec fn countdown_secs(start: int, duration: int, now: int) -> int {
    duration * 60 - (now - start)
}

/// Computes what a running timer should show at instant `now`: `None`
/// once less than one second remains — the expiry signal that drives the
/// automatic transition to a confirmation state — and the formatted
/// remaining time otherwise.
pub fn render_timer(start: u64, duration: i32, now: u64) -> (r: Option<String>)
    requires
        now >= start,
    ensures
        r is Some <==> countdown_secs(start as int, duration as int, now as int) >= 1,
        r matches Some(t) ==> t@ == time_str(
            countdown_secs(start as int, duration as int, now as int) as nat,
        ),
{
    let total: i64 = duration as i64 * 60;
    if total < 1 {
        return None;
    }
    let elapsed: u64 = now - start;
    if elapsed >= total as u64 {
        return None;
    }
    let remaining: u64 = total as u64 - elapsed;
    Some(to_time_str(remaining))
}

/// The numeric value of the digit character `c`.
pub open spec fn digit_val(c: char) -> int {
    c as int - '0' as int
}

/// The value of an all-digit sequence read in base ten, most significant
/// digit first.
pub open spec fn digits_val(s: Seq<char>) -> int
    decreases s.len(),
{
    if s.len() == 0 {
        0
    } else {
        digits_val(s.drop_last()) * 10 + digit_val(s.last())
    }
}

/// An all-digit sequence never has a negative value.
pub proof fn lemma_digits_val_nonneg(s: Seq<char>)
    requires
        all_digits(s),
    ensures
        digits_val(s) >= 0,
    decreases s.len(),
{
    if s.len() > 0 {
        assert(all_digits(s.drop_last()));
        lemma_digits_val_nonneg(s.drop_last());
    }
}

/// Dropping trailing digits never increases the value.
pub proof fn lemma_digits_val_prefix(s: Seq<char>, j: int)
    requires
        all_digits(s),
        0 <= j <= s.len(),
    ensures
        digits_val(s.take(j)) <= digits_val(s),
    decreases s.len() - j,
{
    if j < s.len() {
        lemma_digits_val_prefix(s, j + 1);
        let t = s.take(j + 1);
        assert(t.drop_last() =~= s.take(j));
        assert(all_digits(t.drop_last()));
        lemma_digits_val_nonneg(t.drop_last());
        assert(digits_val(t) == digits_val(s.take(j)) * 10 + digit_val(t.last()));
    } else {
        assert(s.take(j) =~= s);
    }
}

/// What a typed duration means: an optional leading minus sign, then at
/// least one digit, valued in base ten; `None` when the text is empty,
/// holds any other character, or falls outside the `i32` range.
pub open spec fn parse_duration(s: Seq<char>) -> Option<int> {
    if s.len() > 0 && s[0] == '-' {
        let mag = s.subrange(1, s.len() as int);
        if mag.len() > 0 && all_digits(mag) && -digits_val(mag) >= i32::MIN {
            Some(-digits_val(mag))
        } else {
            None
        }
    } else if s.len() > 0 && all_digits(s) && digits_val(s) <= i32::MAX {
        Some(digits_val(s))
    } else {
        None
    }
}

/// Reads a typed duration: `Some` exactly on an optionally minus-signed,
/// all-digit text whose value fits an `i32`.
pub fn parse_i32(s: &str) -> (r: Option<i32>)
    ensures
        r is Some <==> parse_duration(s@) is Some,
        r matches Some(v) ==> parse_duration(s@) == Some(v as int),
{
    let len = s.unicode_len();
    if len == 0 {
        return None;
    }
    let neg = s.get_char(0) == '-';
    let start: usize = if neg {
        1
    } else {
        0
    };
    let ghost mag: Seq<char> = s@.subrange(start as int, len as int);
    proof {
        if start == 0 {
            assert(mag =~= s@);
        }
        assert(mag.len() == len - start);
    }
    if start == len {
        return None;
    }
    let mut acc: u64 = 0;
    let mut i: usize = start;
    while i < len
        invariant
            start <= i <= len,
            len == s@.len(),
            start == 1 ==> s@[0] == '-',
            start == 0 ==> s@[0] != '-',
            start == 0 || start == 1,
            neg == (start == 1),
            mag == s@.subrange(start as int, len as int),
            start == 0 ==> mag == s@,
            all_digits(mag.take(i - start)),
            acc == digits_val(mag.take(i - start)),
            acc <= 2147483648,
        decreases len - i,
    {
        let c = s.get_char(i);
        let code = c as u32;
        if code < 48 || code > 57 {
            proof {
                assert(mag[i - start] == c);
                assert(!all_digits(mag));
            }
            return None;
        }
        let d: u64 = (code - 48) as u64;
        proof {
            let t = mag.take(i + 1 - start);
            assert(t.drop_last() =~= mag.take(i - start));
            assert(t.last() == c);
            assert(is_digit(c));
            assert(digit_val(c) == d);
            assert forall|k: int| 0 <= k < t.len() implies is_digit(#[trigger] t[k]) by {
                if k < t.len() - 1 {
                    assert(t[k] == t.drop_last()[k]);
                }
            }
            assert(all_digits(t));
            assert(digits_val(t) == acc * 10 + d);
        }
        acc = acc * 10 + d;
        if acc > 2147483648 {
            proof {
                lemma_digits_val_prefix_overflow(mag, i + 1 - start, acc as int);
            }
            return None;
        }
        i = i + 1;
    }
    proof {
        assert(mag.take(len - start) =~= mag);
    }
    if neg {
        if acc == 2147483648 {
            Some(i32::MIN)
        } else {
            Some(-(acc as i32))
        }
    } else {
        if acc <= 2147483647 {
            Some(acc as i32)
        } else {
            None
        }
    }
}

/// The duration a confirmed input buffer chooses: its parsed value, or the
/// given default when the text does not parse as an integer. A malformed
/// entry is never an error; it silently falls back.
pub open spec fn chosen_duration(input: Seq<char>, fallback: int) -> int {
    match parse_duration(input) {
        Some(v) => v,
        None => fallback,
    }
}

/// The decimal rendering of a signed value: a minus sign before the
/// magnitude when negative.
pub open spec fn i32_str(v: int) -> Seq<char> {
    if v >= 0 {
        dec_str(v as nat)
    } else {
        seq!['-'] + dec_str((-v) as nat)
    }
}

/// A character the input buffer may hold: a digit or a leading minus sign.
pub open spec fn is_input_char(c: char) -> bool {
    c == '-' || is_digit(c)
}

/// Every character of an input buffer is a digit or a minus sign.
pub open spec fn input_chars(s: Seq<char>) -> bool {
    forall|i: int| 0 <= i < s.len() ==> is_input_char(#[trigger] s[i])
}

/// Buffer characters are all ASCII, so the buffer can be sliced bytewise.
pub proof fn lemma_input_chars_ascii(s: Seq<char>)
    requires
        input_chars(s),
    ensures
        vstd::utf8::is_ascii_chars(s),
{
    assert forall|i: int| 0 <= i < s.len() implies '\0' <= #[trigger] s[i] <= '\u{7f}' by {
        assert(is_input_char(s[i]));
    }
}

/// A decimal digit's character reads back as its value.
pub proof fn lemma_digit_roundtrip(d: int)
    requires
        0 <= d <= 9,
    ensures
        is_digit(digit_char(d)),
        digit_val(digit_char(d)) == d,
{
}

/// A decimal rendering reads back as the number it renders.
pub proof fn lemma_dec_str_val(n: nat)
    ensures
        digits_val(dec_str(n)) == n,
    decreases n,
{
    if n < 10 {
        lemma_digit_roundtrip(n as int);
        assert(digits_val(Seq::<char>::empty()) == 0);
        assert(dec_str(n).drop_last() =~= Seq::<char>::empty());
        assert(dec_str(n).last() == digit_char(n as int));
    } else {
        lemma_dec_str_val(n / 10);
        lemma_digit_roundtrip((n % 10) as int);
        assert(dec_str(n).drop_last() =~= dec_str(n / 10));
        assert(dec_str(n).last() == digit_char((n % 10) as int));
        vstd::arithmetic::div_mod::lemma_fundamental_div_mod(n as int, 10);
    }
}

/// Round trip: rendering any `i32`-ranged value and parsing it back gives
/// the value itself. The input buffer seeded with a default duration
/// therefore confirms to that same default.
pub proof fn lemma_parse_roundtrip(v: int)
    requires
        i32::MIN <= v <= i32::MAX,
    ensures
        parse_duration(i32_str(v)) == Some(v),
{
    if v >= 0 {
        lemma_dec_str_digits(v as nat);
        lemma_dec_str_val(v as nat);
        let s = i32_str(v);
        assert(s[0] != '-') by {
            assert(is_digit(s[0]));
        }
    } else {
        lemma_dec_str_digits((-v) as nat);
        lemma_dec_str_val((-v) as nat);
        let s = i32_str(v);
        assert(s.subrange(1, s.len() as int) =~= dec_str((-v) as nat));
    }
}

/// A signed decimal rendering holds only buffer characters.
pub proof fn lemma_i32_str_input_chars(v: int)
    ensures
        input_chars(i32_str(v)),
{
    if v >= 0 {
        lemma_dec_str_digits(v as nat);
    } else {
        lemma_dec_str_digits((-v) as nat);
    }
}

/// Renders a signed value in decimal.
pub fn i32_to_string(v: i32) -> (r: String)
    ensures
        r@ == i32_str(v as int),
{
    proof {
        reveal_strlit("-");
    }
    if v >= 0 {
        u64_to_string(v as u64)
    } else {
        let mag: u64 = (-(v as i64)) as u64;
        let mut r = String::from_str("-");
        let tail = u64_to_string(mag);
        r.append(tail.as_str());
        proof {
            assert(r@ =~= i32_str(v as int));
        }
        r
    }
}

/// Once a digit prefix already exceeds the `i32` magnitude bound, the full
/// text cannot name an in-range value: the parse must fail.
proof fn lemma_digits_val_prefix_overflow(mag: Seq<char>, j: int, v: int)
    requires
        0 <= j <= mag.len(),
        all_digits(mag.take(j)),
        digits_val(mag.take(j)) == v,
        v > 2147483648,
    ensures
        all_digits(mag) ==> digits_val(mag) > 2147483648,
{
    if all_digits(mag) {
        lemma_digits_val_prefix(mag, j);
    }
}

} // verus!

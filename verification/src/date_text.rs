use vstd::prelude::*;

use crate::text::chars_of;

verus! {

/// Whether `c` is one of the digits `0` to `9`.
pub open spec fn is_digit(c: char) -> bool {
    '0' <= c && c <= '9'
}

/// Whether `c` is an ASCII letter or `_`.
pub open spec fn is_word_char(c: char) -> bool {
    ('a' <= c && c <= 'z') || ('A' <= c && c <= 'Z') || c == '_'
}

/// Whether `c` is ASCII white space.
pub open spec fn is_space(c: char) -> bool {
    c == ' ' || c == '\t' || c == '\n' || c == '\r' || c == '\u{b}' || c == '\u{c}'
}

/// Whether `c` is a digit or ASCII white space.
pub open spec fn digit_or_space(c: char) -> bool {
    is_digit(c) || is_space(c)
}

/// Every non-ASCII character comes right after three ASCII letters or
/// underscores, so that each word starts with three ASCII characters (the
/// reader cuts the first one or three bytes off a word to find a weekday,
/// month or unit name).
pub open spec fn words_start_ascii(s: Seq<char>) -> bool {
    forall|i: int|
        0 <= i < s.len() && #[trigger] s[i] >= '\u{80}' ==> 3 <= i && is_word_char(s[i - 3])
            && is_word_char(s[i - 2]) && is_word_char(s[i - 1])
}

/// Five digits stand at `i`.
pub open spec fn five_digits_at(s: Seq<char>, i: int) -> bool {
    &&& 0 <= i
    &&& i + 5 <= s.len()
    &&& is_digit(s[i])
    &&& is_digit(s[i + 1])
    &&& is_digit(s[i + 2])
    &&& is_digit(s[i + 3])
    &&& is_digit(s[i + 4])
}

/// From `i` on, past digits and spaces, comes a word (a unit or `am`/`pm`)
/// or a `:` or `.` (an hour).
pub open spec fn word_or_time_follows(s: Seq<char>, i: int) -> bool {
    exists|k: int|
        i <= k < s.len() && (forall|m: int| i <= m < k ==> digit_or_space(#[trigger] s[m])) && (
        is_word_char(#[trigger] s[k]) || s[k] == ':' || s[k] == '.')
}

/// Before `i`, past digits and spaces, comes a sign or a `:` (a time zone
/// offset or its minutes).
pub open spec fn offset_precedes(s: Seq<char>, i: int) -> bool {
    exists|k: int|
        0 <= k < i && (forall|m: int| k < m < i ==> digit_or_space(#[trigger] s[m])) && (#[trigger] s[k]
            == '+' || s[k] == '-' || s[k] == ':')
}

/// A number of five digits or more is neither a shift in some unit, an hour,
/// nor part of a time zone offset: these overflow the reader's arithmetic
/// (`2000000000 weeks ago`). Numbers up to four digits never do.
pub open spec fn long_numbers_stand_alone(s: Seq<char>) -> bool {
    forall|i: int|
        #[trigger] five_digits_at(s, i) ==> !word_or_time_follows(s, i + 5) && !offset_precedes(
            s,
            i,
        )
}

/// A `.` after a `:` (a fraction of a second) is followed by a digit or ends
/// the text: the reader takes the character after the dot as a digit
/// (`12:30:00.x`).
pub open spec fn fractions_start_with_digit(s: Seq<char>) -> bool {
    forall|i: int, j: int|
        0 <= j < i < s.len() && #[trigger] s[j] == ':' && #[trigger] s[i] == '.' ==> i + 1
            == s.len() || is_digit(s[i + 1])
}

/// A date option that `chrono_english` reads, relative to an instant that
/// satisfies `date_base`, without stopping the program: well-formed words,
/// no long numbers in its arithmetic, and digits after a fraction's dot.
pub open spec fn safe_date_text(s: Seq<char>) -> bool {
    &&& words_start_ascii(s)
    &&& long_numbers_stand_alone(s)
    &&& fractions_start_with_digit(s)
}

/// The first index from `start` on that is neither a digit nor a space, or
/// the length.
fn skip_forward(v: &Vec<char>, start: usize) -> (k: usize)
    requires
        start <= v.len(),
    ensures
        start <= k <= v.len(),
        forall|m: int| start <= m < k ==> digit_or_space(#[trigger] v@[m]),
        k < v.len() ==> !digit_or_space(v@[k as int]),
{
    let mut k = start;
    while k < v.len() && (('0' <= v[k] && v[k] <= '9') || v[k] == ' ' || v[k] == '\t' || v[k]
        == '\n' || v[k] == '\r' || v[k] == '\u{b}' || v[k] == '\u{c}')
        invariant
            start <= k <= v.len(),
            forall|m: int| start <= m < k ==> digit_or_space(#[trigger] v@[m]),
        decreases v.len() - k,
    {
        k += 1;
    }
    k
}

/// The last index before `end` that is neither a digit nor a space.
fn skip_backward(v: &Vec<char>, end: usize) -> (r: Option<usize>)
    requires
        end <= v.len(),
    ensures
        r matches Some(k) ==> k < end && !digit_or_space(v@[k as int]) && forall|m: int|
            k < m < end ==> digit_or_space(#[trigger] v@[m]),
        r is None ==> forall|m: int| 0 <= m < end ==> digit_or_space(#[trigger] v@[m]),
{
    let mut k = end;
    while k > 0 && (('0' <= v[k - 1] && v[k - 1] <= '9') || v[k - 1] == ' ' || v[k - 1] == '\t'
        || v[k - 1] == '\n' || v[k - 1] == '\r' || v[k - 1] == '\u{b}' || v[k - 1] == '\u{c}')
        invariant
            k <= end <= v.len(),
            forall|m: int| k <= m < end ==> digit_or_space(#[trigger] v@[m]),
        decreases k,
    {
        k -= 1;
    }
    if k == 0 {
        None
    } else {
        Some(k - 1)
    }
}

/// Whether five digits stand at `i`.
fn five_digits(v: &Vec<char>, i: usize) -> (r: bool)
    ensures
        r == five_digits_at(v@, i as int),
{
    if i > v.len() || v.len() - i < 5 {
        return false;
    }
    let mut j: usize = 0;
    while j < 5
        invariant
            i + 5 <= v.len(),
            j <= 5,
            forall|m: int| 0 <= m < j ==> is_digit(#[trigger] v@[i + m]),
        decreases 5 - j,
    {
        if !('0' <= v[i + j] && v[i + j] <= '9') {
            return false;
        }
        j += 1;
    }
    assert(is_digit(v@[i + 0]) && is_digit(v@[i + 1]) && is_digit(v@[i + 2]) && is_digit(
        v@[i + 3],
    ) && is_digit(v@[i + 4]));
    true
}

/// Whether the text is a date option that can be read without stopping the
/// program.
pub fn is_safe_date_text(s: &str) -> (r: bool)
    ensures
        r == safe_date_text(s@),
{
    let v = chars_of(s);
    let n = v.len();
    let mut seen_colon = false;
    let mut i: usize = 0;
    while i < n
        invariant
            v@ == s@,
            n == v.len(),
            i <= n,
            forall|k: int|
                0 <= k < i && #[trigger] v@[k] >= '\u{80}' ==> 3 <= k && is_word_char(v@[k - 3])
                    && is_word_char(v@[k - 2]) && is_word_char(v@[k - 1]),
            forall|k: int|
                0 <= k < i && #[trigger] five_digits_at(v@, k) ==> !word_or_time_follows(
                    v@,
                    k + 5,
                ) && !offset_precedes(v@, k),
            forall|a: int, b: int|
                0 <= b < a < i && #[trigger] v@[b] == ':' && #[trigger] v@[a] == '.' ==> a + 1
                    == n || is_digit(v@[a + 1]),
            seen_colon == (exists|b: int| 0 <= b < i && #[trigger] v@[b] == ':'),
        decreases n - i,
    {
        let c = v[i];
        if c >= '\u{80}' {
            if i < 3 {
                assert(v@[i as int] >= '\u{80}');
                return false;
            }
            let a = v[i - 3];
            let b = v[i - 2];
            let d = v[i - 1];
            if !((('a' <= a && a <= 'z') || ('A' <= a && a <= 'Z') || a == '_') && (('a' <= b
                && b <= 'z') || ('A' <= b && b <= 'Z') || b == '_') && (('a' <= d && d <= 'z')
                || ('A' <= d && d <= 'Z') || d == '_')) {
                assert(v@[i as int] >= '\u{80}');
                return false;
            }
        }
        if five_digits(&v, i) {
            let k = skip_forward(&v, i + 5);
            if k < n && ((('a' <= v[k] && v[k] <= 'z') || ('A' <= v[k] && v[k] <= 'Z') || v[k]
                == '_') || v[k] == ':' || v[k] == '.') {
                assert(word_or_time_follows(v@, i + 5));
                assert(five_digits_at(v@, i as int));
                return false;
            }
            assert(!word_or_time_follows(v@, i + 5)) by {
                if word_or_time_follows(v@, i + 5) {
                    let w = choose|w: int|
                        i + 5 <= w < v@.len() && (forall|m: int|
                            i + 5 <= m < w ==> digit_or_space(#[trigger] v@[m])) && (is_word_char(
                            #[trigger] v@[w],
                        ) || v@[w] == ':' || v@[w] == '.');
                    if w < k {
                        assert(digit_or_space(v@[w]));
                    } else if w > k {
                        assert(digit_or_space(v@[k as int]));
                    }
                }
            }
            match skip_backward(&v, i) {
                Some(k) => {
                    if v[k] == '+' || v[k] == '-' || v[k] == ':' {
                        assert(offset_precedes(v@, i as int));
                        assert(five_digits_at(v@, i as int));
                        return false;
                    }
                    assert(!offset_precedes(v@, i as int)) by {
                        if offset_precedes(v@, i as int) {
                            let w = choose|w: int|
                                0 <= w < i && (forall|m: int|
                                    w < m < i ==> digit_or_space(#[trigger] v@[m])) && (
                                #[trigger] v@[w] == '+' || v@[w] == '-' || v@[w] == ':');
                            if w < k {
                                assert(digit_or_space(v@[k as int]));
                            } else if w > k {
                                assert(digit_or_space(v@[w]));
                            }
                        }
                    }
                },
                None => {
                    assert(!offset_precedes(v@, i as int)) by {
                        if offset_precedes(v@, i as int) {
                            let w = choose|w: int|
                                0 <= w < i && (forall|m: int|
                                    w < m < i ==> digit_or_space(#[trigger] v@[m])) && (
                                #[trigger] v@[w] == '+' || v@[w] == '-' || v@[w] == ':');
                            assert(digit_or_space(v@[w]));
                        }
                    }
                },
            }
        }
        if c == '.' && seen_colon {
            if i + 1 < n && !('0' <= v[i + 1] && v[i + 1] <= '9') {
                proof {
                    let b = choose|b: int| 0 <= b < i && #[trigger] v@[b] == ':';
                    assert(v@[b] == ':' && v@[i as int] == '.');
                }
                return false;
            }
        }
        if c == ':' {
            seen_colon = true;
        }
        i += 1;
    }
    true
}

} // verus!

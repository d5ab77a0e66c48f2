//! Verified helpers for the small string formats the library produces and
//! consumes: decimal renderings of counters, `"+HH:MM"` timezone offsets, and
//! substring search over format strings.

use vstd::prelude::*;

verus! {

broadcast use vstd::seq::group_seq_axioms;

/// The decimal digit character for a value between 0 and 9.
pub open spec fn digit_char(d: int) -> char {
    if d == 0 {
        '0'
    } else if d == 1 {
        '1'
    } else if d == 2 {
        '2'
    } else if d == 3 {
        '3'
    } else if d == 4 {
        '4'
    } else if d == 5 {
        '5'
    } else if d == 6 {
        '6'
    } else if d == 7 {
        '7'
    } else if d == 8 {
        '8'
    } else {
        '9'
    }
}

/// The value of a decimal digit character, or -1 for any other character.
pub open spec fn digit_val(c: char) -> int {
    if c == '0' {
        0
    } else if c == '1' {
        1
    } else if c == '2' {
        2
    } else if c == '3' {
        3
    } else if c == '4' {
        4
    } else if c == '5' {
        5
    } else if c == '6' {
        6
    } else if c == '7' {
        7
    } else if c == '8' {
        8
    } else if c == '9' {
        9
    } else {
        -1
    }
}

/// Whether a character is a decimal digit.
pub open spec fn is_digit(c: char) -> bool {
    digit_val(c) >= 0
}

/// The decimal rendering of a natural number, most significant digit first,
/// without leading zeros (a lone zero for 0).
pub open spec fn dec_seq(n: nat) -> Seq<char>
    decreases n,
{
    if n < 10 {
        seq![digit_char(n as int)]
    } else {
        dec_seq(n / 10) + seq![digit_char((n % 10) as int)]
    }
}

/// The two-digit, zero-padded decimal rendering of a value below 100.
pub open spec fn two_digit_seq(n: int) -> Seq<char> {
    seq![digit_char(n / 10), digit_char(n % 10)]
}

/// The `"+HH:MM"` / `"-HH:MM"` rendering of a UTC offset in seconds; whole
/// seconds below a minute are dropped.
pub open spec fn offset_str_seq(off: int) -> Seq<char> {
    let mag = if off < 0 {
        -off
    } else {
        off
    };
    (if off < 0 {
        seq!['-']
    } else {
        seq!['+']
    }) + two_digit_seq(mag / 3600) + seq![':'] + two_digit_seq((mag % 3600) / 60)
}

/// Whether a character sequence is a well-formed `"+HH:MM"` / `"-HH:MM"`
/// offset string: sign, two-digit hour below 24, colon, two-digit minute
/// below 60.
pub open spec fn valid_offset_str(s: Seq<char>) -> bool {
    &&& s.len() == 6
    &&& (s[0] == '+' || s[0] == '-')
    &&& is_digit(s[1]) && is_digit(s[2]) && is_digit(s[4]) && is_digit(s[5])
    &&& s[3] == ':'
    &&& digit_val(s[1]) * 10 + digit_val(s[2]) < 24
    &&& digit_val(s[4]) * 10 + digit_val(s[5]) < 60
}

/// The offset in seconds east of UTC named by a well-formed offset string.
pub open spec fn parse_offset_seq(s: Seq<char>) -> int {
    let mag = (digit_val(s[1]) * 10 + digit_val(s[2])) * 3600 + (digit_val(s[4]) * 10 + digit_val(
        s[5],
    )) * 60;
    if s[0] == '-' {
        -mag
    } else {
        mag
    }
}

/// A well-formed offset string always names an offset of less than one day.
pub proof fn lemma_parse_offset_bounded(s: Seq<char>)
    requires
        valid_offset_str(s),
    ensures
        -86400 < parse_offset_seq(s) < 86400,
        parse_offset_seq(s) % 60 == 0,
{
}

/// Rendering an offset that is a whole number of minutes and reading the
/// rendering back yields the offset again: the round trip through the string
/// form is lossless.
pub proof fn lemma_offset_str_round_trip(off: int)
    requires
        -86400 < off < 86400,
        off % 60 == 0,
    ensures
        valid_offset_str(offset_str_seq(off)),
        parse_offset_seq(offset_str_seq(off)) == off,
{
    let mag = if off < 0 {
        -off
    } else {
        off
    };
    let h = mag / 3600;
    let m = (mag % 3600) / 60;
    assert(0 <= h < 24 && 0 <= m < 60) by {
        assert(mag == 3600 * (mag / 3600) + mag % 3600);
    };
    let s = offset_str_seq(off);
    assert(s[1] == digit_char(h / 10) && s[2] == digit_char(h % 10));
    assert(s[4] == digit_char(m / 10) && s[5] == digit_char(m % 10));
    assert(digit_val(s[1]) == h / 10 && digit_val(s[2]) == h % 10);
    assert(digit_val(s[4]) == m / 10 && digit_val(s[5]) == m % 10);
    assert(digit_val(s[1]) * 10 + digit_val(s[2]) == h);
    assert(digit_val(s[4]) * 10 + digit_val(s[5]) == m);
    assert(mag % 60 == 0);
    assert(mag == 3600 * (mag / 3600) + mag % 3600);
    assert(mag % 3600 == 60 * ((mag % 3600) / 60) + (mag % 3600) % 60);
    assert((mag % 3600) % 60 == mag % 60) by {
        assert(mag == 3600 * (mag / 3600) + mag % 3600);
        assert(3600 * (mag / 3600) % 60 == 0) by {
            assert(3600 * (mag / 3600) == 60 * (60 * (mag / 3600)));
        };
        vstd::arithmetic::div_mod::lemma_add_mod_noop(
            3600 * (mag / 3600),
            mag % 3600,
            60,
        );
    };
    assert(h * 3600 + m * 60 == mag);
}

/// Appends the decimal digit character for `d` to a string.
fn push_digit(s: &mut String, d: u8)
    requires
        d < 10,
    ensures
        final(s)@ == old(s)@ + seq![digit_char(d as int)],
{
    proof {
        reveal_strlit("0");
        reveal_strlit("1");
        reveal_strlit("2");
        reveal_strlit("3");
        reveal_strlit("4");
        reveal_strlit("5");
        reveal_strlit("6");
        reveal_strlit("7");
        reveal_strlit("8");
        reveal_strlit("9");
    }
    match d {
        0 => s.append("0"),
        1 => s.append("1"),
        2 => s.append("2"),
        3 => s.append("3"),
        4 => s.append("4"),
        5 => s.append("5"),
        6 => s.append("6"),
        7 => s.append("7"),
        8 => s.append("8"),
        _ => s.append("9"),
    }
    proof {
        assert(s@ =~= old(s)@ + seq![digit_char(d as int)]);
    }
}

/// Appends the decimal rendering of `n` to a string.
fn push_dec(s: &mut String, n: u64)
    ensures
        final(s)@ == old(s)@ + dec_seq(n as nat),
    decreases n,
{
    if n >= 10 {
        push_dec(s, n / 10);
        push_digit(s, (n % 10) as u8);
        proof {
            assert(s@ =~= old(s)@ + dec_seq(n as nat));
        }
    } else {
        push_digit(s, n as u8);
    }
}

/// The decimal rendering of an unsigned counter as a fresh string.
pub fn u64_dec_string(n: u64) -> (r: String)
    ensures
        r@ == dec_seq(n as nat),
{
    let mut s = String::new();
    push_dec(&mut s, n);
    proof {
        assert(s@ =~= dec_seq(n as nat));
    }
    s
}

/// Appends the two-digit, zero-padded rendering of `n` to a string.
fn push_two_digit(s: &mut String, n: u8)
    requires
        n < 100,
    ensures
        final(s)@ == old(s)@ + two_digit_seq(n as int),
{
    push_digit(s, n / 10);
    push_digit(s, n % 10);
    proof {
        assert(s@ =~= old(s)@ + two_digit_seq(n as int));
    }
}

/// The `"+HH:MM"` rendering of a UTC offset below one day.
pub fn offset_string(off: i32) -> (r: String)
    requires
        -86400 < off < 86400,
    ensures
        r@ == offset_str_seq(off as int),
{
    proof {
        reveal_strlit("+");
        reveal_strlit("-");
        reveal_strlit(":");
    }
    let mut s = String::new();
    let mag: i32 = if off < 0 {
        s.append("-");
        -off
    } else {
        s.append("+");
        off
    };
    push_two_digit(&mut s, (mag / 3600) as u8);
    s.append(":");
    push_two_digit(&mut s, ((mag % 3600) / 60) as u8);
    proof {
        assert(s@ =~= offset_str_seq(off as int));
    }
    s
}

/// The value of a decimal digit character.
fn digit_from_char(c: char) -> (r: u8)
    requires
        is_digit(c),
    ensures
        r as int == digit_val(c),
{
    match c {
        '0' => 0,
        '1' => 1,
        '2' => 2,
        '3' => 3,
        '4' => 4,
        '5' => 5,
        '6' => 6,
        '7' => 7,
        '8' => 8,
        _ => 9,
    }
}

/// Reads a well-formed `"+HH:MM"` offset string back into seconds east of
/// UTC.
pub fn parse_offset(s: &str) -> (r: i32)
    requires
        valid_offset_str(s@),
    ensures
        r as int == parse_offset_seq(s@),
        -86400 < r < 86400,
        r % 60 == 0,
{
    proof {
        lemma_parse_offset_bounded(s@);
    }
    let sign = s.get_char(0);
    let h1 = digit_from_char(s.get_char(1));
    let h2 = digit_from_char(s.get_char(2));
    let m1 = digit_from_char(s.get_char(4));
    let m2 = digit_from_char(s.get_char(5));
    let mag: i32 = (h1 as i32 * 10 + h2 as i32) * 3600 + (m1 as i32 * 10 + m2 as i32) * 60;
    if sign == '-' {
        -mag
    } else {
        mag
    }
}

/// Whether two string slices hold the same characters.
pub fn str_equal(a: &str, b: &str) -> (r: bool)
    ensures
        r == (a@ == b@),
{
    let la = a.unicode_len();
    let lb = b.unicode_len();
    if la != lb {
        proof {
            assert(a@ != b@) by {
                if a@ == b@ {
                    assert(a@.len() == b@.len());
                }
            };
        }
        return false;
    }
    let mut i: usize = 0;
    while i < la
        invariant
            0 <= i <= la,
            la == a@.len() == b@.len(),
            forall|k: int| 0 <= k < i ==> a@[k] == b@[k],
        decreases la - i,
    {
        if a.get_char(i) != b.get_char(i) {
            proof {
                assert(a@ != b@) by {
                    if a@ == b@ {
                        assert(a@[i as int] == b@[i as int]);
                    }
                };
            }
            return false;
        }
        i += 1;
    }
    proof {
        assert(a@ =~= b@);
    }
    true
}

/// Whether every character of the sequence is a decimal digit.
pub open spec fn all_digits(s: Seq<char>) -> bool {
    forall|i: int| 0 <= i < s.len() ==> is_digit(#[trigger] s[i])
}

/// The value of a sequence of decimal digits, most significant first.
pub open spec fn digits_val(s: Seq<char>) -> int
    decreases s.len(),
{
    if s.len() == 0 {
        0
    } else {
        digits_val(s.drop_last()) * 10 + digit_val(s.last())
    }
}

/// A digit sequence's value is non-negative.
pub proof fn lemma_digits_val_nonneg(s: Seq<char>)
    requires
        all_digits(s),
    ensures
        digits_val(s) >= 0,
    decreases s.len(),
{
    if s.len() > 0 {
        assert(all_digits(s.drop_last())) by {
            assert(forall|i: int|
                0 <= i < s.len() - 1 ==> s.drop_last()[i] == #[trigger] s[i]);
        };
        lemma_digits_val_nonneg(s.drop_last());
    }
}

/// A digit sequence's value is at least the value of any of its prefixes.
pub proof fn lemma_digits_val_monotone(s: Seq<char>, k: int)
    requires
        all_digits(s),
        0 <= k <= s.len(),
    ensures
        digits_val(s.subrange(0, k)) <= digits_val(s),
    decreases s.len() - k,
{
    if k == s.len() {
        assert(s.subrange(0, k) =~= s);
    } else {
        assert(s.subrange(0, k + 1).drop_last() =~= s.subrange(0, k));
        assert(s.subrange(0, k + 1).last() == s[k]);
        assert(all_digits(s.subrange(0, k))) by {
            assert(forall|i: int|
                0 <= i < k ==> s.subrange(0, k)[i] == #[trigger] s[i]);
        };
        lemma_digits_val_nonneg(s.subrange(0, k));
        assert(digits_val(s.subrange(0, k + 1)) == digits_val(s.subrange(0, k)) * 10 + digit_val(
            s[k],
        ));
        lemma_digits_val_monotone(s, k + 1);
    }
}

/// What `str::parse::<i32>()` with a fallback of zero yields: the signed
/// decimal value of the text, or zero for an empty body, a stray character,
/// or a value outside the 32-bit range.
pub open spec fn parse_i32_spec(s: Seq<char>) -> int {
    let signed = s.len() > 0 && (s[0] == '+' || s[0] == '-');
    let body = if signed {
        s.subrange(1, s.len() as int)
    } else {
        s
    };
    if body.len() == 0 || !all_digits(body) {
        0
    } else if s.len() > 0 && s[0] == '-' {
        if digits_val(body) > 2147483648 {
            0
        } else {
            -digits_val(body)
        }
    } else {
        if digits_val(body) > 2147483647 {
            0
        } else {
            digits_val(body)
        }
    }
}

/// Whether a character is a decimal digit.
pub fn char_is_digit(c: char) -> (r: bool)
    ensures
        r == is_digit(c),
{
    match c {
        '0' | '1' | '2' | '3' | '4' | '5' | '6' | '7' | '8' | '9' => true,
        _ => false,
    }
}

/// Reads a signed decimal integer out of a string, yielding zero where
/// `str::parse::<i32>()` would fail: on an empty or sign-only text, on any
/// non-digit character, and on a value outside the 32-bit range.
pub fn parse_i32_or_zero(s: &str) -> (r: i32)
    ensures
        r as int == parse_i32_spec(s@),
{
    let len = s.unicode_len();
    if len == 0 {
        return 0;
    }
    let c0 = s.get_char(0);
    let neg = c0 == '-';
    let start: usize = if c0 == '-' || c0 == '+' {
        1
    } else {
        0
    };
    let ghost body = if start == 1 {
        s@.subrange(1, s@.len() as int)
    } else {
        s@
    };
    if start == len {
        return 0;
    }
    let mut acc: i64 = 0;
    let mut i: usize = start;
    while i < len
        invariant
            start <= i <= len,
            start == 0 || start == 1,
            start < len,
            len == s@.len(),
            (start == 1) == (s@[0] == '+' || s@[0] == '-'),
            neg == (s@[0] == '-'),
            body == (if start == 1 {
                s@.subrange(1, s@.len() as int)
            } else {
                s@
            }),
            body.len() == len - start,
            forall|k: int| 0 <= k < body.len() ==> body[k] == s@[k + start],
            forall|k: int| 0 <= k < i - start ==> is_digit(#[trigger] body[k]),
            acc == digits_val(body.subrange(0, i - start)),
            0 <= acc <= 2147483648,
        decreases len - i,
    {
        let c = s.get_char(i);
        if !char_is_digit(c) {
            proof {
                assert(!all_digits(body)) by {
                    assert(!is_digit(body[i - start]));
                };
            }
            return 0;
        }
        let d = digit_from_char(c);
        let next: i64 = acc * 10 + (d as i64);
        proof {
            assert(body.subrange(0, i - start + 1).drop_last() =~= body.subrange(
                0,
                i - start,
            ));
            assert(body.subrange(0, i - start + 1).last() == body[i - start]);
            assert(next == digits_val(body.subrange(0, i - start + 1)));
        }
        if next > 2147483648 {
            proof {
                if all_digits(body) {
                    lemma_digits_val_monotone(body, i - start + 1);
                }
            }
            return 0;
        }
        acc = next;
        i += 1;
    }
    proof {
        assert(body.subrange(0, (i - start) as int) =~= body);
        assert(all_digits(body));
        assert(acc == digits_val(body));
    }
    if neg {
        if acc == 2147483648 {
            i32::MIN
        } else {
            -(acc as i32)
        }
    } else {
        if acc > 2147483647 {
            0
        } else {
            acc as i32
        }
    }
}

/// The index of the first colon in the sequence, or -1 when it has none.
pub open spec fn find_colon(s: Seq<char>) -> int
    decreases s.len(),
{
    if s.len() == 0 {
        -1
    } else if s[0] == ':' {
        0
    } else if find_colon(s.subrange(1, s.len() as int)) == -1 {
        -1
    } else {
        find_colon(s.subrange(1, s.len() as int)) + 1
    }
}

/// The defining property of `find_colon`: -1 means no colon at all, and a
/// non-negative result is the position of the first colon.
pub proof fn lemma_find_colon(s: Seq<char>)
    ensures
        find_colon(s) >= -1,
        find_colon(s) == -1 ==> forall|i: int| 0 <= i < s.len() ==> s[i] != ':',
        find_colon(s) >= 0 ==> 0 <= find_colon(s) < s.len() && s[find_colon(s)] == ':'
            && forall|i: int| 0 <= i < find_colon(s) ==> s[i] != ':',
    decreases s.len(),
{
    if s.len() > 0 && s[0] != ':' {
        let tail = s.subrange(1, s.len() as int);
        lemma_find_colon(tail);
        if find_colon(tail) == -1 {
            assert forall|i: int| 0 <= i < s.len() implies s[i] != ':' by {
                if i >= 1 {
                    assert(tail[i - 1] == s[i]);
                }
            }
        } else {
            let r = find_colon(tail) + 1;
            assert(s[r] == tail[r - 1]);
            assert forall|i: int| 0 <= i < r implies s[i] != ':' by {
                if i >= 1 {
                    assert(tail[i - 1] == s[i]);
                }
            }
        }
    }
}

/// The position of the first colon in the string slice, or `None` when it
/// has none.
pub fn find_colon_in(s: &str) -> (r: Option<usize>)
    ensures
        r matches Some(i) ==> i as int == find_colon(s@),
        r is None ==> find_colon(s@) == -1,
{
    let len = s.unicode_len();
    let mut i: usize = 0;
    while i < len
        invariant
            0 <= i <= len,
            len == s@.len(),
            forall|k: int| 0 <= k < i ==> s@[k] != ':',
        decreases len - i,
    {
        if s.get_char(i) == ':' {
            proof {
                lemma_find_colon(s@);
                if find_colon(s@) == -1 {
                    assert(s@[i as int] != ':');
                }
                if 0 <= find_colon(s@) < i {
                    assert(s@[find_colon(s@)] == ':');
                }
                if find_colon(s@) > i {
                    assert(s@[i as int] != ':');
                }
            }
            return Some(i);
        }
        i += 1;
    }
    proof {
        lemma_find_colon(s@);
        if find_colon(s@) >= 0 {
            assert(s@[find_colon(s@)] == ':');
        }
    }
    None
}

/// Whether the pattern occurs in `s` starting at position `i`.
pub open spec fn matches_at(s: Seq<char>, pat: Seq<char>, i: int) -> bool {
    &&& 0 <= i
    &&& i + pat.len() <= s.len()
    &&& s.subrange(i, i + pat.len()) == pat
}

/// Whether the pattern occurs anywhere in `s`.
pub open spec fn has_substring(s: Seq<char>, pat: Seq<char>) -> bool {
    exists|i: int| matches_at(s, pat, i)
}

/// Whether the pattern occurs in the string slice; the search compares
/// characters, so it suits the short format strings it is used on.
pub fn contains_substring(s: &str, pat: &str) -> (r: bool)
    ensures
        r == has_substring(s@, pat@),
{
    let sl = s.unicode_len();
    let pl = pat.unicode_len();
    if pl > sl {
        proof {
            assert(!has_substring(s@, pat@)) by {
                if has_substring(s@, pat@) {
                    let i = choose|i: int| matches_at(s@, pat@, i);
                    assert(i + pat@.len() <= s@.len());
                }
            };
        }
        return false;
    }
    let mut i: usize = 0;
    while i <= sl - pl
        invariant
            0 <= i <= sl - pl + 1,
            pl <= sl,
            sl == s@.len(),
            pl == pat@.len(),
            forall|k: int| 0 <= k < i ==> !matches_at(s@, pat@, k),
        decreases sl - pl + 1 - i,
    {
        let mut j: usize = 0;
        let mut all_match = true;
        while j < pl
            invariant
                0 <= j <= pl,
                0 <= i <= sl - pl,
                sl == s@.len(),
                pl == pat@.len(),
                all_match <==> (forall|k: int| 0 <= k < j ==> s@[i + k] == pat@[k]),
            decreases pl - j,
        {
            let sc = s.get_char(i + j);
            let pc = pat.get_char(j);
            if sc != pc {
                all_match = false;
                proof {
                    assert(s@[i + j] != pat@[j as int]);
                }
                j = pl;
            } else {
                j += 1;
            }
        }
        if all_match {
            proof {
                assert(s@.subrange(i as int, i + pat@.len()) =~= pat@);
                assert(matches_at(s@, pat@, i as int));
            }
            return true;
        }
        proof {
            assert(!matches_at(s@, pat@, i as int)) by {
                if matches_at(s@, pat@, i as int) {
                    let w = choose|k: int|
                        0 <= k < pat@.len() && s@[i + k] != pat@[k];
                    assert(s@.subrange(i as int, i + pat@.len())[w] == pat@[w]);
                }
            };
        }
        i += 1;
    }
    proof {
        assert(!has_substring(s@, pat@)) by {
            if has_substring(s@, pat@) {
                let w = choose|w: int| matches_at(s@, pat@, w);
                assert(0 <= w <= s@.len() - pat@.len());
                assert(!matches_at(s@, pat@, w));
            }
        };
    }
    false
}

} // verus!

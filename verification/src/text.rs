//! Verified text utilities: string equality, decimal parsing and printing.
//!
//! Venue feeds carry prices as decimal strings; these routines turn them
//! into fixed-point micro units and back without floating point.

use vstd::prelude::*;

verus! {

/// A decimal digit character.
pub open spec fn spec_is_digit(c: char) -> bool {
    '0' as int <= c as int <= '9' as int
}

/// Numeric value of a digit character.
pub open spec fn spec_digit_val(c: char) -> int {
    c as int - '0' as int
}

/// Every character of the sequence is a decimal digit.
pub open spec fn spec_all_digits(s: Seq<char>) -> bool {
    forall|i: int| 0 <= i < s.len() ==> spec_is_digit(#[trigger] s[i])
}

/// Value of a sequence of digit characters read in base 10.
pub open spec fn spec_digits_val(s: Seq<char>) -> int
    decreases s.len(),
{
    if s.len() == 0 {
        0
    } else {
        spec_digits_val(s.drop_last()) * 10 + spec_digit_val(s.last())
    }
}

pub proof fn lemma_digits_val_nonneg(s: Seq<char>)
    requires
        spec_all_digits(s),
    ensures
        spec_digits_val(s) >= 0,
    decreases s.len(),
{
    if s.len() > 0 {
        assert(spec_all_digits(s.drop_last()));
        lemma_digits_val_nonneg(s.drop_last());
    }
}

/// Extending a digit string to the right never decreases its value.
pub proof fn lemma_digits_val_prefix(s: Seq<char>, i: int)
    requires
        spec_all_digits(s),
        0 <= i <= s.len(),
    ensures
        spec_digits_val(s.take(i)) <= spec_digits_val(s),
    decreases s.len() - i,
{
    if i < s.len() {
        assert(spec_all_digits(s.take(i + 1)));
        assert(s.take(i + 1).drop_last() =~= s.take(i));
        assert(s.take(i + 1).last() == s[i]);
        lemma_digits_val_nonneg(s.take(i));
        lemma_digits_val_prefix(s, i + 1);
    } else {
        assert(s.take(i) =~= s);
    }
}

/// Compare two string slices by their characters.
pub fn str_eq(a: &str, b: &str) -> (r: bool)
    ensures
        r == (a@ == b@),
{
    let alen = a.unicode_len();
    let blen = b.unicode_len();
    if alen != blen {
        return false;
    }
    let mut i: usize = 0;
    while i < alen
        invariant
            0 <= i <= alen,
            alen == a@.len(),
            alen == b@.len(),
            forall|j: int| 0 <= j < i ==> a@[j] == b@[j],
        decreases alen - i,
    {
        if a.get_char(i) != b.get_char(i) {
            return false;
        }
        i += 1;
    }
    proof {
        assert(a@ =~= b@);
    }
    true
}

/// Parse a non-empty all-digit string as a `u64`.
pub fn parse_u64(s: &str) -> (r: Option<u64>)
    ensures
        match r {
            Some(v) => s@.len() > 0 && spec_all_digits(s@) && v == spec_digits_val(s@),
            None => s@.len() == 0 || !spec_all_digits(s@) || spec_digits_val(s@) > u64::MAX,
        },
{
    let len = s.unicode_len();
    if len == 0 {
        return None;
    }
    let mut acc: u64 = 0;
    let mut i: usize = 0;
    while i < len
        invariant
            0 <= i <= len,
            len == s@.len(),
            spec_all_digits(s@.take(i as int)),
            acc == spec_digits_val(s@.take(i as int)),
        decreases len - i,
    {
        let c = s.get_char(i);
        if !(c >= '0' && c <= '9') {
            return None;
        }
        let d: u64 = (c as u32 - '0' as u32) as u64;
        proof {
            assert(s@.take(i + 1).drop_last() =~= s@.take(i as int));
            assert(s@.take(i + 1).last() == s@[i as int]);
        }
        let shifted = match acc.checked_mul(10) {
            Some(x) => x,
            None => {
                proof {
                    assert(spec_all_digits(s@.take(i + 1)));
                    if spec_all_digits(s@) {
                        lemma_digits_val_prefix(s@, i + 1);
                    }
                }
                return None;
            },
        };
        acc = match shifted.checked_add(d) {
            Some(x) => x,
            None => {
                proof {
                    assert(spec_all_digits(s@.take(i + 1)));
                    if spec_all_digits(s@) {
                        lemma_digits_val_prefix(s@, i + 1);
                    }
                }
                return None;
            },
        };
        i += 1;
    }
    proof {
        assert(s@.take(len as int) =~= s@);
    }
    Some(acc)
}

/// Ten to the `n`-th power.
pub open spec fn spec_pow10(n: nat) -> int
    decreases n,
{
    if n == 0 {
        1
    } else {
        10 * spec_pow10((n - 1) as nat)
    }
}

/// The digit character for a value below ten.
pub open spec fn spec_digit_char(d: int) -> char {
    if d == 0 {
        '0'
    } else if d == 1 {
        '1'
    } else if d == 2 {
        '2'
    } else if d == 3 {
        '3'
    } else if d == 4 {
        '4'
    } else if d == 5 {
        '5'
    } else if d == 6 {
        '6'
    } else if d == 7 {
        '7'
    } else if d == 8 {
        '8'
    } else {
        '9'
    }
}

/// Decimal rendering of a `u64`, most significant digit first.
pub open spec fn spec_u64_string(n: int) -> Seq<char>
    decreases n,
{
    if n < 10 {
        seq![spec_digit_char(n)]
    } else {
        spec_u64_string(n / 10) + seq![spec_digit_char(n % 10)]
    }
}

fn digit_str(d: u64) -> (r: &'static str)
    requires
        d < 10,
    ensures
        r@ =~= seq![spec_digit_char(d as int)],
{
    if d == 0 {
        proof { reveal_strlit("0"); }
        "0"
    } else if d == 1 {
        proof { reveal_strlit("1"); }
        "1"
    } else if d == 2 {
        proof { reveal_strlit("2"); }
        "2"
    } else if d == 3 {
        proof { reveal_strlit("3"); }
        "3"
    } else if d == 4 {
        proof { reveal_strlit("4"); }
        "4"
    } else if d == 5 {
        proof { reveal_strlit("5"); }
        "5"
    } else if d == 6 {
        proof { reveal_strlit("6"); }
        "6"
    } else if d == 7 {
        proof { reveal_strlit("7"); }
        "7"
    } else if d == 8 {
        proof { reveal_strlit("8"); }
        "8"
    } else {
        proof { reveal_strlit("9"); }
        "9"
    }
}

/// Render a `u64` in decimal.
pub fn u64_string(n: u64) -> (r: String)
    ensures
        r@ == spec_u64_string(n as int),
    decreases n,
{
    if n < 10 {
        digit_str(n).to_owned()
    } else {
        let mut s = u64_string(n / 10);
        s.append(digit_str(n % 10));
        s
    }
}

/// Micro value of a fractional digit string: the first six digits, scaled so
/// that a full six-digit fraction counts once.
pub open spec fn spec_frac_micro(s: Seq<char>) -> int {
    if s.len() >= 6 {
        spec_digits_val(s.take(6))
    } else {
        spec_digits_val(s) * spec_pow10((6 - s.len()) as nat)
    }
}

/// Whether a character sequence is an unsigned decimal number: digits with
/// at most one point, a non-empty integer part, and digits after the point.
pub open spec fn spec_is_decimal(s: Seq<char>, point: int) -> bool {
    &&& 0 < point <= s.len()
    &&& spec_all_digits(s.take(point))
    &&& (point < s.len() ==> s[point] == '.' && spec_all_digits(s.skip(point + 1)))
}

/// Micro value of a decimal string split at `point`.
pub open spec fn spec_decimal_micro(s: Seq<char>, point: int) -> int {
    spec_digits_val(s.take(point)) * 1_000_000 + if point < s.len() {
        spec_frac_micro(s.skip(point + 1))
    } else {
        0
    }
}

fn find_point(s: &str) -> (r: Option<usize>)
    ensures
        match r {
            Some(i) => i < s@.len() && s@[i as int] == '.' && forall|j: int|
                0 <= j < i ==> s@[j] != '.',
            None => forall|j: int| 0 <= j < s@.len() ==> s@[j] != '.',
        },
{
    let len = s.unicode_len();
    let mut i: usize = 0;
    while i < len
        invariant
            0 <= i <= len,
            len == s@.len(),
            forall|j: int| 0 <= j < i ==> s@[j] != '.',
        decreases len - i,
    {
        if s.get_char(i) == '.' {
            return Some(i);
        }
        i += 1;
    }
    None
}

/// Only the first point of the string (or its end, when it has none) can
/// split it as a decimal number.
proof fn lemma_decimal_split_unique(s: Seq<char>, dot: int, p: int)
    requires
        0 <= dot <= s.len(),
        dot < s.len() ==> s[dot] == '.' && (forall|k: int| 0 <= k < dot ==> s[k] != '.'),
        dot == s.len() ==> (forall|k: int| 0 <= k < s.len() ==> s[k] != '.'),
        spec_is_decimal(s, p),
    ensures
        p == dot,
{
    if p < dot {
        assert(p < s.len());
        assert(s[p] == '.');
        assert(s[p] != '.');
    } else if p > dot {
        assert(dot < s.len());
        assert(spec_all_digits(s.take(p)));
        assert(s.take(p)[dot] == s[dot]);
        assert(spec_is_digit('.'));
        assert(false);
    }
}

/// When the canonical split fails, no position splits the string as a
/// decimal number.
proof fn lemma_no_decimal_split(s: Seq<char>, dot: int)
    requires
        0 <= dot <= s.len(),
        dot < s.len() ==> s[dot] == '.' && (forall|k: int| 0 <= k < dot ==> s[k] != '.'),
        dot == s.len() ==> (forall|k: int| 0 <= k < s.len() ==> s[k] != '.'),
        !spec_is_decimal(s, dot),
    ensures
        forall|p: int| !spec_is_decimal(s, p),
{
    assert forall|p: int| !spec_is_decimal(s, p) by {
        if spec_is_decimal(s, p) {
            lemma_decimal_split_unique(s, dot, p);
        }
    }
}

/// A fraction made of digits contributes a non-negative amount.
proof fn lemma_frac_micro_nonneg(s: Seq<char>)
    requires
        spec_all_digits(s),
    ensures
        spec_frac_micro(s) >= 0,
{
    if s.len() >= 6 {
        assert(spec_all_digits(s.take(6)));
        lemma_digits_val_nonneg(s.take(6));
    } else {
        lemma_digits_val_nonneg(s);
        lemma_pow10_pos((6 - s.len()) as nat);
        assert(spec_digits_val(s) * spec_pow10((6 - s.len()) as nat) >= 0) by (nonlinear_arith)
            requires
                spec_digits_val(s) >= 0,
                spec_pow10((6 - s.len()) as nat) >= 1,
        ;
    }
}

/// A decimal's micro value is at least its integer part scaled to micro,
/// which is at least the integer part itself.
proof fn lemma_decimal_value_floor(s: Seq<char>, dot: int)
    requires
        spec_is_decimal(s, dot),
    ensures
        spec_decimal_micro(s, dot) >= spec_digits_val(s.take(dot)) * 1_000_000,
        spec_digits_val(s.take(dot)) * 1_000_000 >= spec_digits_val(s.take(dot)),
{
    lemma_digits_val_nonneg(s.take(dot));
    if dot < s.len() {
        lemma_frac_micro_nonneg(s.skip(dot + 1));
    }
}

/// Parse a decimal price string such as `109250.51` into micro units
/// (millionths): fractional digits beyond the sixth are dropped. Nothing
/// comes back exactly when the string is no decimal number at all or its
/// value does not fit the integer range.
pub fn parse_decimal_micro(s: &str) -> (r: Option<u64>)
    ensures
        match r {
            Some(v) => exists|point: int|
                #[trigger] spec_is_decimal(s@, point) && v == spec_decimal_micro(s@, point),
            None => (forall|point: int| !spec_is_decimal(s@, point)) || (exists|point: int|
                #[trigger] spec_is_decimal(s@, point) && spec_decimal_micro(s@, point) > u64::MAX),
        },
{
    let len = s.unicode_len();
    let found = find_point(s);
    let point = match found {
        Some(i) => i,
        None => len,
    };
    let ghost dot: int = point as int;
    proof {
        assert(0 <= dot <= s@.len());
        assert(dot < s@.len() ==> s@[dot] == '.' && (forall|k: int| 0 <= k < dot ==> s@[k] != '.'));
        assert(dot == s@.len() ==> (forall|k: int| 0 <= k < s@.len() ==> s@[k] != '.'));
    }
    if point == 0 || point > len {
        proof {
            assert(!spec_is_decimal(s@, dot));
            lemma_no_decimal_split(s@, dot);
        }
        return None;
    }
    let int_part = s.substring_char(0, point);
    proof {
        assert(int_part@ =~= s@.take(dot));
    }
    let int_val = match parse_u64(int_part) {
        Some(v) => v,
        None => {
            proof {
                if !spec_all_digits(s@.take(dot)) {
                    assert(!spec_is_decimal(s@, dot));
                    lemma_no_decimal_split(s@, dot);
                } else {
                    // The integer part is non-empty, so the parse overflowed.
                    assert(spec_digits_val(s@.take(dot)) > u64::MAX);
                    if spec_is_decimal(s@, dot) {
                        lemma_decimal_value_floor(s@, dot);
                        assert(spec_decimal_micro(s@, dot) > u64::MAX);
                    } else {
                        lemma_no_decimal_split(s@, dot);
                    }
                }
            }
            return None;
        },
    };
    let int_micro = match int_val.checked_mul(1_000_000) {
        Some(v) => v,
        None => {
            proof {
                if spec_is_decimal(s@, dot) {
                    lemma_decimal_value_floor(s@, dot);
                    assert(spec_decimal_micro(s@, dot) > u64::MAX);
                } else {
                    lemma_no_decimal_split(s@, dot);
                }
            }
            return None;
        },
    };
    if point == len {
        proof {
            assert(s@.take(point as int) =~= s@);
            assert(spec_is_decimal(s@, point as int));
        }
        return Some(int_micro);
    }
    // Fractional digits: read up to six, check the rest are digits.
    let frac_start = point + 1;
    let frac_len = len - frac_start;
    let mut frac: u64 = 0;
    let mut i: usize = 0;
    let ghost fseq = s@.skip(frac_start as int);
    proof {
        assert(fseq.len() == frac_len);
    }
    let take = if frac_len < 6 {
        frac_len
    } else {
        6
    };
    while i < take
        invariant
            0 <= i <= take,
            take <= 6,
            take == if frac_len < 6 { frac_len as int } else { 6int },
            frac_start + frac_len == len,
            frac_start <= len,
            len == s@.len(),
            fseq == s@.skip(frac_start as int),
            fseq.len() == frac_len,
            dot == point as int,
            dot + 1 == frac_start,
            0 < dot < s@.len(),
            s@[dot] == '.',
            forall|k: int| 0 <= k < dot ==> s@[k] != '.',
            spec_all_digits(fseq.take(i as int)),
            frac == spec_digits_val(fseq.take(i as int)),
            frac < spec_pow10(i as nat),
        decreases take - i,
    {
        let c = s.get_char(frac_start + i);
        proof {
            assert(fseq[i as int] == s@[frac_start + i]);
        }
        if !(c >= '0' && c <= '9') {
            proof {
                assert(!spec_all_digits(s@.skip(dot + 1))) by {
                    if spec_all_digits(s@.skip(dot + 1)) {
                        assert(spec_is_digit(fseq[i as int]));
                    }
                }
                assert(!spec_is_decimal(s@, dot));
                lemma_no_decimal_split(s@, dot);
            }
            return None;
        }
        let d: u64 = (c as u32 - '0' as u32) as u64;
        proof {
            assert(fseq.take(i + 1).drop_last() =~= fseq.take(i as int));
            assert(fseq.take(i + 1).last() == fseq[i as int]);
            assert(spec_all_digits(fseq.take(i + 1)));
            lemma_digits_val_nonneg(fseq.take(i as int));
            lemma_digits_val_bound(fseq.take(i + 1));
            lemma_pow10_monotone((i + 1) as nat, 6nat);
            reveal_with_fuel(spec_pow10, 7);
            assert(spec_pow10(6) == 1_000_000);
        }
        frac = frac * 10 + d;
        i += 1;
    }
    // Scale a short fraction up to six places.
    proof {
        let d = spec_digits_val(fseq.take(take as int));
        assert(spec_pow10(0nat) == 1);
        assert(d * 1 == d) by (nonlinear_arith);
    }
    let mut k: usize = take;
    while k < 6
        invariant
            take <= k <= 6,
            spec_all_digits(fseq.take(take as int)),
            frac == spec_digits_val(fseq.take(take as int)) * spec_pow10((k - take) as nat),
            frac < spec_pow10(k as nat),
        decreases 6 - k,
    {
        proof {
            let d = spec_digits_val(fseq.take(take as int));
            let p = spec_pow10((k - take) as nat);
            lemma_digits_val_nonneg(fseq.take(take as int));
            lemma_pow10_pos((k - take) as nat);
            lemma_pow10_monotone((k + 1) as nat, 6nat);
            reveal_with_fuel(spec_pow10, 7);
            assert(spec_pow10(6) == 1_000_000);
            assert(spec_pow10((k + 1 - take) as nat) == 10 * p);
            assert(spec_pow10((k + 1) as nat) == 10 * spec_pow10(k as nat));
            assert(d * (10 * p) == (d * p) * 10) by (nonlinear_arith);
        }
        frac = frac * 10;
        k += 1;
    }
    // The characters after the sixth fractional digit must still be digits.
    let mut j: usize = take;
    while j < frac_len
        invariant
            take <= j <= frac_len || (frac_len < take && j == take),
            frac_start + frac_len == len,
            len == s@.len(),
            fseq == s@.skip(frac_start as int),
            fseq.len() == frac_len,
            dot == point as int,
            dot + 1 == frac_start,
            0 < dot < s@.len(),
            s@[dot] == '.',
            forall|k: int| 0 <= k < dot ==> s@[k] != '.',
            spec_all_digits(fseq.take(j as int)),
        decreases frac_len - j,
    {
        let c = s.get_char(frac_start + j);
        proof {
            assert(fseq[j as int] == s@[frac_start + j]);
        }
        if !(c >= '0' && c <= '9') {
            proof {
                assert(!spec_all_digits(s@.skip(dot + 1))) by {
                    if spec_all_digits(s@.skip(dot + 1)) {
                        assert(spec_is_digit(fseq[j as int]));
                    }
                }
                assert(!spec_is_decimal(s@, dot));
                lemma_no_decimal_split(s@, dot);
            }
            return None;
        }
        proof {
            assert(forall|t: int| 0 <= t < j + 1 ==> spec_is_digit(#[trigger] fseq.take(j + 1)[t]));
        }
        j += 1;
    }
    proof {
        assert(fseq.take(frac_len as int) =~= fseq);
        assert(spec_all_digits(fseq));
        assert(spec_is_decimal(s@, point as int));
        if frac_len >= 6 {
            assert(take == 6);
            assert(frac == spec_frac_micro(fseq));
        } else {
            assert(take == frac_len);
            assert(fseq.take(take as int) =~= fseq);
            assert(frac == spec_frac_micro(fseq));
        }
        lemma_digits_val_nonneg(fseq);
    }
    let frac_checked: u64 = frac;
    match int_micro.checked_add(frac_checked) {
        Some(v) => {
            proof {
                assert(v == spec_decimal_micro(s@, point as int));
            }
            Some(v)
        },
        None => {
            proof {
                assert(spec_decimal_micro(s@, dot) == int_micro + frac_checked);
                assert(spec_decimal_micro(s@, dot) > u64::MAX);
            }
            None
        },
    }
}

/// Index of the first occurrence of `sep`, or a negative value when absent.
pub open spec fn spec_sep_ix(s: Seq<char>, sep: char) -> int
    decreases s.len(),
{
    if s.len() == 0 {
        -1
    } else if s[0] == sep {
        0
    } else {
        let r = spec_sep_ix(s.skip(1), sep);
        if r < 0 {
            -1int
        } else {
            r + 1
        }
    }
}

pub proof fn lemma_sep_ix_bound(s: Seq<char>, sep: char)
    ensures
        spec_sep_ix(s, sep) < s.len(),
        spec_sep_ix(s, sep) >= -1,
        spec_sep_ix(s, sep) >= 0 ==> s[spec_sep_ix(s, sep)] == sep,
    decreases s.len(),
{
    if s.len() > 0 && s[0] != sep {
        lemma_sep_ix_bound(s.skip(1), sep);
    }
}

/// The first position holding `sep` is what `spec_sep_ix` names.
pub proof fn lemma_sep_ix_first(s: Seq<char>, sep: char, j: int)
    requires
        0 <= j < s.len(),
        s[j] == sep,
        forall|k: int| 0 <= k < j ==> s[k] != sep,
    ensures
        spec_sep_ix(s, sep) == j,
    decreases s.len(),
{
    if j > 0 {
        lemma_sep_ix_first(s.skip(1), sep, j - 1);
    }
}

/// Without `sep` anywhere, `spec_sep_ix` is negative.
pub proof fn lemma_sep_ix_none(s: Seq<char>, sep: char)
    requires
        forall|k: int| 0 <= k < s.len() ==> s[k] != sep,
    ensures
        spec_sep_ix(s, sep) < 0,
    decreases s.len(),
{
    if s.len() > 0 {
        lemma_sep_ix_none(s.skip(1), sep);
    }
}

/// The fields of `s` between occurrences of `sep`: an empty string has one
/// empty field, and every separator starts a new field.
pub open spec fn spec_split(s: Seq<char>, sep: char) -> Seq<Seq<char>>
    decreases s.len(),
    via spec_split_decreases
{
    let i = spec_sep_ix(s, sep);
    if i < 0 {
        seq![s]
    } else {
        seq![s.take(i)] + spec_split(s.skip(i + 1), sep)
    }
}

#[via_fn]
proof fn spec_split_decreases(s: Seq<char>, sep: char) {
    lemma_sep_ix_bound(s, sep);
}

pub fn find_sep(s: &str, from: usize, sep: char) -> (r: Option<usize>)
    requires
        from <= s@.len(),
    ensures
        match r {
            Some(j) => {
                &&& from <= j < s@.len()
                &&& s@[j as int] == sep
                &&& spec_sep_ix(s@.skip(from as int), sep) == j - from
            },
            None => spec_sep_ix(s@.skip(from as int), sep) < 0,
        },
{
    let len = s.unicode_len();
    let mut i: usize = from;
    while i < len
        invariant
            from <= i <= len,
            len == s@.len(),
            forall|k: int| from <= k < i ==> s@[k] != sep,
        decreases len - i,
    {
        if s.get_char(i) == sep {
            proof {
                let t = s@.skip(from as int);
                assert(t[i - from] == s@[i as int]);
                assert(forall|k: int| 0 <= k < i - from ==> t[k] == s@[k + from]);
                lemma_sep_ix_first(t, sep, i - from);
            }
            return Some(i);
        }
        i += 1;
    }
    proof {
        let t = s@.skip(from as int);
        assert(forall|k: int| 0 <= k < t.len() ==> t[k] == s@[k + from]);
        lemma_sep_ix_none(t, sep);
    }
    None
}

/// Split a string at every occurrence of `sep`.
pub fn split_char(s: &str, sep: char) -> (r: Vec<String>)
    ensures
        r@.map_values(|p: String| p@) == spec_split(s@, sep),
        r@.len() >= 1,
{
    let len = s.unicode_len();
    let mut parts: Vec<String> = Vec::new();
    let mut from: usize = 0;
    proof {
        assert(s@.skip(0) =~= s@);
        assert(parts@.map_values(|p: String| p@) + spec_split(s@, sep) =~= spec_split(s@, sep));
    }
    loop
        invariant
            from <= len,
            len == s@.len(),
            spec_split(s@, sep) == parts@.map_values(|p: String| p@) + spec_split(
                s@.skip(from as int),
                sep,
            ),
        ensures
            parts@.map_values(|p: String| p@) == spec_split(s@, sep),
            parts@.len() >= 1,
        decreases len - from,
    {
        let ghost before = parts@.map_values(|p: String| p@);
        match find_sep(s, from, sep) {
            Some(j) => {
                let field = s.substring_char(from, j).to_owned();
                proof {
                    let t = s@.skip(from as int);
                    let i = spec_sep_ix(t, sep);
                    assert(i == j - from);
                    assert(t.take(i) =~= s@.subrange(from as int, j as int));
                    assert(t.skip(i + 1) =~= s@.skip(j + 1));
                }
                parts.push(field);
                proof {
                    assert(parts@.map_values(|p: String| p@) =~= before + seq![
                        s@.subrange(from as int, j as int),
                    ]);
                    assert(spec_split(s@, sep) =~= parts@.map_values(|p: String| p@)
                        + spec_split(s@.skip(j + 1), sep));
                }
                from = j + 1;
            },
            None => {
                let field = s.substring_char(from, len).to_owned();
                proof {
                    let t = s@.skip(from as int);
                    assert(t =~= s@.subrange(from as int, len as int));
                    assert(spec_split(t, sep) == seq![t]);
                }
                parts.push(field);
                proof {
                    assert(parts@.map_values(|p: String| p@) =~= before + seq![
                        s@.skip(from as int),
                    ]);
                    assert(spec_split(s@, sep) =~= parts@.map_values(|p: String| p@));
                }
                return parts;
            },
        }
    }
}

/// Lower-case form of a string, as the standard library computes it.
pub uninterp spec fn lower_of(s: Seq<char>) -> Seq<char>;

/// Relies on str::to_lowercase: the lower-case form depends on the
/// characters alone, and an empty string stays empty.
#[verifier::external_body]
pub fn lowercase(s: &str) -> (r: String)
    ensures
        r@ == lower_of(s@),
        s@.len() == 0 ==> r@.len() == 0,
{
    s.to_lowercase()
}

/// A digit string of length `n` is below ten to the `n`.
pub proof fn lemma_digits_val_bound(s: Seq<char>)
    requires
        spec_all_digits(s),
    ensures
        spec_digits_val(s) < spec_pow10(s.len()),
    decreases s.len(),
{
    if s.len() == 0 {
        assert(spec_pow10(0) == 1);
    } else {
        assert(spec_all_digits(s.drop_last()));
        lemma_digits_val_bound(s.drop_last());
        assert(spec_digit_val(s.last()) <= 9);
    }
}

pub proof fn lemma_pow10_monotone(a: nat, b: nat)
    requires
        a <= b,
    ensures
        spec_pow10(a) <= spec_pow10(b),
        spec_pow10(a) >= 1,
    decreases b,
{
    if a == b {
        lemma_pow10_pos(a);
    } else {
        lemma_pow10_monotone(a, (b - 1) as nat);
    }
}

pub proof fn lemma_pow10_pos(n: nat)
    ensures
        spec_pow10(n) >= 1,
    decreases n,
{
    if n > 0 {
        lemma_pow10_pos((n - 1) as nat);
    }
}

} // verus!

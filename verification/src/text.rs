//! The grammar of the numbers in the text of a dimension: decimal
//! integers with an optional sign, and decimal fractions read to a fixed
//! number of fractional digits.
use vstd::prelude::*;
use vstd::string::*;

verus! {

/// Number of fractional digits that a decimal fraction keeps.
pub const FRACTION_DIGITS: usize = 6;

/// Whether `c` is one of the ten ASCII digits.
pub open spec fn is_digit(c: char) -> bool {
    '0' <= c && c <= '9'
}

/// The number that the digit `c` stands for.
pub open spec fn digit_value(c: char) -> int {
    c as int - '0' as int
}

/// Whether `s` holds digits only.
pub open spec fn all_digits(s: Seq<char>) -> bool {
    forall|i: int| 0 <= i < s.len() ==> is_digit(#[trigger] s[i])
}

/// The number that the first `k` characters of `s` spell in base ten.
pub open spec fn prefix_value(s: Seq<char>, k: nat) -> int
    decreases k,
{
    if k == 0 {
        0
    } else {
        10 * prefix_value(s, (k - 1) as nat) + digit_value(s[k - 1])
    }
}

/// The number that the digit string `s` spells in base ten.
pub open spec fn decimal_value(s: Seq<char>) -> int {
    prefix_value(s, s.len())
}

/// Digit `i` of `s`, or 0 past its end.
pub open spec fn padded_digit(s: Seq<char>, i: int) -> int {
    if 0 <= i < s.len() {
        digit_value(s[i])
    } else {
        0
    }
}

/// The number spelled by the first `k` digits of `s`, with zeros standing
/// in for digits that `s` does not have.
pub open spec fn fraction_value(s: Seq<char>, k: nat) -> int
    decreases k,
{
    if k == 0 {
        0
    } else {
        10 * fraction_value(s, (k - 1) as nat) + padded_digit(s, k - 1)
    }
}

/// Index of the first character at or after `i` that is no digit.
pub open spec fn digits_end(s: Seq<char>, i: int) -> int
    decreases s.len() - i,
{
    if i < 0 || i >= s.len() || !is_digit(s[i]) {
        i
    } else {
        digits_end(s, i + 1)
    }
}

/// A sign character.
pub open spec fn is_sign(c: char) -> bool {
    c == '+' || c == '-'
}

/// Whether `s` starts with a sign.
pub open spec fn starts_with_sign(s: Seq<char>) -> bool {
    s.len() > 0 && is_sign(s[0])
}

/// The magnitude of an integer text without its sign: one or more digits.
pub open spec fn magnitude(body: Seq<char>) -> Option<int> {
    if body.len() > 0 && all_digits(body) {
        Some(decimal_value(body))
    } else {
        None
    }
}

/// An unsigned integer text: an optional `+`, then one or more digits.
pub open spec fn unsigned_text(s: Seq<char>) -> Option<int> {
    if s.len() > 0 && s[0] == '+' {
        magnitude(s.skip(1))
    } else {
        magnitude(s)
    }
}

/// A signed integer text: an optional `+` or `-`, then one or more digits.
pub open spec fn signed_text(s: Seq<char>) -> Option<int> {
    if s.len() > 0 && s[0] == '-' {
        match magnitude(s.skip(1)) {
            Some(v) => Some(-v),
            None => None,
        }
    } else {
        unsigned_text(s)
    }
}

/// The magnitude of a decimal fraction without its sign, in units of
/// `10^-6`: digits, then optionally a point and more digits, with a digit
/// on at least one side. Fractional digits past the sixth are dropped.
pub open spec fn fraction_magnitude(body: Seq<char>) -> Option<int> {
    let point = digits_end(body, 0);
    let whole = body.take(point);
    if point == body.len() {
        if point > 0 {
            Some(decimal_value(whole) * 1_000_000)
        } else {
            None
        }
    } else if body[point] == '.' {
        let rest = body.skip(point + 1);
        if all_digits(rest) && whole.len() + rest.len() > 0 {
            Some(decimal_value(whole) * 1_000_000 + fraction_value(rest, 6))
        } else {
            None
        }
    } else {
        None
    }
}

/// A signed decimal fraction in units of `10^-6`.
pub open spec fn fraction_text(s: Seq<char>) -> Option<int> {
    if s.len() > 0 && s[0] == '-' {
        match fraction_magnitude(s.skip(1)) {
            Some(v) => Some(-v),
            None => None,
        }
    } else if s.len() > 0 && s[0] == '+' {
        fraction_magnitude(s.skip(1))
    } else {
        fraction_magnitude(s)
    }
}

/// `s` without a final `px`, if it has one.
pub open spec fn without_px(s: Seq<char>) -> Seq<char> {
    if s.len() >= 2 && s[s.len() - 2] == 'p' && s[s.len() - 1] == 'x' {
        s.take(s.len() - 2)
    } else {
        s
    }
}

/// Whether `s` ends in `%`.
pub open spec fn ends_with_percent(s: Seq<char>) -> bool {
    s.len() >= 1 && s[s.len() - 1] == '%'
}

/// `s` without a final `%`, if it has one.
pub open spec fn without_percent(s: Seq<char>) -> Seq<char> {
    if ends_with_percent(s) {
        s.take(s.len() - 1)
    } else {
        s
    }
}

/// The characters of `s`, in order.
pub fn chars_of(s: &str) -> (v: Vec<char>)
    ensures
        v@ == s@,
{
    let n: usize = s.unicode_len();
    let mut v: Vec<char> = Vec::new();
    let mut i: usize = 0;
    while i < n
        invariant
            n == s@.len(),
            i <= n,
            v@ == s@.take(i as int),
        decreases n - i,
    {
        let c = s.get_char(i);
        v.push(c);
        i = i + 1;
        assert(v@ =~= s@.take(i as int));
    }
    assert(s@.take(n as int) =~= s@);
    v
}

fn is_digit_char(c: char) -> (b: bool)
    ensures
        b == is_digit(c),
{
    c >= '0' && c <= '9'
}

fn digit_of(c: char) -> (d: u64)
    requires
        is_digit(c),
    ensures
        d == digit_value(c),
        d <= 9,
{
    (c as u32 - '0' as u32) as u64
}

/// Reads the characters from `from` up to `to` as a run of digits. Gives
/// their value if all are digits and the value is at most `limit`.
pub fn read_digits(chars: &Vec<char>, from: usize, to: usize, limit: u64) -> (r: Option<u64>)
    requires
        from <= to <= chars@.len(),
        limit <= u64::MAX / 16,
    ensures
        r.is_some() <==> (all_digits(chars@.subrange(from as int, to as int)) && decimal_value(
            chars@.subrange(from as int, to as int),
        ) <= limit),
        r.is_some() ==> r.unwrap() == decimal_value(chars@.subrange(from as int, to as int)),
{
    let ghost s = chars@.subrange(from as int, to as int);
    let mut acc: u64 = 0;
    let mut over: bool = false;
    let mut i: usize = from;
    while i < to
        invariant
            from <= i <= to <= chars@.len(),
            s == chars@.subrange(from as int, to as int),
            limit <= u64::MAX / 16,
            forall|j: int| 0 <= j < i - from ==> is_digit(#[trigger] s[j]),
            !over ==> acc == prefix_value(s, (i - from) as nat) && acc <= limit,
            over ==> prefix_value(s, (i - from) as nat) > limit,
        decreases to - i,
    {
        let c = chars[i];
        assert(c == s[i - from]);
        if !is_digit_char(c) {
            assert(!all_digits(s));
            return None;
        }
        let d = digit_of(c);
        assert(prefix_value(s, (i + 1 - from) as nat) == 10 * prefix_value(s, (i - from) as nat)
            + d);
        if !over {
            let next: u64 = acc * 10 + d;
            if next > limit {
                over = true;
            } else {
                acc = next;
            }
        }
        i = i + 1;
    }
    assert(all_digits(s));
    if over {
        None
    } else {
        Some(acc)
    }
}

/// Index of the first character at or after `from` that is no digit.
pub fn scan_digits(chars: &Vec<char>, from: usize) -> (end: usize)
    requires
        from <= chars@.len(),
    ensures
        from <= end <= chars@.len(),
        end == digits_end(chars@, from as int),
{
    let mut i: usize = from;
    while i < chars.len() && is_digit_char(chars[i])
        invariant
            from <= i <= chars@.len(),
            digits_end(chars@, from as int) == digits_end(chars@, i as int),
        decreases chars@.len() - i,
    {
        i = i + 1;
    }
    i
}

/// Reads up to six digits starting at `from` as the fractional digits of a
/// number, in units of `10^-6`.
pub fn read_fraction(chars: &Vec<char>, from: usize) -> (r: u64)
    requires
        from <= chars@.len(),
        all_digits(chars@.skip(from as int)),
    ensures
        r == fraction_value(chars@.skip(from as int), 6),
        r < 1_000_000,
{
    let ghost s = chars@.skip(from as int);
    let mut acc: u64 = 0;
    let mut bound: u64 = 1;
    let mut k: usize = 0;
    while k < FRACTION_DIGITS
        invariant
            k <= 6,
            from <= chars@.len(),
            s == chars@.skip(from as int),
            all_digits(s),
            acc == fraction_value(s, k as nat),
            acc < bound,
            (k == 0 && bound == 1) || (k == 1 && bound == 10) || (k == 2 && bound == 100) || (k
                == 3 && bound == 1_000) || (k == 4 && bound == 10_000) || (k == 5 && bound
                == 100_000) || (k == 6 && bound == 1_000_000),
        decreases 6 - k,
    {
        let d: u64 = if k < chars.len() - from {
            let c = chars[from + k];
            assert(c == s[k as int]);
            digit_of(c)
        } else {
            0
        };
        assert(d == padded_digit(s, k as int));
        acc = acc * 10 + d;
        bound = bound * 10;
        k = k + 1;
    }
    acc
}

/// Whether every character from `from` on is a digit.
pub fn digits_only(chars: &Vec<char>, from: usize) -> (b: bool)
    requires
        from <= chars@.len(),
    ensures
        b == all_digits(chars@.skip(from as int)),
{
    let ghost s = chars@.skip(from as int);
    let mut i: usize = from;
    while i < chars.len()
        invariant
            from <= i <= chars@.len(),
            s == chars@.skip(from as int),
            forall|j: int| 0 <= j < i - from ==> is_digit(#[trigger] s[j]),
        decreases chars@.len() - i,
    {
        if !is_digit_char(chars[i]) {
            assert(!is_digit(s[i - from]));
            return false;
        }
        i = i + 1;
    }
    true
}

/// A copy of the characters from `from` up to `to`.
pub fn copy_range(chars: &Vec<char>, from: usize, to: usize) -> (v: Vec<char>)
    requires
        from <= to <= chars@.len(),
    ensures
        v@ == chars@.subrange(from as int, to as int),
{
    let mut v: Vec<char> = Vec::new();
    let mut i: usize = from;
    while i < to
        invariant
            from <= i <= to <= chars@.len(),
            v@ == chars@.subrange(from as int, i as int),
        decreases to - i,
    {
        v.push(chars[i]);
        i = i + 1;
        assert(v@ =~= chars@.subrange(from as int, i as int));
    }
    v
}

/// The characters without a final `px`, if there is one.
pub fn strip_px(chars: &Vec<char>) -> (v: Vec<char>)
    ensures
        v@ == without_px(chars@),
{
    let n: usize = chars.len();
    assert(chars@.subrange(0, n as int) =~= chars@);
    if n >= 2 && chars[n - 2] == 'p' && chars[n - 1] == 'x' {
        assert(chars@.subrange(0, n - 2) =~= chars@.take(n - 2));
        copy_range(chars, 0, n - 2)
    } else {
        copy_range(chars, 0, n)
    }
}

/// Whether the last character is `%`.
pub fn has_percent(chars: &Vec<char>) -> (b: bool)
    ensures
        b == ends_with_percent(chars@),
{
    chars.len() >= 1 && chars[chars.len() - 1] == '%'
}

/// The characters without a final `%`, if there is one.
pub fn strip_percent(chars: &Vec<char>) -> (v: Vec<char>)
    ensures
        v@ == without_percent(chars@),
{
    let n: usize = chars.len();
    assert(chars@.subrange(0, n as int) =~= chars@);
    if has_percent(chars) {
        assert(chars@.subrange(0, n - 1) =~= chars@.take(n - 1));
        copy_range(chars, 0, n - 1)
    } else {
        copy_range(chars, 0, n)
    }
}

/// `o` as a `u32`, if it is a number in that type's range.
pub open spec fn fit_u32(o: Option<int>) -> Option<u32> {
    match o {
        Some(v) => if 0 <= v <= u32::MAX {
            Some(v as u32)
        } else {
            None
        },
        None => None,
    }
}

/// `o` as an `i32`, if it is a number in that type's range.
pub open spec fn fit_i32(o: Option<int>) -> Option<i32> {
    match o {
        Some(v) => if i32::MIN <= v <= i32::MAX {
            Some(v as i32)
        } else {
            None
        },
        None => None,
    }
}

/// `o` as an `i64`, if it is a number in that type's range.
pub open spec fn fit_i64(o: Option<int>) -> Option<i64> {
    match o {
        Some(v) => if i64::MIN <= v <= i64::MAX {
            Some(v as i64)
        } else {
            None
        },
        None => None,
    }
}

/// Reads one or more digits whose value is at most `limit`.
fn read_magnitude(body: &Vec<char>, limit: u64) -> (r: Option<u64>)
    requires
        limit <= u64::MAX / 16,
    ensures
        r == match magnitude(body@) {
            Some(v) => if v <= limit {
                Some(v as u64)
            } else {
                None
            },
            None => None,
        },
        magnitude(body@) matches Some(v) ==> v >= 0,
{
    assert(body@.subrange(0, body@.len() as int) =~= body@);
    if body.len() == 0 {
        return None;
    }
    read_digits(body, 0, body.len(), limit)
}

/// Reads an unsigned integer that fits `u32`.
pub fn read_unsigned(s: &Vec<char>) -> (r: Option<u32>)
    ensures
        r == fit_u32(unsigned_text(s@)),
{
    let signed: bool = s.len() > 0 && s[0] == '+';
    let body: Vec<char> = if signed {
        copy_range(s, 1, s.len())
    } else {
        copy_range(s, 0, s.len())
    };
    assert(s@.len() > 0 ==> s@.subrange(1, s@.len() as int) =~= s@.skip(1));
    assert(s@.subrange(0, s@.len() as int) =~= s@);
    match read_magnitude(&body, 4294967295) {
        Some(v) => Some(v as u32),
        None => None,
    }
}

/// Reads a signed integer that fits `i32`.
pub fn read_signed(s: &Vec<char>) -> (r: Option<i32>)
    ensures
        r == fit_i32(signed_text(s@)),
{
    assert(s@.len() > 0 ==> s@.subrange(1, s@.len() as int) =~= s@.skip(1));
    assert(s@.subrange(0, s@.len() as int) =~= s@);
    if s.len() > 0 && s[0] == '-' {
        let body = copy_range(s, 1, s.len());
        match read_magnitude(&body, 2147483648) {
            Some(v) => Some((-(v as i64)) as i32),
            None => None,
        }
    } else {
        let body: Vec<char> = if s.len() > 0 && s[0] == '+' {
            copy_range(s, 1, s.len())
        } else {
            copy_range(s, 0, s.len())
        };
        match read_magnitude(&body, 2147483647) {
            Some(v) => Some(v as i32),
            None => None,
        }
    }
}

/// Largest whole part of a decimal fraction that can fit `i64` once scaled.
pub const WHOLE_LIMIT: u64 = 9_223_372_036_854;

/// Reads the magnitude of a decimal fraction, if it is at most `limit`.
fn read_fraction_magnitude(body: &Vec<char>, limit: u64) -> (r: Option<u64>)
    requires
        limit <= 9_223_372_036_854_775_808,
    ensures
        r == match fraction_magnitude(body@) {
            Some(v) => if v <= limit {
                Some(v as u64)
            } else {
                None
            },
            None => None,
        },
        fraction_magnitude(body@) matches Some(v) ==> v >= 0,
{
    let point: usize = scan_digits(body, 0);
    assert(body@.subrange(0, point as int) =~= body@.take(point as int));
    let ghost whole_digits = body@.take(point as int);
    assert(all_digits(whole_digits)) by {
        lemma_digits_before_end(body@, 0, point as int);
    }
    let whole = read_digits(body, 0, point, WHOLE_LIMIT);
    if point == body.len() {
        if point == 0 {
            return None;
        }
        match whole {
            Some(w) => {
                let total: u64 = w * 1_000_000;
                if total > limit {
                    None
                } else {
                    Some(total)
                }
            },
            None => None,
        }
    } else if body[point] == '.' {
        if !digits_only(body, point + 1) {
            return None;
        }
        if body.len() - 1 == 0 {
            return None;
        }
        let frac: u64 = read_fraction(body, point + 1);
        match whole {
            Some(w) => {
                let total: u64 = w * 1_000_000 + frac;
                if total > limit {
                    None
                } else {
                    Some(total)
                }
            },
            None => None,
        }
    } else {
        None
    }
}

/// Every character between `from` and the end of the digit run that
/// starts there is a digit.
proof fn lemma_digits_before_end(s: Seq<char>, from: int, end: int)
    requires
        0 <= from <= s.len(),
        end == digits_end(s, from),
    ensures
        from <= end <= s.len(),
        forall|i: int| from <= i < end ==> is_digit(#[trigger] s[i]),
        end < s.len() ==> !is_digit(s[end]),
    decreases s.len() - from,
{
    if from < s.len() && is_digit(s[from]) {
        lemma_digits_before_end(s, from + 1, end);
    }
}

/// Reads a signed decimal fraction, in units of `10^-6`, that fits `i64`.
pub fn read_fraction_text(s: &Vec<char>) -> (r: Option<i64>)
    ensures
        r == fit_i64(fraction_text(s@)),
{
    assert(s@.len() > 0 ==> s@.subrange(1, s@.len() as int) =~= s@.skip(1));
    assert(s@.subrange(0, s@.len() as int) =~= s@);
    if s.len() > 0 && s[0] == '-' {
        let body = copy_range(s, 1, s.len());
        match read_fraction_magnitude(&body, 9_223_372_036_854_775_808) {
            Some(v) => Some((-(v as i128)) as i64),
            None => None,
        }
    } else {
        let body: Vec<char> = if s.len() > 0 && s[0] == '+' {
            copy_range(s, 1, s.len())
        } else {
            copy_range(s, 0, s.len())
        };
        match read_fraction_magnitude(&body, 9_223_372_036_854_775_807) {
            Some(v) => Some(v as i64),
            None => None,
        }
    }
}

/// The character of the digit `d`.
pub open spec fn digit_char(d: int) -> char {
    if d == 0 {
        '0'
    } else if d == 1 {
        '1'
    } else if d == 2 {
        '2'
    } else if d == 3 {
        '3'
    } else if d == 4 {
        '4'
    } else if d == 5 {
        '5'
    } else if d == 6 {
        '6'
    } else if d == 7 {
        '7'
    } else if d == 8 {
        '8'
    } else {
        '9'
    }
}

/// The digits of `n` in base ten, without leading zeros; `0` for 0.
pub open spec fn decimal_digits(n: nat) -> Seq<char>
    decreases n,
{
    if n < 10 {
        seq![digit_char(n as int)]
    } else {
        decimal_digits(n / 10) + seq![digit_char((n % 10) as int)]
    }
}

/// The last `width` digits of `n` in base ten, with leading zeros.
pub open spec fn padded_digits(n: nat, width: nat) -> Seq<char>
    decreases width,
{
    if width == 0 {
        Seq::<char>::empty()
    } else {
        padded_digits(n / 10, (width - 1) as nat) + seq![digit_char((n % 10) as int)]
    }
}

/// The `width` fractional digits that `n` stands for, without the zeros
/// at their end.
pub open spec fn trimmed_fraction(n: nat, width: nat) -> Seq<char>
    decreases width,
{
    if width == 0 {
        Seq::<char>::empty()
    } else if n % 10 == 0 {
        trimmed_fraction(n / 10, (width - 1) as nat)
    } else {
        padded_digits(n, width)
    }
}

/// A number of units of `10^-6` as a decimal number: the whole part, and
/// after a point the fractional digits, if any is not zero.
pub open spec fn fraction_digits(units: nat) -> Seq<char> {
    if units % 1_000_000 == 0 {
        decimal_digits(units / 1_000_000)
    } else {
        decimal_digits(units / 1_000_000) + seq!['.'] + trimmed_fraction(units % 1_000_000, 6)
    }
}

/// Two texts that agree on their first `k` characters spell the same
/// number there.
pub proof fn lemma_prefix_value_agrees(s: Seq<char>, t: Seq<char>, k: nat)
    requires
        k <= s.len(),
        k <= t.len(),
        forall|i: int| 0 <= i < k ==> s[i] == t[i],
    ensures
        prefix_value(s, k) == prefix_value(t, k),
    decreases k,
{
    if k > 0 {
        lemma_prefix_value_agrees(s, t, (k - 1) as nat);
    }
}

/// What is written is read back: the digits of a number are digits, there
/// is at least one, and they spell that number.
pub proof fn lemma_digits_spell_their_number(n: nat)
    ensures
        decimal_digits(n).len() > 0,
        all_digits(decimal_digits(n)),
        decimal_value(decimal_digits(n)) == n,
        magnitude(decimal_digits(n)) == Some(n as int),
    decreases n,
{
    let digits = decimal_digits(n);
    if n < 10 {
        assert(prefix_value(digits, 0) == 0);
        assert(prefix_value(digits, 1) == 10 * prefix_value(digits, 0) + digit_value(digits[0]));
    } else {
        let front = decimal_digits(n / 10);
        lemma_digits_spell_their_number(n / 10);
        lemma_prefix_value_agrees(digits, front, front.len());
        assert(digits.len() == front.len() + 1);
        assert(digits[front.len() as int] == digit_char((n % 10) as int));
        assert forall|i: int| 0 <= i < digits.len() implies is_digit(#[trigger] digits[i]) by {
            if i < front.len() {
                assert(digits[i] == front[i]);
            }
        }
    }
}

fn digit_text(d: u64) -> (s: &'static str)
    requires
        d <= 9,
    ensures
        s@ == seq![digit_char(d as int)],
{
    proof {
        reveal_strlit("0");
        reveal_strlit("1");
        reveal_strlit("2");
        reveal_strlit("3");
        reveal_strlit("4");
        reveal_strlit("5");
        reveal_strlit("6");
        reveal_strlit("7");
        reveal_strlit("8");
        reveal_strlit("9");
    }
    let s = if d == 0 {
        "0"
    } else if d == 1 {
        "1"
    } else if d == 2 {
        "2"
    } else if d == 3 {
        "3"
    } else if d == 4 {
        "4"
    } else if d == 5 {
        "5"
    } else if d == 6 {
        "6"
    } else if d == 7 {
        "7"
    } else if d == 8 {
        "8"
    } else {
        "9"
    };
    assert(s@ =~= seq![digit_char(d as int)]);
    s
}

/// Writes the digits of `n` at the end of `out`.
pub fn push_decimal(out: &mut String, n: u64)
    ensures
        final(out)@ == old(out)@ + decimal_digits(n as nat),
    decreases n,
{
    let ghost before = out@;
    if n >= 10 {
        push_decimal(out, n / 10);
    }
    out.append(digit_text(n % 10));
    assert(out@ =~= before + decimal_digits(n as nat));
}

/// Writes the last `width` digits of `n` at the end of `out`.
pub fn push_padded(out: &mut String, n: u64, width: u32)
    ensures
        final(out)@ == old(out)@ + padded_digits(n as nat, width as nat),
    decreases width,
{
    let ghost before = out@;
    if width > 0 {
        push_padded(out, n / 10, width - 1);
        out.append(digit_text(n % 10));
    }
    assert(out@ =~= before + padded_digits(n as nat, width as nat));
}

/// Writes a number of units of `10^-6` as a decimal number at the end of
/// `out`.
pub fn push_fraction(out: &mut String, units: u64)
    ensures
        final(out)@ == old(out)@ + fraction_digits(units as nat),
{
    let ghost before = out@;
    let whole: u64 = units / 1_000_000;
    let fraction: u64 = units % 1_000_000;
    push_decimal(out, whole);
    if fraction != 0 {
        let mut rest: u64 = fraction;
        let mut width: u32 = 6;
        while width > 0 && rest % 10 == 0
            invariant
                width <= 6,
                trimmed_fraction(fraction as nat, 6) == trimmed_fraction(rest as nat, width as nat),
            decreases width,
        {
            rest = rest / 10;
            width = width - 1;
        }
        proof {
            reveal_strlit(".");
            assert("."@ =~= seq!['.']);
        }
        out.append(".");
        push_padded(out, rest, width);
        assert(out@ =~= before + fraction_digits(units as nat));
    }
}

} // verus!

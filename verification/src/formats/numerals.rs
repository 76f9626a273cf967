//! Decimal numerals: the digits of a natural number, and decimal fractions
//! read into and written from fixed-point integers.
use crate::strings::chars_of;
use vstd::prelude::*;
use vstd::string::StringExecFns;

verus! {

/// `10^e`.
pub open spec fn pow10(e: nat) -> nat
    decreases e,
{
    if e == 0 {
        1
    } else {
        10 * pow10((e - 1) as nat)
    }
}

/// True for the ten ASCII digits.
pub open spec fn is_digit(c: char) -> bool {
    '0' <= c && c <= '9'
}

/// The number a digit stands for.
pub open spec fn digit_of(c: char) -> nat {
    (c as int - '0' as int) as nat
}

/// The digit that stands for `d`, for `d < 10`.
pub open spec fn digit_char(d: nat) -> char {
    if d == 0 {
        '0'
    } else if d == 1 {
        '1'
    } else if d == 2 {
        '2'
    } else if d == 3 {
        '3'
    } else if d == 4 {
        '4'
    } else if d == 5 {
        '5'
    } else if d == 6 {
        '6'
    } else if d == 7 {
        '7'
    } else if d == 8 {
        '8'
    } else {
        '9'
    }
}

/// True when every character of `s` is a digit (the empty text included).
pub open spec fn all_digits(s: Seq<char>) -> bool {
    forall|i: int| 0 <= i < s.len() ==> is_digit(#[trigger] s[i])
}

/// The number that a run of digits writes in base ten; leading zeros count
/// for nothing and the empty run is zero.
pub open spec fn digits_value(s: Seq<char>) -> nat
    decreases s.len(),
{
    if s.len() == 0 {
        0
    } else {
        digits_value(s.drop_last()) * 10 + digit_of(s.last())
    }
}

/// The shortest run of digits that writes `n`: no leading zero, `"0"` for zero.
pub open spec fn nat_digits(n: nat) -> Seq<char>
    decreases n,
{
    if n < 10 {
        seq![digit_char(n)]
    } else {
        nat_digits(n / 10).push(digit_char(n % 10))
    }
}

/// The last `width` digits of `n`, with zeros in front where `n` is short.
pub open spec fn padded_digits(n: nat, width: nat) -> Seq<char>
    decreases width,
{
    if width == 0 {
        Seq::<char>::empty()
    } else {
        padded_digits(n / 10, (width - 1) as nat).push(digit_char(n % 10))
    }
}

/// `n / q` rounded to the nearest whole number, a tie going to the even one.
pub open spec fn round_half_even(n: nat, q: nat) -> nat
    recommends
        q > 0,
{
    let floor = n / q;
    let rest = n % q;
    if 2 * rest < q {
        floor
    } else if 2 * rest > q {
        floor + 1
    } else if floor % 2 == 0 {
        floor
    } else {
        floor + 1
    }
}

/// The text without one leading `+`, if it has one.
pub open spec fn strip_plus(s: Seq<char>) -> Seq<char> {
    if s.len() > 0 && s[0] == '+' {
        s.skip(1)
    } else {
        s
    }
}

/// Where the first `c` of `s` stands, or `s.len()` when it has none.
pub open spec fn first_of(s: Seq<char>, c: char) -> int
    decreases s.len(),
{
    if s.len() == 0 {
        0
    } else if s[0] == c {
        0
    } else {
        1 + first_of(s.skip(1), c)
    }
}

/// The digits before and after the decimal point of a plain numeral:
/// digits, and optionally a `.` followed by digits, with at least one digit
/// in all. `None` for any other text.
pub open spec fn plain_parts(t: Seq<char>) -> Option<(Seq<char>, Seq<char>)> {
    let k = first_of(t, '.');
    let whole = t.take(k);
    let fraction = if k < t.len() {
        t.skip(k + 1)
    } else {
        Seq::<char>::empty()
    };
    if all_digits(whole) && all_digits(fraction) && whole.len() + fraction.len() > 0 {
        Some((whole, fraction))
    } else {
        None
    }
}

/// Where the first `e` or `E` of `s` stands, or `s.len()` when it has none.
pub open spec fn exponent_mark(s: Seq<char>) -> int
    decreases s.len(),
{
    if s.len() == 0 {
        0
    } else if s[0] == 'e' || s[0] == 'E' {
        0
    } else {
        1 + exponent_mark(s.skip(1))
    }
}

/// The exponent that a text writes: an optional `+` or `-` and at least one
/// digit. `None` for any other text.
pub open spec fn exponent_of(u: Seq<char>) -> Option<int> {
    let signed = u.len() > 0 && (u[0] == '-' || u[0] == '+');
    let digits = if signed {
        u.skip(1)
    } else {
        u
    };
    if digits.len() > 0 && all_digits(digits) {
        if signed && u[0] == '-' {
            Some(-(digits_value(digits) as int))
        } else {
            Some(digits_value(digits) as int)
        }
    } else {
        None
    }
}

/// The parts of an unsigned decimal numeral: an optional `+`, a plain
/// numeral, and optionally an `e` or `E` followed by an exponent. The result
/// holds the digits before the point, the digits after it, and the exponent
/// (zero where none is written). `None` for any other text.
pub open spec fn numeral_parts(s: Seq<char>) -> Option<(Seq<char>, Seq<char>, int)> {
    let t = strip_plus(s);
    let x = exponent_mark(t);
    let exponent = if x < t.len() {
        exponent_of(t.skip(x + 1))
    } else {
        Some(0int)
    };
    match (plain_parts(t.take(x)), exponent) {
        (Some((whole, fraction)), Some(e)) => Some((whole, fraction, e)),
        _ => None,
    }
}

/// `m * 10^shift`, rounded to the nearest whole number (ties to even) where
/// the shift is negative.
pub open spec fn shifted(m: nat, shift: int) -> nat {
    if shift >= 0 {
        m * pow10(shift as nat)
    } else {
        round_half_even(m, pow10((-shift) as nat))
    }
}

/// `n` as a 64-bit number, if it is small enough to be one.
pub open spec fn fit64(n: nat) -> Option<u64> {
    if n <= u64::MAX {
        Some(n as u64)
    } else {
        None
    }
}

/// `n` as a 128-bit number, if it is small enough to be one.
pub open spec fn fit128(n: nat) -> Option<u128> {
    if n <= u128::MAX {
        Some(n as u128)
    } else {
        None
    }
}

/// What a decimal numeral is worth in units of `10^-places`, however large:
/// the number its digits write, shifted by its exponent and by `places`, and
/// rounded to the nearest unit (ties to even) where it has more places than
/// that. `None` for text that is no decimal numeral.
pub open spec fn scaled_of_text(s: Seq<char>, places: nat) -> Option<nat> {
    match numeral_parts(s) {
        Some((whole, fraction, exponent)) => Some(
            shifted(digits_value(whole + fraction), places + exponent - fraction.len()),
        ),
        None => None,
    }
}

/// What a decimal numeral is worth in units of `10^-places`: the value of
/// [`parse_fixed`]. `None` for text that is no decimal numeral, and for one
/// whose value does not fit in 64 bits.
pub open spec fn fixed_of_text(s: Seq<char>, places: nat) -> Option<u64> {
    match scaled_of_text(s, places) {
        Some(n) => fit64(n),
        None => None,
    }
}

/// A count of units of `10^-places` written as a decimal numeral with exactly
/// `places` digits after the point (and no point when `places` is zero).
pub open spec fn fixed_text(v: nat, places: nat) -> Seq<char> {
    if places == 0 {
        nat_digits(v)
    } else {
        nat_digits(v / pow10(places)) + seq!['.'] + padded_digits(v % pow10(places), places)
    }
}

/// What a plain unsigned integer numeral is worth: an optional `+` and at
/// least one digit. `None` for any other text.
pub open spec fn nat_of_text(s: Seq<char>) -> Option<nat> {
    let t = strip_plus(s);
    if t.len() > 0 && all_digits(t) {
        Some(digits_value(t))
    } else {
        None
    }
}

/// `10^e` is never zero.
pub proof fn lemma_pow10_positive(e: nat)
    ensures
        pow10(e) > 0,
    decreases e,
{
    if e > 0 {
        lemma_pow10_positive((e - 1) as nat);
    }
}

/// `10^(a+b) = 10^a * 10^b`.
pub proof fn lemma_pow10_add(a: nat, b: nat)
    ensures
        pow10(a + b) == pow10(a) * pow10(b),
    decreases a,
{
    if a > 0 {
        lemma_pow10_add((a - 1) as nat, b);
        assert(pow10(a + b) == 10 * pow10((a - 1 + b) as nat));
        assert(10 * (pow10((a - 1) as nat) * pow10(b)) == (10 * pow10((a - 1) as nat)) * pow10(b))
            by (nonlinear_arith);
    } else {
        assert(pow10(a + b) == pow10(b));
        assert(pow10(a) * pow10(b) == pow10(b)) by (nonlinear_arith)
            requires
                pow10(a) == 1,
        ;
    }
}

/// The value of two runs of digits written one after the other.
pub proof fn lemma_digits_value_append(a: Seq<char>, b: Seq<char>)
    ensures
        digits_value(a + b) == digits_value(a) * pow10(b.len()) + digits_value(b),
    decreases b.len(),
{
    if b.len() == 0 {
        assert(a + b =~= a);
        assert(digits_value(a) * pow10(0) == digits_value(a)) by (nonlinear_arith)
            requires
                pow10(0) == 1,
        ;
    } else {
        let b0 = b.drop_last();
        assert((a + b).drop_last() =~= a + b0);
        assert((a + b).last() == b.last());
        lemma_digits_value_append(a, b0);
        let x = digits_value(a);
        let p = pow10(b0.len());
        let y = digits_value(b0);
        let d = digit_of(b.last());
        assert(pow10(b.len()) == 10 * p);
        assert((x * p + y) * 10 + d == x * (10 * p) + (y * 10 + d)) by (nonlinear_arith);
    }
}

/// A run of `n` digits writes a number below `10^n`.
pub proof fn lemma_digits_value_bound(s: Seq<char>)
    requires
        all_digits(s),
    ensures
        digits_value(s) < pow10(s.len()),
    decreases s.len(),
{
    if s.len() > 0 {
        let s0 = s.drop_last();
        assert(all_digits(s0)) by {
            assert forall|i: int| 0 <= i < s0.len() implies is_digit(#[trigger] s0[i]) by {
                assert(s0[i] == s[i]);
            }
        }
        lemma_digits_value_bound(s0);
        assert(is_digit(s.last()));
        assert(digit_of(s.last()) <= 9);
    }
}

/// A run of digits writes zero exactly when each of them is `0`.
pub proof fn lemma_digits_value_zero(s: Seq<char>)
    requires
        all_digits(s),
    ensures
        digits_value(s) == 0 <==> (forall|i: int| 0 <= i < s.len() ==> s[i] == '0'),
    decreases s.len(),
{
    if s.len() > 0 {
        let s0 = s.drop_last();
        assert(all_digits(s0)) by {
            assert forall|i: int| 0 <= i < s0.len() implies is_digit(#[trigger] s0[i]) by {
                assert(s0[i] == s[i]);
            }
        }
        lemma_digits_value_zero(s0);
        assert(is_digit(s.last()));
        if digits_value(s) == 0 {
            assert(digits_value(s0) == 0 && digit_of(s.last()) == 0);
            assert forall|i: int| 0 <= i < s.len() implies s[i] == '0' by {
                if i < s.len() - 1 {
                    assert(s0[i] == s[i]);
                }
            }
        }
        if forall|i: int| 0 <= i < s.len() ==> s[i] == '0' {
            assert forall|i: int| 0 <= i < s0.len() implies s0[i] == '0' by {
                assert(s0[i] == s[i]);
            }
            assert(s.last() == '0');
        }
    }
}

/// The digits of `n` are digits, at least one, and write `n`.
pub proof fn lemma_nat_digits(n: nat)
    ensures
        nat_digits(n).len() >= 1,
        all_digits(nat_digits(n)),
        digits_value(nat_digits(n)) == n,
    decreases n,
{
    let s = nat_digits(n);
    if n < 10 {
        assert(s.drop_last() =~= Seq::<char>::empty());
        assert(digits_value(s.drop_last()) == 0);
        assert(s.last() == digit_char(n));
    } else {
        lemma_nat_digits(n / 10);
        let s0 = nat_digits(n / 10);
        assert(s.drop_last() =~= s0);
        assert(s.last() == digit_char(n % 10));
        assert forall|i: int| 0 <= i < s.len() implies is_digit(#[trigger] s[i]) by {
            if i < s0.len() {
                assert(s[i] == s0[i]);
            }
        }
    }
}

/// `width` padded digits are `width` digits and write `n` modulo `10^width`.
pub proof fn lemma_padded_digits(n: nat, width: nat)
    ensures
        padded_digits(n, width).len() == width,
        all_digits(padded_digits(n, width)),
        digits_value(padded_digits(n, width)) == n % pow10(width),
    decreases width,
{
    let s = padded_digits(n, width);
    lemma_pow10_positive(width);
    if width == 0 {
        assert(n % 1 == 0);
    } else {
        let w0 = (width - 1) as nat;
        lemma_padded_digits(n / 10, w0);
        lemma_pow10_positive(w0);
        let s0 = padded_digits(n / 10, w0);
        assert(s.drop_last() =~= s0);
        assert(s.last() == digit_char(n % 10));
        assert forall|i: int| 0 <= i < s.len() implies is_digit(#[trigger] s[i]) by {
            if i < s0.len() {
                assert(s[i] == s0[i]);
            }
        }
        let p = pow10(w0);
        assert(pow10(width) == 10 * p);
        let q = n / 10;
        let hi = q / p;
        let lo = q % p;
        assert(q == p * hi + lo) by {
            vstd::arithmetic::div_mod::lemma_fundamental_div_mod(q as int, p as int);
        }
        assert(n == hi * (10 * p) + (lo * 10 + n % 10)) by (nonlinear_arith)
            requires
                q == p * hi + lo,
                n == 10 * q + n % 10,
        ;
        vstd::arithmetic::div_mod::lemma_fundamental_div_mod_converse(
            n as int,
            (10 * p) as int,
            hi as int,
            (lo * 10 + n % 10) as int,
        );
    }
}

/// The first `c` stands where no `c` comes before and one stands, or the text ends.
pub proof fn lemma_first_of(s: Seq<char>, c: char, k: int)
    requires
        0 <= k <= s.len(),
        forall|i: int| 0 <= i < k ==> s[i] != c,
        k < s.len() ==> s[k] == c,
    ensures
        first_of(s, c) == k,
    decreases s.len(),
{
    if s.len() > 0 && k > 0 {
        let t = s.skip(1);
        assert forall|i: int| 0 <= i < k - 1 implies t[i] != c by {
            assert(t[i] == s[i + 1]);
        }
        lemma_first_of(t, c, k - 1);
    }
}

/// Where the first `c` stands between `from` and `to`, or `to`.
pub fn find_char(v: &Vec<char>, from: usize, to: usize, c: char) -> (k: usize)
    requires
        from <= to <= v@.len(),
    ensures
        from <= k <= to,
        k - from == first_of(v@.subrange(from as int, to as int), c),
{
    let ghost t = v@.subrange(from as int, to as int);
    let mut k: usize = from;
    while k < to && v[k] != c
        invariant
            from <= k <= to <= v@.len(),
            t == v@.subrange(from as int, to as int),
            forall|j: int| 0 <= j < k - from ==> t[j] != c,
        decreases to - k,
    {
        k += 1;
    }
    proof {
        lemma_first_of(t, c, k - from);
    }
    k
}

/// The digits `s` written after a number `front`: `front * 10^len + value`.
pub open spec fn joined(front: nat, s: Seq<char>) -> nat {
    front * pow10(s.len()) + digits_value(s)
}

/// Writing `a` and then `b` after a number is writing `a + b` after it.
pub proof fn lemma_joined_split(front: nat, a: Seq<char>, b: Seq<char>)
    ensures
        joined(front, a + b) == joined(joined(front, a), b),
        joined(front, a) <= joined(front, a + b),
{
    lemma_digits_value_append(a, b);
    lemma_pow10_add(a.len(), b.len());
    lemma_pow10_positive(b.len());
    let pa = pow10(a.len());
    let pb = pow10(b.len());
    let x = digits_value(a);
    let y = digits_value(b);
    assert(front * (pa * pb) + (x * pb + y) == (front * pa + x) * pb + y) by (nonlinear_arith);
    assert((front * pa + x) * pb + y >= front * pa + x) by (nonlinear_arith)
        requires
            pb >= 1,
    ;
}

/// How a run of digits is rounded where its last digits are dropped: by
/// the first dropped digit, then by whether anything but zeros follows, then
/// to even. Without rounding, what is left is what the kept digits write.
pub proof fn lemma_round_cut(d: Seq<char>, k: int)
    requires
        all_digits(d),
        0 <= k < d.len(),
    ensures
        ({
            let kept = digits_value(d.take(k));
            let first = digit_of(d[k]);
            let tail = d.skip(k + 1);
            let q = pow10((d.len() - k) as nat);
            &&& all_digits(tail)
            &&& q > 0
            &&& digits_value(d) / q == kept
            &&& round_half_even(digits_value(d), q) == (if first < 5 {
                kept
            } else if first > 5 || digits_value(tail) != 0 {
                kept + 1
            } else if kept % 2 == 0 {
                kept
            } else {
                kept + 1
            })
        }),
{
    let head = d.take(k);
    let dropped = d.skip(k);
    let tail = d.skip(k + 1);
    let c = d[k];
    assert(d =~= head + dropped);
    assert(dropped =~= seq![c] + tail);
    assert(all_digits(dropped)) by {
        assert forall|i: int| 0 <= i < dropped.len() implies is_digit(#[trigger] dropped[i]) by {
            assert(dropped[i] == d[i + k]);
        }
    }
    assert(all_digits(tail)) by {
        assert forall|i: int| 0 <= i < tail.len() implies is_digit(#[trigger] tail[i]) by {
            assert(tail[i] == d[i + k + 1]);
        }
    }
    assert(is_digit(c));
    lemma_digits_value_append(head, dropped);
    lemma_digits_value_bound(dropped);
    lemma_digits_value_append(seq![c], tail);
    lemma_digits_value_bound(tail);
    assert(digits_value(seq![c]) == digit_of(c)) by {
        assert(seq![c].drop_last() =~= Seq::<char>::empty());
        assert(digits_value(seq![c].drop_last()) == 0);
    }
    let kept = digits_value(head);
    let q = pow10(dropped.len());
    let p = pow10(tail.len());
    let rest = digits_value(dropped);
    let first = digit_of(c);
    let t = digits_value(tail);
    assert(q == 10 * p);
    lemma_pow10_positive(tail.len());
    assert(rest == first * p + t);
    vstd::arithmetic::div_mod::lemma_fundamental_div_mod_converse(
        (kept * q + rest) as int,
        q as int,
        kept as int,
        rest as int,
    );
    assert(digits_value(d) / q == kept);
    assert(digits_value(d) % q == rest);
    if first < 5 {
        assert(2 * (first * p + t) < 10 * p) by (nonlinear_arith)
            requires
                first <= 4,
                t < p,
        ;
    } else if first > 5 {
        assert(2 * (first * p + t) > 10 * p) by (nonlinear_arith)
            requires
                first >= 6,
                p > 0,
        ;
    } else {
        assert(2 * (first * p + t) == 10 * p + 2 * t) by (nonlinear_arith)
            requires
                first == 5,
        ;
    }
}

/// A larger power of ten is not smaller.
pub proof fn lemma_pow10_monotone(a: nat, b: nat)
    requires
        a <= b,
    ensures
        pow10(a) <= pow10(b),
{
    lemma_pow10_add(a, (b - a) as nat);
    lemma_pow10_positive(a);
    lemma_pow10_positive((b - a) as nat);
    assert(pow10(a) <= pow10(a) * pow10((b - a) as nat)) by (nonlinear_arith)
        requires
            pow10((b - a) as nat) >= 1,
    ;
}

/// A run of digits of which more are dropped than it has rounds to zero.
pub proof fn lemma_vanish(d: Seq<char>, drop: nat)
    requires
        all_digits(d),
        drop > d.len(),
    ensures
        round_half_even(digits_value(d), pow10(drop)) == 0,
{
    lemma_digits_value_bound(d);
    lemma_pow10_monotone(d.len(), (drop - 1) as nat);
    let m = digits_value(d);
    let q = pow10(drop);
    assert(q == 10 * pow10((drop - 1) as nat));
    vstd::arithmetic::div_mod::lemma_small_mod(m, q);
    vstd::arithmetic::div_mod::lemma_basic_div(m as int, q as int);
}

/// A number that is not zero, shifted by thirty-nine places or more, is
/// beyond 128 bits.
pub proof fn lemma_big(n: nat, shift: nat)
    requires
        n >= 1,
        shift >= 39,
    ensures
        n * pow10(shift) > u128::MAX,
{
    lemma_pow10_up_to_18(3);
    lemma_pow10_small();
    lemma_pow10_add(18, 18);
    lemma_pow10_add(36, 3);
    assert(pow10(39) == 1_000_000_000_000_000_000 * 1_000_000_000_000_000_000 * 1000);
    lemma_pow10_monotone(39, shift);
    assert(n * pow10(shift) >= pow10(39)) by (nonlinear_arith)
        requires
            n >= 1,
            pow10(shift) >= pow10(39),
    ;
}

/// A text without `e` and `E` has its exponent mark at its end.
pub proof fn lemma_exponent_mark(s: Seq<char>, k: int)
    requires
        0 <= k <= s.len(),
        forall|i: int| 0 <= i < k ==> s[i] != 'e' && s[i] != 'E',
        k < s.len() ==> s[k] == 'e' || s[k] == 'E',
    ensures
        exponent_mark(s) == k,
    decreases s.len(),
{
    if s.len() > 0 && k > 0 {
        let t = s.skip(1);
        assert forall|i: int| 0 <= i < k - 1 implies t[i] != 'e' && t[i] != 'E' by {
            assert(t[i] == s[i + 1]);
        }
        lemma_exponent_mark(t, k - 1);
    }
}

/// True for the ten ASCII digits.
pub fn is_digit_char(c: char) -> (r: bool)
    ensures
        r == is_digit(c),
{
    c >= '0' && c <= '9'
}

/// The number a digit stands for.
pub fn digit_value(c: char) -> (d: u8)
    requires
        is_digit(c),
    ensures
        d as nat == digit_of(c),
        d <= 9,
{
    (c as u32 - '0' as u32) as u8
}

/// Whether the characters from `from` up to `to` are all digits.
pub fn digits_in(v: &Vec<char>, from: usize, to: usize) -> (r: bool)
    requires
        from <= to <= v@.len(),
    ensures
        r == all_digits(v@.subrange(from as int, to as int)),
{
    let ghost s = v@.subrange(from as int, to as int);
    let mut i: usize = from;
    while i < to
        invariant
            from <= i <= to <= v@.len(),
            s == v@.subrange(from as int, to as int),
            forall|j: int| 0 <= j < i - from ==> is_digit(#[trigger] s[j]),
        decreases to - i,
    {
        if !is_digit_char(v[i]) {
            assert(!is_digit(s[i - from]));
            return false;
        }
        i += 1;
    }
    true
}

/// Whether a character other than `0` stands between `from` and `to`.
pub fn any_nonzero(v: &Vec<char>, from: usize, to: usize) -> (r: bool)
    requires
        from <= to <= v@.len(),
    ensures
        r == !(forall|j: int| 0 <= j < to - from ==> v@.subrange(from as int, to as int)[j] == '0'),
{
    let ghost s = v@.subrange(from as int, to as int);
    let mut i: usize = from;
    while i < to
        invariant
            from <= i <= to <= v@.len(),
            s == v@.subrange(from as int, to as int),
            forall|j: int| 0 <= j < i - from ==> s[j] == '0',
        decreases to - i,
    {
        if v[i] != '0' {
            assert(s[i - from] != '0');
            return true;
        }
        i += 1;
    }
    false
}

/// Reads the digits from `from` up to `to` as a continuation of the number
/// `front`; `None` when the result does not fit in 128 bits.
pub fn accumulate(v: &Vec<char>, from: usize, to: usize, front: u128) -> (r: Option<u128>)
    requires
        from <= to <= v@.len(),
        all_digits(v@.subrange(from as int, to as int)),
    ensures
        r == fit128(joined(front as nat, v@.subrange(from as int, to as int))),
{
    let ghost s = v@.subrange(from as int, to as int);
    let mut acc: u128 = front;
    let mut i: usize = from;
    proof {
        assert(v@.subrange(from as int, from as int) =~= Seq::<char>::empty());
        assert(joined(front as nat, Seq::<char>::empty()) == front) by (nonlinear_arith)
            requires
                pow10(0) == 1,
                digits_value(Seq::<char>::empty()) == 0,
                joined(front as nat, Seq::<char>::empty()) == front * pow10(0) + digits_value(
                    Seq::<char>::empty(),
                ),
        ;
    }
    while i < to
        invariant
            from <= i <= to <= v@.len(),
            s == v@.subrange(from as int, to as int),
            all_digits(s),
            acc as nat == joined(front as nat, v@.subrange(from as int, i as int)),
        decreases to - i,
    {
        let c = v[i];
        assert(is_digit(s[i - from]));
        let d = digit_value(c);
        let ghost done = v@.subrange(from as int, i as int);
        let ghost next = v@.subrange(from as int, i + 1);
        let ghost rest = v@.subrange(i + 1, to as int);
        proof {
            assert(next =~= done + seq![c]);
            assert(s =~= next + rest);
            lemma_joined_split(front as nat, done, seq![c]);
            lemma_joined_split(front as nat, next, rest);
            assert(digits_value(seq![c]) == digit_of(c)) by {
                assert(seq![c].drop_last() =~= Seq::<char>::empty());
                assert(digits_value(seq![c].drop_last()) == 0);
            }
            assert(pow10(1) == 10) by {
                assert(pow10(0) == 1);
            }
            assert(joined(front as nat, next) == acc * 10 + d);
        }
        if acc > (u128::MAX - d as u128) / 10 {
            assert(acc * 10 + d > u128::MAX);
            return None;
        }
        acc = acc * 10 + d as u128;
        i += 1;
    }
    assert(v@.subrange(from as int, i as int) =~= s);
    Some(acc)
}

/// `n * 10^e`; `None` when that does not fit in 128 bits.
pub fn scale_up(n: u128, e: u32) -> (r: Option<u128>)
    ensures
        r == fit128(n as nat * pow10(e as nat)),
{
    if n == 0 {
        assert(0 * pow10(e as nat) == 0) by (nonlinear_arith);
        return Some(0);
    }
    let mut acc: u128 = n;
    let mut i: u32 = 0;
    assert(n * pow10(0) == n) by (nonlinear_arith)
        requires
            pow10(0) == 1,
    ;
    while i < e
        invariant
            i <= e,
            n > 0,
            acc as nat == n as nat * pow10(i as nat),
        decreases e - i,
    {
        proof {
            let pi = pow10(i as nat);
            let pn = pow10((i + 1) as nat);
            let b = pow10((e - i - 1) as nat);
            lemma_pow10_add((i + 1) as nat, (e - i - 1) as nat);
            lemma_pow10_positive((e - i - 1) as nat);
            assert(pn == 10 * pi);
            assert(pow10(e as nat) == pn * b);
            assert(n as nat * (pn * b) >= (n as nat * pi) * 10) by (nonlinear_arith)
                requires
                    pn == 10 * pi,
                    b >= 1,
            ;
            assert(n as nat * pn == (n as nat * pi) * 10) by (nonlinear_arith)
                requires
                    pn == 10 * pi,
            ;
        }
        if acc > u128::MAX / 10 {
            return None;
        }
        acc = acc * 10;
        i += 1;
    }
    Some(acc)
}

/// Where the first `e` or `E` stands between `from` and `to`, or `to`.
pub fn find_mark(v: &Vec<char>, from: usize, to: usize) -> (k: usize)
    requires
        from <= to <= v@.len(),
    ensures
        from <= k <= to,
        k - from == exponent_mark(v@.subrange(from as int, to as int)),
{
    let ghost t = v@.subrange(from as int, to as int);
    let mut k: usize = from;
    while k < to && v[k] != 'e' && v[k] != 'E'
        invariant
            from <= k <= to <= v@.len(),
            t == v@.subrange(from as int, to as int),
            forall|j: int| 0 <= j < k - from ==> t[j] != 'e' && t[j] != 'E',
        decreases to - k,
    {
        k += 1;
    }
    proof {
        lemma_exponent_mark(t, k - from);
    }
    k
}

/// Where the parts of a plain numeral stand between `from` and `to`: the
/// whole part runs from `from` to the first index returned, the fraction
/// from the second to `to`. `None` where the text is no plain numeral.
pub fn split_plain(v: &Vec<char>, from: usize, to: usize) -> (r: Option<(usize, usize)>)
    requires
        from <= to <= v@.len(),
    ensures
        r is None <==> plain_parts(v@.subrange(from as int, to as int)) is None,
        r matches Some((dot, frac)) ==> {
            &&& from <= dot <= frac <= to
            &&& plain_parts(v@.subrange(from as int, to as int)) == Some(
                (v@.subrange(from as int, dot as int), v@.subrange(frac as int, to as int)),
            )
        },
{
    let ghost t = v@.subrange(from as int, to as int);
    let k: usize = find_char(v, from, to, '.');
    let frac_from: usize = if k < to {
        k + 1
    } else {
        to
    };
    let ghost whole = v@.subrange(from as int, k as int);
    let ghost fraction = v@.subrange(frac_from as int, to as int);
    assert(whole =~= t.take(k - from));
    assert(fraction =~= (if k - from < t.len() {
        t.skip(k - from + 1)
    } else {
        Seq::<char>::empty()
    }));
    if !digits_in(v, from, k) || !digits_in(v, frac_from, to) || (k - from) + (to - frac_from)
        == 0 {
        return None;
    }
    Some((k, frac_from))
}

/// Whether `e` is the exponent that was read as a sign and a magnitude,
/// where a magnitude beyond 128 bits is read as none.
pub open spec fn exponent_is(e: int, negative: bool, magnitude: Option<u128>) -> bool {
    match magnitude {
        Some(m) => e == (if negative {
            -(m as int)
        } else {
            m as int
        }),
        None => if negative {
            e < -(u128::MAX as int)
        } else {
            e > u128::MAX as int
        },
    }
}

/// Reads the characters from `from` up to `to` as an exponent: whether it is
/// negative, and its magnitude where that fits in 128 bits. `None` where
/// the text is no exponent.
pub fn read_exponent(v: &Vec<char>, from: usize, to: usize) -> (r: Option<(bool, Option<u128>)>)
    requires
        from <= to <= v@.len(),
    ensures
        match exponent_of(v@.subrange(from as int, to as int)) {
            Some(e) => r matches Some((negative, magnitude)) && exponent_is(e, negative, magnitude),
            None => r is None,
        },
{
    let ghost u = v@.subrange(from as int, to as int);
    let mut start: usize = from;
    let mut negative = false;
    if start < to && (v[start] == '-' || v[start] == '+') {
        negative = v[start] == '-';
        start += 1;
    }
    let ghost digits = v@.subrange(start as int, to as int);
    assert(digits =~= (if u.len() > 0 && (u[0] == '-' || u[0] == '+') {
        u.skip(1)
    } else {
        u
    }));
    if start == to || !digits_in(v, start, to) {
        return None;
    }
    proof {
        assert(joined(0, digits) == digits_value(digits)) by (nonlinear_arith)
            requires
                joined(0, digits) == 0 * pow10(digits.len()) + digits_value(digits),
        ;
    }
    Some((negative, accumulate(v, start, to, 0)))
}

/// The digits of `a` followed by those of `b`, as one run.
pub fn join_digits(v: &Vec<char>, a_from: usize, a_to: usize, b_from: usize, b_to: usize) -> (d:
    Vec<char>)
    requires
        a_from <= a_to <= v@.len(),
        b_from <= b_to <= v@.len(),
    ensures
        d@ == v@.subrange(a_from as int, a_to as int) + v@.subrange(b_from as int, b_to as int),
{
    let ghost a = v@.subrange(a_from as int, a_to as int);
    let ghost b = v@.subrange(b_from as int, b_to as int);
    let mut d: Vec<char> = Vec::new();
    let mut i: usize = a_from;
    while i < a_to
        invariant
            a_from <= i <= a_to <= v@.len(),
            d@ == v@.subrange(a_from as int, i as int),
        decreases a_to - i,
    {
        d.push(v[i]);
        i += 1;
        assert(d@ =~= v@.subrange(a_from as int, i as int));
    }
    let mut j: usize = b_from;
    assert(d@ =~= a + v@.subrange(b_from as int, j as int));
    while j < b_to
        invariant
            b_from <= j <= b_to <= v@.len(),
            a == v@.subrange(a_from as int, a_to as int),
            d@ == a + v@.subrange(b_from as int, j as int),
        decreases b_to - j,
    {
        d.push(v[j]);
        j += 1;
        assert(d@ =~= a + v@.subrange(b_from as int, j as int));
    }
    d
}

/// What a run of digits writes, shifted by `shift` places and rounded to the
/// nearest whole number (ties to even); `None` beyond 128 bits.
pub fn shift_digits(digits: &Vec<char>, shift: i128) -> (r: Option<u128>)
    requires
        all_digits(digits@),
        -0x1_0000_0000_0000_0000_0000 <= shift <= 0x1_0000_0000_0000_0000_0000,
    ensures
        r == fit128(shifted(digits_value(digits@), shift as int)),
{
    let len = digits.len();
    let ghost d = digits@;
    assert(d.subrange(0, len as int) =~= d);
    if shift >= 0 {
        proof {
            assert(joined(0, d) == digits_value(d)) by (nonlinear_arith)
                requires
                    joined(0, d) == 0 * pow10(d.len()) + digits_value(d),
            ;
            lemma_pow10_positive(shift as nat);
            assert(digits_value(d) * pow10(shift as nat) >= digits_value(d)) by (nonlinear_arith)
                requires
                    pow10(shift as nat) >= 1,
            ;
        }
        let n = match accumulate(digits, 0, len, 0) {
            Some(n) => n,
            None => {
                return None;
            },
        };
        if n > 0 && shift > 40 {
            proof {
                lemma_big(n as nat, shift as nat);
            }
            return None;
        }
        if n == 0 {
            assert(0 * pow10(shift as nat) == 0) by (nonlinear_arith);
            return Some(0);
        }
        scale_up(n, shift as u32)
    } else {
        let drop: i128 = -shift;
        if drop > len as i128 {
            proof {
                lemma_vanish(d, drop as nat);
            }
            return Some(0);
        }
        let k: usize = len - (drop as usize);
        let ghost head = d.take(k as int);
        proof {
            lemma_round_cut(d, k as int);
            assert(d.subrange(0, k as int) =~= head);
            assert(all_digits(head)) by {
                assert forall|i: int| 0 <= i < head.len() implies is_digit(#[trigger] head[i]) by {
                    assert(head[i] == d[i]);
                }
            }
            assert(joined(0, head) == digits_value(head)) by (nonlinear_arith)
                requires
                    joined(0, head) == 0 * pow10(head.len()) + digits_value(head),
            ;
            assert(d.subrange(k + 1, len as int) =~= d.skip(k + 1));
            lemma_digits_value_zero(d.skip(k + 1));
        }
        let kept = match accumulate(digits, 0, k, 0) {
            Some(n) => n,
            None => {
                return None;
            },
        };
        assert(is_digit(d[k as int]));
        let first = digit_value(digits[k]);
        let sticky = any_nonzero(digits, k + 1, len);
        let up = first > 5 || (first == 5 && (sticky || kept % 2 == 1));
        if !up {
            Some(kept)
        } else if kept == u128::MAX {
            None
        } else {
            Some(kept + 1)
        }
    }
}

/// What a run of digits, the last `flen` of them after the point, is worth in
/// units of `10^-places` under an exponent that was read as a sign and a
/// magnitude; `None` beyond 128 bits.
pub fn place_digits(
    digits: &Vec<char>,
    places: u32,
    flen: usize,
    negative: bool,
    magnitude: Option<u128>,
) -> (r: Option<u128>)
    requires
        all_digits(digits@),
        flen <= digits@.len(),
    ensures
        forall|e: int| #[trigger]
            exponent_is(e, negative, magnitude) ==> r == fit128(
                shifted(digits_value(digits@), places + e - flen),
            ),
{
    let ghost d = digits@;
    let len = digits.len();
    let small: Option<u128> = match magnitude {
        Some(m) => if m < 0x40_0000_0000_0000_0000 {
            Some(m)
        } else {
            None
        },
        None => None,
    };
    match small {
        Some(m) => {
            let e: i128 = if negative {
                -(m as i128)
            } else {
                m as i128
            };
            shift_digits(digits, places as i128 - flen as i128 + e)
        },
        None => {
            if negative {
                proof {
                    assert forall|e: int| #[trigger]
                        exponent_is(e, negative, magnitude) implies shifted(
                        digits_value(d),
                        places + e - flen,
                    ) == 0 by {
                        assert(e <= -0x40_0000_0000_0000_0000);
                        assert(d.len() == len);
                        assert(places + e - flen < -(d.len() as int));
                        lemma_vanish(d, (-(places + e - flen)) as nat);
                    }
                }
                Some(0)
            } else if any_nonzero(digits, 0, len) {
                proof {
                    assert(d.subrange(0, d.len() as int) =~= d);
                    lemma_digits_value_zero(d);
                    assert forall|e: int| #[trigger]
                        exponent_is(e, negative, magnitude) implies shifted(
                        digits_value(d),
                        places + e - flen,
                    ) > u128::MAX by {
                        assert(e >= 0x40_0000_0000_0000_0000);
                        assert(flen <= len);
                        assert(places + e - flen >= 39);
                        lemma_big(digits_value(d), (places + e - flen) as nat);
                    }
                }
                None
            } else {
                proof {
                    assert(d.subrange(0, d.len() as int) =~= d);
                    lemma_digits_value_zero(d);
                    assert forall|e: int| #[trigger]
                        exponent_is(e, negative, magnitude) implies shifted(
                        digits_value(d),
                        places + e - flen,
                    ) == 0 by {
                        assert(0 * pow10((places + e - flen) as nat) == 0) by (nonlinear_arith);
                    }
                }
                Some(0)
            }
        },
    }
}

/// Reads the characters from `from` up to `to` as a decimal numeral, in units
/// of `10^-places`; `None` for text that is no decimal numeral and for a
/// value beyond 128 bits.
pub fn parse_scaled_chars(v: &Vec<char>, from: usize, to: usize, places: u32) -> (r: Option<u128>)
    requires
        from <= to <= v@.len(),
    ensures
        r == (match scaled_of_text(v@.subrange(from as int, to as int), places as nat) {
            Some(n) => fit128(n),
            None => None,
        }),
{
    let ghost s = v@.subrange(from as int, to as int);
    let mut start: usize = from;
    if start < to && v[start] == '+' {
        start += 1;
    }
    let ghost t = v@.subrange(start as int, to as int);
    assert(t =~= strip_plus(s));
    let mark = find_mark(v, start, to);
    assert(v@.subrange(start as int, mark as int) =~= t.take(mark - start));
    let (dot, frac) = match split_plain(v, start, mark) {
        Some(parts) => parts,
        None => {
            return None;
        },
    };
    let (negative, magnitude) = if mark < to {
        assert(v@.subrange(mark + 1, to as int) =~= t.skip(mark - start + 1));
        match read_exponent(v, mark + 1, to) {
            Some(exponent) => exponent,
            None => {
                return None;
            },
        }
    } else {
        (false, Some(0u128))
    };
    let digits = join_digits(v, start, dot, frac, mark);
    proof {
        let whole = v@.subrange(start as int, dot as int);
        let fraction = v@.subrange(frac as int, mark as int);
        assert forall|i: int| 0 <= i < digits@.len() implies is_digit(#[trigger] digits@[i]) by {
            if i < whole.len() {
                assert(digits@[i] == whole[i]);
            } else {
                assert(digits@[i] == fraction[i - whole.len()]);
            }
        }
    }
    let ghost exponent = if mark < to {
        exponent_of(t.skip(mark - start + 1))->0
    } else {
        0int
    };
    assert(exponent_is(exponent, negative, magnitude));
    assert(numeral_parts(s) == Some(
        (v@.subrange(start as int, dot as int), v@.subrange(frac as int, mark as int), exponent),
    ));
    place_digits(&digits, places, mark - frac, negative, magnitude)
}

/// Reads the characters from `from` up to `to` as a decimal numeral, in units
/// of `10^-places`, within 64 bits.
pub fn parse_fixed_chars(v: &Vec<char>, from: usize, to: usize, places: u32) -> (r: Option<u64>)
    requires
        from <= to <= v@.len(),
    ensures
        r == fixed_of_text(v@.subrange(from as int, to as int), places as nat),
{
    match parse_scaled_chars(v, from, to, places) {
        Some(n) => if n <= u64::MAX as u128 {
            Some(n as u64)
        } else {
            None
        },
        None => None,
    }
}

/// Reads a decimal numeral in units of `10^-places`: `"12.43"` with two places
/// is 1243. More places than that are rounded to the nearest unit, a tie to
/// the even one.
pub fn parse_fixed(s: &str, places: u32) -> (r: Option<u64>)
    ensures
        r == fixed_of_text(s@, places as nat),
{
    let v = chars_of(s);
    assert(v@.subrange(0, v@.len() as int) =~= s@);
    parse_fixed_chars(&v, 0, v.len(), places)
}

/// Reads the characters from `from` up to `to` as a plain unsigned integer.
pub fn parse_nat_chars(v: &Vec<char>, from: usize, to: usize) -> (r: Option<u64>)
    requires
        from <= to <= v@.len(),
    ensures
        r == (match nat_of_text(v@.subrange(from as int, to as int)) {
            Some(n) => fit64(n),
            None => None,
        }),
{
    let ghost s = v@.subrange(from as int, to as int);
    let mut start: usize = from;
    if start < to && v[start] == '+' {
        start += 1;
    }
    let ghost t = v@.subrange(start as int, to as int);
    assert(t =~= strip_plus(s));
    if start == to || !digits_in(v, start, to) {
        return None;
    }
    proof {
        assert(joined(0, t) == digits_value(t)) by (nonlinear_arith)
            requires
                joined(0, t) == 0 * pow10(t.len()) + digits_value(t),
        ;
    }
    match accumulate(v, start, to, 0) {
        Some(n) => if n <= u64::MAX as u128 {
            Some(n as u64)
        } else {
            None
        },
        None => None,
    }
}

/// The one-character text of a digit.
pub fn digit_str(d: u8) -> (s: &'static str)
    requires
        d < 10,
    ensures
        s@ == seq![digit_char(d as nat)],
{
    proof {
        reveal_strlit("0");
        reveal_strlit("1");
        reveal_strlit("2");
        reveal_strlit("3");
        reveal_strlit("4");
        reveal_strlit("5");
        reveal_strlit("6");
        reveal_strlit("7");
        reveal_strlit("8");
        reveal_strlit("9");
    }
    let s = if d == 0 {
        "0"
    } else if d == 1 {
        "1"
    } else if d == 2 {
        "2"
    } else if d == 3 {
        "3"
    } else if d == 4 {
        "4"
    } else if d == 5 {
        "5"
    } else if d == 6 {
        "6"
    } else if d == 7 {
        "7"
    } else if d == 8 {
        "8"
    } else {
        "9"
    };
    assert(s@ =~= seq![digit_char(d as nat)]);
    s
}

/// Appends the digits of `n` to `out`.
pub fn push_nat(out: &mut String, n: u64)
    ensures
        final(out)@ == old(out)@ + nat_digits(n as nat),
    decreases n,
{
    if n >= 10 {
        push_nat(out, n / 10);
    }
    out.append(digit_str((n % 10) as u8));
    assert(final(out)@ =~= old(out)@ + nat_digits(n as nat));
}

/// Appends the last `width` digits of `n` to `out`, zeros in front.
pub fn push_padded(out: &mut String, n: u64, width: u32)
    ensures
        final(out)@ == old(out)@ + padded_digits(n as nat, width as nat),
    decreases width,
{
    if width > 0 {
        push_padded(out, n / 10, width - 1);
        out.append(digit_str((n % 10) as u8));
    }
    assert(final(out)@ =~= old(out)@ + padded_digits(n as nat, width as nat));
}

/// Appends `v`, a count of units of `10^-places`, as a decimal numeral with
/// exactly `places` digits after the point.
pub fn push_fixed(out: &mut String, v: u64, places: u32)
    ensures
        final(out)@ == old(out)@ + fixed_text(v as nat, places as nat),
{
    if places == 0 {
        push_nat(out, v);
        return ;
    }
    let ghost p = pow10(places as nat);
    assert(1 * p == p) by (nonlinear_arith);
    proof {
        lemma_pow10_positive(places as nat);
    }
    let unit: u64 = match scale_up(1, places) {
        Some(unit) => if unit <= u64::MAX as u128 {
            unit as u64
        } else {
            0
        },
        None => 0,
    };
    let (whole, rest) = if unit > 0 {
        (v / unit, v % unit)
    } else {
        proof {
            vstd::arithmetic::div_mod::lemma_small_mod(v as nat, p);
            vstd::arithmetic::div_mod::lemma_basic_div(v as int, p as int);
        }
        (0, v)
    };
    proof {
        reveal_strlit(".");
    }
    push_nat(out, whole);
    out.append(".");
    push_padded(out, rest, places);
    assert(final(out)@ =~= old(out)@ + fixed_text(v as nat, places as nat)) by {
        assert("."@ =~= seq!['.']);
    }
}

/// `v`, a count of units of `10^-places`, as a decimal numeral: 1243 with two
/// places is `"12.43"`.
pub fn render_fixed(v: u64, places: u32) -> (text: String)
    ensures
        text@ == fixed_text(v as nat, places as nat),
{
    let mut out = String::new();
    push_fixed(&mut out, v, places);
    assert(out@ =~= fixed_text(v as nat, places as nat));
    out
}

/// Reading the digits of a number gives the number back.
pub proof fn lemma_nat_round_trip(n: nat)
    ensures
        nat_of_text(nat_digits(n)) == Some(n),
{
    lemma_nat_digits(n);
    let s = nat_digits(n);
    assert(is_digit(s[0]));
}

/// Reading, to `places` places, a numeral that was written with `shown`
/// places gives the count it was written from, shifted by the places that
/// were not shown.
pub proof fn lemma_scaled_of_fixed_text(v: nat, shown: nat, places: nat)
    requires
        shown <= places,
    ensures
        scaled_of_text(fixed_text(v, shown), places) == Some(
            v * pow10((places - shown) as nat),
        ),
{
    let text = fixed_text(v, shown);
    if shown == 0 {
        lemma_nat_digits(v);
        assert(is_digit(text[0]));
        assert forall|i: int| 0 <= i < text.len() implies text[i] != '.' by {
            assert(is_digit(text[i]));
        }
        lemma_first_of(text, '.', text.len() as int);
        lemma_exponent_mark(text, text.len() as int);
        assert(text.take(text.len() as int) =~= text);
        assert(text + Seq::<char>::empty() =~= text);
    } else {
        let p = pow10(shown);
        lemma_pow10_positive(shown);
        let hi = v / p;
        let lo = v % p;
        let whole = nat_digits(hi);
        let fraction = padded_digits(lo, shown);
        lemma_nat_digits(hi);
        lemma_padded_digits(lo, shown);
        assert(text =~= whole + seq!['.'] + fraction);
        assert(is_digit(whole[0]));
        assert(text[0] == whole[0]);
        let k = whole.len() as int;
        assert forall|i: int| 0 <= i < k implies text[i] != '.' by {
            assert(text[i] == whole[i]);
            assert(is_digit(whole[i]));
        }
        assert(text[k] == '.');
        lemma_first_of(text, '.', k);
        assert forall|i: int| 0 <= i < text.len() implies text[i] != 'e' && text[i] != 'E' by {
            if i < k {
                assert(text[i] == whole[i]);
            } else if i > k {
                assert(text[i] == fraction[i - k - 1]);
                assert(is_digit(fraction[i - k - 1]));
            }
        }
        lemma_exponent_mark(text, text.len() as int);
        assert(text.take(text.len() as int) =~= text);
        assert(text.take(k) =~= whole);
        assert(text.skip(k + 1) =~= fraction);
        lemma_digits_value_append(whole, fraction);
        vstd::arithmetic::div_mod::lemma_small_mod(lo, p);
        vstd::arithmetic::div_mod::lemma_fundamental_div_mod(v as int, p as int);
        assert(hi * p + lo == v) by (nonlinear_arith)
            requires
                v == p * hi + lo,
        ;
    }
}

/// Reading a numeral that was written with `places` places gives back the
/// count it was written from.
pub proof fn lemma_fixed_round_trip(v: u64, places: nat)
    ensures
        fixed_of_text(fixed_text(v as nat, places), places) == Some(v),
{
    lemma_scaled_of_fixed_text(v as nat, places, places);
    assert(v * pow10(0) == v) by (nonlinear_arith)
        requires
            pow10(0) == 1,
    ;
}

/// `10^18`, and that no power of ten up to it is larger.
pub proof fn lemma_pow10_up_to_18(e: nat)
    requires
        e <= 18,
    ensures
        pow10(18) == 1_000_000_000_000_000_000,
        0 < pow10(e) <= 1_000_000_000_000_000_000,
{
    lemma_pow10_small();
    assert(pow10(4) == 10 * pow10(3));
    assert(pow10(5) == 10 * pow10(4));
    assert(pow10(6) == 10 * pow10(5));
    assert(pow10(7) == 10 * pow10(6));
    assert(pow10(8) == 10 * pow10(7));
    assert(pow10(9) == 10 * pow10(8));
    assert(pow10(10) == 10 * pow10(9));
    assert(pow10(11) == 10 * pow10(10));
    assert(pow10(12) == 10 * pow10(11));
    assert(pow10(13) == 10 * pow10(12));
    assert(pow10(14) == 10 * pow10(13));
    assert(pow10(15) == 10 * pow10(14));
    assert(pow10(16) == 10 * pow10(15));
    assert(pow10(17) == 10 * pow10(16));
    assert(pow10(18) == 10 * pow10(17));
    lemma_pow10_add(e, (18 - e) as nat);
    lemma_pow10_positive(e);
    lemma_pow10_positive((18 - e) as nat);
    assert(pow10(e) <= pow10(e) * pow10((18 - e) as nat)) by (nonlinear_arith)
        requires
            pow10((18 - e) as nat) >= 1,
    ;
}

/// A numeral without a point is worth its digits, shifted by `places`.
pub proof fn lemma_fixed_of_digits(t: Seq<char>, places: nat)
    requires
        all_digits(t),
        t.len() > 0,
    ensures
        fixed_of_text(t, places) == fit64(digits_value(t) * pow10(places)),
{
    assert(is_digit(t[0]));
    assert forall|i: int| 0 <= i < t.len() implies t[i] != '.' by {
        assert(is_digit(t[i]));
    }
    lemma_first_of(t, '.', t.len() as int);
    lemma_exponent_mark(t, t.len() as int);
    assert(t.take(t.len() as int) =~= t);
    assert(t + Seq::<char>::empty() =~= t);
}


/// The first few powers of ten.
pub proof fn lemma_pow10_small()
    ensures
        pow10(0) == 1,
        pow10(1) == 10,
        pow10(2) == 100,
        pow10(3) == 1000,
{
    assert(pow10(0) == 1);
    assert(pow10(1) == 10 * pow10(0));
    assert(pow10(2) == 10 * pow10(1));
    assert(pow10(3) == 10 * pow10(2));
}

/// The first `c` of `a`, `c`, `b` written one after the other stands right
/// after `a`, where `a` itself holds none.
pub proof fn lemma_first_of_join(a: Seq<char>, c: char, b: Seq<char>)
    requires
        forall|i: int| 0 <= i < a.len() ==> a[i] != c,
    ensures
        first_of(a + seq![c] + b, c) == a.len(),
        (a + seq![c] + b).take(a.len() as int) == a,
        (a + seq![c] + b).skip(a.len() as int + 1) == b,
{
    let t = a + seq![c] + b;
    assert forall|i: int| 0 <= i < a.len() implies t[i] != c by {
        assert(t[i] == a[i]);
    }
    assert(t[a.len() as int] == c);
    lemma_first_of(t, c, a.len() as int);
    assert(t.take(a.len() as int) =~= a);
    assert(t.skip(a.len() as int + 1) =~= b);
}

/// A run of digits holds no character that is not a digit.
pub proof fn lemma_digits_lack(t: Seq<char>, c: char)
    requires
        all_digits(t),
        !is_digit(c),
    ensures
        forall|i: int| 0 <= i < t.len() ==> t[i] != c,
        first_of(t, c) == t.len(),
{
    assert forall|i: int| 0 <= i < t.len() implies t[i] != c by {
        assert(is_digit(t[i]));
    }
    lemma_first_of(t, c, t.len() as int);
}

} // verus!

//! What it means for a text to be the base-58 encoding of a byte string.
//!
//! The encoding reads the bytes as one big-endian number and writes that
//! number in base 58; every leading zero byte is kept as one leading `1`,
//! the digit zero. A text and a byte string therefore belong together when
//! they agree on two things: the number of leading zeros and the value.

use vstd::prelude::*;

verus! {

/// The value of a base-58 digit character, if it is one.
///
/// The alphabet is `1`..`9`, `A`..`Z` without `I` and `O`, and `a`..`z`
/// without `l`, in this order.
pub open spec fn digit_of_char(c: char) -> Option<int> {
    if '1' <= c <= '9' {
        Some(c as int - '1' as int)
    } else if 'A' <= c <= 'H' {
        Some(9 + (c as int - 'A' as int))
    } else if 'J' <= c <= 'N' {
        Some(17 + (c as int - 'J' as int))
    } else if 'P' <= c <= 'Z' {
        Some(22 + (c as int - 'P' as int))
    } else if 'a' <= c <= 'k' {
        Some(33 + (c as int - 'a' as int))
    } else if 'm' <= c <= 'z' {
        Some(44 + (c as int - 'm' as int))
    } else {
        None
    }
}

/// Whether every character of `text` is a base-58 digit.
pub open spec fn in_alphabet(text: Seq<char>) -> bool {
    forall|i: int| 0 <= i < text.len() ==> (#[trigger] digit_of_char(text[i])) is Some
}

/// The digits that the characters of `text` stand for.
pub open spec fn digits_of_text(text: Seq<char>) -> Seq<int> {
    Seq::new(text.len(), |i: int| digit_of_char(text[i]).unwrap())
}

/// The bytes of `bytes` as digits in base 256.
pub open spec fn digits_of_bytes(bytes: Seq<u8>) -> Seq<int> {
    Seq::new(bytes.len(), |i: int| bytes[i] as int)
}

/// The number that `digits` spell in `base`, most significant digit first.
pub open spec fn value_of(digits: Seq<int>, base: int) -> int
    decreases digits.len(),
{
    if digits.len() == 0 {
        0
    } else {
        value_of(digits.drop_last(), base) * base + digits.last()
    }
}

/// How many zeros `digits` starts with.
pub open spec fn leading_zeros(digits: Seq<int>) -> nat
    decreases digits.len(),
{
    if digits.len() == 0 || digits[0] != 0 {
        0
    } else {
        1 + leading_zeros(digits.drop_first())
    }
}

/// Whether `text` is the base-58 encoding of `bytes`.
pub open spec fn is_base58_of(text: Seq<char>, bytes: Seq<u8>) -> bool {
    &&& in_alphabet(text)
    &&& leading_zeros(digits_of_text(text)) == leading_zeros(digits_of_bytes(bytes))
    &&& value_of(digits_of_text(text), 58) == value_of(digits_of_bytes(bytes), 256)
}

/// Whether every digit of `digits` lies in `0..base`.
pub open spec fn digits_below(digits: Seq<int>, base: int) -> bool {
    forall|i: int| 0 <= i < digits.len() ==> 0 <= #[trigger] digits[i] < base
}

/// Two digit strings of one length that spell the same number are the same
/// string.
pub proof fn lemma_value_determines_digits(a: Seq<int>, b: Seq<int>, base: int)
    requires
        base > 0,
        a.len() == b.len(),
        digits_below(a, base),
        digits_below(b, base),
        value_of(a, base) == value_of(b, base),
    ensures
        a == b,
    decreases a.len(),
{
    if a.len() > 0 {
        let va = value_of(a.drop_last(), base);
        let vb = value_of(b.drop_last(), base);
        assert(0 <= a.last() < base);
        assert(0 <= b.last() < base);
        assert(va == vb && a.last() == b.last()) by (nonlinear_arith)
            requires
                base > 0,
                0 <= a.last() < base,
                0 <= b.last() < base,
                va * base + a.last() == vb * base + b.last(),
        ;
        assert(digits_below(a.drop_last(), base));
        assert(digits_below(b.drop_last(), base));
        lemma_value_determines_digits(a.drop_last(), b.drop_last(), base);
        assert(a =~= a.drop_last().push(a.last()));
        assert(b =~= b.drop_last().push(b.last()));
    } else {
        assert(a =~= b);
    }
}

/// `base` to the power `n`.
pub open spec fn power(base: int, n: nat) -> int
    decreases n,
{
    if n == 0 {
        1
    } else {
        base * power(base, (n - 1) as nat)
    }
}

/// A power of a positive number is positive.
pub proof fn lemma_power_positive(base: int, n: nat)
    requires
        base > 0,
    ensures
        power(base, n) > 0,
    decreases n,
{
    if n > 0 {
        lemma_power_positive(base, (n - 1) as nat);
        let p = power(base, (n - 1) as nat);
        assert(base * p > 0) by (nonlinear_arith)
            requires
                base > 0,
                p > 0,
        ;
    }
}

/// A higher power of a number that is at least one is no smaller.
pub proof fn lemma_power_grows(base: int, m: nat, n: nat)
    requires
        base >= 1,
        m <= n,
    ensures
        power(base, m) <= power(base, n),
    decreases n,
{
    if m < n {
        lemma_power_grows(base, m, (n - 1) as nat);
        lemma_power_positive(base, (n - 1) as nat);
        let p = power(base, (n - 1) as nat);
        assert(p <= base * p) by (nonlinear_arith)
            requires
                base >= 1,
                p > 0,
        ;
    }
}

/// The same power of a larger number is no smaller.
pub proof fn lemma_power_of_larger_base(a: int, b: int, n: nat)
    requires
        0 < a <= b,
    ensures
        power(a, n) <= power(b, n),
    decreases n,
{
    if n > 0 {
        lemma_power_of_larger_base(a, b, (n - 1) as nat);
        lemma_power_positive(a, (n - 1) as nat);
        let pa = power(a, (n - 1) as nat);
        let pb = power(b, (n - 1) as nat);
        assert(a * pa <= b * pb) by (nonlinear_arith)
            requires
                0 < a <= b,
                0 < pa <= pb,
        ;
    }
}

/// Powers of one number multiply by adding their exponents.
pub proof fn lemma_power_adds(base: int, m: nat, n: nat)
    ensures
        power(base, m + n) == power(base, m) * power(base, n),
    decreases m,
{
    if m == 0 {
        assert(power(base, m) == 1);
        assert(m + n == n);
    } else {
        lemma_power_adds(base, (m - 1) as nat, n);
        let pm = power(base, (m - 1) as nat);
        let pn = power(base, n);
        assert(((m + n) - 1) as nat == (m - 1) as nat + n);
        assert(power(base, m + n) == base * power(base, (m - 1) as nat + n));
        assert(base * (pm * pn) == (base * pm) * pn) by (nonlinear_arith);
    }
}

/// A number of `n` digits is below the `n`-th power of the base, and at
/// least its first digit times the power before that.
pub proof fn lemma_value_bounds(digits: Seq<int>, base: int)
    requires
        base >= 2,
        digits_below(digits, base),
    ensures
        0 <= value_of(digits, base) < power(base, digits.len()),
        digits.len() > 0 ==> value_of(digits, base) >= digits[0] * power(
            base,
            (digits.len() - 1) as nat,
        ),
    decreases digits.len(),
{
    if digits.len() > 0 {
        let prefix = digits.drop_last();
        assert(digits_below(prefix, base));
        lemma_value_bounds(prefix, base);
        let v = value_of(prefix, base);
        let p = power(base, prefix.len());
        let last = digits.last();
        assert(0 <= last < base);
        assert(power(base, digits.len()) == base * p);
        assert(0 <= v * base + last < base * p) by (nonlinear_arith)
            requires
                0 <= v < p,
                0 <= last < base,
                base >= 2,
        ;
        if prefix.len() > 0 {
            let q = power(base, (prefix.len() - 1) as nat);
            let first = digits[0];
            assert(prefix[0] == first);
            assert(p == base * q);
            assert(v * base + last >= first * p) by (nonlinear_arith)
                requires
                    v >= first * q,
                    p == base * q,
                    last >= 0,
                    base >= 2,
            ;
        } else {
            assert(v == 0);
            assert(digits[0] == last);
            assert(power(base, 0) == 1);
        }
    }
}

/// What the count of leading zeros says of the digits: it is at most
/// their number, the digits before it are zero, and the digit at it, if
/// there is one, is not.
pub proof fn lemma_leading_zeros(digits: Seq<int>)
    ensures
        leading_zeros(digits) <= digits.len(),
        forall|i: int| 0 <= i < leading_zeros(digits) ==> #[trigger] digits[i] == 0,
        leading_zeros(digits) < digits.len() ==> digits[leading_zeros(digits) as int] != 0,
    decreases digits.len(),
{
    if digits.len() > 0 && digits[0] == 0 {
        let rest = digits.drop_first();
        lemma_leading_zeros(rest);
        assert forall|i: int| 0 <= i < leading_zeros(digits) implies #[trigger] digits[i] == 0 by {
            if i > 0 {
                assert(digits[i] == rest[i - 1]);
            }
        }
        if leading_zeros(digits) < digits.len() {
            assert(digits[leading_zeros(digits) as int] == rest[leading_zeros(rest) as int]);
        }
    }
}

/// Zeros in front do not change the number.
pub proof fn lemma_zeros_in_front(digits: Seq<int>, k: nat, base: int)
    requires
        k <= digits.len(),
        forall|i: int| 0 <= i < k ==> #[trigger] digits[i] == 0,
    ensures
        value_of(digits, base) == value_of(digits.skip(k as int), base),
    decreases digits.len(),
{
    if k == 0 {
        assert(digits.skip(0) =~= digits);
    } else if k == digits.len() {
        let prefix = digits.drop_last();
        assert forall|i: int| 0 <= i < k - 1 implies #[trigger] prefix[i] == 0 by {
            assert(prefix[i] == digits[i]);
        }
        lemma_zeros_in_front(prefix, (k - 1) as nat, base);
        assert(prefix.skip(k - 1) =~= Seq::<int>::empty());
        assert(digits.skip(k as int) =~= Seq::<int>::empty());
        assert(value_of(prefix, base) == 0);
        assert(digits.last() == digits[k - 1]);
    } else {
        let prefix = digits.drop_last();
        assert forall|i: int| 0 <= i < k implies #[trigger] prefix[i] == 0 by {
            assert(prefix[i] == digits[i]);
        }
        lemma_zeros_in_front(prefix, k, base);
        assert(digits.skip(k as int).drop_last() =~= prefix.skip(k as int));
        assert(digits.skip(k as int).last() == digits.last());
    }
}

/// What is left of a digit string after its first `k` digits is a digit
/// string.
pub proof fn lemma_rest_digits_below(digits: Seq<int>, k: nat, base: int)
    requires
        k <= digits.len(),
        digits_below(digits, base),
    ensures
        digits_below(digits.skip(k as int), base),
{
    let rest = digits.skip(k as int);
    assert forall|i: int| 0 <= i < rest.len() implies 0 <= #[trigger] rest[i] < base by {
        assert(rest[i] == digits[i + k]);
    }
}

/// A number with fewer digits is smaller than one that starts with a
/// digit other than zero.
pub proof fn lemma_fewer_digits_smaller(a: Seq<int>, b: Seq<int>, base: int)
    requires
        base >= 2,
        digits_below(a, base),
        digits_below(b, base),
        a.len() < b.len(),
        b[0] != 0,
    ensures
        value_of(a, base) < value_of(b, base),
{
    lemma_value_bounds(a, base);
    lemma_value_bounds(b, base);
    lemma_power_grows(base, a.len(), (b.len() - 1) as nat);
    lemma_power_positive(base, (b.len() - 1) as nat);
    let p = power(base, (b.len() - 1) as nat);
    let first = b[0];
    assert(first >= 1);
    assert(first * p >= p) by (nonlinear_arith)
        requires
            first >= 1,
            p > 0,
    ;
}

/// Two digit strings with the same number of leading zeros that spell the
/// same number are the same string.
pub proof fn lemma_zeros_and_value_determine_digits(a: Seq<int>, b: Seq<int>, base: int)
    requires
        base >= 2,
        digits_below(a, base),
        digits_below(b, base),
        leading_zeros(a) == leading_zeros(b),
        value_of(a, base) == value_of(b, base),
    ensures
        a == b,
{
    let z = leading_zeros(a);
    lemma_leading_zeros(a);
    lemma_leading_zeros(b);
    lemma_zeros_in_front(a, z, base);
    lemma_zeros_in_front(b, z, base);
    let ra = a.skip(z as int);
    let rb = b.skip(z as int);
    lemma_rest_digits_below(a, z, base);
    lemma_rest_digits_below(b, z, base);
    if ra.len() < rb.len() {
        assert(rb[0] == b[z as int]);
        lemma_fewer_digits_smaller(ra, rb, base);
    } else if rb.len() < ra.len() {
        assert(ra[0] == a[z as int]);
        lemma_fewer_digits_smaller(rb, ra, base);
    }
    lemma_value_determines_digits(ra, rb, base);
    assert forall|i: int| 0 <= i < a.len() implies a[i] == b[i] by {
        if i >= z {
            assert(a[i] == ra[i - z]);
            assert(b[i] == rb[i - z]);
        }
    }
    assert(a =~= b);
}

/// The digits of a text in the alphabet are base-58 digits.
pub proof fn lemma_text_digits_below(text: Seq<char>)
    requires
        in_alphabet(text),
    ensures
        digits_below(digits_of_text(text), 58),
{
    assert forall|i: int| 0 <= i < text.len() implies 0 <= #[trigger] digits_of_text(text)[i]
        < 58 by {
        assert(digit_of_char(text[i]) is Some);
    }
}

/// A text is determined by the bytes it encodes: no byte string has two
/// base-58 encodings.
pub proof fn lemma_bytes_determine_text(bytes: Seq<u8>, a: Seq<char>, b: Seq<char>)
    requires
        is_base58_of(a, bytes),
        is_base58_of(b, bytes),
    ensures
        a == b,
{
    let da = digits_of_text(a);
    let db = digits_of_text(b);
    lemma_text_digits_below(a);
    lemma_text_digits_below(b);
    lemma_zeros_and_value_determine_digits(da, db, 58);
    assert forall|i: int| 0 <= i < a.len() implies a[i] == b[i] by {
        assert(da[i] == db[i]);
        assert(digit_of_char(a[i]) is Some);
        assert(digit_of_char(b[i]) is Some);
    }
    assert(a =~= b);
}

/// 44 base-58 digits reach further than 32 bytes.
pub proof fn lemma_forty_four_digits_suffice()
    ensures
        power(58, 44) >= power(256, 32),
{
    let a = power(58, 11);
    let b = power(256, 8);
    assert(a == 24986644000165537792) by {
        reveal_with_fuel(power, 12);
    }
    assert(b == 18446744073709551616) by {
        reveal_with_fuel(power, 9);
    }
    lemma_power_adds(58, 11, 11);
    lemma_power_adds(58, 22, 22);
    lemma_power_adds(256, 8, 8);
    lemma_power_adds(256, 16, 16);
    assert((a * a) * (a * a) >= (b * b) * (b * b)) by (nonlinear_arith)
        requires
            a >= b,
            b > 0,
    ;
}

/// For up to 32 bytes, twelve more base-58 digits than there are bytes
/// reach further than the bytes.
pub proof fn lemma_twelve_more_digits_suffice(n: nat)
    requires
        n <= 32,
    ensures
        power(58, n + 12) >= power(256, n),
{
    let rest = (32 - n) as nat;
    lemma_forty_four_digits_suffice();
    lemma_power_adds(58, n + 12, rest);
    lemma_power_adds(256, n, rest);
    lemma_power_of_larger_base(58, 256, rest);
    lemma_power_positive(58, rest);
    lemma_power_positive(256, n);
    let digits = power(58, n + 12);
    let bytes = power(256, n);
    let small = power(58, rest);
    let large = power(256, rest);
    assert(n + 12 + rest == 44 && n + rest == 32);
    assert(digits >= bytes) by (nonlinear_arith)
        requires
            digits * small >= bytes * large,
            0 < small <= large,
            bytes > 0,
    ;
}

/// The base-58 text of 32 bytes has at least 32 and at most 44 characters.
pub proof fn lemma_text_length_of_32_bytes(text: Seq<char>, bytes: Seq<u8>)
    requires
        bytes.len() == 32,
        is_base58_of(text, bytes),
    ensures
        32 <= text.len() <= 44,
{
    let dt = digits_of_text(text);
    let db = digits_of_bytes(bytes);
    let z = leading_zeros(dt);
    lemma_text_digits_below(text);
    lemma_leading_zeros(dt);
    lemma_leading_zeros(db);
    lemma_zeros_in_front(dt, z, 58);
    lemma_zeros_in_front(db, z, 256);
    let rt = dt.skip(z as int);
    let rb = db.skip(z as int);
    lemma_rest_digits_below(dt, z, 58);
    lemma_rest_digits_below(db, z, 256);
    lemma_value_bounds(rt, 58);
    lemma_value_bounds(rb, 256);
    let v = value_of(rt, 58);
    assert(v == value_of(rb, 256));
    let m = rt.len();
    let n = rb.len();
    assert(m + z == text.len() && n + z == 32);
    if m > 0 {
        let first = rt[0];
        let p = power(58, (m - 1) as nat);
        assert(first == dt[z as int]);
        lemma_power_positive(58, (m - 1) as nat);
        assert(first * p >= p) by (nonlinear_arith)
            requires
                first >= 1,
                p > 0,
        ;
    }
    if n > 0 {
        let first = rb[0];
        let p = power(256, (n - 1) as nat);
        assert(first == db[z as int]);
        lemma_power_positive(256, (n - 1) as nat);
        assert(first * p >= p) by (nonlinear_arith)
            requires
                first >= 1,
                p > 0,
        ;
        if m < n {
            lemma_power_grows(58, m, (n - 1) as nat);
            lemma_power_of_larger_base(58, 256, (n - 1) as nat);
        }
    }
    if m > n + 12 {
        lemma_power_grows(58, n + 12, (m - 1) as nat);
        lemma_twelve_more_digits_suffice(n);
    }
}

/// A byte string of a given length is determined by its base-58 text: no
/// text encodes two byte strings of one length.
pub proof fn lemma_text_determines_bytes(text: Seq<char>, a: Seq<u8>, b: Seq<u8>)
    requires
        a.len() == b.len(),
        is_base58_of(text, a),
        is_base58_of(text, b),
    ensures
        a == b,
{
    let da = digits_of_bytes(a);
    let db = digits_of_bytes(b);
    lemma_value_determines_digits(da, db, 256);
    assert forall|i: int| 0 <= i < a.len() implies a[i] == b[i] by {
        assert(da[i] == db[i]);
    }
    assert(a =~= b);
}

} // verus!

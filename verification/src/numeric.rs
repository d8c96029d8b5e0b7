//! Decimal numerals.
//!
//! The remote type system coerces freely between integers and strings, so
//! the codec needs a verified decimal formatter and parser.  This module
//! defines the mathematical decimal representation of an integer, exec
//! functions proved against it, and the round-trip lemmas the codec laws
//! rest on.

use vstd::prelude::*;

verus! {

/// Is `c` a decimal digit?
pub open spec fn is_digit(c: char) -> bool {
    '0' <= c && c <= '9'
}

/// The numeric value of a digit character.
pub open spec fn digit_value(c: char) -> int {
    c as int - 48
}

/// The digit character for a value in `0..10`.
pub open spec fn digit_char(d: int) -> char {
    if d == 0 {
        '0'
    } else if d == 1 {
        '1'
    } else if d == 2 {
        '2'
    } else if d == 3 {
        '3'
    } else if d == 4 {
        '4'
    } else if d == 5 {
        '5'
    } else if d == 6 {
        '6'
    } else if d == 7 {
        '7'
    } else if d == 8 {
        '8'
    } else {
        '9'
    }
}

/// The decimal representation of a natural number, most significant digit
/// first, with no leading zero except for the single digit of zero itself.
pub open spec fn dec_rep(n: nat) -> Seq<char>
    decreases n,
{
    if n < 10 {
        seq![digit_char(n as int)]
    } else {
        dec_rep(n / 10) + seq![digit_char((n % 10) as int)]
    }
}

/// The decimal representation of an integer: a minus sign for negative
/// values, then the representation of the magnitude.
pub open spec fn int_str(n: int) -> Seq<char> {
    if n < 0 {
        seq!['-'] + dec_rep((-n) as nat)
    } else {
        dec_rep(n as nat)
    }
}

/// Every character of `s` is a decimal digit.
pub open spec fn all_digits(s: Seq<char>) -> bool {
    forall|i: int| 0 <= i < s.len() ==> is_digit(#[trigger] s[i])
}

/// The value of a digit string, most significant digit first.
pub open spec fn digits_val(s: Seq<char>) -> int
    decreases s.len(),
{
    if s.len() == 0 {
        0
    } else {
        digits_val(s.drop_last()) * 10 + digit_value(s.last())
    }
}

/// Is `s` a well-formed integer numeral: an optional minus sign followed by
/// at least one digit?
pub open spec fn is_int_numeral(s: Seq<char>) -> bool {
    if s.len() == 0 {
        false
    } else if s[0] == '-' {
        s.len() > 1 && all_digits(s.skip(1))
    } else {
        all_digits(s)
    }
}

/// The value of a well-formed integer numeral.
pub open spec fn int_numeral_val(s: Seq<char>) -> int {
    if s[0] == '-' {
        -digits_val(s.skip(1))
    } else {
        digits_val(s)
    }
}

/// Ten to the power `k`.
pub open spec fn pow10(k: nat) -> int
    decreases k,
{
    if k == 0 {
        1
    } else {
        10 * pow10((k - 1) as nat)
    }
}

pub proof fn lemma_pow10_pos(k: nat)
    ensures
        pow10(k) >= 1,
    decreases k,
{
    if k > 0 {
        lemma_pow10_pos((k - 1) as nat);
    }
}

pub proof fn lemma_pow10_mono(j: nat, k: nat)
    requires
        j <= k,
    ensures
        pow10(j) <= pow10(k),
    decreases k,
{
    if j < k {
        lemma_pow10_mono(j, (k - 1) as nat);
        lemma_pow10_pos((k - 1) as nat);
    }
}

pub proof fn lemma_pow10_19()
    ensures
        pow10(19) == 10_000_000_000_000_000_000,
{
    reveal_with_fuel(pow10, 21);
}

/// The representation of a natural number consists of digits, is nonempty,
/// and starts with '0' only for zero itself.
pub proof fn lemma_dec_rep_wf(n: nat)
    ensures
        dec_rep(n).len() >= 1,
        all_digits(dec_rep(n)),
        n > 0 ==> dec_rep(n)[0] != '0',
    decreases n,
{
    if n < 10 {
        assert(dec_rep(n) =~= seq![digit_char(n as int)]);
    } else {
        lemma_dec_rep_wf(n / 10);
        let pre = dec_rep(n / 10);
        let whole = pre + seq![digit_char((n % 10) as int)];
        assert(dec_rep(n) =~= whole);
        assert(forall|i: int|
            0 <= i < whole.len() ==> is_digit(#[trigger] whole[i]) == if i < pre.len() {
                is_digit(pre[i])
            } else {
                is_digit(digit_char((n % 10) as int))
            });
        assert(whole[0] == pre[0]);
    }
}

/// Formatting then evaluating a natural number gives the number back.
pub proof fn lemma_dec_rep_val(n: nat)
    ensures
        digits_val(dec_rep(n)) == n,
    decreases n,
{
    if n < 10 {
        assert(dec_rep(n) =~= seq![digit_char(n as int)]);
        assert(dec_rep(n).drop_last() =~= Seq::<char>::empty());
        assert(digit_value(digit_char(n as int)) == n);
        assert(digits_val(Seq::<char>::empty()) == 0);
        assert(digits_val(dec_rep(n)) == digits_val(dec_rep(n).drop_last()) * 10 + digit_value(
            dec_rep(n).last(),
        ));
        assert(dec_rep(n).last() == digit_char(n as int));
    } else {
        lemma_dec_rep_val(n / 10);
        let whole = dec_rep(n / 10) + seq![digit_char((n % 10) as int)];
        assert(dec_rep(n) =~= whole);
        assert(whole.drop_last() =~= dec_rep(n / 10));
        assert(whole.last() == digit_char((n % 10) as int));
        assert(digit_value(digit_char((n % 10) as int)) == n % 10);
        assert(digits_val(whole) == digits_val(whole.drop_last()) * 10 + digit_value(whole.last()));
        assert(digits_val(whole) == (n / 10) * 10 + (n % 10));
        assert(n == (n / 10) * 10 + n % 10) by {
            vstd::arithmetic::div_mod::lemma_fundamental_div_mod(n as int, 10);
        }
    }
}

/// A digit string's value is bounded by ten to its length.
pub proof fn lemma_digits_val_bounds(s: Seq<char>)
    requires
        all_digits(s),
    ensures
        0 <= digits_val(s) < pow10(s.len()),
    decreases s.len(),
{
    if s.len() > 0 {
        assert(all_digits(s.drop_last())) by {
            assert(forall|i: int|
                0 <= i < s.len() - 1 ==> #[trigger] s.drop_last()[i] == s[i]);
        }
        lemma_digits_val_bounds(s.drop_last());
        assert(is_digit(s.last()));
    }
}

/// A digit string with a nonzero leading digit has a value of at least ten
/// to one less than its length.
pub proof fn lemma_digits_val_lower(s: Seq<char>)
    requires
        all_digits(s),
        s.len() > 0,
        s[0] != '0',
    ensures
        digits_val(s) >= pow10((s.len() - 1) as nat),
    decreases s.len(),
{
    if s.len() == 1 {
        assert(is_digit(s[0]));
        assert(s.drop_last() =~= Seq::<char>::empty());
        assert(s.last() == s[0]);
        assert(digit_value(s[0]) >= 1);
        assert(pow10(0) == 1);
    } else {
        assert(all_digits(s.drop_last())) by {
            assert(forall|i: int|
                0 <= i < s.len() - 1 ==> #[trigger] s.drop_last()[i] == s[i]);
        }
        assert(s.drop_last()[0] == s[0]);
        lemma_digits_val_lower(s.drop_last());
        assert(is_digit(s.last()));
        assert(digit_value(s.last()) >= 0);
        let l = (s.len() - 1) as nat;
        assert(s.drop_last().len() == l);
        assert(digits_val(s.drop_last()) >= pow10((l - 1) as nat));
        assert(pow10(l) == 10 * pow10((l - 1) as nat));
        assert(digits_val(s.drop_last()) * 10 >= pow10((l - 1) as nat) * 10);
        assert(digits_val(s) == digits_val(s.drop_last()) * 10 + digit_value(s.last()));
        assert(digits_val(s) >= pow10(l));
    }
}

/// Leading zeros do not change a digit string's value.
pub proof fn lemma_digits_val_skip_zeros(s: Seq<char>, k: nat)
    requires
        k <= s.len(),
        forall|i: int| 0 <= i < k ==> #[trigger] s[i] == '0',
    ensures
        digits_val(s) == digits_val(s.skip(k as int)),
    decreases s.len(),
{
    if k > 0 {
        lemma_zero_head(s);
        assert(s.skip(1).skip(k as int - 1) =~= s.skip(k as int));
        assert(forall|i: int| 0 <= i < k - 1 ==> #[trigger] s.skip(1)[i] == '0');
        lemma_digits_val_skip_zeros(s.skip(1), (k - 1) as nat);
    } else {
        assert(s.skip(0) =~= s);
    }
}

/// Dropping a single leading zero does not change the value.
proof fn lemma_zero_head(s: Seq<char>)
    requires
        s.len() > 0,
        s[0] == '0',
    ensures
        digits_val(s) == digits_val(s.skip(1)),
    decreases s.len(),
{
    if s.len() == 1 {
        assert(s.drop_last() =~= Seq::<char>::empty());
        assert(s.skip(1) =~= Seq::<char>::empty());
    } else {
        assert(s.drop_last()[0] == s[0]);
        lemma_zero_head(s.drop_last());
        assert(s.drop_last().skip(1) =~= s.skip(1).drop_last());
        assert(s.skip(1).last() == s.last());
    }
}

/// Formatting an integer yields a well-formed numeral that evaluates back
/// to the same integer.
pub proof fn lemma_int_str_roundtrip(n: int)
    ensures
        is_int_numeral(int_str(n)),
        int_numeral_val(int_str(n)) == n,
{
    if n < 0 {
        let mag = (-n) as nat;
        lemma_dec_rep_wf(mag);
        lemma_dec_rep_val(mag);
        let s = seq!['-'] + dec_rep(mag);
        assert(int_str(n) =~= s);
        assert(s[0] == '-');
        assert(s.skip(1) =~= dec_rep(mag));
    } else {
        lemma_dec_rep_wf(n as nat);
        lemma_dec_rep_val(n as nat);
        assert(int_str(n) =~= dec_rep(n as nat));
        assert(int_str(n)[0] != '-') by {
            assert(is_digit(dec_rep(n as nat)[0]));
        }
    }
}

/// One digit as a static string.
fn digit_str(d: u64) -> (s: &'static str)
    requires
        d < 10,
    ensures
        s@ == seq![digit_char(d as int)],
{
    let s: &'static str = if d == 0 {
        "0"
    } else if d == 1 {
        "1"
    } else if d == 2 {
        "2"
    } else if d == 3 {
        "3"
    } else if d == 4 {
        "4"
    } else if d == 5 {
        "5"
    } else if d == 6 {
        "6"
    } else if d == 7 {
        "7"
    } else if d == 8 {
        "8"
    } else {
        "9"
    };
    proof {
        reveal_strlit("0");
        reveal_strlit("1");
        reveal_strlit("2");
        reveal_strlit("3");
        reveal_strlit("4");
        reveal_strlit("5");
        reveal_strlit("6");
        reveal_strlit("7");
        reveal_strlit("8");
        reveal_strlit("9");
        assert(s@ =~= seq![digit_char(d as int)]);
    }
    s
}

/// Format a natural number in decimal.
pub fn format_u64(m: u64) -> (s: String)
    ensures
        s@ == dec_rep(m as nat),
    decreases m,
{
    if m < 10 {
        digit_str(m).to_owned()
    } else {
        assert(m / 10 < m);
        let mut s = format_u64(m / 10);
        s.append(digit_str(m % 10));
        proof {
            assert((m / 10) as nat == (m as nat) / 10);
            assert((m % 10) as int == (m as nat) % 10);
            assert(s@ =~= dec_rep(m as nat));
        }
        s
    }
}

/// Format a signed integer in decimal.
pub fn format_i64(n: i64) -> (s: String)
    ensures
        s@ == int_str(n as int),
{
    if n >= 0 {
        let s = format_u64(n as u64);
        proof {
            assert((n as u64) as nat == (n as int) as nat);
        }
        s
    } else {
        let mag: u64 = if n == i64::MIN {
            9223372036854775808u64
        } else {
            (-n) as u64
        };
        assert(mag as int == -(n as int));
        let mut s = String::from_str("-");
        s.append(format_u64(mag).as_str());
        proof {
            reveal_strlit("-");
            assert(s@ =~= seq!['-'] + dec_rep(mag as nat));
        }
        s
    }
}

/// What parsing a string as an `i64` yields: the numeral's value when the
/// string is a well-formed numeral whose value is representable, and a
/// coercion failure otherwise.
pub open spec fn spec_parse_i64(s: Seq<char>) -> Option<i64> {
    if is_int_numeral(s) && i64::MIN <= int_numeral_val(s) <= i64::MAX {
        Some(int_numeral_val(s) as i64)
    } else {
        None
    }
}

/// Parse a decimal numeral as an `i64`.
pub fn parse_i64(s: &str) -> (r: Option<i64>)
    ensures
        r == spec_parse_i64(s@),
{
    let n = s.unicode_len();
    if n == 0 {
        return None;
    }
    let neg = s.get_char(0) == '-';
    let start: usize = if neg { 1 } else { 0 };
    if start == n {
        // the string is just a minus sign
        assert(!is_int_numeral(s@));
        return None;
    }
    // every character after the optional sign must be a digit
    let mut i = start;
    while i < n
        invariant
            start <= i <= n,
            n == s@.len(),
            start == 1 ==> s@[0] == '-',
            neg == (s@[0] == '-'),
            start == if neg { 1int } else { 0int },
            forall|j: int| start <= j < i ==> is_digit(#[trigger] s@[j]),
        decreases n - i,
    {
        let c = s.get_char(i);
        if c < '0' || c > '9' {
            assert(!is_digit(s@[i as int]));
            proof {
                if neg {
                    assert(s@.skip(1)[i - 1] == s@[i as int]);
                } else {
                }
            }
            assert(!is_int_numeral(s@));
            return None;
        }
        i = i + 1;
    }
    proof {
        if neg {
            assert(forall|j: int|
                0 <= j < s@.skip(1).len() ==> #[trigger] s@.skip(1)[j] == s@[j + 1]);
            assert(all_digits(s@.skip(1)));
        }
        assert(is_int_numeral(s@));
    }
    // skip leading zeros of the magnitude
    let ghost digits = s@.skip(start as int);
    let mut z = start;
    while z < n && s.get_char(z) == '0'
        invariant
            start <= z <= n,
            n == s@.len(),
            forall|j: int| start <= j < n ==> is_digit(#[trigger] s@[j]),
            forall|j: int| start <= j < z ==> #[trigger] s@[j] == '0',
        decreases n - z,
    {
        z = z + 1;
    }
    proof {
        assert(digits =~= s@.subrange(start as int, n as int));
        assert(forall|j: int| 0 <= j < digits.len() ==> #[trigger] digits[j] == s@[j + start]);
        assert(all_digits(digits));
        assert(forall|j: int| 0 <= j < z - start ==> #[trigger] digits[j] == '0');
        lemma_digits_val_skip_zeros(digits, (z - start) as nat);
        assert(digits.skip(z - start) =~= s@.subrange(z as int, n as int));
    }
    let ghost core = s@.subrange(z as int, n as int);
    // digits_val(digits) == digits_val(core), and core has no leading zero
    if n - z > 19 {
        // at least twenty significant digits: out of range either way
        proof {
            assert(core[0] == s@[z as int]);
            assert(core[0] != '0');
            assert(all_digits(core)) by {
                assert(forall|j: int|
                    0 <= j < core.len() ==> #[trigger] core[j] == s@[j + z]);
            }
            lemma_digits_val_lower(core);
            lemma_pow10_mono(19, (core.len() - 1) as nat);
            lemma_pow10_19();
            assert(digits_val(core) >= 10_000_000_000_000_000_000);
            assert(digits_val(digits) == digits_val(core));
            if neg {
                assert(digits =~= s@.skip(1));
                assert(int_numeral_val(s@) == -digits_val(digits));
            } else {
                assert(digits =~= s@);
                assert(int_numeral_val(s@) == digits_val(digits));
            }
        }
        return None;
    }
    proof {
        assert(all_digits(core)) by {
            assert(forall|j: int| 0 <= j < core.len() ==> #[trigger] core[j] == s@[j + z]);
        }
    }
    // accumulate the magnitude; at most nineteen digits, so this fits in u64
    let mut acc: u64 = 0;
    let mut k = z;
    while k < n
        invariant
            start <= z <= k <= n,
            n == s@.len(),
            n - z <= 19,
            core == s@.subrange(z as int, n as int),
            all_digits(core),
            forall|j: int| start <= j < n ==> is_digit(#[trigger] s@[j]),
            acc as int == digits_val(s@.subrange(z as int, k as int)),
            (acc as int) < pow10((k - z) as nat),
        decreases n - k,
    {
        let c = s.get_char(k);
        assert(is_digit(s@[k as int]));
        let d: u64 = (c as u32 as u64) - 48;
        proof {
            let prefix = s@.subrange(z as int, k as int);
            let next = s@.subrange(z as int, k as int + 1);
            assert(next.drop_last() =~= prefix);
            assert(next.last() == s@[k as int]);
            lemma_pow10_mono((k - z + 1) as nat, 19);
            lemma_pow10_19();
            assert((acc as int) * 10 + d < pow10((k - z + 1) as nat));
        }
        acc = acc * 10 + d;
        k = k + 1;
    }
    proof {
        assert(s@.subrange(z as int, n as int) =~= core);
        assert(acc as int == digits_val(core));
        assert(digits_val(digits) == digits_val(core));
        if neg {
            assert(digits =~= s@.skip(1));
            assert(int_numeral_val(s@) == -(acc as int));
        } else {
            assert(digits =~= s@);
            assert(int_numeral_val(s@) == acc as int);
        }
    }
    if neg {
        if acc > 9223372036854775808u64 {
            return None;
        }
        if acc == 9223372036854775808u64 {
            Some(i64::MIN)
        } else {
            Some(-(acc as i64))
        }
    } else {
        if acc > 9223372036854775807u64 {
            return None;
        }
        Some(acc as i64)
    }
}

} // verus!

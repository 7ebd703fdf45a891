//! Decimal rendering of integers, plain and with thousands separators.

use vstd::prelude::*;
use vstd::utf8::is_ascii_chars;

verus! {

/// The character that stands for the digit `d`.
pub open spec fn digit_char(d: nat) -> char
    recommends
        d < 10,
{
    (('0' as u32) + d) as char
}

/// The decimal representation of `n`, without leading zeros.
pub open spec fn decimal(n: nat) -> Seq<char>
    decreases n,
{
    if n < 10 {
        seq![digit_char(n)]
    } else {
        decimal(n / 10).push(digit_char(n % 10))
    }
}

/// The decimal representation of `n`, with a minus sign before a negative
/// number.
pub open spec fn signed_decimal(n: int) -> Seq<char> {
    if n < 0 {
        seq!['-'] + decimal((-n) as nat)
    } else {
        decimal(n as nat)
    }
}

/// The three digits of a number below one thousand, leading zeros kept.
pub open spec fn three_digits(n: nat) -> Seq<char>
    recommends
        n < 1000,
{
    seq![digit_char(n / 100), digit_char((n / 10) % 10), digit_char(n % 10)]
}

/// The decimal representation of `n` with a comma between groups of three
/// digits, counted from the right.
pub open spec fn grouped(n: nat) -> Seq<char>
    decreases n,
{
    if n < 1000 {
        decimal(n)
    } else {
        grouped(n / 1000) + seq![','] + three_digits(n % 1000)
    }
}

/// Whether a character is no thousands separator.
pub open spec fn not_separator() -> spec_fn(char) -> bool {
    |c: char| c != ','
}

/// The characters of `s` but for the thousands separators.
pub open spec fn without_separators(s: Seq<char>) -> Seq<char> {
    s.filter(not_separator())
}

/// Ten to the power `k`.
pub open spec fn pow10(k: nat) -> nat
    decreases k,
{
    if k == 0 {
        1
    } else {
        10 * pow10((k - 1) as nat)
    }
}

/// A decimal representation holds digits only, and at least one.
pub proof fn lemma_decimal_digits(n: nat)
    ensures
        decimal(n).len() >= 1,
        forall|i: int| 0 <= i < decimal(n).len() ==> '0' <= #[trigger] decimal(n)[i] <= '9',
        is_ascii_chars(decimal(n)),
    decreases n,
{
    if n >= 10 {
        lemma_decimal_digits(n / 10);
    }
}

/// A number below ten to the power `k` has at most `k` digits.
pub proof fn lemma_decimal_len(n: nat, k: nat)
    requires
        k >= 1,
        n < pow10(k),
    ensures
        decimal(n).len() <= k,
    decreases k,
{
    if n >= 10 {
        reveal_with_fuel(pow10, 2);
        lemma_decimal_len(n / 10, (k - 1) as nat);
    }
}

/// A number that fits in 64 bits has at most twenty digits.
pub proof fn lemma_decimal_len_u64(n: nat)
    requires
        n <= u64::MAX,
    ensures
        1 <= decimal(n).len() <= 20,
{
    assert(pow10(20) == 100_000_000_000_000_000_000nat) by {
        reveal_with_fuel(pow10, 21);
    }
    lemma_decimal_len(n, 20);
    lemma_decimal_digits(n);
}

/// A signed number of 32 bits takes at most eleven characters, all ASCII.
pub proof fn lemma_signed_decimal_i32(n: int)
    requires
        i32::MIN <= n <= i32::MAX,
    ensures
        1 <= signed_decimal(n).len() <= 11,
        is_ascii_chars(signed_decimal(n)),
{
    let magnitude = if n < 0 {
        (-n) as nat
    } else {
        n as nat
    };
    assert(pow10(10) == 10_000_000_000nat) by {
        reveal_with_fuel(pow10, 11);
    }
    lemma_decimal_len(magnitude, 10);
    lemma_decimal_digits(magnitude);
}

/// Text that ends in a digit keeps it when the separators are taken out.
proof fn lemma_push_digit(s: Seq<char>, d: nat)
    requires
        d < 10,
    ensures
        without_separators(s.push(digit_char(d))) == without_separators(s).push(digit_char(d)),
{
    s.lemma_filter_push(digit_char(d), not_separator());
}

/// A decimal representation holds no separator.
proof fn lemma_decimal_without_separators(n: nat)
    ensures
        without_separators(decimal(n)) == decimal(n),
    decreases n,
{
    let none = Seq::<char>::empty();
    none.lemma_filter_len(not_separator());
    if n < 10 {
        lemma_push_digit(none, n);
    } else {
        lemma_decimal_without_separators(n / 10);
        lemma_push_digit(decimal(n / 10), n % 10);
    }
}

/// Three digits hold no separator.
proof fn lemma_three_digits_without_separators(n: nat)
    requires
        n < 1000,
    ensures
        without_separators(three_digits(n)) == three_digits(n),
{
    let none = Seq::<char>::empty();
    let one = none.push(digit_char(n / 100));
    let two = one.push(digit_char((n / 10) % 10));
    none.lemma_filter_len(not_separator());
    lemma_push_digit(none, n / 100);
    lemma_push_digit(one, (n / 10) % 10);
    lemma_push_digit(two, n % 10);
    assert(three_digits(n) =~= two.push(digit_char(n % 10)));
}

/// From one thousand on, a decimal representation ends in the three digits
/// of the number's remainder by one thousand; before them stands the
/// representation of the quotient.
proof fn lemma_decimal_split(n: nat)
    requires
        n >= 1000,
    ensures
        decimal(n) == decimal(n / 1000) + three_digits(n % 1000),
{
    let low = n % 1000;
    assert(n / 10 / 10 == n / 100 && n / 100 / 10 == n / 1000) by (nonlinear_arith);
    assert((n / 100) % 10 == low / 100 && (n / 10) % 10 == (low / 10) % 10 && n % 10 == low % 10)
        by (nonlinear_arith)
        requires
            low == n % 1000,
    ;
    assert(decimal(n / 10) == decimal(n / 100).push(digit_char((n / 10) % 10)));
}

/// The grouped representation of a number holds the digits of its decimal
/// representation, in their order, and besides them separators only.
pub proof fn lemma_grouped_digits(n: nat)
    ensures
        without_separators(grouped(n)) == decimal(n),
    decreases n,
{
    if n < 1000 {
        lemma_decimal_without_separators(n);
    } else {
        let high = grouped(n / 1000);
        let low = three_digits(n % 1000);
        lemma_grouped_digits(n / 1000);
        lemma_decimal_split(n);
        lemma_three_digits_without_separators(n % 1000);
        assert(without_separators(high.push(',')) == decimal(n / 1000)) by {
            high.lemma_filter_push(',', not_separator());
        }
        assert(without_separators(high.push(',') + low) == decimal(n / 1000) + low) by {
            Seq::filter_distributes_over_add(high.push(','), low, not_separator());
        }
        assert(grouped(n) =~= high.push(',') + low);
    }
}

/// In a grouped representation a separator stands before each group of
/// three digits, counted from the right, and nowhere else.
pub proof fn lemma_grouped_separators(n: nat, i: int)
    requires
        0 <= i < grouped(n).len(),
    ensures
        grouped(n)[i] == ',' <==> (grouped(n).len() - i) % 4 == 0,
    decreases n,
{
    if n < 1000 {
        lemma_decimal_digits(n);
        reveal_with_fuel(pow10, 4);
        lemma_decimal_len(n, 3);
    } else if i < grouped(n / 1000).len() {
        lemma_grouped_separators(n / 1000, i);
    }
}

/// The one-character string of a digit.
fn digit_str(d: u64) -> (r: &'static str)
    requires
        d < 10,
    ensures
        r@ == seq![digit_char(d as nat)],
{
    proof {
        reveal_strlit("0");
        reveal_strlit("1");
        reveal_strlit("2");
        reveal_strlit("3");
        reveal_strlit("4");
        reveal_strlit("5");
        reveal_strlit("6");
        reveal_strlit("7");
        reveal_strlit("8");
        reveal_strlit("9");
    }
    if d == 0 {
        "0"
    } else if d == 1 {
        "1"
    } else if d == 2 {
        "2"
    } else if d == 3 {
        "3"
    } else if d == 4 {
        "4"
    } else if d == 5 {
        "5"
    } else if d == 6 {
        "6"
    } else if d == 7 {
        "7"
    } else if d == 8 {
        "8"
    } else {
        "9"
    }
}

/// Appends the decimal representation of `n` to `out`.
pub fn push_decimal(out: &mut String, n: u64)
    ensures
        final(out)@ == old(out)@ + decimal(n as nat),
    decreases n,
{
    if n >= 10 {
        push_decimal(out, n / 10);
    }
    out.append(digit_str(n % 10));
}

/// Appends the decimal representation of `n`, signed, to `out`.
pub fn push_signed(out: &mut String, n: i64)
    ensures
        final(out)@ == old(out)@ + signed_decimal(n as int),
{
    if n < 0 {
        proof {
            reveal_strlit("-");
        }
        out.append("-");
        let magnitude: u64 = (-(n + 1)) as u64 + 1;
        push_decimal(out, magnitude);
    } else {
        push_decimal(out, n as u64);
    }
}

/// Appends the grouped representation of `n` to `out`.
fn push_grouped(out: &mut String, n: u64)
    ensures
        final(out)@ == old(out)@ + grouped(n as nat),
    decreases n,
{
    if n < 1000 {
        push_decimal(out, n);
    } else {
        proof {
            reveal_strlit(",");
        }
        let low: u64 = n % 1000;
        push_grouped(out, n / 1000);
        out.append(",");
        out.append(digit_str(low / 100));
        out.append(digit_str((low / 10) % 10));
        out.append(digit_str(low % 10));
    }
}

/// Renders `n` in decimal with thousands separators: `1234567` becomes
/// `1,234,567`.
pub fn format_number(n: u64) -> (r: String)
    ensures
        r@ == grouped(n as nat),
{
    let mut out = String::new();
    push_grouped(&mut out, n);
    out
}

} // verus!

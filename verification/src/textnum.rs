//! Decimal text for integer identifiers: rendering a `u64` as its digit
//! string and parsing a digit string back, with exact contracts relating
//! the two.
use vstd::prelude::*;

verus! {

/// The character for one decimal digit.
pub open spec fn digit_char(d: nat) -> char {
    if d == 0 {
        '0'
    } else if d == 1 {
        '1'
    } else if d == 2 {
        '2'
    } else if d == 3 {
        '3'
    } else if d == 4 {
        '4'
    } else if d == 5 {
        '5'
    } else if d == 6 {
        '6'
    } else if d == 7 {
        '7'
    } else if d == 8 {
        '8'
    } else {
        '9'
    }
}

/// The numeric value of one decimal digit character.
pub open spec fn digit_val(c: char) -> nat {
    if c == '0' {
        0
    } else if c == '1' {
        1
    } else if c == '2' {
        2
    } else if c == '3' {
        3
    } else if c == '4' {
        4
    } else if c == '5' {
        5
    } else if c == '6' {
        6
    } else if c == '7' {
        7
    } else if c == '8' {
        8
    } else {
        9
    }
}

/// Whether a character is a decimal digit.
pub open spec fn is_digit(c: char) -> bool {
    c == '0' || c == '1' || c == '2' || c == '3' || c == '4' || c == '5' || c == '6' || c == '7'
        || c == '8' || c == '9'
}

/// Whether a sequence is one or more decimal digits.
pub open spec fn is_digit_seq(s: Seq<char>) -> bool {
    s.len() > 0 && forall|i: int| 0 <= i < s.len() ==> is_digit(#[trigger] s[i])
}

/// The decimal rendering of a natural number, most significant digit first,
/// with no leading zero except for zero itself.
pub open spec fn dec_digits(n: nat) -> Seq<char>
    decreases n,
{
    if n < 10 {
        seq![digit_char(n)]
    } else {
        dec_digits(n / 10).push(digit_char(n % 10))
    }
}

/// The numeric value of a digit sequence (most significant digit first).
pub open spec fn dec_value(s: Seq<char>) -> nat
    decreases s.len(),
{
    if s.len() == 0 {
        0
    } else {
        dec_value(s.drop_last()) * 10 + digit_val(s.last())
    }
}

/// Ten to the given power.
pub open spec fn pow10(e: nat) -> nat
    decreases e,
{
    if e == 0 {
        1nat
    } else {
        10 * pow10((e - 1) as nat)
    }
}

/// A digit sequence of length `e` is worth less than `pow10(e)`.
pub proof fn lemma_dec_value_upper(s: Seq<char>)
    ensures
        dec_value(s) < pow10(s.len()),
    decreases s.len(),
{
    if s.len() > 0 {
        lemma_dec_value_upper(s.drop_last());
        assert(digit_val(s.last()) <= 9);
    }
}

/// A digit sequence that does not start with '0' is worth at least
/// `pow10(len - 1)`.
pub proof fn lemma_dec_value_lower(s: Seq<char>)
    requires
        s.len() > 0,
        is_digit_seq(s),
        s[0] != '0',
    ensures
        dec_value(s) >= pow10((s.len() - 1) as nat),
    decreases s.len(),
{
    if s.len() == 1 {
        assert(digit_val(s.last()) >= 1);
    } else {
        lemma_dec_value_lower(s.drop_last());
    }
}

/// A digit character reads back as its digit.
proof fn lemma_digit_round(d: nat)
    requires
        d < 10,
    ensures
        digit_val(digit_char(d)) == d,
        is_digit(digit_char(d)),
{
}

/// Rendering then reading a number gives the number back: the value of
/// `dec_digits(n)` is `n`, and it is a digit sequence without a leading
/// zero (unless it is "0" itself).
pub proof fn lemma_dec_digits_value(n: nat)
    ensures
        is_digit_seq(dec_digits(n)),
        dec_value(dec_digits(n)) == n,
        n > 0 ==> dec_digits(n)[0] != '0',
    decreases n,
{
    if n < 10 {
        lemma_digit_round(n);
        assert(dec_digits(n) == seq![digit_char(n)]);
        assert(dec_digits(n).drop_last() =~= Seq::<char>::empty());
        assert(dec_digits(n).last() == digit_char(n));
        assert(dec_value(dec_digits(n)) == dec_value(Seq::<char>::empty()) * 10 + digit_val(
            digit_char(n),
        ));
    } else {
        lemma_dec_digits_value(n / 10);
        lemma_digit_round(n % 10);
        let s = dec_digits(n);
        assert(s.drop_last() =~= dec_digits(n / 10));
        assert(s.last() == digit_char(n % 10));
        assert(dec_value(s) == dec_value(dec_digits(n / 10)) * 10 + digit_val(digit_char(n % 10)));
        assert(n == (n / 10) * 10 + n % 10) by (nonlinear_arith);
        assert forall|i: int| 0 <= i < s.len() implies is_digit(#[trigger] s[i]) by {
            if i < s.len() - 1 {
                assert(s[i] == dec_digits(n / 10)[i]);
            } else {
                assert(s[i] == digit_char(n % 10));
            }
        }
    }
}

/// Rendering is injective: distinct numbers have distinct digit strings.
pub proof fn lemma_dec_digits_injective(a: nat, b: nat)
    requires
        dec_digits(a) == dec_digits(b),
    ensures
        a == b,
{
    lemma_dec_digits_value(a);
    lemma_dec_digits_value(b);
}

/// The digit character for `d`, as executable code.
fn digit_char_of(d: u64) -> (c: char)
    requires
        d < 10,
    ensures
        c == digit_char(d as nat),
{
    match d {
        0 => '0',
        1 => '1',
        2 => '2',
        3 => '3',
        4 => '4',
        5 => '5',
        6 => '6',
        7 => '7',
        8 => '8',
        _ => '9',
    }
}

/// The numeric value of a digit character, or `None` if the character is
/// not a digit, as executable code.
fn digit_val_of(c: char) -> (r: Option<u64>)
    ensures
        r == if is_digit(c) {
            Some(digit_val(c) as u64)
        } else {
            None::<u64>
        },
{
    match c {
        '0' => Some(0),
        '1' => Some(1),
        '2' => Some(2),
        '3' => Some(3),
        '4' => Some(4),
        '5' => Some(5),
        '6' => Some(6),
        '7' => Some(7),
        '8' => Some(8),
        '9' => Some(9),
        _ => None,
    }
}

/// The decimal digits of `n`, most significant first.
pub fn render_u64(n: u64) -> (v: Vec<char>)
    ensures
        v@ == dec_digits(n as nat),
{
    let mut rev: Vec<char> = Vec::new();
    let mut m: u64 = n;
    // Low-order digits of n, gathered in reverse order.
    while m >= 10
        invariant
            dec_digits(n as nat) =~= dec_digits(m as nat) + rev@.reverse(),
        decreases m,
    {
        let d = digit_char_of(m % 10);
        proof {
            assert(dec_digits(m as nat) =~= dec_digits((m / 10) as nat).push(digit_char(
                (m % 10) as nat,
            )));
            assert(dec_digits((m / 10) as nat).push(digit_char((m % 10) as nat)) + rev@.reverse()
                =~= dec_digits((m / 10) as nat) + rev@.push(digit_char((m % 10) as nat)).reverse());
        }
        rev.push(d);
        m = m / 10;
    }
    let last = digit_char_of(m);
    let mut v: Vec<char> = Vec::new();
    v.push(last);
    let mut i: usize = rev.len();
    while i > 0
        invariant
            i <= rev.len(),
            dec_digits(n as nat) =~= seq![digit_char(m as nat)] + rev@.reverse(),
            v@ =~= (seq![digit_char(m as nat)] + rev@.reverse()).take(
                1 + (rev@.len() - i),
            ),
        decreases i,
    {
        let c = rev[i - 1];
        proof {
            assert(rev@.reverse()[rev@.len() - i] == rev@[i - 1]);
            assert((seq![digit_char(m as nat)] + rev@.reverse()).take(1 + (rev@.len() - i) + 1)
                =~= (seq![digit_char(m as nat)] + rev@.reverse()).take(1 + (rev@.len() - i)).push(
                rev@[i - 1],
            ));
        }
        v.push(c);
        i = i - 1;
    }
    proof {
        assert(v@ =~= dec_digits(n as nat));
    }
    v
}

/// Reads a decimal digit string (most significant digit first). Returns the
/// value exactly when the whole sequence is digits and the value fits in a
/// `u64`; leading zeros are allowed.
pub fn parse_u64_digits(s: &Vec<char>) -> (r: Option<u64>)
    ensures
        r == if is_digit_seq(s@) && dec_value(s@) <= u64::MAX as nat {
            Some(dec_value(s@) as u64)
        } else {
            None::<u64>
        },
{
    if s.len() == 0 {
        return None;
    }
    // Skip leading zeros; they do not change the value.
    proof {
        assert(s@.skip(0) =~= s@);
    }
    let mut start: usize = 0;
    while start < s.len() && s[start] == '0'
        invariant
            start <= s@.len(),
            forall|i: int| 0 <= i < start ==> s@[i] == '0',
            dec_value(s@.skip(start as int)) == dec_value(s@),
            is_digit_seq(s@.skip(start as int)) ==> is_digit_seq(s@),
        decreases s@.len() - start,
    {
        proof {
            lemma_leading_zero(s@.skip(start as int));
            assert(s@.skip(start as int).skip(1) =~= s@.skip(start as int + 1));
        }
        start = start + 1;
        if start == s.len() {
            // All zeros: the value is zero.
            proof {
                lemma_all_zero_value(s@);
            }
            return Some(0);
        }
    }
    let rest = s.len() - start;
    let ghost t = s@.skip(start as int);
    if rest > 20 {
        // At least 21 significant digits and no leading zero: the value
        // cannot fit in a u64 (if the text is digits at all).
        proof {
            if is_digit_seq(s@) {
                lemma_dec_value_lower(t);
                lemma_pow10_20();
                lemma_pow10_grows(20, (t.len() - 1) as nat);
            }
        }
        return None;
    }
    proof {
        lemma_all_zero_value(s@.take(start as int));
    }
    let mut acc: u128 = 0;
    let mut i: usize = start;
    while i < s.len()
        invariant
            start <= i <= s@.len(),
            t =~= s@.skip(start as int),
            s@.len() - start <= 20,
            forall|j: int| 0 <= j < start ==> s@[j] == '0',
            forall|j: int| start <= j < i ==> is_digit(#[trigger] s@[j]),
            acc == dec_value(s@.take(i as int)),
            acc < pow10((i - start) as nat),
        decreases s@.len() - i,
    {
        let d = match digit_val_of(s[i]) {
            Some(d) => d,
            None => {
                return None;
            },
        };
        proof {
            assert(s@.take(i as int + 1).drop_last() =~= s@.take(i as int));
            lemma_pow10_20();
            lemma_pow10_grows((i - start + 1) as nat, 20);
            lemma_pow10_grows((i - start) as nat, 20);
        }
        acc = acc * 10 + (d as u128);
        i = i + 1;
    }
    proof {
        assert(s@.take(s@.len() as int) =~= s@);
        assert(is_digit_seq(s@));
    }
    if acc > u64::MAX as u128 {
        None
    } else {
        Some(acc as u64)
    }
}

/// Dropping one leading zero does not change the value of a digit string.
proof fn lemma_leading_zero(s: Seq<char>)
    requires
        s.len() > 0,
        s[0] == '0',
    ensures
        dec_value(s.skip(1)) == dec_value(s),
        is_digit_seq(s.skip(1)) ==> is_digit_seq(s),
    decreases s.len(),
{
    if s.len() == 1 {
        assert(s.skip(1) =~= Seq::<char>::empty());
        assert(s.drop_last() =~= Seq::<char>::empty());
        assert(dec_value(Seq::<char>::empty()) == 0);
        assert(s.last() == '0');
        assert(dec_value(s) == dec_value(s.drop_last()) * 10 + digit_val(s.last()));
    } else {
        lemma_leading_zero(s.drop_last());
        assert(s.drop_last().skip(1) =~= s.skip(1).drop_last());
        assert(s.skip(1).last() == s.last());
    }
    if is_digit_seq(s.skip(1)) {
        assert forall|i: int| 0 <= i < s.len() implies is_digit(#[trigger] s[i]) by {
            if i > 0 {
                assert(s[i] == s.skip(1)[i - 1]);
            }
        }
    }
}

/// A string of zeros is worth zero.
proof fn lemma_all_zero_value(s: Seq<char>)
    requires
        forall|i: int| 0 <= i < s.len() ==> s[i] == '0',
    ensures
        dec_value(s) == 0,
        s.len() > 0 ==> is_digit_seq(s),
    decreases s.len(),
{
    if s.len() > 0 {
        lemma_all_zero_value(s.drop_last());
    }
}

/// pow10 is monotone in the exponent.
proof fn lemma_pow10_grows(a: nat, b: nat)
    requires
        a <= b,
    ensures
        pow10(a) <= pow10(b),
    decreases b,
{
    if a < b {
        lemma_pow10_grows(a, (b - 1) as nat);
    }
}

/// The concrete value of pow10 at 20.
proof fn lemma_pow10_20()
    ensures
        pow10(20) == 0x5_6bc7_5e2d_6310_0000,
{
    reveal_with_fuel(pow10, 21);
}

} // verus!

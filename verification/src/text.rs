//! Decimal numerals, as they stand in blob keys and request paths.

use vstd::prelude::*;
use vstd::string::StringExecFns;

verus! {

/// The character of one decimal digit.
pub open spec fn digit_char(d: int) -> char {
    if d == 0 {
        '0'
    } else if d == 1 {
        '1'
    } else if d == 2 {
        '2'
    } else if d == 3 {
        '3'
    } else if d == 4 {
        '4'
    } else if d == 5 {
        '5'
    } else if d == 6 {
        '6'
    } else if d == 7 {
        '7'
    } else if d == 8 {
        '8'
    } else {
        '9'
    }
}

/// The decimal numeral of a natural number, without leading zeros.
pub open spec fn decimal_nat(n: nat) -> Seq<char>
    decreases n,
{
    if n < 10 {
        seq![digit_char(n as int)]
    } else {
        decimal_nat(n / 10).push(digit_char((n % 10) as int))
    }
}

/// The decimal numeral of an integer: a minus sign before a negative one.
pub open spec fn decimal(n: int) -> Seq<char> {
    if n < 0 {
        seq!['-'] + decimal_nat((-n) as nat)
    } else {
        decimal_nat(n as nat)
    }
}

/// The digits of `n` from the least significant one upwards.
pub open spec fn digits_upward(n: nat) -> Seq<u8>
    decreases n,
{
    if n < 10 {
        seq![n as u8]
    } else {
        seq![(n % 10) as u8] + digits_upward(n / 10)
    }
}

/// The numeral that the first `k` entries of `low_first` spell when read
/// from the last of them down to the first.
pub open spec fn spelled(low_first: Seq<u8>, k: int) -> Seq<char>
    decreases k,
{
    if k <= 0 {
        Seq::empty()
    } else {
        seq![digit_char(low_first[k - 1] as int)] + spelled(low_first, k - 1)
    }
}

proof fn lemma_spelled_digits(n: nat)
    ensures
        spelled(digits_upward(n), digits_upward(n).len() as int) == decimal_nat(n),
        digits_upward(n).len() >= 1,
        forall|i: int| 0 <= i < digits_upward(n).len() ==> digits_upward(n)[i] < 10,
    decreases n,
{
    let d = digits_upward(n);
    if n < 10 {
        assert(spelled(d, 1) == seq![digit_char(d[0] as int)] + spelled(d, 0));
    } else {
        let rest = digits_upward(n / 10);
        lemma_spelled_digits(n / 10);
        lemma_spelled_all_shift((n % 10) as u8, rest, rest.len() as int);
    }
}

/// Reading `[low] + rest` from position `k + 1` down is reading `rest` from
/// `k` down and then `low`.
proof fn lemma_spelled_all_shift(low: u8, rest: Seq<u8>, k: int)
    requires
        0 <= k <= rest.len(),
    ensures
        spelled(seq![low] + rest, k + 1) == spelled(rest, k).push(digit_char(low as int)),
    decreases k,
{
    let whole = seq![low] + rest;
    if k == 0 {
        assert(spelled(whole, 1) == seq![digit_char(whole[0] as int)] + spelled(whole, 0));
    } else {
        lemma_spelled_all_shift(low, rest, k - 1);
    }
}

fn digit_text(d: u8) -> (text: &'static str)
    requires
        d < 10,
    ensures
        text@ == seq![digit_char(d as int)],
{
    proof {
        reveal_strlit("0");
        reveal_strlit("1");
        reveal_strlit("2");
        reveal_strlit("3");
        reveal_strlit("4");
        reveal_strlit("5");
        reveal_strlit("6");
        reveal_strlit("7");
        reveal_strlit("8");
        reveal_strlit("9");
    }
    match d {
        0 => "0",
        1 => "1",
        2 => "2",
        3 => "3",
        4 => "4",
        5 => "5",
        6 => "6",
        7 => "7",
        8 => "8",
        _ => "9",
    }
}

/// Appends the decimal numeral of `n` to `out`.
pub fn push_decimal(out: &mut String, n: i64)
    ensures
        final(out)@ == old(out)@ + decimal(n as int),
{
    let mut magnitude: u64 = if n < 0 {
        proof {
            reveal_strlit("-");
        }
        out.append("-");
        ((-(n + 1)) as u64) + 1
    } else {
        n as u64
    };
    let ghost whole: nat = magnitude as nat;
    let mut low_first: Vec<u8> = Vec::new();
    low_first.push((magnitude % 10) as u8);
    magnitude = magnitude / 10;
    proof {
        lemma_spelled_digits(whole);
    }
    while magnitude > 0
        invariant
            low_first@.len() >= 1,
            forall|i: int| 0 <= i < low_first@.len() ==> low_first@[i] < 10,
            low_first@ + (if magnitude > 0 {
                digits_upward(magnitude as nat)
            } else {
                Seq::empty()
            }) == digits_upward(whole),
        decreases magnitude,
    {
        low_first.push((magnitude % 10) as u8);
        magnitude = magnitude / 10;
    }
    let ghost start = out@;
    let mut k: usize = low_first.len();
    while k > 0
        invariant
            k <= low_first@.len(),
            forall|i: int| 0 <= i < low_first@.len() ==> low_first@[i] < 10,
            out@ + spelled(low_first@, k as int) == start + spelled(
                low_first@,
                low_first@.len() as int,
            ),
        decreases k,
    {
        k -= 1;
        out.append(digit_text(low_first[k]));
    }
}

/// The decimal numeral of `n` as a string.
pub fn decimal_string(n: i64) -> (text: String)
    ensures
        text@ == decimal(n as int),
{
    let mut text = String::new();
    push_decimal(&mut text, n);
    text
}

/// The texts of `parts` one after the other, with `separator` between each
/// two of them.
pub open spec fn joined(parts: Seq<Seq<char>>, separator: Seq<char>) -> Seq<char>
    decreases parts.len(),
{
    if parts.len() == 0 {
        Seq::empty()
    } else if parts.len() == 1 {
        parts[0]
    } else {
        joined(parts.drop_last(), separator) + separator + parts.last()
    }
}

/// The strings of `parts` one after the other, with `separator` between
/// each two of them.
pub fn join(parts: &Vec<String>, separator: &str) -> (text: String)
    ensures
        text@ == joined(parts@.map_values(|s: String| s@), separator@),
{
    let ghost views = parts@.map_values(|s: String| s@);
    let mut text = String::new();
    let mut i: usize = 0;
    while i < parts.len()
        invariant
            i <= parts@.len(),
            views == parts@.map_values(|s: String| s@),
            text@ == joined(views.take(i as int), separator@),
        decreases parts@.len() - i,
    {
        if i > 0 {
            text.append(separator);
        }
        text.append(parts[i].as_str());
        proof {
            assert(views.take(i + 1).drop_last() =~= views.take(i as int));
        }
        i += 1;
    }
    proof {
        assert(views.take(i as int) =~= views);
    }
    text
}

} // verus!

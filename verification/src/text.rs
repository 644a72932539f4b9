//! Numbers as text, and text as numbers.

use vstd::prelude::*;

verus! {

/// The character that stands for the decimal digit `d`.
pub open spec fn digit(d: nat) -> char
    recommends
        d < 10,
{
    (48 + d) as char
}

/// `n` in decimal notation, without leading zeros.
pub open spec fn decimal(n: nat) -> Seq<char>
    decreases n,
{
    if n < 10 {
        seq![digit(n)]
    } else {
        decimal(n / 10).push(digit(n % 10))
    }
}

/// `n` in decimal notation, with a leading minus sign where `n` is negative.
pub open spec fn signed_decimal(n: int) -> Seq<char> {
    if n < 0 {
        "-"@ + decimal((-n) as nat)
    } else {
        decimal(n as nat)
    }
}

/// Whether `c` is one of the ten ASCII digits.
pub open spec fn is_digit(c: char) -> bool {
    '0' <= c <= '9'
}

/// Whether `s` holds ASCII digits only.
pub open spec fn all_digits(s: Seq<char>) -> bool {
    forall|i: int| 0 <= i < s.len() ==> is_digit(#[trigger] s[i])
}

/// The number that a run of digits denotes; zero for the empty run.
pub open spec fn value(s: Seq<char>) -> nat
    decreases s.len(),
{
    if s.len() == 0 {
        0
    } else {
        value(s.drop_last()) * 10 + (s.last() as nat - 48) as nat
    }
}

/// `s` without one leading plus sign.
pub open spec fn unsigned_part(s: Seq<char>) -> Seq<char> {
    if s.len() > 0 && s[0] == '+' {
        s.skip(1)
    } else {
        s
    }
}

/// The number that `s` spells: an optional plus sign, then at least one digit
/// and nothing else, for a number that fits in `usize`.
pub open spec fn parsed_usize(s: Seq<char>) -> Option<usize> {
    let digits = unsigned_part(s);
    if digits.len() > 0 && all_digits(digits) && value(digits) <= usize::MAX {
        Some(value(digits) as usize)
    } else {
        None
    }
}

/// The text of one decimal digit.
fn digit_text(d: u64) -> (text: &'static str)
    requires
        d < 10,
    ensures
        text@ == seq![digit(d as nat)],
{
    proof {
        reveal_strlit("0");
        reveal_strlit("1");
        reveal_strlit("2");
        reveal_strlit("3");
        reveal_strlit("4");
        reveal_strlit("5");
        reveal_strlit("6");
        reveal_strlit("7");
        reveal_strlit("8");
        reveal_strlit("9");
    }
    match d {
        0 => "0",
        1 => "1",
        2 => "2",
        3 => "3",
        4 => "4",
        5 => "5",
        6 => "6",
        7 => "7",
        8 => "8",
        _ => "9",
    }
}

/// Writes `n` in decimal notation.
pub fn decimal_text(n: u64) -> (text: String)
    ensures
        text@ == decimal(n as nat),
    decreases n,
{
    if n < 10 {
        digit_text(n).to_string()
    } else {
        let mut text = decimal_text(n / 10);
        text.append(digit_text(n % 10));
        assert(text@ =~= decimal((n / 10) as nat).push(digit((n % 10) as nat)));
        text
    }
}

/// Writes `n` in decimal notation, with a minus sign where it is negative.
pub fn signed_decimal_text(n: i32) -> (text: String)
    ensures
        text@ == signed_decimal(n as int),
        n >= 0 ==> text@ == decimal(n as nat),
        n < 0 ==> text@ == "-"@ + decimal((-n) as nat),
{
    if n < 0 {
        let magnitude: u64 = (-(n as i64)) as u64;
        let mut text = "-".to_string();
        text.append(decimal_text(magnitude).as_str());
        text
    } else {
        decimal_text(n as u64)
    }
}

/// A longer run of digits denotes no smaller a number than its beginning.
proof fn lemma_value_grows(s: Seq<char>, i: int)
    requires
        0 <= i <= s.len(),
    ensures
        value(s.take(i)) <= value(s),
    decreases s.len() - i,
{
    if i == s.len() {
        assert(s.take(i) =~= s);
    } else {
        lemma_value_grows(s, i + 1);
        assert(s.take(i + 1).drop_last() =~= s.take(i));
    }
}

/// Reads a number: an optional plus sign and decimal digits that make up the
/// whole text. Anything else, and a number that does not fit, gives `None`.
pub fn parse_usize(text: &str) -> (number: Option<usize>)
    ensures
        number == parsed_usize(text@),
{
    let len: usize = text.unicode_len();
    let mut start: usize = 0;
    if len > 0 && text.get_char(0) == '+' {
        start = 1;
    }
    let ghost digits = unsigned_part(text@);
    if start == len {
        return None;
    }
    let mut number: usize = 0;
    let mut i: usize = start;
    while i < len
        invariant
            start <= i <= len,
            start <= 1,
            len == text@.len(),
            digits == unsigned_part(text@),
            digits.len() == len - start,
            digits.len() > 0,
            forall|j: int| 0 <= j < digits.len() ==> digits[j] == text@[j + start],
            forall|j: int| 0 <= j < i - start ==> is_digit(#[trigger] digits[j]),
            number == value(digits.take(i - start)),
        decreases len - i,
    {
        let c: char = text.get_char(i);
        assert(digits[i - start] == c);
        if c < '0' || c > '9' {
            assert(!is_digit(digits[i - start]));
            return None;
        }
        let d: usize = (c as u32 - 48) as usize;
        proof {
            assert(digits.take(i - start + 1).drop_last() =~= digits.take(i - start));
            lemma_value_grows(digits, i - start + 1);
        }
        if number > (usize::MAX - d) / 10 {
            return None;
        }
        number = number * 10 + d;
        i = i + 1;
    }
    assert(digits.take(len - start) =~= digits);
    Some(number)
}

/// Decimal notation consists of digits, is never empty, and denotes the number
/// that it was written for.
pub proof fn law_decimal_denotes(n: nat)
    ensures
        decimal(n).len() > 0,
        all_digits(decimal(n)),
        forall|i: int| 0 <= i < decimal(n).len() ==> '0' <= #[trigger] decimal(n)[i] <= '9',
        value(decimal(n)) == n,
        n > 0 ==> decimal(n)[0] != '0',
    decreases n,
{
    reveal_with_fuel(value, 2);
    if n >= 10 {
        law_decimal_denotes(n / 10);
        assert(decimal(n).drop_last() =~= decimal(n / 10));
    } else {
        assert(decimal(n).drop_last() =~= Seq::<char>::empty());
    }
}

/// Writing one more digit behind a number writes ten times that number and the
/// digit; a number below ten is its digit alone.
pub proof fn law_decimal_is_written_digit_by_digit(n: nat, d: nat)
    requires
        d < 10,
    ensures
        decimal(d) == seq![(48 + d) as char],
        n > 0 ==> decimal(n * 10 + d) == decimal(n).push((48 + d) as char),
{
    if n > 0 {
        assert((n * 10 + d) / 10 == n);
        assert((n * 10 + d) % 10 == d);
    }
}

/// A run of digits denotes a number in positional notation.
pub proof fn law_value_is_positional(s: Seq<char>, c: char)
    requires
        '0' <= c <= '9',
    ensures
        value(Seq::empty()) == 0,
        value(s.push(c)) == value(s) * 10 + (c as nat - 48),
{
    assert(s.push(c).drop_last() =~= s);
}

/// A text reads as a number exactly where it is a run of digits that denotes it,
/// with or without one plus sign in front.
pub proof fn law_parse_reads_exactly_the_numbers(s: Seq<char>, n: usize)
    ensures
        parsed_usize(s) == Some(n) <==> exists|digits: Seq<char>|
            #![trigger value(digits)]
            (s == digits || s == seq!['+'] + digits) && digits.len() > 0 && value(digits) == n && (
            forall|i: int| 0 <= i < digits.len() ==> '0' <= #[trigger] digits[i] <= '9'),
{
    if parsed_usize(s) == Some(n) {
        let digits = unsigned_part(s);
        assert(s == digits || s =~= seq!['+'] + digits);
        assert(value(digits) == n);
        assert forall|i: int| 0 <= i < digits.len() implies '0' <= (#[trigger] digits[i])
            && digits[i] <= '9' by {
            assert(is_digit(digits[i]));
        }
    }
    if exists|digits: Seq<char>|
        #![trigger value(digits)]
        (s == digits || s == seq!['+'] + digits) && digits.len() > 0 && value(digits) == n && (
        forall|i: int| 0 <= i < digits.len() ==> '0' <= #[trigger] digits[i] <= '9') {
        let digits = choose|digits: Seq<char>|
            #![trigger value(digits)]
            (s == digits || s == seq!['+'] + digits) && digits.len() > 0 && value(digits) == n && (
            forall|i: int| 0 <= i < digits.len() ==> '0' <= #[trigger] digits[i] <= '9');
        assert('0' <= digits[0] <= '9');
        if s == seq!['+'] + digits {
            assert(s[0] == '+');
            assert(s.skip(1) =~= digits);
        }
        assert(unsigned_part(s) == digits);
        assert(all_digits(digits));
    }
}

/// Where a number is followed by something other than a digit, the text shows
/// which number it is and what follows it.
pub proof fn law_a_number_ends_with_its_digits(a: nat, b: nat, rest_a: Seq<char>, rest_b: Seq<char>)
    requires
        decimal(a) + rest_a == decimal(b) + rest_b,
        rest_a.len() > 0,
        rest_b.len() > 0,
        !('0' <= rest_a[0] <= '9'),
        !('0' <= rest_b[0] <= '9'),
    ensures
        a == b,
        rest_a == rest_b,
{
    law_decimal_denotes(a);
    law_decimal_denotes(b);
    let la = decimal(a).len() as int;
    let lb = decimal(b).len() as int;
    let whole = decimal(a) + rest_a;
    assert(whole[la] == rest_a[0]);
    assert(whole[lb] == rest_b[0]);
    if la < lb {
        assert(whole[la] == decimal(b)[la]);
    }
    if lb < la {
        assert(whole[lb] == decimal(a)[lb]);
    }
    assert(whole.take(la) =~= decimal(a));
    assert(whole.take(lb) =~= decimal(b));
    assert(whole.skip(la) =~= rest_a);
    assert(whole.skip(lb) =~= rest_b);
}

/// Reading back what was written gives the number again.
pub proof fn law_parse_reads_what_decimal_writes(n: usize)
    ensures
        parsed_usize(decimal(n as nat)) == Some(n),
{
    law_decimal_denotes(n as nat);
    assert(is_digit(decimal(n as nat)[0]));
}

/// Two numbers have the same decimal notation only if they are equal.
pub proof fn law_decimal_is_injective(m: nat, n: nat)
    requires
        decimal(m) == decimal(n),
    ensures
        m == n,
{
    law_decimal_denotes(m);
    law_decimal_denotes(n);
}

} // verus!

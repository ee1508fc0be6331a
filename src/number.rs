//! Decimal counts given on the command line.

use vstd::prelude::*;

verus! {

pub open spec fn is_digit(c: char) -> bool {
    '0' <= c && c <= '9'
}

pub open spec fn all_digits(s: Seq<char>) -> bool {
    forall|i: int| 0 <= i < s.len() ==> is_digit(#[trigger] s[i])
}

/// The number that a string of decimal digits denotes.
pub open spec fn digits_value(s: Seq<char>) -> nat
    decreases s.len(),
{
    if s.len() == 0 {
        0
    } else {
        digits_value(s.drop_last()) * 10 + (s.last() as nat - '0' as nat) as nat
    }
}

/// What `usize` parsing accepts: an optional `+`, then one or more decimal
/// digits whose value fits in a `usize`.
pub open spec fn usize_of(s: Seq<char>) -> Option<nat> {
    let d = if s.len() > 0 && s[0] == '+' { s.drop_first() } else { s };
    if d.len() > 0 && all_digits(d) && digits_value(d) <= usize::MAX {
        Some(digits_value(d))
    } else {
        None
    }
}

/// The digit that stands for `d`, below ten.
pub open spec fn digit_char(d: nat) -> char {
    seq!['0', '1', '2', '3', '4', '5', '6', '7', '8', '9'][d as int]
}

/// The decimal numeral of `n`, without leading zeros.
pub open spec fn decimal(n: nat) -> Seq<char>
    decreases n,
{
    if n < 10 {
        seq![digit_char(n)]
    } else {
        decimal(n / 10).push(digit_char(n % 10))
    }
}

proof fn lemma_digit_char(d: nat)
    requires
        d < 10,
    ensures
        is_digit(digit_char(d)),
        digit_char(d) as nat - '0' as nat == d,
{
    assert(d == 0 || d == 1 || d == 2 || d == 3 || d == 4 || d == 5 || d == 6 || d == 7 || d == 8
        || d == 9);
}

/// The numeral of `n` is a string of digits that denotes `n`.
pub proof fn lemma_decimal(n: nat)
    ensures
        decimal(n).len() > 0,
        all_digits(decimal(n)),
        digits_value(decimal(n)) == n,
    decreases n,
{
    if n < 10 {
        lemma_digit_char(n);
        assert(decimal(n).drop_last() =~= Seq::<char>::empty());
        assert(digits_value(Seq::<char>::empty()) == 0);
        assert(decimal(n).last() == digit_char(n));
    } else {
        lemma_decimal(n / 10);
        lemma_digit_char(n % 10);
        let d = decimal(n);
        assert(d.drop_last() =~= decimal(n / 10));
        assert(d.last() == digit_char(n % 10));
        assert(digits_value(d) == digits_value(decimal(n / 10)) * 10 + (n % 10));
        assert((n / 10) * 10 + n % 10 == n);
        assert forall|i: int| 0 <= i < d.len() implies is_digit(#[trigger] d[i]) by {
            if i < d.len() - 1 {
                assert(d[i] == decimal(n / 10)[i]);
            }
        }
    }
}

/// Relies on `usize::to_string` (its `Display`): the decimal numeral, without
/// sign or leading zeros.
#[verifier::external_body]
pub(crate) fn decimal_text(n: usize) -> (r: String)
    ensures
        r@ == decimal(n as nat),
{
    n.to_string()
}

/// Every numeral of a positive number that fits in a `usize` validates to
/// that number.
pub proof fn lemma_positive_numeral_validates(s: Seq<char>)
    requires
        s.len() > 0,
        all_digits(s),
        0 < digits_value(s) <= usize::MAX,
    ensures
        positive_int_result(s) == Ok::<nat, Seq<char>>(digits_value(s)),
{
}

/// The numeral of a positive count validates to that count.
pub proof fn lemma_decimal_validates(n: nat)
    requires
        0 < n <= usize::MAX,
    ensures
        positive_int_result(decimal(n)) == Ok::<nat, Seq<char>>(n),
{
    lemma_decimal(n);
    lemma_positive_numeral_validates(decimal(n));
}

/// Relies on `str::parse::<usize>` (`usize::from_str`): it accepts an optional
/// `+` followed by digits only, and fails on an empty string, on any other
/// character and on a value above `usize::MAX`.
#[verifier::external_body]
fn parse_usize(s: &str) -> (r: Option<usize>)
    ensures
        r is Some <==> usize_of(s@) is Some,
        r is Some ==> r->0 as nat == usize_of(s@)->0,
{
    s.parse::<usize>().ok()
}

/// The value of a count as written: one or more decimal digits, nothing
/// else, whose value fits in a `usize`.
pub open spec fn count_value(s: Seq<char>) -> Option<nat> {
    if s.len() > 0 && all_digits(s) && digits_value(s) <= usize::MAX {
        Some(digits_value(s))
    } else {
        None
    }
}

/// The outcome of validating a count: its value when it is a positive number,
/// else the text itself.
pub open spec fn positive_int_result(s: Seq<char>) -> Result<nat, Seq<char>> {
    match count_value(s) {
        Some(n) if n > 0 => Ok(n),
        _ => Err(s),
    }
}

/// Reads a count of decimal digits; a sign, like any other character, is
/// refused.
fn count_of(val: &str) -> (r: Option<usize>)
    ensures
        r is Some <==> count_value(val@) is Some,
        r is Some ==> r->0 as nat == count_value(val@)->0,
{
    if val.unicode_len() > 0 && val.get_char(0) == '+' {
        assert(!is_digit(val@[0]));
        return None;
    }
    let r = parse_usize(val);
    proof {
        if val@.len() > 0 {
            assert(val@[0] != '+');
        }
    }
    r
}

/// Validates a count: a positive decimal number that fits in a `usize`. The
/// error holds the rejected text.
pub fn parse_positive_int(val: &str) -> (r: Result<usize, String>)
    ensures
        r is Ok <==> positive_int_result(val@) is Ok,
        r is Ok ==> r->Ok_0 as nat == positive_int_result(val@)->Ok_0,
        r is Err ==> r->Err_0@ == val@,
{
    match count_of(val) {
        Some(n) if n > 0 => Ok(n),
        _ => Err(val.to_string()),
    }
}

/// Validates a count as `parse_positive_int` does, but a text that denotes
/// zero is reported as `"0"` rather than as written.
pub fn parse_positive_int_self(val: &str) -> (r: Result<usize, String>)
    ensures
        match count_value(val@) {
            Some(n) => if n > 0 {
                r == Ok::<usize, String>(n as usize)
            } else {
                r is Err && r->Err_0@ == "0"@
            },
            None => r is Err && r->Err_0@ == val@,
        },
{
    match count_of(val) {
        Some(0) => Err("0".to_string()),
        Some(n) => Ok(n),
        None => Err(val.to_string()),
    }
}

} // verus!

//! How a status is named in a failure message: its number in decimal
//! digits, and, for a status code, its reason phrase.

use vstd::prelude::*;

verus! {

/// The character of a decimal digit.
pub open spec fn digit_char(digit: nat) -> char {
    (0x30 + digit) as u8 as char
}

/// A number in decimal digits, without a sign and without leading zeros.
pub open spec fn decimal_text(number: nat) -> Seq<char>
    decreases number,
{
    if number < 10 {
        seq![digit_char(number)]
    } else {
        decimal_text(number / 10) + seq![digit_char(number % 10)]
    }
}

/// The reason phrase that `http::StatusCode` prints behind the number of a
/// status: the phrase that the `http` crate's table holds for it, or the
/// crate's words for a status that the table does not hold.
pub uninterp spec fn reason_phrase(code: u16) -> Seq<char>;

/// Whether a number is one that `http::StatusCode` takes as a status code.
pub open spec fn is_status_code(code: u16) -> bool {
    100 <= code <= 999
}

/// How a status code is printed: its number in decimal digits, a blank, and
/// its reason phrase.
pub open spec fn status_text(code: u16) -> Seq<char> {
    decimal_text(code as nat) + " "@ + reason_phrase(code)
}

/// How a status is named in a failure message: a status code as it is
/// printed, with its reason phrase, and any other number by its decimal
/// digits alone.
pub open spec fn status_heading(status: u16) -> Seq<char> {
    if is_status_code(status) {
        status_text(status)
    } else {
        decimal_text(status as nat)
    }
}

/// Makes an `http::StatusCode` of `code` with `StatusCode::from_u16` and
/// prints it. `from_u16` takes the numbers from 100 to 999 and no others.
/// The printed text is the number in decimal digits, a blank, and the
/// reason phrase, which depends on the number alone.
#[verifier::external_body]
pub(crate) fn status_line(code: u16) -> (r: Option<String>)
    ensures
        r is Some <==> is_status_code(code),
        r is Some ==> r.unwrap()@ == decimal_text(code as nat) + " "@ + reason_phrase(code),
{
    match ::http::StatusCode::from_u16(code) {
        Ok(status) => Some(status.to_string()),
        Err(_) => None,
    }
}

fn digit_str(digit: u16) -> (r: &'static str)
    requires
        digit < 10,
    ensures
        r@ == seq![digit_char(digit as nat)],
{
    proof {
        reveal_strlit("0");
        reveal_strlit("1");
        reveal_strlit("2");
        reveal_strlit("3");
        reveal_strlit("4");
        reveal_strlit("5");
        reveal_strlit("6");
        reveal_strlit("7");
        reveal_strlit("8");
        reveal_strlit("9");
    }
    let r = match digit {
        0 => "0",
        1 => "1",
        2 => "2",
        3 => "3",
        4 => "4",
        5 => "5",
        6 => "6",
        7 => "7",
        8 => "8",
        _ => "9",
    };
    assert(r@ =~= seq![digit_char(digit as nat)]);
    r
}

/// Prints a number in decimal digits, without a sign and without leading
/// zeros.
pub fn decimal_string(number: u16) -> (r: String)
    ensures
        r@ == decimal_text(number as nat),
    decreases number,
{
    if number < 10 {
        String::from_str(digit_str(number))
    } else {
        decimal_string(number / 10).concat(digit_str(number % 10))
    }
}

/// Names a status for a failure message: a status code as `http` prints it,
/// with its reason phrase, and any other number by its decimal digits alone.
pub fn status_heading_text(status: u16) -> (r: String)
    ensures
        r@ == status_heading(status),
{
    match status_line(status) {
        Some(line) => line,
        None => decimal_string(status),
    }
}

/// However a status is named, its name begins with its number in decimal
/// digits.
pub proof fn law_a_status_is_named_by_its_number(status: u16)
    ensures
        decimal_text(status as nat).is_prefix_of(status_heading(status)),
        decimal_text(status as nat).len() >= 1,
{
    lemma_decimal_text_is_not_empty(status as nat);
    if is_status_code(status) {
        let digits = decimal_text(status as nat);
        assert(status_text(status).subrange(0, digits.len() as int) =~= digits);
    } else {
        let digits = decimal_text(status as nat);
        assert(digits.subrange(0, digits.len() as int) =~= digits);
    }
}

/// A number in decimal digits has at least one digit.
pub proof fn lemma_decimal_text_is_not_empty(number: nat)
    ensures
        decimal_text(number).len() >= 1,
    decreases number,
{
    if number >= 10 {
        lemma_decimal_text_is_not_empty(number / 10);
    }
}

} // verus!

//! The failure taxonomy: every way a search can fail, the process exit code
//! each failure carries, and the single human-readable line reported for it.

use vstd::prelude::*;
use vstd::string::StringExecFns;
use crate::textops::string_from_chars;

verus! {

/// Every terminal failure of a search, in the order the pipeline can meet
/// them: an unknown source name, a failed transport call, a response with a
/// non-success status, and a response that could not be rendered.
#[derive(Debug)]
pub enum Failure {
    /// The supplied source name, after alias resolution, is not in the
    /// registry; carries the raw name the user gave.
    UnknownSource(String),
    /// The transport call itself failed (connectivity, DNS, TLS, ...).
    RequestFailed,
    /// The request completed but the server answered with a status outside
    /// the success range; carries the numeric status code.
    NonSuccessStatus(u16),
    /// The response was received but could not be turned into display text.
    RenderFailed,
}

/// The character of a single decimal digit.
pub open spec fn digit_char(d: int) -> char {
    if d == 0 {
        '0'
    } else if d == 1 {
        '1'
    } else if d == 2 {
        '2'
    } else if d == 3 {
        '3'
    } else if d == 4 {
        '4'
    } else if d == 5 {
        '5'
    } else if d == 6 {
        '6'
    } else if d == 7 {
        '7'
    } else if d == 8 {
        '8'
    } else {
        '9'
    }
}

/// The decimal numeral of `n`, most significant digit first, with no
/// leading zeros (`0` itself is the single character `'0'`).
pub open spec fn spec_decimal(n: nat) -> Seq<char>
    decreases n,
{
    if n < 10 {
        seq![digit_char(n as int)]
    } else {
        spec_decimal(n / 10).push(digit_char((n % 10) as int))
    }
}

/// The exit code of each failure.
pub open spec fn spec_exit_code(f: Failure) -> i32 {
    match f {
        Failure::UnknownSource(_) => 2,
        Failure::RequestFailed => 3,
        Failure::NonSuccessStatus(_) => 4,
        Failure::RenderFailed => 5,
    }
}

/// The single line reported for each failure.
pub open spec fn spec_message(f: Failure) -> Seq<char> {
    match f {
        Failure::UnknownSource(raw) => "Invalid search engine \""@ + raw@ + "\""@,
        Failure::RequestFailed => "Request failed"@,
        Failure::NonSuccessStatus(code) => "Non-successful response ("@ + spec_decimal(
            code as nat,
        ) + ")"@,
        Failure::RenderFailed => "Failed to construct results text"@,
    }
}

fn exec_digit_char(d: u16) -> (c: char)
    requires
        d < 10,
    ensures
        c == digit_char(d as int),
{
    match d {
        0 => '0',
        1 => '1',
        2 => '2',
        3 => '3',
        4 => '4',
        5 => '5',
        6 => '6',
        7 => '7',
        8 => '8',
        _ => '9',
    }
}

/// Appends the decimal numeral of `n` to `out`, most significant digit
/// first.
fn push_decimal(n: u16, out: &mut Vec<char>)
    ensures
        final(out)@ == old(out)@ + spec_decimal(n as nat),
    decreases n,
{
    if n < 10 {
        out.push(exec_digit_char(n));
    } else {
        push_decimal(n / 10, out);
        out.push(exec_digit_char(n % 10));
        assert(out@ =~= old(out)@ + spec_decimal(n as nat));
    }
}

/// The decimal numeral of a status code as a string.
pub fn decimal_string(n: u16) -> (r: String)
    ensures
        r@ == spec_decimal(n as nat),
{
    let mut chars: Vec<char> = Vec::new();
    push_decimal(n, &mut chars);
    string_from_chars(chars)
}

impl Failure {
    /// The process exit code this failure terminates with: 2 for an
    /// unknown source, 3 for a failed request, 4 for a non-success status,
    /// 5 for a rendering failure.
    pub fn exit_code(&self) -> (r: i32)
        ensures
            r == spec_exit_code(*self),
    {
        match self {
            Failure::UnknownSource(_) => 2,
            Failure::RequestFailed => 3,
            Failure::NonSuccessStatus(_) => 4,
            Failure::RenderFailed => 5,
        }
    }

    /// The single human-readable line reported for this failure.
    pub fn message(&self) -> (r: String)
        ensures
            r@ == spec_message(*self),
    {
        match self {
            Failure::UnknownSource(raw) => "Invalid search engine \"".to_owned().concat(
                raw.as_str(),
            ).concat("\""),
            Failure::RequestFailed => "Request failed".to_owned(),
            Failure::NonSuccessStatus(code) => "Non-successful response (".to_owned().concat(
                decimal_string(*code).as_str(),
            ).concat(")"),
            Failure::RenderFailed => "Failed to construct results text".to_owned(),
        }
    }
}

/// Whether an HTTP status code counts as success: the 2xx range.
pub open spec fn spec_is_success(code: u16) -> bool {
    200 <= code < 300
}

/// Classifies a received response status: no failure for a success status,
/// `NonSuccessStatus` carrying the code for any other.
pub fn classify_status(code: u16) -> (r: Option<Failure>)
    ensures
        spec_is_success(code) ==> r is None,
        !spec_is_success(code) ==> (r matches Some(f) && f == Failure::NonSuccessStatus(code)),
{
    if 200 <= code && code < 300 {
        None
    } else {
        Some(Failure::NonSuccessStatus(code))
    }
}

} // verus!

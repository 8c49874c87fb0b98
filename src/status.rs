//! The HTTP status codes that error replies use, and their textual form.

use vstd::prelude::*;

verus! {

pub const BAD_REQUEST: u16 = 400;

pub const UNAUTHORIZED: u16 = 401;

pub const FORBIDDEN: u16 = 403;

pub const NOT_FOUND: u16 = 404;

pub const INTERNAL_SERVER_ERROR: u16 = 500;

/// The codes that an error reply can carry.
pub open spec fn is_reply_code(code: u16) -> bool {
    code == BAD_REQUEST || code == UNAUTHORIZED || code == FORBIDDEN || code == NOT_FOUND
        || code == INTERNAL_SERVER_ERROR
}

/// Tells whether an error reply can carry `code`.
pub fn is_reply_status(code: u16) -> (r: bool)
    ensures
        r == is_reply_code(code),
{
    code == BAD_REQUEST || code == UNAUTHORIZED || code == FORBIDDEN || code == NOT_FOUND
        || code == INTERNAL_SERVER_ERROR
}

/// The canonical reason phrase of a reply code.
pub open spec fn reason_phrase(code: u16) -> Seq<char>
    recommends
        is_reply_code(code),
{
    if code == BAD_REQUEST {
        "Bad Request"@
    } else if code == UNAUTHORIZED {
        "Unauthorized"@
    } else if code == FORBIDDEN {
        "Forbidden"@
    } else if code == NOT_FOUND {
        "Not Found"@
    } else {
        "Internal Server Error"@
    }
}

/// The decimal digit for `d`, which is below ten.
pub open spec fn digit_char(d: int) -> char {
    if d == 0 {
        '0'
    } else if d == 1 {
        '1'
    } else if d == 2 {
        '2'
    } else if d == 3 {
        '3'
    } else if d == 4 {
        '4'
    } else if d == 5 {
        '5'
    } else if d == 6 {
        '6'
    } else if d == 7 {
        '7'
    } else if d == 8 {
        '8'
    } else {
        '9'
    }
}

/// The three decimal digits of a code between 100 and 999.
pub open spec fn code_digits(code: u16) -> Seq<char> {
    let n = code as int;
    seq![digit_char(n / 100), digit_char((n / 10) % 10), digit_char(n % 10)]
}

/// The number that the first three characters of `s` write in decimal.
pub open spec fn leading_code(s: Seq<char>) -> int {
    100 * ((s[0] as int) - ('0' as int)) + 10 * ((s[1] as int) - ('0' as int)) + ((s[2] as int)
        - ('0' as int))
}

/// The textual form of a reply code: its digits, a space, and its reason phrase.
pub open spec fn status_line_of(code: u16) -> Seq<char> {
    code_digits(code) + seq![' '] + reason_phrase(code)
}

/// The textual form of a reply code reads back as the code: three digits that
/// write it, then a space, then a non-empty reason phrase.
pub proof fn status_line_reads_back(code: u16)
    requires
        is_reply_code(code),
    ensures
        status_line_of(code).len() > 4,
        status_line_of(code).subrange(0, 3) == code_digits(code),
        status_line_of(code)[3] == ' ',
        leading_code(status_line_of(code)) == code as int,
{
    reveal_strlit("Bad Request");
    reveal_strlit("Unauthorized");
    reveal_strlit("Forbidden");
    reveal_strlit("Not Found");
    reveal_strlit("Internal Server Error");
    let s = status_line_of(code);
    assert(s.subrange(0, 3) =~= code_digits(code));
}

/// Relies on the `Display` of `http::StatusCode` (re-exported by warp): a valid
/// code prints as its number, a space, and its canonical reason phrase.
#[verifier::external_body]
pub(crate) fn status_line(code: u16) -> (r: String)
    requires
        is_reply_code(code),
    ensures
        r@ == status_line_of(code),
{
    match warp::http::StatusCode::from_u16(code) {
        Ok(status) => status.to_string(),
        Err(_) => String::new(),
    }
}

} // verus!

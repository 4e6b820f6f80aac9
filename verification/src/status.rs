//! HTTP status codes as a probe reports them, and their textual form.

use vstd::prelude::*;

verus! {

/// The numbers that can stand as the status code of an HTTP response.
pub open spec fn is_status_code(code: int) -> bool {
    100 <= code <= 999
}

/// The success range of status codes, 200 to 299.
pub open spec fn is_success_code(code: int) -> bool {
    200 <= code <= 299
}

/// The character that writes the decimal digit `d`.
pub open spec fn digit_char(d: int) -> char
    recommends
        0 <= d <= 9,
{
    ('0' as int + d) as char
}

/// The three decimal digits of a status code, most significant first.
pub open spec fn code_digits(code: int) -> Seq<char>
    recommends
        is_status_code(code),
{
    seq![digit_char(code / 100), digit_char((code / 10) % 10), digit_char(code % 10)]
}

/// The reason phrase that `reqwest::StatusCode` writes after the digits of
/// `code` and a space when it is displayed: the canonical phrase of a
/// registered code, a fixed placeholder for any other.
pub uninterp spec fn reason_phrase(code: int) -> Seq<char>;

/// A status code as it is displayed: its digits, a space, its reason phrase.
pub open spec fn status_line(code: int) -> Seq<char> {
    code_digits(code) + seq![' '] + reason_phrase(code)
}

/// A status code of an HTTP response, between 100 and 999.
#[derive(Clone, Copy, Debug, PartialEq, Eq)]
pub struct HttpStatus {
    code: u16,
}

impl View for HttpStatus {
    type V = int;

    closed spec fn view(&self) -> int {
        self.code as int
    }
}

impl DeepView for HttpStatus {
    type V = int;

    open spec fn deep_view(&self) -> int {
        self@
    }
}

impl HttpStatus {
    #[verifier::type_invariant]
    spec fn in_range(self) -> bool {
        is_status_code(self.code as int)
    }

    /// Accepts exactly the codes from 100 to 999.
    pub fn new(code: u16) -> (status: Option<HttpStatus>)
        ensures
            status is Some <==> is_status_code(code as int),
            status matches Some(s) ==> s@ == code,
    {
        if 100 <= code && code <= 999 {
            Some(HttpStatus { code })
        } else {
            None
        }
    }

    /// The code as a number.
    pub fn as_u16(&self) -> (code: u16)
        ensures
            code == self@,
            is_status_code(code as int),
    {
        proof {
            use_type_invariant(self);
        }
        self.code
    }

    /// Whether the code lies in the success range.
    pub fn is_success(&self) -> (ok: bool)
        ensures
            ok == is_success_code(self@),
    {
        200 <= self.code && self.code <= 299
    }

    /// The status as a response line shows it, such as `404 Not Found`.
    pub fn describe(&self) -> (line: String)
        ensures
            line@ == status_line(self@),
    {
        proof {
            use_type_invariant(self);
        }
        display_status(self.code)
    }
}

/// Formats `code` through `Display` of `reqwest::StatusCode`, which writes
/// the code in decimal, a space, and the reason phrase. The contract spells
/// out the three digits and names the phrase. `StatusCode::from_u16` accepts
/// every code that `requires` admits, so the second arm is never taken.
#[verifier::external_body]
fn display_status(code: u16) -> (line: String)
    requires
        is_status_code(code as int),
    ensures
        line@ == code_digits(code as int) + seq![' '] + reason_phrase(code as int),
{
    match reqwest::StatusCode::from_u16(code) {
        Ok(status) => status.to_string(),
        Err(_) => String::new(),
    }
}

} // verus!

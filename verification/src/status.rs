//! HTTP status codes as the chat service reports them.

use vstd::prelude::*;

verus! {

/// The text `reqwest::StatusCode` displays for the code `code`: the number,
/// a space and the standard reason phrase.
pub uninterp spec fn status_text(code: u16) -> Seq<char>;

/// The decimal digit `d` as a character.
pub open spec fn digit(d: int) -> char {
    (('0' as u8) + d) as u8 as char
}

/// How the text of a code between 100 and 999 begins: its three decimal
/// digits and a space.
pub open spec fn status_prefix(code: u16) -> Seq<char> {
    seq![digit(code as int / 100), digit(code as int / 10 % 10), digit(code as int % 10), ' ']
}

/// Calls `reqwest::StatusCode::from_u16`, which takes exactly the codes from
/// 100 to 999.
#[verifier::external_body]
fn status_accepted(code: u16) -> (accepted: bool)
    ensures
        accepted == (100 <= code <= 999),
{
    reqwest::StatusCode::from_u16(code).is_ok()
}

/// Calls `reqwest::StatusCode::is_success`, which holds of the codes from
/// 200 to 299.
#[verifier::external_body]
fn status_success(code: u16) -> (success: bool)
    requires
        100 <= code <= 999,
    ensures
        success == (200 <= code <= 299),
{
    match reqwest::StatusCode::from_u16(code) {
        Ok(status) => status.is_success(),
        Err(_) => false,
    }
}

/// Formats a `reqwest::StatusCode` with its `Display` impl, which writes
/// the number in decimal, a space and a reason phrase; the whole is named
/// `status_text`.
#[verifier::external_body]
fn status_line(code: u16) -> (line: String)
    requires
        100 <= code <= 999,
    ensures
        line@ == status_text(code),
        status_prefix(code).is_prefix_of(line@),
{
    match reqwest::StatusCode::from_u16(code) {
        Ok(status) => status.to_string(),
        Err(_) => String::new(),
    }
}

/// A status code that an HTTP response can carry: a number from 100 to 999.
#[derive(Clone, Copy, Debug, PartialEq, Eq)]
pub struct HttpStatus {
    code: u16,
}

impl View for HttpStatus {
    type V = u16;

    closed spec fn view(&self) -> u16 {
        self.code
    }
}

impl HttpStatus {
    #[verifier::type_invariant]
    spec fn in_range(self) -> bool {
        100 <= self.code <= 999
    }

    /// Accepts `code` if it lies between 100 and 999.
    pub fn new(code: u16) -> (status: Option<HttpStatus>)
        ensures
            100 <= code <= 999 ==> status is Some && status.unwrap()@ == code,
            !(100 <= code <= 999) ==> status is None,
    {
        if status_accepted(code) {
            Some(HttpStatus { code })
        } else {
            None
        }
    }

    /// The number of the status.
    pub fn code(&self) -> (code: u16)
        ensures
            code == self@,
            100 <= code <= 999,
    {
        proof {
            use_type_invariant(self);
        }
        self.code
    }

    /// Whether the status reports success: a code from 200 to 299.
    pub fn is_success(&self) -> (success: bool)
        ensures
            success == (200 <= self@ <= 299),
    {
        proof {
            use_type_invariant(self);
        }
        status_success(self.code)
    }

    /// The status as text: its number and reason phrase.
    pub fn line(&self) -> (line: String)
        ensures
            line@ == status_text(self@),
            status_prefix(self@).is_prefix_of(line@),
    {
        proof {
            use_type_invariant(self);
        }
        status_line(self.code)
    }
}

} // verus!

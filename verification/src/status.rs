//! HTTP status codes as the release API answers with them.

use crate::text::{decimal, push_decimal};
use vstd::prelude::*;

verus! {

/// The reason phrase that `http` knows for a status code, as
/// `StatusCode::canonical_reason` gives it; nothing for a code without a
/// phrase, and nothing for a number that is no status code (below 100 or
/// above 999).
pub uninterp spec fn canonical_reason(code: u16) -> Option<Seq<char>>;

/// Whether a status code lies in the success class, 200 to 299.
pub open spec fn is_success(code: u16) -> bool {
    200 <= code <= 299
}

/// The reason phrase of a status code, or a placeholder where it has none.
pub open spec fn reason_or_unknown(code: u16) -> Seq<char> {
    match canonical_reason(code) {
        Some(phrase) => phrase,
        None => "<unknown status code>"@,
    }
}

/// A status code as it is shown to people: the number, a space, the reason
/// phrase.
pub open spec fn status_line(code: u16) -> Seq<char> {
    decimal(code as nat) + " "@ + reason_or_unknown(code)
}

/// Whether a status code lies in the success class, 200 to 299.
pub fn status_is_success(code: u16) -> (ok: bool)
    ensures
        ok == is_success(code),
{
    200 <= code && code <= 299
}

/// Appends the status code as it is shown to people to `out`.
pub fn push_status(out: &mut String, code: u16)
    ensures
        final(out)@ == old(out)@ + status_line(code),
{
    push_decimal(out, code as u64);
    out.append(" ");
    match status_reason(code) {
        Some(phrase) => out.append(phrase),
        None => out.append("<unknown status code>"),
    }
}

/// Looks the reason phrase of a status code up: `StatusCode::from_u16`, then
/// `StatusCode::canonical_reason`, of the `http` crate as `reqwest` hands it
/// on. The contract gives the outcome the name [`canonical_reason`] and
/// claims nothing else of it.
#[verifier::external_body]
fn status_reason(code: u16) -> (reason: Option<&'static str>)
    ensures
        (match reason {
            Some(phrase) => canonical_reason(code) == Some(phrase@),
            None => canonical_reason(code) is None,
        }),
{
    match reqwest::StatusCode::from_u16(code) {
        Ok(status) => status.canonical_reason(),
        Err(_) => None,
    }
}

} // verus!

use vstd::prelude::*;

use crate::request::DispatchError;
use crate::request::Method;

verus! {

/// A display-only projection of a received response: the numeric status, its
/// reason text, and the full body read as text.
#[derive(Debug, Clone, PartialEq, Eq)]
pub struct ResponseSummary {
    pub status_code: u16,
    pub status_text: String,
    pub body_text: String,
}

impl ResponseSummary {
    /// The constant `Accept` line echoed in the output, unrelated to any
    /// header actually sent.
    pub fn accept_header_echo(&self) -> (r: &'static str)
        ensures
            r@ == "*/*"@,
    {
        "*/*"
    }
}

/// How reading the response body ended: the complete text, or an interrupted
/// transfer whose partial body is discarded.
#[derive(Debug, Clone, PartialEq, Eq)]
pub enum BodyOutcome {
    Complete { text: String },
    Interrupted,
}

/// What the transport reported for the one request of an invocation: a
/// response with its status and body outcome, or a delivery failure with its
/// cause.
#[derive(Debug, Clone, PartialEq, Eq)]
pub enum TransportOutcome {
    Response { status_code: u16, status_text: String, body: BodyOutcome },
    Failure { cause: String },
}

/// Turns what the transport reported into the summary to print or the error
/// to surface, for every possible outcome.
///
/// A response with a fully read body becomes a `ResponseSummary`; a response
/// whose body read was interrupted becomes `DispatchError::BodyReadFailure`
/// and the partial body is discarded; a delivery failure becomes
/// `DispatchError::TransportFailure` carrying the cause.
pub fn consume_outcome(outcome: TransportOutcome) -> (r: Result<ResponseSummary, DispatchError>)
    ensures
        r is Ok <==> (outcome matches TransportOutcome::Response { body, .. }
            && body is Complete),
        outcome matches TransportOutcome::Response {
            status_code,
            status_text,
            body: BodyOutcome::Complete { text },
        } ==> (r matches Ok(s) && s.status_code == status_code && s.status_text == status_text
            && s.body_text == text),
        outcome matches TransportOutcome::Response { body: BodyOutcome::Interrupted, .. } ==> r
            matches Err(e) && e == DispatchError::BodyReadFailure,
        outcome matches TransportOutcome::Failure { cause } ==> r matches Err(e) && e
            == (DispatchError::TransportFailure { cause }),
{
    match outcome {
        TransportOutcome::Response { status_code, status_text, body } => match body {
            BodyOutcome::Complete { text } => Ok(
                ResponseSummary { status_code, status_text, body_text: text },
            ),
            BodyOutcome::Interrupted => Err(DispatchError::BodyReadFailure),
        },
        TransportOutcome::Failure { cause } => Err(DispatchError::TransportFailure { cause }),
    }
}

/// The decimal digit character for `d` in 0..10.
pub open spec fn dec_digit(d: nat) -> char {
    if d == 0 {
        '0'
    } else if d == 1 {
        '1'
    } else if d == 2 {
        '2'
    } else if d == 3 {
        '3'
    } else if d == 4 {
        '4'
    } else if d == 5 {
        '5'
    } else if d == 6 {
        '6'
    } else if d == 7 {
        '7'
    } else if d == 8 {
        '8'
    } else {
        '9'
    }
}

/// The decimal rendering of `n`, without leading zeros (a single `0` for 0).
pub open spec fn dec_str(n: nat) -> Seq<char>
    decreases n,
{
    if n < 10 {
        seq![dec_digit(n)]
    } else {
        dec_str(n / 10).push(dec_digit(n % 10))
    }
}

fn digit_str(d: u16) -> (r: &'static str)
    requires
        d < 10,
    ensures
        r@ == seq![dec_digit(d as nat)],
{
    let r = match d {
        0 => "0",
        1 => "1",
        2 => "2",
        3 => "3",
        4 => "4",
        5 => "5",
        6 => "6",
        7 => "7",
        8 => "8",
        _ => "9",
    };
    proof {
        reveal_strlit("0");
        reveal_strlit("1");
        reveal_strlit("2");
        reveal_strlit("3");
        reveal_strlit("4");
        reveal_strlit("5");
        reveal_strlit("6");
        reveal_strlit("7");
        reveal_strlit("8");
        reveal_strlit("9");
        assert(r@ =~= seq![dec_digit(d as nat)]);
    }
    r
}

fn push_decimal(n: u16, out: &mut String)
    ensures
        final(out)@ == old(out)@ + dec_str(n as nat),
    decreases n,
{
    if n >= 10 {
        push_decimal(n / 10, out);
    }
    out.append(digit_str(n % 10));
    proof {
        assert(final(out)@ =~= old(out)@ + dec_str(n as nat));
    }
}

/// The decimal text of a status code, e.g. 404 becomes "404".
pub fn status_code_string(code: u16) -> (r: String)
    ensures
        r@ == dec_str(code as nat),
{
    let mut out = String::new();
    push_decimal(code, &mut out);
    proof {
        assert(out@ =~= dec_str(code as nat));
    }
    out
}

/// The fixed output for a dispatched request: the method label, the literal
/// protocol tag, the numeric status, the constant `Accept` echo, and the body
/// text verbatim.
pub open spec fn spec_rendered(method: Method, summary: ResponseSummary) -> Seq<char> {
    method.spec_label() + " - HTTP/1.1 - "@ + dec_str(summary.status_code as nat)
        + "\nAccept: */*\nData:\n"@ + summary.body_text@
}

/// Renders the summary of a response in the fixed output format:
///
/// the method label, ` - HTTP/1.1 - `, and the numeric status on the first
/// line; `Accept: */*` on the second; `Data:` on the third; then the body
/// text verbatim.
pub fn render_response(method: Method, summary: &ResponseSummary) -> (r: String)
    ensures
        r@ == spec_rendered(method, *summary),
{
    let mut out = String::from_str(method.label());
    out.append(" - HTTP/1.1 - ");
    push_decimal(summary.status_code, &mut out);
    out.append("\nAccept: */*\nData:\n");
    out.append(summary.body_text.as_str());
    proof {
        assert(out@ =~= spec_rendered(method, *summary));
    }
    out
}

} // verus!

//! The outcome of one dispatch and its rendering into the three display
//! strings: status line, header block, body block.

use vstd::prelude::*;
use crate::strutil::{entries_view, join_pairs, joined_pairs};

verus! {

/// What one dispatch produced: a response summary, or a failure description
/// when the transport could not complete the exchange.
pub enum ResponseOutcome {
    Success { status_code: u16, status_reason: String, headers: Vec<(String, String)>, body: String },
    Failure { description: String },
}

/// The canonical reason phrase of a status code, where one is defined.
pub uninterp spec fn reason_of(code: u16) -> Option<Seq<char>>;

/// Relies on reqwest::StatusCode::from_u16 and canonical_reason: `from_u16`
/// accepts exactly the codes 100 through 999, and `canonical_reason` looks
/// the code up in a fixed table, so the result depends on the code alone.
#[verifier::external_body]
fn canonical_reason(code: u16) -> (r: Option<String>)
    ensures
        r is Some <==> reason_of(code) is Some,
        r matches Some(s) ==> reason_of(code) == Some(s@),
{
    match reqwest::StatusCode::from_u16(code) {
        Ok(status) => match status.canonical_reason() {
            Some(text) => Some(text.to_owned()),
            None => None,
        },
        Err(_) => None,
    }
}

/// The reason text shown for a status code: the canonical reason phrase, or
/// empty where none is defined.
pub open spec fn reason_text(code: u16) -> Seq<char> {
    match reason_of(code) {
        Some(s) => s,
        None => Seq::empty(),
    }
}

/// Look up the reason phrase shown beside a status code, empty where the
/// code has none.
pub fn status_reason(code: u16) -> (r: String)
    ensures
        r@ == reason_text(code),
{
    match canonical_reason(code) {
        Some(s) => s,
        None => String::new(),
    }
}

/// A successful outcome: the status code with its canonical reason, the
/// response headers in transport order, and the body text.
pub fn success_outcome(status_code: u16, headers: Vec<(String, String)>, body: String) -> (r:
    ResponseOutcome)
    ensures
        r matches ResponseOutcome::Success {
            status_code: c,
            status_reason: s,
            headers: h,
            body: b,
        } && c == status_code && s@ == reason_text(status_code) && h == headers && b == body,
{
    let status_reason = status_reason(status_code);
    ResponseOutcome::Success { status_code, status_reason, headers, body }
}

/// The indented multi-line form of a text that parses as one JSON document,
/// nothing for a text that does not.
pub uninterp spec fn json_pretty_of(text: Seq<char>) -> Option<Seq<char>>;

/// Relies on serde_json::from_str::<Value> and serde_json::to_string_pretty:
/// whether a text parses as one JSON document, and the indented form of that
/// document, depend on the text alone (object members keep a fixed order in
/// this build of the crate).
#[verifier::external_body]
fn pretty_printed_json(text: &str) -> (r: Option<String>)
    ensures
        r is Some <==> json_pretty_of(text@) is Some,
        r matches Some(p) ==> json_pretty_of(text@) == Some(p@),
{
    match serde_json::from_str::<serde_json::Value>(text) {
        Ok(value) => match serde_json::to_string_pretty(&value) {
            Ok(pretty) => Some(pretty),
            Err(_) => None,
        },
        Err(_) => None,
    }
}

/// The body text as displayed: pretty-printed when it parses as JSON, the
/// raw text verbatim otherwise.
pub open spec fn body_display(text: Seq<char>) -> Seq<char> {
    match json_pretty_of(text) {
        Some(p) => p,
        None => text,
    }
}

/// Render the response body: the indented JSON form when the body parses as
/// JSON, the body unchanged otherwise.
pub fn format_body(body: String) -> (r: String)
    ensures
        r@ == body_display(body@),
{
    match pretty_printed_json(body.as_str()) {
        Some(p) => p,
        None => body,
    }
}

/// The digit character of one decimal digit.
pub open spec fn decimal_digit(d: nat) -> char {
    if d == 0 {
        '0'
    } else if d == 1 {
        '1'
    } else if d == 2 {
        '2'
    } else if d == 3 {
        '3'
    } else if d == 4 {
        '4'
    } else if d == 5 {
        '5'
    } else if d == 6 {
        '6'
    } else if d == 7 {
        '7'
    } else if d == 8 {
        '8'
    } else {
        '9'
    }
}

/// The decimal digits of `n`, most significant first, with no leading zero
/// except for `n == 0` itself.
pub open spec fn decimal_of(n: nat) -> Seq<char>
    decreases n,
{
    if n < 10 {
        seq![decimal_digit(n)]
    } else {
        decimal_of(n / 10) + seq![decimal_digit(n % 10)]
    }
}

/// The one-character text of a decimal digit.
fn digit_str(d: u16) -> (r: &'static str)
    requires
        d < 10,
    ensures
        r@ == seq![decimal_digit(d as nat)],
{
    let r: &'static str = if d == 0 {
        "0"
    } else if d == 1 {
        "1"
    } else if d == 2 {
        "2"
    } else if d == 3 {
        "3"
    } else if d == 4 {
        "4"
    } else if d == 5 {
        "5"
    } else if d == 6 {
        "6"
    } else if d == 7 {
        "7"
    } else if d == 8 {
        "8"
    } else {
        "9"
    };
    proof {
        reveal_strlit("0");
        reveal_strlit("1");
        reveal_strlit("2");
        reveal_strlit("3");
        reveal_strlit("4");
        reveal_strlit("5");
        reveal_strlit("6");
        reveal_strlit("7");
        reveal_strlit("8");
        reveal_strlit("9");
        assert(r@ =~= seq![decimal_digit(d as nat)]);
    }
    r
}

/// Render `n` in decimal.
pub fn decimal_string(n: u16) -> (r: String)
    ensures
        r@ == decimal_of(n as nat),
    decreases n,
{
    if n < 10 {
        digit_str(n).to_owned()
    } else {
        let mut s = decimal_string(n / 10);
        s.append(digit_str(n % 10));
        s
    }
}

/// The status line shown for a successful response.
pub open spec fn status_line_of(code: u16, reason: Seq<char>) -> Seq<char> {
    "Status: "@ + decimal_of(code as nat) + " "@ + reason
}

/// The header block shown for a successful response: each header as
/// `key: value`, one per line, in transport order.
pub open spec fn headers_block_of(hs: Seq<(Seq<char>, Seq<char>)>) -> Seq<char> {
    joined_pairs(hs, ": "@, "\n"@)
}

/// The body shown for a failed dispatch.
pub open spec fn failure_body_of(description: Seq<char>) -> Seq<char> {
    "Error: "@ + description
}

/// The three display strings one dispatch updates. A failure leaves the
/// header surface untouched, so its text is absent rather than empty.
pub struct RenderedResponse {
    pub status_line: String,
    pub headers_text: Option<String>,
    pub body_text: String,
}

/// Render one outcome for display. A successful response shows
/// `Status: {code} {reason}`, the headers one per line as `key: value`, and
/// the body pretty-printed when it parses as JSON. A failure shows `Error`
/// as the status line, leaves the header surface alone, and shows
/// `Error: {description}` as the body.
pub fn render_outcome(outcome: ResponseOutcome) -> (r: RenderedResponse)
    ensures
        outcome matches ResponseOutcome::Success { status_code, status_reason, headers, body }
            ==> {
            &&& r.status_line@ == status_line_of(status_code, status_reason@)
            &&& r.headers_text matches Some(h) && h@ == headers_block_of(entries_view(headers@))
            &&& r.body_text@ == body_display(body@)
        },
        outcome matches ResponseOutcome::Failure { description } ==> {
            &&& r.status_line@ == "Error"@
            &&& r.headers_text is None
            &&& r.body_text@ == failure_body_of(description@)
        },
{
    match outcome {
        ResponseOutcome::Success { status_code, status_reason, headers, body } => {
            let mut line = String::new();
            line.append("Status: ");
            let code_text = decimal_string(status_code);
            line.append(code_text.as_str());
            line.append(" ");
            line.append(status_reason.as_str());
            proof {
                assert(line@ =~= status_line_of(status_code, status_reason@));
            }
            let headers_text = join_pairs(&headers, ": ", "\n");
            let body_text = format_body(body);
            RenderedResponse { status_line: line, headers_text: Some(headers_text), body_text }
        },
        ResponseOutcome::Failure { description } => {
            let mut body = String::new();
            body.append("Error: ");
            body.append(description.as_str());
            RenderedResponse {
                status_line: "Error".to_owned(),
                headers_text: None,
                body_text: body,
            }
        },
    }
}

} // verus!

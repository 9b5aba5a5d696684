//! Interpretation of the HTTP responses of the BigQuery REST API.

use vstd::prelude::*;

use crate::error::{BQError, NestedResponseError, ResponseError};
use crate::outside::{canonical_reason, canonical_reason_phrase};

verus! {

/// The character of a decimal digit `d < 10`.
pub open spec fn digit_char(d: nat) -> char {
    (48 + d) as char
}

/// The decimal notation of `n`, without leading zeros.
pub open spec fn decimal(n: nat) -> Seq<char>
    decreases n,
{
    if n < 10 {
        seq![digit_char(n)]
    } else {
        decimal(n / 10).push(digit_char(n % 10))
    }
}

/// The number that a string of decimal digits denotes.
pub open spec fn decimal_value(s: Seq<char>) -> int
    decreases s.len(),
{
    if s.len() == 0 {
        0
    } else {
        decimal_value(s.drop_last()) * 10 + (s.last() as int - 48)
    }
}

/// Decimal notation is faithful: its characters are digits, it has no
/// leading zero, and the number it denotes is the number written.
pub proof fn lemma_decimal_roundtrip(n: nat)
    ensures
        decimal(n).len() >= 1,
        forall|i: int| 0 <= i < decimal(n).len() ==> '0' <= #[trigger] decimal(n)[i] <= '9',
        n > 0 ==> decimal(n)[0] != '0',
        decimal_value(decimal(n)) == n,
    decreases n,
{
    let c = digit_char(n % 10);
    assert(c as int == 48 + n % 10);
    if n >= 10 {
        lemma_decimal_roundtrip(n / 10);
        let d = decimal(n);
        assert(d.drop_last() =~= decimal(n / 10));
        assert(d.last() == c);
        assert(decimal_value(d) == decimal_value(decimal(n / 10)) * 10 + (c as int - 48));
        assert((n / 10) * 10 + n % 10 == n) by (nonlinear_arith);
        assert forall|i: int| 0 <= i < d.len() implies '0' <= #[trigger] d[i] <= '9' by {
            if i < d.len() - 1 {
                assert(d[i] == decimal(n / 10)[i]);
            }
        }
    } else {
        assert(decimal(n).drop_last() =~= Seq::<char>::empty());
        assert(n % 10 == n);
        assert(decimal_value(decimal(n)) == decimal_value(Seq::<char>::empty()) * 10 + (c as int - 48));
    }
}

/// Returns the one-character string of the digit `d`.
fn digit_str(d: u16) -> (s: &'static str)
    requires
        d < 10,
    ensures
        s@ == seq![digit_char(d as nat)],
{
    proof {
        reveal_strlit("0");
        reveal_strlit("1");
        reveal_strlit("2");
        reveal_strlit("3");
        reveal_strlit("4");
        reveal_strlit("5");
        reveal_strlit("6");
        reveal_strlit("7");
        reveal_strlit("8");
        reveal_strlit("9");
    }
    match d {
        0 => "0",
        1 => "1",
        2 => "2",
        3 => "3",
        4 => "4",
        5 => "5",
        6 => "6",
        7 => "7",
        8 => "8",
        _ => "9",
    }
}

/// Writes `n` in decimal notation.
pub fn decimal_string(n: u16) -> (s: String)
    ensures
        s@ == decimal(n as nat),
    decreases n,
{
    if n < 10 {
        digit_str(n).to_owned()
    } else {
        let mut s = decimal_string(n / 10);
        s.append(digit_str(n % 10));
        s
    }
}

/// Whether an HTTP status code reports success (200 to 299).
pub open spec fn is_success_code(code: u16) -> bool {
    200 <= code < 300
}

/// Whether an HTTP status code reports success (200 to 299).
pub fn is_success(code: u16) -> (r: bool)
    ensures
        r == is_success_code(code),
        r == (200 <= code && code <= 299),
{
    200 <= code && code < 300
}

/// The view of an optional string.
pub open spec fn opt_view(s: Option<String>) -> Option<Seq<char>> {
    match s {
        Some(t) => Some(t@),
        None => None,
    }
}

/// The message of an error synthesised for a response whose body holds no
/// structured error: `HTTP <code> <reason> (empty response body)` for an
/// empty body, `HTTP <code> <reason>: <body>` otherwise. A code without a
/// reason phrase has an empty reason.
pub open spec fn synthesized_message(code: u16, reason: Option<Seq<char>>, body: Seq<char>) -> Seq<
    char,
> {
    "HTTP "@ + decimal(code as nat) + " "@ + reason.unwrap_or(Seq::empty()) + if body.len() == 0 {
        " (empty response body)"@
    } else {
        ": "@ + body
    }
}

/// The status line of a code: `<code> <reason>`, or
/// `<code> <unknown status code>` for a code without a reason phrase.
pub open spec fn status_line(code: u16, reason: Option<Seq<char>>) -> Seq<char> {
    decimal(code as nat) + " "@ + match reason {
        Some(r) => r,
        None => "<unknown status code>"@,
    }
}

/// `e` is the error synthesised for a response of status `code`, whose
/// status has the reason phrase `reason`, and whose body is `body`.
pub open spec fn is_synthesized_error(
    e: ResponseError,
    code: u16,
    reason: Option<Seq<char>>,
    body: Seq<char>,
) -> bool {
    &&& e.error.code == code as i64
    &&& e.error.errors@.len() == 0
    &&& e.error.keys_distinct()
    &&& e.error.message@ == synthesized_message(code, reason, body)
    &&& e.error.status@ == status_line(code, reason)
}

/// An error synthesised for a refused request reports the status: its code
/// is the status code, its message opens with `HTTP <code>` and its status
/// line with `<code>`, where `<code>` is the decimal notation of the status;
/// the message ends with the raw body, or says that the body was empty.
pub proof fn lemma_synthesized_error_reports_status(
    e: ResponseError,
    code: u16,
    reason: Option<Seq<char>>,
    body: Seq<char>,
)
    requires
        is_synthesized_error(e, code, reason, body),
    ensures
        e.error.code == code as i64,
        e.error.errors@.len() == 0,
        ({
            let head = "HTTP "@ + decimal(code as nat);
            &&& head.len() <= e.error.message@.len()
            &&& e.error.message@.subrange(0, head.len() as int) == head
        }),
        decimal(code as nat).len() <= e.error.status@.len(),
        e.error.status@.subrange(0, decimal(code as nat).len() as int) == decimal(code as nat),
        decimal_value(decimal(code as nat)) == code,
        body.len() > 0 ==> {
            let m = e.error.message@;
            &&& body.len() <= m.len()
            &&& m.subrange(m.len() - body.len(), m.len() as int) == body
        },
        body.len() == 0 ==> {
            let m = e.error.message@;
            let tail = " (empty response body)"@;
            &&& tail.len() <= m.len()
            &&& m.subrange(m.len() - tail.len(), m.len() as int) == tail
        },
{
    lemma_decimal_roundtrip(code as nat);
    let head = "HTTP "@ + decimal(code as nat);
    let m = e.error.message@;
    let rest = " "@ + reason.unwrap_or(Seq::empty());
    let tail = if body.len() == 0 {
        " (empty response body)"@
    } else {
        ": "@ + body
    };
    assert(m =~= head + rest + tail);
    assert(m.subrange(0, head.len() as int) =~= head);
    assert(m.subrange(m.len() - tail.len(), m.len() as int) =~= tail);
    if body.len() > 0 {
        assert(m.subrange(m.len() - body.len(), m.len() as int) =~= body);
    }
    let st = e.error.status@;
    assert(st.subrange(0, decimal(code as nat).len() as int) =~= decimal(code as nat));
}

/// A status reports success exactly when it lies in 200..=299.
pub proof fn lemma_success_is_2xx(code: u16)
    ensures
        is_success_code(code) <==> 200 <= code <= 299,
        is_success_code(200) && is_success_code(299),
        !is_success_code(199) && !is_success_code(300),
{
}

/// The message of a synthesised error is made of `HTTP `, the decimal code,
/// a space, the reason phrase given for that code (nothing when there is
/// none), and then ` (empty response body)` or `: ` and the raw body; its
/// status line is the decimal code, a space and the reason phrase (or
/// `<unknown status code>`). In particular the text between `HTTP <code> `
/// and the tail is exactly the phrase of the status itself.
pub proof fn lemma_synthesized_error_layout(
    e: ResponseError,
    code: u16,
    reason: Option<Seq<char>>,
    body: Seq<char>,
)
    requires
        is_synthesized_error(e, code, reason, body),
    ensures
        e.error.message@ == "HTTP "@ + decimal(code as nat) + " "@ + reason.unwrap_or(Seq::empty())
            + (if body.len() == 0 {
            " (empty response body)"@
        } else {
            ": "@ + body
        }),
        ({
            let head = "HTTP "@ + decimal(code as nat) + " "@;
            let phrase = reason.unwrap_or(Seq::empty());
            &&& head.len() + phrase.len() <= e.error.message@.len()
            &&& e.error.message@.subrange(head.len() as int, (head.len() + phrase.len()) as int) == phrase
        }),
        e.error.status@ == decimal(code as nat) + " "@ + match reason {
            Some(r) => r,
            None => "<unknown status code>"@,
        },
{
    let head = "HTTP "@ + decimal(code as nat) + " "@;
    let phrase = reason.unwrap_or(Seq::empty());
    let tail = if body.len() == 0 {
        " (empty response body)"@
    } else {
        ": "@ + body
    };
    let m = e.error.message@;
    assert(m =~= head + phrase + tail);
    assert(m.subrange(head.len() as int, (head.len() + phrase.len()) as int) =~= phrase);
}

/// Builds the error reported for a response of status `code` whose body,
/// `body`, holds no structured error; `reason` is the reason phrase of the
/// status, if it has one.
pub fn synthesize_response_error(code: u16, reason: Option<String>, body: &str) -> (e:
    ResponseError)
    ensures
        is_synthesized_error(e, code, opt_view(reason), body@),
        e.error.code == code as i64,
        e.error.errors@.len() == 0,
        e.error.message@ == "HTTP "@ + decimal(code as nat) + " "@ + match reason {
            Some(r) => r@,
            None => Seq::<char>::empty(),
        } + (if body@.len() == 0 {
                " (empty response body)"@
            } else {
                ": "@ + body@
            }),
        e.error.status@ == decimal(code as nat) + " "@ + match reason {
            Some(r) => r@,
            None => "<unknown status code>"@,
        },
{
    let digits = decimal_string(code);
    let mut message = "HTTP ".to_owned();
    message.append(digits.as_str());
    message.append(" ");
    let mut status = digits;
    status.append(" ");
    match &reason {
        Some(r) => {
            message.append(r.as_str());
            status.append(r.as_str());
        },
        None => {
            status.append("<unknown status code>");
        },
    }
    if body.is_empty() {
        message.append(" (empty response body)");
    } else {
        message.append(": ");
        message.append(body);
    }
    assert(message@ =~= synthesized_message(code, opt_view(reason), body@));
    assert(status@ =~= status_line(code, opt_view(reason)));
    ResponseError {
        error: NestedResponseError { code: code as i64, errors: Vec::new(), message, status },
    }
}

/// Interprets a response of status `status` and body `body`.
/// `structured_error` is the error object that the body holds when it parses
/// as one; it is looked at only for a status that is not a success.
///
/// A success hands back the body, which is the payload to deserialise. Any
/// other status is an error: the structured one where the body held it, else
/// one synthesised from the status and the raw body.
pub fn process_response<'a>(
    status: u16,
    body: &'a str,
    structured_error: Option<ResponseError>,
) -> (r: Result<&'a str, BQError>)
    ensures
        is_success_code(status) ==> r == Ok::<&'a str, BQError>(body),
        200 <= status <= 299 ==> r == Ok::<&'a str, BQError>(body),
        !(200 <= status <= 299) ==> r is Err,
        !(200 <= status <= 299) && structured_error is None ==> (r matches Err(
            BQError::ResponseError { error },
        ) && {
            &&& error.error.code == status as i64
            &&& error.error.errors@.len() == 0
            &&& error.error.message@ == "HTTP "@ + decimal(status as nat) + " "@
                + canonical_reason_phrase(status).unwrap_or(Seq::empty()) + (if body@.len() == 0 {
                    " (empty response body)"@
                } else {
                    ": "@ + body@
                })
            &&& error.error.status@ == decimal(status as nat) + " "@ + match canonical_reason_phrase(
                status,
            ) {
                Some(r) => r,
                None => "<unknown status code>"@,
            }
        }),
        !(200 <= status <= 299) && structured_error is Some ==> r == Err::<&'a str, BQError>(
            BQError::ResponseError { error: structured_error->0 },
        ),
        !is_success_code(status) ==> match structured_error {
            Some(e) => r == Err::<&'a str, BQError>(BQError::ResponseError { error: e }),
            None => r matches Err(BQError::ResponseError { error }) && is_synthesized_error(
                error,
                status,
                canonical_reason_phrase(status),
                body@,
            ),
        },
{
    if is_success(status) {
        Ok(body)
    } else {
        match structured_error {
            Some(error) => Err(BQError::ResponseError { error }),
            None => {
                let reason = canonical_reason(status);
                Err(BQError::ResponseError { error: synthesize_response_error(status, reason, body) })
            },
        }
    }
}

} // verus!

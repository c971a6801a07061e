use crate::util::error::ExchangeError;
use crate::util::text::{debug_string, debug_text, i64_to_decimal, signed_decimal};
use vstd::prelude::*;

verus! {

/// The error part of an XT answer. `args` is the debug text of the JSON
/// value the exchange sent with it.
#[derive(Debug, Clone)]
pub struct Error {
    /// Code.
    pub code: String,
    /// Message.
    pub msg: Option<String>,
    /// Data.
    pub args: String,
}

/// An HTTP API answer of XT (with a return code and an error).
#[derive(Debug)]
pub struct FullHttpResponse<T> {
    /// Code.
    pub return_code: i64,
    /// Error.
    pub error: Option<Error>,
    /// Data.
    pub result: Option<T>,
}

/// The texts of an optional string.
pub open spec fn opt_view(s: Option<String>) -> Option<Seq<char>> {
    match s {
        Some(s) => Some(s@),
        None => None,
    }
}

/// What `Debug` writes for an optional text: `None`, or the debug text
/// of the text inside `Some(..)`.
pub open spec fn opt_debug(m: Option<Seq<char>>) -> Seq<char> {
    match m {
        Some(t) => "Some("@ + debug_text(t) + ")"@,
        None => "None"@,
    }
}

/// The message of a refused call: the return code in brackets, a colon,
/// then the error as its debug form prints it.
pub open spec fn api_error_text(code: i64, err_code: Seq<char>, msg: Option<Seq<char>>, args: Seq<char>) -> Seq<char> {
    "["@ + signed_decimal(code as int) + "]: Error { code: "@ + debug_text(err_code) + ", msg: "@ + opt_debug(msg)
        + ", args: "@ + args + " }"@
}

/// Only the return codes 0 and 200 mean success; the message of a refused
/// call starts with the return code in brackets, then `]: Error { code: `.
pub proof fn xt_answer_law(code: i64, err_code: Seq<char>, msg: Option<Seq<char>>, args: Seq<char>)
    ensures
        success_code(code) <==> (code == 0 || code == 200),
        ({
            let t = api_error_text(code, err_code, msg, args);
            let c = signed_decimal(code as int);
            let n = c.len() as int;
            &&& t[0] == '['
            &&& t.subrange(1, 1 + n) == c
            &&& t.subrange(1 + n, 18 + n) == "]: Error { code: "@
        }),
{
    reveal_strlit("[");
    reveal_strlit("]: Error { code: ");
    let t = api_error_text(code, err_code, msg, args);
    let c = signed_decimal(code as int);
    let n = c.len() as int;
    assert(t.subrange(1, 1 + n) =~= c);
    assert(t.subrange(1 + n, 18 + n) =~= "]: Error { code: "@);
}

/// Writes the message of a refused call with the return code `code`.
fn format_api_error(code: i64, error: &Error) -> (s: String)
    ensures
        s@ == api_error_text(code, error.code@, opt_view(error.msg), error.args@),
{
    let mut s = String::from_str("[");
    s.append(i64_to_decimal(code).as_str());
    s.append("]: Error { code: ");
    s.append(debug_string(error.code.as_str()).as_str());
    s.append(", msg: ");
    match &error.msg {
        Some(m) => {
            s.append("Some(");
            s.append(debug_string(m.as_str()).as_str());
            s.append(")");
        },
        None => {
            s.append("None");
        },
    }
    s.append(", args: ");
    s.append(error.args.as_str());
    s.append(" }");
    s
}

/// The error reported when an answer carries none: empty code, no
/// message, a null value.
pub open spec fn default_error_parts() -> (Seq<char>, Option<Seq<char>>, Seq<char>) {
    (Seq::<char>::empty(), None, "Null"@)
}

/// Whether a return code means success.
pub open spec fn success_code(code: i64) -> bool {
    code == 0 || code == 200
}

impl<T> FullHttpResponse<T> {
    /// The result of an answer: its data when the return code is 0 or 200
    /// and data came; an unexpected-response error when the code is good
    /// but no data came; an API error with the code and the error otherwise.
    pub fn into_result(self) -> (r: Result<T, ExchangeError>)
        ensures
            success_code(self.return_code) && self.result is Some ==> r == Ok::<T, ExchangeError>(self.result->0),
            success_code(self.return_code) && self.result is None ==> (r matches Err(
                ExchangeError::UnexpectedResponseType(m),
            ) && m@ == "None"@),
            !success_code(self.return_code) ==> (r matches Err(ExchangeError::Api(m)) && m@ == match self.error {
                Some(e) => api_error_text(self.return_code, e.code@, opt_view(e.msg), e.args@),
                None => api_error_text(
                    self.return_code,
                    default_error_parts().0,
                    default_error_parts().1,
                    default_error_parts().2,
                ),
            }),
    {
        if self.return_code == 0 || self.return_code == 200 {
            match self.result {
                Some(t) => Ok(t),
                None => Err(ExchangeError::UnexpectedResponseType(String::from_str("None"))),
            }
        } else {
            let error = match self.error {
                Some(e) => e,
                None => Error { code: String::new(), msg: None, args: String::from_str("Null") },
            };
            Err(ExchangeError::Api(format_api_error(self.return_code, &error)))
        }
    }
}

} // verus!

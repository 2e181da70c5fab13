//! The error taxonomy of the bridge and the translation of native status codes.

use vstd::prelude::*;
use vstd::string::StringExecFns;
use crossbeam_channel::{RecvError, SendError};
use std::string::FromUtf8Error;
use crate::handler::LambdaContext;
use crate::request::GGRequestResponse;

verus! {

/// A status code as returned by the native runtime.
pub type gg_error = u32;

pub const GGE_SUCCESS: gg_error = 0;
pub const GGE_OUT_OF_MEMORY: gg_error = 1;
pub const GGE_INVALID_PARAMETER: gg_error = 2;
pub const GGE_INVALID_STATE: gg_error = 3;
pub const GGE_INTERNAL_FAILURE: gg_error = 4;
pub const GGE_TERMINATE: gg_error = 5;

/// Every failure that the bridge can produce.
#[derive(Debug)]
pub enum GGError {
    /// The native runtime ran out of memory.
    OutOfMemory,
    /// The native runtime was handed an invalid parameter.
    InvalidParameter,
    /// The native runtime is in a state that does not allow the call.
    InvalidState,
    /// The native runtime failed internally.
    InternalFailure,
    /// The native runtime was asked to terminate.
    Terminate,
    /// A text meant for the native runtime holds a nul byte: the position of the
    /// first one, and the bytes of the text, as std's `NulError` holds them.
    NulError(usize, Vec<u8>),
    /// Bytes from the native runtime or a response are not valid UTF-8.
    InvalidString(FromUtf8Error),
    /// A status code that the native runtime does not define.
    Unknown(u32),
    /// The invocation could not be queued for the handler.
    HandlerChannelSendError(SendError<LambdaContext>),
    /// No invocation could be taken from the handler's queue.
    HandlerChannelRecvError(RecvError),
    /// An AWS response refused access.
    Unauthorized(String),
    /// The JSON content of a response could not be read.
    JsonError(serde_json::Error),
    /// A response reported an error other than a missing item, which callers
    /// treat as an absent value instead.
    ErrorResponse(GGRequestResponse),
}

/// serde_json's error, carried as an opaque value.
#[verifier::external_type_specification]
#[verifier::external_body]
pub struct ExJsonError(serde_json::Error);

/// std's error for bytes that are not UTF-8, carried as an opaque value.
#[verifier::external_type_specification]
#[verifier::external_body]
pub struct ExFromUtf8Error(FromUtf8Error);

/// The error that a status code stands for; `None` for success.
pub open spec fn code_error(code: u32) -> Option<GGError> {
    if code == GGE_SUCCESS {
        None
    } else if code == GGE_OUT_OF_MEMORY {
        Some(GGError::OutOfMemory)
    } else if code == GGE_INVALID_PARAMETER {
        Some(GGError::InvalidParameter)
    } else if code == GGE_INVALID_STATE {
        Some(GGError::InvalidState)
    } else if code == GGE_INTERNAL_FAILURE {
        Some(GGError::InternalFailure)
    } else if code == GGE_TERMINATE {
        Some(GGError::Terminate)
    } else {
        Some(GGError::Unknown(code))
    }
}

impl GGError {
    /// Turns a native status code into a result: success is `Ok(())`, any other
    /// code the error it stands for.
    pub fn from_code(err_code: gg_error) -> (r: Result<(), GGError>)
        ensures
            r == (match code_error(err_code) {
                None => Ok(()),
                Some(e) => Err(e),
            }),
    {
        match err_code {
            GGE_SUCCESS => Ok(()),
            GGE_OUT_OF_MEMORY => Err(GGError::OutOfMemory),
            GGE_INVALID_PARAMETER => Err(GGError::InvalidParameter),
            GGE_INVALID_STATE => Err(GGError::InvalidState),
            GGE_INTERNAL_FAILURE => Err(GGError::InternalFailure),
            GGE_TERMINATE => Err(GGError::Terminate),
            _ => Err(GGError::Unknown(err_code)),
        }
    }
}

impl From<SendError<LambdaContext>> for GGError {
    fn from(e: SendError<LambdaContext>) -> Self {
        GGError::HandlerChannelSendError(e)
    }
}

impl vstd::std_specs::convert::FromSpecImpl<SendError<LambdaContext>> for GGError {
    open spec fn obeys_from_spec() -> bool {
        true
    }

    open spec fn from_spec(e: SendError<LambdaContext>) -> GGError {
        GGError::HandlerChannelSendError(e)
    }
}

impl From<RecvError> for GGError {
    fn from(e: RecvError) -> Self {
        GGError::HandlerChannelRecvError(e)
    }
}

impl vstd::std_specs::convert::FromSpecImpl<RecvError> for GGError {
    open spec fn obeys_from_spec() -> bool {
        true
    }

    open spec fn from_spec(e: RecvError) -> GGError {
        GGError::HandlerChannelRecvError(e)
    }
}

impl From<serde_json::Error> for GGError {
    fn from(e: serde_json::Error) -> Self {
        GGError::JsonError(e)
    }
}

impl vstd::std_specs::convert::FromSpecImpl<serde_json::Error> for GGError {
    open spec fn obeys_from_spec() -> bool {
        true
    }

    open spec fn from_spec(e: serde_json::Error) -> GGError {
        GGError::JsonError(e)
    }
}

impl From<FromUtf8Error> for GGError {
    fn from(e: FromUtf8Error) -> Self {
        GGError::InvalidString(e)
    }
}

impl vstd::std_specs::convert::FromSpecImpl<FromUtf8Error> for GGError {
    open spec fn obeys_from_spec() -> bool {
        true
    }

    open spec fn from_spec(e: FromUtf8Error) -> GGError {
        GGError::InvalidString(e)
    }
}

/// The outcome of an operation on a scoped request, once the request has been
/// closed where the operation failed.
pub struct Cleaned<T> {
    /// What the operation returned; on failure its error is the one reported.
    pub result: Result<T, GGError>,
    /// The failure of closing the request, to be surfaced beside the result.
    pub close_failure: Option<GGError>,
}

/// Closes the request by `close` when `result` is a failure, whether or not the
/// close succeeds, and keeps the operation's own error as the result.
///
/// Whenever an operation on a scoped request fails, closing the request is
/// attempted, once (`close` is `FnOnce`, and some status it returned is the one
/// recorded); the operation's error is what is reported, and a failed close is
/// surfaced beside it, never dropped. A successful operation leaves the request open.
pub fn try_clean<T, F: FnOnce() -> gg_error>(result: Result<T, GGError>, close: F) -> (r: Cleaned<T>)
    requires
        close.requires(()),
    ensures
        r.result == result,
        result is Ok ==> r.close_failure is None,
        result is Err ==> exists|status: gg_error|
            close.ensures((), status) && r.close_failure == code_error(status),
{
    match result {
        Ok(v) => Cleaned { result: Ok(v), close_failure: None },
        Err(e) => {
            let status = close();
            let close_failure = match GGError::from_code(status) {
                Ok(()) => None,
                Err(failure) => Some(failure),
            };
            Cleaned { result: Err(e), close_failure }
        },
    }
}

/// The decimal digit `d`.
pub open spec fn digit_char(d: nat) -> char {
    ((d + 48) as u8) as char
}

/// The decimal digits of `n`, most significant first, with no leading zero.
pub open spec fn decimal_text(n: nat) -> Seq<char>
    decreases n,
{
    if n < 10 {
        seq![digit_char(n)]
    } else {
        decimal_text(n / 10).push(digit_char(n % 10))
    }
}

/// The decimal digit `d` as a string.
fn digit(d: u64) -> (r: String)
    requires
        d < 10,
    ensures
        r@ == seq![digit_char(d as nat)],
{
    proof {
        reveal_strlit("0");
        reveal_strlit("1");
        reveal_strlit("2");
        reveal_strlit("3");
        reveal_strlit("4");
        reveal_strlit("5");
        reveal_strlit("6");
        reveal_strlit("7");
        reveal_strlit("8");
        reveal_strlit("9");
    }
    let text = if d == 0 {
        "0"
    } else if d == 1 {
        "1"
    } else if d == 2 {
        "2"
    } else if d == 3 {
        "3"
    } else if d == 4 {
        "4"
    } else if d == 5 {
        "5"
    } else if d == 6 {
        "6"
    } else if d == 7 {
        "7"
    } else if d == 8 {
        "8"
    } else {
        "9"
    };
    let r = text.to_string();
    assert(r@ =~= seq![digit_char(d as nat)]);
    r
}

/// The number written in decimal.
fn decimal(n: u64) -> (r: String)
    ensures
        r@ == decimal_text(n as nat),
    decreases n,
{
    if n < 10 {
        digit(n)
    } else {
        let head = decimal(n / 10);
        let last = digit(n % 10);
        let r = head.concat(last.as_str());
        assert(r@ =~= decimal_text(n as nat));
        r
    }
}

/// Relies on crossbeam_channel's `Display` for `SendError`, a fixed text.
#[verifier::external_body]
fn send_error_text(e: &SendError<LambdaContext>) -> (r: String)
    ensures
        r@ == "sending on a disconnected channel"@,
{
    e.to_string()
}

/// Relies on crossbeam_channel's `Display` for `RecvError`, a fixed text.
#[verifier::external_body]
fn recv_error_text(e: &RecvError) -> (r: String)
    ensures
        r@ == "receiving on an empty and disconnected channel"@,
{
    e.to_string()
}

impl GGError {
    /// Whether `text` is the description of this error. What follows the fixed
    /// prefix of a JSON, UTF-8 or response error is the cause as its own type
    /// writes it, and is left open.
    pub open spec fn described_by(&self, text: Seq<char>) -> bool {
        match self {
            GGError::OutOfMemory => text == "Process out of memory"@,
            GGError::InvalidParameter => text == "Invalid input Parameter"@,
            GGError::InvalidState => text == "Invalid State"@,
            GGError::InternalFailure => text == "Internal Failure"@,
            GGError::Terminate => text == "Remote signal to terminate received"@,
            GGError::NulError(pos, _) => text == "nul byte found in provided data at position: "@
                + decimal_text(*pos as nat),
            GGError::InvalidString(_) => exists|rest: Seq<char>| text == "Invalid String: "@ + rest,
            GGError::Unknown(code) => text == "Unknown error code: "@ + decimal_text(*code as nat),
            GGError::HandlerChannelSendError(_) => text == "Error sending to handler channel: "@
                + "sending on a disconnected channel"@,
            GGError::HandlerChannelRecvError(_) => text == "Error receving from handler channel: "@
                + "receiving on an empty and disconnected channel"@,
            GGError::Unauthorized(s) => text == s@,
            GGError::JsonError(_) => exists|rest: Seq<char>| text == "Error parsing response: "@ + rest,
            GGError::ErrorResponse(_) => exists|rest: Seq<char>|
                text == "Green responded with error: "@ + rest,
        }
    }

    /// A description of the error for people to read.
    pub fn message(&self) -> (r: String)
        ensures
            self.described_by(r@),
    {
        match self {
            GGError::OutOfMemory => "Process out of memory".to_string(),
            GGError::InvalidParameter => "Invalid input Parameter".to_string(),
            GGError::InvalidState => "Invalid State".to_string(),
            GGError::InternalFailure => "Internal Failure".to_string(),
            GGError::Terminate => "Remote signal to terminate received".to_string(),
            GGError::NulError(pos, _) => {
                let digits = decimal(*pos as u64);
                "nul byte found in provided data at position: ".to_string().concat(digits.as_str())
            },
            GGError::InvalidString(e) => {
                let cause = utf8_error_text(e);
                let r = "Invalid String: ".to_string().concat(cause.as_str());
                assert(r@ == "Invalid String: "@ + cause@);
                r
            },
            GGError::Unknown(code) => {
                let digits = decimal(*code as u64);
                "Unknown error code: ".to_string().concat(digits.as_str())
            },
            GGError::HandlerChannelSendError(e) => {
                let cause = send_error_text(e);
                "Error sending to handler channel: ".to_string().concat(cause.as_str())
            },
            GGError::HandlerChannelRecvError(e) => {
                let cause = recv_error_text(e);
                "Error receving from handler channel: ".to_string().concat(cause.as_str())
            },
            GGError::Unauthorized(s) => s.clone(),
            GGError::JsonError(e) => {
                let cause = json_error_text(e);
                let r = "Error parsing response: ".to_string().concat(cause.as_str());
                assert(r@ == "Error parsing response: "@ + cause@);
                r
            },
            GGError::ErrorResponse(resp) => {
                let shown = response_debug_text(resp);
                let r = "Green responded with error: ".to_string().concat(shown.as_str());
                assert(r@ == "Green responded with error: "@ + shown@);
                r
            },
        }
    }
}

/// Relies on serde_json's `Display` for its error: where and why reading failed.
#[verifier::external_body]
fn json_error_text(e: &serde_json::Error) -> String {
    e.to_string()
}

/// Relies on std's `Display` for `FromUtf8Error`: where the bytes stop being UTF-8.
#[verifier::external_body]
fn utf8_error_text(e: &FromUtf8Error) -> String {
    e.to_string()
}

/// Relies on the derived `Debug` of the response: its fields, as Rust writes them.
#[verifier::external_body]
fn response_debug_text(r: &GGRequestResponse) -> String {
    format!("{:?}", r)
}

} // verus!

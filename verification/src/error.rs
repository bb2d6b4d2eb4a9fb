//! Failures told in words that a person at a terminal can act on.

use vstd::prelude::*;
use crate::provider::{HttpFailureView, ProviderError, ProviderErrorView};

verus! {

/// Marks a plain failure.
pub const ICON_ERROR: &'static str = "\u{2717}";

/// Marks a missing credential.
pub const ICON_KEY: &'static str = "\u{1F511}";

/// Marks trouble on the network or on the server.
pub const ICON_NETWORK: &'static str = "\u{1F310}";

/// Marks something the user may be able to mend.
pub const ICON_WARNING: &'static str = "\u{26A0}";

/// Marks a hint.
pub const ICON_INFO: &'static str = "\u{2139}";

/// The text of one decimal digit.
pub open spec fn digit_text(d: nat) -> Seq<char> {
    if d == 0 {
        "0"@
    } else if d == 1 {
        "1"@
    } else if d == 2 {
        "2"@
    } else if d == 3 {
        "3"@
    } else if d == 4 {
        "4"@
    } else if d == 5 {
        "5"@
    } else if d == 6 {
        "6"@
    } else if d == 7 {
        "7"@
    } else if d == 8 {
        "8"@
    } else {
        "9"@
    }
}

/// A number written in decimal, without leading zeros.
pub open spec fn decimal_text(n: nat) -> Seq<char>
    decreases n,
{
    if n < 10 {
        digit_text(n)
    } else {
        decimal_text(n / 10) + digit_text(n % 10)
    }
}

/// The text of the digit `d`.
fn digit(d: u16) -> (r: &'static str)
    requires
        d < 10,
    ensures
        r@ == digit_text(d as nat),
{
    if d == 0 {
        "0"
    } else if d == 1 {
        "1"
    } else if d == 2 {
        "2"
    } else if d == 3 {
        "3"
    } else if d == 4 {
        "4"
    } else if d == 5 {
        "5"
    } else if d == 6 {
        "6"
    } else if d == 7 {
        "7"
    } else if d == 8 {
        "8"
    } else {
        "9"
    }
}

/// Writes `n` in decimal.
pub fn decimal(n: u16) -> (r: String)
    ensures
        r@ == decimal_text(n as nat),
    decreases n,
{
    if n < 10 {
        digit(n).to_owned()
    } else {
        let mut out = decimal(n / 10);
        out.append(digit(n % 10));
        out
    }
}

/// What is kept of an I/O failure's kind.
#[derive(Debug, Clone, Copy, PartialEq, Eq, Structural)]
pub enum IoFailureKind {
    NotFound,
    PermissionDenied,
    Other,
}

/// What is kept of an I/O failure: its kind and what it displays as.
#[derive(Debug)]
pub struct IoFailure {
    pub kind: IoFailureKind,
    pub message: String,
}

/// A failure to be told to the user.
#[derive(Debug)]
pub enum Failure {
    /// A completion call failed.
    Provider(ProviderError),
    /// A file could not be read or written.
    Io(IoFailure),
    /// Anything else, by what it displays as.
    Other(String),
}

/// The blank line and hint mark that open a hint.
pub open spec fn hint_text(hint: Seq<char>) -> Seq<char> {
    "\n\n"@ + ICON_INFO@ + " "@ + hint
}

/// How a missing credential is told.
pub open spec fn missing_key_text(name: Seq<char>) -> Seq<char> {
    ICON_KEY@ + " Missing API Key: "@ + name + hint_text("To fix this, set the environment variable:\n\nexport "@)
        + name + "=your_api_key_here"@ + hint_text(
        "You can get an API key from: https://platform.openai.com/api-keys"@,
    )
}

/// How a transport failure is told: a hint follows for a failure to connect
/// and, failing that, for a timeout.
pub open spec fn http_text(failure: HttpFailureView) -> Seq<char> {
    ICON_NETWORK@ + " Network Error: "@ + failure.message + if failure.is_connect {
        hint_text("Check your internet connection and try again."@)
    } else if failure.is_timeout {
        hint_text("Request timed out. The server may be busy, try again later."@)
    } else {
        Seq::empty()
    }
}

/// The hint that goes with a status, if any.
pub open spec fn status_hint(status: u16) -> Seq<char> {
    if status == 401 {
        hint_text("Your API key may be invalid or expired."@)
    } else if status == 429 {
        hint_text("Rate limit exceeded. Wait a moment and try again."@)
    } else if 500 <= status <= 599 {
        hint_text("Server error. This is likely temporary, try again later."@)
    } else {
        Seq::empty()
    }
}

/// How a non-success status is told: server-side statuses, from 500 on, are
/// marked as network trouble, all others as a warning.
pub open spec fn api_text(status: u16, message: Seq<char>) -> Seq<char> {
    (if status >= 500 {
        ICON_NETWORK@
    } else {
        ICON_WARNING@
    }) + " API Error ("@ + decimal_text(status as nat) + "): "@ + message + status_hint(status)
}

/// How an unusable response is told.
pub open spec fn invalid_response_text(detail: Seq<char>) -> Seq<char> {
    ICON_WARNING@ + " Invalid Response: "@ + detail + hint_text(
        "The API returned an unexpected response format."@,
    )
}

/// How a provider failure is told.
pub open spec fn provider_error_text(err: ProviderErrorView) -> Seq<char> {
    match err {
        ProviderErrorView::MissingApiKey(name) => missing_key_text(name),
        ProviderErrorView::Http(failure) => http_text(failure),
        ProviderErrorView::Api { status, message } => api_text(status, message),
        ProviderErrorView::InvalidResponse(detail) => invalid_response_text(detail),
    }
}

/// How an I/O failure is told.
pub open spec fn io_error_text(kind: IoFailureKind, message: Seq<char>) -> Seq<char> {
    match kind {
        IoFailureKind::NotFound => ICON_WARNING@ + " File Error: "@ + message + hint_text(
            "Check that the file path is correct."@,
        ),
        IoFailureKind::PermissionDenied => ICON_WARNING@ + " File Error: "@ + message + hint_text(
            "You don't have permission to access this file."@,
        ),
        IoFailureKind::Other => ICON_ERROR@ + " File Error: "@ + message,
    }
}

/// Appends a hint to `out`.
fn push_hint(out: &mut String, hint: &str)
    ensures
        final(out)@ == old(out)@ + hint_text(hint@),
{
    out.append("\n\n");
    out.append(ICON_INFO);
    out.append(" ");
    out.append(hint);
    assert(out@ =~= old(out)@ + hint_text(hint@));
}

/// Tells a provider failure.
pub fn format_provider_error(err: &ProviderError) -> (r: String)
    ensures
        r@ == provider_error_text(err@),
{
    match err {
        ProviderError::MissingApiKey(key_name) => {
            let mut out = ICON_KEY.to_owned();
            out.append(" Missing API Key: ");
            out.append(key_name.as_str());
            push_hint(&mut out, "To fix this, set the environment variable:\n\nexport ");
            out.append(key_name.as_str());
            out.append("=your_api_key_here");
            push_hint(&mut out, "You can get an API key from: https://platform.openai.com/api-keys");
            assert(out@ =~= missing_key_text(key_name@));
            out
        },
        ProviderError::Http(failure) => {
            let mut out = ICON_NETWORK.to_owned();
            out.append(" Network Error: ");
            out.append(failure.message.as_str());
            if failure.is_connect {
                push_hint(&mut out, "Check your internet connection and try again.");
            } else if failure.is_timeout {
                push_hint(&mut out, "Request timed out. The server may be busy, try again later.");
            }
            assert(out@ =~= http_text(failure@));
            out
        },
        ProviderError::Api { status, message } => {
            let mut out = if *status >= 500 {
                ICON_NETWORK.to_owned()
            } else {
                ICON_WARNING.to_owned()
            };
            out.append(" API Error (");
            out.append(decimal(*status).as_str());
            out.append("): ");
            out.append(message.as_str());
            if *status == 401 {
                push_hint(&mut out, "Your API key may be invalid or expired.");
            } else if *status == 429 {
                push_hint(&mut out, "Rate limit exceeded. Wait a moment and try again.");
            } else if 500 <= *status && *status <= 599 {
                push_hint(&mut out, "Server error. This is likely temporary, try again later.");
            }
            assert(out@ =~= api_text(*status, message@));
            out
        },
        ProviderError::InvalidResponse(detail) => {
            let mut out = ICON_WARNING.to_owned();
            out.append(" Invalid Response: ");
            out.append(detail.as_str());
            push_hint(&mut out, "The API returned an unexpected response format.");
            assert(out@ =~= invalid_response_text(detail@));
            out
        },
    }
}

/// Tells an I/O failure.
pub fn format_io_error(err: &IoFailure) -> (r: String)
    ensures
        r@ == io_error_text(err.kind, err.message@),
{
    let mut out = match err.kind {
        IoFailureKind::NotFound => ICON_WARNING.to_owned(),
        IoFailureKind::PermissionDenied => ICON_WARNING.to_owned(),
        IoFailureKind::Other => ICON_ERROR.to_owned(),
    };
    out.append(" File Error: ");
    out.append(err.message.as_str());
    match err.kind {
        IoFailureKind::NotFound => {
            push_hint(&mut out, "Check that the file path is correct.");
        },
        IoFailureKind::PermissionDenied => {
            push_hint(&mut out, "You don't have permission to access this file.");
        },
        IoFailureKind::Other => {},
    }
    assert(out@ =~= io_error_text(err.kind, err.message@));
    out
}

/// Tells a failure: provider and I/O failures in their own words, anything
/// else as a plain error.
pub fn format_error(err: &Failure) -> (r: String)
    ensures
        r@ == match *err {
            Failure::Provider(e) => provider_error_text(e@),
            Failure::Io(e) => io_error_text(e.kind, e.message@),
            Failure::Other(message) => ICON_ERROR@ + " Error: "@ + message@,
        },
{
    match err {
        Failure::Provider(e) => format_provider_error(e),
        Failure::Io(e) => format_io_error(e),
        Failure::Other(message) => {
            let mut out = ICON_ERROR.to_owned();
            out.append(" Error: ");
            out.append(message.as_str());
            out
        },
    }
}

} // verus!

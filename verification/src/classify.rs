//! Classification of raw status codes into success or a typed error,
//! shared by every transport: status zero is success, codes below the base
//! are native OS errors carrying a human-readable message, codes at or
//! above the base are ICMP statuses carried verbatim.

use vstd::prelude::*;
use vstd::string::StringExecFns;
use crate::{PingApiOutput, PingError, PingReply};
use crate::reply::PingRawReply;

verus! {

/// Status codes below this base are native OS errors; codes at or above it
/// enumerate ICMP-specific conditions.
pub const IP_STATUS_BASE: u32 = 11000;

/// The native last-error code that marks an asynchronous operation as
/// outstanding rather than failed.
pub const ERROR_IO_PENDING: u32 = 997;

/// The character of one decimal digit.
pub open spec fn digit_char(d: int) -> char {
    if d == 0 {
        '0'
    } else if d == 1 {
        '1'
    } else if d == 2 {
        '2'
    } else if d == 3 {
        '3'
    } else if d == 4 {
        '4'
    } else if d == 5 {
        '5'
    } else if d == 6 {
        '6'
    } else if d == 7 {
        '7'
    } else if d == 8 {
        '8'
    } else {
        '9'
    }
}

/// The decimal digits of `n`, most significant first.
pub open spec fn decimal_rep(n: nat) -> Seq<char>
    decreases n,
{
    if n < 10 {
        seq![digit_char(n as int)]
    } else {
        decimal_rep(n / 10) + seq![digit_char((n % 10) as int)]
    }
}

/// The message synthesized for a native error code whose platform text
/// cannot be resolved.
pub open spec fn synthesized_message(code: u32) -> Seq<char> {
    "Ping failed ("@ + decimal_rep(code as nat) + ")"@
}

/// The message an OS error carries: the resolved platform text when there
/// is any, else the synthesized text.
pub open spec fn os_error_message(code: u32, resolved: Option<String>) -> Seq<char> {
    match resolved {
        Some(m) => if m@.len() > 0 {
            m@
        } else {
            synthesized_message(code)
        },
        None => synthesized_message(code),
    }
}

/// How a raw status code below zero's success is classified: codes below
/// the base become an OS error carrying the code and its message, the rest
/// become an ICMP status error carrying the code verbatim.
pub open spec fn is_classified_error(e: PingError, code: u32, resolved: Option<String>) -> bool {
    if code < IP_STATUS_BASE {
        &&& e matches PingError::OsError(c, m)
        &&& c == code
        &&& m@ == os_error_message(code, resolved)
    } else {
        e == PingError::IpError(code)
    }
}

/// One decimal digit as text.
fn digit_str(d: u8) -> (r: &'static str)
    requires
        d < 10,
    ensures
        r@ == seq![digit_char(d as int)],
{
    proof {
        reveal_strlit("0");
        reveal_strlit("1");
        reveal_strlit("2");
        reveal_strlit("3");
        reveal_strlit("4");
        reveal_strlit("5");
        reveal_strlit("6");
        reveal_strlit("7");
        reveal_strlit("8");
        reveal_strlit("9");
    }
    match d {
        0 => "0",
        1 => "1",
        2 => "2",
        3 => "3",
        4 => "4",
        5 => "5",
        6 => "6",
        7 => "7",
        8 => "8",
        _ => "9",
    }
}

/// Renders a code in decimal.
pub fn u32_to_decimal(v: u32) -> (r: String)
    ensures
        r@ == decimal_rep(v as nat),
    decreases v,
{
    if v < 10 {
        digit_str(v as u8).to_owned()
    } else {
        let mut s = u32_to_decimal(v / 10);
        s.append(digit_str((v % 10) as u8));
        s
    }
}

/// Builds the synthesized message for an unresolvable native error code.
fn synthesize_message(code: u32) -> (r: String)
    ensures
        r@ == synthesized_message(code),
{
    let mut s = "Ping failed (".to_owned();
    let digits = u32_to_decimal(code);
    s.append(digits.as_str());
    s.append(")");
    s
}

/// Classifies a raw status code as an error: below the base it is an OS
/// error carrying the resolved platform message (or the synthesized text
/// when none resolves), at or above the base an ICMP status error.
pub fn ping_reply_error(status_code: u32, resolved_message: Option<String>) -> (e: PingError)
    ensures
        is_classified_error(e, status_code, resolved_message),
{
    if status_code < IP_STATUS_BASE {
        let message = match resolved_message {
            Some(m) => {
                if m.as_str().is_empty() {
                    synthesize_message(status_code)
                } else {
                    m
                }
            },
            None => synthesize_message(status_code),
        };
        PingError::OsError(status_code, message)
    } else {
        PingError::IpError(status_code)
    }
}

/// Turns a raw reply status into success or the classified error: zero is
/// success and nothing else is.
pub fn parse_raw_reply_status(status: u32, resolved_message: Option<String>) -> (r: Result<
    (),
    PingError,
>)
    ensures
        status == 0 ==> r == Ok::<(), PingError>(()),
        0 < status < IP_STATUS_BASE ==> (r matches Err(e) && is_classified_error(
            e,
            status,
            resolved_message,
        )),
        status >= IP_STATUS_BASE ==> r == Err::<(), PingError>(PingError::IpError(status)),
{
    if status == 0 {
        Ok(())
    } else {
        Err(ping_reply_error(status, resolved_message))
    }
}

/// Turns a decoded native reply into the call's result: a zero status
/// yields the reply's address and round-trip time, anything else the
/// classified error.
pub fn raw_reply_to_output(reply: &PingRawReply, resolved_message: Option<String>) -> (r:
    PingApiOutput)
    ensures
        reply.status == 0 ==> r == Ok::<PingReply, PingError>(
            PingReply { address: reply.address, rtt: reply.rtt },
        ),
        0 < reply.status < IP_STATUS_BASE ==> (r matches Err(e) && is_classified_error(
            e,
            reply.status,
            resolved_message,
        )),
        reply.status >= IP_STATUS_BASE ==> r == Err::<PingReply, PingError>(
            PingError::IpError(reply.status),
        ),
{
    match parse_raw_reply_status(reply.status, resolved_message) {
        Ok(()) => Ok(PingReply { address: reply.address, rtt: reply.rtt }),
        Err(e) => Err(e),
    }
}

/// The verdict of a native echo send: a non-zero return means a reply (or
/// a definite status) is already in the buffer; a zero return whose
/// last-error is the pending marker means the operation is outstanding;
/// any other last-error is classified as the failure.
pub fn echo_outcome(send_result: u32, last_error: u32, resolved_message: Option<String>) -> (r:
    Result<(), PingError>)
    ensures
        send_result != 0 ==> r == Ok::<(), PingError>(()),
        send_result == 0 && last_error == ERROR_IO_PENDING ==> r == Err::<(), PingError>(
            PingError::IoPending,
        ),
        send_result == 0 && last_error != ERROR_IO_PENDING ==> (r matches Err(e)
            && is_classified_error(e, last_error, resolved_message)),
{
    if send_result != 0 {
        Ok(())
    } else if last_error == ERROR_IO_PENDING {
        Err(PingError::IoPending)
    } else {
        Err(ping_reply_error(last_error, resolved_message))
    }
}

/// Maps an I/O failure, given as its would-block flag together with its raw
/// OS code and rendered text, to a ping error: would-block means the
/// operation is merely outstanding, anything else is an OS error.
pub fn classify_io_error(would_block: bool, raw_code: u32, message: String) -> (e: PingError)
    ensures
        would_block ==> e == PingError::IoPending,
        !would_block ==> (e matches PingError::OsError(c, m) && c == raw_code && m@ == message@),
{
    if would_block {
        PingError::IoPending
    } else {
        PingError::OsError(raw_code, message)
    }
}

} // verus!

//! Error taxonomy of the bundle RPC layer: JSON-RPC style error codes, an
//! error value that carries an opaque data payload through unchanged, and
//! the decimal rendering used by index-annotated messages.

use vstd::prelude::*;
use vstd::string::StringExecFns;

verus! {

/// Error code of the custom "node unhealthy" server error.
pub const NODE_UNHEALTHY_CODE: i64 = -32005;

/// JSON-RPC 2.0 error codes, with `ServerError` for implementation-defined
/// codes such as the "node unhealthy" error.
#[derive(Clone, Copy, Debug, PartialEq, Eq)]
pub enum ErrorCode {
    ParseError,
    InvalidRequest,
    MethodNotFound,
    InvalidParams,
    InternalError,
    ServerError(i64),
}

/// The numeric wire value of an error code.
pub open spec fn spec_code_value(c: ErrorCode) -> int {
    match c {
        ErrorCode::ParseError => -32700,
        ErrorCode::InvalidRequest => -32600,
        ErrorCode::MethodNotFound => -32601,
        ErrorCode::InvalidParams => -32602,
        ErrorCode::InternalError => -32603,
        ErrorCode::ServerError(v) => v as int,
    }
}

impl ErrorCode {
    /// The numeric code that goes on the wire.
    pub fn code_value(&self) -> (r: i64)
        ensures
            r as int == spec_code_value(*self),
    {
        match self {
            ErrorCode::ParseError => -32700,
            ErrorCode::InvalidRequest => -32600,
            ErrorCode::MethodNotFound => -32601,
            ErrorCode::InvalidParams => -32602,
            ErrorCode::InternalError => -32603,
            ErrorCode::ServerError(v) => *v,
        }
    }
}

/// An RPC error: a code, a human-readable message, and an optional opaque
/// data payload. The payload type `D` is chosen by the transport layer and
/// is only ever moved through unchanged.
#[derive(Debug)]
pub struct RpcError<D> {
    pub code: ErrorCode,
    pub message: String,
    pub data: Option<D>,
}

impl<D> RpcError<D> {
    /// An invalid-params error with the given message and no data.
    pub fn invalid_params(message: String) -> (r: Self)
        ensures
            r.code == ErrorCode::InvalidParams,
            r.message == message,
            r.data is None,
    {
        RpcError { code: ErrorCode::InvalidParams, message, data: None }
    }

    /// The "node unhealthy" error returned when no active execution context
    /// is available. No slot-lag estimate is computed at this layer, so the
    /// error carries no data.
    pub fn node_unhealthy() -> (r: Self)
        ensures
            r.code == ErrorCode::ServerError(NODE_UNHEALTHY_CODE),
            r.message@ == "Node is unhealthy"@,
            r.data is None,
    {
        RpcError {
            code: ErrorCode::ServerError(NODE_UNHEALTHY_CODE),
            message: "Node is unhealthy".to_owned(),
            data: None,
        }
    }
}

/// The character for one decimal digit.
pub open spec fn dec_digit(n: nat) -> char {
    if n == 0 {
        '0'
    } else if n == 1 {
        '1'
    } else if n == 2 {
        '2'
    } else if n == 3 {
        '3'
    } else if n == 4 {
        '4'
    } else if n == 5 {
        '5'
    } else if n == 6 {
        '6'
    } else if n == 7 {
        '7'
    } else if n == 8 {
        '8'
    } else {
        '9'
    }
}

/// The usual decimal rendering of a natural number, most significant digit
/// first, with no leading zeros (except for zero itself).
pub open spec fn dec_of(n: nat) -> Seq<char>
    decreases n,
{
    if n < 10 {
        seq![dec_digit(n)]
    } else {
        dec_of(n / 10).push(dec_digit(n % 10))
    }
}

/// Renders `n` in decimal.
pub fn usize_to_dec(n: usize) -> (r: String)
    ensures
        r@ == dec_of(n as nat),
    decreases n,
{
    proof {
        reveal_strlit("0");
        reveal_strlit("1");
        reveal_strlit("2");
        reveal_strlit("3");
        reveal_strlit("4");
        reveal_strlit("5");
        reveal_strlit("6");
        reveal_strlit("7");
        reveal_strlit("8");
        reveal_strlit("9");
    }
    let digit: &str = match n % 10 {
        0 => "0",
        1 => "1",
        2 => "2",
        3 => "3",
        4 => "4",
        5 => "5",
        6 => "6",
        7 => "7",
        8 => "8",
        _ => "9",
    };
    if n < 10 {
        let r = digit.to_owned();
        proof {
            assert(r@ =~= seq![dec_digit(n as nat)]);
        }
        r
    } else {
        let mut r = usize_to_dec(n / 10);
        r.append(digit);
        proof {
            assert(r@ =~= dec_of(n as nat));
        }
        r
    }
}

} // verus!

use vstd::prelude::*;
use vstd::string::StringExecFns;

use crate::decimal::{decimal_text, decimal_text_of, NumberFault};

verus! {

/// Which address argument of a transaction was given.
#[derive(Clone, Copy, Debug, PartialEq, Eq)]
pub enum AddressRole {
    From,
    To,
}

/// What went wrong in a command, with the raw input or endpoint that caused it.
#[derive(Debug)]
pub enum RuthError {
    /// The input is not a hex string.
    InvalidHex { input: String },
    /// The input decodes to the wrong number of bytes.
    InvalidLength { input: String, expected: usize, found: usize },
    /// The endpoint could not be reached.
    ConnectionError { endpoint: String, cause: String },
    /// A block number is not an unsigned decimal integer.
    ParseError { input: String, fault: NumberFault },
    /// The node lists no account that it can sign for.
    NoUnlockedAccounts,
    /// The node answered a call with an error.
    RpcCallFailure { call: String, cause: String },
    /// The sender or recipient of a transaction is not an address.
    InvalidAddress { role: AddressRole, input: String, cause: Box<RuthError> },
}

pub open spec fn fault_text(f: NumberFault) -> Seq<char> {
    match f {
        NumberFault::Empty => "cannot parse integer from empty string"@,
        NumberFault::InvalidDigit => "invalid digit found in string"@,
        NumberFault::Overflow => "number too large to fit in target type"@,
    }
}

/// What a value of `expected` bytes is called in messages.
pub open spec fn length_subject(expected: usize) -> Seq<char> {
    if expected == 20 {
        "Address "@
    } else if expected == 32 {
        "Transaction hash "@
    } else {
        "Value "@
    }
}

pub open spec fn role_text(r: AddressRole) -> Seq<char> {
    match r {
        AddressRole::From => "\"from\""@,
        AddressRole::To => "\"to\""@,
    }
}

/// The human-readable text of an error.
pub open spec fn message_text(e: RuthError) -> Seq<char>
    decreases e,
{
    match e {
        RuthError::InvalidHex { input } => "Invalid hex: `"@ + input@ + "`"@,
        RuthError::InvalidLength { input, expected, found } => length_subject(expected) + "`"@
            + input@ + "` has `"@
            + decimal_text_of(found as nat) + "` bytes, expected "@ + decimal_text_of(
            expected as nat,
        ),
        RuthError::ConnectionError { endpoint, cause } => "Error trying to connect to "@
            + endpoint@ + ": "@ + cause@,
        RuthError::ParseError { input, fault } => "Invalid block number `"@ + input@ + "`: "@
            + fault_text(fault),
        RuthError::NoUnlockedAccounts => "The node has no unlocked accounts"@,
        RuthError::RpcCallFailure { call, cause } => "Error "@ + call@ + ": "@ + cause@,
        RuthError::InvalidAddress { role, input, cause } => "Invalid "@ + role_text(role)
            + " address `"@ + input@ + "`: "@ + message_text(*cause),
    }
}

fn fault_message(f: NumberFault) -> (r: &'static str)
    ensures
        r@ == fault_text(f),
{
    match f {
        NumberFault::Empty => "cannot parse integer from empty string",
        NumberFault::InvalidDigit => "invalid digit found in string",
        NumberFault::Overflow => "number too large to fit in target type",
    }
}

fn subject_message(expected: usize) -> (r: &'static str)
    ensures
        r@ == length_subject(expected),
{
    if expected == 20 {
        "Address "
    } else if expected == 32 {
        "Transaction hash "
    } else {
        "Value "
    }
}

fn role_message(role: AddressRole) -> (r: &'static str)
    ensures
        r@ == role_text(role),
{
    match role {
        AddressRole::From => "\"from\"",
        AddressRole::To => "\"to\"",
    }
}

impl RuthError {
    /// The message to show for this error; it names the offending input and the cause.
    pub fn message(&self) -> (r: String)
        ensures
            r@ == message_text(*self),
        decreases self,
    {
        match self {
            RuthError::InvalidHex { input } => {
                let mut r = String::from_str("Invalid hex: `");
                r.append(input.as_str());
                r.append("`");
                r
            },
            RuthError::InvalidLength { input, expected, found } => {
                let mut r = String::from_str(subject_message(*expected));
                r.append("`");
                r.append(input.as_str());
                r.append("` has `");
                r.append(decimal_text(*found as u64).as_str());
                r.append("` bytes, expected ");
                r.append(decimal_text(*expected as u64).as_str());
                r
            },
            RuthError::ConnectionError { endpoint, cause } => {
                let mut r = String::from_str("Error trying to connect to ");
                r.append(endpoint.as_str());
                r.append(": ");
                r.append(cause.as_str());
                r
            },
            RuthError::ParseError { input, fault } => {
                let mut r = String::from_str("Invalid block number `");
                r.append(input.as_str());
                r.append("`: ");
                r.append(fault_message(*fault));
                r
            },
            RuthError::NoUnlockedAccounts => String::from_str("The node has no unlocked accounts"),
            RuthError::RpcCallFailure { call, cause } => {
                let mut r = String::from_str("Error ");
                r.append(call.as_str());
                r.append(": ");
                r.append(cause.as_str());
                r
            },
            RuthError::InvalidAddress { role, input, cause } => {
                let mut r = String::from_str("Invalid ");
                r.append(role_message(*role));
                r.append(" address `");
                r.append(input.as_str());
                r.append("`: ");
                let inner = cause.message();
                r.append(inner.as_str());
                r
            },
        }
    }
}

} // verus!

//! Failures that a call into the signature service can end in.
use vstd::prelude::*;

verus! {

/// One failure per call; none of them is retried by the library.
#[derive(Debug, Clone, PartialEq, Eq)]
pub enum ClientError {
    /// A JSON body, sent or received, that does not parse or fit its shape.
    MalformedInput(String),
    /// The HTTP layer could not complete the exchange.
    TransportFailure(String),
    /// Status 400, with the text the server sent back.
    BadRequest(String),
    /// Status 401.
    Unauthorized,
    /// Status 403.
    Forbidden,
    /// Status 500.
    ServerError,
    /// Status 503.
    ServiceUnavailable,
    /// Any other status that is not a success.
    UnexpectedStatus(u16),
}

/// The character of a decimal digit.
pub open spec fn digit_char(d: nat) -> char {
    if d == 0 { '0' }
    else if d == 1 { '1' }
    else if d == 2 { '2' }
    else if d == 3 { '3' }
    else if d == 4 { '4' }
    else if d == 5 { '5' }
    else if d == 6 { '6' }
    else if d == 7 { '7' }
    else if d == 8 { '8' }
    else { '9' }
}

/// `n` written in base ten, without leading zeros.
pub open spec fn decimal(n: nat) -> Seq<char>
    decreases n,
{
    if n < 10 {
        seq![digit_char(n)]
    } else {
        decimal(n / 10).push(digit_char(n % 10))
    }
}

fn digit_text(d: u16) -> (r: &'static str)
    requires
        d < 10,
    ensures
        r@ == seq![digit_char(d as nat)],
{
    proof {
        reveal_strlit("0");
        reveal_strlit("1");
        reveal_strlit("2");
        reveal_strlit("3");
        reveal_strlit("4");
        reveal_strlit("5");
        reveal_strlit("6");
        reveal_strlit("7");
        reveal_strlit("8");
        reveal_strlit("9");
    }
    if d == 0 { "0" }
    else if d == 1 { "1" }
    else if d == 2 { "2" }
    else if d == 3 { "3" }
    else if d == 4 { "4" }
    else if d == 5 { "5" }
    else if d == 6 { "6" }
    else if d == 7 { "7" }
    else if d == 8 { "8" }
    else { "9" }
}

/// Writes `n` in base ten.
pub fn decimal_text(n: u16) -> (r: String)
    ensures
        r@ == decimal(n as nat),
    decreases n,
{
    if n < 10 {
        String::from_str(digit_text(n))
    } else {
        let mut r = decimal_text(n / 10);
        r.append(digit_text(n % 10));
        r
    }
}

impl ClientError {
    /// The text that describes the failure.
    pub open spec fn spec_message(&self) -> Seq<char> {
        match self {
            ClientError::MalformedInput(m) => m@,
            ClientError::TransportFailure(m) => m@,
            ClientError::BadRequest(b) => "400 Bad Request: "@ + b@,
            ClientError::Unauthorized => "401 Unauthorized"@,
            ClientError::Forbidden => "403 Forbidden"@,
            ClientError::ServerError => "500 Internal Server Error"@,
            ClientError::ServiceUnavailable => "503 Service Unavailable"@,
            ClientError::UnexpectedStatus(s) => "Received response: "@ + decimal(*s as nat),
        }
    }

    /// The text that describes the failure.
    pub fn message(&self) -> (r: String)
        ensures
            r@ == self.spec_message(),
    {
        match self {
            ClientError::MalformedInput(m) => m.clone(),
            ClientError::TransportFailure(m) => m.clone(),
            ClientError::BadRequest(b) => {
                let mut r = String::from_str("400 Bad Request: ");
                r.append(b.as_str());
                r
            },
            ClientError::Unauthorized => String::from_str("401 Unauthorized"),
            ClientError::Forbidden => String::from_str("403 Forbidden"),
            ClientError::ServerError => String::from_str("500 Internal Server Error"),
            ClientError::ServiceUnavailable => String::from_str("503 Service Unavailable"),
            ClientError::UnexpectedStatus(s) => {
                let mut r = String::from_str("Received response: ");
                let d = decimal_text(*s);
                r.append(d.as_str());
                r
            },
        }
    }
}

} // verus!

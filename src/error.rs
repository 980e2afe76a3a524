use vstd::prelude::*;
use vstd::string::StringExecFns;

verus! {

/// The error body that the homeserver sends with a failed admin request.
#[derive(Debug)]
pub struct APIErrorResponse {
    pub errcode: String,
    pub error: String,
    pub soft_logout: Option<bool>,
}

/// A failed admin request: the decoded error body and the HTTP status.
#[derive(Debug)]
pub struct APIErrorMessage {
    pub api_error_response: APIErrorResponse,
    pub status_code: u16,
}

impl APIErrorMessage {
    pub fn new(api_error_response: APIErrorResponse, status_code: u16) -> (r: APIErrorMessage)
        ensures
            r.api_error_response == api_error_response,
            r.status_code == status_code,
    {
        APIErrorMessage { api_error_response, status_code }
    }
}

/// Every way in which a command of this client can fail.
#[derive(Debug)]
pub enum MatrixAPIError {
    /// The requested (or default) server profile is absent; carries its name.
    ServerNotDefined(String),
    /// The config file, or a process run on its behalf, could not be used.
    ConfigFileError(String),
    /// The secret store handed back something that is not text.
    AccessTokenError(String),
    /// The HTTP layer failed.
    ReqwestError(String),
    /// The homeserver answered with a status other than 200.
    APIRequestError(APIErrorMessage),
}

/// The character of a decimal digit.
pub open spec fn digit_char(d: nat) -> char {
    if d == 0 { '0' }
    else if d == 1 { '1' }
    else if d == 2 { '2' }
    else if d == 3 { '3' }
    else if d == 4 { '4' }
    else if d == 5 { '5' }
    else if d == 6 { '6' }
    else if d == 7 { '7' }
    else if d == 8 { '8' }
    else { '9' }
}

/// The decimal notation of `n`, without leading zeros.
pub open spec fn decimal(n: nat) -> Seq<char>
    decreases n,
{
    if n < 10 {
        seq![digit_char(n)]
    } else {
        decimal(n / 10).push(digit_char(n % 10))
    }
}

/// The text shown to the user for an error.
pub open spec fn message_text(e: MatrixAPIError) -> Seq<char> {
    match e {
        MatrixAPIError::ServerNotDefined(s) => "The given server "@ + s@ + " is not defined"@,
        MatrixAPIError::ConfigFileError(s) => "There was an error with the config file: "@ + s@,
        MatrixAPIError::AccessTokenError(s) => "There was an error reading the access token: "@
            + s@,
        MatrixAPIError::ReqwestError(s) => "There was an error during the HTTP request: "@ + s@,
        MatrixAPIError::APIRequestError(m) => "There was an error running the API request.\n\terror:\t\""@
            + m.api_error_response.error@ + "\"\n\terrcode\t\""@ + m.api_error_response.errcode@
            + "\"\n\tstatus:\t"@ + decimal(m.status_code as nat),
    }
}

fn digit_text(d: u16) -> (r: &'static str)
    requires
        d < 10,
    ensures
        r@ == seq![digit_char(d as nat)],
{
    proof {
        reveal_strlit("0");
        reveal_strlit("1");
        reveal_strlit("2");
        reveal_strlit("3");
        reveal_strlit("4");
        reveal_strlit("5");
        reveal_strlit("6");
        reveal_strlit("7");
        reveal_strlit("8");
        reveal_strlit("9");
    }
    match d {
        0 => "0",
        1 => "1",
        2 => "2",
        3 => "3",
        4 => "4",
        5 => "5",
        6 => "6",
        7 => "7",
        8 => "8",
        _ => "9",
    }
}

/// Writes `n` in decimal.
pub fn decimal_text(n: u16) -> (r: String)
    ensures
        r@ == decimal(n as nat),
    decreases n,
{
    if n < 10 {
        String::from_str(digit_text(n))
    } else {
        let mut s = decimal_text(n / 10);
        s.append(digit_text(n % 10));
        s
    }
}

impl MatrixAPIError {
    /// The text shown to the user for this error.
    pub fn message(&self) -> (r: String)
        ensures
            r@ == message_text(*self),
    {
        match self {
            MatrixAPIError::ServerNotDefined(s) => {
                let mut t = String::from_str("The given server ");
                t.append(s.as_str());
                t.append(" is not defined");
                t
            },
            MatrixAPIError::ConfigFileError(s) => {
                let mut t = String::from_str("There was an error with the config file: ");
                t.append(s.as_str());
                t
            },
            MatrixAPIError::AccessTokenError(s) => {
                let mut t = String::from_str("There was an error reading the access token: ");
                t.append(s.as_str());
                t
            },
            MatrixAPIError::ReqwestError(s) => {
                let mut t = String::from_str("There was an error during the HTTP request: ");
                t.append(s.as_str());
                t
            },
            MatrixAPIError::APIRequestError(m) => {
                let mut t = String::from_str(
                    "There was an error running the API request.\n\terror:\t\"",
                );
                t.append(m.api_error_response.error.as_str());
                t.append("\"\n\terrcode\t\"");
                t.append(m.api_error_response.errcode.as_str());
                t.append("\"\n\tstatus:\t");
                let code = decimal_text(m.status_code);
                t.append(code.as_str());
                t
            },
        }
    }
}

} // verus!

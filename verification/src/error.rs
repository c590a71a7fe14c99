use vstd::prelude::*;
use vstd::string::StringExecFns;

verus! {

/// The error taxonomy of the pipeline. Each variant names the phase that
/// failed, so that a run's final diagnostic can say whether the request
/// could not be sent, the service answered with a bad status, the response
/// body could not be read or decoded, or the local disk failed.
///
/// Every one of these aborts the whole run; none is retried.
#[derive(Debug, PartialEq, Eq)]
pub enum Error {
    /// The request could not be sent at all (connect failure, timeout).
    HttpRequestError { detail: String },
    /// The service answered, but outside the 2xx range.
    HttpStatusError { url: String, status: u16 },
    /// The response arrived but its body could not be read or decoded.
    HttpReadError { detail: String },
    /// Creating, writing or stamping a local file failed.
    IoError { detail: String },
}

/// The character for one decimal digit.
pub open spec fn spec_digit_char(d: nat) -> char {
    if d == 0 {
        '0'
    } else if d == 1 {
        '1'
    } else if d == 2 {
        '2'
    } else if d == 3 {
        '3'
    } else if d == 4 {
        '4'
    } else if d == 5 {
        '5'
    } else if d == 6 {
        '6'
    } else if d == 7 {
        '7'
    } else if d == 8 {
        '8'
    } else {
        '9'
    }
}

/// The decimal rendering of a natural number, most significant digit first.
pub open spec fn spec_decimal(n: nat) -> Seq<char>
    decreases n,
{
    if n < 10 {
        seq![spec_digit_char(n)]
    } else {
        spec_decimal(n / 10) + seq![spec_digit_char(n % 10)]
    }
}

/// One decimal digit as a string slice.
fn digit_str(d: u16) -> (r: &'static str)
    requires
        d < 10,
    ensures
        r@ == seq![spec_digit_char(d as nat)],
{
    let r: &'static str = if d == 0 {
        "0"
    } else if d == 1 {
        "1"
    } else if d == 2 {
        "2"
    } else if d == 3 {
        "3"
    } else if d == 4 {
        "4"
    } else if d == 5 {
        "5"
    } else if d == 6 {
        "6"
    } else if d == 7 {
        "7"
    } else if d == 8 {
        "8"
    } else {
        "9"
    };
    proof {
        reveal_strlit("0");
        reveal_strlit("1");
        reveal_strlit("2");
        reveal_strlit("3");
        reveal_strlit("4");
        reveal_strlit("5");
        reveal_strlit("6");
        reveal_strlit("7");
        reveal_strlit("8");
        reveal_strlit("9");
        assert(r@ =~= seq![spec_digit_char(d as nat)]);
    }
    r
}

/// The decimal rendering of a 16-bit number.
pub fn u16_decimal(n: u16) -> (r: String)
    ensures
        r@ == spec_decimal(n as nat),
    decreases n,
{
    if n < 10 {
        String::from_str(digit_str(n))
    } else {
        proof {
            assert(n / 10 < n) by (nonlinear_arith)
                requires
                    n >= 10,
            ;
        }
        let rest = u16_decimal(n / 10);
        let r = rest.concat(digit_str(n % 10));
        proof {
            assert(r@ =~= spec_decimal(n as nat));
        }
        r
    }
}

/// The diagnostic line for an error, naming the phase that failed and the
/// URL or underlying report involved.
pub open spec fn spec_message(e: Error) -> Seq<char> {
    match e {
        Error::HttpRequestError { detail } => "failed to send request: "@ + detail@,
        Error::HttpStatusError { url, status } => "fanbox returned error: status "@
            + spec_decimal(status as nat) + " for "@ + url@,
        Error::HttpReadError { detail } => "failed to read response: "@ + detail@,
        Error::IoError { detail } => detail@,
    }
}

impl Error {
    /// Renders the error as the one-line diagnostic shown when a run aborts.
    pub fn message(&self) -> (r: String)
        ensures
            r@ == spec_message(*self),
    {
        match self {
            Error::HttpRequestError { detail } => {
                let mut s = String::from_str("failed to send request: ");
                s.append(detail.as_str());
                proof {
                    assert(s@ =~= spec_message(*self));
                }
                s
            },
            Error::HttpStatusError { url, status } => {
                let mut s = String::from_str("fanbox returned error: status ");
                let num = u16_decimal(*status);
                s.append(num.as_str());
                s.append(" for ");
                s.append(url.as_str());
                proof {
                    assert(s@ =~= spec_message(*self));
                }
                s
            },
            Error::HttpReadError { detail } => {
                let mut s = String::from_str("failed to read response: ");
                s.append(detail.as_str());
                proof {
                    assert(s@ =~= spec_message(*self));
                }
                s
            },
            Error::IoError { detail } => {
                let s = detail.clone();
                s
            },
        }
    }
}

} // verus!

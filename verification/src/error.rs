//! The two ways a computation can fail, and how a failure crosses the boundary.

use vstd::prelude::*;
use vstd::string::*;
use vstd::utf8::*;

verus! {

/// The status code under which every `Host` failure is reported.
pub const HOST_ERROR_CODE: i32 = -1;

/// A failure of a computation.
#[derive(Debug)]
pub enum Error {
    /// The computation itself reports a failure, with a status code that means
    /// something to the caller.
    Run { code: i32, message: String },
    /// Something went wrong around the computation.
    Host { message: String },
}

/// What an [`Error`] holds, as plain values.
pub enum Failure {
    Run { code: i32, message: Seq<char> },
    Host { message: Seq<char> },
}

/// The character of a decimal digit.
pub open spec fn digit(d: int) -> char {
    if d == 0 {
        '0'
    } else if d == 1 {
        '1'
    } else if d == 2 {
        '2'
    } else if d == 3 {
        '3'
    } else if d == 4 {
        '4'
    } else if d == 5 {
        '5'
    } else if d == 6 {
        '6'
    } else if d == 7 {
        '7'
    } else if d == 8 {
        '8'
    } else {
        '9'
    }
}

/// A natural number in decimal, without leading zeros.
pub open spec fn decimal(n: nat) -> Seq<char>
    decreases n,
{
    if n < 10 {
        seq![digit(n as int)]
    } else {
        decimal(n / 10).push(digit((n % 10) as int))
    }
}

/// An integer in decimal, with a minus sign in front of a negative one.
pub open spec fn signed_decimal(n: int) -> Seq<char> {
    if n < 0 {
        seq!['-'] + decimal((-n) as nat)
    } else {
        decimal(n as nat)
    }
}

/// The decimal digit `d` as text.
fn digit_str(d: u32) -> (text: &'static str)
    requires
        d < 10,
    ensures
        text@ == seq![digit(d as int)],
{
    proof {
        reveal_strlit("0");
        reveal_strlit("1");
        reveal_strlit("2");
        reveal_strlit("3");
        reveal_strlit("4");
        reveal_strlit("5");
        reveal_strlit("6");
        reveal_strlit("7");
        reveal_strlit("8");
        reveal_strlit("9");
    }
    let text = if d == 0 {
        "0"
    } else if d == 1 {
        "1"
    } else if d == 2 {
        "2"
    } else if d == 3 {
        "3"
    } else if d == 4 {
        "4"
    } else if d == 5 {
        "5"
    } else if d == 6 {
        "6"
    } else if d == 7 {
        "7"
    } else if d == 8 {
        "8"
    } else {
        "9"
    };
    assert(text@ =~= seq![digit(d as int)]);
    text
}

/// Appends `n` in decimal to `text`.
fn push_decimal(text: &mut String, n: u32)
    ensures
        final(text)@ == old(text)@ + decimal(n as nat),
    decreases n,
{
    if n >= 10 {
        push_decimal(text, n / 10);
    }
    text.append(digit_str(n % 10));
    assert(text@ =~= old(text)@ + decimal(n as nat));
}

/// Appends `n` in decimal to `text`, with a minus sign if it is negative.
pub fn push_signed_decimal(text: &mut String, n: i32)
    ensures
        final(text)@ == old(text)@ + signed_decimal(n as int),
{
    if n < 0 {
        proof {
            reveal_strlit("-");
        }
        text.append("-");
        let magnitude: u32 = (-(n as i64)) as u32;
        push_decimal(text, magnitude);
        assert(text@ =~= old(text)@ + signed_decimal(n as int));
    } else {
        push_decimal(text, n as u32);
    }
}

impl Failure {
    /// The failure as a line of text: its kind, for `Run` the status code in
    /// brackets, then a colon, a space and the message.
    pub open spec fn text(self) -> Seq<char> {
        match self {
            Failure::Run { code, message } => "Run Error("@ + signed_decimal(code as int) + "): "@
                + message,
            Failure::Host { message } => "Host Error: "@ + message,
        }
    }

    /// The status code that the host sees for this failure.
    pub open spec fn code(self) -> i32 {
        match self {
            Failure::Run { code, .. } => code,
            Failure::Host { .. } => HOST_ERROR_CODE,
        }
    }

    /// The text that the failure carries.
    pub open spec fn message(self) -> Seq<char> {
        match self {
            Failure::Run { message, .. } => message,
            Failure::Host { message } => message,
        }
    }

    /// The bytes that the host sees for this failure: the message in UTF-8.
    pub open spec fn payload(self) -> Seq<u8> {
        encode_utf8(self.message())
    }
}

impl View for Error {
    type V = Failure;

    open spec fn view(&self) -> Failure {
        match self {
            Error::Run { code, message } => Failure::Run { code: *code, message: message@ },
            Error::Host { message } => Failure::Host { message: message@ },
        }
    }
}

impl Error {
    /// A failure around the computation, with the given message.
    pub fn new_host_error(message: &str) -> (error: Self)
        ensures
            error@ == (Failure::Host { message: message@ }),
    {
        Error::Host { message: message.to_owned() }
    }

    /// A failure reported by the computation, with its status code and message.
    pub fn new_run_error(code: i32, message: &str) -> (error: Self)
        ensures
            error@ == (Failure::Run { code, message: message@ }),
    {
        Error::Run { code, message: message.to_owned() }
    }

    /// The status code that the host sees: the carried one for `Run`, the fixed
    /// [`HOST_ERROR_CODE`] for `Host`.
    pub fn code(&self) -> (code: i32)
        ensures
            code == self@.code(),
    {
        match self {
            Error::Run { code, .. } => *code,
            Error::Host { .. } => HOST_ERROR_CODE,
        }
    }

    /// The failure as a line of text, such as `Run Error(404): not found` or
    /// `Host Error: out of fuel`.
    pub fn to_string(&self) -> (text: String)
        ensures
            text@ == self@.text(),
    {
        match self {
            Error::Run { code, message } => {
                let mut text = String::from_str("Run Error(");
                push_signed_decimal(&mut text, *code);
                text.append("): ");
                text.append(message.as_str());
                assert(text@ =~= self@.text());
                text
            },
            Error::Host { message } => {
                let mut text = String::from_str("Host Error: ");
                text.append(message.as_str());
                text
            },
        }
    }

    /// The message as the bytes of its UTF-8 encoding.
    pub fn into_bytes(self) -> (bytes: Vec<u8>)
        ensures
            bytes@ == self@.payload(),
    {
        match self {
            Error::Run { message, .. } => message.as_str().as_bytes_vec(),
            Error::Host { message } => message.as_str().as_bytes_vec(),
        }
    }
}

} // verus!

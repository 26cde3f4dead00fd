//! Why a connection ended.

use vstd::prelude::*;
use vstd::string::StringExecFns;

verus! {

/// A failed read or write on the link, as the platform reported it.
#[derive(Clone, Debug, PartialEq, Eq)]
pub struct IoFailure {
    /// The platform's error code, where it gave one.
    pub raw_os_error: Option<i32>,
    /// The platform's description of the failure.
    pub description: String,
}

/// Why a connection could not be made, or ended.
#[derive(Clone, Debug, PartialEq, Eq)]
pub enum Error {
    /// The peer answered, but not with the identity.
    WrongDevice,
    /// The device refused a heartbeat.
    Disconnected,
    /// The device speaks another version, the one held here.
    UnsupportedVersion(u16),
    /// The device refused a speed command.
    InvalidSpeed,
    /// The link could not be opened; the text says why.
    Open(String),
    /// A read or a write on the link failed.
    Other(IoFailure),
}

/// An [`Error`] as a mathematical value: texts are sequences of characters.
pub enum ErrorView {
    WrongDevice,
    Disconnected,
    UnsupportedVersion(u16),
    InvalidSpeed,
    Open(Seq<char>),
    Other(Option<i32>, Seq<char>),
}

impl View for Error {
    type V = ErrorView;

    open spec fn view(&self) -> ErrorView {
        match self {
            Error::WrongDevice => ErrorView::WrongDevice,
            Error::Disconnected => ErrorView::Disconnected,
            Error::UnsupportedVersion(version) => ErrorView::UnsupportedVersion(*version),
            Error::InvalidSpeed => ErrorView::InvalidSpeed,
            Error::Open(reason) => ErrorView::Open(reason@),
            Error::Other(failure) => ErrorView::Other(failure.raw_os_error, failure.description@),
        }
    }
}

/// The decimal digit for a value below ten.
pub open spec fn digit_char(d: int) -> char
    recommends
        0 <= d < 10,
{
    if d == 0 {
        '0'
    } else if d == 1 {
        '1'
    } else if d == 2 {
        '2'
    } else if d == 3 {
        '3'
    } else if d == 4 {
        '4'
    } else if d == 5 {
        '5'
    } else if d == 6 {
        '6'
    } else if d == 7 {
        '7'
    } else if d == 8 {
        '8'
    } else {
        '9'
    }
}

/// A number in decimal, without leading zeros.
pub open spec fn decimal(n: nat) -> Seq<char>
    decreases n,
{
    if n < 10 {
        seq![digit_char(n as int)]
    } else {
        decimal(n / 10).push(digit_char((n % 10) as int))
    }
}

/// The sentence that describes an error to a person.
pub open spec fn message_of(e: ErrorView) -> Seq<char> {
    match e {
        ErrorView::WrongDevice =>
            "the device connected is not responding correctly. Try resetting it and check the loaded code."@,
        ErrorView::Disconnected => "device disconnected unexpectedly"@,
        ErrorView::UnsupportedVersion(version) =>
            "device implements an unsupported protocol version: "@ + decimal(version as nat),
        ErrorView::InvalidSpeed => "the device could not set the speed"@,
        ErrorView::Open(reason) => "could not open serial port file: "@ + reason,
        ErrorView::Other(_, description) => "error during transmission: "@ + description,
    }
}

fn digit_str(d: u16) -> (s: &'static str)
    requires
        d < 10,
    ensures
        s@ == seq![digit_char(d as int)],
{
    proof {
        reveal_strlit("0");
        reveal_strlit("1");
        reveal_strlit("2");
        reveal_strlit("3");
        reveal_strlit("4");
        reveal_strlit("5");
        reveal_strlit("6");
        reveal_strlit("7");
        reveal_strlit("8");
        reveal_strlit("9");
    }
    let s = if d == 0 {
        "0"
    } else if d == 1 {
        "1"
    } else if d == 2 {
        "2"
    } else if d == 3 {
        "3"
    } else if d == 4 {
        "4"
    } else if d == 5 {
        "5"
    } else if d == 6 {
        "6"
    } else if d == 7 {
        "7"
    } else if d == 8 {
        "8"
    } else {
        "9"
    };
    assert(s@ =~= seq![digit_char(d as int)]);
    s
}

/// Writes a number in decimal.
pub fn decimal_string(n: u16) -> (out: String)
    ensures
        out@ == decimal(n as nat),
    decreases n,
{
    if n < 10 {
        String::from_str(digit_str(n))
    } else {
        let head = decimal_string(n / 10);
        let out = head.concat(digit_str(n % 10));
        assert(out@ =~= decimal(n as nat));
        out
    }
}

impl Error {
    /// The sentence that describes this error to a person.
    pub fn message(&self) -> (out: String)
        ensures
            out@ == message_of(self@),
    {
        match self {
            Error::WrongDevice => String::from_str(
                "the device connected is not responding correctly. Try resetting it and check the loaded code.",
            ),
            Error::Disconnected => String::from_str("device disconnected unexpectedly"),
            Error::UnsupportedVersion(version) => {
                let digits = decimal_string(*version);
                String::from_str("device implements an unsupported protocol version: ").concat(
                    digits.as_str(),
                )
            },
            Error::InvalidSpeed => String::from_str("the device could not set the speed"),
            Error::Open(reason) => String::from_str("could not open serial port file: ").concat(
                reason.as_str(),
            ),
            Error::Other(failure) => String::from_str("error during transmission: ").concat(
                failure.description.as_str(),
            ),
        }
    }
}

} // verus!

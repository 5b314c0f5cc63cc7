use vstd::prelude::*;
use vstd::string::StringExecFns;
use crate::parse::ParseFailure;

verus! {

/// A failure reported by the system bus, for opening a connection or for a
/// remote call: the error's name (such as
/// `org.freedesktop.DBus.Error.ServiceUnknown`) and its message, where it has them.
#[derive(Debug)]
pub struct BusFailure {
    pub name: Option<String>,
    pub message: Option<String>,
}

impl BusFailure {
    /// The failure's message, or nothing where it has none.
    pub open spec fn cause_text(&self) -> Seq<char> {
        match self.message {
            Some(m) => m@,
            None => Seq::empty(),
        }
    }
}

/// Why setting the brightness failed.
#[derive(Debug)]
pub enum Error {
    /// No brightness argument was given.
    MissingArg,
    /// The brightness argument is not an unsigned 32-bit decimal integer.
    ParseBrightness(ParseFailure),
    /// Opening the system bus or the remote call failed.
    Dbus(BusFailure),
}

pub open spec fn missing_arg_text() -> Seq<char> {
    "Missing Brightness Argument. Usage: bright-rs <u32>"@
}

pub open spec fn parse_failure_text(f: ParseFailure) -> Seq<char> {
    match f {
        ParseFailure::Empty => "cannot parse integer from empty string"@,
        ParseFailure::InvalidDigit => "invalid digit found in string"@,
        ParseFailure::PosOverflow => "number too large to fit in target type"@,
    }
}

pub open spec fn invalid_brightness_text(f: ParseFailure) -> Seq<char> {
    "Invalid Brightness Value "@ + parse_failure_text(f)
}

/// The report of a failed bus operation whose own message is `cause`.
pub open spec fn remote_failure_text(cause: Seq<char>) -> Seq<char> {
    "Dbus error: "@ + cause
}

impl ParseFailure {
    /// Says in words why the text was refused.
    pub fn description(&self) -> (r: String)
        ensures
            r@ == parse_failure_text(*self),
    {
        match self {
            ParseFailure::Empty => String::from_str("cannot parse integer from empty string"),
            ParseFailure::InvalidDigit => String::from_str("invalid digit found in string"),
            ParseFailure::PosOverflow => String::from_str("number too large to fit in target type"),
        }
    }
}

/// Reports a failed bus operation whose own message is `cause`.
pub fn describe_remote_failure(cause: &str) -> (r: String)
    ensures
        r@ == remote_failure_text(cause@),
{
    String::from_str("Dbus error: ").concat(cause)
}

impl Error {
    /// What `message` reports for this error.
    pub open spec fn text(&self) -> Seq<char> {
        match self {
            Error::MissingArg => missing_arg_text(),
            Error::ParseBrightness(f) => invalid_brightness_text(*f),
            Error::Dbus(b) => remote_failure_text(b.cause_text()),
        }
    }

    /// The human-readable report of this error.
    pub fn message(&self) -> (r: String)
        ensures
            r@ == self.text(),
    {
        match self {
            Error::MissingArg => String::from_str(
                "Missing Brightness Argument. Usage: bright-rs <u32>",
            ),
            Error::ParseBrightness(f) => {
                let d = f.description();
                String::from_str("Invalid Brightness Value ").concat(d.as_str())
            },
            Error::Dbus(b) => match &b.message {
                Some(m) => describe_remote_failure(m.as_str()),
                None => {
                    proof {
                        reveal_strlit("");
                    }
                    describe_remote_failure("")
                },
            },
        }
    }
}

} // verus!

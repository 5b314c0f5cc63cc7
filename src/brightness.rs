use vstd::prelude::*;
use vstd::string::StringExecFns;
use crate::errors::{BusFailure, Error, remote_failure_text};
use crate::parse::{ParseFailure, parse_u32, parse_u32_spec};

verus! {

/// How long the remote call may take before the bus gives up, in milliseconds.
pub const CALL_TIMEOUT_MS: u64 = 5000;

/// The one remote call that sets the brightness: where it goes, how long it
/// may take, and the three arguments it carries.
#[derive(Debug)]
pub struct RemoteCall {
    /// The bus name of the service.
    pub destination: String,
    /// The object path on that service.
    pub path: String,
    pub timeout_ms: u64,
    pub interface: String,
    pub method: String,
    /// The first argument: the kind of device.
    pub subsystem: String,
    /// The second argument: the device's name.
    pub device: String,
    /// The third argument: the brightness asked for.
    pub brightness: u32,
}

impl RemoteCall {
    /// The call asks the login session manager's session object to set the
    /// Intel backlight to `value`.
    pub open spec fn sets_brightness_to(&self, value: u32) -> bool {
        &&& self.destination@ == "org.freedesktop.login1"@
        &&& self.path@ == "/org/freedesktop/login1/session/self"@
        &&& self.timeout_ms == CALL_TIMEOUT_MS
        &&& self.interface@ == "org.freedesktop.login1.Session"@
        &&& self.method@ == "SetBrightness"@
        &&& self.subsystem@ == "backlight"@
        &&& self.device@ == "intel_backlight"@
        &&& self.brightness == value
    }
}

/// What the command line asks for: the brightness at position 1 (position 0
/// is the program's name), or why there is none.
pub open spec fn requested_brightness(args: Seq<String>) -> Result<u32, Error> {
    if args.len() < 2 {
        Err(Error::MissingArg)
    } else {
        match parse_u32_spec(args[1]@) {
            Ok(v) => Ok(v),
            Err(f) => Err(Error::ParseBrightness(f)),
        }
    }
}

/// What the command ends with, given the outcome of the remote call.
pub open spec fn conclusion(outcome: Result<(), BusFailure>) -> Result<(), Error> {
    match outcome {
        Ok(()) => Ok(()),
        Err(b) => Err(Error::Dbus(b)),
    }
}

/// The exit status of the process that ends with `r`.
pub open spec fn status_of(r: Result<(), Error>) -> i32 {
    match r {
        Ok(()) => 0,
        Err(_) => 1,
    }
}

/// Reads the brightness from the command line.
pub fn brightness_argument(args: &Vec<String>) -> (r: Result<u32, Error>)
    ensures
        r == requested_brightness(args@),
{
    if args.len() < 2 {
        return Err(Error::MissingArg);
    }
    match parse_u32(args[1].as_str()) {
        Ok(v) => Ok(v),
        Err(f) => Err(Error::ParseBrightness(f)),
    }
}

/// The remote call that sets the brightness to `value`.
pub fn set_brightness_call(value: u32) -> (r: RemoteCall)
    ensures
        r.sets_brightness_to(value),
{
    RemoteCall {
        destination: String::from_str("org.freedesktop.login1"),
        path: String::from_str("/org/freedesktop/login1/session/self"),
        timeout_ms: CALL_TIMEOUT_MS,
        interface: String::from_str("org.freedesktop.login1.Session"),
        method: String::from_str("SetBrightness"),
        subsystem: String::from_str("backlight"),
        device: String::from_str("intel_backlight"),
        brightness: value,
    }
}

/// Decides, before the bus is touched, the one remote call that the command
/// line asks for. Where the argument is missing or not a brightness, there is
/// no call to make and the error is returned.
pub fn plan_call(args: &Vec<String>) -> (r: Result<RemoteCall, Error>)
    ensures
        match requested_brightness(args@) {
            Ok(v) => r matches Ok(c) && c.sets_brightness_to(v),
            Err(e) => r == Err::<RemoteCall, Error>(e),
        },
{
    match brightness_argument(args) {
        Ok(v) => Ok(set_brightness_call(v)),
        Err(e) => Err(e),
    }
}

/// Turns the outcome of the remote call into the command's result.
pub fn conclude(outcome: Result<(), BusFailure>) -> (r: Result<(), Error>)
    ensures
        r == conclusion(outcome),
{
    match outcome {
        Ok(()) => Ok(()),
        Err(b) => Err(Error::Dbus(b)),
    }
}

/// The exit status of the process that ends with `r`: 0 on success, 1 on
/// any failure.
pub fn exit_status(r: &Result<(), Error>) -> (c: i32)
    ensures
        c == status_of(*r),
{
    match r {
        Ok(()) => 0,
        Err(_) => 1,
    }
}

/// Without a brightness argument there is nothing to call: the command fails
/// with `MissingArg`, whatever else the command line holds.
pub proof fn missing_argument_fails_fast(args: Seq<String>)
    requires
        args.len() < 2,
    ensures
        requested_brightness(args) == Err::<u32, Error>(Error::MissingArg),
{
}

/// An argument that is not an unsigned 32-bit decimal integer leaves nothing
/// to call: the command fails with `ParseBrightness`, carrying why.
pub proof fn invalid_argument_fails_fast(args: Seq<String>)
    requires
        args.len() >= 2,
        parse_u32_spec(args[1]@) is Err,
    ensures
        requested_brightness(args) == Err::<u32, Error>(
            Error::ParseBrightness(parse_u32_spec(args[1]@)->Err_0),
        ),
{
}

/// Every unsigned 32-bit value, written in decimal, is passed on unchanged:
/// nothing is clamped.
pub proof fn brightness_passed_unchanged(args: Seq<String>, v: u32)
    requires
        args.len() >= 2,
        parse_u32_spec(args[1]@) == Ok::<u32, ParseFailure>(v),
    ensures
        requested_brightness(args) == Ok::<u32, Error>(v),
{
}

/// A remote call that succeeds ends the command with success and exit status 0.
pub proof fn remote_success_exits_zero()
    ensures
        conclusion(Ok(())) == Ok::<(), Error>(()),
        status_of(conclusion(Ok(()))) == 0,
{
}

/// A remote call that fails ends the command with a non-zero exit status and
/// an error whose report holds the bus's own message.
pub proof fn remote_failure_reports_cause(b: BusFailure)
    ensures
        conclusion(Err(b)) == Err::<(), Error>(Error::Dbus(b)),
        status_of(conclusion(Err(b))) != 0,
        ({
            let t = Error::Dbus(b).text();
            let k = t.len() - b.cause_text().len();
            0 <= k && t.subrange(k, t.len() as int) == b.cause_text()
        }),
{
    let t = remote_failure_text(b.cause_text());
    assert(t.subrange(t.len() - b.cause_text().len(), t.len() as int) =~= b.cause_text());
}

} // verus!

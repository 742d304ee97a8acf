//! The terminal capability negotiation, as decisions. One platform requires
//! a console handle's mode bitmask to gain an escape-processing bit before
//! escape sequences are interpreted; the decision of what to do after each
//! step is made here and fully verified, while the operating-system calls
//! themselves (querying a mode, setting it, fetching the last error code)
//! are performed by platform code that feeds their outcomes back in.

use crate::error::Error;
use crate::error::ErrorKind;
use vstd::prelude::*;

verus! {

/// The mode bit that makes a console handle interpret in-band escape
/// sequences.
pub const ENABLE_VIRTUAL_TERMINAL_PROCESSING: u32 = 4;

/// The next move in a capability negotiation: finished (with the outcome to
/// hand the caller), query the handle's current mode, or set the handle's
/// mode to the carried bitmask.
pub enum Negotiation {
    Complete(Result<(), Error>),
    QueryMode,
    SetMode(u32),
}

/// Begins a negotiation. A handle that is not a terminal needs no
/// negotiation at all: the result is immediate success, and neither
/// operating-system call is requested. A terminal handle must first have
/// its current mode queried.
pub fn negotiate_start(is_terminal: bool) -> (s: Negotiation)
    ensures
        !is_terminal ==> (s matches Negotiation::Complete(r) && r is Ok),
        is_terminal ==> s is QueryMode,
{
    if !is_terminal {
        Negotiation::Complete(Ok(()))
    } else {
        Negotiation::QueryMode
    }
}

/// Continues after the mode query. A queried mode must be written back with
/// the escape-processing bit added; a failed query ends the negotiation with
/// an `Os` error carrying the platform's last error code, and no mode-set is
/// requested.
pub fn negotiate_mode_queried(outcome: Result<u32, u32>) -> (s: Negotiation)
    ensures
        outcome matches Ok(mode) ==> s == Negotiation::SetMode(
            mode | ENABLE_VIRTUAL_TERMINAL_PROCESSING,
        ),
        outcome matches Err(code) ==> (s matches Negotiation::Complete(r) && r matches Err(e)
            && e.spec_kind() == ErrorKind::Os(code as i32) && e.spec_message() is None),
{
    match outcome {
        Ok(mode) => Negotiation::SetMode(mode | ENABLE_VIRTUAL_TERMINAL_PROCESSING),
        Err(code) => Negotiation::Complete(Err(Error::from_os_code(code))),
    }
}

/// Ends the negotiation after the mode set: success once the new mode is in
/// place, otherwise an `Os` error carrying the platform's last error code.
pub fn negotiate_mode_set(outcome: Result<(), u32>) -> (s: Negotiation)
    ensures
        outcome is Ok ==> (s matches Negotiation::Complete(r) && r is Ok),
        outcome matches Err(code) ==> (s matches Negotiation::Complete(r) && r matches Err(e)
            && e.spec_kind() == ErrorKind::Os(code as i32) && e.spec_message() is None),
{
    match outcome {
        Ok(()) => Negotiation::Complete(Ok(())),
        Err(code) => Negotiation::Complete(Err(Error::from_os_code(code))),
    }
}

/// The platform's boolean: any nonzero value is true.
pub struct BOOL(pub i32);

impl BOOL {
    /// Whether this platform boolean is true.
    pub fn ok(self) -> (r: bool)
        ensures
            r == (self.0 != 0),
    {
        self.0 != 0
    }
}

impl From<BOOL> for bool {
    /// A platform boolean converts to `true` exactly when it is nonzero.
    fn from(value: BOOL) -> (r: bool)
        ensures
            r == (value.0 != 0),
    {
        value.ok()
    }
}

impl vstd::std_specs::convert::FromSpecImpl<BOOL> for bool {
    open spec fn obeys_from_spec() -> bool {
        true
    }

    open spec fn from_spec(value: BOOL) -> bool {
        value.0 != 0
    }
}

} // verus!

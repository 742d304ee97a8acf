//! A console abstraction whose standard input/output/error streams can be
//! backed either by the real process streams or by in-memory buffers, so
//! that console-facing logic stays unit-testable.

use vstd::prelude::*;

mod buffer;
mod console;
mod error;
mod platform;

pub use buffer::Buffer;
pub use buffer::concat_bytes;
pub use console::Console;
pub use console::ConsoleBuilder;
pub use console::storage_or_empty;
pub use error::Error;
pub use error::ErrorKind;
pub use error::spec_decimal;
pub use error::spec_digit_char;
pub use error::spec_signed_decimal;
pub use platform::BOOL;
pub use platform::ENABLE_VIRTUAL_TERMINAL_PROCESSING;
pub use platform::Negotiation;
pub use platform::negotiate_mode_queried;
pub use platform::negotiate_mode_set;
pub use platform::negotiate_start;

verus! {

/// Prepares a stream for in-band escape sequences. On platforms where no
/// capability negotiation is required, this is an unconditional no-op that
/// always succeeds; the negotiation steps themselves live in `platform`.
pub fn enable_ansi_escape_sequences() -> (r: Result<(), Error>)
    ensures
        r is Ok,
{
    Ok(())
}

} // verus!

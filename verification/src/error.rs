//! The error taxonomy: a closed set of failure kinds and an opaque,
//! chainable error value. Callers branch on [`ErrorKind`] only; everything
//! else an error carries is human-readable display text.

use vstd::prelude::*;
use vstd::string::StringExecFns;

verus! {

#[verifier::external_type_specification]
#[verifier::external_body]
pub struct ExIoError(std::io::Error);

#[verifier::external_type_specification]
#[verifier::external_body]
pub struct ExFromUtf8Error(std::string::FromUtf8Error);

/// Relies on the Display rendering of std::io::Error for diagnostic text.
#[verifier::external_body]
fn io_error_text(error: &std::io::Error) -> String {
    format!("{error}")
}

/// Relies on the Display rendering of std::string::FromUtf8Error for
/// diagnostic text.
#[verifier::external_body]
fn utf8_error_text(error: &std::string::FromUtf8Error) -> String {
    format!("{error}")
}

/// The closed set of failure kinds. `Os` carries a raw platform status code.
#[derive(Clone, Copy, Debug, PartialEq, Eq, Structural)]
pub enum ErrorKind {
    InvalidData,
    Io,
    Os(i32),
    Other,
}

/// The three forms an error can take: a bare kind, a kind with an explicit
/// message, or a kind with the display text of an underlying cause.
#[derive(Debug)]
enum Repr {
    Simple(ErrorKind),
    SimpleMessage(ErrorKind, String),
    Custom(ErrorKind, String),
}

/// An opaque error value. Its kind is fixed at construction; its message is
/// present exactly when it was built from an explicit message.
#[derive(Debug)]
pub struct Error {
    repr: Repr,
}

impl Error {
    /// The kind this error was constructed with.
    pub closed spec fn spec_kind(&self) -> ErrorKind {
        match self.repr {
            Repr::Simple(kind) => kind,
            Repr::SimpleMessage(kind, _) => kind,
            Repr::Custom(kind, _) => kind,
        }
    }

    /// The explicit message, present only for message-form errors.
    pub closed spec fn spec_message(&self) -> Option<Seq<char>> {
        match self.repr {
            Repr::SimpleMessage(_, m) => Some(m@),
            _ => None,
        }
    }

    /// The display text: the kind's symbolic name for a bare kind, the stored
    /// message for a message-form error, the cause's display text otherwise.
    pub closed spec fn spec_display(&self) -> Seq<char> {
        match self.repr {
            Repr::Simple(kind) => kind.spec_display(),
            Repr::SimpleMessage(_, m) => m@,
            Repr::Custom(_, cause) => cause@,
        }
    }

    /// The underlying cause's display text, present only for cause-form
    /// errors.
    pub closed spec fn spec_cause(&self) -> Option<Seq<char>> {
        match self.repr {
            Repr::Custom(_, cause) => Some(cause@),
            _ => None,
        }
    }

    /// Constructs an `Error` that records an underlying cause by its display
    /// text. The cause is kept for diagnostics only: the error's own message
    /// stays absent, and its display text is the cause's.
    pub fn new(kind: ErrorKind, cause: String) -> (r: Self)
        ensures
            r.spec_kind() == kind,
            r.spec_message() is None,
            r.spec_cause() == Some(cause@),
            r.spec_display() == cause@,
    {
        Self { repr: Repr::Custom(kind, cause) }
    }

    /// The [`ErrorKind`] of this `Error`.
    pub fn kind(&self) -> (r: &ErrorKind)
        ensures
            *r == self.spec_kind(),
    {
        match &self.repr {
            Repr::Simple(kind) => kind,
            Repr::SimpleMessage(kind, _) => kind,
            Repr::Custom(kind, _) => kind,
        }
    }

    /// The message provided when this `Error` was constructed, or `None`.
    pub fn message(&self) -> (r: Option<&str>)
        ensures
            match self.spec_message() {
                Some(m) => r matches Some(s) && s@ == m,
                None => r is None,
            },
    {
        match &self.repr {
            Repr::SimpleMessage(_, message) => Some(message.as_str()),
            _ => None,
        }
    }

    /// The display text of the underlying cause, or `None` where this error
    /// has no cause. Kept for diagnostics only: program logic branches on
    /// [`Error::kind`] alone.
    pub fn cause(&self) -> (r: Option<&str>)
        ensures
            match self.spec_cause() {
                Some(c) => r matches Some(s) && s@ == c,
                None => r is None,
            },
    {
        match &self.repr {
            Repr::Custom(_, cause) => Some(cause.as_str()),
            _ => None,
        }
    }

    /// Constructs an `Error` from a kind and an explicit display message.
    pub fn with_message(kind: ErrorKind, message: String) -> (r: Self)
        ensures
            r.spec_kind() == kind,
            r.spec_message() == Some(message@),
            r.spec_cause() is None,
            r.spec_display() == message@,
    {
        Self { repr: Repr::SimpleMessage(kind, message) }
    }

    /// Like [`Error::with_message`], but defers building the message until
    /// the error itself is built, keeping the non-error path free of it.
    pub fn with_message_fn<F: FnOnce() -> String>(kind: ErrorKind, message: F) -> (r: Self)
        requires
            call_requires(message, ()),
        ensures
            r.spec_kind() == kind,
            exists|m: String|
                #[trigger] call_ensures(message, (), m) && r.spec_message() == Some(m@)
                    && r.spec_display() == m@,
    {
        let m = message();
        Self { repr: Repr::SimpleMessage(kind, m) }
    }

    /// Constructs a bare-kind `Error`: no message, no cause; its display text
    /// is the kind's own.
    pub fn from_kind(kind: ErrorKind) -> (r: Self)
        ensures
            r.spec_kind() == kind,
            r.spec_message() is None,
            r.spec_cause() is None,
            r.spec_display() == kind.spec_display(),
    {
        Self { repr: Repr::Simple(kind) }
    }

    /// Converts a raw platform status code into a bare `Os` error.
    pub fn from_os_code(code: u32) -> (r: Self)
        ensures
            r.spec_kind() == ErrorKind::Os(code as i32),
            r.spec_message() is None,
            r.spec_cause() is None,
            r.spec_display() == ErrorKind::Os(code as i32).spec_display(),
    {
        #[verifier::truncate]
        let signed: i32 = code as i32;
        Self { repr: Repr::Simple(ErrorKind::Os(signed)) }
    }

    /// Converts a failure of an underlying real stream: always an `Io` error,
    /// with the failure kept as its cause.
    pub fn from_io(error: std::io::Error) -> (r: Self)
        ensures
            r.spec_kind() == ErrorKind::Io,
            r.spec_message() is None,
            r.spec_cause() is Some,
    {
        let text = io_error_text(&error);
        Self::new(ErrorKind::Io, text)
    }

    /// Converts a text-decoding failure: always an `InvalidData` error, with
    /// the failure kept as its cause.
    pub fn from_utf8(error: std::string::FromUtf8Error) -> (r: Self)
        ensures
            r.spec_kind() == ErrorKind::InvalidData,
            r.spec_message() is None,
            r.spec_cause() is Some,
    {
        let text = utf8_error_text(&error);
        Self::new(ErrorKind::InvalidData, text)
    }

    /// The display text of this error as an owned string.
    pub fn display_string(&self) -> (r: String)
        ensures
            r@ == self.spec_display(),
    {
        match &self.repr {
            Repr::Simple(kind) => kind.display_string(),
            Repr::SimpleMessage(_, message) => message.clone(),
            Repr::Custom(_, cause) => cause.clone(),
        }
    }
}

impl ErrorKind {
    /// The symbolic rendering of a kind, with the status code embedded for `Os`.
    pub open spec fn spec_display(self) -> Seq<char> {
        match self {
            ErrorKind::InvalidData => seq!['I', 'n', 'v', 'a', 'l', 'i', 'd', 'D', 'a', 't', 'a'],
            ErrorKind::Io => seq!['I', 'o'],
            ErrorKind::Os(code) => seq!['O', 's', '('] + spec_signed_decimal(code as int) + seq![
                ')',
            ],
            ErrorKind::Other => seq!['O', 't', 'h', 'e', 'r'],
        }
    }

    /// The symbolic name of this kind as an owned string.
    pub fn display_string(&self) -> (r: String)
        ensures
            r@ == self.spec_display(),
    {
        match self {
            ErrorKind::InvalidData => {
                let r = copy_str("InvalidData");
                proof {
                    reveal_strlit("InvalidData");
                    assert(r@ =~= self.spec_display());
                }
                r
            },
            ErrorKind::Io => {
                let r = copy_str("Io");
                proof {
                    reveal_strlit("Io");
                    assert(r@ =~= self.spec_display());
                }
                r
            },
            ErrorKind::Os(code) => {
                let mut r = copy_str("Os(");
                proof {
                    reveal_strlit("Os(");
                    assert(r@ =~= seq!['O', 's', '(']);
                }
                push_signed_decimal(&mut r, *code);
                append_str(&mut r, ")");
                proof {
                    reveal_strlit(")");
                    assert(")"@ =~= seq![')']);
                    assert(r@ =~= self.spec_display());
                }
                r
            },
            ErrorKind::Other => {
                let r = copy_str("Other");
                proof {
                    reveal_strlit("Other");
                    assert(r@ =~= self.spec_display());
                }
                r
            },
        }
    }
}

/// The character for a single decimal digit.
pub open spec fn spec_digit_char(d: int) -> char {
    if d == 0 {
        '0'
    } else if d == 1 {
        '1'
    } else if d == 2 {
        '2'
    } else if d == 3 {
        '3'
    } else if d == 4 {
        '4'
    } else if d == 5 {
        '5'
    } else if d == 6 {
        '6'
    } else if d == 7 {
        '7'
    } else if d == 8 {
        '8'
    } else {
        '9'
    }
}

/// The decimal rendering of a non-negative integer, most significant digit first.
pub open spec fn spec_decimal(n: nat) -> Seq<char>
    decreases n,
{
    if n < 10 {
        seq![spec_digit_char(n as int)]
    } else {
        spec_decimal(n / 10) + seq![spec_digit_char((n % 10) as int)]
    }
}

/// The decimal rendering of a signed integer: a leading minus sign for
/// negative values, then the magnitude's digits.
pub open spec fn spec_signed_decimal(n: int) -> Seq<char> {
    if n < 0 {
        seq!['-'] + spec_decimal((-n) as nat)
    } else {
        spec_decimal(n as nat)
    }
}

/// An owned copy of a string slice.
fn copy_str(s: &str) -> (r: String)
    ensures
        r@ == s@,
{
    String::from_str(s)
}

/// Appends a string slice to an owned string.
fn append_str(s: &mut String, other: &str)
    ensures
        final(s)@ == old(s)@ + other@,
{
    s.append(other)
}

/// The one-character string for a single decimal digit.
fn digit_str(d: u32) -> (r: &'static str)
    requires
        d < 10,
    ensures
        r@ == seq![spec_digit_char(d as int)],
{
    proof {
        reveal_strlit("0");
        reveal_strlit("1");
        reveal_strlit("2");
        reveal_strlit("3");
        reveal_strlit("4");
        reveal_strlit("5");
        reveal_strlit("6");
        reveal_strlit("7");
        reveal_strlit("8");
        reveal_strlit("9");
    }
    if d == 0 {
        let r = "0";
        proof {
            assert(r@ =~= seq![spec_digit_char(d as int)]);
        }
        r
    } else if d == 1 {
        let r = "1";
        proof {
            assert(r@ =~= seq![spec_digit_char(d as int)]);
        }
        r
    } else if d == 2 {
        let r = "2";
        proof {
            assert(r@ =~= seq![spec_digit_char(d as int)]);
        }
        r
    } else if d == 3 {
        let r = "3";
        proof {
            assert(r@ =~= seq![spec_digit_char(d as int)]);
        }
        r
    } else if d == 4 {
        let r = "4";
        proof {
            assert(r@ =~= seq![spec_digit_char(d as int)]);
        }
        r
    } else if d == 5 {
        let r = "5";
        proof {
            assert(r@ =~= seq![spec_digit_char(d as int)]);
        }
        r
    } else if d == 6 {
        let r = "6";
        proof {
            assert(r@ =~= seq![spec_digit_char(d as int)]);
        }
        r
    } else if d == 7 {
        let r = "7";
        proof {
            assert(r@ =~= seq![spec_digit_char(d as int)]);
        }
        r
    } else if d == 8 {
        let r = "8";
        proof {
            assert(r@ =~= seq![spec_digit_char(d as int)]);
        }
        r
    } else {
        let r = "9";
        proof {
            assert(r@ =~= seq![spec_digit_char(d as int)]);
        }
        r
    }
}

/// Appends the decimal digits of `n` to `s`, most significant first.
fn push_decimal(s: &mut String, n: u32)
    ensures
        final(s)@ == old(s)@ + spec_decimal(n as nat),
    decreases n,
{
    if n < 10 {
        append_str(s, digit_str(n));
    } else {
        push_decimal(s, n / 10);
        append_str(s, digit_str(n % 10));
        proof {
            assert(s@ =~= old(s)@ + spec_decimal(n as nat));
        }
    }
}

/// Appends the signed decimal rendering of `n` to `s`.
fn push_signed_decimal(s: &mut String, n: i32)
    ensures
        final(s)@ == old(s)@ + spec_signed_decimal(n as int),
{
    if n < 0 {
        append_str(s, "-");
        proof {
            reveal_strlit("-");
            assert("-"@ =~= seq!['-']);
        }
        let wide: i64 = n as i64;
        let magnitude: u32 = (-wide) as u32;
        assert(magnitude == -(n as int));
        push_decimal(s, magnitude);
        proof {
            assert(s@ =~= old(s)@ + spec_signed_decimal(n as int));
        }
    } else {
        push_decimal(s, n as u32);
    }
}

} // verus!

//! The console: three roles (input, output, error output) backed either by
//! the process's real standard streams or by three in-memory [`Buffer`]s.
//! The representation is fixed at construction and every operation forwards
//! to whichever representation is active, unchanged and unbuffered.

use crate::buffer::Buffer;
use crate::buffer::concat_bytes;
use crate::error::Error;
use crate::error::ErrorKind;
use vstd::prelude::*;

verus! {

#[verifier::external_type_specification]
#[verifier::external_body]
pub struct ExStdin(std::io::Stdin);

#[verifier::external_type_specification]
#[verifier::external_body]
pub struct ExStdout(std::io::Stdout);

#[verifier::external_type_specification]
#[verifier::external_body]
pub struct ExStderr(std::io::Stderr);

/// Relies on std::io::stdin: returns a handle to the process's standard
/// input stream.
#[verifier::external_body]
fn acquire_stdin() -> std::io::Stdin {
    std::io::stdin()
}

/// Relies on std::io::stdout: returns a handle to the process's standard
/// output stream.
#[verifier::external_body]
fn acquire_stdout() -> std::io::Stdout {
    std::io::stdout()
}

/// Relies on std::io::stderr: returns a handle to the process's standard
/// error stream.
#[verifier::external_body]
fn acquire_stderr() -> std::io::Stderr {
    std::io::stderr()
}

/// Relies on std::io::Write::write on std::io::Stdout: a successful write
/// reports how many bytes from the start of `buf` were written, never more
/// than its length.
#[verifier::external_body]
fn system_stdout_write(out: &mut std::io::Stdout, buf: &[u8]) -> (r: Result<
    usize,
    std::io::Error,
>)
    ensures
        r matches Ok(n) ==> n <= buf@.len(),
{
    std::io::Write::write(out, buf)
}

/// Relies on std::io::Write::write_vectored on std::io::Stdout: a successful
/// vectored write reports how many bytes were written, never more than the
/// buffers hold together.
#[verifier::external_body]
fn system_stdout_write_vectored(out: &mut std::io::Stdout, bufs: &Vec<Vec<u8>>) -> (r: Result<
    usize,
    std::io::Error,
>)
    ensures
        r matches Ok(n) ==> n <= concat_bytes(bufs.deep_view()).len(),
{
    let slices: Vec<std::io::IoSlice<'_>> = bufs.iter().map(
        |b: &Vec<u8>| std::io::IoSlice::new(b.as_slice()),
    ).collect();
    std::io::Write::write_vectored(out, &slices)
}

/// Relies on std::io::Write::flush on std::io::Stdout.
#[verifier::external_body]
fn system_stdout_flush(out: &mut std::io::Stdout) -> (r: Result<(), std::io::Error>) {
    std::io::Write::flush(out)
}

/// Relies on std::io::Write::write on std::io::Stderr: a successful write
/// reports how many bytes from the start of `buf` were written, never more
/// than its length.
#[verifier::external_body]
fn system_stderr_write(err: &mut std::io::Stderr, buf: &[u8]) -> (r: Result<
    usize,
    std::io::Error,
>)
    ensures
        r matches Ok(n) ==> n <= buf@.len(),
{
    std::io::Write::write(err, buf)
}

/// Relies on std::io::Write::write_vectored on std::io::Stderr: a successful
/// vectored write reports how many bytes were written, never more than the
/// buffers hold together.
#[verifier::external_body]
fn system_stderr_write_vectored(err: &mut std::io::Stderr, bufs: &Vec<Vec<u8>>) -> (r: Result<
    usize,
    std::io::Error,
>)
    ensures
        r matches Ok(n) ==> n <= concat_bytes(bufs.deep_view()).len(),
{
    let slices: Vec<std::io::IoSlice<'_>> = bufs.iter().map(
        |b: &Vec<u8>| std::io::IoSlice::new(b.as_slice()),
    ).collect();
    std::io::Write::write_vectored(err, &slices)
}

/// Relies on std::io::Write::flush on std::io::Stderr.
#[verifier::external_body]
fn system_stderr_flush(err: &mut std::io::Stderr) -> (r: Result<(), std::io::Error>) {
    std::io::Write::flush(err)
}

/// Relies on std::io::Read::read on std::io::Stdin: a successful read hands
/// back at most `count` bytes.
#[verifier::external_body]
fn system_stdin_read(input: &mut std::io::Stdin, count: usize) -> (r: Result<
    Vec<u8>,
    std::io::Error,
>)
    ensures
        r matches Ok(v) ==> v@.len() <= count,
{
    let mut buf: Vec<u8> = vec![0u8; count];
    let n = std::io::Read::read(input, &mut buf)?;
    buf.truncate(n);
    Ok(buf)
}

/// The three real process streams, merely referenced here: the operating
/// system owns them.
struct SystemStreams {
    stdin: std::io::Stdin,
    stdout: std::io::Stdout,
    stderr: std::io::Stderr,
}

/// The three in-memory buffers of a test-oriented console, constructed
/// together and owned by the console.
struct BufferStreams {
    stdin: Buffer,
    stdout: Buffer,
    stderr: Buffer,
}

/// Which representation backs a console.
enum Backing {
    System(SystemStreams),
    Internal(BufferStreams),
}

/// A console whose three streams are either the real process streams or
/// three in-memory buffers. The representation never changes after
/// construction, and no operation adds buffering or transformation.
pub struct Console {
    backing: Backing,
}

impl Console {
    /// Whether this console is backed by in-memory buffers.
    pub closed spec fn spec_is_internal(&self) -> bool {
        self.backing is Internal
    }

    /// The input buffer's contents (internal representation only).
    pub closed spec fn stdin_bytes(&self) -> Seq<u8> {
        match self.backing {
            Backing::Internal(s) => s.stdin@,
            Backing::System(_) => vstd::pervasive::arbitrary(),
        }
    }

    /// The output buffer's contents (internal representation only).
    pub closed spec fn stdout_bytes(&self) -> Seq<u8> {
        match self.backing {
            Backing::Internal(s) => s.stdout@,
            Backing::System(_) => vstd::pervasive::arbitrary(),
        }
    }

    /// The error-output buffer's contents (internal representation only).
    pub closed spec fn stderr_bytes(&self) -> Seq<u8> {
        match self.backing {
            Backing::Internal(s) => s.stderr@,
            Backing::System(_) => vstd::pervasive::arbitrary(),
        }
    }

    /// The input buffer's terminal flag (internal representation only).
    pub closed spec fn stdin_tty(&self) -> bool {
        match self.backing {
            Backing::Internal(s) => s.stdin.spec_tty(),
            Backing::System(_) => vstd::pervasive::arbitrary(),
        }
    }

    /// The output buffer's terminal flag (internal representation only).
    pub closed spec fn stdout_tty(&self) -> bool {
        match self.backing {
            Backing::Internal(s) => s.stdout.spec_tty(),
            Backing::System(_) => vstd::pervasive::arbitrary(),
        }
    }

    /// The error-output buffer's terminal flag (internal representation only).
    pub closed spec fn stderr_tty(&self) -> bool {
        match self.backing {
            Backing::Internal(s) => s.stderr.spec_tty(),
            Backing::System(_) => vstd::pervasive::arbitrary(),
        }
    }

    /// How many input bytes reads have consumed (internal representation only).
    pub closed spec fn stdin_read_pos(&self) -> nat {
        match self.backing {
            Backing::Internal(s) => s.stdin.read_pos(),
            Backing::System(_) => vstd::pervasive::arbitrary(),
        }
    }

    /// An internal console never has its input cursor past the input's end.
    pub open spec fn wf(&self) -> bool {
        self.spec_is_internal() ==> self.stdin_read_pos() <= self.stdin_bytes().len()
    }

    /// Everything of `self` but the output buffer's contents equals `other`'s.
    pub open spec fn only_stdout_grown(&self, other: &Console) -> bool {
        &&& self.spec_is_internal() == other.spec_is_internal()
        &&& self.stdin_bytes() == other.stdin_bytes()
        &&& self.stderr_bytes() == other.stderr_bytes()
        &&& self.stdin_tty() == other.stdin_tty()
        &&& self.stdout_tty() == other.stdout_tty()
        &&& self.stderr_tty() == other.stderr_tty()
        &&& self.stdin_read_pos() == other.stdin_read_pos()
    }

    /// Everything of `self` but the error buffer's contents equals `other`'s.
    pub open spec fn only_stderr_grown(&self, other: &Console) -> bool {
        &&& self.spec_is_internal() == other.spec_is_internal()
        &&& self.stdin_bytes() == other.stdin_bytes()
        &&& self.stdout_bytes() == other.stdout_bytes()
        &&& self.stdin_tty() == other.stdin_tty()
        &&& self.stdout_tty() == other.stdout_tty()
        &&& self.stderr_tty() == other.stderr_tty()
        &&& self.stdin_read_pos() == other.stdin_read_pos()
    }

    /// Everything of `self` but the input cursor equals `other`'s.
    pub open spec fn only_stdin_consumed(&self, other: &Console) -> bool {
        &&& self.spec_is_internal() == other.spec_is_internal()
        &&& self.stdin_bytes() == other.stdin_bytes()
        &&& self.stdout_bytes() == other.stdout_bytes()
        &&& self.stderr_bytes() == other.stderr_bytes()
        &&& self.stdin_tty() == other.stdin_tty()
        &&& self.stdout_tty() == other.stdout_tty()
        &&& self.stderr_tty() == other.stderr_tty()
    }

    /// A builder for a console backed by in-memory buffers.
    pub fn builder() -> (r: ConsoleBuilder)
        ensures
            r.spec_stdin() is None,
            r.spec_stdout() is None,
            r.spec_stderr() is None,
            !r.spec_stdin_tty(),
            !r.spec_stdout_tty(),
            !r.spec_stderr_tty(),
    {
        ConsoleBuilder {
            stdin: None,
            stdin_tty: false,
            stdout: None,
            stdout_tty: false,
            stderr: None,
            stderr_tty: false,
        }
    }

    /// Binds the three real process streams, negotiating escape-sequence
    /// support for output and error output first and propagating any failure
    /// of that negotiation to the caller.
    pub fn from_system() -> (r: Result<Console, Error>)
        ensures
            r matches Ok(c) && !c.spec_is_internal() && c.wf(),
    {
        // Once for the output role, once for the error-output role.
        match crate::enable_ansi_escape_sequences() {
            Ok(()) => (),
            Err(e) => {
                return Err(e);
            },
        }
        match crate::enable_ansi_escape_sequences() {
            Ok(()) => (),
            Err(e) => {
                return Err(e);
            },
        }
        Ok(
            Console {
                backing: Backing::System(
                    SystemStreams {
                        stdin: acquire_stdin(),
                        stdout: acquire_stdout(),
                        stderr: acquire_stderr(),
                    },
                ),
            },
        )
    }

    /// Whether this console is backed by in-memory buffers.
    pub fn is_internal(&self) -> (r: bool)
        ensures
            r == self.spec_is_internal(),
    {
        match &self.backing {
            Backing::Internal(_) => true,
            Backing::System(_) => false,
        }
    }

    /// Writes `buf` to the output role. On an internal console the bytes are
    /// appended to the output buffer exactly, the whole of `buf` is written,
    /// and nothing else changes; on a system console the underlying stream's
    /// result is passed through, a failure converted to an `Io` error.
    pub fn write(&mut self, buf: &[u8]) -> (r: Result<usize, Error>)
        requires
            old(self).wf(),
        ensures
            final(self).wf(),
            final(self).spec_is_internal() == old(self).spec_is_internal(),
            old(self).spec_is_internal() ==> {
                &&& final(self).stdout_bytes() == old(self).stdout_bytes() + buf@
                &&& final(self).only_stdout_grown(old(self))
                &&& r matches Ok(n) && n == buf@.len()
            },
            !old(self).spec_is_internal() ==> (r matches Ok(n) ==> n <= buf@.len()),
            r matches Err(e) ==> e.spec_kind() == ErrorKind::Io,
    {
        match &mut self.backing {
            Backing::Internal(streams) => streams.stdout.write(buf),
            Backing::System(streams) => match system_stdout_write(&mut streams.stdout, buf) {
                Ok(n) => Ok(n),
                Err(e) => Err(Error::from_io(e)),
            },
        }
    }

    /// Writes every buffer of `bufs`, first to last, to the output role.
    pub fn write_vectored(&mut self, bufs: &Vec<Vec<u8>>) -> (r: Result<usize, Error>)
        requires
            old(self).wf(),
        ensures
            final(self).wf(),
            final(self).spec_is_internal() == old(self).spec_is_internal(),
            old(self).spec_is_internal() ==> {
                &&& final(self).stdout_bytes() == old(self).stdout_bytes() + concat_bytes(
                    bufs.deep_view(),
                )
                &&& final(self).only_stdout_grown(old(self))
                &&& r matches Ok(n) && n == concat_bytes(bufs.deep_view()).len()
            },
            !old(self).spec_is_internal() ==> (r matches Ok(n) ==> n <= concat_bytes(
                bufs.deep_view(),
            ).len()),
            r matches Err(e) ==> e.spec_kind() == ErrorKind::Io,
    {
        match &mut self.backing {
            Backing::Internal(streams) => streams.stdout.write_vectored(bufs),
            Backing::System(streams) => match system_stdout_write_vectored(
                &mut streams.stdout,
                bufs,
            ) {
                Ok(n) => Ok(n),
                Err(e) => Err(Error::from_io(e)),
            },
        }
    }

    /// Flushes the output role. An internal console keeps nothing back, so
    /// this changes nothing and succeeds.
    pub fn flush(&mut self) -> (r: Result<(), Error>)
        requires
            old(self).wf(),
        ensures
            final(self).wf(),
            final(self).spec_is_internal() == old(self).spec_is_internal(),
            old(self).spec_is_internal() ==> {
                &&& final(self).stdout_bytes() == old(self).stdout_bytes()
                &&& final(self).only_stdout_grown(old(self))
                &&& r is Ok
            },
            r matches Err(e) ==> e.spec_kind() == ErrorKind::Io,
    {
        match &mut self.backing {
            Backing::Internal(_) => Ok(()),
            Backing::System(streams) => match system_stdout_flush(&mut streams.stdout) {
                Ok(()) => Ok(()),
                Err(e) => Err(Error::from_io(e)),
            },
        }
    }

    /// Writes `buf` to the error-output role, leaving the output role's
    /// contents untouched.
    pub fn write_err(&mut self, buf: &[u8]) -> (r: Result<usize, Error>)
        requires
            old(self).wf(),
        ensures
            final(self).wf(),
            final(self).spec_is_internal() == old(self).spec_is_internal(),
            old(self).spec_is_internal() ==> {
                &&& final(self).stderr_bytes() == old(self).stderr_bytes() + buf@
                &&& final(self).only_stderr_grown(old(self))
                &&& r matches Ok(n) && n == buf@.len()
            },
            !old(self).spec_is_internal() ==> (r matches Ok(n) ==> n <= buf@.len()),
            r matches Err(e) ==> e.spec_kind() == ErrorKind::Io,
    {
        match &mut self.backing {
            Backing::Internal(streams) => streams.stderr.write(buf),
            Backing::System(streams) => match system_stderr_write(&mut streams.stderr, buf) {
                Ok(n) => Ok(n),
                Err(e) => Err(Error::from_io(e)),
            },
        }
    }

    /// Writes every buffer of `bufs`, first to last, to the error-output role.
    pub fn write_err_vectored(&mut self, bufs: &Vec<Vec<u8>>) -> (r: Result<usize, Error>)
        requires
            old(self).wf(),
        ensures
            final(self).wf(),
            final(self).spec_is_internal() == old(self).spec_is_internal(),
            old(self).spec_is_internal() ==> {
                &&& final(self).stderr_bytes() == old(self).stderr_bytes() + concat_bytes(
                    bufs.deep_view(),
                )
                &&& final(self).only_stderr_grown(old(self))
                &&& r matches Ok(n) && n == concat_bytes(bufs.deep_view()).len()
            },
            !old(self).spec_is_internal() ==> (r matches Ok(n) ==> n <= concat_bytes(
                bufs.deep_view(),
            ).len()),
            r matches Err(e) ==> e.spec_kind() == ErrorKind::Io,
    {
        match &mut self.backing {
            Backing::Internal(streams) => streams.stderr.write_vectored(bufs),
            Backing::System(streams) => match system_stderr_write_vectored(
                &mut streams.stderr,
                bufs,
            ) {
                Ok(n) => Ok(n),
                Err(e) => Err(Error::from_io(e)),
            },
        }
    }

    /// Flushes the error-output role.
    pub fn flush_err(&mut self) -> (r: Result<(), Error>)
        requires
            old(self).wf(),
        ensures
            final(self).wf(),
            final(self).spec_is_internal() == old(self).spec_is_internal(),
            old(self).spec_is_internal() ==> {
                &&& final(self).stderr_bytes() == old(self).stderr_bytes()
                &&& final(self).only_stderr_grown(old(self))
                &&& r is Ok
            },
            r matches Err(e) ==> e.spec_kind() == ErrorKind::Io,
    {
        match &mut self.backing {
            Backing::Internal(_) => Ok(()),
            Backing::System(streams) => match system_stderr_flush(&mut streams.stderr) {
                Ok(()) => Ok(()),
                Err(e) => Err(Error::from_io(e)),
            },
        }
    }

    /// Reads up to `count` bytes from the input role. On an internal console
    /// this consumes queued input bytes from the front, each byte exactly
    /// once, and returns fewer than `count` only when fewer are left.
    pub fn read_stdin(&mut self, count: usize) -> (r: Result<Vec<u8>, Error>)
        requires
            old(self).wf(),
        ensures
            final(self).wf(),
            final(self).spec_is_internal() == old(self).spec_is_internal(),
            old(self).spec_is_internal() ==> {
                let k = vstd::math::min(
                    count as int,
                    old(self).stdin_bytes().len() - old(self).stdin_read_pos(),
                );
                &&& final(self).only_stdin_consumed(old(self))
                &&& r matches Ok(v) && v@ == old(self).stdin_bytes().subrange(
                    old(self).stdin_read_pos() as int,
                    old(self).stdin_read_pos() + k,
                )
                &&& final(self).stdin_read_pos() == old(self).stdin_read_pos() + k
            },
            !old(self).spec_is_internal() ==> (r matches Ok(v) ==> v@.len() <= count),
            r matches Err(e) ==> e.spec_kind() == ErrorKind::Io,
    {
        match &mut self.backing {
            Backing::Internal(streams) => streams.stdin.read(count),
            Backing::System(streams) => match system_stdin_read(&mut streams.stdin, count) {
                Ok(v) => Ok(v),
                Err(e) => Err(Error::from_io(e)),
            },
        }
    }

    /// The input buffer of an internal console, for inspection.
    pub fn stdin_buffer(&self) -> (r: Option<&Buffer>)
        ensures
            self.spec_is_internal() ==> (r matches Some(b) && b@ == self.stdin_bytes()
                && b.spec_tty() == self.stdin_tty() && b.read_pos() == self.stdin_read_pos()),
            !self.spec_is_internal() ==> r is None,
    {
        match &self.backing {
            Backing::Internal(streams) => Some(&streams.stdin),
            Backing::System(_) => None,
        }
    }

    /// The output buffer of an internal console, for inspection.
    pub fn stdout_buffer(&self) -> (r: Option<&Buffer>)
        ensures
            self.spec_is_internal() ==> (r matches Some(b) && b@ == self.stdout_bytes()
                && b.spec_tty() == self.stdout_tty()),
            !self.spec_is_internal() ==> r is None,
    {
        match &self.backing {
            Backing::Internal(streams) => Some(&streams.stdout),
            Backing::System(_) => None,
        }
    }

    /// The error-output buffer of an internal console, for inspection.
    pub fn stderr_buffer(&self) -> (r: Option<&Buffer>)
        ensures
            self.spec_is_internal() ==> (r matches Some(b) && b@ == self.stderr_bytes()
                && b.spec_tty() == self.stderr_tty()),
            !self.spec_is_internal() ==> r is None,
    {
        match &self.backing {
            Backing::Internal(streams) => Some(&streams.stderr),
            Backing::System(_) => None,
        }
    }

    /// Consumes an internal console and hands back its three buffers, in
    /// input, output, error-output order, so a caller can retrieve storage
    /// it supplied to the builder.
    pub fn into_buffers(self) -> (r: Option<(Buffer, Buffer, Buffer)>)
        ensures
            self.spec_is_internal() ==> (r matches Some(t) && t.0@ == self.stdin_bytes() && t.0.spec_tty()
                == self.stdin_tty() && t.1@ == self.stdout_bytes() && t.1.spec_tty()
                == self.stdout_tty() && t.2@ == self.stderr_bytes() && t.2.spec_tty()
                == self.stderr_tty()),
            !self.spec_is_internal() ==> r is None,
    {
        match self.backing {
            Backing::Internal(streams) => Some((streams.stdin, streams.stdout, streams.stderr)),
            Backing::System(_) => None,
        }
    }
}

impl Default for Console {
    /// Binds the real process streams like [`Console::from_system`], but
    /// swallows a failed escape-sequence negotiation: default construction
    /// is deliberately infallible, best-effort.
    fn default() -> (r: Console)
        ensures
            !r.spec_is_internal(),
            r.wf(),
    {
        match Console::from_system() {
            Ok(console) => console,
            Err(_) => Console {
                backing: Backing::System(
                    SystemStreams {
                        stdin: acquire_stdin(),
                        stdout: acquire_stdout(),
                        stderr: acquire_stderr(),
                    },
                ),
            },
        }
    }
}

/// Assembles the internal representation of a [`Console`]: up to three
/// caller-supplied byte storages and three terminal flags, one per role.
/// Absent storage defaults to empty owned storage, absent flags to `false`.
/// Consumed by [`ConsoleBuilder::build`].
pub struct ConsoleBuilder {
    stdin: Option<Vec<u8>>,
    stdin_tty: bool,
    stdout: Option<Vec<u8>>,
    stdout_tty: bool,
    stderr: Option<Vec<u8>>,
    stderr_tty: bool,
}

/// The storage a builder role was given, or empty when none was.
pub open spec fn storage_or_empty(storage: Option<Seq<u8>>) -> Seq<u8> {
    match storage {
        Some(s) => s,
        None => Seq::empty(),
    }
}

impl ConsoleBuilder {
    /// The storage supplied for the input role, by contents.
    pub closed spec fn spec_stdin(&self) -> Option<Seq<u8>> {
        match self.stdin {
            Some(v) => Some(v@),
            None => None,
        }
    }

    /// The storage supplied for the output role, by contents.
    pub closed spec fn spec_stdout(&self) -> Option<Seq<u8>> {
        match self.stdout {
            Some(v) => Some(v@),
            None => None,
        }
    }

    /// The storage supplied for the error-output role, by contents.
    pub closed spec fn spec_stderr(&self) -> Option<Seq<u8>> {
        match self.stderr {
            Some(v) => Some(v@),
            None => None,
        }
    }

    /// The input role's terminal flag.
    pub closed spec fn spec_stdin_tty(&self) -> bool {
        self.stdin_tty
    }

    /// The output role's terminal flag.
    pub closed spec fn spec_stdout_tty(&self) -> bool {
        self.stdout_tty
    }

    /// The error-output role's terminal flag.
    pub closed spec fn spec_stderr_tty(&self) -> bool {
        self.stderr_tty
    }

    /// Supplies storage for the input role.
    pub fn stdin(self, buffer: Vec<u8>) -> (r: Self)
        ensures
            r.spec_stdin() == Some(buffer@),
            r.spec_stdout() == self.spec_stdout(),
            r.spec_stderr() == self.spec_stderr(),
            r.spec_stdin_tty() == self.spec_stdin_tty(),
            r.spec_stdout_tty() == self.spec_stdout_tty(),
            r.spec_stderr_tty() == self.spec_stderr_tty(),
    {
        Self { stdin: Some(buffer), ..self }
    }

    /// Sets the input role's terminal flag.
    pub fn stdin_tty(self, tty: bool) -> (r: Self)
        ensures
            r.spec_stdin() == self.spec_stdin(),
            r.spec_stdout() == self.spec_stdout(),
            r.spec_stderr() == self.spec_stderr(),
            r.spec_stdin_tty() == tty,
            r.spec_stdout_tty() == self.spec_stdout_tty(),
            r.spec_stderr_tty() == self.spec_stderr_tty(),
    {
        Self { stdin_tty: tty, ..self }
    }

    /// Supplies storage for the output role.
    pub fn stdout(self, buffer: Vec<u8>) -> (r: Self)
        ensures
            r.spec_stdin() == self.spec_stdin(),
            r.spec_stdout() == Some(buffer@),
            r.spec_stderr() == self.spec_stderr(),
            r.spec_stdin_tty() == self.spec_stdin_tty(),
            r.spec_stdout_tty() == self.spec_stdout_tty(),
            r.spec_stderr_tty() == self.spec_stderr_tty(),
    {
        Self { stdout: Some(buffer), ..self }
    }

    /// Sets the output role's terminal flag.
    pub fn stdout_tty(self, tty: bool) -> (r: Self)
        ensures
            r.spec_stdin() == self.spec_stdin(),
            r.spec_stdout() == self.spec_stdout(),
            r.spec_stderr() == self.spec_stderr(),
            r.spec_stdin_tty() == self.spec_stdin_tty(),
            r.spec_stdout_tty() == tty,
            r.spec_stderr_tty() == self.spec_stderr_tty(),
    {
        Self { stdout_tty: tty, ..self }
    }

    /// Supplies storage for the error-output role.
    pub fn stderr(self, buffer: Vec<u8>) -> (r: Self)
        ensures
            r.spec_stdin() == self.spec_stdin(),
            r.spec_stdout() == self.spec_stdout(),
            r.spec_stderr() == Some(buffer@),
            r.spec_stdin_tty() == self.spec_stdin_tty(),
            r.spec_stdout_tty() == self.spec_stdout_tty(),
            r.spec_stderr_tty() == self.spec_stderr_tty(),
    {
        Self { stderr: Some(buffer), ..self }
    }

    /// Sets the error-output role's terminal flag.
    pub fn stderr_tty(self, tty: bool) -> (r: Self)
        ensures
            r.spec_stdin() == self.spec_stdin(),
            r.spec_stdout() == self.spec_stdout(),
            r.spec_stderr() == self.spec_stderr(),
            r.spec_stdin_tty() == self.spec_stdin_tty(),
            r.spec_stdout_tty() == self.spec_stdout_tty(),
            r.spec_stderr_tty() == tty,
    {
        Self { stderr_tty: tty, ..self }
    }

    /// Builds an internal console: each role's buffer keeps the supplied
    /// storage's contents (empty when none was supplied) and the role's
    /// terminal flag. Never fails, and never touches the real streams or the
    /// capability negotiation.
    pub fn build(self) -> (r: Console)
        ensures
            r.spec_is_internal(),
            r.wf(),
            r.stdin_bytes() == storage_or_empty(self.spec_stdin()),
            r.stdout_bytes() == storage_or_empty(self.spec_stdout()),
            r.stderr_bytes() == storage_or_empty(self.spec_stderr()),
            r.stdin_tty() == self.spec_stdin_tty(),
            r.stdout_tty() == self.spec_stdout_tty(),
            r.stderr_tty() == self.spec_stderr_tty(),
            r.stdin_read_pos() == 0,
    {
        Console {
            backing: Backing::Internal(
                BufferStreams {
                    stdin: Buffer::from(self.stdin, self.stdin_tty),
                    stdout: Buffer::from(self.stdout, self.stdout_tty),
                    stderr: Buffer::from(self.stderr, self.stderr_tty),
                },
            ),
        }
    }
}

} // verus!

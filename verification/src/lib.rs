//! Answers one question about a standard stream: is it attached to an
//! interactive terminal, or is it redirected to a file, a pipe, or a detached
//! pseudo-console emulation layer?
//!
//! The decision procedure is `classify`, a verified function over explicit
//! host evidence: one `Host` variant per platform family, holding what the
//! native probes answered.  `is` and `isnt` gather that evidence live from
//! the host this build runs on and hand it to `classify`.

use vstd::prelude::*;

pub mod text;
pub mod windows;

use crate::windows::{windows_classify, windows_is_spec, HandleProbe};

verus! {

/// possible stream sources
#[derive(Clone, Copy, Debug)]
pub enum Stream {
    Stdout,
    Stderr,
    Stdin,
}

/// The evidence one classification gathers from the host: one variant per
/// platform family.  The family is fixed when the program is built; only the
/// probe answers inside the variant vary between calls.
pub enum Host {
    /// A POSIX-like host: the native terminal query's answer for each standard
    /// descriptor.  A failed query (a closed descriptor, say) is already
    /// absorbed into `false` by the probe itself.
    Posix { stdin_tty: bool, stdout_tty: bool, stderr_tty: bool },
    /// The Windows console subsystem: the console-mode and file-name probes
    /// for each standard handle.
    Windows { stdin: HandleProbe, stdout: HandleProbe, stderr: HandleProbe },
    /// A sandboxed target with no terminal concept at all.
    Sandboxed,
}

/// What `is` answers, given the gathered host evidence and the selector.
///
/// On a POSIX-like host it is the native query's answer, unmodified.  On a
/// Windows-family host the requested handle's probe is weighed against the
/// other two (`windows_is_spec`).  On a sandboxed target it is `false`.
pub open spec fn is_spec(h: Host, stream: Stream) -> bool {
    match h {
        Host::Posix { stdin_tty, stdout_tty, stderr_tty } => match stream {
            Stream::Stdout => stdout_tty,
            Stream::Stderr => stderr_tty,
            Stream::Stdin => stdin_tty,
        },
        Host::Windows { stdin, stdout, stderr } => match stream {
            Stream::Stdout => windows_is_spec(stdout, stdin, stderr),
            Stream::Stderr => windows_is_spec(stderr, stdin, stdout),
            Stream::Stdin => windows_is_spec(stdin, stderr, stdout),
        },
        Host::Sandboxed => false,
    }
}

/// What `isnt` answers: the negation of `is_spec`.
pub open spec fn isnt_spec(h: Host, stream: Stream) -> bool {
    !is_spec(h, stream)
}

/// The classification routine: decides `is_spec` on explicit host evidence.
pub fn classify(h: &Host, stream: Stream) -> (r: bool)
    ensures
        r == is_spec(*h, stream),
{
    match h {
        Host::Posix { stdin_tty, stdout_tty, stderr_tty } => match stream {
            Stream::Stdout => *stdout_tty,
            Stream::Stderr => *stderr_tty,
            Stream::Stdin => *stdin_tty,
        },
        Host::Windows { stdin, stdout, stderr } => match stream {
            Stream::Stdout => windows_classify(stdout, stdin, stderr),
            Stream::Stderr => windows_classify(stderr, stdin, stdout),
            Stream::Stdin => windows_classify(stdin, stderr, stdout),
        },
        Host::Sandboxed => false,
    }
}

/// Relies on std::io::stdin and std::io::IsTerminal::is_terminal: true exactly
/// when the host reports the standard input descriptor attached to a terminal;
/// any failure of the underlying query is absorbed into `false`.
#[verifier::external_body]
fn stdin_is_terminal() -> bool {
    std::io::IsTerminal::is_terminal(&std::io::stdin())
}

/// Relies on std::io::stdout and std::io::IsTerminal::is_terminal: true exactly
/// when the host reports the standard output descriptor attached to a terminal;
/// any failure of the underlying query is absorbed into `false`.
#[verifier::external_body]
fn stdout_is_terminal() -> bool {
    std::io::IsTerminal::is_terminal(&std::io::stdout())
}

/// Relies on std::io::stderr and std::io::IsTerminal::is_terminal: true exactly
/// when the host reports the standard error descriptor attached to a terminal;
/// any failure of the underlying query is absorbed into `false`.
#[verifier::external_body]
fn stderr_is_terminal() -> bool {
    std::io::IsTerminal::is_terminal(&std::io::stderr())
}

/// Gathers live evidence from the host this build runs on — a POSIX-like
/// family — with one native terminal query per standard descriptor.
pub fn detect_host() -> (h: Host)
    ensures
        h is Posix,
{
    Host::Posix {
        stdin_tty: stdin_is_terminal(),
        stdout_tty: stdout_is_terminal(),
        stderr_tty: stderr_is_terminal(),
    }
}

/// returns true if this is a tty
///
/// The answer is `classify` applied to freshly gathered host evidence, so it
/// follows the native probes' answers at the moment of the call; with the
/// streams unchanged, repeated calls gather the same evidence.
pub fn is(stream: Stream) -> bool {
    let h = detect_host();
    classify(&h, stream)
}

/// returns true if this is _not_ a tty
pub fn isnt(stream: Stream) -> bool {
    !crate::is(stream)
}

/// On a POSIX-like host the classification equals the native terminal query's
/// own answer for the selected descriptor, unmodified.
pub proof fn lemma_posix_follows_native_probe(
    stdin_tty: bool,
    stdout_tty: bool,
    stderr_tty: bool,
    stream: Stream,
)
    ensures
        is_spec((Host::Posix { stdin_tty, stdout_tty, stderr_tty }), stream) == (match stream {
            Stream::Stdout => stdout_tty,
            Stream::Stderr => stderr_tty,
            Stream::Stdin => stdin_tty,
        }),
{
}

/// `isnt` is the pure negation of `is`: on every host evidence and every
/// selector, whatever the probes answered.
pub proof fn lemma_isnt_is_negation(h: Host, stream: Stream)
    ensures
        isnt_spec(h, stream) == !is_spec(h, stream),
{
}

/// Classification is deterministic in the evidence: two calls that see the
/// same unchanged streams answer identically.
pub proof fn lemma_classification_idempotent(h: Host, stream: Stream, first: bool, second: bool)
    requires
        first == is_spec(h, stream),
        second == is_spec(h, stream),
    ensures
        first == second,
{
}

/// On a sandboxed target no stream is ever a terminal.
pub proof fn lemma_sandboxed_never_terminal(stream: Stream)
    ensures
        !is_spec(Host::Sandboxed, stream),
{
}

} // verus!

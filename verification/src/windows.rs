//! The Windows-family strategy: the console-mode query as the primary signal,
//! and the file-name heuristic that resolves the pseudo-console case, where a
//! terminal emulation layer presents a pipe instead of a native console.

use vstd::prelude::*;

use crate::text::{contains_sub, has_sub};

verus! {

/// What the native queries said about one standard handle: whether the
/// console-mode query succeeded on it, and the filesystem-level name bound to
/// it (`None` when the file-name query itself failed).
pub struct HandleProbe {
    pub console: bool,
    pub name: Option<String>,
}

/// A file name marks a pseudo-terminal bridge when it carries both a bridge
/// prefix of a POSIX-compatibility layer (`msys-` or `cygwin-`) and the
/// pseudo-terminal marker `-pty`.  Both are required: the marker alone could
/// belong to an ordinary file whose name happens to contain it.
pub open spec fn pty_bridge_name(n: Seq<char>) -> bool {
    (has_sub(n, "msys-"@) || has_sub(n, "cygwin-"@)) && has_sub(n, "-pty"@)
}

/// The file-name fallback: a failed name query is conclusively not a terminal,
/// otherwise the name itself decides.
pub open spec fn name_probe_spec(name: Option<String>) -> bool {
    match name {
        Option::Some(n) => pty_bridge_name(n@),
        Option::None => false,
    }
}

/// The Windows-family decision for the requested handle, given the probes of
/// all three standard handles.  A console-mode success on the requested handle
/// is conclusive evidence of a terminal.  A success on either other handle
/// shows a genuine console session, so the requested handle's failure is a
/// true negative.  Only when no handle shows a console does the file-name
/// heuristic decide.
pub open spec fn windows_is_spec(req: HandleProbe, other1: HandleProbe, other2: HandleProbe) -> bool {
    if req.console {
        true
    } else if other1.console || other2.console {
        false
    } else {
        name_probe_spec(req.name)
    }
}

/// Decides `pty_bridge_name` on a queried file name.
pub fn pty_bridge_check(name: &str) -> (r: bool)
    ensures
        r == pty_bridge_name(name@),
{
    (contains_sub(name, "msys-") || contains_sub(name, "cygwin-")) && contains_sub(name, "-pty")
}

/// Classifies the requested Windows-family handle from its own probe and the
/// probes of the other two standard handles.
pub fn windows_classify(req: &HandleProbe, other1: &HandleProbe, other2: &HandleProbe) -> (r:
    bool)
    ensures
        r == windows_is_spec(*req, *other1, *other2),
{
    if req.console {
        true
    } else if other1.console || other2.console {
        false
    } else {
        match &req.name {
            Option::Some(n) => pty_bridge_check(n.as_str()),
            Option::None => false,
        }
    }
}

/// A successful console-mode query on the requested handle is conclusive:
/// the stream is a terminal, whatever the other two probes showed.
pub proof fn lemma_console_mode_is_conclusive(
    req: HandleProbe,
    other1: HandleProbe,
    other2: HandleProbe,
)
    requires
        req.console,
    ensures
        windows_is_spec(req, other1, other2),
{
}

/// A console-mode success on either other handle shows a native console
/// session, so the requested handle's failure is a trusted negative.
pub proof fn lemma_other_console_is_negative(
    req: HandleProbe,
    other1: HandleProbe,
    other2: HandleProbe,
)
    requires
        !req.console,
        other1.console || other2.console,
    ensures
        !windows_is_spec(req, other1, other2),
{
}

/// With no console on any handle, a queried name that carries a bridge prefix
/// together with the pseudo-terminal marker is classified as a terminal.
pub proof fn lemma_bridge_name_is_terminal(
    req: HandleProbe,
    other1: HandleProbe,
    other2: HandleProbe,
    n: String,
)
    requires
        !req.console,
        !other1.console,
        !other2.console,
        req.name == Option::Some(n),
        has_sub(n@, "msys-"@) || has_sub(n@, "cygwin-"@),
        has_sub(n@, "-pty"@),
    ensures
        windows_is_spec(req, other1, other2),
{
}

/// With no console on any handle, the pseudo-terminal marker alone, without a
/// recognized bridge prefix, is insufficient evidence.
pub proof fn lemma_marker_without_prefix_is_negative(
    req: HandleProbe,
    other1: HandleProbe,
    other2: HandleProbe,
    n: String,
)
    requires
        !req.console,
        !other1.console,
        !other2.console,
        req.name == Option::Some(n),
        !has_sub(n@, "msys-"@),
        !has_sub(n@, "cygwin-"@),
        has_sub(n@, "-pty"@),
    ensures
        !windows_is_spec(req, other1, other2),
{
}

/// With no console on any handle, a failed file-name query is conclusively not
/// a terminal.
pub proof fn lemma_failed_name_probe_is_negative(
    req: HandleProbe,
    other1: HandleProbe,
    other2: HandleProbe,
)
    requires
        !req.console,
        !other1.console,
        !other2.console,
        req.name is None,
    ensures
        !windows_is_spec(req, other1, other2),
{
}

} // verus!

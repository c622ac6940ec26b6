// Classification on explicit host evidence: the same sessions the library's
// original test runners saw, replayed as evidence values, plus the scenarios
// of the Windows-family heuristic.

use atty::windows::HandleProbe;
use atty::{classify, Host, Stream};

/// A Windows session whose output and error streams the harness pipes, while
/// standard input stays on a native console.
fn piped_output_console_input() -> Host {
    Host::Windows {
        stdin: HandleProbe { console: true, name: None },
        stdout: HandleProbe { console: false, name: None },
        stderr: HandleProbe { console: false, name: None },
    }
}

/// An interactive POSIX session: every standard descriptor on a terminal.
fn interactive_posix() -> Host {
    Host::Posix { stdin_tty: true, stdout_tty: true, stderr_tty: true }
}

#[test]
fn is_err() {
    // the harness pipes its output
    assert!(!classify(&piped_output_console_input(), Stream::Stderr));
}

#[test]
fn is_out() {
    // the harness pipes its output
    assert!(!classify(&piped_output_console_input(), Stream::Stdout));
}

#[test]
fn is_in() {
    assert!(classify(&piped_output_console_input(), Stream::Stdin));
}

#[test]
fn lib_is_err() {
    assert!(classify(&interactive_posix(), Stream::Stderr));
}

#[test]
fn lib_is_out() {
    assert!(classify(&interactive_posix(), Stream::Stdout));
}

#[test]
fn lib_is_in() {
    assert!(classify(&interactive_posix(), Stream::Stdin));
}

#[test]
fn posix_follows_each_descriptor() {
    let h = Host::Posix { stdin_tty: true, stdout_tty: false, stderr_tty: true };
    assert!(classify(&h, Stream::Stdin));
    assert!(!classify(&h, Stream::Stdout));
    assert!(classify(&h, Stream::Stderr));
}

#[test]
fn sandboxed_never_terminal() {
    assert!(!classify(&Host::Sandboxed, Stream::Stdin));
    assert!(!classify(&Host::Sandboxed, Stream::Stdout));
    assert!(!classify(&Host::Sandboxed, Stream::Stderr));
}

fn no_console(name: Option<&str>) -> HandleProbe {
    HandleProbe { console: false, name: name.map(|n| n.to_string()) }
}

#[test]
fn console_mode_success_is_conclusive() {
    // a console on the requested handle decides, whatever the others show
    let h = Host::Windows {
        stdin: no_console(None),
        stdout: HandleProbe { console: true, name: None },
        stderr: no_console(Some("\\share-data")),
    };
    assert!(classify(&h, Stream::Stdout));
}

#[test]
fn other_console_makes_failure_a_true_negative() {
    // stdout shows a console, so stderr's failed query is trusted
    let h = Host::Windows {
        stdin: no_console(Some("\\msys-1cf6224e11267bb6-pty0-from-master")),
        stdout: HandleProbe { console: true, name: None },
        stderr: no_console(Some("\\msys-1cf6224e11267bb6-pty0-from-master")),
    };
    assert!(!classify(&h, Stream::Stderr));
}

#[test]
fn msys_pty_name_is_terminal() {
    let h = Host::Windows {
        stdin: no_console(None),
        stdout: no_console(Some("\\msys-1cf6224e11267bb6-pty0-from-master")),
        stderr: no_console(None),
    };
    assert!(classify(&h, Stream::Stdout));
}

#[test]
fn cygwin_pty_name_is_terminal() {
    let h = Host::Windows {
        stdin: no_console(None),
        stdout: no_console(None),
        stderr: no_console(Some("\\cygwin-e022582115c10879-pty4-to-master")),
    };
    assert!(classify(&h, Stream::Stderr));
}

#[test]
fn pty_marker_without_bridge_prefix_is_not_terminal() {
    // an ordinary file whose name happens to contain the marker
    let h = Host::Windows {
        stdin: no_console(None),
        stdout: no_console(Some("\\reports-pty0-archive")),
        stderr: no_console(None),
    };
    assert!(!classify(&h, Stream::Stdout));
}

#[test]
fn bridge_prefix_without_pty_marker_is_not_terminal() {
    let h = Host::Windows {
        stdin: no_console(None),
        stdout: no_console(Some("\\msys-1cf6224e11267bb6-data")),
        stderr: no_console(None),
    };
    assert!(!classify(&h, Stream::Stdout));
}

#[test]
fn failed_name_probe_is_not_terminal() {
    let h = Host::Windows {
        stdin: no_console(None),
        stdout: no_console(None),
        stderr: no_console(None),
    };
    assert!(!classify(&h, Stream::Stdin));
    assert!(!classify(&h, Stream::Stdout));
    assert!(!classify(&h, Stream::Stderr));
}

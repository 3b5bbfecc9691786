//! The ways in which a run ends without its result.

use vstd::prelude::*;

verus! {

/// Why a run was given up.
#[derive(Clone, Copy, Debug, PartialEq, Eq, Structural)]
pub enum ErrorKind {
    /// The network or the remote service failed.
    Transport,
    /// A reply did not have the expected shape.
    Decode,
    /// A directory or a file could not be created, written or removed.
    Filesystem,
    /// The transcoder could not be started or reported a failure.
    Transcode,
    /// The invocation names no run mode, or two that exclude each other.
    Usage,
}

impl ErrorKind {
    /// The exit status that stands for this kind.
    pub open spec fn code(self) -> u8 {
        match self {
            ErrorKind::Usage => 2,
            ErrorKind::Transport => 3,
            ErrorKind::Decode => 4,
            ErrorKind::Filesystem => 5,
            ErrorKind::Transcode => 6,
        }
    }

    /// The exit status with which a process reports this kind: never zero, and
    /// a different one for each kind.
    pub fn exit_code(self) -> (c: u8)
        ensures
            c == self.code(),
            c != 0,
    {
        match self {
            ErrorKind::Usage => 2,
            ErrorKind::Transport => 3,
            ErrorKind::Decode => 4,
            ErrorKind::Filesystem => 5,
            ErrorKind::Transcode => 6,
        }
    }

    /// A short name for messages.
    pub fn name(self) -> (s: &'static str)
        ensures
            s@ == match self {
                ErrorKind::Transport => "transport error"@,
                ErrorKind::Decode => "decode error"@,
                ErrorKind::Filesystem => "filesystem error"@,
                ErrorKind::Transcode => "transcode error"@,
                ErrorKind::Usage => "usage error"@,
            },
    {
        match self {
            ErrorKind::Transport => "transport error",
            ErrorKind::Decode => "decode error",
            ErrorKind::Filesystem => "filesystem error",
            ErrorKind::Transcode => "transcode error",
            ErrorKind::Usage => "usage error",
        }
    }
}

/// Two kinds with the same exit status are the same kind.
pub proof fn law_exit_codes_differ(a: ErrorKind, b: ErrorKind)
    requires
        a.code() == b.code(),
    ensures
        a == b,
{
}

} // verus!

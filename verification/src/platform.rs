//! Platform families, the path-tracing utilities they offer, and what a
//! subprocess run by the caller came to.

use vstd::prelude::*;

verus! {

/// The platform family that the program runs on.
#[derive(Clone, Copy, Debug, PartialEq, Eq, Structural)]
pub enum Platform {
    Windows,
    Linux,
    MacOs,
    /// Any other platform.
    Other,
}

/// A path-tracing utility of the operating system.
#[derive(Clone, Copy, Debug, PartialEq, Eq, Structural)]
pub enum Utility {
    Tracert,
    Tracepath,
    Traceroute,
}

/// The name under which a utility is invoked.
pub open spec fn utility_name(utility: Utility) -> Seq<char> {
    match utility {
        Utility::Tracert => "tracert"@,
        Utility::Tracepath => "tracepath"@,
        Utility::Traceroute => "traceroute"@,
    }
}

impl Utility {
    /// The name under which the utility is invoked.
    pub fn name(&self) -> (name: &'static str)
        ensures
            name@ == utility_name(*self),
    {
        match self {
            Utility::Tracert => "tracert",
            Utility::Tracepath => "tracepath",
            Utility::Traceroute => "traceroute",
        }
    }
}

/// What became of a subprocess.
#[derive(Clone, Debug, PartialEq, Eq)]
pub enum ProcessOutcome {
    /// It ran to its end; `success` tells whether its exit status was zero.
    Exited { success: bool, stdout: String, stderr: String },
    /// It could not be started; `error` describes why.
    NotSpawned { error: String },
}

impl ProcessOutcome {
    /// The process ran and exited with success.
    pub open spec fn succeeded(self) -> bool {
        self matches ProcessOutcome::Exited { success, .. } && success
    }

    /// The process was started and ran, whatever its exit status.
    pub open spec fn ran(self) -> bool {
        self is Exited
    }

    /// The text that describes a failure: the standard error of a process
    /// that ran, or the reason why none was started.
    pub open spec fn diagnostic(self) -> String {
        match self {
            ProcessOutcome::Exited { stderr, .. } => stderr,
            ProcessOutcome::NotSpawned { error } => error,
        }
    }
}

} // verus!

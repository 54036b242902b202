//! How the availability of a tool is found out.

use vstd::prelude::*;

verus! {

/// The kind of system that tools run on.
#[derive(Debug, Clone, Copy, PartialEq, Eq, Structural)]
pub enum Platform {
    /// Processes can be spawned; `which` locates programs.
    Unix,
    /// Processes can be spawned; `where` locates programs.
    Windows,
    /// A WASI guest: its host runs the tools.
    Wasi,
    /// No process support: tools are unavailable.
    Other,
}

/// A way of finding out whether a tool exists.
#[derive(Debug, Clone, Copy, PartialEq, Eq, Structural)]
pub enum Probe {
    /// Run `which` with the name of the tool.
    Which,
    /// Run `where` with the name of the tool.
    Where,
    /// Ask the host.
    Host,
}

/// What a probe brought back.
#[derive(Debug, Clone, Copy, PartialEq, Eq, Structural)]
pub enum ProbeAnswer {
    /// The locating program ran; its exit code, unless a signal ended it.
    LocatorExited { code: Option<i32> },
    /// The locating program could not be run.
    LocatorFailed,
    /// The host's answer: non-zero if the tool is available.
    Host { answer: i32 },
}

/// What is known about a tool's availability.
#[derive(Debug, Clone, Copy, PartialEq, Eq, Structural)]
pub enum Availability {
    /// The tool is known to be available, or known not to be.
    Known { available: bool },
    /// A probe has to find out.
    Unknown { probe: Probe },
}

impl Platform {
    /// How the existence of the tool `name` is checked on this platform, or the
    /// answer where it needs no probe.
    pub open spec fn existence(self, name: Seq<char>) -> Availability {
        match self {
            Platform::Unix => Availability::Unknown { probe: Probe::Which },
            Platform::Windows => Availability::Unknown { probe: Probe::Where },
            Platform::Wasi => if name.len() == 0 {
                Availability::Known { available: false }
            } else {
                Availability::Unknown { probe: Probe::Host }
            },
            Platform::Other => Availability::Known { available: false },
        }
    }
}

impl Probe {
    /// The program that locates a tool whose name it is given, or `None` where
    /// the host is asked.
    pub fn locator(&self) -> (program: Option<&'static str>)
        ensures
            match *self {
                Probe::Which => program matches Some(p) && p@ == "which"@,
                Probe::Where => program matches Some(p) && p@ == "where"@,
                Probe::Host => program is None,
            },
    {
        match self {
            Probe::Which => Some("which"),
            Probe::Where => Some("where"),
            Probe::Host => None,
        }
    }
}

impl ProbeAnswer {
    /// Whether the answer says that the tool exists.
    pub open spec fn says_found(self) -> bool {
        match self {
            ProbeAnswer::LocatorExited { code } => code == Some(0i32),
            ProbeAnswer::LocatorFailed => false,
            ProbeAnswer::Host { answer } => answer != 0,
        }
    }

    /// Whether the answer says that the tool exists: the locating program
    /// exited with code 0, or the host answered with a non-zero value.
    pub fn found(&self) -> (found: bool)
        ensures
            found == self.says_found(),
            match *self {
                ProbeAnswer::LocatorExited { code } => found == (code == Some(0i32)),
                ProbeAnswer::LocatorFailed => !found,
                ProbeAnswer::Host { answer } => found <==> answer != 0,
            },
    {
        match *self {
            ProbeAnswer::LocatorExited { code } => match code {
                Some(c) => c == 0,
                None => false,
            },
            ProbeAnswer::LocatorFailed => false,
            ProbeAnswer::Host { answer } => answer != 0,
        }
    }
}

} // verus!

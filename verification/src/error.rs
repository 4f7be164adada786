//! The failures the host tells apart, and which of them stop it.

use vstd::prelude::*;

verus! {

/// A failure of the host. Each carries the words it is reported with.
#[derive(Debug, Clone)]
pub enum HostError {
    /// A plugin's binary is missing, unreadable or malformed.
    Load(String),
    /// A plugin could not be bound to its capabilities, or failed to start.
    Instantiation(String),
    /// A mediated operation failed.
    Capability(String),
    /// A plugin's poll failed or returned what could not be read.
    Poll(String),
    /// The readings could not be pushed to the peer.
    Forward(String),
    /// The dashboard could not be rendered.
    Render(String),
}

/// When a failure happens: while the host starts, or while it runs.
#[derive(Debug, Clone, Copy, PartialEq, Eq, Structural)]
pub enum Phase {
    Startup,
    Running,
}

impl HostError {
    /// The failure keeps a plugin from being brought up.
    pub open spec fn blocks_loading(&self) -> bool {
        self is Load || self is Instantiation
    }

    /// The failure stops the host when it happens in `phase`: only a plugin
    /// that cannot be brought up at startup does. Everything else is
    /// reported, and the host goes on.
    pub open spec fn fatal_in(&self, phase: Phase) -> bool {
        phase == Phase::Startup && self.blocks_loading()
    }

    /// Whether the failure stops the host when it happens in `phase`.
    pub fn is_fatal(&self, phase: Phase) -> (fatal: bool)
        ensures
            fatal == self.fatal_in(phase),
            self is Capability || self is Poll || self is Forward || self is Render ==> !fatal,
            phase == Phase::Running ==> !fatal,
    {
        match phase {
            Phase::Startup => match self {
                HostError::Load(_) => true,
                HostError::Instantiation(_) => true,
                _ => false,
            },
            Phase::Running => false,
        }
    }

    /// The words the failure is reported with.
    pub open spec fn text(&self) -> Seq<char> {
        match self {
            HostError::Load(m) => m@,
            HostError::Instantiation(m) => m@,
            HostError::Capability(m) => m@,
            HostError::Poll(m) => m@,
            HostError::Forward(m) => m@,
            HostError::Render(m) => m@,
        }
    }

    /// The words the failure is reported with.
    pub fn message(&self) -> (m: &String)
        ensures
            m@ == self.text(),
    {
        match self {
            HostError::Load(m) => m,
            HostError::Instantiation(m) => m,
            HostError::Capability(m) => m,
            HostError::Poll(m) => m,
            HostError::Forward(m) => m,
            HostError::Render(m) => m,
        }
    }
}

} // verus!

//! Kinds of services and protocols.

use vstd::prelude::*;

verus! {

/// How long a service lives.
#[derive(Clone, Copy, Debug, PartialEq, Eq, Structural)]
pub enum McpType {
    /// Runs one job and ends. Only an explicit request starts it.
    OneShot,
    /// Is kept alive, and restarted when it is found unhealthy.
    Persistent,
}

impl McpType {
    /// The name of the kind.
    pub open spec fn name_text(self) -> Seq<char> {
        match self {
            McpType::OneShot => "OneShot"@,
            McpType::Persistent => "Persistent"@,
        }
    }

    /// The name of the kind.
    pub fn name(self) -> (r: &'static str)
        ensures
            r@ == self.name_text(),
    {
        match self {
            McpType::OneShot => "OneShot",
            McpType::Persistent => "Persistent",
        }
    }
}

/// A protocol spoken with a client or with a backend.
#[derive(Clone, Copy, Debug, PartialEq, Eq, Structural)]
pub enum McpProtocol {
    /// A child process on standard input and output.
    Stdio,
    /// Server-sent events.
    Sse,
    /// Streamable HTTP.
    Stream,
}

/// What the service registry says of a service.
#[derive(Clone, Debug)]
pub enum ServiceStatus {
    /// Still starting.
    Pending,
    /// Started.
    Ready,
    /// Failed to start, with the reason.
    Error(String),
}

} // verus!

//! The error type shared by the agents.

use vstd::prelude::*;

verus! {

/// What went wrong while configuring, invoking or reading an agent.
#[derive(Debug)]
pub enum AgentError {
    Configuration(String),
    Invocation(String),
    Response(String),
}

impl AgentError {
    /// The human-readable text of the error.
    pub open spec fn text(&self) -> Seq<char> {
        match self {
            AgentError::Configuration(m) => "agent configuration error: "@ + m@,
            AgentError::Invocation(m) => "agent invocation error: "@ + m@,
            AgentError::Response(m) => "agent response error: "@ + m@,
        }
    }

    /// The human-readable text of the error, e.g. `agent response error: <detail>`.
    pub fn to_string(&self) -> (r: String)
        ensures
            r@ == self.text(),
    {
        let mut r = String::new();
        match self {
            AgentError::Configuration(m) => {
                r.append("agent configuration error: ");
                r.append(m.as_str());
            },
            AgentError::Invocation(m) => {
                r.append("agent invocation error: ");
                r.append(m.as_str());
            },
            AgentError::Response(m) => {
                r.append("agent response error: ");
                r.append(m.as_str());
            },
        }
        r
    }
}

/// A response error carrying the given literal text.
pub fn response_error(m: &str) -> (e: AgentError)
    ensures
        e matches AgentError::Response(s) && s@ == m@,
{
    AgentError::Response(m.to_owned())
}

} // verus!

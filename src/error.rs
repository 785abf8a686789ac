//! The error kinds that the pipeline reports.

use vstd::prelude::*;

verus! {

/// A failure of one pipeline stage, with a message for the user.
#[derive(Debug)]
pub enum PipelineError {
    /// Missing credentials or configuration.
    Config(String),
    /// A failed request to the provider, or a reply that could not be used.
    Transport(String),
    /// The provider stayed overloaded after every retry.
    Overload(String),
    /// Malformed XML or JSON at a parse boundary.
    Format(String),
    /// A file could not be read, written or removed.
    Filesystem(String),
    /// An external utility could not be spawned or did not succeed.
    Subprocess(String),
}

impl PipelineError {
    pub fn message(&self) -> (r: String)
        ensures
            r@ == self.spec_message()@,
    {
        match self {
            PipelineError::Config(m) => m.clone(),
            PipelineError::Transport(m) => m.clone(),
            PipelineError::Overload(m) => m.clone(),
            PipelineError::Format(m) => m.clone(),
            PipelineError::Filesystem(m) => m.clone(),
            PipelineError::Subprocess(m) => m.clone(),
        }
    }

    pub open spec fn spec_message(&self) -> String {
        match self {
            PipelineError::Config(m) => *m,
            PipelineError::Transport(m) => *m,
            PipelineError::Overload(m) => *m,
            PipelineError::Format(m) => *m,
            PipelineError::Filesystem(m) => *m,
            PipelineError::Subprocess(m) => *m,
        }
    }
}

} // verus!

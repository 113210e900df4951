//! The failures that the pipeline reports.
use vstd::prelude::*;

verus! {

/// Why a pipeline operation failed.
#[derive(Clone, Copy, Debug, PartialEq, Eq, Structural)]
pub enum PipelineError {
    /// A required setting is missing.
    Config,
    /// A network call to the model service failed.
    Transport,
    /// The model service answered with something of an unexpected shape.
    MalformedResponse,
    /// The vector store could not be reached.
    StoreUnavailable,
    /// The vector store refused a creation or a write.
    StoreWrite,
    /// The vector store refused a search.
    StoreRead,
    /// The configured chunk size is not a positive number.
    Chunking,
    /// A document name does not have the expected suffix.
    BadIdentifier,
}

impl PipelineError {
    /// The description of each failure.
    pub open spec fn describe(self) -> &'static str {
        match self {
            PipelineError::Config => "a required setting is missing",
            PipelineError::Transport => "the model service could not be reached",
            PipelineError::MalformedResponse => "the model service sent an unexpected response",
            PipelineError::StoreUnavailable => "the vector store could not be reached",
            PipelineError::StoreWrite => "the vector store refused the write",
            PipelineError::StoreRead => "the vector store refused the search",
            PipelineError::Chunking => "the chunk size must be positive",
            PipelineError::BadIdentifier => "bad request - doc type is incorrect...",
        }
    }

    /// A description of the failure, for logs and for callers.
    pub fn message(self) -> (text: &'static str)
        ensures
            text@ == self.describe()@,
    {
        match self {
            PipelineError::Config => "a required setting is missing",
            PipelineError::Transport => "the model service could not be reached",
            PipelineError::MalformedResponse => "the model service sent an unexpected response",
            PipelineError::StoreUnavailable => "the vector store could not be reached",
            PipelineError::StoreWrite => "the vector store refused the write",
            PipelineError::StoreRead => "the vector store refused the search",
            PipelineError::Chunking => "the chunk size must be positive",
            PipelineError::BadIdentifier => "bad request - doc type is incorrect...",
        }
    }
}

} // verus!

//! The failure kinds of the pipeline, and the policy that decides which of
//! them abort the run. Every kind but the prompt-length condition is fatal
//! and reaches the process boundary; a too-long prompt is reported and the
//! run ends as a successful no-op, since the user can shorten the request.

use vstd::prelude::*;
use vstd::string::StringExecFns;

verus! {

/// One failure kind for each operation of the pipeline that can fail.
#[derive(Clone, Copy, Debug, PartialEq, Eq, Structural)]
pub enum PipelineError {
    /// No cache directory could be determined for the model file.
    CacheDirUnavailable,
    /// The model file could not be written to the cache.
    ModelExtractionIo,
    /// The inference backend failed to initialize.
    EngineInit,
    /// The model file failed to load.
    ModelLoad,
    /// No decode session could be created.
    SessionCreation,
    /// The tokenized prompt does not fit the context window (soft).
    PromptTooLong,
    /// The prompt could not be tokenized.
    Tokenization,
    /// A batch submission to the engine failed.
    Decode,
    /// A sampled token could not be turned back into text.
    Detokenization,
}

/// The description each kind carries to the diagnostic stream.
pub open spec fn describe_spec(e: PipelineError) -> Seq<char> {
    match e {
        PipelineError::CacheDirUnavailable => "Unable to determine cache directory"@,
        PipelineError::ModelExtractionIo => "Unable to write the model to the cache"@,
        PipelineError::EngineInit => "Unable to initialize the inference backend"@,
        PipelineError::ModelLoad => "Unable to load the model"@,
        PipelineError::SessionCreation => "Unable to create a decode session"@,
        PipelineError::PromptTooLong => "Prompt too long."@,
        PipelineError::Tokenization => "Unable to tokenize the prompt"@,
        PipelineError::Decode => "Decoding failed"@,
        PipelineError::Detokenization => "Unable to detokenize a sampled token"@,
    }
}

impl PipelineError {
    /// Every kind but `PromptTooLong` propagates and ends the process
    /// with a non-zero status.
    pub fn is_fatal(&self) -> (r: bool)
        ensures
            r == !(*self is PromptTooLong),
    {
        !(matches!(self, PipelineError::PromptTooLong))
    }

    /// The diagnostic line for this kind.
    pub fn describe(&self) -> (r: String)
        ensures
            r@ == describe_spec(*self),
    {
        match self {
            PipelineError::CacheDirUnavailable => String::from_str(
                "Unable to determine cache directory",
            ),
            PipelineError::ModelExtractionIo => String::from_str(
                "Unable to write the model to the cache",
            ),
            PipelineError::EngineInit => String::from_str(
                "Unable to initialize the inference backend",
            ),
            PipelineError::ModelLoad => String::from_str("Unable to load the model"),
            PipelineError::SessionCreation => String::from_str(
                "Unable to create a decode session",
            ),
            PipelineError::PromptTooLong => String::from_str("Prompt too long."),
            PipelineError::Tokenization => String::from_str("Unable to tokenize the prompt"),
            PipelineError::Decode => String::from_str("Decoding failed"),
            PipelineError::Detokenization => String::from_str(
                "Unable to detokenize a sampled token",
            ),
        }
    }
}

} // verus!

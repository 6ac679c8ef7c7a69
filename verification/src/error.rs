//! What can go wrong while one announcement is handled.

use vstd::prelude::*;

verus! {

/// A failure that ends the handling of one event and nothing else.
#[derive(Clone, Copy, Debug, PartialEq, Eq, Structural)]
pub enum PipelineError {
    /// The speech synthesizer could not be run at all.
    SynthesisUnavailable,
    /// The speech synthesizer ran but left no usable audio.
    SynthesisFailed,
    /// The voice transport refused to join the channel.
    JoinFailure,
    /// The voice transport refused to leave the guild.
    LeaveFailure,
    /// A collaborator handed over an event that lacks a field it owes, or
    /// reported something nobody asked for.
    PreconditionViolation,
}

impl PipelineError {
    /// A short human-readable description, for logs.
    pub fn describe(&self) -> (text: &'static str)
        ensures
            text@ == match *self {
                PipelineError::SynthesisUnavailable => "speech synthesis is unavailable"@,
                PipelineError::SynthesisFailed => "speech synthesis produced no audio"@,
                PipelineError::JoinFailure => "could not join the voice channel"@,
                PipelineError::LeaveFailure => "could not leave the voice session"@,
                PipelineError::PreconditionViolation => "the event lacks a required field"@,
            },
    {
        match self {
            PipelineError::SynthesisUnavailable => "speech synthesis is unavailable",
            PipelineError::SynthesisFailed => "speech synthesis produced no audio",
            PipelineError::JoinFailure => "could not join the voice channel",
            PipelineError::LeaveFailure => "could not leave the voice session",
            PipelineError::PreconditionViolation => "the event lacks a required field",
        }
    }
}

} // verus!

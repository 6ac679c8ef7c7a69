//! The track lifecycle notifiers: what to do when a queued greeting begins
//! to play, and when it has ended.

use crate::error::PipelineError;
use crate::protocol::{action_view, Action, ActionView, Event, QueueStatus};
use vstd::prelude::*;

verus! {

/// Reacts to the start of a greeting: brings the bot to the channel of the
/// member it greets, then restarts the track.
#[derive(Clone, Copy, Debug, PartialEq, Eq, Structural)]
pub struct BeginTrackNotifier {
    pub guild_id: u64,
    pub channel_id: u64,
}

/// Reacts to the end of a greeting: leaves the guild's voice session once
/// nothing is queued.
#[derive(Clone, Copy, Debug, PartialEq, Eq, Structural)]
pub struct EndTrackNotifier {
    pub guild_id: u64,
}

/// How far the reaction to a track's start has come.
#[derive(Clone, Copy, Debug, PartialEq, Eq, Structural)]
pub enum BeginStage {
    /// The join was asked for and its answer is awaited.
    Relocating,
    /// The bot is in the channel and the track was sent back to its start.
    Rewound,
    /// The reaction was given up.
    Failed(PipelineError),
}

/// How far the reaction to a track's end has come.
#[derive(Clone, Copy, Debug, PartialEq, Eq, Structural)]
pub enum EndStage {
    /// The queue's status was asked for and is awaited.
    Inspecting,
    /// The leave was asked for and its answer is awaited.
    Leaving,
    /// There was nothing to do: tracks are still queued, or there is no
    /// session.
    Kept,
    /// The bot has left the guild's voice session.
    Disconnected,
    /// The reaction was given up.
    Failed(PipelineError),
}

impl BeginStage {
    /// Whether the reaction is over.
    pub open spec fn settled(self) -> bool {
        !(self is Relocating)
    }

    /// Whether the reaction is over.
    pub fn is_settled(&self) -> (over: bool)
        ensures
            over == self.settled(),
    {
        match self {
            BeginStage::Relocating => false,
            _ => true,
        }
    }
}

impl EndStage {
    /// Whether the reaction is over.
    pub open spec fn settled(self) -> bool {
        !(self is Inspecting || self is Leaving)
    }

    /// Whether the reaction is over.
    pub fn is_settled(&self) -> (over: bool)
        ensures
            over == self.settled(),
    {
        match self {
            EndStage::Inspecting => false,
            EndStage::Leaving => false,
            _ => true,
        }
    }
}

impl BeginTrackNotifier {
    /// The first move when the track begins: join the channel of this
    /// welcome.
    pub open spec fn act_spec(self) -> (BeginStage, ActionView) {
        (
            BeginStage::Relocating,
            ActionView::Join { guild_id: self.guild_id, channel_id: self.channel_id },
        )
    }

    /// The move that follows `event` in stage `stage`.
    ///
    /// A join that succeeded is followed by a rewind, which ends the
    /// reaction. A join that failed ends it with the failure. A settled
    /// reaction stays as it is. Any other event is a breach by the driver.
    pub open spec fn resume_spec(self, stage: BeginStage, event: Event) -> (
        BeginStage,
        Option<ActionView>,
    ) {
        match stage {
            BeginStage::Relocating => match event {
                Event::Joined { ok: true } => (
                    BeginStage::Rewound,
                    Some(ActionView::Rewind { guild_id: self.guild_id }),
                ),
                Event::Joined { ok: false } => (
                    BeginStage::Failed(PipelineError::JoinFailure),
                    None,
                ),
                _ => (BeginStage::Failed(PipelineError::PreconditionViolation), None),
            },
            _ => (stage, None),
        }
    }

    /// Called when the track begins to play.
    pub fn act(&self) -> (step: (BeginStage, Action))
        ensures
            step.0 == self.act_spec().0,
            step.1@ == self.act_spec().1,
    {
        (
            BeginStage::Relocating,
            Action::Join { guild_id: self.guild_id, channel_id: self.channel_id },
        )
    }

    /// Called with the driver's answer to the previous action.
    pub fn resume(&self, stage: BeginStage, event: Event) -> (step: (BeginStage, Option<Action>))
        ensures
            step.0 == self.resume_spec(stage, event).0,
            action_view(step.1) == self.resume_spec(stage, event).1,
    {
        match stage {
            BeginStage::Relocating => match event {
                Event::Joined { ok } => {
                    if ok {
                        (BeginStage::Rewound, Some(Action::Rewind { guild_id: self.guild_id }))
                    } else {
                        (BeginStage::Failed(PipelineError::JoinFailure), None)
                    }
                },
                _ => (BeginStage::Failed(PipelineError::PreconditionViolation), None),
            },
            _ => (stage, None),
        }
    }
}

impl EndTrackNotifier {
    /// The first move when the track has ended: look at the guild's queue.
    pub open spec fn act_spec(self) -> (EndStage, ActionView) {
        (EndStage::Inspecting, ActionView::CheckQueue { guild_id: self.guild_id })
    }

    /// The move that follows `event` in stage `stage`.
    ///
    /// An empty queue is followed by a leave, and the leave's answer ends
    /// the reaction. A queue that still holds tracks, or a missing session,
    /// ends it at once. A settled reaction stays as it is. Any other event
    /// is a breach by the driver.
    pub open spec fn resume_spec(self, stage: EndStage, event: Event) -> (
        EndStage,
        Option<ActionView>,
    ) {
        match stage {
            EndStage::Inspecting => match event {
                Event::QueueChecked(QueueStatus::Empty) => (
                    EndStage::Leaving,
                    Some(ActionView::Leave { guild_id: self.guild_id }),
                ),
                Event::QueueChecked(_) => (EndStage::Kept, None),
                _ => (EndStage::Failed(PipelineError::PreconditionViolation), None),
            },
            EndStage::Leaving => match event {
                Event::Left { ok: true } => (EndStage::Disconnected, None),
                Event::Left { ok: false } => (EndStage::Failed(PipelineError::LeaveFailure), None),
                _ => (EndStage::Failed(PipelineError::PreconditionViolation), None),
            },
            _ => (stage, None),
        }
    }

    /// Called when the track has ended.
    pub fn act(&self) -> (step: (EndStage, Action))
        ensures
            step.0 == self.act_spec().0,
            step.1@ == self.act_spec().1,
    {
        (EndStage::Inspecting, Action::CheckQueue { guild_id: self.guild_id })
    }

    /// Called with the driver's answer to the previous action.
    pub fn resume(&self, stage: EndStage, event: Event) -> (step: (EndStage, Option<Action>))
        ensures
            step.0 == self.resume_spec(stage, event).0,
            action_view(step.1) == self.resume_spec(stage, event).1,
    {
        match stage {
            EndStage::Inspecting => match event {
                Event::QueueChecked(status) => match status {
                    QueueStatus::Empty => (
                        EndStage::Leaving,
                        Some(Action::Leave { guild_id: self.guild_id }),
                    ),
                    _ => (EndStage::Kept, None),
                },
                _ => (EndStage::Failed(PipelineError::PreconditionViolation), None),
            },
            EndStage::Leaving => match event {
                Event::Left { ok } => {
                    if ok {
                        (EndStage::Disconnected, None)
                    } else {
                        (EndStage::Failed(PipelineError::LeaveFailure), None)
                    }
                },
                _ => (EndStage::Failed(PipelineError::PreconditionViolation), None),
            },
            _ => (stage, None),
        }
    }
}

} // verus!

//! The join filter: which voice-state transitions deserve a greeting.

use crate::error::PipelineError;
use vstd::prelude::*;

verus! {

/// One voice-state change of one member, as the gateway reported it.
#[derive(Clone, Copy, Debug, PartialEq, Eq, Structural)]
pub struct VoiceTransition {
    /// Who moved.
    pub actor_id: u64,
    /// The channel the actor was in before, if any.
    pub previous_channel: Option<u64>,
    /// The channel the actor is in now, if any.
    pub new_channel: Option<u64>,
    /// The guild in which this happened, if the gateway said so.
    pub guild_id: Option<u64>,
}

/// Why a transition is not announced.
#[derive(Clone, Copy, Debug, PartialEq, Eq, Structural)]
pub enum RejectReason {
    /// The actor left voice altogether.
    LeftVoice,
    /// The actor is still in the channel it was in.
    SameChannel,
    /// The actor is on the denylist.
    DeniedActor,
}

/// Whom to greet, and where.
#[derive(Clone, Copy, Debug, PartialEq, Eq, Structural)]
pub struct JoinTarget {
    pub actor_id: u64,
    pub channel_id: u64,
    pub guild_id: u64,
}

/// The filter's verdict on a transition.
#[derive(Clone, Copy, Debug, PartialEq, Eq, Structural)]
pub enum JoinDecision {
    Accept(JoinTarget),
    Reject(RejectReason),
}

/// The first rule that rejects `t`, if one does. The rules apply in this
/// order: no new channel; unchanged channel; denied actor.
pub open spec fn rejection(t: VoiceTransition, denylist: Seq<u64>) -> Option<RejectReason> {
    if t.new_channel is None {
        Some(RejectReason::LeftVoice)
    } else if t.previous_channel == t.new_channel {
        Some(RejectReason::SameChannel)
    } else if denylist.contains(t.actor_id) {
        Some(RejectReason::DeniedActor)
    } else {
        None
    }
}

/// The verdict on `t`: a rejection where a rule rejects; otherwise an
/// acceptance that carries the new channel and the guild forward, which is
/// an error where the guild is missing.
pub open spec fn verdict(t: VoiceTransition, denylist: Seq<u64>) -> Result<
    JoinDecision,
    PipelineError,
> {
    match rejection(t, denylist) {
        Some(reason) => Ok(JoinDecision::Reject(reason)),
        None => match t.guild_id {
            Some(guild_id) => Ok(
                JoinDecision::Accept(
                    JoinTarget {
                        actor_id: t.actor_id,
                        channel_id: t.new_channel->0,
                        guild_id,
                    },
                ),
            ),
            None => Err(PipelineError::PreconditionViolation),
        },
    }
}

/// Whether `id` occurs in `list`.
pub fn is_listed(list: &[u64], id: u64) -> (found: bool)
    ensures
        found == list@.contains(id),
{
    let mut i: usize = 0;
    while i < list.len()
        invariant
            i <= list.len(),
            forall|j: int| 0 <= j < i ==> list@[j] != id,
        decreases list.len() - i,
    {
        if list[i] == id {
            return true;
        }
        i += 1;
    }
    false
}

impl VoiceTransition {
    /// Decides whether this transition is a new join worth announcing.
    ///
    /// A transition without a new channel, one whose channel did not change,
    /// and one by a denied actor are rejected, whatever else they hold.
    pub fn evaluate(&self, denylist: &[u64]) -> (decision: Result<JoinDecision, PipelineError>)
        ensures
            decision == verdict(*self, denylist@),
            self.new_channel is None ==> decision matches Ok(JoinDecision::Reject(_)),
            self.previous_channel is Some && self.previous_channel == self.new_channel
                ==> decision matches Ok(JoinDecision::Reject(_)),
            denylist@.contains(self.actor_id) ==> decision matches Ok(JoinDecision::Reject(_)),
    {
        let channel_id = match self.new_channel {
            None => {
                return Ok(JoinDecision::Reject(RejectReason::LeftVoice));
            },
            Some(channel_id) => channel_id,
        };
        if let Some(previous) = self.previous_channel {
            if previous == channel_id {
                return Ok(JoinDecision::Reject(RejectReason::SameChannel));
            }
        }
        if is_listed(denylist, self.actor_id) {
            return Ok(JoinDecision::Reject(RejectReason::DeniedActor));
        }
        match self.guild_id {
            Some(guild_id) => Ok(
                JoinDecision::Accept(JoinTarget { actor_id: self.actor_id, channel_id, guild_id }),
            ),
            None => Err(PipelineError::PreconditionViolation),
        }
    }
}

} // verus!

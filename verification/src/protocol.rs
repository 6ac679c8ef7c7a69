//! What the library asks of its driver, and what the driver reports back.
//!
//! The library never touches the disk, the synthesizer or the voice
//! transport. A decision function returns an [`Action`]; the driver performs
//! it and answers with the [`Event`] that the action calls for, if any.

use crate::cache::{RequestView, SynthesisOutcome, SynthesisRequest};
use crate::tracks::{BeginTrackNotifier, EndTrackNotifier};
use vstd::prelude::*;

verus! {

/// What a guild's play queue looks like.
#[derive(Clone, Copy, Debug, PartialEq, Eq, Structural)]
pub enum QueueStatus {
    /// The guild has no voice session at all.
    Missing,
    /// The session's queue holds nothing.
    Empty,
    /// The session's queue holds at least one track.
    Busy,
}

/// Something the driver found out or did on the library's behalf.
#[derive(Clone, Copy, Debug, PartialEq, Eq, Structural)]
pub enum Event {
    /// The answer to [`Action::Probe`].
    Probed { exists: bool },
    /// The answer to [`Action::Synthesize`].
    Synthesized(SynthesisOutcome),
    /// The answer to [`Action::CheckConnection`].
    ConnectionChecked { connected: bool },
    /// The answer to [`Action::Join`].
    Joined { ok: bool },
    /// The answer to [`Action::CheckQueue`].
    QueueChecked(QueueStatus),
    /// The answer to [`Action::Leave`].
    Left { ok: bool },
}

/// Something for the driver to do.
#[derive(Clone, Debug, PartialEq, Eq)]
pub enum Action {
    /// Find out whether a file exists at `path`.
    Probe { path: String },
    /// Have the synthesizer write the audio of a text.
    Synthesize(SynthesisRequest),
    /// Get the guild's voice session, creating an idle one if there is none,
    /// and find out whether it is attached to a channel.
    CheckConnection { guild_id: u64 },
    /// Join a voice channel of the guild.
    Join { guild_id: u64, channel_id: u64 },
    /// Append a restartable audio source to the guild's play queue and
    /// register the two notifiers on the new track. Nothing is reported back.
    Enqueue {
        guild_id: u64,
        source_path: String,
        on_begin: BeginTrackNotifier,
        on_end: EndTrackNotifier,
    },
    /// Seek the guild's current track back to its start. Nothing is reported
    /// back.
    Rewind { guild_id: u64 },
    /// Look at the guild's play queue.
    CheckQueue { guild_id: u64 },
    /// Leave the guild's voice session.
    Leave { guild_id: u64 },
}

/// An [`Action`] as a value.
pub enum ActionView {
    Probe { path: Seq<char> },
    Synthesize(RequestView),
    CheckConnection { guild_id: u64 },
    Join { guild_id: u64, channel_id: u64 },
    Enqueue {
        guild_id: u64,
        source_path: Seq<char>,
        on_begin: BeginTrackNotifier,
        on_end: EndTrackNotifier,
    },
    Rewind { guild_id: u64 },
    CheckQueue { guild_id: u64 },
    Leave { guild_id: u64 },
}

impl View for Action {
    type V = ActionView;

    open spec fn view(&self) -> ActionView {
        match *self {
            Action::Probe { path } => ActionView::Probe { path: path@ },
            Action::Synthesize(request) => ActionView::Synthesize(request@),
            Action::CheckConnection { guild_id } => ActionView::CheckConnection { guild_id },
            Action::Join { guild_id, channel_id } => ActionView::Join { guild_id, channel_id },
            Action::Enqueue { guild_id, source_path, on_begin, on_end } => ActionView::Enqueue {
                guild_id,
                source_path: source_path@,
                on_begin,
                on_end,
            },
            Action::Rewind { guild_id } => ActionView::Rewind { guild_id },
            Action::CheckQueue { guild_id } => ActionView::CheckQueue { guild_id },
            Action::Leave { guild_id } => ActionView::Leave { guild_id },
        }
    }
}

/// The value of an action that may be absent.
pub open spec fn action_view(action: Option<Action>) -> Option<ActionView> {
    match action {
        Some(action) => Some(action@),
        None => None,
    }
}

impl ActionView {
    /// Whether the driver owes an event for this action.
    pub open spec fn expects_answer(self) -> bool {
        !(self is Enqueue || self is Rewind)
    }
}

impl Action {
    /// Whether the driver owes an event for this action.
    pub fn expects_answer(&self) -> (owed: bool)
        ensures
            owed == self@.expects_answer(),
    {
        match self {
            Action::Enqueue { .. } => false,
            Action::Rewind { .. } => false,
            _ => true,
        }
    }
}

} // verus!

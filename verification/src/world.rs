//! A model of the collaborators, and what the pipeline does to them.
//!
//! The store of audio files and the voice transport are not part of the
//! library. Here they are described as values, together with the effect that
//! each [`Action`](crate::protocol::Action) has on them and the event that
//! answers it. Playing the decision functions against this model shows what
//! a driver that performs each action faithfully will observe.

use crate::cache::{asset_of, get_or_create, AssetView, SynthesisOutcome};
use crate::error::PipelineError;
use crate::filter::{rejection, verdict, JoinTarget, VoiceTransition};
use crate::greeting::greeting_at;
use crate::handler::{enqueue_for, HandlerView, Outcome, WelcomeView};
use crate::protocol::{ActionView, Event, QueueStatus};
use crate::tracks::{BeginStage, BeginTrackNotifier, EndStage, EndTrackNotifier};
use vstd::prelude::*;

verus! {

/// A notifier registered on a queued track.
pub enum Callback {
    Begin(BeginTrackNotifier),
    End(EndTrackNotifier),
}

/// A track in a play queue.
pub struct Track {
    /// The file that the track plays.
    pub source_path: Seq<char>,
    /// The notifiers registered on the track, in the order of registration.
    pub callbacks: Seq<Callback>,
}

/// The voice session of one guild.
pub struct Session {
    /// The channel that the bot is attached to, if any.
    pub channel: Option<u64>,
    /// The tracks waiting to be played, oldest first.
    pub queue: Seq<Track>,
}

/// How the collaborators answer where the answer is theirs to choose.
pub struct Replies {
    /// What the synthesizer makes of a request.
    pub synthesis: SynthesisOutcome,
    /// Whether the voice transport grants a join.
    pub join_ok: bool,
    /// Whether the voice transport grants a leave.
    pub leave_ok: bool,
}

/// The store of audio files and the voice transport. A guild has at most one
/// session, and a session at most one channel.
pub struct World {
    /// The paths at which a file exists.
    pub files: Set<Seq<char>>,
    /// The voice session of each guild that has one.
    pub sessions: Map<u64, Session>,
}

/// A session that was just created: attached nowhere, nothing queued.
pub open spec fn idle_session() -> Session {
    Session { channel: None, queue: Seq::empty() }
}

/// The track that an enqueue action appends.
pub open spec fn track_of(
    source_path: Seq<char>,
    on_begin: BeginTrackNotifier,
    on_end: EndTrackNotifier,
) -> Track {
    Track { source_path, callbacks: seq![Callback::Begin(on_begin), Callback::End(on_end)] }
}

impl World {
    /// The guild's session, or an idle one if it has none.
    pub open spec fn session(self, guild_id: u64) -> Session {
        if self.sessions.dom().contains(guild_id) {
            self.sessions[guild_id]
        } else {
            idle_session()
        }
    }

    /// What the guild's play queue looks like.
    pub open spec fn queue_status(self, guild_id: u64) -> QueueStatus {
        if !self.sessions.dom().contains(guild_id) {
            QueueStatus::Missing
        } else if self.sessions[guild_id].queue.len() == 0 {
            QueueStatus::Empty
        } else {
            QueueStatus::Busy
        }
    }

    /// This world with the guild's session replaced.
    pub open spec fn with_session(self, guild_id: u64, session: Session) -> World {
        World { sessions: self.sessions.insert(guild_id, session), ..self }
    }

    /// The world after `action`, and the event that answers it.
    pub open spec fn perform(self, action: ActionView, replies: Replies) -> (World, Option<Event>) {
        match action {
            ActionView::Probe { path } => (
                self,
                Some(Event::Probed { exists: self.files.contains(path) }),
            ),
            ActionView::Synthesize(request) => (
                if replies.synthesis is Produced {
                    World { files: self.files.insert(request.output_path), ..self }
                } else {
                    self
                },
                Some(Event::Synthesized(replies.synthesis)),
            ),
            ActionView::CheckConnection { guild_id } => (
                self.with_session(guild_id, self.session(guild_id)),
                Some(Event::ConnectionChecked { connected: self.session(guild_id).channel is Some }),
            ),
            ActionView::Join { guild_id, channel_id } => (
                if replies.join_ok {
                    self.with_session(
                        guild_id,
                        Session { channel: Some(channel_id), ..self.session(guild_id) },
                    )
                } else {
                    self
                },
                Some(Event::Joined { ok: replies.join_ok }),
            ),
            ActionView::Enqueue { guild_id, source_path, on_begin, on_end } => (
                self.with_session(
                    guild_id,
                    Session {
                        queue: self.session(guild_id).queue.push(
                            track_of(source_path, on_begin, on_end),
                        ),
                        ..self.session(guild_id)
                    },
                ),
                None,
            ),
            ActionView::Rewind { guild_id } => (self, None),
            ActionView::CheckQueue { guild_id } => (
                self,
                Some(Event::QueueChecked(self.queue_status(guild_id))),
            ),
            ActionView::Leave { guild_id } => (
                if replies.leave_ok {
                    World { sessions: self.sessions.remove(guild_id), ..self }
                } else {
                    self
                },
                Some(Event::Left { ok: replies.leave_ok }),
            ),
        }
    }
}

/// What a run of one of the machines left behind.
pub struct Run<S> {
    /// The world afterwards.
    pub world: World,
    /// The state in which the machine stopped.
    pub state: S,
    /// The actions that were performed, in order.
    pub actions: Seq<ActionView>,
}

/// The number of leave actions among `actions`.
pub open spec fn leave_calls(actions: Seq<ActionView>) -> nat
    decreases actions.len(),
{
    if actions.len() == 0 {
        0
    } else {
        leave_calls(actions.drop_last()) + if actions.last() is Leave {
            1nat
        } else {
            0nat
        }
    }
}

impl WelcomeView {
    /// The number of answers that a welcome in this state can still wait for.
    pub open spec fn rank(self) -> nat {
        match self {
            WelcomeView::Probing { .. } => 4,
            WelcomeView::Synthesizing { .. } => 3,
            WelcomeView::Checking { .. } => 2,
            WelcomeView::Joining { .. } => 1,
            WelcomeView::Finished(_) => 0,
        }
    }
}

/// Drives a welcome to its end: performs `action`, hands the answer to the
/// handler, and goes on with the action that comes back until none does.
pub open spec fn run_welcome(
    handler: HandlerView,
    world: World,
    state: WelcomeView,
    action: Option<ActionView>,
    replies: Replies,
) -> Run<WelcomeView>
    decreases state.rank(),
{
    match action {
        None => Run { world, state, actions: Seq::empty() },
        Some(action) => {
            let (after, event) = world.perform(action, replies);
            if event is Some && !(state is Finished) {
                let (next, then) = handler.resume(state, event->0);
                let rest = run_welcome(handler, after, next, then, replies);
                Run { world: rest.world, state: rest.state, actions: seq![action] + rest.actions }
            } else {
                Run { world: after, state, actions: seq![action] }
            }
        },
    }
}

/// Drives the reaction to a track's start to its end.
pub open spec fn run_begin(notifier: BeginTrackNotifier, world: World, replies: Replies) -> Run<
    BeginStage,
> {
    let (stage, first) = notifier.act_spec();
    let (joined, event) = world.perform(first, replies);
    let (stage, second) = notifier.resume_spec(stage, event->0);
    match second {
        None => Run { world: joined, state: stage, actions: seq![first] },
        Some(second) => Run {
            world: joined.perform(second, replies).0,
            state: stage,
            actions: seq![first, second],
        },
    }
}

/// Drives the reaction to a track's end to its end.
pub open spec fn run_end(notifier: EndTrackNotifier, world: World, replies: Replies) -> Run<
    EndStage,
> {
    let (stage, first) = notifier.act_spec();
    let (checked, event) = world.perform(first, replies);
    let (stage, second) = notifier.resume_spec(stage, event->0);
    match second {
        None => Run { world: checked, state: stage, actions: seq![first] },
        Some(second) => {
            let (left, event) = checked.perform(second, replies);
            let (stage, _) = notifier.resume_spec(stage, event->0);
            Run { world: left, state: stage, actions: seq![first, second] }
        },
    }
}

/// An announcement into an empty queue, with a join that succeeds where one
/// is needed, leaves exactly one track in the guild's queue. The track plays
/// the asset's file and carries two notifiers: one for its start, bound to the
/// target's guild and channel, and one for its end, bound to the guild.
pub proof fn lemma_announce_queues_once(
    handler: HandlerView,
    world: World,
    target: JoinTarget,
    asset: AssetView,
    replies: Replies,
)
    requires
        world.session(target.guild_id).queue.len() == 0,
        replies.join_ok,
    ensures
        ({
            let start = handler.announce(target, asset);
            let run = run_welcome(handler, world, start.0, start.1, replies);
            let queue = run.world.session(target.guild_id).queue;
            &&& run.state == WelcomeView::Finished(Outcome::Announced)
            &&& queue.len() == 1
            &&& queue[0].source_path == asset.file_path
            &&& queue[0].callbacks.len() == 2
            &&& queue[0].callbacks[0] == Callback::Begin(
                BeginTrackNotifier { guild_id: target.guild_id, channel_id: target.channel_id },
            )
            &&& queue[0].callbacks[1] == Callback::End(
                EndTrackNotifier { guild_id: target.guild_id },
            )
            &&& run.world.session(target.guild_id).channel is Some
        }),
{
    lemma_announce(handler, world, target, asset, replies);
}

/// What an announcement does, whatever the queue holds.
///
/// Where the bot is attached to a channel of the guild, the track is
/// appended behind the tracks that wait and the bot stays where it is: no
/// join is asked for. Where it is attached nowhere, it joins the target's
/// channel first; if that is refused the announcement fails and nothing is
/// queued.
pub proof fn lemma_announce(
    handler: HandlerView,
    world: World,
    target: JoinTarget,
    asset: AssetView,
    replies: Replies,
)
    ensures
        ({
            let start = handler.announce(target, asset);
            let run = run_welcome(handler, world, start.0, start.1, replies);
            let before = world.session(target.guild_id);
            let after = run.world.session(target.guild_id);
            let check = ActionView::CheckConnection { guild_id: target.guild_id };
            let join = ActionView::Join {
                guild_id: target.guild_id,
                channel_id: target.channel_id,
            };
            let enqueue = enqueue_for(target, asset);
            let track = Track {
                source_path: asset.file_path,
                callbacks: seq![
                    Callback::Begin(
                        BeginTrackNotifier {
                            guild_id: target.guild_id,
                            channel_id: target.channel_id,
                        },
                    ),
                    Callback::End(EndTrackNotifier { guild_id: target.guild_id }),
                ],
            };
            &&& run.world.files == world.files
            &&& forall|g: u64| g != target.guild_id ==> run.world.session(g) == world.session(g)
            &&& before.channel is Some ==> {
                &&& run.state == WelcomeView::Finished(Outcome::Announced)
                &&& run.actions == seq![check, enqueue]
                &&& after.channel == before.channel
                &&& after.queue == before.queue.push(track)
            }
            &&& before.channel is None && replies.join_ok ==> {
                &&& run.state == WelcomeView::Finished(Outcome::Announced)
                &&& run.actions == seq![check, join, enqueue]
                &&& after.channel == Some(target.channel_id)
                &&& after.queue == before.queue.push(track)
            }
            &&& before.channel is None && !replies.join_ok ==> {
                &&& run.state == WelcomeView::Finished(
                    Outcome::Failed(PipelineError::JoinFailure),
                )
                &&& run.actions == seq![check, join]
                &&& after == before
            }
        }),
{
    let start = handler.announce(target, asset);
    let run = run_welcome(handler, world, start.0, start.1, replies);
    let checked = world.perform(start.1->0, replies);
    let second = handler.resume(start.0, checked.1->0);
    let rest = run_welcome(handler, checked.0, second.0, second.1, replies);
    assert(run.actions == seq![start.1->0] + rest.actions);
    if world.session(target.guild_id).channel is Some {
        assert(rest.actions == seq![enqueue_for(target, asset)]);
        assert(run.actions =~= seq![start.1->0, enqueue_for(target, asset)]);
    } else {
        let joined = checked.0.perform(second.1->0, replies);
        let third = handler.resume(second.0, joined.1->0);
        let tail = run_welcome(handler, joined.0, third.0, third.1, replies);
        assert(rest.actions == seq![second.1->0] + tail.actions);
        if replies.join_ok {
            assert(tail.actions == seq![enqueue_for(target, asset)]);
            assert(run.actions =~= seq![start.1->0, second.1->0, enqueue_for(target, asset)]);
        } else {
            assert(tail.actions =~= Seq::<ActionView>::empty());
            assert(run.actions =~= seq![start.1->0, second.1->0]);
        }
    }
    assert forall|g: u64| g != target.guild_id implies run.world.session(g) == world.session(
        g,
    ) by {}
}

/// A welcome goes through the cache first and announces what the cache
/// hands back.
///
/// The files afterwards are those that a request to the cache leaves. The
/// synthesizer is asked exactly when the cache asks it, once, right after the
/// probe. If the cache fails, the welcome fails with the same error and the
/// voice transport is not touched. If it succeeds, the welcome goes on as
/// the announcement of the cached asset does.
pub proof fn lemma_welcome_fetches(
    handler: HandlerView,
    world: World,
    target: JoinTarget,
    name: Seq<char>,
    hour: u32,
    replies: Replies,
)
    ensures
        ({
            let text = greeting_at(hour, name);
            let asset = asset_of(handler.voice_directory, text);
            let fetch = get_or_create(
                world.files,
                handler.voice_directory,
                handler.locale,
                text,
                replies.synthesis,
            );
            let start = handler.greet(target, name, hour);
            let run = run_welcome(handler, world, start.0, start.1, replies);
            let stored = World { files: fetch.files, ..world };
            let told = handler.announce(target, asset);
            let rest = run_welcome(handler, stored, told.0, told.1, replies);
            let asked = match fetch.request {
                None => seq![ActionView::Probe { path: asset.file_path }],
                Some(request) => seq![
                    ActionView::Probe { path: asset.file_path },
                    ActionView::Synthesize(request),
                ],
            };
            match fetch.result {
                Err(e) => {
                    &&& run.state == WelcomeView::Finished(Outcome::Failed(e))
                    &&& run.world == stored
                    &&& run.actions == asked
                },
                Ok(path) => {
                    &&& path == asset.file_path
                    &&& run.state == rest.state
                    &&& run.world == rest.world
                    &&& run.actions == asked + rest.actions
                },
            }
        }),
{
    let text = greeting_at(hour, name);
    let asset = asset_of(handler.voice_directory, text);
    let start = handler.greet(target, name, hour);
    let run = run_welcome(handler, world, start.0, start.1, replies);
    let probed = world.perform(start.1->0, replies);
    let second = handler.resume(start.0, probed.1->0);
    let after_probe = run_welcome(handler, probed.0, second.0, second.1, replies);
    assert(run.actions == seq![start.1->0] + after_probe.actions);
    if world.files.contains(asset.file_path) {
        assert(World { files: world.files, ..world } == world);
        assert(run.actions =~= seq![start.1->0] + after_probe.actions);
    } else {
        let synthesized = probed.0.perform(second.1->0, replies);
        let third = handler.resume(second.0, synthesized.1->0);
        let after_synthesis = run_welcome(handler, synthesized.0, third.0, third.1, replies);
        assert(after_probe.actions == seq![second.1->0] + after_synthesis.actions);
        if replies.synthesis is Produced {
            assert(run.actions =~= seq![start.1->0, second.1->0] + after_synthesis.actions);
        } else {
            assert(after_synthesis.actions =~= Seq::<ActionView>::empty());
            assert(run.actions =~= seq![start.1->0, second.1->0]);
        }
    }
}

/// Every welcome reaches an outcome, and one that the filter turns away
/// touches nothing: a transition that is rejected is skipped for the rule
/// that rejects it, no action is asked for, and the world stays as it was.
pub proof fn lemma_welcome_ends(
    handler: HandlerView,
    world: World,
    t: VoiceTransition,
    name: Option<Seq<char>>,
    hour: u32,
    replies: Replies,
)
    ensures
        ({
            let start = handler.begin(t, name, hour);
            let run = run_welcome(handler, world, start.0, start.1, replies);
            &&& run.state is Finished
            &&& !handler.greets(t, name) ==> run.world == world && run.actions.len() == 0
            &&& rejection(t, handler.denylist) matches Some(reason) ==> run.state
                == WelcomeView::Finished(Outcome::Skipped(reason))
        }),
{
    if handler.greets(t, name) {
        let target = verdict(t, handler.denylist)->Ok_0->Accept_0;
        lemma_welcome_fetches(handler, world, target, name->0, hour, replies);
        let text = greeting_at(hour, name->0);
        let asset = asset_of(handler.voice_directory, text);
        let fetch = get_or_create(
            world.files,
            handler.voice_directory,
            handler.locale,
            text,
            replies.synthesis,
        );
        lemma_announce(handler, World { files: fetch.files, ..world }, target, asset, replies);
    }
}

/// When a track has ended and the guild's queue is empty, the bot is asked to
/// leave exactly once; when tracks are still queued, or the guild has no
/// session, it is not asked at all.
pub proof fn lemma_leave_when_drained(notifier: EndTrackNotifier, world: World, replies: Replies)
    ensures
        ({
            let run = run_end(notifier, world, replies);
            let status = world.queue_status(notifier.guild_id);
            let check = ActionView::CheckQueue { guild_id: notifier.guild_id };
            let leave = ActionView::Leave { guild_id: notifier.guild_id };
            &&& run.state.settled()
            &&& status is Empty ==> run.actions == seq![check, leave] && leave_calls(run.actions)
                == 1
            &&& !(status is Empty) ==> run.actions == seq![check] && leave_calls(run.actions) == 0
                && run.world == world && run.state == EndStage::Kept
            &&& status is Empty && replies.leave_ok ==> run.state == EndStage::Disconnected
                && run.world.queue_status(notifier.guild_id) is Missing
            &&& status is Empty && !replies.leave_ok ==> run.state == EndStage::Failed(
                PipelineError::LeaveFailure,
            ) && run.world == world
        }),
{
    let run = run_end(notifier, world, replies);
    let check = ActionView::CheckQueue { guild_id: notifier.guild_id };
    let leave = ActionView::Leave { guild_id: notifier.guild_id };
    reveal_with_fuel(leave_calls, 3);
    if world.queue_status(notifier.guild_id) is Empty {
        assert(run.actions =~= seq![check, leave]);
        assert(run.actions.drop_last() =~= seq![check]);
        assert(run.actions.drop_last().drop_last() =~= Seq::<ActionView>::empty());
    } else {
        assert(run.actions =~= seq![check]);
        assert(run.actions.drop_last() =~= Seq::<ActionView>::empty());
    }
}

/// When a track begins, the bot is asked to join the channel of the member
/// it greets. If the join is granted the bot is in that channel afterwards
/// and the track is sent back to its start; if it is refused nothing changes
/// and no rewind is asked for.
pub proof fn lemma_begin_relocates(notifier: BeginTrackNotifier, world: World, replies: Replies)
    ensures
        ({
            let run = run_begin(notifier, world, replies);
            let join = ActionView::Join {
                guild_id: notifier.guild_id,
                channel_id: notifier.channel_id,
            };
            let rewind = ActionView::Rewind { guild_id: notifier.guild_id };
            &&& run.state.settled()
            &&& replies.join_ok ==> {
                &&& run.state == BeginStage::Rewound
                &&& run.actions == seq![join, rewind]
                &&& run.world.session(notifier.guild_id).channel == Some(notifier.channel_id)
                &&& run.world.session(notifier.guild_id).queue == world.session(
                    notifier.guild_id,
                ).queue
            }
            &&& !replies.join_ok ==> {
                &&& run.state == BeginStage::Failed(PipelineError::JoinFailure)
                &&& run.actions == seq![join]
                &&& run.world == world
            }
        }),
{
}

} // verus!

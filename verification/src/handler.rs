//! The welcome pipeline: from a voice-state transition to a queued greeting.
//!
//! A welcome starts with [`Handler::voice_state_update`] and is carried on with
//! [`Handler::resume`] for as long as a step hands back an action that expects
//! an answer. The stages follow one another in a fixed order: probe the cache,
//! synthesize if the audio is missing, check the connection, join if the bot is
//! nowhere, enqueue.

use crate::cache::{asset_of, plan_of, AssetView, GreetingAsset, SynthesisOutcome};
use crate::error::PipelineError;
use crate::filter::{verdict, JoinDecision, JoinTarget, RejectReason, VoiceTransition};
use crate::greeting::{greeting_at, greeting_text, utc_hour_now};
use crate::protocol::{action_view, Action, ActionView, Event};
use crate::tracks::{BeginTrackNotifier, EndTrackNotifier};
use vstd::prelude::*;

verus! {

/// The service's configuration, and through its methods the welcome
/// pipeline itself.
#[derive(Clone, Debug, PartialEq, Eq)]
pub struct Handler {
    /// The directory that holds the cached audio files.
    pub voice_directory: String,
    /// The language in which greetings are synthesized.
    pub locale: String,
    /// The actors that are never greeted.
    pub denylist: Vec<u64>,
}

/// A [`Handler`] as a value.
pub struct HandlerView {
    pub voice_directory: Seq<char>,
    pub locale: Seq<char>,
    pub denylist: Seq<u64>,
}

impl View for Handler {
    type V = HandlerView;

    open spec fn view(&self) -> HandlerView {
        HandlerView {
            voice_directory: self.voice_directory@,
            locale: self.locale@,
            denylist: self.denylist@,
        }
    }
}

/// How a welcome ended.
#[derive(Clone, Copy, Debug, PartialEq, Eq, Structural)]
pub enum Outcome {
    /// The greeting was handed to the play queue.
    Announced,
    /// The transition was not a join worth announcing.
    Skipped(RejectReason),
    /// The welcome was given up.
    Failed(PipelineError),
}

/// How far a welcome has come.
#[derive(Clone, Debug, PartialEq, Eq)]
pub enum Welcome {
    /// The cache was asked whether the audio exists.
    Probing { target: JoinTarget, text: String, asset: GreetingAsset },
    /// The synthesizer was asked for the audio.
    Synthesizing { target: JoinTarget, asset: GreetingAsset },
    /// The voice transport was asked whether the bot is in a channel.
    Checking { target: JoinTarget, asset: GreetingAsset },
    /// The voice transport was asked to join the target's channel.
    Joining { target: JoinTarget, asset: GreetingAsset },
    /// The welcome is over.
    Finished(Outcome),
}

/// A [`Welcome`] as a value.
pub enum WelcomeView {
    Probing { target: JoinTarget, text: Seq<char>, asset: AssetView },
    Synthesizing { target: JoinTarget, asset: AssetView },
    Checking { target: JoinTarget, asset: AssetView },
    Joining { target: JoinTarget, asset: AssetView },
    Finished(Outcome),
}

impl View for Welcome {
    type V = WelcomeView;

    open spec fn view(&self) -> WelcomeView {
        match *self {
            Welcome::Probing { target, text, asset } => WelcomeView::Probing {
                target,
                text: text@,
                asset: asset@,
            },
            Welcome::Synthesizing { target, asset } => WelcomeView::Synthesizing {
                target,
                asset: asset@,
            },
            Welcome::Checking { target, asset } => WelcomeView::Checking { target, asset: asset@ },
            Welcome::Joining { target, asset } => WelcomeView::Joining { target, asset: asset@ },
            Welcome::Finished(outcome) => WelcomeView::Finished(outcome),
        }
    }
}

impl Welcome {
    /// The outcome, once the welcome is over.
    pub fn outcome(&self) -> (outcome: Option<Outcome>)
        ensures
            outcome == match self@ {
                WelcomeView::Finished(o) => Some(o),
                _ => None,
            },
    {
        match self {
            Welcome::Finished(outcome) => Some(*outcome),
            _ => None,
        }
    }
}

/// The value of a name that may be absent.
pub open spec fn name_view(name: Option<&str>) -> Option<Seq<char>> {
    match name {
        Some(name) => Some(name@),
        None => None,
    }
}

/// A welcome that ends at once.
pub open spec fn finished(outcome: Outcome) -> (WelcomeView, Option<ActionView>) {
    (WelcomeView::Finished(outcome), None)
}

/// The action that queues the audio of `asset` for `target`: one source,
/// with a begin notifier bound to the target's guild and channel and an end
/// notifier bound to its guild.
pub open spec fn enqueue_for(target: JoinTarget, asset: AssetView) -> ActionView {
    ActionView::Enqueue {
        guild_id: target.guild_id,
        source_path: asset.file_path,
        on_begin: BeginTrackNotifier { guild_id: target.guild_id, channel_id: target.channel_id },
        on_end: EndTrackNotifier { guild_id: target.guild_id },
    }
}

impl HandlerView {
    /// The first step of the welcome for an accepted join of the member
    /// called `name` at `hour`: look for the greeting's audio in the cache.
    pub open spec fn greet(self, target: JoinTarget, name: Seq<char>, hour: u32) -> (
        WelcomeView,
        Option<ActionView>,
    ) {
        let text = greeting_at(hour, name);
        let asset = asset_of(self.voice_directory, text);
        (
            WelcomeView::Probing { target, text, asset },
            Some(ActionView::Probe { path: asset.file_path }),
        )
    }

    /// The first step on a transition.
    ///
    /// A rejected transition is skipped for the filter's reason. An accepted
    /// one starts a welcome. A transition that the filter cannot judge, and
    /// an accepted one without a member name, are breaches by the gateway.
    pub open spec fn begin(self, t: VoiceTransition, name: Option<Seq<char>>, hour: u32) -> (
        WelcomeView,
        Option<ActionView>,
    ) {
        match verdict(t, self.denylist) {
            Err(e) => finished(Outcome::Failed(e)),
            Ok(JoinDecision::Reject(reason)) => finished(Outcome::Skipped(reason)),
            Ok(JoinDecision::Accept(target)) => match name {
                None => finished(Outcome::Failed(PipelineError::PreconditionViolation)),
                Some(name) => self.greet(target, name, hour),
            },
        }
    }

    /// Whether a transition starts a welcome: the filter accepts it and the
    /// member's name is known.
    pub open spec fn greets(self, t: VoiceTransition, name: Option<Seq<char>>) -> bool {
        verdict(t, self.denylist) matches Ok(JoinDecision::Accept(_)) && name is Some
    }

    /// Whether `state` and `action` are the first step on a transition at
    /// `hour`.
    pub open spec fn begins(
        self,
        t: VoiceTransition,
        name: Option<Seq<char>>,
        hour: u32,
        state: WelcomeView,
        action: Option<ActionView>,
    ) -> bool {
        (state, action) == self.begin(t, name, hour)
    }

    /// The first step of an announcement of audio that is known to exist:
    /// ask whether the bot is attached to a channel in the target's guild.
    pub open spec fn announce(self, target: JoinTarget, asset: AssetView) -> (
        WelcomeView,
        Option<ActionView>,
    ) {
        (
            WelcomeView::Checking { target, asset },
            Some(ActionView::CheckConnection { guild_id: target.guild_id }),
        )
    }

    /// The step that follows `event` in state `state`.
    ///
    /// - Probing: audio that exists is announced; audio that is missing is
    ///   requested from the synthesizer, to be written to the asset's path.
    /// - Synthesizing: produced audio is announced; a failure ends the
    ///   welcome with its error.
    /// - Checking: a bot that is attached somewhere only enqueues; one that
    ///   is attached nowhere joins the target's channel first.
    /// - Joining: after a join that succeeded the audio is enqueued; one that
    ///   failed ends the welcome.
    /// - Finished: nothing more happens.
    ///
    /// An event that does not answer the state's action is a breach by the
    /// driver.
    pub open spec fn resume(self, state: WelcomeView, event: Event) -> (
        WelcomeView,
        Option<ActionView>,
    ) {
        match state {
            WelcomeView::Probing { target, text, asset } => match event {
                Event::Probed { exists } => match plan_of(asset, text, self.locale, exists) {
                    None => self.announce(target, asset),
                    Some(request) => (
                        WelcomeView::Synthesizing { target, asset },
                        Some(ActionView::Synthesize(request)),
                    ),
                },
                _ => finished(Outcome::Failed(PipelineError::PreconditionViolation)),
            },
            WelcomeView::Synthesizing { target, asset } => match event {
                Event::Synthesized(SynthesisOutcome::Produced) => self.announce(target, asset),
                Event::Synthesized(SynthesisOutcome::Unavailable) => finished(
                    Outcome::Failed(PipelineError::SynthesisUnavailable),
                ),
                Event::Synthesized(SynthesisOutcome::Failed) => finished(
                    Outcome::Failed(PipelineError::SynthesisFailed),
                ),
                _ => finished(Outcome::Failed(PipelineError::PreconditionViolation)),
            },
            WelcomeView::Checking { target, asset } => match event {
                Event::ConnectionChecked { connected: true } => (
                    WelcomeView::Finished(Outcome::Announced),
                    Some(enqueue_for(target, asset)),
                ),
                Event::ConnectionChecked { connected: false } => (
                    WelcomeView::Joining { target, asset },
                    Some(
                        ActionView::Join {
                            guild_id: target.guild_id,
                            channel_id: target.channel_id,
                        },
                    ),
                ),
                _ => finished(Outcome::Failed(PipelineError::PreconditionViolation)),
            },
            WelcomeView::Joining { target, asset } => match event {
                Event::Joined { ok: true } => (
                    WelcomeView::Finished(Outcome::Announced),
                    Some(enqueue_for(target, asset)),
                ),
                Event::Joined { ok: false } => finished(
                    Outcome::Failed(PipelineError::JoinFailure),
                ),
                _ => finished(Outcome::Failed(PipelineError::PreconditionViolation)),
            },
            WelcomeView::Finished(outcome) => finished(outcome),
        }
    }
}

/// A welcome that ends at once.
fn finish(outcome: Outcome) -> (step: (Welcome, Option<Action>))
    ensures
        step.0@ == finished(outcome).0,
        action_view(step.1) == finished(outcome).1,
{
    (Welcome::Finished(outcome), None)
}

/// The action that queues the audio of `asset` for `target`.
fn enqueue(target: JoinTarget, asset: GreetingAsset) -> (action: Action)
    ensures
        action@ == enqueue_for(target, asset@),
{
    Action::Enqueue {
        guild_id: target.guild_id,
        source_path: asset.file_path,
        on_begin: BeginTrackNotifier { guild_id: target.guild_id, channel_id: target.channel_id },
        on_end: EndTrackNotifier { guild_id: target.guild_id },
    }
}

impl Handler {
    /// A handler that caches audio in `voice_directory`, synthesizes in
    /// `locale` and never greets the actors in `denylist`.
    pub fn new(voice_directory: String, locale: String, denylist: Vec<u64>) -> (handler: Self)
        ensures
            handler@ == (HandlerView {
                voice_directory: voice_directory@,
                locale: locale@,
                denylist: denylist@,
            }),
    {
        Handler { voice_directory, locale, denylist }
    }

    /// Starts the welcome for an accepted join at a given hour.
    fn greet(&self, target: JoinTarget, name: &str, hour: u32) -> (step: (Welcome, Option<Action>))
        ensures
            step.0@ == self@.greet(target, name@, hour).0,
            action_view(step.1) == self@.greet(target, name@, hour).1,
    {
        let text = greeting_text(hour, name);
        let asset = GreetingAsset::locate(self.voice_directory.as_str(), text.as_str());
        let path = asset.file_path.clone();
        (Welcome::Probing { target, text, asset }, Some(Action::Probe { path }))
    }

    /// Takes the first step on a transition, as if the clock showed `hour`.
    pub fn voice_state_update_at(
        &self,
        transition: &VoiceTransition,
        display_name: Option<&str>,
        hour: u32,
    ) -> (step: (Welcome, Option<Action>))
        ensures
            step.0@ == self@.begin(*transition, name_view(display_name), hour).0,
            action_view(step.1) == self@.begin(*transition, name_view(display_name), hour).1,
    {
        match transition.evaluate(self.denylist.as_slice()) {
            Err(e) => finish(Outcome::Failed(e)),
            Ok(JoinDecision::Reject(reason)) => finish(Outcome::Skipped(reason)),
            Ok(JoinDecision::Accept(target)) => match display_name {
                None => finish(Outcome::Failed(PipelineError::PreconditionViolation)),
                Some(name) => self.greet(target, name, hour),
            },
        }
    }

    /// Takes the first step on a transition that the gateway reported.
    ///
    /// The hour is read off the clock, and only for a transition that is
    /// greeted: the step is the one that
    /// [`voice_state_update_at`](Self::voice_state_update_at) takes at some
    /// hour of the day. A transition that is skipped or refused is so at any
    /// hour.
    pub fn voice_state_update(&self, transition: &VoiceTransition, display_name: Option<&str>) -> (step:
        (Welcome, Option<Action>))
        ensures
            exists|hour: u32|
                hour < 24 && self@.begins(
                    *transition,
                    name_view(display_name),
                    hour,
                    step.0@,
                    action_view(step.1),
                ),
            !self@.greets(*transition, name_view(display_name)) ==> forall|hour: u32|
                self@.begins(
                    *transition,
                    name_view(display_name),
                    hour,
                    step.0@,
                    action_view(step.1),
                ),
    {
        let ghost mut shown: u32 = 0;
        let step = match transition.evaluate(self.denylist.as_slice()) {
            Err(e) => finish(Outcome::Failed(e)),
            Ok(JoinDecision::Reject(reason)) => finish(Outcome::Skipped(reason)),
            Ok(JoinDecision::Accept(target)) => match display_name {
                None => finish(Outcome::Failed(PipelineError::PreconditionViolation)),
                Some(name) => {
                    let hour = utc_hour_now();
                    proof {
                        shown = hour;
                    }
                    self.greet(target, name, hour)
                },
            },
        };
        proof {
            let name = name_view(display_name);
            assert(self@.begins(*transition, name, shown, step.0@, action_view(step.1)));
            if !self@.greets(*transition, name) {
                assert forall|hour: u32|
                    self@.begins(*transition, name, hour, step.0@, action_view(step.1)) by {}
            }
        }
        step
    }

    /// Starts the announcement of audio that is known to exist.
    pub fn announce(&self, target: JoinTarget, asset: GreetingAsset) -> (step: (
        Welcome,
        Option<Action>,
    ))
        ensures
            step.0@ == self@.announce(target, asset@).0,
            action_view(step.1) == self@.announce(target, asset@).1,
    {
        (
            Welcome::Checking { target, asset },
            Some(Action::CheckConnection { guild_id: target.guild_id }),
        )
    }

    /// Takes the step that follows the driver's answer to the previous
    /// action.
    pub fn resume(&self, state: Welcome, event: Event) -> (step: (Welcome, Option<Action>))
        ensures
            step.0@ == self@.resume(state@, event).0,
            action_view(step.1) == self@.resume(state@, event).1,
    {
        match state {
            Welcome::Probing { target, text, asset } => match event {
                Event::Probed { exists } => {
                    match asset.plan(text.as_str(), self.locale.as_str(), exists) {
                        None => self.announce(target, asset),
                        Some(request) => (
                            Welcome::Synthesizing { target, asset },
                            Some(Action::Synthesize(request)),
                        ),
                    }
                },
                _ => finish(Outcome::Failed(PipelineError::PreconditionViolation)),
            },
            Welcome::Synthesizing { target, asset } => match event {
                Event::Synthesized(outcome) => match outcome.conclude() {
                    Ok(_) => self.announce(target, asset),
                    Err(e) => finish(Outcome::Failed(e)),
                },
                _ => finish(Outcome::Failed(PipelineError::PreconditionViolation)),
            },
            Welcome::Checking { target, asset } => match event {
                Event::ConnectionChecked { connected } => {
                    if connected {
                        (Welcome::Finished(Outcome::Announced), Some(enqueue(target, asset)))
                    } else {
                        (
                            Welcome::Joining { target, asset },
                            Some(
                                Action::Join {
                                    guild_id: target.guild_id,
                                    channel_id: target.channel_id,
                                },
                            ),
                        )
                    }
                },
                _ => finish(Outcome::Failed(PipelineError::PreconditionViolation)),
            },
            Welcome::Joining { target, asset } => match event {
                Event::Joined { ok } => {
                    if ok {
                        (Welcome::Finished(Outcome::Announced), Some(enqueue(target, asset)))
                    } else {
                        finish(Outcome::Failed(PipelineError::JoinFailure))
                    }
                },
                _ => finish(Outcome::Failed(PipelineError::PreconditionViolation)),
            },
            Welcome::Finished(outcome) => finish(outcome),
        }
    }
}

} // verus!

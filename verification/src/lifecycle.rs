//! The controller of a relay run: a state machine that is told what happened
//! and answers what to do next. Whoever drives it performs the action against
//! the session layer and reports the result as the next event.

use crate::error::RelayError;
use crate::fanout::{Broadcaster, BroadcasterView};
use crate::frame::{StreamItem, StreamItemView};
use crate::opts::Opts;
use crate::relay::process_video_frame;
use crate::session::{
    selection_of, SessionDescriptor, SubStreamView, VideoSelection, VideoSelectionView,
};
use crate::transcode::relay_frame;
use vstd::prelude::*;

verus! {

/// Where a run stands, as its users see it.
#[derive(Clone, Copy, Debug, PartialEq, Eq, Structural)]
pub enum Phase {
    /// Not started.
    Idle,
    /// The session is being described, set up and started.
    Negotiating,
    /// Frames are coming in and are being relayed.
    Streaming,
    /// The run was asked to stop.
    Stopped,
    /// The run failed.
    Failed,
}

/// Where a run stands, step by step.
#[derive(Clone, Copy, Debug, PartialEq, Eq, Structural)]
pub enum Stage {
    /// Not started.
    Idle,
    /// Waiting for the description of the session.
    Describing,
    /// Waiting for the setup of the video sub-stream.
    SettingUp,
    /// Waiting for playback to start.
    Starting,
    /// Waiting for the next item of the stream, or for the request to stop.
    Streaming,
    /// The result is settled; waiting for the teardown of the session.
    Closing,
    /// The session is torn down and the result was handed out.
    Finished,
}

/// How a run ended.
#[derive(Clone, Copy, Debug, PartialEq, Eq, Structural)]
pub enum Outcome {
    /// The run was asked to stop, and did.
    Stopped,
    /// The run failed for the given reason.
    Failed(RelayError),
}

/// What the driver of a run is to do next.
#[derive(Clone, Copy, Debug, PartialEq, Eq, Structural)]
pub enum Action {
    /// Ask the session layer to describe the session at the run's address.
    Describe,
    /// Ask for delivery of the sub-stream at the given place.
    Setup(usize),
    /// Ask for playback to start.
    Play,
    /// Wait for the next item of the stream or for the request to stop,
    /// whichever comes first.
    AwaitNext,
    /// Tear the session down.
    Teardown,
    /// Leave the run with the given outcome. A teardown that failed is
    /// reported beside it and changes nothing about it.
    Exit { outcome: Outcome, teardown_failed: bool },
    /// The event does not belong to the stage the run is in: go on as before.
    Nothing,
}

/// What the driver of a run reports.
#[derive(Debug, PartialEq, Eq)]
pub enum Event {
    /// The run is to start.
    Start,
    /// The session was described.
    Described(SessionDescriptor),
    /// The session could not be described.
    DescribeFailed,
    /// Delivery of the sub-stream is set up.
    SetupDone,
    /// Delivery of the sub-stream could not be set up.
    SetupFailed,
    /// Playback has started.
    PlayStarted,
    /// Playback could not be started.
    PlayFailed,
    /// The stream delivered an item.
    Item(StreamItem),
    /// The stream has no more items.
    EndOfStream,
    /// The stream failed.
    StreamFailed,
    /// The run is asked to stop.
    StopRequested,
    /// The session is torn down.
    TeardownDone,
    /// The teardown of the session failed.
    TeardownFailed,
}

/// The view of an [`Event`].
pub enum EventView {
    Start,
    Described(Seq<SubStreamView>),
    DescribeFailed,
    SetupDone,
    SetupFailed,
    PlayStarted,
    PlayFailed,
    Item(StreamItemView),
    EndOfStream,
    StreamFailed,
    StopRequested,
    TeardownDone,
    TeardownFailed,
}

impl View for Event {
    type V = EventView;

    open spec fn view(&self) -> EventView {
        match self {
            Event::Start => EventView::Start,
            Event::Described(descriptor) => EventView::Described(descriptor@),
            Event::DescribeFailed => EventView::DescribeFailed,
            Event::SetupDone => EventView::SetupDone,
            Event::SetupFailed => EventView::SetupFailed,
            Event::PlayStarted => EventView::PlayStarted,
            Event::PlayFailed => EventView::PlayFailed,
            Event::Item(item) => EventView::Item(item@),
            Event::EndOfStream => EventView::EndOfStream,
            Event::StreamFailed => EventView::StreamFailed,
            Event::StopRequested => EventView::StopRequested,
            Event::TeardownDone => EventView::TeardownDone,
            Event::TeardownFailed => EventView::TeardownFailed,
        }
    }
}

/// The state of a run.
pub struct ControllerView {
    /// Where the run stands.
    pub stage: Stage,
    /// The address of the session.
    pub address: Seq<char>,
    /// What was taken from the description of the session.
    pub selection: Option<VideoSelectionView>,
    /// How the run ended, once that is settled.
    pub outcome: Option<Outcome>,
}

impl ControllerView {
    /// The invariant of a run: from setup to streaming the selection is
    /// known, and the outcome is settled exactly from closing on.
    pub open spec fn wf(self) -> bool {
        &&& (self.stage == Stage::SettingUp || self.stage == Stage::Starting || self.stage
            == Stage::Streaming) ==> self.selection is Some
        &&& (self.stage == Stage::Closing || self.stage == Stage::Finished)
            <==> self.outcome is Some
    }

    /// The phase that the state belongs to.
    pub open spec fn phase(self) -> Phase {
        match self.stage {
            Stage::Idle => Phase::Idle,
            Stage::Describing => Phase::Negotiating,
            Stage::SettingUp => Phase::Negotiating,
            Stage::Starting => Phase::Negotiating,
            Stage::Streaming => Phase::Streaming,
            Stage::Closing | Stage::Finished => match self.outcome {
                Some(Outcome::Failed(_)) => Phase::Failed,
                _ => Phase::Stopped,
            },
        }
    }

    /// The state with the run moved on to `stage`.
    pub open spec fn at(self, stage: Stage) -> ControllerView {
        ControllerView { stage, ..self }
    }

    /// The state with the outcome settled, and the teardown that every
    /// settled outcome asks for.
    pub open spec fn settle(self, outcome: Outcome) -> (ControllerView, Action) {
        (ControllerView { stage: Stage::Closing, outcome: Some(outcome), ..self }, Action::Teardown)
    }

    /// The state after `event`, and the action that answers it.
    pub open spec fn step(self, event: EventView) -> (ControllerView, Action) {
        match (self.stage, event) {
            (Stage::Idle, EventView::Start) => (self.at(Stage::Describing), Action::Describe),
            (Stage::Describing, EventView::Described(streams)) => match selection_of(streams) {
                Some(selection) => (
                    ControllerView {
                        stage: Stage::SettingUp,
                        selection: Some(selection),
                        ..self
                    },
                    Action::Setup(selection.index as usize),
                ),
                None => self.settle(Outcome::Failed(RelayError::NoVideoStream)),
            },
            (Stage::Describing, EventView::DescribeFailed) => self.settle(
                Outcome::Failed(RelayError::NegotiationFailed),
            ),
            (Stage::SettingUp, EventView::SetupDone) => (self.at(Stage::Starting), Action::Play),
            (Stage::SettingUp, EventView::SetupFailed) => self.settle(
                Outcome::Failed(RelayError::SetupFailed),
            ),
            (Stage::Starting, EventView::PlayStarted) => (
                self.at(Stage::Streaming),
                Action::AwaitNext,
            ),
            (Stage::Starting, EventView::PlayFailed) => self.settle(
                Outcome::Failed(RelayError::PlaybackStartFailed),
            ),
            (Stage::Streaming, EventView::Item(_)) => (self, Action::AwaitNext),
            (Stage::Streaming, EventView::EndOfStream) => self.settle(
                Outcome::Failed(RelayError::StreamEnded),
            ),
            (Stage::Streaming, EventView::StreamFailed) => self.settle(
                Outcome::Failed(RelayError::StreamFailed),
            ),
            (Stage::Streaming, EventView::StopRequested) => self.settle(Outcome::Stopped),
            (Stage::Closing, EventView::TeardownDone) => (
                self.at(Stage::Finished),
                Action::Exit { outcome: self.outcome->0, teardown_failed: false },
            ),
            (Stage::Closing, EventView::TeardownFailed) => (
                self.at(Stage::Finished),
                Action::Exit { outcome: self.outcome->0, teardown_failed: true },
            ),
            _ => (self, Action::Nothing),
        }
    }

    /// Whether `event` brings a frame to publish: a video frame that comes in
    /// while the run streams.
    pub open spec fn publishes(self, event: EventView) -> bool {
        self.stage == Stage::Streaming && event is Item && event->Item_0 is Video
    }

    /// What `event` does to the broadcaster `hub`: a video frame that comes in
    /// while streaming is transcoded and published; the event that settles
    /// the outcome closes the producer side; any other event leaves the
    /// broadcaster as it is.
    pub open spec fn hub_after(self, event: EventView, hub: BroadcasterView) -> BroadcasterView {
        match (self.stage, event) {
            (Stage::Streaming, EventView::Item(StreamItemView::Video(frame))) => hub.publish(
                relay_frame(frame, self.selection->0.codec, self.selection->0.config),
            ),
            _ => if self.step(event).1 == Action::Teardown {
                hub.close()
            } else {
                hub
            },
        }
    }
}

impl ControllerView {
    /// The state after the events of `events`, one after the other, and the
    /// actions that answered them.
    pub open spec fn run(self, events: Seq<EventView>) -> (ControllerView, Seq<Action>)
        decreases events.len(),
    {
        if events.len() == 0 {
            (self, Seq::empty())
        } else {
            let (state, actions) = self.run(events.drop_last());
            (state.step(events.last()).0, actions.push(state.step(events.last()).1))
        }
    }
}

/// How often `actions` asks for a teardown.
pub open spec fn teardowns(actions: Seq<Action>) -> nat
    decreases actions.len(),
{
    if actions.len() == 0 {
        0
    } else {
        teardowns(actions.drop_last()) + if actions.last() == Action::Teardown {
            1nat
        } else {
            0nat
        }
    }
}

/// How often `actions` leaves the run.
pub open spec fn exits(actions: Seq<Action>) -> nat
    decreases actions.len(),
{
    if actions.len() == 0 {
        0
    } else {
        exits(actions.drop_last()) + if actions.last() is Exit {
            1nat
        } else {
            0nat
        }
    }
}

/// Every step keeps the invariant of the run, and none changes its address.
pub proof fn lemma_step_keeps_invariant(state: ControllerView, event: EventView)
    requires
        state.wf(),
    ensures
        state.step(event).0.wf(),
        state.step(event).0.address == state.address,
{
}

/// A run moves through its phases in one direction: from idle to
/// negotiating, from there to streaming or to failed, and from streaming to
/// stopped or to failed. Stopped and failed are never left.
pub proof fn lemma_phases_in_order(state: ControllerView, event: EventView)
    requires
        state.wf(),
    ensures
        ({
            let before = state.phase();
            let after = state.step(event).0.phase();
            ||| after == before
            ||| before == Phase::Idle && after == Phase::Negotiating
            ||| before == Phase::Negotiating && after == Phase::Streaming
            ||| before == Phase::Negotiating && after == Phase::Failed
            ||| before == Phase::Streaming && after == Phase::Stopped
            ||| before == Phase::Streaming && after == Phase::Failed
        }),
{
}

/// The selection is made once, from the description of the session, before
/// any frame is transcoded, and stays as it is from then on.
pub proof fn lemma_selection_made_once(state: ControllerView, event: EventView)
    requires
        state.wf(),
    ensures
        state.stage != Stage::Describing ==> state.step(event).0.selection == state.selection,
        state.stage == Stage::Describing && event is Described ==> state.step(event).0.selection
            == if selection_of(event->Described_0) is Some {
            selection_of(event->Described_0)
        } else {
            state.selection
        },
        state.step(event).0.stage == Stage::Streaming ==> state.step(event).0.selection is Some,
{
}

/// The run succeeds only by being asked to stop while it streams: every
/// other way into its end is a failure, and names its reason.
pub proof fn lemma_stopped_only_on_request(state: ControllerView, event: EventView)
    requires
        state.wf(),
        state.outcome is None,
    ensures
        state.step(event).0.outcome == Some(Outcome::Stopped) <==> state.stage == Stage::Streaming
            && event is StopRequested,
        state.step(event).0.outcome == Some(Outcome::Failed(RelayError::NoVideoStream))
            <==> state.stage == Stage::Describing && event is Described && selection_of(
            event->Described_0,
        ) is None,
        state.step(event).0.outcome == Some(Outcome::Failed(RelayError::NegotiationFailed))
            <==> state.stage == Stage::Describing && event is DescribeFailed,
        state.step(event).0.outcome == Some(Outcome::Failed(RelayError::SetupFailed))
            <==> state.stage == Stage::SettingUp && event is SetupFailed,
        state.step(event).0.outcome == Some(Outcome::Failed(RelayError::PlaybackStartFailed))
            <==> state.stage == Stage::Starting && event is PlayFailed,
        state.step(event).0.outcome == Some(Outcome::Failed(RelayError::StreamEnded))
            <==> state.stage == Stage::Streaming && event is EndOfStream,
        state.step(event).0.outcome == Some(Outcome::Failed(RelayError::StreamFailed))
            <==> state.stage == Stage::Streaming && event is StreamFailed,
{
}

/// The teardown is asked for exactly by the step that settles the outcome,
/// and the run is left exactly by the step that takes in the report of the
/// teardown. Whether the teardown failed changes nothing about the outcome
/// that is handed out: it is the one that was settled.
pub proof fn lemma_teardown_before_exit(state: ControllerView, event: EventView)
    requires
        state.wf(),
    ensures
        state.step(event).1 == Action::Teardown <==> state.outcome is None && state.step(
            event,
        ).0.outcome is Some,
        state.step(event).1 == Action::Teardown <==> state.stage != Stage::Closing && state.step(
            event,
        ).0.stage == Stage::Closing,
        state.step(event).1 is Exit <==> state.stage == Stage::Closing && (event is TeardownDone
            || event is TeardownFailed),
        state.step(event).1 is Exit <==> state.stage != Stage::Finished && state.step(
            event,
        ).0.stage == Stage::Finished,
        state.step(event).1 matches Action::Exit { outcome, teardown_failed } ==> Some(outcome)
            == state.outcome && teardown_failed == event is TeardownFailed,
        state.step(event).0.outcome == state.outcome || state.outcome is None,
        state.stage == Stage::Finished ==> state.step(event) == (state, Action::Nothing),
{
}

/// Along any run from a state whose outcome is open, the teardown is asked
/// for once if the outcome has been settled and not at all otherwise, and
/// the run is left once if it has finished and not at all otherwise.
pub proof fn lemma_one_teardown_per_run(state: ControllerView, events: Seq<EventView>)
    requires
        state.wf(),
        state.outcome is None,
    ensures
        state.run(events).0.wf(),
        state.run(events).1.len() == events.len(),
        teardowns(state.run(events).1) == if state.run(events).0.outcome is Some {
            1nat
        } else {
            0nat
        },
        exits(state.run(events).1) == if state.run(events).0.stage == Stage::Finished {
            1nat
        } else {
            0nat
        },
    decreases events.len(),
{
    if events.len() > 0 {
        lemma_one_teardown_per_run(state, events.drop_last());
        let (mid, actions) = state.run(events.drop_last());
        lemma_step_keeps_invariant(mid, events.last());
        lemma_teardown_before_exit(mid, events.last());
        assert(state.run(events).1.drop_last() =~= actions);
    }
}

/// Subscribers only ever see whole frames: an event leaves the log of the
/// broadcaster as it is, or adds the one relay frame that the frame of the
/// event transcodes to. The producer side is closed by the step that settles
/// the outcome, and by no other.
pub proof fn lemma_hub_gets_whole_frames(
    state: ControllerView,
    event: EventView,
    hub: BroadcasterView,
)
    requires
        state.wf(),
    ensures
        state.hub_after(event, hub).capacity == hub.capacity,
        state.hub_after(event, hub).subscribers == hub.subscribers,
        match (state.stage, event) {
            (Stage::Streaming, EventView::Item(StreamItemView::Video(frame))) => state.hub_after(
                event,
                hub,
            ).log == hub.log || state.hub_after(event, hub).log == hub.log.push(
                relay_frame(frame, state.selection->0.codec, state.selection->0.config),
            ),
            _ => state.hub_after(event, hub).log == hub.log,
        },
        state.hub_after(event, hub).closed == (hub.closed || state.step(event).1
            == Action::Teardown),
{
}

/// The controller of one relay run.
pub struct Controller {
    stage: Stage,
    opts: Opts,
    selection: Option<VideoSelection>,
    outcome: Option<Outcome>,
}

impl View for Controller {
    type V = ControllerView;

    closed spec fn view(&self) -> ControllerView {
        ControllerView {
            stage: self.stage,
            address: self.opts@,
            selection: match self.selection {
                Some(selection) => Some(selection@),
                None => None,
            },
            outcome: self.outcome,
        }
    }
}

impl Controller {
    /// The invariant of the controller.
    pub open spec fn wf(&self) -> bool {
        self@.wf()
    }

    /// The controller of a run that has not started.
    pub fn new(opts: Opts) -> (r: Controller)
        ensures
            r.wf(),
            r@ == (ControllerView {
                stage: Stage::Idle,
                address: opts@,
                selection: None,
                outcome: None,
            }),
    {
        Controller { stage: Stage::Idle, opts, selection: None, outcome: None }
    }

    /// Where the run stands, step by step.
    pub fn stage(&self) -> (r: Stage)
        ensures
            r == self@.stage,
    {
        self.stage
    }

    /// Where the run stands.
    pub fn phase(&self) -> (r: Phase)
        ensures
            r == self@.phase(),
    {
        match self.stage {
            Stage::Idle => Phase::Idle,
            Stage::Describing => Phase::Negotiating,
            Stage::SettingUp => Phase::Negotiating,
            Stage::Starting => Phase::Negotiating,
            Stage::Streaming => Phase::Streaming,
            Stage::Closing | Stage::Finished => match self.outcome {
                Some(Outcome::Failed(_)) => Phase::Failed,
                _ => Phase::Stopped,
            },
        }
    }

    /// The address of the session.
    pub fn address(&self) -> (r: &str)
        ensures
            r@ == self@.address,
    {
        self.opts.url()
    }

    /// What was taken from the description of the session, once it is known.
    pub fn selection(&self) -> (r: Option<&VideoSelection>)
        ensures
            r is Some == self@.selection is Some,
            r matches Some(selection) ==> selection@ == self@.selection->0,
    {
        match &self.selection {
            Some(selection) => Some(selection),
            None => None,
        }
    }

    /// How the run ended, once that is settled.
    pub fn outcome(&self) -> (r: Option<Outcome>)
        ensures
            r == self@.outcome,
    {
        self.outcome
    }

    /// Settles the outcome, closes the producer side of `hub`, and asks for
    /// the teardown.
    fn settle(&mut self, outcome: Outcome, hub: &mut Broadcaster) -> (action: Action)
        requires
            old(self).wf(),
            old(self)@.outcome is None,
            old(hub).wf(),
        ensures
            final(self).wf(),
            final(hub).wf(),
            (final(self)@, action) == old(self)@.settle(outcome),
            final(hub)@ == old(hub)@.close(),
    {
        self.stage = Stage::Closing;
        self.outcome = Some(outcome);
        hub.close();
        Action::Teardown
    }

    /// Takes in one event and answers with the next action. A video frame
    /// that comes in while streaming is transcoded and published to `hub`,
    /// which for that needs room in its count of frames.
    pub fn step(&mut self, event: Event, hub: &mut Broadcaster) -> (action: Action)
        requires
            old(self).wf(),
            old(hub).wf(),
            old(self)@.publishes(event@) ==> old(hub)@.log.len() < u64::MAX,
        ensures
            final(self).wf(),
            final(hub).wf(),
            (final(self)@, action) == old(self)@.step(event@),
            final(hub)@ == old(self)@.hub_after(event@, old(hub)@),
    {
        match self.stage {
            Stage::Idle => match event {
                Event::Start => {
                    self.stage = Stage::Describing;
                    Action::Describe
                },
                _ => Action::Nothing,
            },
            Stage::Describing => match event {
                Event::Described(descriptor) => match descriptor.negotiate() {
                    Ok(selection) => {
                        let index = selection.index();
                        self.selection = Some(selection);
                        self.stage = Stage::SettingUp;
                        Action::Setup(index)
                    },
                    Err(error) => self.settle(Outcome::Failed(error), hub),
                },
                Event::DescribeFailed => self.settle(
                    Outcome::Failed(RelayError::NegotiationFailed),
                    hub,
                ),
                _ => Action::Nothing,
            },
            Stage::SettingUp => match event {
                Event::SetupDone => {
                    self.stage = Stage::Starting;
                    Action::Play
                },
                Event::SetupFailed => self.settle(Outcome::Failed(RelayError::SetupFailed), hub),
                _ => Action::Nothing,
            },
            Stage::Starting => match event {
                Event::PlayStarted => {
                    self.stage = Stage::Streaming;
                    Action::AwaitNext
                },
                Event::PlayFailed => self.settle(
                    Outcome::Failed(RelayError::PlaybackStartFailed),
                    hub,
                ),
                _ => Action::Nothing,
            },
            Stage::Streaming => match event {
                Event::Item(StreamItem::Video(frame)) => {
                    if let Some(selection) = &self.selection {
                        process_video_frame(
                            frame,
                            selection.codec(),
                            selection.config().as_slice(),
                            hub,
                        );
                    }
                    Action::AwaitNext
                },
                Event::Item(StreamItem::Other) => Action::AwaitNext,
                Event::EndOfStream => self.settle(Outcome::Failed(RelayError::StreamEnded), hub),
                Event::StreamFailed => self.settle(Outcome::Failed(RelayError::StreamFailed), hub),
                Event::StopRequested => self.settle(Outcome::Stopped, hub),
                _ => Action::Nothing,
            },
            Stage::Closing => match (event, self.outcome) {
                (Event::TeardownDone, Some(outcome)) => {
                    self.stage = Stage::Finished;
                    Action::Exit { outcome, teardown_failed: false }
                },
                (Event::TeardownFailed, Some(outcome)) => {
                    self.stage = Stage::Finished;
                    Action::Exit { outcome, teardown_failed: true }
                },
                _ => Action::Nothing,
            },
            Stage::Finished => Action::Nothing,
        }
    }
}

} // verus!

//! The track scheduler and the playback state.
//!
//! The scheduler is a state machine that never ends. It works on what its
//! caller reports ([`Input`]) and answers with what to do next
//! ([`Action`]); it does no work of its own, so every decision of the feed
//! is in [`transition`]. The caller performs each action and reports the
//! outcome.
//!
//! A track comes from the queue, or, when the queue is empty, from the
//! catalog by chance. A track from the queue plays to its end. A track from
//! the catalog gives way as soon as the queue changes.

use crate::models::Track;
use crate::pacing::{
    byte_rate, bytes_per_sec, chunk_size, chunk_size_for, RETRY_DELAY_MS,
};
use crate::playlist::{display_name_of, item_of, Playlist, PlaylistItem};
use vstd::prelude::*;

verus! {

/// The next track to play, with how it was chosen.
#[derive(Debug, PartialEq, Eq)]
pub enum NextTrack {
    /// Taken from the queue.
    Queued(PlaylistItem),
    /// Picked from the catalog because the queue was empty.
    Auto(PlaylistItem),
}

impl Clone for NextTrack {
    fn clone(&self) -> (copy: Self)
        ensures
            copy == *self,
    {
        match self {
            NextTrack::Queued(item) => NextTrack::Queued(item.clone()),
            NextTrack::Auto(item) => NextTrack::Auto(item.clone()),
        }
    }
}

impl NextTrack {
    /// The track itself.
    pub open spec fn track(self) -> PlaylistItem {
        match self {
            NextTrack::Queued(item) => item,
            NextTrack::Auto(item) => item,
        }
    }

    /// The track itself.
    pub fn item(&self) -> (item: &PlaylistItem)
        ensures
            *item == self.track(),
    {
        match self {
            NextTrack::Queued(item) => item,
            NextTrack::Auto(item) => item,
        }
    }

    /// Whether the track was picked from the catalog.
    pub fn is_auto(&self) -> (auto: bool)
        ensures
            auto == (*self is Auto),
    {
        match self {
            NextTrack::Queued(_) => false,
            NextTrack::Auto(_) => true,
        }
    }
}

/// The track that is on air.
#[derive(Debug, PartialEq, Eq)]
pub struct CurrentTrack {
    pub item: PlaylistItem,
    /// When streaming began, in milliseconds on the caller's clock.
    pub started_at: u64,
    /// Size of the track's file in bytes.
    pub file_size: u64,
}

impl Clone for CurrentTrack {
    fn clone(&self) -> (copy: Self)
        ensures
            copy == *self,
    {
        CurrentTrack {
            item: self.item.clone(),
            started_at: self.started_at,
            file_size: self.file_size,
        }
    }
}

/// What is on air: one track or none.
#[derive(Debug, PartialEq, Eq)]
pub struct RadioState {
    pub current_track: Option<CurrentTrack>,
}

/// The name of the track on air, as subscribers of the event bus are told.
#[derive(Debug, PartialEq, Eq)]
pub struct CurrentTrackData {
    pub name: Option<String>,
}

impl Clone for CurrentTrackData {
    fn clone(&self) -> (copy: Self)
        ensures
            copy == *self,
    {
        CurrentTrackData {
            name: match &self.name {
                Some(name) => Some(name.clone()),
                None => None,
            },
        }
    }
}

/// The name of the track on air, as a request for it is answered.
#[derive(Debug, PartialEq, Eq)]
pub struct GetCurrentTrackResponse {
    pub name: Option<String>,
}

/// An event on the bus.
#[derive(Debug, PartialEq, Eq)]
pub enum WebSocketMessage {
    /// Another track is on air, or none.
    CurrentTrack(CurrentTrackData),
    /// The queue has changed.
    Playlist(Playlist),
}

impl Clone for WebSocketMessage {
    fn clone(&self) -> (copy: Self)
        ensures
            match (*self, copy) {
                (WebSocketMessage::CurrentTrack(a), WebSocketMessage::CurrentTrack(b)) => a == b,
                (WebSocketMessage::Playlist(a), WebSocketMessage::Playlist(b)) => a@ == b@,
                _ => false,
            },
    {
        match self {
            WebSocketMessage::CurrentTrack(data) => WebSocketMessage::CurrentTrack(data.clone()),
            WebSocketMessage::Playlist(queue) => WebSocketMessage::Playlist(queue.clone()),
        }
    }
}

/// The display name of the track on air, if there is one.
pub open spec fn name_on_air(current: Option<CurrentTrack>) -> Option<Seq<char>> {
    match current {
        Some(track) => Some(display_name_of(track.item.artist@, track.item.title@)),
        None => None,
    }
}

/// What an optional string holds.
pub open spec fn text_of(name: Option<String>) -> Option<Seq<char>> {
    match name {
        Some(text) => Some(text@),
        None => None,
    }
}

impl RadioState {
    /// Nothing on air.
    pub fn new() -> (state: RadioState)
        ensures
            state.current_track is None,
    {
        RadioState { current_track: None }
    }

    /// The display name of the track on air.
    pub fn current_name(&self) -> (name: Option<String>)
        ensures
            text_of(name) == name_on_air(self.current_track),
    {
        match &self.current_track {
            Some(track) => Some(track.item.display_name()),
            None => None,
        }
    }

    /// The answer to a request for the track on air.
    pub fn get_current_track(&self) -> (response: GetCurrentTrackResponse)
        ensures
            text_of(response.name) == name_on_air(self.current_track),
    {
        GetCurrentTrackResponse { name: self.current_name() }
    }

    /// What the event bus is told of the track on air.
    pub fn get_current_track_ws(&self) -> (data: CurrentTrackData)
        ensures
            text_of(data.name) == name_on_air(self.current_track),
    {
        CurrentTrackData { name: self.current_name() }
    }

    /// The event that tells what is on air now. It is published whenever a
    /// track starts or ends, and handed to every new subscriber before any
    /// live event.
    pub fn current_event(&self) -> (event: WebSocketMessage)
        ensures
            event matches WebSocketMessage::CurrentTrack(data) && text_of(data.name)
                == name_on_air(self.current_track),
    {
        WebSocketMessage::CurrentTrack(self.get_current_track_ws())
    }

    /// What a new subscriber of the event bus is sent before any live
    /// event: what is on air, and then the queue, if it could be read.
    pub fn greeting(&self, playlist: Option<Playlist>) -> (events: Vec<WebSocketMessage>)
        ensures
            events@.len() == if playlist is Some {
                2int
            } else {
                1int
            },
            events@[0] matches WebSocketMessage::CurrentTrack(data) && text_of(data.name)
                == name_on_air(self.current_track),
            playlist matches Some(queue) ==> events@[1] == WebSocketMessage::Playlist(queue),
    {
        let mut events: Vec<WebSocketMessage> = Vec::new();
        events.push(self.current_event());
        match playlist {
            Some(queue) => {
                events.push(WebSocketMessage::Playlist(queue));
            },
            None => {},
        }
        events
    }
}

/// What a subscriber's end of a channel hands out.
#[derive(Debug, Clone, Copy, PartialEq, Eq, Structural)]
pub enum Received {
    /// The next chunk or event.
    Item,
    /// The subscriber fell behind by more than the channel holds, and this
    /// many of the oldest items are lost to it.
    Lagged(u64),
    /// The channel is closed.
    Closed,
}

/// What to do with what a subscriber's end of a channel hands out.
#[derive(Debug, Clone, Copy, PartialEq, Eq, Structural)]
pub enum Relay {
    /// Send the item to the client, and go on unless that fails.
    Forward,
    /// Go on with the oldest item that is left.
    Skip,
    /// End the relay.
    Stop,
}

/// The relay rule: items are forwarded; a subscriber that fell behind goes
/// on without what it lost; the relay ends when the channel is closed.
pub open spec fn relay_of(received: Received) -> Relay {
    match received {
        Received::Item => Relay::Forward,
        Received::Lagged(_) => Relay::Skip,
        Received::Closed => Relay::Stop,
    }
}

/// What to do with what a subscriber's end of a channel hands out.
pub fn relay(received: Received) -> (action: Relay)
    ensures
        action == relay_of(received),
{
    match received {
        Received::Item => Relay::Forward,
        Received::Lagged(_) => Relay::Skip,
        Received::Closed => Relay::Stop,
    }
}

/// How the passthrough stream of a track is to run.
#[derive(Debug, Clone, Copy, PartialEq, Eq, Structural)]
pub struct StreamPlan {
    /// The target rate.
    pub bytes_per_sec: u64,
    /// The size of the chunks to read.
    pub chunk_size: u64,
    /// Whether the stream gives way when the queue changes.
    pub interruptible: bool,
}

/// The plan for streaming `next` from a file of `file_size` bytes: rate and
/// chunk size follow from the file's size and the track's playing time, and
/// only a track from the catalog can be interrupted.
pub open spec fn plan_for(next: NextTrack, file_size: u64) -> StreamPlan {
    let rate = byte_rate(file_size as int, next.track().duration_sec as int);
    StreamPlan {
        bytes_per_sec: rate as u64,
        chunk_size: chunk_size_for(rate) as u64,
        interruptible: next is Auto,
    }
}

/// Where the scheduler stands.
#[derive(Debug, PartialEq, Eq)]
pub enum Stage {
    /// Not started yet, or waiting before the next attempt to find a track.
    Idle,
    /// Looking for the next track: the queue has been asked, or, once it
    /// has answered that it is empty, the catalog.
    SelectNext { asked_catalog: bool },
    /// The track's audio is being brought into the local cache.
    Fetching(NextTrack),
    /// The track is on air.
    Streaming(NextTrack),
    /// The track is over and its end is being made known.
    Finished,
}

impl Clone for Stage {
    fn clone(&self) -> (copy: Self)
        ensures
            copy == *self,
    {
        match self {
            Stage::Idle => Stage::Idle,
            Stage::SelectNext { asked_catalog } => Stage::SelectNext {
                asked_catalog: *asked_catalog,
            },
            Stage::Fetching(next) => Stage::Fetching(next.clone()),
            Stage::Streaming(next) => Stage::Streaming(next.clone()),
            Stage::Finished => Stage::Finished,
        }
    }
}

/// What the caller reports to the scheduler.
#[derive(Debug, PartialEq, Eq)]
pub enum Input {
    /// The feed starts, or the wait after a failed search is over.
    Wake,
    /// The queue has answered: its front track, or none if it is empty or
    /// could not be read.
    QueueAnswer(Option<PlaylistItem>),
    /// The catalog has answered: a track picked by chance, or none if it is
    /// empty or could not be read.
    CatalogAnswer(Option<Track>),
    /// The fetch is over: the size of the cached file, or none if the audio
    /// could not be fetched or the file not be measured; and the time.
    FetchDone { file_size: Option<u64>, now: u64 },
    /// Both streams of the track have ended, each at its end of file or on
    /// an error.
    StreamDone,
    /// The queue has changed while the stream was running.
    QueueChanged,
    /// The end of the track has been made known.
    Published,
}

/// What the scheduler asks the caller to do.
#[derive(Debug, PartialEq, Eq)]
pub enum Action {
    /// Nothing new: the report did not answer what is in progress.
    Wait,
    /// Take the front track from the queue and report it.
    PopQueue,
    /// Pick a track from the catalog by chance and report it.
    PickRandom,
    /// Wait for the given time and report back.
    Sleep { millis: u64 },
    /// Make sure that the track's audio is in the local cache, fetching it
    /// only if it is not there, and report the size of the file.
    Fetch { item: PlaylistItem },
    /// Publish the event that names the track now on air, then run both
    /// streams of it, the passthrough stream by this plan. Report their
    /// end, or, only if the plan allows it, a change of the queue,
    /// whichever comes first; for that, watch the queue from before the
    /// streams start.
    Stream { plan: StreamPlan },
    /// Publish the event that tells that no track is on air, and report.
    Announce,
}

/// The scheduler as a mathematical value.
pub struct SchedulerModel {
    pub stage: Stage,
    pub current: Option<CurrentTrack>,
}

impl SchedulerModel {
    /// A track is on air exactly while the scheduler is streaming, and it
    /// is the track that the scheduler streams.
    pub open spec fn consistent(self) -> bool {
        match self.stage {
            Stage::Streaming(next) => self.current matches Some(track) && track.item
                == next.track(),
            _ => self.current is None,
        }
    }
}

/// The stage and the action that follow when a search for a track begins.
pub open spec fn begin_search() -> (SchedulerModel, Action) {
    (
        SchedulerModel { stage: Stage::SelectNext { asked_catalog: false }, current: None },
        Action::PopQueue,
    )
}

/// The stage and the action that follow when `next` has been chosen.
pub open spec fn begin_fetch(next: NextTrack) -> (SchedulerModel, Action) {
    (
        SchedulerModel { stage: Stage::Fetching(next), current: None },
        Action::Fetch { item: next.track() },
    )
}

/// The stage and the action that follow when the track on air is over.
pub open spec fn end_track() -> (SchedulerModel, Action) {
    (SchedulerModel { stage: Stage::Finished, current: None }, Action::Announce)
}

/// The scheduler's rule: the state and the action that follow from a state
/// and a report. A report that does not answer what is in progress changes
/// nothing.
pub open spec fn transition(m: SchedulerModel, input: Input) -> (SchedulerModel, Action) {
    match (m.stage, input) {
        (Stage::Idle, Input::Wake) => begin_search(),
        (Stage::SelectNext { asked_catalog: false }, Input::QueueAnswer(Some(item))) => begin_fetch(
            NextTrack::Queued(item),
        ),
        (Stage::SelectNext { asked_catalog: false }, Input::QueueAnswer(None)) => (
            SchedulerModel { stage: Stage::SelectNext { asked_catalog: true }, current: None },
            Action::PickRandom,
        ),
        (Stage::SelectNext { asked_catalog: true }, Input::CatalogAnswer(Some(track))) => begin_fetch(
            NextTrack::Auto(item_of(track)),
        ),
        (Stage::SelectNext { asked_catalog: true }, Input::CatalogAnswer(None)) => (
            SchedulerModel { stage: Stage::Idle, current: None },
            Action::Sleep { millis: RETRY_DELAY_MS },
        ),
        (Stage::Fetching(next), Input::FetchDone { file_size: Some(size), now }) => (
            SchedulerModel {
                stage: Stage::Streaming(next),
                current: Some(
                    CurrentTrack { item: next.track(), started_at: now, file_size: size },
                ),
            },
            Action::Stream { plan: plan_for(next, size) },
        ),
        (Stage::Fetching(_), Input::FetchDone { file_size: None, now }) => begin_search(),
        (Stage::Streaming(_), Input::StreamDone) => end_track(),
        (Stage::Streaming(NextTrack::Auto(_)), Input::QueueChanged) => end_track(),
        (Stage::Finished, Input::Published) => begin_search(),
        _ => (m, Action::Wait),
    }
}

/// The scheduler: its stage and what is on air.
pub struct Scheduler {
    stage: Stage,
    state: RadioState,
}

impl View for Scheduler {
    type V = SchedulerModel;

    closed spec fn view(&self) -> SchedulerModel {
        SchedulerModel { stage: self.stage, current: self.state.current_track }
    }
}

impl Scheduler {
    #[verifier::type_invariant]
    closed spec fn consistent(self) -> bool {
        self@.consistent()
    }

    /// A scheduler that has not started: idle, with nothing on air.
    pub fn new() -> (scheduler: Scheduler)
        ensures
            scheduler@.stage == Stage::Idle,
            scheduler@.current is None,
    {
        Scheduler { stage: Stage::Idle, state: RadioState::new() }
    }

    /// Where the scheduler stands.
    pub fn stage(&self) -> (stage: &Stage)
        ensures
            *stage == self@.stage,
    {
        &self.stage
    }

    /// What is on air.
    pub fn state(&self) -> (state: &RadioState)
        ensures
            state.current_track == self@.current,
            self@.consistent(),
    {
        proof {
            use_type_invariant(self);
        }
        &self.state
    }

    /// Takes in a report and returns what to do next.
    pub fn step(&mut self, input: Input) -> (action: Action)
        ensures
            (final(self)@, action) == transition(old(self)@, input),
            final(self)@.consistent(),
    {
        proof {
            use_type_invariant(&*self);
            lemma_transition_keeps_consistent(self@, input);
        }
        let stage = self.stage.clone();
        match stage {
            Stage::Idle => match input {
                Input::Wake => self.search(),
                _ => Action::Wait,
            },
            Stage::SelectNext { asked_catalog } => match input {
                Input::QueueAnswer(answer) => {
                    if asked_catalog {
                        Action::Wait
                    } else {
                        match answer {
                            Some(item) => self.fetch(NextTrack::Queued(item)),
                            None => {
                                *self = Scheduler {
                                    stage: Stage::SelectNext { asked_catalog: true },
                                    state: RadioState::new(),
                                };
                                Action::PickRandom
                            },
                        }
                    }
                },
                Input::CatalogAnswer(answer) => {
                    if asked_catalog {
                        match answer {
                            Some(track) => self.fetch(NextTrack::Auto(PlaylistItem::from_track(track))),
                            None => {
                                *self = Scheduler { stage: Stage::Idle, state: RadioState::new() };
                                Action::Sleep { millis: RETRY_DELAY_MS }
                            },
                        }
                    } else {
                        Action::Wait
                    }
                },
                _ => Action::Wait,
            },
            Stage::Fetching(next) => match input {
                Input::FetchDone { file_size, now } => match file_size {
                    Some(size) => {
                        let rate = bytes_per_sec(size, next.item().duration_sec);
                        let plan = StreamPlan {
                            bytes_per_sec: rate,
                            chunk_size: chunk_size(rate),
                            interruptible: next.is_auto(),
                        };
                        let current = CurrentTrack {
                            item: next.item().clone(),
                            started_at: now,
                            file_size: size,
                        };
                        *self = Scheduler {
                            stage: Stage::Streaming(next),
                            state: RadioState { current_track: Some(current) },
                        };
                        Action::Stream { plan }
                    },
                    None => self.search(),
                },
                _ => Action::Wait,
            },
            Stage::Streaming(next) => match input {
                Input::StreamDone => self.finish(),
                Input::QueueChanged => {
                    if next.is_auto() {
                        self.finish()
                    } else {
                        Action::Wait
                    }
                },
                _ => Action::Wait,
            },
            Stage::Finished => match input {
                Input::Published => self.search(),
                _ => Action::Wait,
            },
        }
    }

    fn search(&mut self) -> (action: Action)
        ensures
            (final(self)@, action) == begin_search(),
    {
        *self = Scheduler {
            stage: Stage::SelectNext { asked_catalog: false },
            state: RadioState::new(),
        };
        Action::PopQueue
    }

    fn fetch(&mut self, next: NextTrack) -> (action: Action)
        ensures
            (final(self)@, action) == begin_fetch(next),
    {
        let item = next.item().clone();
        *self = Scheduler { stage: Stage::Fetching(next), state: RadioState::new() };
        Action::Fetch { item }
    }

    fn finish(&mut self) -> (action: Action)
        ensures
            (final(self)@, action) == end_track(),
    {
        *self = Scheduler { stage: Stage::Finished, state: RadioState::new() };
        Action::Announce
    }
}

/// At most one track is on air, and only while the scheduler streams:
/// whatever is reported, a consistent state is followed by a consistent
/// state.
pub proof fn lemma_transition_keeps_consistent(m: SchedulerModel, input: Input)
    requires
        m.consistent(),
    ensures
        transition(m, input).0.consistent(),
{
}

/// The state after a series of reports.
pub open spec fn after_all(m: SchedulerModel, inputs: Seq<Input>) -> SchedulerModel
    decreases inputs.len(),
{
    if inputs.len() == 0 {
        m
    } else {
        transition(after_all(m, inputs.drop_last()), inputs.last()).0
    }
}

/// Whatever is reported, and in whatever order, the scheduler that started
/// idle with nothing on air is consistent at every moment: a track is on
/// air exactly while it streams.
pub proof fn lemma_always_consistent(inputs: Seq<Input>)
    ensures
        after_all(SchedulerModel { stage: Stage::Idle, current: None }, inputs).consistent(),
    decreases inputs.len(),
{
    let start = SchedulerModel { stage: Stage::Idle, current: None };
    if inputs.len() > 0 {
        lemma_always_consistent(inputs.drop_last());
        lemma_transition_keeps_consistent(after_all(start, inputs.drop_last()), inputs.last());
    }
}

/// A track that is put in the queue while a track from the catalog is on
/// air plays next, unless others wait before it: once the change of the
/// queue is reported, the track that goes on air is the front of the queue
/// as it stands after the push, which is the pushed track itself if the
/// queue was empty.
pub proof fn lemma_pushed_track_is_next(
    m: SchedulerModel,
    picked: PlaylistItem,
    queue: Seq<PlaylistItem>,
    pushed: PlaylistItem,
    size: u64,
    now: u64,
)
    requires
        m.consistent(),
        m.stage == Stage::Streaming(NextTrack::Auto(picked)),
    ensures
        ({
            let front = queue.push(pushed)[0];
            let (m1, a1) = transition(m, Input::QueueChanged);
            let (m2, a2) = transition(m1, Input::Published);
            let (m3, a3) = transition(m2, Input::QueueAnswer(Some(front)));
            let (m4, a4) = transition(m3, Input::FetchDone { file_size: Some(size), now });
            &&& m4.stage == Stage::Streaming(NextTrack::Queued(front))
            &&& m4.current matches Some(track) && track.item == front
            &&& queue.len() == 0 ==> front == pushed
            &&& queue.len() > 0 ==> front == queue[0]
        }),
{
    lemma_queue_change_interrupts_auto(m, picked, queue.push(pushed)[0], size, now);
}

/// A change of the queue takes the air from a track that was picked from
/// the catalog. If the queue changes while such a track is streaming, the
/// track ends at once; the next thing asked for is the front of the queue,
/// and when the queue hands out its front track, that track is fetched and
/// goes on air, as a queued track that nothing interrupts. Between the two
/// tracks the catalog is not asked and no other stream starts.
pub proof fn lemma_queue_change_interrupts_auto(
    m: SchedulerModel,
    picked: PlaylistItem,
    queued: PlaylistItem,
    size: u64,
    now: u64,
)
    requires
        m.consistent(),
        m.stage == Stage::Streaming(NextTrack::Auto(picked)),
    ensures
        ({
            let (m1, a1) = transition(m, Input::QueueChanged);
            let (m2, a2) = transition(m1, Input::Published);
            let (m3, a3) = transition(m2, Input::QueueAnswer(Some(queued)));
            let (m4, a4) = transition(m3, Input::FetchDone { file_size: Some(size), now });
            &&& a1 == Action::Announce
            &&& m1.current is None
            &&& a2 == Action::PopQueue
            &&& a3 == Action::Fetch { item: queued }
            &&& a4 matches Action::Stream { plan } && !plan.interruptible
            &&& m4.stage == Stage::Streaming(NextTrack::Queued(queued))
            &&& m4.current matches Some(track) && track.item == queued
        }),
{
}

/// A track from the queue plays to its end: while it streams, nothing but
/// the end of its streams moves the scheduler, and a change of the queue
/// is answered with [`Action::Wait`].
pub proof fn lemma_queued_track_runs_to_completion(
    m: SchedulerModel,
    queued: PlaylistItem,
    input: Input,
)
    requires
        m.stage == Stage::Streaming(NextTrack::Queued(queued)),
        input != Input::StreamDone,
    ensures
        transition(m, input) == (m, Action::Wait),
{
}

/// The queue comes first: the catalog is asked only in answer to the queue
/// reporting that it has no track.
pub proof fn lemma_catalog_only_after_empty_queue(m: SchedulerModel, input: Input)
    requires
        transition(m, input).1 == Action::PickRandom,
    ensures
        m.stage == (Stage::SelectNext { asked_catalog: false }),
        input == Input::QueueAnswer(None),
{
}

/// Finding no track is not fatal: when queue and catalog both have none,
/// the scheduler waits [`RETRY_DELAY_MS`] and then asks the queue again;
/// and when a track cannot be fetched, it asks the queue again at once.
pub proof fn lemma_search_goes_on(m: SchedulerModel, next: NextTrack, now: u64)
    ensures
        ({
            let empty = SchedulerModel {
                stage: Stage::SelectNext { asked_catalog: true },
                current: None,
            };
            let (m1, a1) = transition(empty, Input::CatalogAnswer(None));
            &&& a1 == Action::Sleep { millis: RETRY_DELAY_MS }
            &&& transition(m1, Input::Wake) == begin_search()
        }),
        transition(
            SchedulerModel { stage: Stage::Fetching(next), current: None },
            Input::FetchDone { file_size: None, now },
        ) == begin_search(),
{
}

/// A stream starts only when a fetch has succeeded, and what goes on air is
/// the track that was fetched: the catalog's pick can be interrupted, the
/// queue's track cannot.
pub proof fn lemma_stream_follows_fetch(m: SchedulerModel, input: Input)
    requires
        transition(m, input).1 is Stream,
    ensures
        m.stage is Fetching,
        input matches Input::FetchDone { file_size: Some(size), now } && ({
            let next = m.stage->Fetching_0;
            let (after, action) = transition(m, input);
            &&& action == Action::Stream { plan: plan_for(next, size) }
            &&& after.stage == Stage::Streaming(next)
            &&& after.current == Some(
                CurrentTrack { item: next.track(), started_at: now, file_size: size },
            )
            &&& plan_for(next, size).interruptible == (next is Auto)
        }),
{
}

} // verus!

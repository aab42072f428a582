//! The background workers, each as a table from phase and event to the next
//! phase, the message to send and the time to wait. The caller performs what
//! a phase asks for and hands back what came of it.

use crate::app::{message_view, DisplayMessage, MessageView};
use crate::clock::{clock_message, clock_update, shanghai_clock};
use crate::device::{POLL_SECS, RETRY_SECS};
use crate::state::StateView;
use crate::weather::{WeatherData, WeatherView};
use crate::wifi::WifiStatus;
use vstd::prelude::*;

verus! {

/// Seconds between two clock updates.
pub const CLOCK_TICK_SECS: u64 = 1;

/// Seconds between two weather fetches, whether the last one succeeded or
/// not.
pub const WEATHER_INTERVAL_SECS: u64 = 3600;

/// What a worker does after an event: it moves to `phase`, sends `message`
/// if there is one, and waits `wait_secs` before it acts again.
#[derive(Clone, Debug, PartialEq, Eq)]
pub struct Step<P> {
    pub phase: P,
    pub message: Option<DisplayMessage>,
    pub wait_secs: u64,
}

/// A step with its message as a view.
pub struct StepView<P> {
    pub phase: P,
    pub message: Option<MessageView>,
    pub wait_secs: u64,
}

impl<P> View for Step<P> {
    type V = StepView<P>;

    open spec fn view(&self) -> StepView<P> {
        StepView {
            phase: self.phase,
            message: message_view(self.message),
            wait_secs: self.wait_secs,
        }
    }
}

/// The state after a step's message, if it has one, was applied.
pub open spec fn after_step(state: StateView, message: Option<MessageView>) -> StateView {
    match message {
        Some(m) => state.apply(m),
        None => state,
    }
}

/// Phases of the worker that brings the link up.
#[derive(Clone, Copy, Debug, PartialEq, Eq, Structural)]
pub enum LinkPhase {
    /// The radio is to be started and joined to the network.
    Joining,
    /// The radio was started; its status is asked until it is connected.
    Watching,
    /// The link was published; the worker has nothing left to do.
    Settled,
}

/// What the link worker asks of its caller in a phase.
#[derive(Clone, Copy, Debug, PartialEq, Eq, Structural)]
pub enum LinkRequest {
    Connect,
    ReadStatus,
    Nothing,
}

/// What came of a request of the link worker.
#[derive(Clone, Debug, PartialEq, Eq)]
pub enum LinkEvent {
    Joined,
    JoinFailed,
    Report(WifiStatus, String),
    ReportFailed,
}

/// A link event with its text as a view.
pub enum LinkEventView {
    Joined,
    JoinFailed,
    Report(WifiStatus, Seq<char>),
    ReportFailed,
}

impl View for LinkEvent {
    type V = LinkEventView;

    open spec fn view(&self) -> LinkEventView {
        match *self {
            LinkEvent::Joined => LinkEventView::Joined,
            LinkEvent::JoinFailed => LinkEventView::JoinFailed,
            LinkEvent::Report(status, ip) => LinkEventView::Report(status, ip@),
            LinkEvent::ReportFailed => LinkEventView::ReportFailed,
        }
    }
}

/// What the link worker asks for in a phase.
pub open spec fn link_request_of(phase: LinkPhase) -> LinkRequest {
    match phase {
        LinkPhase::Joining => LinkRequest::Connect,
        LinkPhase::Watching => LinkRequest::ReadStatus,
        LinkPhase::Settled => LinkRequest::Nothing,
    }
}

/// The link worker's table. A failed join is tried again after the retry
/// delay, without end. Once joined, the status is asked every retry delay
/// until it reads connected; then status and address are published in one
/// message, once.
pub open spec fn link_table(phase: LinkPhase, event: LinkEventView) -> StepView<LinkPhase> {
    match (phase, event) {
        (LinkPhase::Settled, _) => StepView { phase, message: None, wait_secs: 0 },
        (LinkPhase::Joining, LinkEventView::Joined) => StepView {
            phase: LinkPhase::Watching,
            message: None,
            wait_secs: 0,
        },
        (LinkPhase::Watching, LinkEventView::Report(WifiStatus::Connected, ip)) => StepView {
            phase: LinkPhase::Settled,
            message: Some(MessageView::UpdateWifi(WifiStatus::Connected, ip)),
            wait_secs: 0,
        },
        _ => StepView { phase, message: None, wait_secs: RETRY_SECS },
    }
}

impl LinkPhase {
    /// What to ask of the radio in this phase.
    pub fn request(self) -> (r: LinkRequest)
        ensures
            r == link_request_of(self),
    {
        match self {
            LinkPhase::Joining => LinkRequest::Connect,
            LinkPhase::Watching => LinkRequest::ReadStatus,
            LinkPhase::Settled => LinkRequest::Nothing,
        }
    }
}

/// One step of the link worker.
pub fn link_step(phase: LinkPhase, event: LinkEvent) -> (r: Step<LinkPhase>)
    ensures
        r@ == link_table(phase, event@),
{
    match phase {
        LinkPhase::Settled => Step { phase, message: None, wait_secs: 0 },
        LinkPhase::Joining => match event {
            LinkEvent::Joined => Step { phase: LinkPhase::Watching, message: None, wait_secs: 0 },
            _ => Step { phase, message: None, wait_secs: RETRY_SECS },
        },
        LinkPhase::Watching => match event {
            LinkEvent::Report(WifiStatus::Connected, ip) => Step {
                phase: LinkPhase::Settled,
                message: Some(DisplayMessage::UpdateWifi(WifiStatus::Connected, ip)),
                wait_secs: 0,
            },
            _ => Step { phase, message: None, wait_secs: RETRY_SECS },
        },
    }
}

/// Phases of the worker that keeps the clock.
#[derive(Clone, Copy, Debug, PartialEq, Eq, Structural)]
pub enum TimePhase {
    /// The shared state does not show a link yet.
    AwaitingLink,
    /// The time service is to be started.
    Starting,
    /// The time service runs; its completion is asked.
    Syncing,
    /// The clock is set; every tick publishes date and time.
    Ticking,
}

/// What the time worker asks of its caller in a phase.
#[derive(Clone, Copy, Debug, PartialEq, Eq, Structural)]
pub enum TimeRequest {
    ReadLink,
    StartSync,
    ReadSync,
    ReadClock,
}

/// What came of a request of the time worker.
#[derive(Clone, Copy, Debug, PartialEq, Eq, Structural)]
pub enum TimeEvent {
    /// The link status in the shared state.
    Link(WifiStatus),
    Started,
    StartFailed,
    /// Whether the time service has completed.
    Sync(bool),
    /// The system clock, in seconds after the Unix epoch.
    Now(i64),
}

/// What the time worker asks for in a phase.
pub open spec fn time_request_of(phase: TimePhase) -> TimeRequest {
    match phase {
        TimePhase::AwaitingLink => TimeRequest::ReadLink,
        TimePhase::Starting => TimeRequest::StartSync,
        TimePhase::Syncing => TimeRequest::ReadSync,
        TimePhase::Ticking => TimeRequest::ReadClock,
    }
}

/// The time worker's table. Each phase is left on the one event that
/// completes it and is otherwise asked again after a second, without end;
/// once ticking, each reading of the clock is published, where it can be
/// written as date and time, and followed by a second's wait.
pub open spec fn time_table(phase: TimePhase, event: TimeEvent) -> StepView<TimePhase> {
    match (phase, event) {
        (TimePhase::AwaitingLink, TimeEvent::Link(WifiStatus::Connected)) => StepView {
            phase: TimePhase::Starting,
            message: None,
            wait_secs: 0,
        },
        (TimePhase::Starting, TimeEvent::Started) => StepView {
            phase: TimePhase::Syncing,
            message: None,
            wait_secs: 0,
        },
        (TimePhase::Syncing, TimeEvent::Sync(true)) => StepView {
            phase: TimePhase::Ticking,
            message: None,
            wait_secs: 0,
        },
        (TimePhase::Ticking, TimeEvent::Now(secs)) => StepView {
            phase,
            message: clock_update(shanghai_clock(secs as int)),
            wait_secs: CLOCK_TICK_SECS,
        },
        (TimePhase::Ticking, _) => StepView { phase, message: None, wait_secs: CLOCK_TICK_SECS },
        _ => StepView { phase, message: None, wait_secs: POLL_SECS },
    }
}

impl TimePhase {
    /// What to ask for in this phase.
    pub fn request(self) -> (r: TimeRequest)
        ensures
            r == time_request_of(self),
    {
        match self {
            TimePhase::AwaitingLink => TimeRequest::ReadLink,
            TimePhase::Starting => TimeRequest::StartSync,
            TimePhase::Syncing => TimeRequest::ReadSync,
            TimePhase::Ticking => TimeRequest::ReadClock,
        }
    }
}

/// One step of the time worker.
pub fn time_step(phase: TimePhase, event: TimeEvent) -> (r: Step<TimePhase>)
    ensures
        r@ == time_table(phase, event),
{
    match phase {
        TimePhase::AwaitingLink => match event {
            TimeEvent::Link(WifiStatus::Connected) => Step {
                phase: TimePhase::Starting,
                message: None,
                wait_secs: 0,
            },
            _ => Step { phase, message: None, wait_secs: POLL_SECS },
        },
        TimePhase::Starting => match event {
            TimeEvent::Started => Step { phase: TimePhase::Syncing, message: None, wait_secs: 0 },
            _ => Step { phase, message: None, wait_secs: POLL_SECS },
        },
        TimePhase::Syncing => match event {
            TimeEvent::Sync(true) => Step { phase: TimePhase::Ticking, message: None, wait_secs: 0 },
            _ => Step { phase, message: None, wait_secs: POLL_SECS },
        },
        TimePhase::Ticking => match event {
            TimeEvent::Now(secs) => Step {
                phase,
                message: clock_message(secs),
                wait_secs: CLOCK_TICK_SECS,
            },
            _ => Step { phase, message: None, wait_secs: CLOCK_TICK_SECS },
        },
    }
}

/// Phases of the worker that fetches the weather.
#[derive(Clone, Copy, Debug, PartialEq, Eq, Structural)]
pub enum WeatherPhase {
    /// The shared state does not show a link yet.
    AwaitingLink,
    /// The service is asked once per interval.
    Polling,
}

/// What the weather worker asks of its caller in a phase.
#[derive(Clone, Copy, Debug, PartialEq, Eq, Structural)]
pub enum WeatherRequest {
    ReadLink,
    Fetch,
}

/// What came of a request of the weather worker.
#[derive(Clone, Debug, PartialEq, Eq)]
pub enum WeatherEvent {
    /// The link status in the shared state.
    Link(WifiStatus),
    Fetched(WeatherData),
    FetchFailed,
}

/// A weather event with its texts as views.
pub enum WeatherEventView {
    Link(WifiStatus),
    Fetched(WeatherView),
    FetchFailed,
}

impl View for WeatherEvent {
    type V = WeatherEventView;

    open spec fn view(&self) -> WeatherEventView {
        match *self {
            WeatherEvent::Link(status) => WeatherEventView::Link(status),
            WeatherEvent::Fetched(data) => WeatherEventView::Fetched(data@),
            WeatherEvent::FetchFailed => WeatherEventView::FetchFailed,
        }
    }
}

/// What the weather worker asks for in a phase.
pub open spec fn weather_request_of(phase: WeatherPhase) -> WeatherRequest {
    match phase {
        WeatherPhase::AwaitingLink => WeatherRequest::ReadLink,
        WeatherPhase::Polling => WeatherRequest::Fetch,
    }
}

/// The weather worker's table. The link is waited for a second at a time.
/// Then each fetch is followed by a full interval: a reading is published,
/// a failure publishes nothing and is not retried before the interval is
/// over.
pub open spec fn weather_table(phase: WeatherPhase, event: WeatherEventView) -> StepView<
    WeatherPhase,
> {
    match (phase, event) {
        (WeatherPhase::AwaitingLink, WeatherEventView::Link(WifiStatus::Connected)) => StepView {
            phase: WeatherPhase::Polling,
            message: None,
            wait_secs: 0,
        },
        (WeatherPhase::AwaitingLink, _) => StepView {
            phase,
            message: None,
            wait_secs: POLL_SECS,
        },
        (WeatherPhase::Polling, WeatherEventView::Fetched(data)) => StepView {
            phase,
            message: Some(MessageView::UpdateWeather(data.temp, data.city)),
            wait_secs: WEATHER_INTERVAL_SECS,
        },
        (WeatherPhase::Polling, _) => StepView {
            phase,
            message: None,
            wait_secs: WEATHER_INTERVAL_SECS,
        },
    }
}

impl WeatherPhase {
    /// What to ask for in this phase.
    pub fn request(self) -> (r: WeatherRequest)
        ensures
            r == weather_request_of(self),
    {
        match self {
            WeatherPhase::AwaitingLink => WeatherRequest::ReadLink,
            WeatherPhase::Polling => WeatherRequest::Fetch,
        }
    }
}

/// One step of the weather worker.
pub fn weather_step(phase: WeatherPhase, event: WeatherEvent) -> (r: Step<WeatherPhase>)
    ensures
        r@ == weather_table(phase, event@),
{
    match phase {
        WeatherPhase::AwaitingLink => match event {
            WeatherEvent::Link(WifiStatus::Connected) => Step {
                phase: WeatherPhase::Polling,
                message: None,
                wait_secs: 0,
            },
            _ => Step { phase, message: None, wait_secs: POLL_SECS },
        },
        WeatherPhase::Polling => match event {
            WeatherEvent::Fetched(data) => Step {
                phase,
                message: Some(data.into_message()),
                wait_secs: WEATHER_INTERVAL_SECS,
            },
            _ => Step { phase, message: None, wait_secs: WEATHER_INTERVAL_SECS },
        },
    }
}

/// Once the clock is set, every tick publishes it: for each instant that
/// can be written as date and time, the step taken on it carries exactly
/// that date and time; for any instant, the worker keeps ticking and waits
/// one second.
pub proof fn lemma_tick_publishes_clock(secs: i64)
    ensures
        time_table(TimePhase::Ticking, TimeEvent::Now(secs)).phase == TimePhase::Ticking,
        time_table(TimePhase::Ticking, TimeEvent::Now(secs)).wait_secs == CLOCK_TICK_SECS,
        match shanghai_clock(secs as int) {
            Some((date, time)) => time_table(TimePhase::Ticking, TimeEvent::Now(secs)).message
                == Some(MessageView::UpdateTime(date, time)),
            None => time_table(TimePhase::Ticking, TimeEvent::Now(secs)).message is None,
        },
{
}

/// A reading outlives failures: once a fetch has published a reading, a
/// failed fetch leaves temperature and city on the display as they were.
pub proof fn lemma_failed_fetch_keeps_reading(state: StateView, reading: WeatherView)
    ensures
        ({
            let fetched = weather_table(WeatherPhase::Polling, WeatherEventView::Fetched(reading));
            let failed = weather_table(fetched.phase, WeatherEventView::FetchFailed);
            let shown = after_step(after_step(state, fetched.message), failed.message);
            &&& shown.weather == reading.temp
            &&& shown.city == reading.city
            &&& shown == after_step(state, fetched.message)
        }),
{
}

/// A failed fetch changes nothing, whatever the state holds.
pub proof fn lemma_failed_fetch_changes_nothing(state: StateView, phase: WeatherPhase)
    ensures
        after_step(state, weather_table(phase, WeatherEventView::FetchFailed).message) == state,
{
}

/// The link worker publishes status and address together and only when the
/// link is up: any message it sends is one update of both, reading
/// connected.
pub proof fn lemma_link_published_whole(phase: LinkPhase, event: LinkEventView)
    ensures
        match link_table(phase, event).message {
            Some(m) => exists|ip: Seq<char>|
                m == MessageView::UpdateWifi(WifiStatus::Connected, ip) && event
                    == LinkEventView::Report(WifiStatus::Connected, ip),
            None => true,
        },
{
    match link_table(phase, event).message {
        Some(m) => {
            let ip = event->Report_1;
            assert(m == MessageView::UpdateWifi(WifiStatus::Connected, ip));
        },
        None => {},
    }
}

} // verus!

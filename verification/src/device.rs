//! The device's lifecycle: from boot over link and time sync to the steady
//! state, and from there into an update and the reset that ends it.

use crate::state::{initial_state, State, StateView};
use crate::wifi::WifiStatus;
use vstd::prelude::*;

verus! {

/// The phase the device is in. Exactly one holds at a time.
#[derive(Clone, Copy, Debug, PartialEq, Eq, Structural)]
pub enum DeviceStatus {
    Booting,
    Connecting,
    Connected,
    Idle,
    Updating,
    Sleeping,
    Rebooting,
}

/// What a poll of the outside world can bring.
#[derive(Clone, Copy, Debug, PartialEq, Eq, Structural)]
pub enum DeviceEvent {
    /// The boot splash has been shown for its time.
    SplashElapsed,
    /// The radio reports its link.
    LinkReport(WifiStatus),
    /// The time service reports whether the clock is set.
    SyncReport(bool),
    /// A long press or a request asks for an update.
    UpdateRequested,
    /// The update routine has run to its end.
    UpdateFinished,
    /// The phase's own operation returned an error.
    Failed,
    /// Nothing to report.
    Tick,
}

/// What the device does on entering a phase, and again on each retry of it.
#[derive(Clone, Copy, Debug, PartialEq, Eq, Structural)]
pub enum DeviceAction {
    ShowSplash,
    Connect,
    SyncTime,
    Render,
    RunUpdate,
    Suspend,
    Reset,
}

/// Seconds between two polls.
pub const POLL_SECS: u64 = 1;

/// Seconds to wait before the link is tried again.
pub const RETRY_SECS: u64 = 2;

/// The date the clock shows before it was ever set.
pub const UNSET_DATE: &'static str = "0000-00-00";

/// The phase after `event` arrives in phase `status`. An event that the
/// phase does not wait for, a failure among them, leaves the phase as it is.
pub open spec fn step(status: DeviceStatus, event: DeviceEvent) -> DeviceStatus {
    match (status, event) {
        (DeviceStatus::Booting, DeviceEvent::SplashElapsed) => DeviceStatus::Connecting,
        (DeviceStatus::Connecting, DeviceEvent::LinkReport(WifiStatus::Connected)) => {
            DeviceStatus::Connected
        },
        (DeviceStatus::Connected, DeviceEvent::SyncReport(true)) => DeviceStatus::Idle,
        (DeviceStatus::Idle, DeviceEvent::UpdateRequested) => DeviceStatus::Updating,
        (DeviceStatus::Updating, DeviceEvent::UpdateFinished) => DeviceStatus::Rebooting,
        _ => status,
    }
}

/// The phase after a run of events, taken in order.
pub open spec fn run(status: DeviceStatus, events: Seq<DeviceEvent>) -> DeviceStatus
    decreases events.len(),
{
    if events.len() == 0 {
        status
    } else {
        run(step(status, events[0]), events.drop_first())
    }
}

/// How far along the lifecycle a phase lies. Sleeping lies beside it.
pub open spec fn progress(status: DeviceStatus) -> int {
    match status {
        DeviceStatus::Booting => 0,
        DeviceStatus::Connecting => 1,
        DeviceStatus::Connected => 2,
        DeviceStatus::Idle => 3,
        DeviceStatus::Updating => 4,
        DeviceStatus::Rebooting => 5,
        DeviceStatus::Sleeping => 6,
    }
}

/// What is done in a phase.
pub open spec fn action_of(status: DeviceStatus) -> DeviceAction {
    match status {
        DeviceStatus::Booting => DeviceAction::ShowSplash,
        DeviceStatus::Connecting => DeviceAction::Connect,
        DeviceStatus::Connected => DeviceAction::SyncTime,
        DeviceStatus::Idle => DeviceAction::Render,
        DeviceStatus::Updating => DeviceAction::RunUpdate,
        DeviceStatus::Sleeping => DeviceAction::Suspend,
        DeviceStatus::Rebooting => DeviceAction::Reset,
    }
}

/// The words shown while a phase lasts.
pub open spec fn status_label(status: DeviceStatus) -> Seq<char> {
    match status {
        DeviceStatus::Booting => "booting"@,
        DeviceStatus::Connecting => "connecting"@,
        DeviceStatus::Connected => "syncing time"@,
        DeviceStatus::Idle => "ready"@,
        DeviceStatus::Updating => "updating"@,
        DeviceStatus::Sleeping => "sleeping"@,
        DeviceStatus::Rebooting => "rebooting"@,
    }
}

/// Seconds to wait in a phase before the next poll: the link is retried
/// after its back-off, everything else is polled at the common cadence.
pub open spec fn delay_of(status: DeviceStatus) -> u64 {
    if status == DeviceStatus::Connecting {
        RETRY_SECS
    } else {
        POLL_SECS
    }
}

impl DeviceStatus {
    /// The phase a freshly started device is in.
    pub fn new() -> (r: Self)
        ensures
            r == DeviceStatus::Booting,
    {
        DeviceStatus::Booting
    }

    /// Takes one event.
    pub fn advance(self, event: DeviceEvent) -> (r: Self)
        ensures
            r == step(self, event),
    {
        match self {
            DeviceStatus::Booting => match event {
                DeviceEvent::SplashElapsed => DeviceStatus::Connecting,
                _ => self,
            },
            DeviceStatus::Connecting => match event {
                DeviceEvent::LinkReport(WifiStatus::Connected) => DeviceStatus::Connected,
                _ => self,
            },
            DeviceStatus::Connected => match event {
                DeviceEvent::SyncReport(true) => DeviceStatus::Idle,
                _ => self,
            },
            DeviceStatus::Idle => match event {
                DeviceEvent::UpdateRequested => DeviceStatus::Updating,
                _ => self,
            },
            DeviceStatus::Updating => match event {
                DeviceEvent::UpdateFinished => DeviceStatus::Rebooting,
                _ => self,
            },
            DeviceStatus::Sleeping => self,
            DeviceStatus::Rebooting => self,
        }
    }

    /// Takes a run of events, in order.
    pub fn advance_all(self, events: &Vec<DeviceEvent>) -> (r: Self)
        ensures
            r == run(self, events@),
    {
        let mut status = self;
        let mut i: usize = 0;
        proof {
            assert(events@.skip(0) == events@);
        }
        while i < events.len()
            invariant
                i <= events.len(),
                run(self, events@) == run(status, events@.skip(i as int)),
            decreases events.len() - i,
        {
            proof {
                let rest = events@.skip(i as int);
                assert(rest[0] == events@[i as int]);
                assert(rest.drop_first() == events@.skip(i + 1));
            }
            status = status.advance(events[i]);
            i += 1;
        }
        status
    }

    /// What to do in this phase.
    pub fn action(self) -> (r: DeviceAction)
        ensures
            r == action_of(self),
    {
        match self {
            DeviceStatus::Booting => DeviceAction::ShowSplash,
            DeviceStatus::Connecting => DeviceAction::Connect,
            DeviceStatus::Connected => DeviceAction::SyncTime,
            DeviceStatus::Idle => DeviceAction::Render,
            DeviceStatus::Updating => DeviceAction::RunUpdate,
            DeviceStatus::Sleeping => DeviceAction::Suspend,
            DeviceStatus::Rebooting => DeviceAction::Reset,
        }
    }

    /// The words to show while this phase lasts.
    pub fn status_text(self) -> (r: String)
        ensures
            r@ == status_label(self),
    {
        match self {
            DeviceStatus::Booting => "booting".to_owned(),
            DeviceStatus::Connecting => "connecting".to_owned(),
            DeviceStatus::Connected => "syncing time".to_owned(),
            DeviceStatus::Idle => "ready".to_owned(),
            DeviceStatus::Updating => "updating".to_owned(),
            DeviceStatus::Sleeping => "sleeping".to_owned(),
            DeviceStatus::Rebooting => "rebooting".to_owned(),
        }
    }

    /// Seconds to wait before the next poll in this phase.
    pub fn poll_delay_secs(self) -> (r: u64)
        ensures
            r == delay_of(self),
    {
        match self {
            DeviceStatus::Connecting => RETRY_SECS,
            _ => POLL_SECS,
        }
    }

    /// Whether the lifecycle has ended: only a reset follows.
    pub fn is_terminal(self) -> (r: bool)
        ensures
            r == (self == DeviceStatus::Rebooting),
    {
        match self {
            DeviceStatus::Rebooting => true,
            _ => false,
        }
    }
}

/// Whether the clock was set: its date is no longer the sentinel.
pub open spec fn clock_is_set(state: StateView) -> bool {
    state.date != UNSET_DATE@
}

/// The phase after the lifecycle has looked at the shared state: the link
/// status is taken as the radio's report, and a set clock as the time
/// service's.
pub open spec fn observed(status: DeviceStatus, state: StateView) -> DeviceStatus {
    step(
        step(status, DeviceEvent::LinkReport(state.wifi_status)),
        DeviceEvent::SyncReport(clock_is_set(state)),
    )
}

/// The phase after one turn of the foreground loop: the splash ends with
/// its first turn, and every later turn looks at the shared state.
pub open spec fn ticked(status: DeviceStatus, state: StateView) -> DeviceStatus {
    if status == DeviceStatus::Booting {
        step(status, DeviceEvent::SplashElapsed)
    } else {
        observed(status, state)
    }
}

/// Lets the lifecycle look at a snapshot.
pub fn observe(status: DeviceStatus, state: &State) -> (r: DeviceStatus)
    ensures
        r == observed(status, state@),
{
    let set = state.date != UNSET_DATE.to_owned();
    status.advance(DeviceEvent::LinkReport(state.wifi_status)).advance(
        DeviceEvent::SyncReport(set),
    )
}

/// Ends one turn of the foreground loop.
pub fn tick(status: DeviceStatus, state: &State) -> (r: DeviceStatus)
    ensures
        r == ticked(status, state@),
{
    match status {
        DeviceStatus::Booting => status.advance(DeviceEvent::SplashElapsed),
        _ => observe(status, state),
    }
}

/// Before any worker has reported, the clock counts as unset.
pub proof fn lemma_initial_clock_is_unset()
    ensures
        !clock_is_set(initial_state()),
{
}

/// A turn of the foreground loop never leaves the steady state, whatever
/// the shared state holds, and reaches it from boot in two turns
/// once the state shows the link and a set clock.
pub proof fn lemma_turns_reach_and_keep_idle(state: StateView)
    ensures
        ticked(DeviceStatus::Idle, state) == DeviceStatus::Idle,
        state.wifi_status == WifiStatus::Connected && clock_is_set(state) ==> ticked(
            ticked(DeviceStatus::Booting, state),
            state,
        ) == DeviceStatus::Idle,
{
}

/// Whether the events hold, in this order, the end of the splash, a report
/// of an established link and a report of a completed time sync.
pub open spec fn boot_completes(events: Seq<DeviceEvent>) -> bool {
    exists|i: int, j: int, k: int|
        0 <= i < j < k < events.len() && #[trigger] events[i] == DeviceEvent::SplashElapsed
            && #[trigger] events[j] == DeviceEvent::LinkReport(WifiStatus::Connected)
            && #[trigger] events[k] == DeviceEvent::SyncReport(true)
}

/// Whether no event asks for an update.
pub open spec fn no_update_request(events: Seq<DeviceEvent>) -> bool {
    forall|i: int| 0 <= i < events.len() ==> #[trigger] events[i] != DeviceEvent::UpdateRequested
}

/// Taking events one after the other is taking them all at once.
pub proof fn lemma_run_concat(status: DeviceStatus, first: Seq<DeviceEvent>, then: Seq<DeviceEvent>)
    ensures
        run(status, first + then) == run(run(status, first), then),
    decreases first.len(),
{
    if first.len() == 0 {
        assert(first + then == then);
    } else {
        assert((first + then)[0] == first[0]);
        assert((first + then).drop_first() == first.drop_first() + then);
        lemma_run_concat(step(status, first[0]), first.drop_first(), then);
    }
}

/// The steady state is steady: without an update request, no run of events
/// leads out of Idle.
pub proof fn lemma_idle_is_steady(events: Seq<DeviceEvent>)
    requires
        no_update_request(events),
    ensures
        run(DeviceStatus::Idle, events) == DeviceStatus::Idle,
    decreases events.len(),
{
    if events.len() > 0 {
        let rest = events.drop_first();
        assert(events[0] != DeviceEvent::UpdateRequested);
        assert forall|i: int| 0 <= i < rest.len() implies #[trigger] rest[i]
            != DeviceEvent::UpdateRequested by {
            assert(rest[i] == events[i + 1]);
        }
        lemma_idle_is_steady(rest);
    }
}

/// The phase never moves backward, and Sleeping is neither entered nor left.
pub proof fn lemma_never_goes_back(status: DeviceStatus, events: Seq<DeviceEvent>)
    ensures
        progress(status) <= progress(run(status, events)),
        (run(status, events) == DeviceStatus::Sleeping) == (status == DeviceStatus::Sleeping),
    decreases events.len(),
{
    if events.len() > 0 {
        lemma_never_goes_back(step(status, events[0]), events.drop_first());
    }
}

/// After the reset is due, nothing else happens.
pub proof fn lemma_rebooting_is_final(events: Seq<DeviceEvent>)
    ensures
        run(DeviceStatus::Rebooting, events) == DeviceStatus::Rebooting,
    decreases events.len(),
{
    if events.len() > 0 {
        lemma_rebooting_is_final(events.drop_first());
    }
}

/// The milestones still ahead of a phase on its way to Idle are found, in
/// order, among the events.
spec fn way_to_idle(status: DeviceStatus, events: Seq<DeviceEvent>) -> bool {
    match status {
        DeviceStatus::Booting => boot_completes(events),
        DeviceStatus::Connecting => exists|j: int, k: int|
            0 <= j < k < events.len() && #[trigger] events[j] == DeviceEvent::LinkReport(
                WifiStatus::Connected,
            ) && #[trigger] events[k] == DeviceEvent::SyncReport(true),
        DeviceStatus::Connected => exists|k: int|
            0 <= k < events.len() && #[trigger] events[k] == DeviceEvent::SyncReport(true),
        DeviceStatus::Idle => true,
        _ => false,
    }
}

proof fn lemma_way_to_idle(status: DeviceStatus, events: Seq<DeviceEvent>)
    requires
        way_to_idle(status, events),
        no_update_request(events),
    ensures
        run(status, events) == DeviceStatus::Idle,
    decreases events.len(),
{
    if status == DeviceStatus::Idle {
        lemma_idle_is_steady(events);
    } else {
        let rest = events.drop_first();
        assert(events.len() > 0);
        assert forall|i: int| 0 <= i < rest.len() implies #[trigger] rest[i]
            != DeviceEvent::UpdateRequested by {
            assert(rest[i] == events[i + 1]);
        }
        let next = step(status, events[0]);
        match status {
            DeviceStatus::Booting => {
                let (i, j, k) = choose|i: int, j: int, k: int|
                    0 <= i < j < k < events.len() && #[trigger] events[i]
                        == DeviceEvent::SplashElapsed && #[trigger] events[j]
                        == DeviceEvent::LinkReport(WifiStatus::Connected) && #[trigger] events[k]
                        == DeviceEvent::SyncReport(true);
                assert(rest[j - 1] == events[j]);
                assert(rest[k - 1] == events[k]);
                if events[0] != DeviceEvent::SplashElapsed {
                    assert(rest[i - 1] == events[i]);
                }
            },
            DeviceStatus::Connecting => {
                let (j, k) = choose|j: int, k: int|
                    0 <= j < k < events.len() && #[trigger] events[j] == DeviceEvent::LinkReport(
                        WifiStatus::Connected,
                    ) && #[trigger] events[k] == DeviceEvent::SyncReport(true);
                assert(rest[k - 1] == events[k]);
                if events[0] != DeviceEvent::LinkReport(WifiStatus::Connected) {
                    assert(rest[j - 1] == events[j]);
                }
            },
            DeviceStatus::Connected => {
                let k = choose|k: int|
                    0 <= k < events.len() && #[trigger] events[k] == DeviceEvent::SyncReport(true);
                if events[0] != DeviceEvent::SyncReport(true) {
                    assert(rest[k - 1] == events[k]);
                }
            },
            _ => {},
        }
        assert(way_to_idle(next, rest));
        lemma_way_to_idle(next, rest);
    }
}

/// From boot the device reaches the steady state and stays in it: whatever
/// else arrives in between and afterwards, once the splash has ended, the
/// link has then been reported established and the time sync has then been
/// reported complete, the phase is Idle, as long as no update is requested.
pub proof fn lemma_boot_reaches_idle(events: Seq<DeviceEvent>)
    requires
        boot_completes(events),
        no_update_request(events),
    ensures
        run(DeviceStatus::Booting, events) == DeviceStatus::Idle,
{
    lemma_way_to_idle(DeviceStatus::Booting, events);
}

} // verus!

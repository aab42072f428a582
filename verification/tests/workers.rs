use weather_clock::app::{AppPage, DisplayMessage};
use weather_clock::display::{show_page, PageView};
use weather_clock::state::State;
use weather_clock::weather::WeatherData;
use weather_clock::wifi::WifiStatus;
use weather_clock::worker::{
    link_step, time_step, weather_step, LinkEvent, LinkPhase, LinkRequest, Step, TimeEvent,
    TimePhase, TimeRequest, WeatherEvent, WeatherPhase, WeatherRequest, CLOCK_TICK_SECS,
    WEATHER_INTERVAL_SECS,
};

fn quiet<P>(phase: P, wait_secs: u64) -> Step<P> {
    Step { phase, message: None, wait_secs }
}

fn report(status: WifiStatus, ip: &str) -> LinkEvent {
    LinkEvent::Report(status, ip.to_string())
}

fn reading(temp: &str, city: &str) -> WeatherData {
    WeatherData { temp: temp.to_string(), city: city.to_string() }
}

#[test]
fn cadences() {
    assert_eq!(CLOCK_TICK_SECS, 1);
    assert_eq!(WEATHER_INTERVAL_SECS, 3600);
}

#[test]
fn link_worker_requests() {
    assert_eq!(LinkPhase::Joining.request(), LinkRequest::Connect);
    assert_eq!(LinkPhase::Watching.request(), LinkRequest::ReadStatus);
    assert_eq!(LinkPhase::Settled.request(), LinkRequest::Nothing);
}

#[test]
fn a_failed_join_is_retried_after_the_delay() {
    assert_eq!(link_step(LinkPhase::Joining, LinkEvent::JoinFailed), quiet(LinkPhase::Joining, 2));
}

#[test]
fn a_join_leads_to_watching_at_once() {
    assert_eq!(link_step(LinkPhase::Joining, LinkEvent::Joined), quiet(LinkPhase::Watching, 0));
}

#[test]
fn an_unconnected_report_is_asked_again_after_the_delay() {
    assert_eq!(
        link_step(LinkPhase::Watching, report(WifiStatus::Connecting, "0.0.0.0")),
        quiet(LinkPhase::Watching, 2)
    );
    assert_eq!(
        link_step(LinkPhase::Watching, report(WifiStatus::Disconnected, "0.0.0.0")),
        quiet(LinkPhase::Watching, 2)
    );
    assert_eq!(
        link_step(LinkPhase::Watching, LinkEvent::ReportFailed),
        quiet(LinkPhase::Watching, 2)
    );
}

#[test]
fn a_connected_report_is_published_once() {
    let step = link_step(LinkPhase::Watching, report(WifiStatus::Connected, "192.168.1.5"));
    assert_eq!(
        step,
        Step {
            phase: LinkPhase::Settled,
            message: Some(DisplayMessage::UpdateWifi(
                WifiStatus::Connected,
                "192.168.1.5".to_string()
            )),
            wait_secs: 0,
        }
    );
    assert_eq!(
        link_step(step.phase, report(WifiStatus::Connected, "192.168.1.5")),
        quiet(LinkPhase::Settled, 0)
    );
}

#[test]
fn link_events_out_of_turn_change_nothing() {
    assert_eq!(
        link_step(LinkPhase::Joining, report(WifiStatus::Connected, "1.1.1.1")),
        quiet(LinkPhase::Joining, 2)
    );
    assert_eq!(link_step(LinkPhase::Watching, LinkEvent::Joined), quiet(LinkPhase::Watching, 2));
    assert_eq!(link_step(LinkPhase::Settled, LinkEvent::JoinFailed), quiet(LinkPhase::Settled, 0));
}

#[test]
fn time_worker_requests() {
    assert_eq!(TimePhase::AwaitingLink.request(), TimeRequest::ReadLink);
    assert_eq!(TimePhase::Starting.request(), TimeRequest::StartSync);
    assert_eq!(TimePhase::Syncing.request(), TimeRequest::ReadSync);
    assert_eq!(TimePhase::Ticking.request(), TimeRequest::ReadClock);
}

#[test]
fn time_worker_waits_for_the_link() {
    for status in [WifiStatus::Disconnected, WifiStatus::Connecting] {
        assert_eq!(
            time_step(TimePhase::AwaitingLink, TimeEvent::Link(status)),
            quiet(TimePhase::AwaitingLink, 1)
        );
    }
    assert_eq!(
        time_step(TimePhase::AwaitingLink, TimeEvent::Link(WifiStatus::Connected)),
        quiet(TimePhase::Starting, 0)
    );
}

#[test]
fn time_worker_starts_and_waits_for_the_sync() {
    assert_eq!(time_step(TimePhase::Starting, TimeEvent::Started), quiet(TimePhase::Syncing, 0));
    assert_eq!(
        time_step(TimePhase::Starting, TimeEvent::StartFailed),
        quiet(TimePhase::Starting, 1)
    );
    assert_eq!(time_step(TimePhase::Syncing, TimeEvent::Sync(false)), quiet(TimePhase::Syncing, 1));
    assert_eq!(time_step(TimePhase::Syncing, TimeEvent::Sync(true)), quiet(TimePhase::Ticking, 0));
}

#[test]
fn each_tick_publishes_the_clock() {
    assert_eq!(
        time_step(TimePhase::Ticking, TimeEvent::Now(1_700_000_000)),
        Step {
            phase: TimePhase::Ticking,
            message: Some(DisplayMessage::UpdateTime(
                "2023-11-15".to_string(),
                "06:13:20".to_string()
            )),
            wait_secs: 1,
        }
    );
    assert_eq!(
        time_step(TimePhase::Ticking, TimeEvent::Now(1_700_000_001)),
        Step {
            phase: TimePhase::Ticking,
            message: Some(DisplayMessage::UpdateTime(
                "2023-11-15".to_string(),
                "06:13:21".to_string()
            )),
            wait_secs: 1,
        }
    );
}

#[test]
fn a_tick_without_a_writable_instant_publishes_nothing() {
    assert_eq!(time_step(TimePhase::Ticking, TimeEvent::Now(i64::MAX)), quiet(TimePhase::Ticking, 1));
    assert_eq!(time_step(TimePhase::Ticking, TimeEvent::Sync(true)), quiet(TimePhase::Ticking, 1));
}

#[test]
fn time_events_out_of_turn_change_nothing() {
    assert_eq!(
        time_step(TimePhase::AwaitingLink, TimeEvent::Sync(true)),
        quiet(TimePhase::AwaitingLink, 1)
    );
    assert_eq!(time_step(TimePhase::Starting, TimeEvent::Now(0)), quiet(TimePhase::Starting, 1));
    assert_eq!(
        time_step(TimePhase::Syncing, TimeEvent::Link(WifiStatus::Connected)),
        quiet(TimePhase::Syncing, 1)
    );
}

#[test]
fn weather_worker_requests() {
    assert_eq!(WeatherPhase::AwaitingLink.request(), WeatherRequest::ReadLink);
    assert_eq!(WeatherPhase::Polling.request(), WeatherRequest::Fetch);
}

#[test]
fn weather_worker_waits_for_the_link() {
    for status in [WifiStatus::Disconnected, WifiStatus::Connecting] {
        assert_eq!(
            weather_step(WeatherPhase::AwaitingLink, WeatherEvent::Link(status)),
            quiet(WeatherPhase::AwaitingLink, 1)
        );
    }
    assert_eq!(
        weather_step(WeatherPhase::AwaitingLink, WeatherEvent::FetchFailed),
        quiet(WeatherPhase::AwaitingLink, 1)
    );
    assert_eq!(
        weather_step(WeatherPhase::AwaitingLink, WeatherEvent::Link(WifiStatus::Connected)),
        quiet(WeatherPhase::Polling, 0)
    );
}

#[test]
fn a_reading_is_published_and_followed_by_an_hour() {
    assert_eq!(
        weather_step(WeatherPhase::Polling, WeatherEvent::Fetched(reading("20℃", "Shanghai"))),
        Step {
            phase: WeatherPhase::Polling,
            message: Some(DisplayMessage::UpdateWeather(
                "20℃".to_string(),
                "Shanghai".to_string()
            )),
            wait_secs: 3600,
        }
    );
}

#[test]
fn a_failed_fetch_waits_the_full_hour() {
    assert_eq!(
        weather_step(WeatherPhase::Polling, WeatherEvent::FetchFailed),
        quiet(WeatherPhase::Polling, 3600)
    );
}

#[test]
fn a_failed_fetch_keeps_the_last_reading_on_the_display() {
    let mut state = State::new();
    let mut phase = WeatherPhase::Polling;
    let events = vec![WeatherEvent::Fetched(reading("20℃", "Shanghai")), WeatherEvent::FetchFailed];
    for event in events {
        let step = weather_step(phase, event);
        phase = step.phase;
        if let Some(message) = step.message {
            state.apply(message);
        }
    }
    assert_eq!(state.weather, "20℃");
    assert_eq!(state.city, "Shanghai");
    assert_eq!(state.page, AppPage::Home);
    match show_page(&state) {
        PageView::Home(home) => assert_eq!(home.weather, "Shanghai 20℃"),
        other => panic!("not the home page: {:?}", other),
    }
}

#[test]
fn before_any_reading_the_placeholder_shows() {
    let mut state = State::new();
    let step = weather_step(WeatherPhase::Polling, WeatherEvent::FetchFailed);
    if let Some(message) = step.message {
        state.apply(message);
    }
    assert_eq!(state, State::new());
    assert_eq!(state.weather, "--");
}

#[test]
fn a_tick_at_the_present_publishes_a_date_and_a_time() {
    let now = chrono::Utc::now().timestamp();
    let step = time_step(TimePhase::Ticking, TimeEvent::Now(now));
    assert_eq!(step.phase, TimePhase::Ticking);
    assert_eq!(step.wait_secs, 1);
    match step.message {
        Some(DisplayMessage::UpdateTime(date, time)) => {
            assert_eq!(date.len(), 10);
            assert_eq!(time.len(), 8);
            assert_eq!(&date[4..5], "-");
            assert_eq!(&time[2..3], ":");
        }
        other => panic!("no clock update: {:?}", other),
    }
}

#[test]
fn the_present_does_not_end_a_wait() {
    let now = chrono::Utc::now().timestamp();
    assert_eq!(time_step(TimePhase::Syncing, TimeEvent::Now(now)), quiet(TimePhase::Syncing, 1));
    assert_eq!(
        time_step(TimePhase::AwaitingLink, TimeEvent::Now(now)),
        quiet(TimePhase::AwaitingLink, 1)
    );
}

use weather_clock::app::{AppPage, DisplayMessage};
use weather_clock::state::State;
use weather_clock::wifi::WifiStatus;

fn text(s: &str) -> String {
    s.to_string()
}

#[test]
fn new_state_holds_the_sentinels() {
    let state = State::new();
    assert_eq!(state.page, AppPage::Home);
    assert_eq!(state.weather, "--");
    assert_eq!(state.wifi_status, WifiStatus::Disconnected);
    assert_eq!(state.wifi_ip, "0.0.0.0");
    assert_eq!(state.date, "0000-00-00");
    assert_eq!(state.time, "00:00:00");
    assert_eq!(state.city, "");
}

#[test]
fn update_page_changes_only_the_page() {
    let mut state = State::new();
    state.update_page(AppPage::WifiConfig);
    let mut expected = State::new();
    expected.page = AppPage::WifiConfig;
    assert_eq!(state, expected);
    assert_eq!(*state.get_current_page(), AppPage::WifiConfig);
}

#[test]
fn update_wifi_changes_status_and_address_together() {
    let mut state = State::new();
    state.update_wifi(WifiStatus::Connected, text("192.168.1.7"));
    let mut expected = State::new();
    expected.wifi_status = WifiStatus::Connected;
    expected.wifi_ip = text("192.168.1.7");
    assert_eq!(state, expected);
    assert_eq!(state.get_wifi_status(), (WifiStatus::Connected, text("192.168.1.7")));
}

#[test]
fn update_weather_changes_temperature_and_city_together() {
    let mut state = State::new();
    state.update_weather(text("20℃"), text("Shanghai"));
    let mut expected = State::new();
    expected.weather = text("20℃");
    expected.city = text("Shanghai");
    assert_eq!(state, expected);
}

#[test]
fn update_date_time_changes_date_and_time_together() {
    let mut state = State::new();
    state.update_date_time(text("2025-03-01"), text("12:34:56"));
    let mut expected = State::new();
    expected.date = text("2025-03-01");
    expected.time = text("12:34:56");
    assert_eq!(state, expected);
}

#[test]
fn get_wifi_status_of_a_new_state() {
    assert_eq!(State::new().get_wifi_status(), (WifiStatus::Disconnected, text("0.0.0.0")));
}

#[test]
fn snapshot_equals_the_state() {
    let mut state = State::new();
    state.update_weather(text("-3℃"), text("Harbin"));
    state.update_page(AppPage::WifiConfig);
    let snapshot = state.get_snapshot();
    assert_eq!(snapshot, state);
    state.update_page(AppPage::Home);
    assert_eq!(snapshot.page, AppPage::WifiConfig);
}

#[test]
fn apply_routes_each_message_to_its_group() {
    let mut state = State::new();
    state.apply(DisplayMessage::ShowPage(AppPage::WifiConfig));
    state.apply(DisplayMessage::UpdateTime(text("2024-02-29"), text("23:59:59")));
    state.apply(DisplayMessage::UpdateWeather(text("8℃"), text("Jinan")));
    state.apply(DisplayMessage::UpdateWifi(WifiStatus::Connected, text("10.0.0.2")));
    assert_eq!(
        state,
        State {
            page: AppPage::WifiConfig,
            weather: text("8℃"),
            wifi_status: WifiStatus::Connected,
            wifi_ip: text("10.0.0.2"),
            date: text("2024-02-29"),
            time: text("23:59:59"),
            city: text("Jinan"),
        }
    );
}

#[test]
fn apply_all_takes_the_last_write_of_each_group() {
    let mut state = State::new();
    state.apply_all(vec![
        DisplayMessage::UpdateWifi(WifiStatus::Connecting, text("0.0.0.0")),
        DisplayMessage::UpdateWeather(text("1℃"), text("A")),
        DisplayMessage::UpdateTime(text("2025-01-01"), text("00:00:01")),
        DisplayMessage::UpdateWifi(WifiStatus::Connected, text("10.1.1.1")),
        DisplayMessage::ShowPage(AppPage::WifiConfig),
        DisplayMessage::UpdateTime(text("2025-01-01"), text("00:00:02")),
        DisplayMessage::UpdateWeather(text("2℃"), text("B")),
        DisplayMessage::ShowPage(AppPage::Home),
    ]);
    assert_eq!(
        state,
        State {
            page: AppPage::Home,
            weather: text("2℃"),
            wifi_status: WifiStatus::Connected,
            wifi_ip: text("10.1.1.1"),
            date: text("2025-01-01"),
            time: text("00:00:02"),
            city: text("B"),
        }
    );
}

#[test]
fn apply_all_of_nothing_changes_nothing() {
    let mut state = State::new();
    state.apply_all(Vec::new());
    assert_eq!(state, State::new());
}

#[test]
fn apply_all_equals_applying_one_by_one() {
    let messages = vec![
        DisplayMessage::UpdateWeather(text("5℃"), text("X")),
        DisplayMessage::UpdateWifi(WifiStatus::Connected, text("1.2.3.4")),
        DisplayMessage::UpdateWeather(text("6℃"), text("Y")),
    ];
    let mut one_by_one = State::new();
    for message in messages.clone() {
        one_by_one.apply(message);
    }
    let mut at_once = State::new();
    at_once.apply_all(messages);
    assert_eq!(at_once, one_by_one);
}

#[test]
fn writers_of_different_groups_commute() {
    let wifi = DisplayMessage::UpdateWifi(WifiStatus::Connected, text("192.168.0.9"));
    let weather = DisplayMessage::UpdateWeather(text("20℃"), text("Shanghai"));
    let mut first = State::new();
    first.apply_all(vec![wifi.clone(), weather.clone()]);
    let mut second = State::new();
    second.apply_all(vec![weather, wifi]);
    assert_eq!(first, second);
    assert_eq!(first.get_wifi_status(), (WifiStatus::Connected, text("192.168.0.9")));
    assert_eq!(first.weather, "20℃");
    assert_eq!(first.city, "Shanghai");
}

#[test]
fn paired_fields_come_from_one_message() {
    let messages = vec![
        DisplayMessage::UpdateWifi(WifiStatus::Connecting, text("0.0.0.0")),
        DisplayMessage::UpdateWeather(text("1℃"), text("A")),
        DisplayMessage::UpdateWifi(WifiStatus::Connected, text("10.0.0.1")),
        DisplayMessage::UpdateWeather(text("2℃"), text("B")),
    ];
    for cut in 0..=messages.len() {
        let mut state = State::new();
        state.apply_all(messages[..cut].to_vec());
        let wifi = state.get_wifi_status();
        let whole_wifi = wifi == (WifiStatus::Disconnected, text("0.0.0.0"))
            || messages[..cut]
                .iter()
                .any(|m| *m == DisplayMessage::UpdateWifi(wifi.0, wifi.1.clone()));
        assert!(whole_wifi);
        let whole_weather = (state.weather == "--" && state.city == "")
            || messages[..cut].iter().any(|m| {
                *m == DisplayMessage::UpdateWeather(state.weather.clone(), state.city.clone())
            });
        assert!(whole_weather);
    }
}

#[test]
fn applying_a_message_twice_is_applying_it_once() {
    let message = DisplayMessage::UpdateTime(text("2025-06-01"), text("08:00:00"));
    let mut once = State::new();
    once.apply(message.clone());
    let mut twice = State::new();
    twice.apply(message.clone());
    twice.apply(message);
    assert_eq!(once, twice);
}

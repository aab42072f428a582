//! What the configuration portal decides: which credentials a posted form
//! sets, what the display is told, and what the client is answered.

use crate::config::{form_fields, parse_form_data};
use crate::wifi::{station_outcome, station_settings, ConfigError, StationSettings, StationView};
use crate::text::text_view;
use vstd::prelude::*;
use vstd::string::StringExecFns;

verus! {

/// Credentials as the form gave them.
#[derive(Clone, Debug, PartialEq, Eq)]
pub struct WifiConfig {
    pub ssid: String,
    pub password: String,
}

/// The credentials as sequences of characters.
pub struct WifiConfigView {
    pub ssid: Seq<char>,
    pub password: Seq<char>,
}

impl View for WifiConfig {
    type V = WifiConfigView;

    open spec fn view(&self) -> WifiConfigView {
        WifiConfigView { ssid: self.ssid@, password: self.password@ }
    }
}

impl WifiConfig {
    /// The station settings for these credentials, refused where one of
    /// them is too long for the radio.
    pub fn station(&self) -> (r: Result<StationSettings, ConfigError>)
        ensures
            match r {
                Ok(settings) => station_outcome(self@.ssid, self@.password) == Ok::<
                    StationView,
                    ConfigError,
                >(settings@),
                Err(e) => station_outcome(self@.ssid, self@.password) == Err::<
                    StationView,
                    ConfigError,
                >(e),
            },
    {
        station_settings(self.ssid.as_str(), self.password.as_str())
    }
}

/// How a posted form was taken.
#[derive(Clone, Debug, PartialEq, Eq)]
pub enum ConnectOutcome {
    /// The form held both fields and both fit: these credentials are set.
    Configured(WifiConfig),
    /// The form lacked a field: nothing is set.
    Incomplete,
    /// A field was too long: nothing is set, and the client is told.
    Refused(ConfigError),
}

/// The outcome with its texts as sequences of characters.
pub enum ConnectOutcomeView {
    Configured(WifiConfigView),
    Incomplete,
    Refused(ConfigError),
}

impl View for ConnectOutcome {
    type V = ConnectOutcomeView;

    open spec fn view(&self) -> ConnectOutcomeView {
        match *self {
            ConnectOutcome::Configured(config) => ConnectOutcomeView::Configured(config@),
            ConnectOutcome::Incomplete => ConnectOutcomeView::Incomplete,
            ConnectOutcome::Refused(e) => ConnectOutcomeView::Refused(e),
        }
    }
}

/// The outcome owed for a form body.
pub open spec fn connect_outcome(body: Seq<char>) -> ConnectOutcomeView {
    match form_fields(body) {
        None => ConnectOutcomeView::Incomplete,
        Some((ssid, password)) => match station_outcome(ssid, password) {
            Ok(_) => ConnectOutcomeView::Configured(WifiConfigView { ssid, password }),
            Err(e) => ConnectOutcomeView::Refused(e),
        },
    }
}

/// What the display shows once a form was taken, if anything.
pub open spec fn connect_notice(outcome: ConnectOutcomeView) -> Option<Seq<char>> {
    match outcome {
        ConnectOutcomeView::Configured(_) => Some("Wi-Fi Configured!"@),
        _ => None,
    }
}

/// What the client is answered.
pub open spec fn connect_reply(outcome: ConnectOutcomeView) -> Seq<char> {
    match outcome {
        ConnectOutcomeView::Refused(e) => e.label(),
        _ => "Wait ESP32 connecting Wi-Fi..."@,
    }
}

/// The HTTP status of the answer: a refusal is the client's fault.
pub open spec fn connect_status(outcome: ConnectOutcomeView) -> u16 {
    match outcome {
        ConnectOutcomeView::Refused(_) => 400,
        _ => 200,
    }
}

/// The credentials of a form body, where it holds both fields.
pub fn config_from_form(body: &str) -> (r: Option<WifiConfig>)
    ensures
        match r {
            Some(config) => form_fields(body@) == Some((config@.ssid, config@.password)),
            None => form_fields(body@) is None,
        },
{
    match parse_form_data(body) {
        Some((ssid, password)) => Some(WifiConfig { ssid, password }),
        None => None,
    }
}

/// Takes the body of a posted form.
pub fn handle_connect(body: &str) -> (r: ConnectOutcome)
    ensures
        r@ == connect_outcome(body@),
{
    match config_from_form(body) {
        None => ConnectOutcome::Incomplete,
        Some(config) => match config.station() {
            Ok(_) => ConnectOutcome::Configured(config),
            Err(e) => ConnectOutcome::Refused(e),
        },
    }
}

impl ConnectOutcome {
    /// The message for the display, if the outcome calls for one.
    pub fn notice(&self) -> (r: Option<String>)
        ensures
            text_view(r) == connect_notice(self@),
    {
        match self {
            ConnectOutcome::Configured(_) => Some("Wi-Fi Configured!".to_owned()),
            _ => None,
        }
    }

    /// The HTTP status to answer with.
    pub fn status(&self) -> (r: u16)
        ensures
            r == connect_status(self@),
    {
        match self {
            ConnectOutcome::Refused(_) => 400,
            _ => 200,
        }
    }

    /// The answer for the client.
    pub fn reply(&self) -> (r: String)
        ensures
            r@ == connect_reply(self@),
    {
        match self {
            ConnectOutcome::Refused(e) => e.to_string(),
            _ => "Wait ESP32 connecting Wi-Fi...".to_owned(),
        }
    }
}

/// The address under which the portal is reached, shown as a QR code.
pub fn portal_url(ip: &str) -> (r: String)
    ensures
        r@ == "http://"@ + ip@,
{
    let mut url = "http://".to_owned();
    url.append(ip);
    url
}

} // verus!

//! Link status of the Wi-Fi station, and the settings it is started with.

use crate::text::text_view;
use vstd::prelude::*;
use vstd::string::StringSliceAdditionalSpecFns;
use vstd::utf8::{encode_utf8, is_ascii_chars, is_ascii_chars_encode_utf8};

verus! {

/// Fixed-capacity string of heapless: at most `N` bytes of UTF-8, held inline.
#[verifier::external_type_specification]
#[verifier::external_body]
pub struct ExBoundedString<const N: usize>(heapless::String<N>);

/// The text that a network name of bounded size holds.
pub uninterp spec fn ssid_text(name: heapless::String<32>) -> Seq<char>;

/// The text that a password of bounded size holds.
pub uninterp spec fn password_text(password: heapless::String<64>) -> Seq<char>;

/// Most bytes of UTF-8 that a network name may take.
pub const SSID_CAPACITY: usize = 32;

/// Most bytes of UTF-8 that a password may take.
pub const PASSWORD_CAPACITY: usize = 64;

/// `heapless::String::<32>::try_from(&str)`: starts empty and appends the
/// text, which succeeds exactly when its UTF-8 bytes fit the capacity; the
/// string then holds the text unchanged.
#[verifier::external_body]
fn bounded_ssid(text: &str) -> (r: Option<heapless::String<32>>)
    ensures
        r is Some <==> text.spec_bytes().len() <= SSID_CAPACITY,
        r matches Some(name) ==> ssid_text(name) == text@,
{
    heapless::String::try_from(text).ok()
}

/// `heapless::String::<64>::try_from(&str)`: as for the network name, with
/// room for 64 bytes.
#[verifier::external_body]
fn bounded_password(text: &str) -> (r: Option<heapless::String<64>>)
    ensures
        r is Some <==> text.spec_bytes().len() <= PASSWORD_CAPACITY,
        r matches Some(password) ==> password_text(password) == text@,
{
    heapless::String::try_from(text).ok()
}

/// `heapless::String::<32>::as_str`: the text held, borrowed.
#[verifier::external_body]
fn ssid_as_str(name: &heapless::String<32>) -> (r: &str)
    ensures
        r@ == ssid_text(*name),
{
    name.as_str()
}

/// `heapless::String::<64>::as_str`: the text held, borrowed.
#[verifier::external_body]
fn password_as_str(password: &heapless::String<64>) -> (r: &str)
    ensures
        r@ == password_text(*password),
{
    password.as_str()
}

/// Whether the UTF-8 form of `text` takes at most `capacity` bytes.
pub open spec fn fits(text: Seq<char>, capacity: int) -> bool {
    encode_utf8(text).len() <= capacity
}

/// Why settings were refused.
#[derive(Clone, Copy, Debug, PartialEq, Eq, Structural)]
pub enum ConfigError {
    InvalidSsid,
    InvalidPassword,
}

impl ConfigError {
    /// The words of the error.
    pub open spec fn label(self) -> Seq<char> {
        match self {
            ConfigError::InvalidSsid => "Invalid SSID"@,
            ConfigError::InvalidPassword => "Invalid password"@,
        }
    }

    /// The error as text.
    pub fn to_string(&self) -> (r: String)
        ensures
            r@ == self.label(),
    {
        match self {
            ConfigError::InvalidSsid => "Invalid SSID".to_owned(),
            ConfigError::InvalidPassword => "Invalid password".to_owned(),
        }
    }
}

/// How a network lets its stations in.
#[derive(Clone, Copy, Debug, PartialEq, Eq, Structural)]
pub enum AuthKind {
    Open,
    Wpa2Personal,
}

/// What the station needs to join a network.
pub struct StationSettings {
    pub ssid: heapless::String<32>,
    pub password: heapless::String<64>,
    pub auth: AuthKind,
}

/// Station settings with their texts as sequences of characters.
pub struct StationView {
    pub ssid: Seq<char>,
    pub password: Seq<char>,
    pub auth: AuthKind,
}

impl View for StationSettings {
    type V = StationView;

    open spec fn view(&self) -> StationView {
        StationView {
            ssid: ssid_text(self.ssid),
            password: password_text(self.password),
            auth: self.auth,
        }
    }
}

impl StationSettings {
    /// The network's name.
    pub fn ssid_str(&self) -> (r: &str)
        ensures
            r@ == self@.ssid,
    {
        ssid_as_str(&self.ssid)
    }

    /// The network's password.
    pub fn password_str(&self) -> (r: &str)
        ensures
            r@ == self@.password,
    {
        password_as_str(&self.password)
    }
}

/// The network that the device opens for its own configuration.
pub struct AccessPointSettings {
    pub ssid: heapless::String<32>,
    pub password: heapless::String<64>,
    pub channel: u8,
    pub auth: AuthKind,
    pub max_connections: u16,
}

/// Access point settings with their texts as sequences of characters.
pub struct AccessPointView {
    pub ssid: Seq<char>,
    pub password: Seq<char>,
    pub channel: u8,
    pub auth: AuthKind,
    pub max_connections: u16,
}

impl View for AccessPointSettings {
    type V = AccessPointView;

    open spec fn view(&self) -> AccessPointView {
        AccessPointView {
            ssid: ssid_text(self.ssid),
            password: password_text(self.password),
            channel: self.channel,
            auth: self.auth,
            max_connections: self.max_connections,
        }
    }
}

impl AccessPointSettings {
    /// The network's name.
    pub fn ssid_str(&self) -> (r: &str)
        ensures
            r@ == self@.ssid,
    {
        ssid_as_str(&self.ssid)
    }

    /// The network's password.
    pub fn password_str(&self) -> (r: &str)
        ensures
            r@ == self@.password,
    {
        password_as_str(&self.password)
    }
}

/// Station and access point together: the radio runs both.
pub struct WifiSettings {
    pub station: StationSettings,
    pub access_point: AccessPointSettings,
}

/// The device's own network: open, on channel 1, for four stations.
pub open spec fn own_access_point() -> AccessPointView {
    AccessPointView {
        ssid: "ESP32_Weather_App"@,
        password: ""@,
        channel: 1,
        auth: AuthKind::Open,
        max_connections: 4,
    }
}

/// The outcome owed for a name and a password: the settings where both fit,
/// else the error of the first that does not.
pub open spec fn station_outcome(ssid: Seq<char>, password: Seq<char>) -> Result<
    StationView,
    ConfigError,
> {
    if !fits(ssid, 32) {
        Err(ConfigError::InvalidSsid)
    } else if !fits(password, 64) {
        Err(ConfigError::InvalidPassword)
    } else {
        Ok(StationView { ssid, password, auth: AuthKind::Wpa2Personal })
    }
}

/// Settings to join the named network with WPA2, refused where the name
/// takes more than 32 bytes or the password more than 64.
pub fn station_settings(ssid: &str, password: &str) -> (r: Result<StationSettings, ConfigError>)
    ensures
        match r {
            Ok(settings) => station_outcome(ssid@, password@) == Ok::<StationView, ConfigError>(
                settings@,
            ),
            Err(e) => station_outcome(ssid@, password@) == Err::<StationView, ConfigError>(e),
        },
{
    let name = match bounded_ssid(ssid) {
        Some(name) => name,
        None => {
            return Err(ConfigError::InvalidSsid);
        },
    };
    let secret = match bounded_password(password) {
        Some(secret) => secret,
        None => {
            return Err(ConfigError::InvalidPassword);
        },
    };
    Ok(StationSettings { ssid: name, password: secret, auth: AuthKind::Wpa2Personal })
}

/// Settings of the device's own network.
pub fn access_point_settings() -> (r: AccessPointSettings)
    ensures
        r@ == own_access_point(),
{
    proof {
        reveal_strlit("ESP32_Weather_App");
        reveal_strlit("");
        assert(is_ascii_chars("ESP32_Weather_App"@));
        assert(is_ascii_chars(""@));
        is_ascii_chars_encode_utf8("ESP32_Weather_App"@);
        is_ascii_chars_encode_utf8(""@);
    }
    let name = bounded_ssid("ESP32_Weather_App");
    let secret = bounded_password("");
    AccessPointSettings {
        ssid: name.unwrap(),
        password: secret.unwrap(),
        channel: 1,
        auth: AuthKind::Open,
        max_connections: 4,
    }
}

/// Settings for the radio: the station as asked, beside the device's own
/// network. Refused as the station settings are.
pub fn wifi_settings(ssid: &str, password: &str) -> (r: Result<WifiSettings, ConfigError>)
    ensures
        match r {
            Ok(settings) => {
                &&& station_outcome(ssid@, password@) == Ok::<StationView, ConfigError>(
                    settings.station@,
                )
                &&& settings.access_point@ == own_access_point()
            },
            Err(e) => station_outcome(ssid@, password@) == Err::<StationView, ConfigError>(e),
        },
{
    match station_settings(ssid, password) {
        Ok(station) => Ok(WifiSettings { station, access_point: access_point_settings() }),
        Err(e) => Err(e),
    }
}

/// What the radio reports of the link: with an address it is connected;
/// without one it is still connecting, and the address reads all zeros.
pub open spec fn link_report(address: Option<Seq<char>>) -> (WifiStatus, Seq<char>) {
    match address {
        Some(ip) => (WifiStatus::Connected, ip),
        None => (WifiStatus::Connecting, "0.0.0.0"@),
    }
}

/// Status and address to publish for the address the radio holds, if any.
pub fn status_report(address: Option<String>) -> (r: (WifiStatus, String))
    ensures
        r.0 == link_report(text_view(address)).0,
        r.1@ == link_report(text_view(address)).1,
{
    match address {
        Some(ip) => (WifiStatus::Connected, ip),
        None => (WifiStatus::Connecting, "0.0.0.0".to_owned()),
    }
}

/// Where the station stands on its way to an address.
#[derive(Clone, Copy, Debug, PartialEq, Eq, Structural)]
pub enum WifiStatus {
    Disconnected,
    Connecting,
    Connected,
}

impl WifiStatus {
    /// The word shown for the status.
    pub open spec fn label(self) -> Seq<char> {
        match self {
            WifiStatus::Connected => "Connected"@,
            WifiStatus::Disconnected => "Disconnected"@,
            WifiStatus::Connecting => "Connecting"@,
        }
    }

    /// The status as text.
    pub fn to_string(&self) -> (r: String)
        ensures
            r@ == self.label(),
    {
        match self {
            WifiStatus::Connected => "Connected".to_owned(),
            WifiStatus::Disconnected => "Disconnected".to_owned(),
            WifiStatus::Connecting => "Connecting".to_owned(),
        }
    }

    /// Whether the station holds an address.
    pub fn is_connected(&self) -> (r: bool)
        ensures
            r == (*self == WifiStatus::Connected),
    {
        match self {
            WifiStatus::Connected => true,
            _ => false,
        }
    }
}

} // verus!

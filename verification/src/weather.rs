//! The weather service's answer and the reading shown from it.

use crate::app::{DisplayMessage, MessageView};
use vstd::prelude::*;
use vstd::string::StringExecFns;

verus! {

/// Where the weather is asked.
pub const WEATHER_URL: &'static str = "http://t.weather.sojson.com/api/weather/city/101120201";

/// Seconds after which an unanswered request is given up.
pub const FETCH_TIMEOUT_SECS: u64 = 5;

/// The service's answer, as far as it is read.
#[derive(Debug)]
#[allow(non_snake_case)]
pub struct Temperature {
    pub data: Data,
    pub cityInfo: CityInfo,
}

/// The measurements of an answer.
#[derive(Debug)]
pub struct Data {
    pub wendu: String,
}

/// The place of an answer.
#[derive(Debug)]
pub struct CityInfo {
    pub city: String,
}

/// Asks the weather service.
pub struct WeatherClient;

/// A reading ready for the display.
#[derive(Clone, Debug, PartialEq, Eq)]
pub struct WeatherData {
    pub temp: String,
    pub city: String,
}

/// The reading with its texts as sequences of characters.
pub struct WeatherView {
    pub temp: Seq<char>,
    pub city: Seq<char>,
}

impl View for WeatherData {
    type V = WeatherView;

    open spec fn view(&self) -> WeatherView {
        WeatherView { temp: self.temp@, city: self.city@ }
    }
}

/// The reading shown for an answer: its degrees with the unit behind, and
/// its city.
pub open spec fn reading_of(wendu: Seq<char>, city: Seq<char>) -> WeatherView {
    WeatherView { temp: wendu + "℃"@, city }
}

impl WeatherClient {
    /// A client for the one service the device asks.
    pub fn new() -> (r: Self) {
        Self
    }

    /// Turns the service's answer into a reading.
    pub fn reading(&self, answer: Temperature) -> (r: WeatherData)
        ensures
            r@ == reading_of(answer.data.wendu@, answer.cityInfo.city@),
    {
        let mut temp = answer.data.wendu;
        temp.append("℃");
        WeatherData { temp, city: answer.cityInfo.city }
    }
}

impl WeatherData {
    /// The message that publishes the reading.
    pub fn into_message(self) -> (r: DisplayMessage)
        ensures
            r@ == MessageView::UpdateWeather(self@.temp, self@.city),
    {
        DisplayMessage::UpdateWeather(self.temp, self.city)
    }
}

} // verus!

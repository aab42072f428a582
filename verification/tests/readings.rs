use weather_clock::app::DisplayMessage;
use weather_clock::weather::{
    CityInfo, Data, Temperature, WeatherClient, WeatherData, FETCH_TIMEOUT_SECS, WEATHER_URL,
};

fn answer(wendu: &str, city: &str) -> Temperature {
    Temperature {
        data: Data { wendu: wendu.to_string() },
        cityInfo: CityInfo { city: city.to_string() },
    }
}

#[test]
fn reading_appends_the_unit() {
    let reading = WeatherClient::new().reading(answer("20", "Shanghai"));
    assert_eq!(reading, WeatherData { temp: "20℃".to_string(), city: "Shanghai".to_string() });
}

#[test]
fn reading_of_empty_fields() {
    let reading = WeatherClient::new().reading(answer("", ""));
    assert_eq!(reading, WeatherData { temp: "℃".to_string(), city: String::new() });
}

#[test]
fn reading_keeps_the_city_as_it_is() {
    let reading = WeatherClient::new().reading(answer("-3.5", "济南市"));
    assert_eq!(reading.temp, "-3.5℃");
    assert_eq!(reading.city, "济南市");
}

#[test]
fn reading_becomes_a_weather_update() {
    let reading = WeatherData { temp: "20℃".to_string(), city: "Shanghai".to_string() };
    assert_eq!(
        reading.into_message(),
        DisplayMessage::UpdateWeather("20℃".to_string(), "Shanghai".to_string())
    );
}

#[test]
fn service_address_and_timeout() {
    assert_eq!(WEATHER_URL, "http://t.weather.sojson.com/api/weather/city/101120201");
    assert_eq!(FETCH_TIMEOUT_SECS, 5);
}

use airnow::airnow_apis::{observation_by_latlon_url, observation_by_zip_url};
use airnow::openweather_api::{weather_by_latlon_url, weather_by_zip_url, zip_param};

#[test]
fn air_quality_by_position_carries_position_distance_and_format() {
    let lat: f64 = 38.9072;
    let lon: f64 = -77.0369;
    let url = observation_by_latlon_url("KEY", &lat.to_string(), &lon.to_string());
    assert!(url.contains(
        "latitude=38.9072&longitude=-77.0369&distance=25&format=application/json"
    ));
}

#[test]
fn air_quality_by_position_whole_address() {
    assert_eq!(
        observation_by_latlon_url("KEY", "38.9072", "-77.0369"),
        "https://www.airnowapi.org/aq/observation/latLong/current/?latitude=38.9072&longitude=-77.0369&distance=25&format=application/json&API_KEY=KEY"
    );
}

#[test]
fn air_quality_by_postal_code_whole_address() {
    assert_eq!(
        observation_by_zip_url("KEY", "20001"),
        "https://www.airnowapi.org/aq/observation/zipCode/current/?format=application/json&zipCode=20001&distance=25&API_KEY=KEY"
    );
}

#[test]
fn air_quality_addresses_with_empty_parts() {
    assert_eq!(
        observation_by_latlon_url("", "", ""),
        "https://www.airnowapi.org/aq/observation/latLong/current/?latitude=&longitude=&distance=25&format=application/json&API_KEY="
    );
    assert_eq!(
        observation_by_zip_url("", ""),
        "https://www.airnowapi.org/aq/observation/zipCode/current/?format=application/json&zipCode=&distance=25&API_KEY="
    );
}

#[test]
fn weather_by_position_whole_address() {
    assert_eq!(
        weather_by_latlon_url("KEY", "38.9072", "-77.0369"),
        "https://api.openweathermap.org/data/2.5/weather?lat=38.9072&lon=-77.0369&appid=KEY&units=metric"
    );
}

#[test]
fn weather_by_bare_postal_code_gets_the_default_country() {
    assert_eq!(zip_param("20001"), "20001,us");
    assert_eq!(
        weather_by_zip_url("KEY", "20001"),
        "https://api.openweathermap.org/data/2.5/weather?zip=20001,us&appid=KEY&units=metric"
    );
}

#[test]
fn weather_by_postal_code_with_country_is_unchanged() {
    assert_eq!(zip_param("20001,ca"), "20001,ca");
    assert_eq!(
        weather_by_zip_url("KEY", "20001,ca"),
        "https://api.openweathermap.org/data/2.5/weather?zip=20001,ca&appid=KEY&units=metric"
    );
}

#[test]
fn weather_postal_code_edge_cases() {
    assert_eq!(zip_param(""), ",us");
    assert_eq!(zip_param(","), ",");
    assert_eq!(zip_param("20001,"), "20001,");
    assert_eq!(zip_param(",us"), ",us");
    assert_eq!(zip_param("a,b,c"), "a,b,c");
    // a comma of another script is no separator
    assert_eq!(zip_param("20001\u{ff0c}ca"), "20001\u{ff0c}ca,us");
}

//! Queries against the weather provider's current-conditions endpoint.

use vstd::prelude::*;
use vstd::string::StringExecFns;
use crate::text::contains_char;

verus! {

/// The postal code as the provider is asked for it: a code that already names
/// its country, after a comma, stands as it is; any other gets `,us`.
pub open spec fn zip_query(zip: Seq<char>) -> Seq<char> {
    if zip.contains(',') {
        zip
    } else {
        zip + ",us"@
    }
}

/// The address that asks for the current weather at a position.
pub open spec fn latlon_url(api_key: Seq<char>, lat: Seq<char>, lon: Seq<char>) -> Seq<char> {
    "https://api.openweathermap.org/data/2.5/weather?lat="@ + lat + "&lon="@ + lon + "&appid="@
        + api_key + "&units=metric"@
}

/// The address that asks for the current weather at a postal code.
pub open spec fn zip_url(api_key: Seq<char>, zip: Seq<char>) -> Seq<char> {
    "https://api.openweathermap.org/data/2.5/weather?zip="@ + zip_query(zip) + "&appid="@
        + api_key + "&units=metric"@
}

/// Gives a bare postal code the default country and leaves one with a country alone.
pub fn zip_param(zip: &str) -> (param: String)
    ensures
        param@ == zip_query(zip@),
{
    let mut param = String::from_str(zip);
    if !contains_char(zip, ',') {
        param.append(",us");
    }
    param
}

/// Builds the request for the weather at `lat`, `lon`, both in decimal
/// notation, in metric units.
pub fn weather_by_latlon_url(api_key: &str, lat: &str, lon: &str) -> (url: String)
    ensures
        url@ == latlon_url(api_key@, lat@, lon@),
{
    let mut url = String::from_str("https://api.openweathermap.org/data/2.5/weather?lat=");
    url.append(lat);
    url.append("&lon=");
    url.append(lon);
    url.append("&appid=");
    url.append(api_key);
    url.append("&units=metric");
    url
}

/// Builds the request for the weather at a postal code, in metric units.
pub fn weather_by_zip_url(api_key: &str, zip: &str) -> (url: String)
    ensures
        url@ == zip_url(api_key@, zip@),
{
    let param = zip_param(zip);
    let mut url = String::from_str("https://api.openweathermap.org/data/2.5/weather?zip=");
    url.append(param.as_str());
    url.append("&appid=");
    url.append(api_key);
    url.append("&units=metric");
    url
}

} // verus!

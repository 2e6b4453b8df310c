//! Queries against the air-quality provider's current-observation endpoints.
//!
//! Every query asks for observations within a distance of 25 and for an
//! answer in JSON.

use vstd::prelude::*;
use vstd::string::StringExecFns;

verus! {

/// The address that asks for the current observations around a position.
pub open spec fn latlon_url(api_key: Seq<char>, lat: Seq<char>, lon: Seq<char>) -> Seq<char> {
    "https://www.airnowapi.org/aq/observation/latLong/current/?latitude="@ + lat
        + "&longitude="@ + lon + "&distance=25&format=application/json&API_KEY="@ + api_key
}

/// The address that asks for the current observations around a postal code.
pub open spec fn zip_url(api_key: Seq<char>, zip: Seq<char>) -> Seq<char> {
    "https://www.airnowapi.org/aq/observation/zipCode/current/?format=application/json&zipCode="@
        + zip + "&distance=25&API_KEY="@ + api_key
}

/// Builds the request for the observations around `lat`, `lon`, both in
/// decimal notation.
pub fn observation_by_latlon_url(api_key: &str, lat: &str, lon: &str) -> (url: String)
    ensures
        url@ == latlon_url(api_key@, lat@, lon@),
{
    let mut url = String::from_str(
        "https://www.airnowapi.org/aq/observation/latLong/current/?latitude=",
    );
    url.append(lat);
    url.append("&longitude=");
    url.append(lon);
    url.append("&distance=25&format=application/json&API_KEY=");
    url.append(api_key);
    url
}

/// Builds the request for the observations around a postal code.
pub fn observation_by_zip_url(api_key: &str, zip: &str) -> (url: String)
    ensures
        url@ == zip_url(api_key@, zip@),
{
    let mut url = String::from_str(
        "https://www.airnowapi.org/aq/observation/zipCode/current/?format=application/json&zipCode=",
    );
    url.append(zip);
    url.append("&distance=25&API_KEY=");
    url.append(api_key);
    url
}

} // verus!

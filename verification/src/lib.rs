//! Air-quality and weather lookups: the rules that decide what is asked of the
//! providers, how their answers are read, and what is written out.

pub mod airnow_apis;
pub mod coordinate;
pub mod fetch;
pub mod input;
pub mod openweather_api;
pub mod run;
pub mod session;
pub mod storage;
pub mod text;

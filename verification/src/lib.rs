//! Weather dashboard core: the forecast model, the rules that turn raw
//! OpenWeatherMap data into it, the text the dashboard shows, and the
//! keyboard-driven state machine of the application.
pub mod calendar;
pub mod controller;
pub mod daily;
pub mod display;
pub mod feed;
pub mod model;
pub mod service;
pub mod text;

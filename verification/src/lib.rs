//! A render loop for a small character display: an application says what to
//! draw, optionally how to refresh its values from a sensor, and the loop
//! decides when to poll, draw and flush.

pub mod app;
pub mod area;
pub mod banner;
pub mod sensor;
pub mod setup;
pub mod surface;
pub mod text;
pub mod widget;

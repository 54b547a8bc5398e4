//! Verified core of a small weather-report tool.
//!
//! The library decodes a weather-service JSON document into a plain record,
//! converts temperatures between Kelvin, Celsius and Fahrenheit in
//! fixed-point hundredths, picks a pictogram for a condition description,
//! formats sunrise/sunset timestamps as `HH:MM`, and lays out the lines of
//! the textual report. Network and terminal I/O live outside the library.

pub mod convert;
pub mod decode;
pub mod emoji;
pub mod json;
pub mod numfmt;
pub mod render;
pub mod report;
pub mod text;
pub mod timefmt;

//! Status-line segments for a terminal multiplexer: a media-player line
//! resolved from several sources, CPU and memory bars, and a clock.

pub mod time_code;
pub mod track;
pub mod layout;
pub mod resolver;
pub mod render;
pub mod config;
pub mod meters;

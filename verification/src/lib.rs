//! Verified core of the COR24 tiny-C browser playground: the demo
//! catalogue, the DS1307 real-time-clock arithmetic, the SD card test
//! image, the text formatting behind the listing and peripheral panels,
//! and the decisions that drive a run.

pub mod rtc;
pub mod text;
pub mod demos;
pub mod sdcard;
pub mod run;
pub mod listing;
pub mod panels;

//! Battery runtime estimation and thermal telemetry.
//!
//! The library turns raw hardware-metric values (as exposed by the kernel's
//! sysfs attributes) into a sensor catalog, a smoothed power estimate and a
//! time-remaining figure. All quantities are integers in small units:
//! microwatts, microwatt-hours, microvolts, milliamps and thousandths of a
//! degree Celsius.

pub mod chars;
pub mod sensors;
pub mod history;
pub mod estimator;
pub mod sampler;
pub mod display;

//! Fan-speed control for a PWM-driven cooling fan.
//!
//! Temperatures are carried as whole millidegrees Celsius and duty cycles as
//! whole percentages, so that every decision of the controller is exact.
pub mod control;
pub mod policy;
pub mod reading;
pub mod report;

//! Firmware selection and flash orchestration: the decisions of a provisioning
//! run, from picking a chip and a firmware build to tracking the progress of
//! the erase and program phases.

pub mod catalog;
pub mod progress;
pub mod run;
pub mod select;
pub mod version;

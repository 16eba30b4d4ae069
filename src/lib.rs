//! Session state machine and device-mount lifecycle of a small storage
//! control panel: four buttons, a monochrome screen, and removable
//! partitions mounted under one mount root.
pub mod app;
pub mod config;
pub mod device;

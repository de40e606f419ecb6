//! Lifecycle management of a BIOS bootloader component: locating the boot
//! device, inspecting its partition layout, planning the bootloader
//! installation and keeping the record of what is installed.
//!
//! The library performs no I/O. Every operation that needs the outside world
//! is a small state machine: it hands out the next action to perform and takes
//! the observed outcome back.

pub mod json;
pub mod text;
pub mod paths;
pub mod model;
pub mod plan;
pub mod platform;
pub mod installer;
pub mod device;
pub mod partition;
pub mod copier;
pub mod tree;
pub mod component;

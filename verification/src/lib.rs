//! Control plane for a simulated spatial device.
//!
//! The crate tracks the device's telemetry, runs the start/stop life cycle of
//! its automation kernel together with a bounded audit log, and lets short
//! scripts drive both through a closed set of host functions.
//!
//! Each of the two stores comes in two layers. [`hardware::HardwareManager`]
//! and [`kernel::KernelManager`] own their state and change it through
//! `&mut self`; their contracts say exactly what every operation does.
//! [`hardware::SharedHardware`] and [`kernel::SharedKernel`] put a manager
//! behind a lock, so that the transports and the script host can share it;
//! they run the managers' operations one at a time, and what they hand out
//! is always a state that these operations lead to from the one the store
//! was created with.

pub mod api;
pub mod hardware;
pub mod kernel;
pub mod scripting;

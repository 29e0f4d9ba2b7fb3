//! A two-node battery discharge tester. The battery interface drives a
//! heater load, measures the battery and keeps the load safe; the host runs
//! test sessions, records the measurements and talks to the operator.
//!
//! Shared by both nodes: [`units`], [`protocol`], [`varint`] and [`wire`].
//!
//! The battery interface: [`ina260`] (the sensor), [`twim`] (the bus
//! driver's errors), [`clock`], [`range`] and [`pwm`] (the heater and its
//! watchdog), [`daq`] (the sample queue) and [`power`] (the power control).
//!
//! The host: [`host`] (its data model), [`program`] (the session),
//! [`serial`] (frames and the serial task), [`files`] (the output file),
//! [`ipc`] (the operator's endpoint) and [`print`] (the print task's
//! messages).
//!
//! Nothing here touches a pin, a port or a file. Each activity is a value
//! with a step function: the caller reports what happened and carries out
//! what the step returns.

pub mod units;
pub mod protocol;
pub mod varint;
pub mod wire;
pub mod ina260;
pub mod twim;
pub mod clock;
pub mod range;
pub mod pwm;
pub mod daq;
pub mod power;
pub mod host;
pub mod program;
pub mod serial;
pub mod files;
pub mod ipc;
pub mod print;

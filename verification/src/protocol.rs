//! The messages exchanged between the host and the battery interface.

use vstd::prelude::*;
use crate::units::{MilliAmp, MilliVolt};

verus! {

/// Largest encoded size of a [`BiCommand`], in bytes.
pub const COMMAND_MAX_SIZE: usize = 4;

/// Largest encoded size of a [`BIReply`], in bytes.
pub const REPLY_MAX_SIZE: usize = 31;

/// Whether the host asks the battery interface to unlatch a fault.
#[derive(Debug, Clone, Copy, PartialEq, Eq, Structural, Hash)]
pub enum ClearFault {
    No,
    Yes,
}

/// Whether the host asks the battery interface to enter the reset state.
#[derive(Debug, Clone, Copy, PartialEq, Eq, Structural, Hash)]
pub enum Reset {
    No,
    /// The operator must disconnect and reconnect the battery.
    Yes,
}

/// Whether a current below the expected envelope is tolerated.
#[derive(Debug, Clone, Copy, PartialEq, Eq, Structural, Hash)]
pub enum AllowUndercurrent {
    No,
    Yes,
}

/// The commanded position of the heater load.
#[derive(Debug, Clone, Copy, PartialEq, Eq, Structural, Hash)]
pub enum LoadState {
    Off,
    On,
}

/// One host-to-interface command.
#[derive(Debug, Clone, Copy, PartialEq, Eq, Structural, Hash)]
pub struct BiCommand {
    pub load: LoadState,
    pub reset: Reset,
    pub clear_fault: ClearFault,
    pub allow_undercurrent: AllowUndercurrent,
}

/// One averaged batch of samples.
#[derive(Debug, Clone, Copy, PartialEq, Eq, Structural, Hash)]
pub struct Measurement {
    pub vbat: MilliVolt,
    pub ibat: MilliAmp,
    /// Millisecond timestamp of the batch.
    pub t: u64,
}

/// The low-level cause of a failed bus transfer.
#[derive(Debug, Clone, Copy, PartialEq, Eq, Structural, Hash)]
pub enum TiwmError {
    TxBufferTooLong,
    RxBufferTooLong,
    Transmit,
    Receive,
    RAMBufferTooSmall,
    AddressNack,
    DataNack,
    Overrun,
    Timeout,
    Unknown,
}

/// A failed sensor operation, with its cause.
#[derive(Debug, Clone, Copy, PartialEq, Eq, Structural, Hash)]
pub enum I2CError {
    InaVinCurrent(TiwmError),
    InaVinVoltage(TiwmError),
    InaVinConfig(TiwmError),
    InaVinId(TiwmError),
}

/// What went wrong on the battery interface.
#[derive(Debug, Clone, Copy, PartialEq, Eq, Structural, Hash)]
pub enum FaultKind {
    /// A sensor transfer failed.
    I2C(I2CError),
    /// The heater is on but draws less than expected.
    Undercurrent,
    /// The battery is not detected.
    NoBattery,
    /// More current flows than expected.
    Overcurrent,
}

/// A latched fault and the time it was detected, in milliseconds.
#[derive(Debug, Clone, Copy, PartialEq, Eq, Structural, Hash)]
pub struct Fault {
    pub kind: FaultKind,
    pub time: u64,
}

/// One interface-to-host status frame. A fault takes precedence over a
/// measurement carried by the same reply.
#[derive(Debug, Clone, Copy, PartialEq, Eq, Hash)]
pub struct BIReply {
    pub measurement: Option<Measurement>,
    pub fault: Result<(), Fault>,
}

impl Default for ClearFault {
    fn default() -> (r: Self)
        ensures
            r == ClearFault::No,
    {
        ClearFault::No
    }
}

impl Default for Reset {
    fn default() -> (r: Self)
        ensures
            r == Reset::No,
    {
        Reset::No
    }
}

impl Default for AllowUndercurrent {
    fn default() -> (r: Self)
        ensures
            r == AllowUndercurrent::No,
    {
        AllowUndercurrent::No
    }
}

impl Default for LoadState {
    fn default() -> (r: Self)
        ensures
            r == LoadState::Off,
    {
        LoadState::Off
    }
}

impl Default for BiCommand {
    fn default() -> (r: Self)
        ensures
            r == (BiCommand {
                load: LoadState::Off,
                reset: Reset::No,
                clear_fault: ClearFault::No,
                allow_undercurrent: AllowUndercurrent::No,
            }),
    {
        BiCommand {
            load: LoadState::Off,
            reset: Reset::No,
            clear_fault: ClearFault::No,
            allow_undercurrent: AllowUndercurrent::No,
        }
    }
}

} // verus!

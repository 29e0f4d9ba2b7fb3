//! The host's data model: the operator's settings for a test, the events the
//! session reacts to and the commands it hands to its collaborators.

use vstd::prelude::*;
use crate::protocol::{AllowUndercurrent, BIReply, BiCommand, ClearFault, LoadState, Reset};
use crate::units::{MilliAmp, MilliVolt};

verus! {

/// Largest command payload the host sends.
pub const OUTGOING_MAX_SIZE: usize = 4;

/// Largest reply payload the host receives.
pub const INCOMING_MAX_SIZE: usize = 31;

/// Baud rate of the serial link.
pub const DEFALT_BAUD: u32 = 230400;

/// Cutoff voltage of a fresh session, in millivolts.
pub const DEFAULT_CUTOFF_MILLIV: u16 = 11_000;

/// Voltage under which a battery counts as disconnected, in millivolts.
pub const DEFAULT_DISCONNECT_MILLIV: u16 = 1_000;

/// Name of the local endpoint on which the server accepts operator commands.
pub const SERVER_NAME: &'static str = "battery-tester-server";

/// The label of a battery: its year and its index within that year.
#[derive(Debug, Clone, Copy, PartialEq, Eq, Structural, Hash)]
pub struct BatteryID {
    pub year: u16,
    pub index: u8,
}

/// The state of the host's test session.
#[derive(Debug, Clone, Copy, PartialEq, Eq, Structural, Hash)]
pub enum Mode {
    /// Waiting for the battery label, the device name and the first reply.
    Setup,
    /// Waiting for a voltage above the cutoff.
    WaitForBattery,
    /// Waiting for the operator to start the test.
    WaitForUsrStart,
    /// Discharging; ends when the voltage reaches the cutoff.
    Testing,
    /// The operator shut the server down.
    Shutdown,
    /// The test ended.
    EndTest,
    /// The serial link is lost.
    CommDC,
    /// The battery interface reported a fault.
    Fault,
}

impl Default for Mode {
    fn default() -> (r: Self)
        ensures
            r == Mode::Setup,
    {
        Mode::Setup
    }
}

/// One record of the output file.
#[derive(Debug, Clone, Copy, PartialEq, Eq, Structural, Hash)]
pub struct SaveData {
    pub millivolts: MilliVolt,
    pub milliamps: MilliAmp,
    pub dt: u64,
    pub duration: u64,
}

/// A command of the operator, as the client sends it to the server.
#[derive(Debug, Clone, PartialEq, Eq)]
pub enum ServerCmd {
    SetBatteryId(BatteryID),
    SetSerialDev(String),
    SetCutoffMillis(MilliVolt),
    StartTest,
    CancelTest,
    ShutDown,
    ClearFault,
    AllowUndercurrent,
    DisallowUndercurrent,
}

/// What the session reacts to.
#[derive(Debug, Clone, PartialEq, Eq)]
pub enum Event {
    /// The operator sent a battery label.
    BattID(BatteryID),
    /// The operator named the serial device.
    SetSerialDevice(String),
    /// The operator set the cutoff voltage.
    SetCutoff(MilliVolt),
    /// The operator wants to start the test.
    StartTest,
    /// The serial link failed.
    CommDc,
    /// The battery interface replied.
    ComReply(BIReply),
    /// The operator cancelled the test.
    CancelTest,
    /// The operator shut the server down.
    Shutdown,
    /// Records cannot be written to the output file.
    FileError,
    /// The operator acknowledged a fault.
    ClearFault,
    /// The operator allowed or disallowed a current below the envelope.
    UnderCurrentResponse(AllowUndercurrent),
}

/// A command for the file writer. The handle of a new file travels beside
/// `NewFile`, in the hands of whoever opened it.
#[derive(Debug, Clone, Copy, PartialEq, Eq, Structural)]
pub enum FileCmd {
    NewFile,
    CloseFile,
    Shutdown,
    Push(SaveData),
}

/// A command for the serial task.
#[derive(Debug, Clone, PartialEq, Eq)]
pub enum ComCmd {
    NewDeviceName(String),
    BICommand(BiCommand),
    Shutdown,
    ClearFault,
}

/// The operator's settings and what the session has learnt so far.
#[derive(Debug, Clone, PartialEq, Eq)]
pub struct TestState {
    cutoff: MilliVolt,
    battery_id: Option<BatteryID>,
    device_name: Option<String>,
    first_reply: bool,
    allow_undercurrent: AllowUndercurrent,
}

/// What a [`TestState`] holds.
pub struct TestStateView {
    pub cutoff: MilliVolt,
    pub battery_id: Option<BatteryID>,
    pub device_name: Option<String>,
    pub first_reply: bool,
    pub allow_undercurrent: AllowUndercurrent,
}

impl TestStateView {
    /// The settings of a fresh session.
    pub open spec fn initial() -> TestStateView {
        TestStateView {
            cutoff: MilliVolt(DEFAULT_CUTOFF_MILLIV),
            battery_id: None,
            device_name: None,
            first_reply: false,
            allow_undercurrent: AllowUndercurrent::No,
        }
    }

    /// A battery can be awaited once its label and the device are known and
    /// the battery interface has answered.
    pub open spec fn ready_for_battery(self) -> bool {
        self.battery_id.is_some() && self.first_reply && self.device_name.is_some()
    }

    /// The settings after a test ended: label and first reply forgotten.
    pub open spec fn ended(self) -> TestStateView {
        TestStateView { battery_id: None, first_reply: false, ..self }
    }
}

impl View for TestState {
    type V = TestStateView;

    closed spec fn view(&self) -> TestStateView {
        TestStateView {
            cutoff: self.cutoff,
            battery_id: self.battery_id,
            device_name: self.device_name,
            first_reply: self.first_reply,
            allow_undercurrent: self.allow_undercurrent,
        }
    }
}

impl Default for TestState {
    fn default() -> (r: Self)
        ensures
            r@ == TestStateView::initial(),
    {
        TestState {
            cutoff: MilliVolt::new(DEFAULT_CUTOFF_MILLIV),
            battery_id: None,
            device_name: None,
            first_reply: false,
            allow_undercurrent: AllowUndercurrent::No,
        }
    }
}

impl TestState {
    /// Sets the cutoff voltage.
    pub fn new_cutoff(&mut self, millivolts: MilliVolt)
        ensures
            final(self)@ == (TestStateView { cutoff: millivolts, ..old(self)@ }),
    {
        self.cutoff = millivolts;
    }

    /// Sets the label of the battery under test.
    pub fn new_batt_id(&mut self, battery_id: BatteryID)
        ensures
            final(self)@ == (TestStateView { battery_id: Some(battery_id), ..old(self)@ }),
    {
        self.battery_id = Some(battery_id)
    }

    /// Sets the name of the serial device.
    pub fn new_device_name(&mut self, device_name: String)
        ensures
            final(self)@ == (TestStateView { device_name: Some(device_name), ..old(self)@ }),
    {
        self.device_name = Some(device_name)
    }

    /// Notes that the battery interface has answered.
    pub fn set_first_reply(&mut self)
        ensures
            final(self)@ == (TestStateView { first_reply: true, ..old(self)@ }),
    {
        self.first_reply = true
    }

    /// Notes that the battery interface has yet to answer.
    pub fn unset_first_reply(&mut self)
        ensures
            final(self)@ == (TestStateView { first_reply: false, ..old(self)@ }),
    {
        self.first_reply = false
    }

    /// Whether the battery interface has answered.
    pub fn got_first_reply(&self) -> (r: bool)
        ensures
            r == self@.first_reply,
    {
        self.first_reply
    }

    /// The voltage at or under which a test ends.
    pub fn cutoff(&self) -> (r: MilliVolt)
        ensures
            r == self@.cutoff,
    {
        self.cutoff
    }

    /// The label of the battery under test, if one is set.
    pub fn battery_id(&self) -> (r: Option<BatteryID>)
        ensures
            r == self@.battery_id,
    {
        self.battery_id
    }

    /// Forgets the battery label and the first reply.
    pub fn end_test(&mut self)
        ensures
            final(self)@ == old(self)@.ended(),
    {
        self.battery_id = None;
        self.first_reply = false;
    }

    /// Whether the label and the device are known and the battery interface has
    /// answered.
    pub fn ready_for_battery(&self) -> (r: bool)
        ensures
            r == self@.ready_for_battery(),
            r <==> self@.battery_id.is_some() && self@.first_reply && self@.device_name.is_some(),
    {
        self.battery_id.is_some() && self.first_reply && self.device_name.is_some()
    }

    /// Whether a current below the envelope is tolerated.
    pub fn get_allow_undercurrent(&self) -> (r: AllowUndercurrent)
        ensures
            r == self@.allow_undercurrent,
    {
        self.allow_undercurrent
    }

    /// Stores the operator's choice on undercurrent.
    pub fn set_allow_undercurrent(&mut self, allow_undercurrent: AllowUndercurrent)
        ensures
            final(self)@ == (TestStateView { allow_undercurrent, ..old(self)@ }),
    {
        self.allow_undercurrent = allow_undercurrent
    }
}

/// Load off, nothing else asked.
pub open spec fn idle_command_spec() -> BiCommand {
    BiCommand {
        load: LoadState::Off,
        reset: Reset::No,
        clear_fault: ClearFault::No,
        allow_undercurrent: AllowUndercurrent::No,
    }
}

/// Load off, nothing else asked.
#[verifier::when_used_as_spec(idle_command_spec)]
pub fn idle_command() -> (r: BiCommand)
    ensures
        r == idle_command_spec(),
{
    BiCommand {
        load: LoadState::Off,
        reset: Reset::No,
        clear_fault: ClearFault::No,
        allow_undercurrent: AllowUndercurrent::No,
    }
}

/// Load off, and the battery interface enters its reset state.
pub open spec fn end_test_command_spec() -> BiCommand {
    BiCommand {
        load: LoadState::Off,
        reset: Reset::Yes,
        clear_fault: ClearFault::No,
        allow_undercurrent: AllowUndercurrent::No,
    }
}

/// Load off, and the battery interface enters its reset state.
#[verifier::when_used_as_spec(end_test_command_spec)]
pub fn end_test_command() -> (r: BiCommand)
    ensures
        r == end_test_command_spec(),
{
    BiCommand {
        load: LoadState::Off,
        reset: Reset::Yes,
        clear_fault: ClearFault::No,
        allow_undercurrent: AllowUndercurrent::No,
    }
}

/// Load off while the voltage is watched.
pub open spec fn volts_command_spec() -> BiCommand {
    BiCommand {
        load: LoadState::Off,
        reset: Reset::No,
        clear_fault: ClearFault::No,
        allow_undercurrent: AllowUndercurrent::No,
    }
}

/// Load off while the voltage is watched.
#[verifier::when_used_as_spec(volts_command_spec)]
pub fn volts_command() -> (r: BiCommand)
    ensures
        r == volts_command_spec(),
{
    BiCommand {
        load: LoadState::Off,
        reset: Reset::No,
        clear_fault: ClearFault::No,
        allow_undercurrent: AllowUndercurrent::No,
    }
}

/// Load on, with the operator's choice on undercurrent.
pub open spec fn testing_command_spec(allow_undercurrent: AllowUndercurrent) -> BiCommand {
    BiCommand {
        load: LoadState::On,
        reset: Reset::No,
        clear_fault: ClearFault::No,
        allow_undercurrent: allow_undercurrent,
    }
}

/// Load on, with the operator's choice on undercurrent.
#[verifier::when_used_as_spec(testing_command_spec)]
pub fn testing_command(allow_undercurrent: AllowUndercurrent) -> (r: BiCommand)
    ensures
        r == testing_command_spec(allow_undercurrent),
{
    BiCommand {
        load: LoadState::On,
        reset: Reset::No,
        clear_fault: ClearFault::No,
        allow_undercurrent: allow_undercurrent,
    }
}

/// Load off, and a latched fault is acknowledged.
pub open spec fn clear_fault_command_spec() -> BiCommand {
    BiCommand {
        load: LoadState::Off,
        reset: Reset::No,
        clear_fault: ClearFault::Yes,
        allow_undercurrent: AllowUndercurrent::No,
    }
}

/// Load off, and a latched fault is acknowledged.
#[verifier::when_used_as_spec(clear_fault_command_spec)]
pub fn clear_fault_command() -> (r: BiCommand)
    ensures
        r == clear_fault_command_spec(),
{
    BiCommand {
        load: LoadState::Off,
        reset: Reset::No,
        clear_fault: ClearFault::Yes,
        allow_undercurrent: AllowUndercurrent::No,
    }
}

} // verus!

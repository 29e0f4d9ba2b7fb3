//! The host's session: for each state, what is done on entering it and how
//! it answers each event. The caller owns the channels, the files and the
//! clock; it performs the actions returned here and feeds events back.

use vstd::prelude::*;
use crate::host::{
    BatteryID, ComCmd, Event, FileCmd, Mode, SaveData, TestState, TestStateView,
    end_test_command, idle_command, testing_command, volts_command,
};
use crate::protocol::{AllowUndercurrent, BIReply, Fault, Measurement};
use crate::units::MilliVolt;

verus! {

/// Why an event was refused in the current state.
#[derive(Debug, Clone, Copy, PartialEq, Eq, Structural)]
pub enum Rejection {
    CantStartDuringSetup,
    CantStartWhileWaitingForBattery,
    CantStartUntilFaultCleared,
    AlreadyTesting,
    CantChangeDeviceWhileWaitingForBattery,
    CantChangeDeviceWhileTesting,
    CantChangeBatteryWhileTesting,
    NoFaultToClear,
}

/// A message for the operator.
#[derive(Debug, Clone, PartialEq, Eq)]
pub enum Notice {
    /// Asks for the battery label and the serial device name.
    SetupPrompt,
    /// Shows the current settings.
    ShowState,
    /// The serial device is set to this name.
    SettingDeviceName(String),
    NewCutoff(MilliVolt),
    WaitingForBattery,
    WaitingForStart,
    StartingTest,
    EndingTest,
    CommDisconnected,
    /// The test ends; the fault must be cleared to continue.
    FaultLatched,
    FaultDetails(Fault),
    FaultCleared,
    LostComms,
    FileCreateFailed,
    Rejected(Rejection),
}

/// Something the caller does on behalf of the session.
#[derive(Debug, Clone, PartialEq, Eq)]
pub enum Action {
    /// Hand a command to the serial task.
    Com(ComCmd),
    /// Hand a command to the file writer.
    File(FileCmd),
    /// Show a message to the operator.
    Notify(Notice),
    /// Create the output file of a battery and report the outcome to
    /// [`file_created`].
    CreateFile(BatteryID),
    /// Tell the operator endpoint to stop accepting connections.
    StopIpc,
    /// Stop the printer.
    StopPrinter,
}

/// The outcome of one step: the state to go on in, and what to do first.
#[derive(Debug, Clone, PartialEq, Eq)]
pub struct Step {
    pub mode: Mode,
    pub actions: Vec<Action>,
}

/// What a step amounts to: the settings after it, the next state and the
/// actions, in order.
pub struct Transition {
    pub state: TestStateView,
    pub mode: Mode,
    pub actions: Seq<Action>,
}

impl Step {
    /// This step, with the settings it left, is the transition `t`.
    pub open spec fn amounts_to(self, after: TestStateView, t: Transition) -> bool {
        &&& after == t.state
        &&& self.mode == t.mode
        &&& self.actions@ =~= t.actions
    }
}

/// The record written for a measurement.
pub open spec fn record_of(m: Measurement) -> SaveData {
    SaveData { millivolts: m.vbat, milliamps: m.ibat, dt: m.t, duration: 0 }
}

/// Staying in `mode` with unchanged settings, after the given actions.
pub open spec fn stay(s: TestStateView, mode: Mode, actions: Seq<Action>) -> Transition {
    Transition { state: s, mode, actions }
}

/// Leaving for `mode` with unchanged settings and nothing to do.
pub open spec fn leave(s: TestStateView, mode: Mode) -> Transition {
    Transition { state: s, mode, actions: seq![] }
}

/// A new cutoff is stored and shown, in whatever state it arrives.
pub open spec fn cutoff_spec(s: TestStateView, mode: Mode, millivolts: MilliVolt) -> Transition {
    Transition {
        state: TestStateView { cutoff: millivolts, ..s },
        mode,
        actions: seq![Action::Notify(Notice::NewCutoff(millivolts))],
    }
}

/// The operator's choice on undercurrent is stored, in whatever state it
/// arrives.
pub open spec fn undercurrent_spec(
    s: TestStateView,
    mode: Mode,
    allow_undercurrent: AllowUndercurrent,
) -> Transition {
    Transition { state: TestStateView { allow_undercurrent, ..s }, mode, actions: seq![] }
}

/// What happens on entering `mode`.
pub open spec fn enter_spec(mode: Mode, s: TestStateView) -> Transition {
    match mode {
        Mode::Setup => stay(
            s,
            Mode::Setup,
            seq![
                Action::Notify(Notice::SetupPrompt),
                Action::Com(ComCmd::BICommand(idle_command())),
                Action::Notify(Notice::ShowState),
            ],
        ),
        Mode::WaitForBattery => stay(
            s,
            Mode::WaitForBattery,
            seq![
                Action::Notify(Notice::WaitingForBattery),
                Action::Com(ComCmd::BICommand(volts_command())),
            ],
        ),
        Mode::WaitForUsrStart => stay(
            s,
            Mode::WaitForUsrStart,
            seq![Action::Notify(Notice::WaitingForStart)],
        ),
        Mode::Testing => stay(
            s,
            Mode::Testing,
            seq![
                Action::Notify(Notice::StartingTest),
                Action::Com(ComCmd::BICommand(testing_command(s.allow_undercurrent))),
            ],
        ),
        Mode::EndTest => Transition {
            state: s.ended(),
            mode: Mode::Setup,
            actions: seq![
                Action::Com(ComCmd::BICommand(end_test_command())),
                Action::File(FileCmd::CloseFile),
                Action::Notify(Notice::EndingTest),
            ],
        },
        Mode::CommDC => Transition {
            state: s.ended(),
            mode: Mode::Setup,
            actions: seq![
                Action::Notify(Notice::CommDisconnected),
                Action::File(FileCmd::CloseFile),
            ],
        },
        Mode::Fault => stay(
            s.ended(),
            Mode::Fault,
            seq![
                Action::Com(ComCmd::BICommand(idle_command())),
                Action::Notify(Notice::FaultLatched),
                Action::File(FileCmd::CloseFile),
            ],
        ),
        Mode::Shutdown => stay(
            s,
            Mode::Shutdown,
            seq![
                Action::Com(ComCmd::BICommand(idle_command())),
                Action::File(FileCmd::CloseFile),
                Action::File(FileCmd::Shutdown),
                Action::Com(ComCmd::Shutdown),
                Action::StopIpc,
                Action::StopPrinter,
            ],
        ),
    }
}

/// How `Setup` answers an event.
pub open spec fn setup_spec(s: TestStateView, event: Event) -> Transition {
    match event {
        Event::BattID(id) => stay(s, Mode::Setup, seq![Action::CreateFile(id)]),
        Event::SetSerialDevice(dev) => Transition {
            state: TestStateView { device_name: Some(dev), ..s },
            mode: Mode::Setup,
            actions: seq![
                Action::Notify(Notice::SettingDeviceName(dev)),
                Action::Com(ComCmd::NewDeviceName(dev)),
                Action::Notify(Notice::ShowState),
            ],
        },
        Event::SetCutoff(millivolts) => cutoff_spec(s, Mode::Setup, millivolts),
        Event::ComReply(reply) => match reply.fault {
            Ok(()) => {
                let after = TestStateView { first_reply: true, ..s };
                Transition {
                    state: after,
                    mode: if after.ready_for_battery() {
                        Mode::WaitForBattery
                    } else {
                        Mode::Setup
                    },
                    actions: if s.first_reply {
                        seq![]
                    } else {
                        seq![Action::Notify(Notice::ShowState)]
                    },
                }
            },
            Err(f) => stay(s, Mode::Fault, seq![Action::Notify(Notice::FaultDetails(f))]),
        },
        Event::Shutdown => leave(s, Mode::Shutdown),
        Event::CommDc => Transition {
            state: TestStateView { first_reply: false, ..s },
            mode: Mode::Setup,
            actions: seq![],
        },
        Event::StartTest => stay(
            s,
            Mode::Setup,
            seq![Action::Notify(Notice::Rejected(Rejection::CantStartDuringSetup))],
        ),
        Event::CancelTest => leave(s, Mode::Setup),
        Event::FileError => Transition { state: s.ended(), mode: Mode::Setup, actions: seq![] },
        Event::ClearFault => stay(
            s,
            Mode::Setup,
            seq![Action::Notify(Notice::Rejected(Rejection::NoFaultToClear))],
        ),
        Event::UnderCurrentResponse(allow) => undercurrent_spec(s, Mode::Setup, allow),
    }
}

/// How `WaitForBattery` answers an event.
pub open spec fn wait_for_battery_spec(s: TestStateView, event: Event) -> Transition {
    match event {
        Event::BattID(id) => stay(s, Mode::WaitForBattery, seq![Action::CreateFile(id)]),
        Event::SetCutoff(millivolts) => cutoff_spec(s, Mode::WaitForBattery, millivolts),
        Event::StartTest => stay(
            s,
            Mode::WaitForBattery,
            seq![Action::Notify(Notice::Rejected(Rejection::CantStartWhileWaitingForBattery))],
        ),
        Event::CommDc => leave(s, Mode::CommDC),
        Event::ComReply(reply) => match reply.fault {
            Ok(()) => match reply.measurement {
                Some(m) => if m.vbat.0 > s.cutoff.0 {
                    leave(s, Mode::WaitForUsrStart)
                } else {
                    leave(s, Mode::WaitForBattery)
                },
                None => leave(s, Mode::WaitForBattery),
            },
            Err(f) => stay(s, Mode::Fault, seq![Action::Notify(Notice::FaultDetails(f))]),
        },
        Event::CancelTest => leave(s, Mode::EndTest),
        Event::SetSerialDevice(_) => stay(
            s,
            Mode::WaitForBattery,
            seq![
                Action::Notify(
                    Notice::Rejected(Rejection::CantChangeDeviceWhileWaitingForBattery),
                ),
            ],
        ),
        Event::Shutdown => leave(s, Mode::Shutdown),
        Event::FileError => leave(s, Mode::EndTest),
        Event::ClearFault => stay(
            s,
            Mode::WaitForBattery,
            seq![Action::Notify(Notice::Rejected(Rejection::NoFaultToClear))],
        ),
        Event::UnderCurrentResponse(allow) => undercurrent_spec(s, Mode::WaitForBattery, allow),
    }
}

/// How `WaitForUsrStart` answers an event.
pub open spec fn wait_for_usr_start_spec(s: TestStateView, event: Event) -> Transition {
    match event {
        Event::BattID(id) => stay(s, Mode::WaitForUsrStart, seq![Action::CreateFile(id)]),
        Event::StartTest => leave(s, Mode::Testing),
        Event::ComReply(reply) => match reply.fault {
            Ok(()) => match reply.measurement {
                Some(m) => if m.vbat.0 > s.cutoff.0 {
                    leave(s, Mode::WaitForUsrStart)
                } else {
                    leave(s, Mode::WaitForBattery)
                },
                None => leave(s, Mode::WaitForUsrStart),
            },
            Err(f) => stay(s, Mode::Fault, seq![Action::Notify(Notice::FaultDetails(f))]),
        },
        Event::SetCutoff(millivolts) => cutoff_spec(s, Mode::WaitForUsrStart, millivolts),
        Event::CommDc => leave(s, Mode::CommDC),
        Event::CancelTest => leave(s, Mode::EndTest),
        Event::SetSerialDevice(_) => leave(s, Mode::WaitForUsrStart),
        Event::Shutdown => leave(s, Mode::Shutdown),
        Event::FileError => leave(s, Mode::EndTest),
        Event::ClearFault => stay(
            s,
            Mode::WaitForUsrStart,
            seq![Action::Notify(Notice::Rejected(Rejection::NoFaultToClear))],
        ),
        Event::UnderCurrentResponse(allow) => undercurrent_spec(s, Mode::WaitForUsrStart, allow),
    }
}

/// How `Testing` answers an event.
pub open spec fn testing_spec(s: TestStateView, event: Event) -> Transition {
    match event {
        Event::SetCutoff(millivolts) => cutoff_spec(s, Mode::Testing, millivolts),
        Event::ComReply(reply) => match reply.fault {
            Err(f) => stay(s, Mode::Fault, seq![Action::Notify(Notice::FaultDetails(f))]),
            Ok(()) => match reply.measurement {
                Some(m) => if m.vbat.0 > s.cutoff.0 {
                    stay(s, Mode::Testing, seq![Action::File(FileCmd::Push(record_of(m)))])
                } else {
                    leave(s, Mode::EndTest)
                },
                None => leave(s, Mode::Testing),
            },
        },
        Event::CommDc => leave(s, Mode::CommDC),
        Event::StartTest => stay(
            s,
            Mode::Testing,
            seq![Action::Notify(Notice::Rejected(Rejection::AlreadyTesting))],
        ),
        Event::CancelTest => leave(s, Mode::EndTest),
        Event::Shutdown => leave(s, Mode::Shutdown),
        Event::SetSerialDevice(_) => stay(
            s,
            Mode::Testing,
            seq![Action::Notify(Notice::Rejected(Rejection::CantChangeDeviceWhileTesting))],
        ),
        Event::BattID(_) => stay(
            s,
            Mode::Testing,
            seq![Action::Notify(Notice::Rejected(Rejection::CantChangeBatteryWhileTesting))],
        ),
        Event::FileError => leave(s, Mode::EndTest),
        Event::ClearFault => stay(
            s,
            Mode::Testing,
            seq![Action::Notify(Notice::Rejected(Rejection::NoFaultToClear))],
        ),
        Event::UnderCurrentResponse(allow) => undercurrent_spec(s, Mode::Testing, allow),
    }
}

/// How `Fault` answers an event.
pub open spec fn fault_spec(s: TestStateView, event: Event) -> Transition {
    match event {
        Event::BattID(id) => stay(s, Mode::Fault, seq![Action::CreateFile(id)]),
        Event::SetSerialDevice(dev) => stay(
            s,
            Mode::Fault,
            seq![
                Action::Notify(Notice::SettingDeviceName(dev)),
                Action::Com(ComCmd::NewDeviceName(dev)),
            ],
        ),
        Event::SetCutoff(millivolts) => cutoff_spec(s, Mode::Fault, millivolts),
        Event::ComReply(reply) => match reply.fault {
            Ok(()) => stay(s, Mode::Setup, seq![Action::Notify(Notice::FaultCleared)]),
            Err(_) => leave(s, Mode::Fault),
        },
        Event::Shutdown => leave(s, Mode::Shutdown),
        Event::CommDc => stay(s, Mode::Setup, seq![Action::Notify(Notice::LostComms)]),
        Event::StartTest => stay(
            s,
            Mode::Fault,
            seq![Action::Notify(Notice::Rejected(Rejection::CantStartUntilFaultCleared))],
        ),
        Event::CancelTest => leave(s, Mode::Fault),
        Event::FileError => leave(s, Mode::Fault),
        Event::ClearFault => stay(s, Mode::Fault, seq![Action::Com(ComCmd::ClearFault)]),
        Event::UnderCurrentResponse(allow) => undercurrent_spec(s, Mode::Fault, allow),
    }
}

/// How the session answers an event in `mode`. `EndTest` and `CommDC` are
/// left on entry and `Shutdown` is final, so an event that finds the session
/// there changes nothing.
pub open spec fn event_spec(mode: Mode, s: TestStateView, event: Event) -> Transition {
    match mode {
        Mode::Setup => setup_spec(s, event),
        Mode::WaitForBattery => wait_for_battery_spec(s, event),
        Mode::WaitForUsrStart => wait_for_usr_start_spec(s, event),
        Mode::Testing => testing_spec(s, event),
        Mode::Fault => fault_spec(s, event),
        Mode::EndTest | Mode::CommDC | Mode::Shutdown => leave(s, mode),
    }
}

/// How the session goes on once the caller has tried to create the output
/// file that a battery label asked for.
pub open spec fn file_created_spec(
    mode: Mode,
    s: TestStateView,
    id: BatteryID,
    created: bool,
) -> Transition {
    let labelled = TestStateView { battery_id: Some(id), ..s };
    match mode {
        Mode::Setup => if created {
            Transition {
                state: labelled,
                mode: if labelled.ready_for_battery() {
                    Mode::WaitForBattery
                } else {
                    Mode::Setup
                },
                actions: if labelled.ready_for_battery() {
                    seq![Action::File(FileCmd::NewFile)]
                } else {
                    seq![Action::File(FileCmd::NewFile), Action::Notify(Notice::ShowState)]
                },
            }
        } else {
            Transition {
                state: s.ended(),
                mode: Mode::Setup,
                actions: seq![Action::Notify(Notice::FileCreateFailed)],
            }
        },
        Mode::WaitForBattery | Mode::WaitForUsrStart => if created {
            Transition { state: labelled, mode, actions: seq![Action::File(FileCmd::NewFile)] }
        } else {
            stay(s, Mode::EndTest, seq![Action::Notify(Notice::FileCreateFailed)])
        },
        Mode::Fault => if created {
            Transition {
                state: labelled,
                mode: Mode::Fault,
                actions: seq![Action::File(FileCmd::NewFile)],
            }
        } else {
            Transition {
                state: s.ended(),
                mode: Mode::Fault,
                actions: seq![Action::Notify(Notice::FileCreateFailed)],
            }
        },
        Mode::Testing | Mode::EndTest | Mode::CommDC | Mode::Shutdown => leave(s, mode),
    }
}

/// The state changes that the session can make in one step.
pub open spec fn can_follow(from: Mode, to: Mode) -> bool {
    match from {
        Mode::Setup => to == Mode::Setup || to == Mode::WaitForBattery || to == Mode::Fault
            || to == Mode::Shutdown,
        Mode::WaitForBattery => to == Mode::WaitForBattery || to == Mode::WaitForUsrStart
            || to == Mode::Fault || to == Mode::CommDC || to == Mode::EndTest || to
            == Mode::Shutdown,
        Mode::WaitForUsrStart => to == Mode::WaitForUsrStart || to == Mode::Testing || to
            == Mode::WaitForBattery || to == Mode::Fault || to == Mode::CommDC || to
            == Mode::EndTest || to == Mode::Shutdown,
        Mode::Testing => to == Mode::Testing || to == Mode::EndTest || to == Mode::Fault || to
            == Mode::CommDC || to == Mode::Shutdown,
        Mode::EndTest => to == Mode::EndTest || to == Mode::Setup,
        Mode::CommDC => to == Mode::CommDC || to == Mode::Setup,
        Mode::Fault => to == Mode::Fault || to == Mode::Setup || to == Mode::Shutdown,
        Mode::Shutdown => to == Mode::Shutdown,
    }
}

/// What the session does with the next thing its event channel yields: an
/// event, or `None` once every sender is gone, which shuts the session down.
pub open spec fn program_spec(mode: Mode, s: TestStateView, input: Option<Event>) -> Transition {
    match input {
        Some(event) => event_spec(mode, s, event),
        None => leave(s, Mode::Shutdown),
    }
}

/// Stores and shows a new cutoff.
pub fn new_cutoff(state: &mut TestState, mode: Mode, millivolts: MilliVolt) -> (step: Step)
    ensures
        step.amounts_to(final(state)@, cutoff_spec(old(state)@, mode, millivolts)),
{
    state.new_cutoff(millivolts);
    Step { mode, actions: vec![Action::Notify(Notice::NewCutoff(millivolts))] }
}

/// Enters `mode`: returns its entry actions and the state that follows.
/// `EndTest` and `CommDC` lead on to `Setup` at once; every other state is
/// kept until an event leaves it. Wherever the file is closed on entry, in
/// `EndTest`, `CommDC` and `Fault`, the label and the first reply are
/// forgotten, so that the next battery gets a file of its own.
pub fn enter(mode: Mode, state: &mut TestState) -> (step: Step)
    ensures
        step.amounts_to(final(state)@, enter_spec(mode, old(state)@)),
        step.mode == match mode {
            Mode::EndTest | Mode::CommDC => Mode::Setup,
            _ => mode,
        },
{
    match mode {
        Mode::Setup => Step {
            mode: Mode::Setup,
            actions: vec![
                Action::Notify(Notice::SetupPrompt),
                Action::Com(ComCmd::BICommand(idle_command())),
                Action::Notify(Notice::ShowState),
            ],
        },
        Mode::WaitForBattery => Step {
            mode: Mode::WaitForBattery,
            actions: vec![
                Action::Notify(Notice::WaitingForBattery),
                Action::Com(ComCmd::BICommand(volts_command())),
            ],
        },
        Mode::WaitForUsrStart => Step {
            mode: Mode::WaitForUsrStart,
            actions: vec![Action::Notify(Notice::WaitingForStart)],
        },
        Mode::Testing => {
            let command = testing_command(state.get_allow_undercurrent());
            Step {
                mode: Mode::Testing,
                actions: vec![
                    Action::Notify(Notice::StartingTest),
                    Action::Com(ComCmd::BICommand(command)),
                ],
            }
        },
        Mode::EndTest => end_test(state),
        Mode::CommDC => comm_dc(state),
        Mode::Fault => {
            state.end_test();
            Step {
                mode: Mode::Fault,
                actions: vec![
                    Action::Com(ComCmd::BICommand(idle_command())),
                    Action::Notify(Notice::FaultLatched),
                    Action::File(FileCmd::CloseFile),
                ],
            }
        },
        Mode::Shutdown => Step { mode: Mode::Shutdown, actions: shutdown() },
    }
}

/// The teardown of the session, in order: idle the load, close and stop the
/// file writer, stop the serial task, the operator endpoint and the printer.
pub fn shutdown() -> (actions: Vec<Action>)
    ensures
        actions@ == enter_spec(Mode::Shutdown, TestStateView::initial()).actions,
        forall|s: TestStateView| actions@ == (#[trigger] enter_spec(Mode::Shutdown, s)).actions,
{
    vec![
        Action::Com(ComCmd::BICommand(idle_command())),
        Action::File(FileCmd::CloseFile),
        Action::File(FileCmd::Shutdown),
        Action::Com(ComCmd::Shutdown),
        Action::StopIpc,
        Action::StopPrinter,
    ]
}

/// The serial link is lost: the file is closed, the label and the first
/// reply are forgotten with it, and the session returns to `Setup`.
pub fn comm_dc(state: &mut TestState) -> (step: Step)
    ensures
        step.amounts_to(final(state)@, enter_spec(Mode::CommDC, old(state)@)),
        step.mode == Mode::Setup,
{
    state.end_test();
    Step {
        mode: Mode::Setup,
        actions: vec![
            Action::Notify(Notice::CommDisconnected),
            Action::File(FileCmd::CloseFile),
        ],
    }
}

/// The test is over: the battery interface is reset, the file closed, the
/// label and the first reply forgotten, and the session returns to `Setup`.
pub fn end_test(state: &mut TestState) -> (step: Step)
    ensures
        step.amounts_to(final(state)@, enter_spec(Mode::EndTest, old(state)@)),
        step.mode == Mode::Setup,
{
    state.end_test();
    Step {
        mode: Mode::Setup,
        actions: vec![
            Action::Com(ComCmd::BICommand(end_test_command())),
            Action::File(FileCmd::CloseFile),
            Action::Notify(Notice::EndingTest),
        ],
    }
}

/// Answers an event in `Testing`.
pub fn testing(state: &mut TestState, event: Event) -> (step: Step)
    ensures
        step.amounts_to(final(state)@, testing_spec(old(state)@, event)),
        can_follow(Mode::Testing, step.mode),
        step.mode != Mode::Setup,
{
    match event {
        Event::SetCutoff(millivolts) => new_cutoff(state, Mode::Testing, millivolts),
        Event::ComReply(reply) => match reply.fault {
            Err(f) => Step {
                mode: Mode::Fault,
                actions: vec![Action::Notify(Notice::FaultDetails(f))],
            },
            Ok(()) => match reply.measurement {
                Some(m) => {
                    if m.vbat.0 > state.cutoff().0 {
                        let record = SaveData {
                            millivolts: m.vbat,
                            milliamps: m.ibat,
                            dt: m.t,
                            duration: 0,
                        };
                        Step {
                            mode: Mode::Testing,
                            actions: vec![Action::File(FileCmd::Push(record))],
                        }
                    } else {
                        Step { mode: Mode::EndTest, actions: vec![] }
                    }
                },
                None => Step { mode: Mode::Testing, actions: vec![] },
            },
        },
        Event::CommDc => Step { mode: Mode::CommDC, actions: vec![] },
        Event::StartTest => Step {
            mode: Mode::Testing,
            actions: vec![Action::Notify(Notice::Rejected(Rejection::AlreadyTesting))],
        },
        Event::CancelTest => Step { mode: Mode::EndTest, actions: vec![] },
        Event::Shutdown => Step { mode: Mode::Shutdown, actions: vec![] },
        Event::SetSerialDevice(_) => Step {
            mode: Mode::Testing,
            actions: vec![
                Action::Notify(Notice::Rejected(Rejection::CantChangeDeviceWhileTesting)),
            ],
        },
        Event::BattID(_) => Step {
            mode: Mode::Testing,
            actions: vec![
                Action::Notify(Notice::Rejected(Rejection::CantChangeBatteryWhileTesting)),
            ],
        },
        Event::FileError => Step { mode: Mode::EndTest, actions: vec![] },
        Event::ClearFault => Step {
            mode: Mode::Testing,
            actions: vec![Action::Notify(Notice::Rejected(Rejection::NoFaultToClear))],
        },
        Event::UnderCurrentResponse(allow) => {
            state.set_allow_undercurrent(allow);
            Step { mode: Mode::Testing, actions: vec![] }
        },
    }
}

/// Answers an event in `WaitForUsrStart`.
pub fn wait_for_usr_start(state: &mut TestState, event: Event) -> (step: Step)
    ensures
        step.amounts_to(final(state)@, wait_for_usr_start_spec(old(state)@, event)),
        can_follow(Mode::WaitForUsrStart, step.mode),
{
    match event {
        Event::BattID(id) => Step {
            mode: Mode::WaitForUsrStart,
            actions: vec![Action::CreateFile(id)],
        },
        Event::StartTest => Step { mode: Mode::Testing, actions: vec![] },
        Event::ComReply(reply) => match reply.fault {
            Ok(()) => match reply.measurement {
                Some(m) => {
                    if m.vbat.0 > state.cutoff().0 {
                        Step { mode: Mode::WaitForUsrStart, actions: vec![] }
                    } else {
                        Step { mode: Mode::WaitForBattery, actions: vec![] }
                    }
                },
                None => Step { mode: Mode::WaitForUsrStart, actions: vec![] },
            },
            Err(f) => Step {
                mode: Mode::Fault,
                actions: vec![Action::Notify(Notice::FaultDetails(f))],
            },
        },
        Event::SetCutoff(millivolts) => new_cutoff(state, Mode::WaitForUsrStart, millivolts),
        Event::CommDc => Step { mode: Mode::CommDC, actions: vec![] },
        Event::CancelTest => Step { mode: Mode::EndTest, actions: vec![] },
        Event::SetSerialDevice(_) => Step { mode: Mode::WaitForUsrStart, actions: vec![] },
        Event::Shutdown => Step { mode: Mode::Shutdown, actions: vec![] },
        Event::FileError => Step { mode: Mode::EndTest, actions: vec![] },
        Event::ClearFault => Step {
            mode: Mode::WaitForUsrStart,
            actions: vec![Action::Notify(Notice::Rejected(Rejection::NoFaultToClear))],
        },
        Event::UnderCurrentResponse(allow) => {
            state.set_allow_undercurrent(allow);
            Step { mode: Mode::WaitForUsrStart, actions: vec![] }
        },
    }
}

/// Answers an event in `WaitForBattery`.
pub fn wait_for_battery(state: &mut TestState, event: Event) -> (step: Step)
    ensures
        step.amounts_to(final(state)@, wait_for_battery_spec(old(state)@, event)),
        can_follow(Mode::WaitForBattery, step.mode),
{
    match event {
        Event::BattID(id) => Step {
            mode: Mode::WaitForBattery,
            actions: vec![Action::CreateFile(id)],
        },
        Event::SetCutoff(millivolts) => new_cutoff(state, Mode::WaitForBattery, millivolts),
        Event::StartTest => Step {
            mode: Mode::WaitForBattery,
            actions: vec![
                Action::Notify(Notice::Rejected(Rejection::CantStartWhileWaitingForBattery)),
            ],
        },
        Event::CommDc => Step { mode: Mode::CommDC, actions: vec![] },
        Event::ComReply(reply) => match reply.fault {
            Ok(()) => match reply.measurement {
                Some(m) => {
                    if m.vbat.0 > state.cutoff().0 {
                        Step { mode: Mode::WaitForUsrStart, actions: vec![] }
                    } else {
                        Step { mode: Mode::WaitForBattery, actions: vec![] }
                    }
                },
                None => Step { mode: Mode::WaitForBattery, actions: vec![] },
            },
            Err(f) => Step {
                mode: Mode::Fault,
                actions: vec![Action::Notify(Notice::FaultDetails(f))],
            },
        },
        Event::CancelTest => Step { mode: Mode::EndTest, actions: vec![] },
        Event::SetSerialDevice(_) => Step {
            mode: Mode::WaitForBattery,
            actions: vec![
                Action::Notify(
                    Notice::Rejected(Rejection::CantChangeDeviceWhileWaitingForBattery),
                ),
            ],
        },
        Event::Shutdown => Step { mode: Mode::Shutdown, actions: vec![] },
        Event::FileError => Step { mode: Mode::EndTest, actions: vec![] },
        Event::ClearFault => Step {
            mode: Mode::WaitForBattery,
            actions: vec![Action::Notify(Notice::Rejected(Rejection::NoFaultToClear))],
        },
        Event::UnderCurrentResponse(allow) => {
            state.set_allow_undercurrent(allow);
            Step { mode: Mode::WaitForBattery, actions: vec![] }
        },
    }
}

/// Answers an event in `Fault`.
pub fn fault(state: &mut TestState, event: Event) -> (step: Step)
    ensures
        step.amounts_to(final(state)@, fault_spec(old(state)@, event)),
        can_follow(Mode::Fault, step.mode),
{
    match event {
        Event::BattID(id) => Step { mode: Mode::Fault, actions: vec![Action::CreateFile(id)] },
        Event::SetSerialDevice(dev) => {
            let shown = dev.clone();
            Step {
                mode: Mode::Fault,
                actions: vec![
                    Action::Notify(Notice::SettingDeviceName(shown)),
                    Action::Com(ComCmd::NewDeviceName(dev)),
                ],
            }
        },
        Event::SetCutoff(millivolts) => new_cutoff(state, Mode::Fault, millivolts),
        Event::ComReply(reply) => match reply.fault {
            Ok(()) => Step {
                mode: Mode::Setup,
                actions: vec![Action::Notify(Notice::FaultCleared)],
            },
            Err(_) => Step { mode: Mode::Fault, actions: vec![] },
        },
        Event::Shutdown => Step { mode: Mode::Shutdown, actions: vec![] },
        Event::CommDc => Step {
            mode: Mode::Setup,
            actions: vec![Action::Notify(Notice::LostComms)],
        },
        Event::StartTest => Step {
            mode: Mode::Fault,
            actions: vec![
                Action::Notify(Notice::Rejected(Rejection::CantStartUntilFaultCleared)),
            ],
        },
        Event::CancelTest => Step { mode: Mode::Fault, actions: vec![] },
        Event::FileError => Step { mode: Mode::Fault, actions: vec![] },
        Event::ClearFault => Step {
            mode: Mode::Fault,
            actions: vec![Action::Com(ComCmd::ClearFault)],
        },
        Event::UnderCurrentResponse(allow) => {
            state.set_allow_undercurrent(allow);
            Step { mode: Mode::Fault, actions: vec![] }
        },
    }
}

/// Answers an event in `Setup`.
pub fn setup(state: &mut TestState, event: Event) -> (step: Step)
    ensures
        step.amounts_to(final(state)@, setup_spec(old(state)@, event)),
        can_follow(Mode::Setup, step.mode),
{
    match event {
        Event::BattID(id) => Step { mode: Mode::Setup, actions: vec![Action::CreateFile(id)] },
        Event::SetSerialDevice(dev) => {
            let shown = dev.clone();
            let name = dev.clone();
            state.new_device_name(dev);
            Step {
                mode: Mode::Setup,
                actions: vec![
                    Action::Notify(Notice::SettingDeviceName(shown)),
                    Action::Com(ComCmd::NewDeviceName(name)),
                    Action::Notify(Notice::ShowState),
                ],
            }
        },
        Event::SetCutoff(millivolts) => new_cutoff(state, Mode::Setup, millivolts),
        Event::ComReply(reply) => match reply.fault {
            Ok(()) => {
                let mut actions: Vec<Action> = Vec::new();
                if !state.got_first_reply() {
                    state.set_first_reply();
                    actions.push(Action::Notify(Notice::ShowState));
                }
                proof {
                    assert(actions@ =~= setup_spec(old(state)@, event).actions);
                }
                if state.ready_for_battery() {
                    Step { mode: Mode::WaitForBattery, actions }
                } else {
                    Step { mode: Mode::Setup, actions }
                }
            },
            Err(f) => Step {
                mode: Mode::Fault,
                actions: vec![Action::Notify(Notice::FaultDetails(f))],
            },
        },
        Event::Shutdown => Step { mode: Mode::Shutdown, actions: vec![] },
        Event::CommDc => {
            state.unset_first_reply();
            Step { mode: Mode::Setup, actions: vec![] }
        },
        Event::StartTest => Step {
            mode: Mode::Setup,
            actions: vec![Action::Notify(Notice::Rejected(Rejection::CantStartDuringSetup))],
        },
        Event::CancelTest => Step { mode: Mode::Setup, actions: vec![] },
        Event::FileError => {
            state.end_test();
            Step { mode: Mode::Setup, actions: vec![] }
        },
        Event::ClearFault => Step {
            mode: Mode::Setup,
            actions: vec![Action::Notify(Notice::Rejected(Rejection::NoFaultToClear))],
        },
        Event::UnderCurrentResponse(allow) => {
            state.set_allow_undercurrent(allow);
            Step { mode: Mode::Setup, actions: vec![] }
        },
    }
}

/// Goes on after the caller tried to create the output file that
/// [`Action::CreateFile`] asked for; `created` tells whether it exists now.
pub fn file_created(mode: Mode, state: &mut TestState, id: BatteryID, created: bool) -> (step:
    Step)
    ensures
        step.amounts_to(final(state)@, file_created_spec(mode, old(state)@, id, created)),
        can_follow(mode, step.mode),
{
    match mode {
        Mode::Setup => {
            if created {
                state.new_batt_id(id);
                if state.ready_for_battery() {
                    Step {
                        mode: Mode::WaitForBattery,
                        actions: vec![Action::File(FileCmd::NewFile)],
                    }
                } else {
                    Step {
                        mode: Mode::Setup,
                        actions: vec![
                            Action::File(FileCmd::NewFile),
                            Action::Notify(Notice::ShowState),
                        ],
                    }
                }
            } else {
                state.end_test();
                Step { mode: Mode::Setup, actions: vec![Action::Notify(Notice::FileCreateFailed)] }
            }
        },
        Mode::WaitForBattery | Mode::WaitForUsrStart => {
            if created {
                state.new_batt_id(id);
                Step { mode, actions: vec![Action::File(FileCmd::NewFile)] }
            } else {
                Step {
                    mode: Mode::EndTest,
                    actions: vec![Action::Notify(Notice::FileCreateFailed)],
                }
            }
        },
        Mode::Fault => {
            if created {
                state.new_batt_id(id);
                Step { mode: Mode::Fault, actions: vec![Action::File(FileCmd::NewFile)] }
            } else {
                state.end_test();
                Step { mode: Mode::Fault, actions: vec![Action::Notify(Notice::FileCreateFailed)] }
            }
        },
        Mode::Testing | Mode::EndTest | Mode::CommDC | Mode::Shutdown => Step {
            mode,
            actions: vec![],
        },
    }
}

/// One turn of the session: takes what the event channel yielded and
/// answers it in the current state.
pub fn program_event(mode: Mode, state: &mut TestState, input: Option<Event>) -> (step: Step)
    ensures
        step.amounts_to(final(state)@, program_spec(mode, old(state)@, input)),
        input.is_some() ==> can_follow(mode, step.mode),
        input.is_none() ==> step.mode == Mode::Shutdown,
{
    match input {
        None => Step { mode: Mode::Shutdown, actions: vec![] },
        Some(event) => match mode {
            Mode::Setup => setup(state, event),
            Mode::WaitForBattery => wait_for_battery(state, event),
            Mode::WaitForUsrStart => wait_for_usr_start(state, event),
            Mode::Testing => testing(state, event),
            Mode::Fault => fault(state, event),
            Mode::EndTest | Mode::CommDC | Mode::Shutdown => Step { mode, actions: vec![] },
        },
    }
}

/// A run of the session: each state follows the one before it in one step.
pub open spec fn is_run(modes: Seq<Mode>) -> bool {
    forall|i: int| 0 <= i < modes.len() - 1 ==> can_follow(#[trigger] modes[i], modes[i + 1])
}

/// Whatever the settings and the input, an event moves the session only
/// along [`can_follow`].
pub proof fn lemma_event_follows(mode: Mode, s: TestStateView, event: Event)
    ensures
        can_follow(mode, event_spec(mode, s, event).mode),
{
}

/// Whatever the settings, the outcome of creating a file moves the session
/// only along [`can_follow`].
pub proof fn lemma_file_created_follows(mode: Mode, s: TestStateView, id: BatteryID, created: bool)
    ensures
        can_follow(mode, file_created_spec(mode, s, id, created).mode),
{
}

/// Entering a state moves the session only along [`can_follow`].
pub proof fn lemma_enter_follows(mode: Mode, s: TestStateView)
    ensures
        can_follow(mode, enter_spec(mode, s).mode),
{
}

/// `Setup` is reached in one step only from `Setup` itself, `EndTest`,
/// `Fault` or `CommDC`; in particular never from `Testing`.
pub proof fn lemma_setup_predecessors(from: Mode)
    requires
        can_follow(from, Mode::Setup),
    ensures
        from == Mode::Setup || from == Mode::EndTest || from == Mode::Fault || from
            == Mode::CommDC,
{
}

/// `Setup` is left for `WaitForBattery` only with settings that are ready
/// for a battery: label and device known, and a first reply received.
pub proof fn lemma_setup_leaves_when_ready(
    s: TestStateView,
    event: Event,
    id: BatteryID,
    created: bool,
)
    ensures
        event_spec(Mode::Setup, s, event).mode == Mode::WaitForBattery ==> event_spec(
            Mode::Setup,
            s,
            event,
        ).state.ready_for_battery(),
        file_created_spec(Mode::Setup, s, id, created).mode == Mode::WaitForBattery
            ==> file_created_spec(Mode::Setup, s, id, created).state.ready_for_battery(),
{
}

/// In `Testing`, a good reply with a measurement above the cutoff is
/// recorded and the test goes on; one at or under the cutoff ends the test
/// and records nothing.
pub proof fn lemma_testing_records_above_cutoff(s: TestStateView, m: Measurement)
    ensures
        ({
            let t = testing_spec(
                s,
                Event::ComReply(BIReply { measurement: Some(m), fault: Ok(()) }),
            );
            if m.vbat.0 > s.cutoff.0 {
                t.mode == Mode::Testing && t.actions == seq![
                    Action::File(FileCmd::Push(record_of(m))),
                ]
            } else {
                t.mode == Mode::EndTest && t.actions == Seq::<Action>::empty()
            }
        }),
{
    let t = testing_spec(s, Event::ComReply(BIReply { measurement: Some(m), fault: Ok(()) }));
    if m.vbat.0 <= s.cutoff.0 {
        assert(t.actions =~= Seq::<Action>::empty());
    }
}

/// A fault in a reply takes precedence over a measurement in the same
/// reply: in every state that works with the battery interface the session
/// goes to `Fault`, shows the fault and does nothing else, whatever the
/// reply measured.
pub proof fn lemma_fault_takes_precedence(mode: Mode, s: TestStateView, reply: BIReply)
    requires
        mode == Mode::Setup || mode == Mode::WaitForBattery || mode == Mode::WaitForUsrStart
            || mode == Mode::Testing,
        reply.fault is Err,
    ensures
        event_spec(mode, s, Event::ComReply(reply)) == (Transition {
            state: s,
            mode: Mode::Fault,
            actions: seq![Action::Notify(Notice::FaultDetails(reply.fault->Err_0))],
        }),
{
}

/// Whether an action commands the load on.
pub open spec fn commands_load_on(action: Action) -> bool {
    action matches Action::Com(ComCmd::BICommand(c)) && c.load == crate::protocol::LoadState::On
}

/// While the session is in `Fault` it never commands the load on: entering
/// the state commands it off, and no event there sends a command that turns
/// it on. The load is commanded on only on entering `Testing`.
pub proof fn lemma_fault_keeps_load_off(
    s: TestStateView,
    event: Event,
    id: BatteryID,
    created: bool,
)
    ensures
        enter_spec(Mode::Fault, s).actions[0] == Action::Com(ComCmd::BICommand(idle_command())),
        forall|i: int|
            0 <= i < enter_spec(Mode::Fault, s).actions.len() ==> !commands_load_on(
                #[trigger] enter_spec(Mode::Fault, s).actions[i],
            ),
        forall|i: int|
            0 <= i < fault_spec(s, event).actions.len() ==> !commands_load_on(
                #[trigger] fault_spec(s, event).actions[i],
            ),
        forall|i: int|
            0 <= i < file_created_spec(Mode::Fault, s, id, created).actions.len()
                ==> !commands_load_on(
                #[trigger] file_created_spec(Mode::Fault, s, id, created).actions[i],
            ),
{
}

/// `Shutdown` is final: no step leaves it.
pub proof fn lemma_shutdown_is_final(to: Mode)
    requires
        can_follow(Mode::Shutdown, to),
    ensures
        to == Mode::Shutdown,
{
}

/// In every run, a session that is in `Testing` at step `i` and in `Setup`
/// at a later step `j` was in `EndTest`, `Fault` or `CommDC` in between.
pub proof fn lemma_testing_leaves_through_end(modes: Seq<Mode>, i: int, j: int)
    requires
        is_run(modes),
        0 <= i < j < modes.len(),
        modes[i] == Mode::Testing,
        modes[j] == Mode::Setup,
    ensures
        exists|k: int|
            i < k < j && (#[trigger] modes[k] == Mode::EndTest || modes[k] == Mode::Fault
                || modes[k] == Mode::CommDC),
    decreases j - i,
{
    let before = modes[j - 1];
    assert(can_follow(modes[j - 1], modes[j - 1 + 1]));
    lemma_setup_predecessors(before);
    if before == Mode::Setup {
        lemma_testing_leaves_through_end(modes, i, j - 1);
        let k = choose|k: int|
            i < k < j - 1 && (#[trigger] modes[k] == Mode::EndTest || modes[k] == Mode::Fault
                || modes[k] == Mode::CommDC);
        assert(i < k < j && (modes[k] == Mode::EndTest || modes[k] == Mode::Fault || modes[k]
            == Mode::CommDC));
    } else {
        let k = j - 1;
        assert(i < k < j && (modes[k] == Mode::EndTest || modes[k] == Mode::Fault || modes[k]
            == Mode::CommDC));
    }
}

} // verus!

//! The power control of the battery interface: it waits for a battery,
//! sets the sensor up, then samples, watches the load and answers the host
//! until a fault latches or the host asks for a reset. The caller owns the
//! pins, the bus, the serial port and the clock: it reports what happened,
//! with the time, and carries out what is returned.

use vstd::prelude::*;
use crate::clock::{elapsed, elapsed_ms, later, later_ms};
use crate::daq::{DaqDataQueue, DaqDataQueueView};
use crate::protocol::{
    AllowUndercurrent, BIReply, BiCommand, ClearFault, Fault, FaultKind, I2CError, Measurement,
    Reset, TiwmError,
};
use crate::pwm::{compare_value, watchdog_verdict, HeaterCmd, PwmCtrl};
use crate::units::{MilliAmp, MilliVolt};

verus! {

/// How long the battery must stay connected before it is trusted, in
/// milliseconds.
pub const BAT_CONNECT_DEBOUNCE_MS: u64 = 250;

/// The interval between samples, in milliseconds.
pub const DAQ_INTERVAL_MS: u64 = 100;

/// The heater is turned off when no command arrives for this long, in
/// milliseconds.
pub const COM_TIMEOUT: u64 = 1_250;

/// How long the fault-clear button must be held, in milliseconds.
pub const FAULT_CLEAR_HOLD_MS: u64 = 1_000;

/// The state of the power control.
#[derive(Debug, Clone, Copy, PartialEq, Eq, Structural)]
pub enum PowerState {
    /// Waiting for the battery to be present for the debounce interval.
    AwaitInitialBattery,
    /// The sensor is being configured.
    InitI2C,
    /// Sampling, watching the load, answering commands.
    Running,
    /// A fault is latched until it is acknowledged.
    AwaitFaultClear,
    /// Waiting for the battery to be disconnected and connected again.
    AwaitReconnect,
}

/// What one round of sampling found.
#[derive(Debug, Clone, Copy, PartialEq, Eq, Structural)]
pub enum DaqObservation {
    /// The battery was absent before or after the sensor was read.
    BatteryAbsent,
    /// Reading the current failed.
    CurrentFailed(TiwmError),
    /// Reading the voltage failed.
    VoltageFailed(TiwmError),
    /// Both readings, with the battery present before and after.
    Reading { milliamps: MilliAmp, millivolts: MilliVolt },
}

/// What the caller reports.
#[derive(Debug, Clone, Copy, PartialEq, Eq)]
pub enum PowerEvent {
    /// The battery-present input is high (`true`) or low.
    Battery(bool),
    /// The fault-clear button is held down (`true`) or released.
    Button(bool),
    /// The host sent a command.
    Command(BiCommand),
    /// The outcome of [`PowerRequest::InitSensor`].
    SensorReady(Result<(), I2CError>),
    /// The outcome of [`PowerRequest::Sample`].
    Sample(DaqObservation),
    /// Time has passed.
    Tick,
}

/// Work that the caller does on the bus and reports back.
#[derive(Debug, Clone, Copy, PartialEq, Eq, Structural)]
pub enum PowerRequest {
    Nothing,
    /// Write the sensor's configuration and read its die identification,
    /// then report [`PowerEvent::SensorReady`].
    InitSensor,
    /// Check the battery, read current and voltage, check the battery again,
    /// then report [`PowerEvent::Sample`].
    Sample,
}

/// What the caller carries out after a step.
#[derive(Debug, Clone, Copy, PartialEq, Eq)]
pub struct PowerOutput {
    /// A frame for the host.
    pub reply: Option<BIReply>,
    /// A compare value to program into the heater's channel.
    pub duty: Option<u16>,
    /// Work on the bus.
    pub request: PowerRequest,
}

/// The power control.
#[derive(Debug, Clone, Copy)]
pub struct PowerControl {
    state: PowerState,
    pwm: PwmCtrl,
    queue: DaqDataQueue,
    pending: Option<Measurement>,
    allow_undercurrent: AllowUndercurrent,
    fault: Option<Fault>,
    retry_init: bool,
    battery_present: bool,
    seen_disconnect: bool,
    battery_since: Option<u64>,
    button_since: Option<u64>,
    next_daq: u64,
    comm_deadline: u64,
}

/// What a [`PowerControl`] holds.
pub struct PowerView {
    pub state: PowerState,
    /// The heater's controller.
    pub pwm: PwmCtrl,
    /// The sample queue.
    pub queue: DaqDataQueueView,
    /// The measurement that the next reply carries.
    pub pending: Option<Measurement>,
    /// The host's last word on undercurrent.
    pub allow_undercurrent: AllowUndercurrent,
    /// The latched fault.
    pub fault: Option<Fault>,
    /// Whether the latched fault arose while the sensor was set up, so that
    /// clearing it leads back there.
    pub retry_init: bool,
    /// Whether the battery was present when last heard of.
    pub battery_present: bool,
    /// Whether the battery was absent at some time since a reconnect was
    /// asked for.
    pub seen_disconnect: bool,
    /// Since when the battery is present without a break, while that
    /// counts.
    pub battery_since: Option<u64>,
    /// Since when the fault-clear button is held.
    pub button_since: Option<u64>,
    /// When the next sample is due.
    pub next_daq: u64,
    /// When the host counts as silent.
    pub comm_deadline: u64,
}

/// The reply that reports nothing: no measurement, no fault.
pub open spec fn quiet_reply() -> BIReply {
    BIReply { measurement: None, fault: Ok(()) }
}

/// The reply that reports a fault.
pub open spec fn fault_reply(fault: Fault) -> BIReply {
    BIReply { measurement: None, fault: Err(fault) }
}

/// Nothing for the caller to do.
pub open spec fn no_output() -> PowerOutput {
    PowerOutput { reply: None, duty: None, request: PowerRequest::Nothing }
}

/// Only a frame for the host.
pub open spec fn only_reply(reply: BIReply) -> PowerOutput {
    PowerOutput { reply: Some(reply), duty: None, request: PowerRequest::Nothing }
}

/// The measurement that a completed batch is reported as.
pub open spec fn measurement_of(pwr: (MilliVolt, MilliAmp, u64)) -> Measurement {
    Measurement { vbat: pwr.0, ibat: pwr.1, t: pwr.2 }
}

/// The heater's controller after `cmd` is commanded at `now`.
pub open spec fn commanded(pwm: PwmCtrl, cmd: HeaterCmd, now: u64) -> PwmCtrl {
    PwmCtrl { cmd, change_time: if pwm.cmd == cmd { pwm.change_time } else { now } }
}

/// What one round of sampling at `now` amounts to: the queue afterwards, and
/// a fault, a completed batch, or nothing yet.
pub open spec fn daq_spec(
    pwm: PwmCtrl,
    queue: DaqDataQueueView,
    allow_undercurrent: AllowUndercurrent,
    now: u64,
    obs: DaqObservation,
) -> (DaqDataQueueView, Result<Option<Measurement>, FaultKind>) {
    match obs {
        DaqObservation::BatteryAbsent => (queue, Err(FaultKind::NoBattery)),
        DaqObservation::CurrentFailed(e) => (
            queue,
            Err(FaultKind::I2C(I2CError::InaVinCurrent(e))),
        ),
        DaqObservation::VoltageFailed(e) => (
            queue,
            Err(FaultKind::I2C(I2CError::InaVinVoltage(e))),
        ),
        DaqObservation::Reading { milliamps, millivolts } => match watchdog_verdict(
            pwm.cmd,
            elapsed_ms(now, pwm.change_time),
            millivolts,
            milliamps,
            allow_undercurrent,
        ) {
            Err(kind) => (queue, Err(kind)),
            Ok(_) => (
                queue.pushed(milliamps, millivolts, now),
                Ok(
                    match queue.report(milliamps, millivolts, now) {
                        Some(pwr) => Some(measurement_of(pwr)),
                        None => None,
                    },
                ),
            ),
        },
    }
}

impl PowerView {
    /// The power control at start-up: waiting for the battery, heater off.
    pub open spec fn initial(now: u64) -> PowerView {
        PowerView {
            state: PowerState::AwaitInitialBattery,
            pwm: PwmCtrl { cmd: HeaterCmd::Off, change_time: now },
            queue: DaqDataQueueView::empty(),
            pending: None,
            allow_undercurrent: AllowUndercurrent::No,
            fault: None,
            retry_init: false,
            battery_present: false,
            seen_disconnect: false,
            battery_since: None,
            button_since: None,
            next_daq: 0,
            comm_deadline: 0,
        }
    }

    /// The power control after it took note of where the battery is, as far
    /// as `event` tells.
    pub open spec fn noted(self, event: PowerEvent) -> PowerView {
        match event {
            PowerEvent::Battery(present) => PowerView { battery_present: present, ..self },
            PowerEvent::Sample(DaqObservation::BatteryAbsent) => PowerView {
                battery_present: false,
                ..self
            },
            _ => self,
        }
    }

    /// What always holds: the queue is well formed, the heater is commanded
    /// off in every state but `Running`, and a fault is latched exactly in
    /// `AwaitFaultClear`.
    pub open spec fn wf(self) -> bool {
        &&& self.queue.wf()
        &&& self.state != PowerState::Running ==> self.pwm.cmd == HeaterCmd::Off
        &&& self.fault is Some <==> self.state == PowerState::AwaitFaultClear
    }

    /// Whether the battery has been present for the debounce interval.
    pub open spec fn battery_settled(self, now: u64) -> bool {
        self.battery_since matches Some(since) && elapsed_ms(now, since)
            >= BAT_CONNECT_DEBOUNCE_MS
    }

    /// Whether the fault-clear button has been held long enough.
    pub open spec fn button_held(self, now: u64) -> bool {
        self.button_since matches Some(since) && elapsed_ms(now, since) >= FAULT_CLEAR_HOLD_MS
    }

    /// Going on to set the sensor up.
    pub open spec fn to_init(self) -> (PowerView, PowerOutput) {
        (
            PowerView {
                state: PowerState::InitI2C,
                fault: None,
                battery_since: None,
                button_since: None,
                ..self
            },
            PowerOutput { reply: None, duty: None, request: PowerRequest::InitSensor },
        )
    }

    /// Latching a fault at `now`: the heater is commanded off, the fault is
    /// reported at once, and nothing is pending any more.
    pub open spec fn latched(self, kind: FaultKind, retry_init: bool, now: u64) -> (
        PowerView,
        PowerOutput,
    ) {
        let fault = Fault { kind, time: now };
        (
            PowerView {
                state: PowerState::AwaitFaultClear,
                pwm: commanded(self.pwm, HeaterCmd::Off, now),
                pending: None,
                fault: Some(fault),
                retry_init,
                button_since: None,
                ..self
            },
            PowerOutput {
                reply: Some(fault_reply(fault)),
                duty: Some(compare_value(HeaterCmd::Off)),
                request: PowerRequest::Nothing,
            },
        )
    }

    /// A fault is acknowledged: the host is told, and the control goes on to
    /// set the sensor up again where the fault arose there, and to wait for
    /// a reconnect otherwise.
    pub open spec fn cleared(self) -> (PowerView, PowerOutput) {
        if self.retry_init {
            (
                self.to_init().0,
                PowerOutput {
                    reply: Some(quiet_reply()),
                    duty: None,
                    request: PowerRequest::InitSensor,
                },
            )
        } else {
            (
                PowerView {
                    state: PowerState::AwaitReconnect,
                    fault: None,
                    seen_disconnect: !self.battery_present,
                    battery_since: None,
                    button_since: None,
                    ..self
                },
                only_reply(quiet_reply()),
            )
        }
    }

    /// `AwaitInitialBattery`: the battery must be present for the debounce
    /// interval without a break; commands are answered meanwhile.
    pub open spec fn wait_bat_present(self, now: u64, event: PowerEvent) -> (
        PowerView,
        PowerOutput,
    ) {
        match event {
            PowerEvent::Battery(true) => (
                PowerView {
                    battery_since: if self.battery_since is Some {
                        self.battery_since
                    } else {
                        Some(now)
                    },
                    ..self
                },
                no_output(),
            ),
            PowerEvent::Battery(false) => (
                PowerView { battery_since: None, ..self },
                no_output(),
            ),
            PowerEvent::Tick => if self.battery_settled(now) {
                self.to_init()
            } else {
                (self, no_output())
            },
            PowerEvent::Command(_) => (self, only_reply(quiet_reply())),
            _ => (self, no_output()),
        }
    }

    /// `AwaitReconnect`: the battery must be seen absent, then present for
    /// the debounce interval without a break; commands are answered
    /// meanwhile.
    pub open spec fn wait_bat_reconnect(self, now: u64, event: PowerEvent) -> (
        PowerView,
        PowerOutput,
    ) {
        match event {
            PowerEvent::Battery(true) => (
                PowerView {
                    battery_since: if self.seen_disconnect && self.battery_since is None {
                        Some(now)
                    } else {
                        self.battery_since
                    },
                    ..self
                },
                no_output(),
            ),
            PowerEvent::Battery(false) => (
                PowerView { seen_disconnect: true, battery_since: None, ..self },
                no_output(),
            ),
            PowerEvent::Tick => if self.battery_settled(now) {
                self.to_init()
            } else {
                (self, no_output())
            },
            PowerEvent::Command(_) => (self, only_reply(quiet_reply())),
            _ => (self, no_output()),
        }
    }

    /// `InitI2C`: a sensor that is set up starts the sampling with an empty
    /// queue; a failure latches a fault that leads back here.
    pub open spec fn init_i2c(self, now: u64, event: PowerEvent) -> (PowerView, PowerOutput) {
        match event {
            PowerEvent::SensorReady(Ok(_)) => (
                PowerView {
                    state: PowerState::Running,
                    queue: DaqDataQueueView::empty(),
                    pending: None,
                    allow_undercurrent: AllowUndercurrent::No,
                    next_daq: later_ms(now, DAQ_INTERVAL_MS),
                    comm_deadline: later_ms(now, COM_TIMEOUT),
                    ..self
                },
                no_output(),
            ),
            PowerEvent::SensorReady(Err(e)) => self.latched(FaultKind::I2C(e), true, now),
            PowerEvent::Command(_) => (self, only_reply(quiet_reply())),
            _ => (self, no_output()),
        }
    }

    /// `AwaitFaultClear`: every command is answered with the fault until one
    /// acknowledges it, or the button is held long enough. The heater is
    /// left alone, whatever load a command asks for.
    pub open spec fn wait_fault_clear(self, now: u64, event: PowerEvent) -> (
        PowerView,
        PowerOutput,
    ) {
        match event {
            PowerEvent::Command(cmd) => if cmd.clear_fault == ClearFault::Yes {
                self.cleared()
            } else {
                match self.fault {
                    Some(fault) => (self, only_reply(fault_reply(fault))),
                    None => (self, only_reply(quiet_reply())),
                }
            },
            PowerEvent::Button(true) => (
                PowerView {
                    button_since: if self.button_since is Some {
                        self.button_since
                    } else {
                        Some(now)
                    },
                    ..self
                },
                no_output(),
            ),
            PowerEvent::Button(false) => (PowerView { button_since: None, ..self }, no_output()),
            PowerEvent::Tick => if self.button_held(now) {
                self.cleared()
            } else {
                (self, no_output())
            },
            _ => (self, no_output()),
        }
    }

    /// `Running`: a tick turns the heater off when the host is silent and
    /// asks for a sample when one is due; a sample is judged and queued; a
    /// command sets the heater and is answered with what is pending.
    pub open spec fn power_ctrl_loop(self, now: u64, event: PowerEvent) -> (
        PowerView,
        PowerOutput,
    ) {
        match event {
            PowerEvent::Tick => {
                let silent = now >= self.comm_deadline;
                let due = now >= self.next_daq;
                (
                    PowerView {
                        pwm: if silent {
                            commanded(self.pwm, HeaterCmd::Off, now)
                        } else {
                            self.pwm
                        },
                        comm_deadline: if silent {
                            later_ms(now, COM_TIMEOUT)
                        } else {
                            self.comm_deadline
                        },
                        next_daq: if due {
                            later_ms(now, DAQ_INTERVAL_MS)
                        } else {
                            self.next_daq
                        },
                        ..self
                    },
                    PowerOutput {
                        reply: None,
                        duty: if silent {
                            Some(compare_value(HeaterCmd::Off))
                        } else {
                            None
                        },
                        request: if due {
                            PowerRequest::Sample
                        } else {
                            PowerRequest::Nothing
                        },
                    },
                )
            },
            PowerEvent::Sample(obs) => {
                let (queue, found) = daq_spec(
                    self.pwm,
                    self.queue,
                    self.allow_undercurrent,
                    now,
                    obs,
                );
                match found {
                    Err(kind) => self.latched(kind, false, now),
                    Ok(Some(m)) => (
                        PowerView { queue, pending: Some(m), ..self },
                        no_output(),
                    ),
                    Ok(None) => (PowerView { queue, ..self }, no_output()),
                }
            },
            PowerEvent::Command(cmd) => {
                let reply = BIReply { measurement: self.pending, fault: Ok(()) };
                let asked = commanded(self.pwm, HeaterCmd::of_load(cmd.load), now);
                if cmd.reset == Reset::Yes {
                    (
                        PowerView {
                            state: PowerState::AwaitReconnect,
                            pwm: commanded(asked, HeaterCmd::Off, now),
                            pending: None,
                            seen_disconnect: !self.battery_present,
                            battery_since: None,
                            ..self
                        },
                        PowerOutput {
                            reply: Some(reply),
                            duty: Some(compare_value(HeaterCmd::Off)),
                            request: PowerRequest::Nothing,
                        },
                    )
                } else {
                    (
                        PowerView {
                            pwm: asked,
                            pending: None,
                            allow_undercurrent: cmd.allow_undercurrent,
                            comm_deadline: later_ms(now, COM_TIMEOUT),
                            ..self
                        },
                        PowerOutput {
                            reply: Some(reply),
                            duty: Some(compare_value(HeaterCmd::of_load(cmd.load))),
                            request: PowerRequest::Nothing,
                        },
                    )
                }
            },
            _ => (self, no_output()),
        }
    }

    /// One step of the power control: what `event`, reported at `now`,
    /// leads to in the current state, once note is taken of where the
    /// battery is.
    pub open spec fn power_task(self, now: u64, event: PowerEvent) -> (PowerView, PowerOutput) {
        let noted = self.noted(event);
        match self.state {
            PowerState::AwaitInitialBattery => noted.wait_bat_present(now, event),
            PowerState::InitI2C => noted.init_i2c(now, event),
            PowerState::Running => noted.power_ctrl_loop(now, event),
            PowerState::AwaitFaultClear => noted.wait_fault_clear(now, event),
            PowerState::AwaitReconnect => noted.wait_bat_reconnect(now, event),
        }
    }

    /// When the caller should report a tick at the latest, if ever.
    pub open spec fn next_deadline(self) -> Option<u64> {
        match self.state {
            PowerState::AwaitInitialBattery
            | PowerState::AwaitReconnect => match self.battery_since {
                Some(since) => Some(later_ms(since, BAT_CONNECT_DEBOUNCE_MS)),
                None => None,
            },
            PowerState::InitI2C => None,
            PowerState::Running => Some(
                if self.next_daq <= self.comm_deadline {
                    self.next_daq
                } else {
                    self.comm_deadline
                },
            ),
            PowerState::AwaitFaultClear => match self.button_since {
                Some(since) => Some(later_ms(since, FAULT_CLEAR_HOLD_MS)),
                None => None,
            },
        }
    }
}

impl View for PowerControl {
    type V = PowerView;

    closed spec fn view(&self) -> PowerView {
        PowerView {
            state: self.state,
            pwm: self.pwm,
            queue: self.queue@,
            pending: self.pending,
            allow_undercurrent: self.allow_undercurrent,
            fault: self.fault,
            retry_init: self.retry_init,
            battery_present: self.battery_present,
            seen_disconnect: self.seen_disconnect,
            battery_since: self.battery_since,
            button_since: self.button_since,
            next_daq: self.next_daq,
            comm_deadline: self.comm_deadline,
        }
    }
}

/// The measurement that a completed batch is reported as.
pub fn daq_to_measurement(pwr: (MilliVolt, MilliAmp, u64)) -> (m: Measurement)
    ensures
        m == measurement_of(pwr),
{
    Measurement { vbat: pwr.0, ibat: pwr.1, t: pwr.2 }
}

/// One round of sampling at `now`: a battery that is absent or a reading
/// that failed is a fault; a reading that the watchdog accepts is queued,
/// and reported when it completes a batch.
pub fn daq(
    obs: DaqObservation,
    pwm_ctrl: &PwmCtrl,
    daq_queue: &mut DaqDataQueue,
    allow_undercurrent: AllowUndercurrent,
    now: u64,
) -> (r: Result<Option<Measurement>, FaultKind>)
    ensures
        (final(daq_queue)@, r) == daq_spec(
            *pwm_ctrl,
            old(daq_queue)@,
            allow_undercurrent,
            now,
            obs,
        ),
{
    match obs {
        DaqObservation::BatteryAbsent => Err(FaultKind::NoBattery),
        DaqObservation::CurrentFailed(e) => Err(FaultKind::I2C(I2CError::InaVinCurrent(e))),
        DaqObservation::VoltageFailed(e) => Err(FaultKind::I2C(I2CError::InaVinVoltage(e))),
        DaqObservation::Reading { milliamps, millivolts } => {
            match pwm_ctrl.watchdog_at(millivolts, milliamps, allow_undercurrent, now) {
                Err(kind) => Err(kind),
                Ok(_) => match daq_queue.push_at(milliamps, millivolts, now) {
                    Some(pwr) => Ok(Some(daq_to_measurement(pwr))),
                    None => Ok(None),
                },
            }
        },
    }
}

impl PowerControl {
    #[verifier::type_invariant]
    spec fn inv(self) -> bool {
        &&& self.state != PowerState::Running ==> self.pwm.cmd == HeaterCmd::Off
        &&& self.fault is Some <==> self.state == PowerState::AwaitFaultClear
    }

    /// The power control at start-up.
    pub fn new(now: u64) -> (r: Self)
        ensures
            r@ == PowerView::initial(now),
            r@.wf(),
    {
        PowerControl {
            state: PowerState::AwaitInitialBattery,
            pwm: PwmCtrl::new_at(now),
            queue: DaqDataQueue::default_const(),
            pending: None,
            allow_undercurrent: AllowUndercurrent::No,
            fault: None,
            retry_init: false,
            battery_present: false,
            seen_disconnect: false,
            battery_since: None,
            button_since: None,
            next_daq: 0,
            comm_deadline: 0,
        }
    }

    /// The current state.
    pub fn state(&self) -> (r: PowerState)
        ensures
            r == self@.state,
    {
        self.state
    }

    /// The position that the heater is commanded to: off in every state but
    /// `Running`.
    pub fn heater(&self) -> (r: HeaterCmd)
        ensures
            r == self@.pwm.cmd,
            self@.state != PowerState::Running ==> r == HeaterCmd::Off,
    {
        proof {
            use_type_invariant(self);
        }
        self.pwm.cmd
    }

    /// The latched fault: there is one exactly in `AwaitFaultClear`.
    pub fn fault(&self) -> (r: Option<Fault>)
        ensures
            r == self@.fault,
            r is Some <==> self@.state == PowerState::AwaitFaultClear,
    {
        proof {
            use_type_invariant(self);
        }
        self.fault
    }

    /// When the caller should report a tick at the latest, if ever.
    pub fn next_deadline(&self) -> (r: Option<u64>)
        ensures
            r == self@.next_deadline(),
    {
        match self.state {
            PowerState::AwaitInitialBattery
            | PowerState::AwaitReconnect => match self.battery_since {
                Some(since) => Some(later(since, BAT_CONNECT_DEBOUNCE_MS)),
                None => None,
            },
            PowerState::InitI2C => None,
            PowerState::Running => Some(
                if self.next_daq <= self.comm_deadline {
                    self.next_daq
                } else {
                    self.comm_deadline
                },
            ),
            PowerState::AwaitFaultClear => match self.button_since {
                Some(since) => Some(later(since, FAULT_CLEAR_HOLD_MS)),
                None => None,
            },
        }
    }

    /// Goes on to set the sensor up.
    fn to_init(&mut self) -> (out: PowerOutput)
        requires
            old(self)@.state != PowerState::Running,
        ensures
            (final(self)@, out) == old(self)@.to_init(),
    {
        proof {
            use_type_invariant(&*self);
        }
        *self = PowerControl {
            state: PowerState::InitI2C,
            fault: None,
            battery_since: None,
            button_since: None,
            ..*self
        };
        PowerOutput { reply: None, duty: None, request: PowerRequest::InitSensor }
    }

    /// Latches a fault: heater off, the fault reported.
    fn latch(&mut self, kind: FaultKind, retry_init: bool, now: u64) -> (out: PowerOutput)
        ensures
            (final(self)@, out) == old(self)@.latched(kind, retry_init, now),
    {
        let fault = Fault { kind, time: now };
        let mut pwm = self.pwm;
        let duty = pwm.set_cmd_at(HeaterCmd::Off, now);
        *self = PowerControl {
            state: PowerState::AwaitFaultClear,
            pwm,
            pending: None,
            fault: Some(fault),
            retry_init,
            button_since: None,
            ..*self
        };
        PowerOutput {
            reply: Some(BIReply { measurement: None, fault: Err(fault) }),
            duty: Some(duty),
            request: PowerRequest::Nothing,
        }
    }

    /// Acknowledges the latched fault.
    fn clear(&mut self) -> (out: PowerOutput)
        requires
            old(self)@.state != PowerState::Running,
        ensures
            (final(self)@, out) == old(self)@.cleared(),
    {
        proof {
            use_type_invariant(&*self);
        }
        let reply = BIReply { measurement: None, fault: Ok(()) };
        if self.retry_init {
            let _ = self.to_init();
            PowerOutput { reply: Some(reply), duty: None, request: PowerRequest::InitSensor }
        } else {
            *self = PowerControl {
                state: PowerState::AwaitReconnect,
                fault: None,
                seen_disconnect: !self.battery_present,
                battery_since: None,
                button_since: None,
                ..*self
            };
            PowerOutput { reply: Some(reply), duty: None, request: PowerRequest::Nothing }
        }
    }

    /// Whether the battery has been present for the debounce interval.
    fn battery_settled(&self, now: u64) -> (r: bool)
        ensures
            r == self@.battery_settled(now),
    {
        match self.battery_since {
            Some(since) => elapsed(now, since) >= BAT_CONNECT_DEBOUNCE_MS,
            None => false,
        }
    }

    /// Answers an event in `AwaitInitialBattery`.
    fn wait_bat_present(&mut self, now: u64, event: PowerEvent) -> (out: PowerOutput)
        requires
            old(self)@.state == PowerState::AwaitInitialBattery,
        ensures
            (final(self)@, out) == old(self)@.wait_bat_present(now, event),
    {
        proof {
            use_type_invariant(&*self);
        }
        match event {
            PowerEvent::Battery(true) => {
                if self.battery_since.is_none() {
                    self.battery_since = Some(now);
                }
                quiet()
            },
            PowerEvent::Battery(false) => {
                self.battery_since = None;
                quiet()
            },
            PowerEvent::Tick => {
                if self.battery_settled(now) {
                    self.to_init()
                } else {
                    quiet()
                }
            },
            PowerEvent::Command(_) => answer(BIReply { measurement: None, fault: Ok(()) }),
            _ => quiet(),
        }
    }

    /// Answers an event in `AwaitReconnect`.
    fn wait_bat_reconnect(&mut self, now: u64, event: PowerEvent) -> (out: PowerOutput)
        requires
            old(self)@.state == PowerState::AwaitReconnect,
        ensures
            (final(self)@, out) == old(self)@.wait_bat_reconnect(now, event),
    {
        proof {
            use_type_invariant(&*self);
        }
        match event {
            PowerEvent::Battery(true) => {
                if self.seen_disconnect && self.battery_since.is_none() {
                    self.battery_since = Some(now);
                }
                quiet()
            },
            PowerEvent::Battery(false) => {
                self.seen_disconnect = true;
                self.battery_since = None;
                quiet()
            },
            PowerEvent::Tick => {
                if self.battery_settled(now) {
                    self.to_init()
                } else {
                    quiet()
                }
            },
            PowerEvent::Command(_) => answer(BIReply { measurement: None, fault: Ok(()) }),
            _ => quiet(),
        }
    }

    /// Answers an event in `InitI2C`.
    fn init_i2c(&mut self, now: u64, event: PowerEvent) -> (out: PowerOutput)
        requires
            old(self)@.state == PowerState::InitI2C,
        ensures
            (final(self)@, out) == old(self)@.init_i2c(now, event),
    {
        proof {
            use_type_invariant(&*self);
        }
        match event {
            PowerEvent::SensorReady(Ok(_)) => {
                let mut queue = self.queue;
                queue.reset();
                *self = PowerControl {
                    state: PowerState::Running,
                    queue,
                    pending: None,
                    allow_undercurrent: AllowUndercurrent::No,
                    next_daq: later(now, DAQ_INTERVAL_MS),
                    comm_deadline: later(now, COM_TIMEOUT),
                    ..*self
                };
                quiet()
            },
            PowerEvent::SensorReady(Err(e)) => self.latch(FaultKind::I2C(e), true, now),
            PowerEvent::Command(_) => answer(BIReply { measurement: None, fault: Ok(()) }),
            _ => quiet(),
        }
    }

    /// Answers an event in `AwaitFaultClear`.
    fn wait_fault_clear(&mut self, now: u64, event: PowerEvent) -> (out: PowerOutput)
        requires
            old(self)@.state == PowerState::AwaitFaultClear,
        ensures
            (final(self)@, out) == old(self)@.wait_fault_clear(now, event),
    {
        proof {
            use_type_invariant(&*self);
        }
        match event {
            PowerEvent::Command(cmd) => {
                match cmd.clear_fault {
                    ClearFault::Yes => self.clear(),
                    ClearFault::No => match self.fault {
                        Some(fault) => answer(BIReply { measurement: None, fault: Err(fault) }),
                        None => answer(BIReply { measurement: None, fault: Ok(()) }),
                    },
                }
            },
            PowerEvent::Button(true) => {
                if self.button_since.is_none() {
                    self.button_since = Some(now);
                }
                quiet()
            },
            PowerEvent::Button(false) => {
                self.button_since = None;
                quiet()
            },
            PowerEvent::Tick => {
                let held = match self.button_since {
                    Some(since) => elapsed(now, since) >= FAULT_CLEAR_HOLD_MS,
                    None => false,
                };
                if held {
                    self.clear()
                } else {
                    quiet()
                }
            },
            _ => quiet(),
        }
    }

    /// Answers an event in `Running`.
    fn power_ctrl_loop(&mut self, now: u64, event: PowerEvent) -> (out: PowerOutput)
        requires
            old(self)@.state == PowerState::Running,
        ensures
            (final(self)@, out) == old(self)@.power_ctrl_loop(now, event),
    {
        proof {
            use_type_invariant(&*self);
        }
        match event {
            PowerEvent::Tick => {
                let mut out = quiet();
                if now >= self.comm_deadline {
                    let mut pwm = self.pwm;
                    out.duty = Some(pwm.set_cmd_at(HeaterCmd::Off, now));
                    self.pwm = pwm;
                    self.comm_deadline = later(now, COM_TIMEOUT);
                }
                if now >= self.next_daq {
                    out.request = PowerRequest::Sample;
                    self.next_daq = later(now, DAQ_INTERVAL_MS);
                }
                out
            },
            PowerEvent::Sample(obs) => {
                let mut queue = self.queue;
                let found = daq(obs, &self.pwm, &mut queue, self.allow_undercurrent, now);
                self.queue = queue;
                match found {
                    Err(kind) => self.latch(kind, false, now),
                    Ok(Some(m)) => {
                        self.pending = Some(m);
                        quiet()
                    },
                    Ok(None) => quiet(),
                }
            },
            PowerEvent::Command(cmd) => {
                let mut pwm = self.pwm;
                let asked = pwm.set_cmd_at(HeaterCmd::from_load(cmd.load), now);
                let reply = BIReply { measurement: self.pending, fault: Ok(()) };
                match cmd.reset {
                    Reset::Yes => {
                        let off = pwm.set_cmd_at(HeaterCmd::Off, now);
                        *self = PowerControl {
                            state: PowerState::AwaitReconnect,
                            pwm,
                            pending: None,
                            seen_disconnect: !self.battery_present,
                            battery_since: None,
                            ..*self
                        };
                        PowerOutput {
                            reply: Some(reply),
                            duty: Some(off),
                            request: PowerRequest::Nothing,
                        }
                    },
                    Reset::No => {
                        self.pwm = pwm;
                        self.pending = None;
                        self.allow_undercurrent = cmd.allow_undercurrent;
                        self.comm_deadline = later(now, COM_TIMEOUT);
                        PowerOutput {
                            reply: Some(reply),
                            duty: Some(asked),
                            request: PowerRequest::Nothing,
                        }
                    },
                }
            },
            _ => quiet(),
        }
    }

    /// One step of the power control: takes what happened at `now` and
    /// returns what to do. The heater stays off outside `Running`, and a
    /// fault stays latched until a step acknowledges it.
    pub fn power_task(&mut self, now: u64, event: PowerEvent) -> (out: PowerOutput)
        ensures
            (final(self)@, out) == old(self)@.power_task(now, event),
            old(self)@.wf(),
            final(self)@.wf(),
    {
        self.queue.well_formed();
        proof {
            use_type_invariant(&*self);
            lemma_step_keeps_wf(self@, now, event);
        }
        match event {
            PowerEvent::Battery(present) => {
                self.battery_present = present;
            },
            PowerEvent::Sample(DaqObservation::BatteryAbsent) => {
                self.battery_present = false;
            },
            _ => {},
        }
        match self.state {
            PowerState::AwaitInitialBattery => self.wait_bat_present(now, event),
            PowerState::InitI2C => self.init_i2c(now, event),
            PowerState::Running => self.power_ctrl_loop(now, event),
            PowerState::AwaitFaultClear => self.wait_fault_clear(now, event),
            PowerState::AwaitReconnect => self.wait_bat_reconnect(now, event),
        }
    }
}

/// Nothing for the caller to do.
fn quiet() -> (out: PowerOutput)
    ensures
        out == no_output(),
{
    PowerOutput { reply: None, duty: None, request: PowerRequest::Nothing }
}

/// Only a frame for the host.
fn answer(reply: BIReply) -> (out: PowerOutput)
    ensures
        out == only_reply(reply),
{
    PowerOutput { reply: Some(reply), duty: None, request: PowerRequest::Nothing }
}

/// Every step keeps what always holds: the heater is commanded off outside
/// `Running`, and a fault is latched exactly in `AwaitFaultClear`.
pub proof fn lemma_step_keeps_wf(v: PowerView, now: u64, event: PowerEvent)
    requires
        v.wf(),
    ensures
        v.power_task(now, event).0.wf(),
{
}

/// A command that arrives in `Running` programs the heater with the
/// trimmed compare value of the load it asks for: 18484 for off and 17984
/// for on, unless it also asks for a reset, which turns the heater off. In
/// every other state a command leaves the heater alone, which is off
/// there. So after a command that asks for the load off the heater is off,
/// whatever the state.
pub proof fn lemma_command_sets_duty(v: PowerView, now: u64, cmd: BiCommand)
    requires
        v.wf(),
    ensures
        ({
            let (after, out) = v.power_task(now, PowerEvent::Command(cmd));
            &&& cmd.load == crate::protocol::LoadState::Off ==> {
                &&& after.pwm.cmd == HeaterCmd::Off
                &&& compare_value(after.pwm.cmd) == 18_484
                &&& out.duty is None || out.duty == Some(18_484u16)
            }
            &&& v.state == PowerState::Running && cmd.reset == Reset::No ==> {
                &&& out.duty == Some(compare_value(HeaterCmd::of_load(cmd.load)))
                &&& after.pwm.cmd == HeaterCmd::of_load(cmd.load)
            }
            &&& v.state == PowerState::Running && cmd.load == crate::protocol::LoadState::Off
                ==> out.duty == Some(18_484u16) && after.pwm.cmd == HeaterCmd::Off
            &&& v.state == PowerState::Running && cmd.load == crate::protocol::LoadState::On
                && cmd.reset == Reset::No ==> out.duty == Some(17_984u16)
            &&& v.state == PowerState::Running && cmd.reset == Reset::Yes ==> {
                &&& out.duty == Some(18_484u16)
                &&& after.pwm.cmd == HeaterCmd::Off
                &&& after.state == PowerState::AwaitReconnect
            }
            &&& v.state != PowerState::Running ==> out.duty is None && after.pwm == v.pwm
        }),
{
}

/// A step that reports a fault latches it and turns the heater off. While
/// the fault is latched no step commands the heater, and the fault is left
/// only by acknowledging it, for a state in which the heater is off too.
pub proof fn lemma_fault_holds_heater_off(v: PowerView, now: u64, event: PowerEvent)
    requires
        v.wf(),
    ensures
        ({
            let (after, out) = v.power_task(now, event);
            &&& (out.reply matches Some(reply) && reply.fault is Err) ==> {
                &&& after.state == PowerState::AwaitFaultClear
                &&& after.pwm.cmd == HeaterCmd::Off
                &&& out.duty is None || out.duty == Some(compare_value(HeaterCmd::Off))
            }
            &&& after.state == PowerState::AwaitFaultClear ==> after.pwm.cmd == HeaterCmd::Off
            &&& v.state == PowerState::AwaitFaultClear ==> {
                &&& out.duty is None
                &&& after.pwm.cmd == HeaterCmd::Off
                &&& after.state == PowerState::AwaitFaultClear || (after.fault is None && (
                after.state == PowerState::AwaitReconnect || after.state
                    == PowerState::InitI2C))
            }
        }),
{
}

/// A host that stays silent past the deadline has the heater turned off by
/// the next tick, without a fault; a battery found absent, and a reading
/// that failed, latch a fault.
pub proof fn lemma_fail_safe(v: PowerView, now: u64)
    requires
        v.state == PowerState::Running,
    ensures
        now >= v.comm_deadline ==> {
            let (after, out) = v.power_task(now, PowerEvent::Tick);
            &&& after.pwm.cmd == HeaterCmd::Off
            &&& out.duty == Some(compare_value(HeaterCmd::Off))
            &&& out.reply is None
            &&& after.state == PowerState::Running
        },
        ({
            let (after, out) = v.power_task(
                now,
                PowerEvent::Sample(DaqObservation::BatteryAbsent),
            );
            &&& after.state == PowerState::AwaitFaultClear
            &&& after.pwm.cmd == HeaterCmd::Off
            &&& out.reply == Some(fault_reply(Fault { kind: FaultKind::NoBattery, time: now }))
        }),
{
}

/// The power control after the first `n` of the given events, each with the
/// time it was reported at.
pub open spec fn after_events(v: PowerView, events: Seq<(u64, PowerEvent)>, n: nat) -> PowerView
    decreases n,
{
    if n == 0 {
        v
    } else {
        let before = after_events(v, events, (n - 1) as nat);
        before.power_task(events[n - 1].0, events[n - 1].1).0
    }
}

/// The battery is trusted only after it has been present for the debounce
/// interval without a break. In both states that wait for it, a tick goes
/// on to set the sensor up exactly when the battery has been present that
/// long, and hearing that the battery is absent starts the count anew.
pub proof fn lemma_debounce(v: PowerView, now: u64)
    requires
        v.state == PowerState::AwaitInitialBattery || v.state == PowerState::AwaitReconnect,
    ensures
        v.power_task(now, PowerEvent::Tick).0.state == if v.battery_settled(now) {
            PowerState::InitI2C
        } else {
            v.state
        },
        v.battery_settled(now) <==> (v.battery_since matches Some(since) && now >= since + 250),
        v.power_task(now, PowerEvent::Battery(false)).0.battery_since is None,
        v.power_task(now, PowerEvent::Battery(false)).0.state == v.state,
        v.power_task(now, PowerEvent::Battery(true)).0.state == v.state,
{
}

/// A reconnect takes a battery that was absent: while the battery has been
/// present all along, hearing that it is present does not start the count,
/// and hearing that it is absent makes the next presence count.
pub proof fn lemma_reconnect(v: PowerView, now: u64)
    requires
        v.state == PowerState::AwaitReconnect,
    ensures
        !v.seen_disconnect ==> v.power_task(now, PowerEvent::Battery(true)).0.battery_since
            == v.battery_since,
        v.seen_disconnect && v.battery_since is None ==> v.power_task(
            now,
            PowerEvent::Battery(true),
        ).0.battery_since == Some(now),
        v.power_task(now, PowerEvent::Battery(false)).0.seen_disconnect,
{
}

/// A latched fault is acknowledged by a command that asks for it, or by
/// the button held for a second; nothing else leaves `AwaitFaultClear`.
pub proof fn lemma_fault_clear(v: PowerView, now: u64, event: PowerEvent)
    requires
        v.state == PowerState::AwaitFaultClear,
    ensures
        v.power_task(now, event).0.state != PowerState::AwaitFaultClear <==> {
            ||| event matches PowerEvent::Command(cmd) && cmd.clear_fault == ClearFault::Yes
            ||| event == PowerEvent::Tick && v.button_held(now)
        },
        v.button_held(now) <==> (v.button_since matches Some(since) && now >= since + 1000),
{
}

/// Whatever is reported, and in whatever order: as long as a fault is
/// latched, and in every state but `Running`, the heater is commanded off.
pub proof fn lemma_heater_off_outside_running(
    v: PowerView,
    events: Seq<(u64, PowerEvent)>,
    n: nat,
)
    requires
        v.wf(),
    ensures
        after_events(v, events, n).wf(),
        after_events(v, events, n).fault is Some ==> after_events(v, events, n).pwm.cmd
            == HeaterCmd::Off,
        after_events(v, events, n).state != PowerState::Running ==> after_events(
            v,
            events,
            n,
        ).pwm.cmd == HeaterCmd::Off,
    decreases n,
{
    if n > 0 {
        lemma_heater_off_outside_running(v, events, (n - 1) as nat);
        let before = after_events(v, events, (n - 1) as nat);
        lemma_step_keeps_wf(before, events[n - 1].0, events[n - 1].1);
    }
}

} // verus!

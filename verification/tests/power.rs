use battery_tester::power::{
    daq, daq_to_measurement, DaqObservation, PowerControl, PowerEvent, PowerOutput, PowerRequest,
    PowerState, BAT_CONNECT_DEBOUNCE_MS, COM_TIMEOUT, DAQ_INTERVAL_MS, FAULT_CLEAR_HOLD_MS,
};
use battery_tester::daq::DaqDataQueue;
use battery_tester::protocol::{
    AllowUndercurrent, BIReply, BiCommand, ClearFault, Fault, FaultKind, I2CError, LoadState,
    Measurement, Reset, TiwmError,
};
use battery_tester::pwm::{HeaterCmd, PwmCtrl};
use battery_tester::units::{MilliAmp, MilliVolt};

const OFF: u16 = 18_484;
const ON: u16 = 17_984;

fn nothing() -> PowerOutput {
    PowerOutput { reply: None, duty: None, request: PowerRequest::Nothing }
}

fn quiet_reply() -> BIReply {
    BIReply { measurement: None, fault: Ok(()) }
}

fn answer(reply: BIReply) -> PowerOutput {
    PowerOutput { reply: Some(reply), duty: None, request: PowerRequest::Nothing }
}

fn command(load: LoadState) -> BiCommand {
    BiCommand { load, ..BiCommand::default() }
}

fn reading(milliamps: u16, millivolts: u16) -> PowerEvent {
    PowerEvent::Sample(DaqObservation::Reading {
        milliamps: MilliAmp::new(milliamps),
        millivolts: MilliVolt::new(millivolts),
    })
}

/// A power control that runs since `now`.
fn running(now: u64) -> PowerControl {
    let mut p = PowerControl::new(0);
    assert_eq!(p.power_task(0, PowerEvent::Battery(true)), nothing());
    assert_eq!(
        p.power_task(250, PowerEvent::Tick),
        PowerOutput { request: PowerRequest::InitSensor, ..nothing() }
    );
    assert_eq!(p.power_task(now, PowerEvent::SensorReady(Ok(()))), nothing());
    assert_eq!(p.state(), PowerState::Running);
    p
}

#[test]
fn intervals() {
    assert_eq!(BAT_CONNECT_DEBOUNCE_MS, 250);
    assert_eq!(DAQ_INTERVAL_MS, 100);
    assert_eq!(COM_TIMEOUT, 1_250);
    assert_eq!(FAULT_CLEAR_HOLD_MS, 1_000);
}

#[test]
fn starts_waiting_for_the_battery() {
    let mut p = PowerControl::new(5);
    assert_eq!(p.state(), PowerState::AwaitInitialBattery);
    assert_eq!(p.heater(), HeaterCmd::Off);
    assert_eq!(p.fault(), None);
    assert_eq!(p.next_deadline(), None);
    // nothing happens while the battery is absent
    assert_eq!(p.power_task(1_000, PowerEvent::Tick), nothing());
    assert_eq!(p.power_task(1_000, PowerEvent::Button(true)), nothing());
    assert_eq!(p.power_task(1_000, reading(1, 2)), nothing());
    assert_eq!(p.power_task(1_000, PowerEvent::SensorReady(Ok(()))), nothing());
    // commands are answered, the heater stays off
    assert_eq!(
        p.power_task(1_000, PowerEvent::Command(command(LoadState::On))),
        answer(quiet_reply())
    );
    assert_eq!(p.heater(), HeaterCmd::Off);
    assert_eq!(p.state(), PowerState::AwaitInitialBattery);
}

#[test]
fn initial_battery_is_debounced() {
    let mut p = PowerControl::new(0);
    assert_eq!(p.power_task(1_000, PowerEvent::Battery(true)), nothing());
    assert_eq!(p.next_deadline(), Some(1_250));
    assert_eq!(p.power_task(1_249, PowerEvent::Tick), nothing());
    assert_eq!(p.state(), PowerState::AwaitInitialBattery);
    // a break starts the count anew
    assert_eq!(p.power_task(1_249, PowerEvent::Battery(false)), nothing());
    assert_eq!(p.next_deadline(), None);
    assert_eq!(p.power_task(1_300, PowerEvent::Tick), nothing());
    assert_eq!(p.power_task(1_400, PowerEvent::Battery(true)), nothing());
    // hearing again that it is present does not
    assert_eq!(p.power_task(1_500, PowerEvent::Battery(true)), nothing());
    assert_eq!(p.power_task(1_649, PowerEvent::Tick), nothing());
    assert_eq!(
        p.power_task(1_650, PowerEvent::Tick),
        PowerOutput { request: PowerRequest::InitSensor, ..nothing() }
    );
    assert_eq!(p.state(), PowerState::InitI2C);
    assert_eq!(p.next_deadline(), None);
}

#[test]
fn sensor_failure_latches_and_retries() {
    let mut p = PowerControl::new(0);
    p.power_task(0, PowerEvent::Battery(true));
    p.power_task(250, PowerEvent::Tick);
    let e = I2CError::InaVinConfig(TiwmError::AddressNack);
    let f = Fault { kind: FaultKind::I2C(e), time: 260 };
    assert_eq!(
        p.power_task(260, PowerEvent::SensorReady(Err(e))),
        PowerOutput {
            reply: Some(BIReply { measurement: None, fault: Err(f) }),
            duty: Some(OFF),
            request: PowerRequest::Nothing,
        }
    );
    assert_eq!(p.state(), PowerState::AwaitFaultClear);
    assert_eq!(p.fault(), Some(f));
    // acknowledged by the host: the sensor is set up again
    assert_eq!(
        p.power_task(
            300,
            PowerEvent::Command(BiCommand { clear_fault: ClearFault::Yes, ..BiCommand::default() })
        ),
        PowerOutput {
            reply: Some(quiet_reply()),
            duty: None,
            request: PowerRequest::InitSensor,
        }
    );
    assert_eq!(p.state(), PowerState::InitI2C);
    assert_eq!(p.fault(), None);
    let e = I2CError::InaVinId(TiwmError::Timeout);
    p.power_task(310, PowerEvent::SensorReady(Err(e)));
    assert_eq!(p.fault(), Some(Fault { kind: FaultKind::I2C(e), time: 310 }));
    p.power_task(320, PowerEvent::Button(true));
    assert_eq!(
        p.power_task(1_320, PowerEvent::Tick),
        PowerOutput {
            reply: Some(quiet_reply()),
            duty: None,
            request: PowerRequest::InitSensor,
        }
    );
    assert_eq!(p.power_task(1_330, PowerEvent::SensorReady(Ok(()))), nothing());
    assert_eq!(p.state(), PowerState::Running);
    assert_eq!(p.next_deadline(), Some(1_430));
}

#[test]
fn command_programs_the_heater() {
    let mut p = running(1_000);
    assert_eq!(
        p.power_task(1_010, PowerEvent::Command(command(LoadState::On))),
        PowerOutput { reply: Some(quiet_reply()), duty: Some(ON), request: PowerRequest::Nothing }
    );
    assert_eq!(p.heater(), HeaterCmd::On);
    assert_eq!(
        p.power_task(1_020, PowerEvent::Command(command(LoadState::On))),
        PowerOutput { reply: Some(quiet_reply()), duty: Some(ON), request: PowerRequest::Nothing }
    );
    assert_eq!(
        p.power_task(1_030, PowerEvent::Command(command(LoadState::Off))),
        PowerOutput { reply: Some(quiet_reply()), duty: Some(OFF), request: PowerRequest::Nothing }
    );
    assert_eq!(p.heater(), HeaterCmd::Off);
    assert_eq!(p.state(), PowerState::Running);
}

#[test]
fn samples_are_asked_for_every_hundred_milliseconds() {
    let mut p = running(1_000);
    assert_eq!(p.next_deadline(), Some(1_100));
    assert_eq!(p.power_task(1_099, PowerEvent::Tick), nothing());
    assert_eq!(
        p.power_task(1_100, PowerEvent::Tick),
        PowerOutput { request: PowerRequest::Sample, ..nothing() }
    );
    assert_eq!(p.next_deadline(), Some(1_200));
    assert_eq!(p.power_task(1_150, PowerEvent::Tick), nothing());
    assert_eq!(
        p.power_task(1_230, PowerEvent::Tick),
        PowerOutput { request: PowerRequest::Sample, ..nothing() }
    );
    assert_eq!(p.next_deadline(), Some(1_330));
}

#[test]
fn a_batch_is_reported_with_the_next_command() {
    let mut p = running(1_000);
    for i in 0..9u64 {
        assert_eq!(p.power_task(1_100 + 100 * i, reading(10, 12_000)), nothing());
    }
    // nothing is pending yet
    assert_eq!(
        p.power_task(1_950, PowerEvent::Command(command(LoadState::Off))).reply,
        Some(quiet_reply())
    );
    assert_eq!(p.power_task(2_000, reading(20, 12_010)), nothing());
    let m = Measurement {
        vbat: MilliVolt::new(12_001),
        ibat: MilliAmp::new(11),
        t: (2_000 + 1_100) / 2,
    };
    assert_eq!(
        p.power_task(2_050, PowerEvent::Command(command(LoadState::Off))),
        PowerOutput {
            reply: Some(BIReply { measurement: Some(m), fault: Ok(()) }),
            duty: Some(OFF),
            request: PowerRequest::Nothing,
        }
    );
    // it is reported once
    assert_eq!(
        p.power_task(2_060, PowerEvent::Command(command(LoadState::Off))).reply,
        Some(quiet_reply())
    );
}

#[test]
fn battery_disconnect() {
    let mut p = running(1_000);
    p.power_task(1_010, PowerEvent::Command(command(LoadState::On)));
    assert_eq!(p.heater(), HeaterCmd::On);
    let f = Fault { kind: FaultKind::NoBattery, time: 1_100 };
    assert_eq!(
        p.power_task(1_100, PowerEvent::Sample(DaqObservation::BatteryAbsent)),
        PowerOutput {
            reply: Some(BIReply { measurement: None, fault: Err(f) }),
            duty: Some(OFF),
            request: PowerRequest::Nothing,
        }
    );
    assert_eq!(p.state(), PowerState::AwaitFaultClear);
    assert_eq!(p.heater(), HeaterCmd::Off);
    assert_eq!(p.fault(), Some(f));
}

#[test]
fn failed_readings_latch_a_fault() {
    for (obs, kind) in [
        (
            DaqObservation::CurrentFailed(TiwmError::Receive),
            FaultKind::I2C(I2CError::InaVinCurrent(TiwmError::Receive)),
        ),
        (
            DaqObservation::VoltageFailed(TiwmError::Overrun),
            FaultKind::I2C(I2CError::InaVinVoltage(TiwmError::Overrun)),
        ),
    ] {
        let mut p = running(1_000);
        let out = p.power_task(1_100, PowerEvent::Sample(obs));
        let f = Fault { kind, time: 1_100 };
        assert_eq!(out.reply, Some(BIReply { measurement: None, fault: Err(f) }));
        assert_eq!(out.duty, Some(OFF));
        assert_eq!(p.fault(), Some(f));
    }
}

#[test]
fn watchdog_faults_latch() {
    // heater off, current flows
    let mut p = running(1_000);
    let out = p.power_task(1_100, reading(101, 12_000));
    assert_eq!(
        out.reply,
        Some(BIReply {
            measurement: None,
            fault: Err(Fault { kind: FaultKind::Overcurrent, time: 1_100 }),
        })
    );
    // heater on, too little current
    let mut p = running(1_000);
    p.power_task(1_010, PowerEvent::Command(command(LoadState::On)));
    // within the settle time nothing is judged
    assert_eq!(p.power_task(1_035, reading(0, 12_000)), nothing());
    let out = p.power_task(1_036, reading(5_000, 12_000));
    assert_eq!(
        out.reply,
        Some(BIReply {
            measurement: None,
            fault: Err(Fault { kind: FaultKind::Undercurrent, time: 1_036 }),
        })
    );
    assert_eq!(p.heater(), HeaterCmd::Off);
}

#[test]
fn undercurrent_is_accepted_when_the_host_allows_it() {
    let mut p = running(1_000);
    p.power_task(
        1_010,
        PowerEvent::Command(BiCommand {
            load: LoadState::On,
            allow_undercurrent: AllowUndercurrent::Yes,
            ..BiCommand::default()
        }),
    );
    assert_eq!(p.power_task(1_100, reading(5_000, 12_000)), nothing());
    assert_eq!(p.state(), PowerState::Running);
    assert_eq!(p.heater(), HeaterCmd::On);
    // overcurrent is not
    let out = p.power_task(1_200, reading(12_201, 12_000));
    assert_eq!(
        out.reply,
        Some(BIReply {
            measurement: None,
            fault: Err(Fault { kind: FaultKind::Overcurrent, time: 1_200 }),
        })
    );
}

#[test]
fn latched_fault_answers_every_command_and_keeps_the_heater_off() {
    let mut p = running(1_000);
    p.power_task(1_100, PowerEvent::Sample(DaqObservation::BatteryAbsent));
    let f = Fault { kind: FaultKind::NoBattery, time: 1_100 };
    for now in [1_200u64, 1_700, 2_200] {
        assert_eq!(
            p.power_task(now, PowerEvent::Command(command(LoadState::On))),
            answer(BIReply { measurement: None, fault: Err(f) })
        );
        assert_eq!(p.heater(), HeaterCmd::Off);
        assert_eq!(p.power_task(now, PowerEvent::Tick), nothing());
        assert_eq!(p.power_task(now, reading(0, 12_000)), nothing());
        assert_eq!(p.power_task(now, PowerEvent::Battery(true)), nothing());
    }
    assert_eq!(p.state(), PowerState::AwaitFaultClear);
    // cleared by the host: wait for a reconnect, heater still off
    assert_eq!(
        p.power_task(
            3_000,
            PowerEvent::Command(BiCommand {
                load: LoadState::On,
                clear_fault: ClearFault::Yes,
                ..BiCommand::default()
            })
        ),
        answer(quiet_reply())
    );
    assert_eq!(p.state(), PowerState::AwaitReconnect);
    assert_eq!(p.heater(), HeaterCmd::Off);
    assert_eq!(p.fault(), None);
}

#[test]
fn button_clears_a_fault_when_held_for_a_second() {
    let mut p = running(1_000);
    p.power_task(1_100, reading(200, 12_000));
    assert_eq!(p.state(), PowerState::AwaitFaultClear);
    assert_eq!(p.next_deadline(), None);
    assert_eq!(p.power_task(2_000, PowerEvent::Button(true)), nothing());
    assert_eq!(p.next_deadline(), Some(3_000));
    assert_eq!(p.power_task(2_999, PowerEvent::Tick), nothing());
    // released too soon
    assert_eq!(p.power_task(2_999, PowerEvent::Button(false)), nothing());
    assert_eq!(p.power_task(3_500, PowerEvent::Tick), nothing());
    assert_eq!(p.state(), PowerState::AwaitFaultClear);
    assert_eq!(p.power_task(4_000, PowerEvent::Button(true)), nothing());
    assert_eq!(p.power_task(5_000, PowerEvent::Tick), answer(quiet_reply()));
    assert_eq!(p.state(), PowerState::AwaitReconnect);
}

#[test]
fn battery_found_absent_needs_only_to_return() {
    let mut p = running(1_000);
    p.power_task(1_100, PowerEvent::Sample(DaqObservation::BatteryAbsent));
    p.power_task(
        1_200,
        PowerEvent::Command(BiCommand { clear_fault: ClearFault::Yes, ..BiCommand::default() }),
    );
    assert_eq!(p.state(), PowerState::AwaitReconnect);
    assert_eq!(p.power_task(1_250, PowerEvent::Tick), nothing());
    assert_eq!(p.power_task(1_300, PowerEvent::Battery(true)), nothing());
    assert_eq!(p.next_deadline(), Some(1_550));
    assert_eq!(p.power_task(1_549, PowerEvent::Tick), nothing());
    assert_eq!(
        p.power_task(1_550, PowerEvent::Tick),
        PowerOutput { request: PowerRequest::InitSensor, ..nothing() }
    );
    assert_eq!(p.state(), PowerState::InitI2C);
}

#[test]
fn reconnect_debounce() {
    let mut p = running(1_000);
    p.power_task(1_100, reading(200, 12_000));
    p.power_task(
        1_200,
        PowerEvent::Command(BiCommand { clear_fault: ClearFault::Yes, ..BiCommand::default() }),
    );
    assert_eq!(p.state(), PowerState::AwaitReconnect);
    // present all along does not count: it must be seen absent first
    assert_eq!(p.power_task(1_300, PowerEvent::Battery(true)), nothing());
    assert_eq!(p.power_task(2_000, PowerEvent::Tick), nothing());
    assert_eq!(p.state(), PowerState::AwaitReconnect);
    assert_eq!(p.power_task(2_000, PowerEvent::Battery(false)), nothing());
    // present for 200 ms, then absent
    assert_eq!(p.power_task(3_000, PowerEvent::Battery(true)), nothing());
    assert_eq!(p.power_task(3_200, PowerEvent::Tick), nothing());
    assert_eq!(p.power_task(3_200, PowerEvent::Battery(false)), nothing());
    assert_eq!(p.power_task(3_300, PowerEvent::Tick), nothing());
    assert_eq!(p.state(), PowerState::AwaitReconnect);
    // then present for 250 ms
    assert_eq!(p.power_task(4_000, PowerEvent::Battery(true)), nothing());
    assert_eq!(
        p.power_task(4_100, PowerEvent::Command(command(LoadState::On))),
        answer(quiet_reply())
    );
    assert_eq!(p.power_task(4_249, PowerEvent::Tick), nothing());
    assert_eq!(
        p.power_task(4_250, PowerEvent::Tick),
        PowerOutput { request: PowerRequest::InitSensor, ..nothing() }
    );
    assert_eq!(p.state(), PowerState::InitI2C);
    assert_eq!(p.heater(), HeaterCmd::Off);
}

#[test]
fn comm_timeout() {
    let mut p = running(1_000);
    p.power_task(1_500, PowerEvent::Command(command(LoadState::On)));
    assert_eq!(p.heater(), HeaterCmd::On);
    // the deadline moved with the command
    assert_eq!(p.power_task(2_749, PowerEvent::Tick).duty, None);
    let out = p.power_task(2_750, PowerEvent::Tick);
    assert_eq!(out.duty, Some(OFF));
    assert_eq!(out.reply, None);
    assert_eq!(p.heater(), HeaterCmd::Off);
    assert_eq!(p.state(), PowerState::Running);
    assert_eq!(p.fault(), None);
    // the host resumes
    assert_eq!(
        p.power_task(5_000, PowerEvent::Command(command(LoadState::On))),
        PowerOutput { reply: Some(quiet_reply()), duty: Some(ON), request: PowerRequest::Nothing }
    );
    assert_eq!(p.heater(), HeaterCmd::On);
}

#[test]
fn reset_turns_the_heater_off_and_waits_for_a_reconnect() {
    let mut p = running(1_000);
    p.power_task(1_010, PowerEvent::Command(command(LoadState::On)));
    for i in 0..10u64 {
        p.power_task(1_100 + 100 * i, reading(12_000, 12_000));
    }
    let out = p.power_task(
        2_100,
        PowerEvent::Command(BiCommand {
            load: LoadState::On,
            reset: Reset::Yes,
            allow_undercurrent: AllowUndercurrent::Yes,
            ..BiCommand::default()
        }),
    );
    assert_eq!(out.duty, Some(OFF));
    assert_eq!(out.request, PowerRequest::Nothing);
    assert_eq!(
        out.reply,
        Some(BIReply {
            measurement: Some(Measurement {
                vbat: MilliVolt::new(12_000),
                ibat: MilliAmp::new(12_000),
                t: (2_000 + 1_100) / 2,
            }),
            fault: Ok(()),
        })
    );
    assert_eq!(p.state(), PowerState::AwaitReconnect);
    assert_eq!(p.heater(), HeaterCmd::Off);
}

#[test]
fn one_round_of_sampling() {
    let pwm = PwmCtrl { cmd: HeaterCmd::On, change_time: 0 };
    let mut q = DaqDataQueue::default_const();
    let no = AllowUndercurrent::No;
    assert_eq!(daq(DaqObservation::BatteryAbsent, &pwm, &mut q, no, 100), Err(FaultKind::NoBattery));
    assert_eq!(
        daq(DaqObservation::CurrentFailed(TiwmError::Transmit), &pwm, &mut q, no, 100),
        Err(FaultKind::I2C(I2CError::InaVinCurrent(TiwmError::Transmit)))
    );
    assert_eq!(
        daq(DaqObservation::VoltageFailed(TiwmError::DataNack), &pwm, &mut q, no, 100),
        Err(FaultKind::I2C(I2CError::InaVinVoltage(TiwmError::DataNack)))
    );
    let good = DaqObservation::Reading {
        milliamps: MilliAmp::new(12_000),
        millivolts: MilliVolt::new(12_000),
    };
    let low = DaqObservation::Reading {
        milliamps: MilliAmp::new(100),
        millivolts: MilliVolt::new(12_000),
    };
    // a reading that the watchdog refuses is not queued
    assert_eq!(daq(low, &pwm, &mut q, no, 100), Err(FaultKind::Undercurrent));
    for i in 0..9u64 {
        assert_eq!(daq(good, &pwm, &mut q, no, 100 + i), Ok(None));
    }
    assert_eq!(
        daq(good, &pwm, &mut q, no, 200),
        Ok(Some(Measurement { vbat: MilliVolt::new(12_000), ibat: MilliAmp::new(12_000), t: 150 }))
    );
    assert_eq!(
        daq_to_measurement((MilliVolt::new(1), MilliAmp::new(2), 3)),
        Measurement { vbat: MilliVolt::new(1), ibat: MilliAmp::new(2), t: 3 }
    );
}

use battery_tester::host::{
    clear_fault_command, end_test_command, idle_command, testing_command, volts_command,
    BatteryID, ComCmd, Event, FileCmd, Mode, SaveData, TestState, DEFALT_BAUD,
    DEFAULT_CUTOFF_MILLIV, DEFAULT_DISCONNECT_MILLIV, INCOMING_MAX_SIZE, OUTGOING_MAX_SIZE,
    SERVER_NAME,
};
use battery_tester::program::{
    comm_dc, end_test, enter, fault, file_created, new_cutoff, program_event, setup, shutdown,
    testing, wait_for_battery, wait_for_usr_start, Action, Notice, Rejection, Step,
};
use battery_tester::protocol::{
    AllowUndercurrent, BIReply, BiCommand, ClearFault, Fault, FaultKind, I2CError, LoadState,
    Measurement, Reset, TiwmError,
};
use battery_tester::units::{MilliAmp, MilliVolt};

fn quiet() -> Event {
    Event::ComReply(BIReply { measurement: None, fault: Ok(()) })
}

fn measured(vbat: u16, ibat: u16, t: u64) -> Event {
    Event::ComReply(BIReply {
        measurement: Some(Measurement {
            vbat: MilliVolt::new(vbat),
            ibat: MilliAmp::new(ibat),
            t,
        }),
        fault: Ok(()),
    })
}

fn faulty(kind: FaultKind, time: u64, measurement: Option<Measurement>) -> Event {
    Event::ComReply(BIReply { measurement, fault: Err(Fault { kind, time }) })
}

fn stay(mode: Mode) -> Step {
    Step { mode, actions: vec![] }
}

fn ready_state() -> TestState {
    let mut state = TestState::default();
    state.new_device_name("/dev/ttyUSB0".to_string());
    state.new_batt_id(BatteryID { year: 2024, index: 3 });
    state.set_first_reply();
    state
}

#[test]
fn constants_of_the_host() {
    assert_eq!(DEFAULT_CUTOFF_MILLIV, 11_000);
    assert_eq!(DEFAULT_DISCONNECT_MILLIV, 1_000);
    assert_eq!(DEFALT_BAUD, 230_400);
    assert_eq!(SERVER_NAME, "battery-tester-server");
    assert_eq!(OUTGOING_MAX_SIZE, 4);
    assert_eq!(INCOMING_MAX_SIZE, 31);
    assert_eq!(Mode::default(), Mode::Setup);
}

#[test]
fn commands_of_the_host() {
    let off = BiCommand {
        load: LoadState::Off,
        reset: Reset::No,
        clear_fault: ClearFault::No,
        allow_undercurrent: AllowUndercurrent::No,
    };
    assert_eq!(idle_command(), off);
    assert_eq!(volts_command(), off);
    assert_eq!(end_test_command(), BiCommand { reset: Reset::Yes, ..off });
    assert_eq!(clear_fault_command(), BiCommand { clear_fault: ClearFault::Yes, ..off });
    assert_eq!(
        testing_command(AllowUndercurrent::No),
        BiCommand { load: LoadState::On, ..off }
    );
    assert_eq!(
        testing_command(AllowUndercurrent::Yes),
        BiCommand { load: LoadState::On, allow_undercurrent: AllowUndercurrent::Yes, ..off }
    );
}

#[test]
fn test_state_accessors() {
    let mut state = TestState::default();
    assert_eq!(state.cutoff(), MilliVolt::new(11_000));
    assert_eq!(state.battery_id(), None);
    assert!(!state.got_first_reply());
    assert_eq!(state.get_allow_undercurrent(), AllowUndercurrent::No);
    assert!(!state.ready_for_battery());
    state.new_cutoff(MilliVolt::new(10_500));
    assert_eq!(state.cutoff(), MilliVolt::new(10_500));
    state.new_batt_id(BatteryID { year: 2024, index: 3 });
    assert_eq!(state.battery_id(), Some(BatteryID { year: 2024, index: 3 }));
    assert!(!state.ready_for_battery());
    state.set_first_reply();
    assert!(state.got_first_reply());
    assert!(!state.ready_for_battery());
    state.new_device_name("/dev/ttyUSB0".to_string());
    assert!(state.ready_for_battery());
    state.unset_first_reply();
    assert!(!state.ready_for_battery());
    state.set_first_reply();
    state.set_allow_undercurrent(AllowUndercurrent::Yes);
    assert_eq!(state.get_allow_undercurrent(), AllowUndercurrent::Yes);
    state.end_test();
    assert_eq!(state.battery_id(), None);
    assert!(!state.got_first_reply());
    assert_eq!(state.get_allow_undercurrent(), AllowUndercurrent::Yes);
    assert_eq!(state.cutoff(), MilliVolt::new(10_500));
}

#[test]
fn ready_needs_all_three() {
    for bits in 0u8..8 {
        let mut state = TestState::default();
        if bits & 1 != 0 {
            state.new_batt_id(BatteryID { year: 2020, index: 1 });
        }
        if bits & 2 != 0 {
            state.set_first_reply();
        }
        if bits & 4 != 0 {
            state.new_device_name("dev".to_string());
        }
        assert_eq!(state.ready_for_battery(), bits == 7);
    }
}

#[test]
fn entry_actions() {
    let mut state = ready_state();
    let before = state.clone();
    assert_eq!(
        enter(Mode::Setup, &mut state),
        Step {
            mode: Mode::Setup,
            actions: vec![
                Action::Notify(Notice::SetupPrompt),
                Action::Com(ComCmd::BICommand(idle_command())),
                Action::Notify(Notice::ShowState),
            ],
        }
    );
    assert_eq!(
        enter(Mode::WaitForBattery, &mut state),
        Step {
            mode: Mode::WaitForBattery,
            actions: vec![
                Action::Notify(Notice::WaitingForBattery),
                Action::Com(ComCmd::BICommand(volts_command())),
            ],
        }
    );
    assert_eq!(
        enter(Mode::WaitForUsrStart, &mut state),
        Step { mode: Mode::WaitForUsrStart, actions: vec![Action::Notify(Notice::WaitingForStart)] }
    );
    state.set_allow_undercurrent(AllowUndercurrent::Yes);
    assert_eq!(
        enter(Mode::Testing, &mut state),
        Step {
            mode: Mode::Testing,
            actions: vec![
                Action::Notify(Notice::StartingTest),
                Action::Com(ComCmd::BICommand(testing_command(AllowUndercurrent::Yes))),
            ],
        }
    );
    state.set_allow_undercurrent(AllowUndercurrent::No);
    assert_eq!(state, before);
    assert_eq!(
        enter(Mode::Fault, &mut state),
        Step {
            mode: Mode::Fault,
            actions: vec![
                Action::Com(ComCmd::BICommand(idle_command())),
                Action::Notify(Notice::FaultLatched),
                Action::File(FileCmd::CloseFile),
            ],
        }
    );
    // the file is closed, and the label and the first reply are forgotten
    assert_eq!(state.battery_id(), None);
    assert!(!state.got_first_reply());
    assert_eq!(state.cutoff(), before.cutoff());
    let before = state.clone();
    let teardown = vec![
        Action::Com(ComCmd::BICommand(idle_command())),
        Action::File(FileCmd::CloseFile),
        Action::File(FileCmd::Shutdown),
        Action::Com(ComCmd::Shutdown),
        Action::StopIpc,
        Action::StopPrinter,
    ];
    assert_eq!(shutdown(), teardown);
    assert_eq!(
        enter(Mode::Shutdown, &mut state),
        Step { mode: Mode::Shutdown, actions: teardown }
    );
    assert_eq!(state, before);
}

#[test]
fn end_of_test_resets_and_returns_to_setup() {
    let mut state = ready_state();
    let step = end_test(&mut state);
    assert_eq!(
        step,
        Step {
            mode: Mode::Setup,
            actions: vec![
                Action::Com(ComCmd::BICommand(end_test_command())),
                Action::File(FileCmd::CloseFile),
                Action::Notify(Notice::EndingTest),
            ],
        }
    );
    assert_eq!(state.battery_id(), None);
    assert!(!state.got_first_reply());
    let mut again = ready_state();
    assert_eq!(enter(Mode::EndTest, &mut again), step);
    assert_eq!(again, state);
}

#[test]
fn lost_link_closes_the_file_and_forgets_the_battery() {
    let mut state = ready_state();
    let step = comm_dc(&mut state);
    assert_eq!(
        step,
        Step {
            mode: Mode::Setup,
            actions: vec![
                Action::Notify(Notice::CommDisconnected),
                Action::File(FileCmd::CloseFile),
            ],
        }
    );
    assert!(!state.got_first_reply());
    assert_eq!(state.battery_id(), None);
    let mut again = ready_state();
    assert_eq!(enter(Mode::CommDC, &mut again), step);
    assert_eq!(again, state);
}

#[test]
fn happy_path() {
    let mut state = TestState::default();
    let mut mode = Mode::default();
    assert_eq!(enter(mode, &mut state).mode, Mode::Setup);

    // device /dev/ttyUSB0
    let step = program_event(
        mode,
        &mut state,
        Some(Event::SetSerialDevice("/dev/ttyUSB0".to_string())),
    );
    assert_eq!(
        step,
        Step {
            mode: Mode::Setup,
            actions: vec![
                Action::Notify(Notice::SettingDeviceName("/dev/ttyUSB0".to_string())),
                Action::Com(ComCmd::NewDeviceName("/dev/ttyUSB0".to_string())),
                Action::Notify(Notice::ShowState),
            ],
        }
    );

    // id -y 2024 -i 3
    let id = BatteryID { year: 2024, index: 3 };
    let step = program_event(mode, &mut state, Some(Event::BattID(id)));
    assert_eq!(step, Step { mode: Mode::Setup, actions: vec![Action::CreateFile(id)] });
    let step = file_created(mode, &mut state, id, true);
    assert_eq!(
        step,
        Step {
            mode: Mode::Setup,
            actions: vec![Action::File(FileCmd::NewFile), Action::Notify(Notice::ShowState)],
        }
    );
    assert_eq!(state.battery_id(), Some(id));

    // the battery interface begins to reply
    let step = program_event(mode, &mut state, Some(quiet()));
    assert_eq!(
        step,
        Step { mode: Mode::WaitForBattery, actions: vec![Action::Notify(Notice::ShowState)] }
    );
    assert!(state.got_first_reply());
    mode = step.mode;
    assert_eq!(
        enter(mode, &mut state).actions,
        vec![
            Action::Notify(Notice::WaitingForBattery),
            Action::Com(ComCmd::BICommand(volts_command())),
        ]
    );

    // cutoff 11000
    let step = program_event(mode, &mut state, Some(Event::SetCutoff(MilliVolt::new(11_000))));
    assert_eq!(
        step,
        Step {
            mode: Mode::WaitForBattery,
            actions: vec![Action::Notify(Notice::NewCutoff(MilliVolt::new(11_000)))],
        }
    );

    // a reply with 12400 mV
    let step = program_event(mode, &mut state, Some(measured(12_400, 0, 5_000)));
    assert_eq!(step, stay(Mode::WaitForUsrStart));
    mode = step.mode;
    enter(mode, &mut state);

    // start
    let step = program_event(mode, &mut state, Some(Event::StartTest));
    assert_eq!(step, stay(Mode::Testing));
    mode = step.mode;
    assert_eq!(
        enter(mode, &mut state).actions,
        vec![
            Action::Notify(Notice::StartingTest),
            Action::Com(ComCmd::BICommand(BiCommand {
                load: LoadState::On,
                reset: Reset::No,
                clear_fault: ClearFault::No,
                allow_undercurrent: AllowUndercurrent::No,
            })),
        ]
    );

    // replies above the cutoff are recorded
    for (i, vbat) in [12_400u16, 12_000, 11_500, 11_001].iter().enumerate() {
        let t = 6_000 + 1_000 * i as u64;
        let step = program_event(mode, &mut state, Some(measured(*vbat, 8_300, t)));
        assert_eq!(
            step,
            Step {
                mode: Mode::Testing,
                actions: vec![Action::File(FileCmd::Push(SaveData {
                    millivolts: MilliVolt::new(*vbat),
                    milliamps: MilliAmp::new(8_300),
                    dt: t,
                    duration: 0,
                }))],
            }
        );
    }
    assert_eq!(program_event(mode, &mut state, Some(quiet())), stay(Mode::Testing));

    // the first reply under the cutoff ends the test
    let step = program_event(mode, &mut state, Some(measured(10_999, 8_000, 20_000)));
    assert_eq!(step, stay(Mode::EndTest));
    let step = enter(step.mode, &mut state);
    assert_eq!(step.mode, Mode::Setup);
    assert_eq!(
        step.actions,
        vec![
            Action::Com(ComCmd::BICommand(BiCommand {
                load: LoadState::Off,
                reset: Reset::Yes,
                clear_fault: ClearFault::No,
                allow_undercurrent: AllowUndercurrent::No,
            })),
            Action::File(FileCmd::CloseFile),
            Action::Notify(Notice::EndingTest),
        ]
    );
    assert_eq!(state.battery_id(), None);
    assert!(!state.got_first_reply());
}

#[test]
fn cutoff_itself_ends_the_test() {
    let mut state = ready_state();
    assert_eq!(testing(&mut state, measured(11_000, 8_000, 1)), stay(Mode::EndTest));
    assert_eq!(wait_for_battery(&mut state, measured(11_000, 0, 1)), stay(Mode::WaitForBattery));
    assert_eq!(wait_for_battery(&mut state, measured(11_001, 0, 1)), stay(Mode::WaitForUsrStart));
    assert_eq!(
        wait_for_usr_start(&mut state, measured(11_000, 0, 1)),
        stay(Mode::WaitForBattery)
    );
    assert_eq!(
        wait_for_usr_start(&mut state, measured(11_001, 0, 1)),
        stay(Mode::WaitForUsrStart)
    );
}

#[test]
fn overcurrent_during_testing() {
    let mut state = ready_state();
    let m = Measurement { vbat: MilliVolt::new(12_000), ibat: MilliAmp::new(9_000), t: 4_300 };
    let f = Fault { kind: FaultKind::Overcurrent, time: 4_321 };
    // the fault comes first, though the reply carries a measurement above the cutoff
    let step = testing(&mut state, faulty(FaultKind::Overcurrent, 4_321, Some(m)));
    assert_eq!(
        step,
        Step { mode: Mode::Fault, actions: vec![Action::Notify(Notice::FaultDetails(f))] }
    );
    let step = enter(Mode::Fault, &mut state);
    assert_eq!(
        step.actions,
        vec![
            Action::Com(ComCmd::BICommand(idle_command())),
            Action::Notify(Notice::FaultLatched),
            Action::File(FileCmd::CloseFile),
        ]
    );
    // the fault persists
    assert_eq!(fault(&mut state, faulty(FaultKind::Overcurrent, 4_321, None)), stay(Mode::Fault));
    // clear
    assert_eq!(
        fault(&mut state, Event::ClearFault),
        Step { mode: Mode::Fault, actions: vec![Action::Com(ComCmd::ClearFault)] }
    );
    // the next good reply
    assert_eq!(
        fault(&mut state, quiet()),
        Step { mode: Mode::Setup, actions: vec![Action::Notify(Notice::FaultCleared)] }
    );
    // setup is where the session rests: the battery must be named again
    enter(Mode::Setup, &mut state);
    assert_eq!(
        setup(&mut state, quiet()),
        Step { mode: Mode::Setup, actions: vec![Action::Notify(Notice::ShowState)] }
    );
    assert_eq!(setup(&mut state, quiet()), stay(Mode::Setup));
}

#[test]
fn a_fault_reply_leads_to_fault_from_every_working_state() {
    let kinds = [
        FaultKind::I2C(I2CError::InaVinCurrent(TiwmError::Timeout)),
        FaultKind::Undercurrent,
        FaultKind::NoBattery,
        FaultKind::Overcurrent,
    ];
    for kind in kinds {
        let f = Fault { kind, time: 9 };
        let expected =
            Step { mode: Mode::Fault, actions: vec![Action::Notify(Notice::FaultDetails(f))] };
        let mut state = ready_state();
        assert_eq!(setup(&mut state, faulty(kind, 9, None)), expected);
        assert_eq!(wait_for_battery(&mut state, faulty(kind, 9, None)), expected);
        assert_eq!(wait_for_usr_start(&mut state, faulty(kind, 9, None)), expected);
        assert_eq!(testing(&mut state, faulty(kind, 9, None)), expected);
        assert_eq!(state, ready_state());
    }
}

#[test]
fn setup_answers() {
    let mut state = TestState::default();
    assert_eq!(
        setup(&mut state, Event::StartTest),
        Step {
            mode: Mode::Setup,
            actions: vec![Action::Notify(Notice::Rejected(Rejection::CantStartDuringSetup))],
        }
    );
    assert_eq!(
        setup(&mut state, Event::ClearFault),
        Step {
            mode: Mode::Setup,
            actions: vec![Action::Notify(Notice::Rejected(Rejection::NoFaultToClear))],
        }
    );
    assert_eq!(setup(&mut state, Event::CancelTest), stay(Mode::Setup));
    assert_eq!(setup(&mut state, Event::Shutdown), stay(Mode::Shutdown));
    assert_eq!(
        setup(&mut state, Event::UnderCurrentResponse(AllowUndercurrent::Yes)),
        stay(Mode::Setup)
    );
    assert_eq!(state.get_allow_undercurrent(), AllowUndercurrent::Yes);
    // the first good reply is shown, the second is not
    assert_eq!(
        setup(&mut state, quiet()),
        Step { mode: Mode::Setup, actions: vec![Action::Notify(Notice::ShowState)] }
    );
    assert_eq!(setup(&mut state, quiet()), stay(Mode::Setup));
    assert!(state.got_first_reply());
    assert_eq!(setup(&mut state, Event::CommDc), stay(Mode::Setup));
    assert!(!state.got_first_reply());
    state.new_batt_id(BatteryID { year: 1, index: 1 });
    state.set_first_reply();
    assert_eq!(setup(&mut state, Event::FileError), stay(Mode::Setup));
    assert_eq!(state.battery_id(), None);
    assert!(!state.got_first_reply());
}

#[test]
fn setup_leaves_when_the_file_completes_the_settings() {
    let id = BatteryID { year: 2024, index: 3 };
    let mut state = TestState::default();
    state.new_device_name("dev".to_string());
    state.set_first_reply();
    assert_eq!(
        file_created(Mode::Setup, &mut state, id, true),
        Step { mode: Mode::WaitForBattery, actions: vec![Action::File(FileCmd::NewFile)] }
    );
    assert_eq!(state.battery_id(), Some(id));
    // a file that cannot be created forgets label and first reply
    let mut state = ready_state();
    assert_eq!(
        file_created(Mode::Setup, &mut state, id, false),
        Step { mode: Mode::Setup, actions: vec![Action::Notify(Notice::FileCreateFailed)] }
    );
    assert_eq!(state.battery_id(), None);
    assert!(!state.got_first_reply());
}

#[test]
fn file_outcome_in_the_other_states() {
    let id = BatteryID { year: 2025, index: 9 };
    for mode in [Mode::WaitForBattery, Mode::WaitForUsrStart] {
        let mut state = ready_state();
        assert_eq!(
            program_event(mode, &mut state, Some(Event::BattID(id))),
            Step { mode, actions: vec![Action::CreateFile(id)] }
        );
        assert_eq!(
            file_created(mode, &mut state, id, true),
            Step { mode, actions: vec![Action::File(FileCmd::NewFile)] }
        );
        assert_eq!(state.battery_id(), Some(id));
        let mut state = ready_state();
        assert_eq!(
            file_created(mode, &mut state, id, false),
            Step { mode: Mode::EndTest, actions: vec![Action::Notify(Notice::FileCreateFailed)] }
        );
        assert_eq!(state, ready_state());
    }
    let mut state = ready_state();
    assert_eq!(
        file_created(Mode::Fault, &mut state, id, true),
        Step { mode: Mode::Fault, actions: vec![Action::File(FileCmd::NewFile)] }
    );
    assert_eq!(state.battery_id(), Some(id));
    assert_eq!(
        file_created(Mode::Fault, &mut state, id, false),
        Step { mode: Mode::Fault, actions: vec![Action::Notify(Notice::FileCreateFailed)] }
    );
    assert_eq!(state.battery_id(), None);
    for mode in [Mode::Testing, Mode::EndTest, Mode::CommDC, Mode::Shutdown] {
        let mut state = ready_state();
        assert_eq!(file_created(mode, &mut state, id, true), stay(mode));
        assert_eq!(state, ready_state());
    }
}

#[test]
fn waiting_states_answer() {
    let mut state = ready_state();
    assert_eq!(
        wait_for_battery(&mut state, Event::StartTest),
        Step {
            mode: Mode::WaitForBattery,
            actions: vec![Action::Notify(Notice::Rejected(
                Rejection::CantStartWhileWaitingForBattery
            ))],
        }
    );
    assert_eq!(
        wait_for_battery(&mut state, Event::SetSerialDevice("x".to_string())),
        Step {
            mode: Mode::WaitForBattery,
            actions: vec![Action::Notify(Notice::Rejected(
                Rejection::CantChangeDeviceWhileWaitingForBattery
            ))],
        }
    );
    assert_eq!(wait_for_battery(&mut state, quiet()), stay(Mode::WaitForBattery));
    assert_eq!(wait_for_usr_start(&mut state, quiet()), stay(Mode::WaitForUsrStart));
    assert_eq!(
        wait_for_usr_start(&mut state, Event::SetSerialDevice("x".to_string())),
        stay(Mode::WaitForUsrStart)
    );
    for event in [Event::CancelTest, Event::FileError] {
        assert_eq!(wait_for_battery(&mut state, event.clone()), stay(Mode::EndTest));
        assert_eq!(wait_for_usr_start(&mut state, event.clone()), stay(Mode::EndTest));
        assert_eq!(testing(&mut state, event), stay(Mode::EndTest));
    }
    assert_eq!(wait_for_battery(&mut state, Event::CommDc), stay(Mode::CommDC));
    assert_eq!(wait_for_usr_start(&mut state, Event::CommDc), stay(Mode::CommDC));
    assert_eq!(testing(&mut state, Event::CommDc), stay(Mode::CommDC));
    assert_eq!(wait_for_battery(&mut state, Event::Shutdown), stay(Mode::Shutdown));
    assert_eq!(wait_for_usr_start(&mut state, Event::Shutdown), stay(Mode::Shutdown));
    assert_eq!(testing(&mut state, Event::Shutdown), stay(Mode::Shutdown));
    assert_eq!(state, ready_state());
}

#[test]
fn testing_rejects_changes() {
    let mut state = ready_state();
    let rejected = |r: Rejection| Step {
        mode: Mode::Testing,
        actions: vec![Action::Notify(Notice::Rejected(r))],
    };
    assert_eq!(testing(&mut state, Event::StartTest), rejected(Rejection::AlreadyTesting));
    assert_eq!(
        testing(&mut state, Event::SetSerialDevice("x".to_string())),
        rejected(Rejection::CantChangeDeviceWhileTesting)
    );
    assert_eq!(
        testing(&mut state, Event::BattID(BatteryID { year: 1, index: 2 })),
        rejected(Rejection::CantChangeBatteryWhileTesting)
    );
    assert_eq!(testing(&mut state, Event::ClearFault), rejected(Rejection::NoFaultToClear));
    assert_eq!(state, ready_state());
    assert_eq!(
        new_cutoff(&mut state, Mode::Testing, MilliVolt::new(9_000)),
        Step {
            mode: Mode::Testing,
            actions: vec![Action::Notify(Notice::NewCutoff(MilliVolt::new(9_000)))],
        }
    );
    assert_eq!(state.cutoff(), MilliVolt::new(9_000));
    // a reading that ended the test before is recorded now
    assert_eq!(testing(&mut state, measured(10_999, 1, 2)).mode, Mode::Testing);
}

#[test]
fn fault_answers() {
    let mut state = ready_state();
    assert_eq!(
        fault(&mut state, Event::StartTest),
        Step {
            mode: Mode::Fault,
            actions: vec![Action::Notify(Notice::Rejected(
                Rejection::CantStartUntilFaultCleared
            ))],
        }
    );
    assert_eq!(fault(&mut state, Event::CancelTest), stay(Mode::Fault));
    assert_eq!(fault(&mut state, Event::FileError), stay(Mode::Fault));
    assert_eq!(fault(&mut state, Event::Shutdown), stay(Mode::Shutdown));
    assert_eq!(
        fault(&mut state, Event::CommDc),
        Step { mode: Mode::Setup, actions: vec![Action::Notify(Notice::LostComms)] }
    );
    assert_eq!(
        fault(&mut state, Event::SetSerialDevice("COM4".to_string())),
        Step {
            mode: Mode::Fault,
            actions: vec![
                Action::Notify(Notice::SettingDeviceName("COM4".to_string())),
                Action::Com(ComCmd::NewDeviceName("COM4".to_string())),
            ],
        }
    );
    assert_eq!(state, ready_state());
    assert_eq!(
        fault(&mut state, Event::SetCutoff(MilliVolt::new(10_000))).actions,
        vec![Action::Notify(Notice::NewCutoff(MilliVolt::new(10_000)))]
    );
    assert_eq!(state.cutoff(), MilliVolt::new(10_000));
}

#[test]
fn closed_channel_shuts_down_from_every_state() {
    for mode in [
        Mode::Setup,
        Mode::WaitForBattery,
        Mode::WaitForUsrStart,
        Mode::Testing,
        Mode::Fault,
        Mode::EndTest,
        Mode::CommDC,
        Mode::Shutdown,
    ] {
        let mut state = ready_state();
        assert_eq!(program_event(mode, &mut state, None), stay(Mode::Shutdown));
        assert_eq!(state, ready_state());
    }
}

#[test]
fn testing_never_leads_straight_to_setup() {
    let events = vec![
        Event::BattID(BatteryID { year: 2024, index: 3 }),
        Event::SetSerialDevice("x".to_string()),
        Event::SetCutoff(MilliVolt::new(1)),
        Event::StartTest,
        Event::CommDc,
        quiet(),
        measured(12_000, 1, 1),
        measured(100, 1, 1),
        faulty(FaultKind::NoBattery, 5, None),
        Event::CancelTest,
        Event::Shutdown,
        Event::FileError,
        Event::ClearFault,
        Event::UnderCurrentResponse(AllowUndercurrent::Yes),
    ];
    for event in events {
        let mut state = ready_state();
        let next = program_event(Mode::Testing, &mut state, Some(event)).mode;
        assert!(matches!(
            next,
            Mode::Testing | Mode::EndTest | Mode::Fault | Mode::CommDC | Mode::Shutdown
        ));
    }
}

//! The heater output: its two commanded positions, the compare value that
//! each programs, and the watchdog over the current that the load draws.

use vstd::prelude::*;
use crate::clock::{clock_millis, elapsed, elapsed_ms};
use crate::protocol::{AllowUndercurrent, FaultKind, LoadState};
use crate::range::{in_range_inclusive, Range};
use crate::units::{MilliAmp, MilliVolt};

verus! {

/// Counts of the 1 MHz clock in one 20 ms period.
pub const PWM_MAX_DUTY: u16 = 20_000;

/// Pulse width of the OFF position: the period divided by thirteen and a
/// third, a 1.5 ms pulse.
pub const PWM_ZERO_OUTPUT: u16 = 1_500;

/// Pulse width of the ON position: a tenth of the period, a 2.0 ms pulse.
pub const PWM_MAX_OUTPUT: u16 = PWM_MAX_DUTY / 10;

/// Calibration added to a pulse width before it is programmed.
pub const PLUS_TRIM: u16 = 16;

/// Time after a change of the heater command during which the watchdog
/// does not judge the current: one period and the hardware's reaction time.
pub const WATCHDOG_WAIT_MS: u64 = 25;

/// Current above which the load counts as drawing while commanded off.
pub const OFF_CURRENT_LIMIT: u16 = 100;

/// Half the width of the envelope round the expected current.
pub const MAX_DEVIATION: u16 = 200;

/// Voltage at which the load's resistance was measured, in millivolts.
pub const TEST_MILLIVOLTS: u16 = 12_000;

/// Current measured at [`TEST_MILLIVOLTS`], in milliamperes.
pub const IMPERICAL_MILLIAMPS: u16 = 8_400;

/// Resistance of the load, by integer division.
pub const LOAD_RESISTANCE: u16 = TEST_MILLIVOLTS / IMPERICAL_MILLIAMPS;

/// The commanded position of the heater.
#[derive(Debug, Clone, Copy, PartialEq, Eq, Structural, PartialOrd, Ord, Hash)]
pub enum HeaterCmd {
    Off,
    On,
}

impl Default for HeaterCmd {
    fn default() -> (r: Self)
        ensures
            r == HeaterCmd::Off,
    {
        HeaterCmd::Off
    }
}

impl HeaterCmd {
    /// The position that a commanded load state asks for.
    pub open spec fn of_load(load: LoadState) -> HeaterCmd {
        match load {
            LoadState::Off => HeaterCmd::Off,
            LoadState::On => HeaterCmd::On,
        }
    }

    /// The position that a commanded load state asks for.
    pub fn from_load(load: LoadState) -> (r: Self)
        ensures
            r == HeaterCmd::of_load(load),
    {
        match load {
            LoadState::Off => HeaterCmd::Off,
            LoadState::On => HeaterCmd::On,
        }
    }
}

/// The pulse width of a position.
pub open spec fn setpoint(cmd: HeaterCmd) -> u16 {
    match cmd {
        HeaterCmd::Off => PWM_ZERO_OUTPUT,
        HeaterCmd::On => PWM_MAX_OUTPUT,
    }
}

/// The compare value that programs a position: the period less the trimmed
/// pulse width.
pub open spec fn compare_value(cmd: HeaterCmd) -> u16 {
    (PWM_MAX_DUTY - (setpoint(cmd) + PLUS_TRIM)) as u16
}

/// The current that the load is expected to draw at `vbat`.
pub open spec fn expected_milliamps(vbat: MilliVolt) -> int {
    vbat.0 as int / (LOAD_RESISTANCE as int)
}

/// Where `ibat` lies with respect to the envelope round the current
/// expected at `vbat`.
pub open spec fn envelope_position(vbat: MilliVolt, ibat: MilliAmp) -> Range {
    if ibat.0 > expected_milliamps(vbat) + MAX_DEVIATION {
        Range::Hi
    } else if ibat.0 < expected_milliamps(vbat) - MAX_DEVIATION {
        Range::Lo
    } else {
        Range::Within
    }
}

/// What the watchdog finds `elapsed` milliseconds after the last change of
/// the heater command.
pub open spec fn watchdog_verdict(
    cmd: HeaterCmd,
    elapsed: int,
    millivolts: MilliVolt,
    milliamps: MilliAmp,
    allow_undercurrent: AllowUndercurrent,
) -> Result<(), FaultKind> {
    if elapsed <= WATCHDOG_WAIT_MS {
        Ok(())
    } else {
        match cmd {
            HeaterCmd::Off => if milliamps.0 > OFF_CURRENT_LIMIT {
                Err(FaultKind::Overcurrent)
            } else {
                Ok(())
            },
            HeaterCmd::On => match envelope_position(millivolts, milliamps) {
                Range::Hi => Err(FaultKind::Overcurrent),
                Range::Lo => match allow_undercurrent {
                    AllowUndercurrent::No => Err(FaultKind::Undercurrent),
                    AllowUndercurrent::Yes => Ok(()),
                },
                Range::Within => Ok(()),
            },
        }
    }
}

/// The current that the load is expected to draw at `vbat`.
pub fn expected_current(vbat: MilliVolt) -> (r: MilliAmp)
    ensures
        r.0 == expected_milliamps(vbat),
        r.0 == vbat.0 / (12_000u16 / 8_400u16),
{
    MilliAmp::new(vbat.into_inner() / LOAD_RESISTANCE)
}

/// Places `ibat` with respect to the envelope of 200 mA either side of the
/// current expected at `vbat`.
pub fn current_in_range(vbat: MilliVolt, ibat: MilliAmp) -> (r: Range)
    ensures
        r == envelope_position(vbat, ibat),
{
    let nom: i32 = expected_current(vbat).into_inner() as i32;
    let max: i32 = nom + MAX_DEVIATION as i32;
    let min: i32 = nom - MAX_DEVIATION as i32;
    in_range_inclusive(max, min, ibat.into_inner() as i32)
}

/// The pulse width for a share of full power, held between the OFF and the
/// ON pulse widths.
pub fn percent_to_micros(pwm_on_percent: u8) -> (r: u16)
    ensures
        r == if pwm_on_percent * 5 < PWM_ZERO_OUTPUT {
            PWM_ZERO_OUTPUT as int
        } else if pwm_on_percent * 5 > PWM_MAX_OUTPUT {
            PWM_MAX_OUTPUT as int
        } else {
            pwm_on_percent * 5
        },
        PWM_ZERO_OUTPUT <= r <= PWM_MAX_OUTPUT,
{
    let pwm_on_percent: u16 = pwm_on_percent as u16;
    let multiplier: u16 = (PWM_MAX_OUTPUT - PWM_ZERO_OUTPUT) / 100;
    assert(multiplier == 5);
    let pwm_on_micros: u16 = pwm_on_percent * multiplier;
    if pwm_on_micros < PWM_ZERO_OUTPUT {
        PWM_ZERO_OUTPUT
    } else if pwm_on_micros > PWM_MAX_OUTPUT {
        PWM_MAX_OUTPUT
    } else {
        pwm_on_micros
    }
}

/// The compare value for a pulse width: the period less the pulse width and
/// the trim.
pub fn pwm_output_trim(setpoint: u16) -> (r: u16)
    requires
        setpoint + PLUS_TRIM <= PWM_MAX_DUTY,
    ensures
        r == PWM_MAX_DUTY - (setpoint + PLUS_TRIM),
{
    PWM_MAX_DUTY - (setpoint + PLUS_TRIM)
}

/// The compare value that programs `cmd`: 18484 for OFF, 17984 for ON.
pub fn heater_duty(cmd: HeaterCmd) -> (duty: u16)
    ensures
        duty == compare_value(cmd),
        cmd == HeaterCmd::Off ==> duty == 18_484,
        cmd == HeaterCmd::On ==> duty == 17_984,
{
    let width = match cmd {
        HeaterCmd::Off => PWM_ZERO_OUTPUT,
        HeaterCmd::On => PWM_MAX_OUTPUT,
    };
    pwm_output_trim(width)
}

/// The heater's controller: the position last commanded and the time of the
/// last change of position, in milliseconds.
#[derive(Debug, Clone, Copy, PartialEq, Eq, Structural)]
pub struct PwmCtrl {
    pub cmd: HeaterCmd,
    pub change_time: u64,
}

impl PwmCtrl {
    /// A controller commanded OFF at `now`.
    pub fn new_at(now: u64) -> (r: Self)
        ensures
            r == (PwmCtrl { cmd: HeaterCmd::Off, change_time: now }),
    {
        PwmCtrl { cmd: HeaterCmd::Off, change_time: now }
    }

    /// A controller commanded OFF at the time the clock shows.
    pub fn new() -> (r: Self)
        ensures
            r.cmd == HeaterCmd::Off,
    {
        PwmCtrl::new_at(clock_millis())
    }

    /// Commands a position at `now` and returns the compare value to
    /// program. The time of change moves only when the position changes.
    pub fn set_cmd_at(&mut self, new_cmd: HeaterCmd, now: u64) -> (duty: u16)
        ensures
            duty == compare_value(new_cmd),
            final(self).cmd == new_cmd,
            final(self).change_time == if old(self).cmd == new_cmd {
                old(self).change_time
            } else {
                now
            },
    {
        if self.cmd != new_cmd {
            self.change_time = now;
        }
        self.cmd = new_cmd;
        heater_duty(new_cmd)
    }

    /// Commands a position at the time the clock shows and returns the
    /// compare value to program.
    pub fn set_cmd(&mut self, new_cmd: HeaterCmd) -> (duty: u16)
        ensures
            duty == compare_value(new_cmd),
            final(self).cmd == new_cmd,
            old(self).cmd == new_cmd ==> final(self).change_time == old(self).change_time,
    {
        self.set_cmd_at(new_cmd, clock_millis())
    }

    /// Judges a reading taken at `now`. Within 25 ms of the last change of
    /// position nothing is judged. After that, a load commanded off must
    /// not draw more than 100 mA, and a load commanded on must draw within
    /// 200 mA of the expected current, unless a lower current is allowed.
    pub fn watchdog_at(
        &self,
        millivolts: MilliVolt,
        milliamps: MilliAmp,
        allow_undercurrent: AllowUndercurrent,
        now: u64,
    ) -> (r: Result<(), FaultKind>)
        ensures
            r == watchdog_verdict(
                self.cmd,
                elapsed_ms(now, self.change_time),
                millivolts,
                milliamps,
                allow_undercurrent,
            ),
            elapsed_ms(now, self.change_time) <= 25 ==> r is Ok,
    {
        let dt = elapsed(now, self.change_time);
        if dt > WATCHDOG_WAIT_MS {
            match self.cmd {
                HeaterCmd::Off => {
                    if milliamps.into_inner() > OFF_CURRENT_LIMIT {
                        Err(FaultKind::Overcurrent)
                    } else {
                        Ok(())
                    }
                },
                HeaterCmd::On => match current_in_range(millivolts, milliamps) {
                    Range::Hi => Err(FaultKind::Overcurrent),
                    Range::Lo => match allow_undercurrent {
                        AllowUndercurrent::No => Err(FaultKind::Undercurrent),
                        AllowUndercurrent::Yes => Ok(()),
                    },
                    Range::Within => Ok(()),
                },
            }
        } else {
            Ok(())
        }
    }

    /// Judges a reading at the time the clock shows: the verdict of
    /// [`PwmCtrl::watchdog_at`] for some time `now`.
    pub fn watchdog(
        &self,
        millivolts: MilliVolt,
        milliamps: MilliAmp,
        allow_undercurrent: AllowUndercurrent,
    ) -> (r: Result<(), FaultKind>)
        ensures
            exists|now: u64|
                r == #[trigger] watchdog_verdict(
                    self.cmd,
                    elapsed_ms(now, self.change_time),
                    millivolts,
                    milliamps,
                    allow_undercurrent,
                ),
    {
        self.watchdog_at(millivolts, milliamps, allow_undercurrent, clock_millis())
    }
}

/// The envelope round the expected current has its midpoint at the voltage
/// divided by the load's resistance and is exactly 400 mA wide: a current is
/// inside it exactly when it is within 200 mA of that midpoint.
pub proof fn lemma_envelope(vbat: MilliVolt, ibat: MilliAmp)
    ensures
        expected_milliamps(vbat) == vbat.0 as int / (12_000int / 8_400int),
        envelope_position(vbat, ibat) == Range::Within <==> expected_milliamps(vbat) - 200 <= ibat.0
            <= expected_milliamps(vbat) + 200,
        envelope_position(vbat, ibat) == Range::Hi <==> ibat.0 > expected_milliamps(vbat) + 200,
        envelope_position(vbat, ibat) == Range::Lo <==> ibat.0 < expected_milliamps(vbat) - 200,
        (expected_milliamps(vbat) + 200) - (expected_milliamps(vbat) - 200) == 400,
{
}

/// The watchdog never reports a fault within 25 ms of a change of the
/// heater command, whatever the reading.
pub proof fn lemma_watchdog_settles(
    cmd: HeaterCmd,
    elapsed: int,
    millivolts: MilliVolt,
    milliamps: MilliAmp,
    allow_undercurrent: AllowUndercurrent,
)
    requires
        elapsed <= 25,
    ensures
        watchdog_verdict(cmd, elapsed, millivolts, milliamps, allow_undercurrent) is Ok,
{
}

} // verus!

//! Battery monitoring: conversion of raw power-gauge registers and the
//! lifecycle of the shared battery reading, including the low-voltage
//! shutdown decision.

use vstd::prelude::*;
use crate::indicator::DisplayPattern;
use crate::indicator::low_battery_pattern;
use crate::indicator::off_pattern;

verus! {

/// One successful sample of the power gauge, already converted to whole
/// percent and millivolts.
#[derive(Clone, Copy, PartialEq, Eq, Structural, Debug)]
pub struct BatteryStats {
    pub state_of_charge_percent: i32,
    pub cell_millivolts: i32,
}

/// The value of one big-endian 16-bit gauge register, given its two bytes.
pub open spec fn register_word(hi: u8, lo: u8) -> int {
    hi * 256 + lo
}

/// The gauge reports state of charge in units of 1/256 percent; the device
/// keeps whole percent, rounded to nearest (half away from zero) and
/// clamped to the 0..100 range the rest of the system expects.
pub open spec fn soc_percent_of_word(raw: int) -> int {
    if (raw + 128) / 256 > 100 {
        100
    } else {
        (raw + 128) / 256
    }
}

/// The gauge reports cell voltage in units of 78.125 microvolts, which is
/// exactly 5/64 millivolt; the device keeps whole millivolts, rounded to
/// nearest (half away from zero).
pub open spec fn millivolts_of_word(raw: int) -> int {
    (5 * raw + 32) / 64
}

/// Converts the two bytes of the state-of-charge register to whole percent.
pub fn soc_percent_from_registers(hi: u8, lo: u8) -> (r: i32)
    ensures
        r == soc_percent_of_word(register_word(hi, lo)),
        0 <= r <= 100,
{
    let raw: u32 = (hi as u32) * 256 + (lo as u32);
    let rounded = (raw + 128) / 256;
    if rounded > 100 {
        100
    } else {
        rounded as i32
    }
}

/// Converts the two bytes of the cell-voltage register to whole millivolts.
pub fn millivolts_from_registers(hi: u8, lo: u8) -> (r: i32)
    ensures
        r == millivolts_of_word(register_word(hi, lo)),
        0 <= r <= 5121,
{
    let raw: u32 = (hi as u32) * 256 + (lo as u32);
    ((5 * raw + 32) / 64) as i32
}

/// Builds one gauge sample from the raw bytes of both registers.
pub fn battery_stats_from_registers(soc_hi: u8, soc_lo: u8, vcell_hi: u8, vcell_lo: u8) -> (r:
    BatteryStats)
    ensures
        r.state_of_charge_percent == soc_percent_of_word(register_word(soc_hi, soc_lo)),
        r.cell_millivolts == millivolts_of_word(register_word(vcell_hi, vcell_lo)),
{
    BatteryStats {
        state_of_charge_percent: soc_percent_from_registers(soc_hi, soc_lo),
        cell_millivolts: millivolts_from_registers(vcell_hi, vcell_lo),
    }
}

/// Hard shutdown threshold in cell millivolts.  The sensor's hardware cutoff
/// is 3000 mV; triggering at 3400 mV absorbs the typical voltage sag under
/// load that would otherwise cause a reboot loop right at cutoff.
pub const SHUTDOWN_MILLIVOLTS: i32 = 3400;

/// The latest battery state published to the rest of the process.  `valid`
/// reports whether the most recent poll cycle succeeded; the two values are
/// whatever the most recent successful poll produced.
#[derive(Clone, Copy, PartialEq, Eq, Structural, Debug)]
pub struct BatteryReading {
    pub state_of_charge_percent: i32,
    pub cell_millivolts: i32,
    pub valid: bool,
}

/// The reading after one poll cycle: a successful poll overwrites both
/// values and marks the reading valid; a failed poll leaves the prior
/// values in place and only clears the validity flag.
pub open spec fn after_poll(prev: BatteryReading, poll: Option<BatteryStats>) -> BatteryReading {
    match poll {
        Option::Some(stats) => BatteryReading {
            state_of_charge_percent: stats.state_of_charge_percent,
            cell_millivolts: stats.cell_millivolts,
            valid: true,
        },
        Option::None => BatteryReading { valid: false, ..prev },
    }
}

impl BatteryReading {
    /// The sentinel reading the process starts with: plausible values,
    /// marked invalid until the first successful poll.
    pub fn startup() -> (r: BatteryReading)
        ensures
            r.state_of_charge_percent == 100,
            r.cell_millivolts == 4000,
            !r.valid,
    {
        BatteryReading { state_of_charge_percent: 100, cell_millivolts: 4000, valid: false }
    }

    /// Whether the low-voltage shutdown must fire: only a reading whose own
    /// poll cycle succeeded may trigger, and only at or below the threshold.
    pub open spec fn shutdown_due(self) -> bool {
        self.valid && self.cell_millivolts <= SHUTDOWN_MILLIVOLTS
    }

    /// Applies the outcome of one poll cycle to the shared reading.
    pub fn apply_poll(&mut self, poll: Option<BatteryStats>)
        ensures
            *final(self) == after_poll(*old(self), poll),
    {
        match poll {
            Option::Some(stats) => {
                self.state_of_charge_percent = stats.state_of_charge_percent;
                self.cell_millivolts = stats.cell_millivolts;
                self.valid = true;
            },
            Option::None => {
                self.valid = false;
            },
        }
    }

    /// The shutdown decision on the current reading.
    pub fn should_shutdown(&self) -> (r: bool)
        ensures
            r == self.shutdown_due(),
    {
        self.valid && self.cell_millivolts <= SHUTDOWN_MILLIVOLTS
    }
}

/// The reading after a whole sequence of poll cycles, applied in order.
pub open spec fn reading_after(init: BatteryReading, polls: Seq<Option<BatteryStats>>)
    -> BatteryReading
    decreases polls.len(),
{
    if polls.len() == 0 {
        init
    } else {
        after_poll(reading_after(init, polls.drop_last()), polls.last())
    }
}

/// A failed poll never overwrites the previously published values, and
/// after any poll the validity flag reports exactly that poll's own
/// success or failure.
pub proof fn lemma_failed_poll_preserves_values(prev: BatteryReading, poll: Option<BatteryStats>)
    ensures
        poll is None ==> after_poll(prev, poll).state_of_charge_percent
            == prev.state_of_charge_percent,
        poll is None ==> after_poll(prev, poll).cell_millivolts == prev.cell_millivolts,
        after_poll(prev, poll).valid == (poll is Some),
{
}

/// One step of the shutdown sequencer.
#[derive(Clone, Copy, PartialEq, Eq, Structural, Debug)]
pub enum SequencerStep {
    /// submit this pattern to the indicator actor
    ShowPattern(DisplayPattern),
    /// wait this long with the warning visible
    Hold { milliseconds: u64 },
    /// ask the OS to power off; never retried, and the last step attempted
    RequestPowerOff,
}

/// How long the fast-blink warning stays visible before power is lost, so a
/// human observer has time to notice it.  Never skipped or shortened.
pub const SHUTDOWN_WARNING_MILLISECONDS: u64 = 3000;

/// The safety-critical shutdown order: deassert any current pattern, assert
/// the fast-blink warning, hold it visible, deassert, then request power-off.
pub open spec fn shutdown_plan() -> Seq<SequencerStep> {
    seq![
        SequencerStep::ShowPattern(off_pattern()),
        SequencerStep::ShowPattern(low_battery_pattern()),
        SequencerStep::Hold { milliseconds: SHUTDOWN_WARNING_MILLISECONDS },
        SequencerStep::ShowPattern(off_pattern()),
        SequencerStep::RequestPowerOff,
    ]
}

/// Builds the shutdown sequence, in its exact safety-critical order.
pub fn shutdown_sequence() -> (r: Vec<SequencerStep>)
    ensures
        r@ == shutdown_plan(),
{
    let mut r: Vec<SequencerStep> = Vec::new();
    r.push(SequencerStep::ShowPattern(off_pattern()));
    r.push(SequencerStep::ShowPattern(low_battery_pattern()));
    r.push(SequencerStep::Hold { milliseconds: SHUTDOWN_WARNING_MILLISECONDS });
    r.push(SequencerStep::ShowPattern(off_pattern()));
    r.push(SequencerStep::RequestPowerOff);
    proof {
        assert(r@ =~= shutdown_plan());
    }
    r
}

/// The battery monitor's own state: the shared reading it publishes, and a
/// latch remembering that the shutdown sequence already ran.  The latch
/// makes a sustained low reading act exactly once: power-off is never
/// retried, and the poll loop cannot re-trigger while the requested
/// shutdown takes effect.
pub struct BatteryMonitor {
    pub reading: BatteryReading,
    pub shutdown_requested: bool,
}

impl BatteryMonitor {
    /// The monitor at process start: the sentinel reading, nothing latched.
    pub fn startup() -> (r: BatteryMonitor)
        ensures
            r.reading == (BatteryReading {
                state_of_charge_percent: 100,
                cell_millivolts: 4000,
                valid: false,
            }),
            !r.shutdown_requested,
    {
        BatteryMonitor { reading: BatteryReading::startup(), shutdown_requested: false }
    }

    /// One whole poll cycle: publish the poll's outcome to the reading,
    /// then decide whether the shutdown sequence must run.  The sequence is
    /// handed out exactly when the fresh reading makes the shutdown due and
    /// none was requested before; it is never handed out twice.
    pub fn cycle(&mut self, poll: Option<BatteryStats>) -> (r: Option<Vec<SequencerStep>>)
        ensures
            final(self).reading == after_poll(old(self).reading, poll),
            (r is Some) <==> (final(self).reading.shutdown_due() && !old(self).shutdown_requested),
            r is Some ==> r->Some_0@ == shutdown_plan(),
            final(self).shutdown_requested == (old(self).shutdown_requested
                || final(self).reading.shutdown_due()),
    {
        self.reading.apply_poll(poll);
        if self.reading.should_shutdown() {
            if self.shutdown_requested {
                Option::None
            } else {
                self.shutdown_requested = true;
                Option::Some(shutdown_sequence())
            }
        } else {
            Option::None
        }
    }
}

/// After any history of poll cycles, the shutdown decision fires if and
/// only if the last cycle's own poll succeeded with cell voltage at or
/// below the threshold: a failed poll never triggers shutdown, whatever
/// the last known voltage was.
pub proof fn lemma_shutdown_iff_successful_low_reading(
    init: BatteryReading,
    polls: Seq<Option<BatteryStats>>,
)
    requires
        polls.len() > 0,
    ensures
        reading_after(init, polls).shutdown_due() <==> (polls.last() is Some
            && polls.last()->Some_0.cell_millivolts <= SHUTDOWN_MILLIVOLTS),
{
}

} // verus!

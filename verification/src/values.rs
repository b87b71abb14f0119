use vstd::prelude::*;

use crate::catalog::Parameter;
use crate::catalog::RunMode;
use crate::catalog::Statistic;

verus! {

/// Largest raw value a 14-bit wire field can carry.
pub const RAW_VALUE_MAX: u16 = 0x3FFF;

/// Sign extension of a 14-bit field as a spec-level bit formula: when bit 13
/// of the assembled value is set, bits 14 and 15 are forced to 1 before the
/// result is read as a signed integer.
pub open spec fn spec_sign_extend_i14(x: u16) -> i16 {
    if x & 0x2000 != 0 {
        (x | 0xC000) as i16
    } else {
        x as i16
    }
}

/// Reads a 14-bit wire field as a signed integer by testing bit 13 and, when
/// it is set, forcing bits 14 and 15 to 1. On a value that fits in 14 bits
/// this yields the two's-complement meaning of the low 14 bits.
pub fn sign_extend_i14(x: u16) -> (r: i16)
    ensures
        r == spec_sign_extend_i14(x),
        x <= 0x3FFF ==> r as int == if x >= 0x2000 {
            x - 0x4000
        } else {
            x as int
        },
{
    proof {
        assert(x <= 0x3FFF ==> spec_sign_extend_i14(x) as int == if x >= 0x2000 {
            x - 0x4000
        } else {
            x as int
        }) by (bit_vector);
    }
    if (x & 0x2000) != 0 {
        #[verifier::truncate] ((x | 0xC000) as i16)
    } else {
        #[verifier::truncate] (x as i16)
    }
}

/// Quantizes an already-scaled integer into the raw range of a 14-bit wire
/// field: inputs below 0 saturate to 0, inputs above `RAW_VALUE_MAX`
/// saturate to `RAW_VALUE_MAX`. Out-of-range physical inputs are thereby
/// silently clamped, never wrapped.
pub open spec fn spec_saturate_to_raw(x: int) -> u16 {
    if x < 0 {
        0
    } else if x > RAW_VALUE_MAX {
        RAW_VALUE_MAX
    } else {
        x as u16
    }
}

/// Clamps a scaled integer into the valid raw range `0 ..= RAW_VALUE_MAX`.
pub fn saturate_to_raw(x: i32) -> (r: u16)
    ensures
        r == spec_saturate_to_raw(x as int),
{
    if x < 0 {
        0
    } else if x > RAW_VALUE_MAX as i32 {
        RAW_VALUE_MAX
    } else {
        x as u16
    }
}

/// The physical-unit pairing of a parameter-catalog entry with a numeric
/// value.
///
/// Scaled quantities are carried as the fixed-point raw integer that travels
/// on the wire; each variant's doc comment gives the physical meaning of one
/// raw unit. The pairing round-trips losslessly through the 14-bit wire
/// representation exactly when [`ParameterValue::representable`] holds.
#[derive(Copy, Clone, Debug, PartialEq, Eq, Structural)]
pub enum ParameterValue {
    /// Nanoseconds, read from the wire as a sign-extended 14-bit value.
    DelayCompensationNs(i16),
    /// Sixteenths of a kilohertz: kilohertz = raw / 16.
    StartupFrequencyRaw(u16),
    /// Sixteenths of a kilohertz: kilohertz = raw / 16.
    LockRangeRaw(u16),
    /// A closed enumeration; travels as its small integer wire value.
    RunMode(RunMode),
    /// Microseconds.
    LockTimeUs(u16),
    /// Microseconds.
    StartupTimeUs(u16),
    /// Tens of microseconds: microseconds = raw * 10.
    OnTimeRaw(u16),
    /// Milliseconds.
    OffTimeMs(u16),
    /// Fraction of full power in units of 1/16383 (16383 = full power).
    RampStartPowerRaw(u16),
    /// Fraction of full power in units of 1/16383 (16383 = full power).
    RampEndPowerRaw(u16),
    /// 1/256 ampere units: amperes = raw / 256.
    MinLockCurrentRaw(u16),
    /// 1/32 ampere units: amperes = raw / 32.
    CurrentLimitRaw(u16),
    /// Fraction of full power in units of 1/16383 (16383 = full power).
    FlatPowerRaw(u16),
}

impl ParameterValue {
    /// The catalog entry this value pairs with.
    pub open spec fn spec_parameter(self) -> Parameter {
        match self {
            ParameterValue::DelayCompensationNs(..) => Parameter::DelayCompensation,
            ParameterValue::StartupFrequencyRaw(..) => Parameter::StartupFrequency,
            ParameterValue::LockRangeRaw(..) => Parameter::LockRange,
            ParameterValue::RunMode(..) => Parameter::RunMode,
            ParameterValue::LockTimeUs(..) => Parameter::LockTime,
            ParameterValue::StartupTimeUs(..) => Parameter::StartupTime,
            ParameterValue::OnTimeRaw(..) => Parameter::OnTime,
            ParameterValue::OffTimeMs(..) => Parameter::OffTime,
            ParameterValue::RampStartPowerRaw(..) => Parameter::RampStartPower,
            ParameterValue::RampEndPowerRaw(..) => Parameter::RampEndPower,
            ParameterValue::MinLockCurrentRaw(..) => Parameter::MinLockCurrent,
            ParameterValue::CurrentLimitRaw(..) => Parameter::CurrentLimit,
            ParameterValue::FlatPowerRaw(..) => Parameter::FlatPower,
        }
    }

    pub fn parameter(&self) -> (p: Parameter)
        ensures
            p == self.spec_parameter(),
    {
        match self {
            ParameterValue::DelayCompensationNs(..) => Parameter::DelayCompensation,
            ParameterValue::StartupFrequencyRaw(..) => Parameter::StartupFrequency,
            ParameterValue::LockRangeRaw(..) => Parameter::LockRange,
            ParameterValue::RunMode(..) => Parameter::RunMode,
            ParameterValue::LockTimeUs(..) => Parameter::LockTime,
            ParameterValue::StartupTimeUs(..) => Parameter::StartupTime,
            ParameterValue::OnTimeRaw(..) => Parameter::OnTime,
            ParameterValue::OffTimeMs(..) => Parameter::OffTime,
            ParameterValue::RampStartPowerRaw(..) => Parameter::RampStartPower,
            ParameterValue::RampEndPowerRaw(..) => Parameter::RampEndPower,
            ParameterValue::MinLockCurrentRaw(..) => Parameter::MinLockCurrent,
            ParameterValue::CurrentLimitRaw(..) => Parameter::CurrentLimit,
            ParameterValue::FlatPowerRaw(..) => Parameter::FlatPower,
        }
    }

    /// The raw 14-bit integer this value puts on the wire.
    pub open spec fn spec_to_raw(self) -> u16 {
        match self {
            ParameterValue::DelayCompensationNs(delay_ns) => delay_ns as u16,
            ParameterValue::StartupFrequencyRaw(raw) => raw,
            ParameterValue::LockRangeRaw(raw) => raw,
            ParameterValue::RunMode(run_mode) => run_mode.spec_wire_value(),
            ParameterValue::LockTimeUs(time) => time,
            ParameterValue::StartupTimeUs(time) => time,
            ParameterValue::OnTimeRaw(raw) => raw,
            ParameterValue::OffTimeMs(time) => time,
            ParameterValue::RampStartPowerRaw(raw) => raw,
            ParameterValue::RampEndPowerRaw(raw) => raw,
            ParameterValue::MinLockCurrentRaw(raw) => raw,
            ParameterValue::CurrentLimitRaw(raw) => raw,
            ParameterValue::FlatPowerRaw(raw) => raw,
        }
    }

    /// Identity plus raw wire value, the form the encoder packs.
    pub fn to_raw(self) -> (r: (Parameter, u16))
        ensures
            r.0 == self.spec_parameter(),
            r.1 == self.spec_to_raw(),
    {
        match self {
            ParameterValue::DelayCompensationNs(delay_ns) => (
                Parameter::DelayCompensation,
                #[verifier::truncate] (delay_ns as u16),
            ),
            ParameterValue::StartupFrequencyRaw(raw) => (Parameter::StartupFrequency, raw),
            ParameterValue::LockRangeRaw(raw) => (Parameter::LockRange, raw),
            ParameterValue::RunMode(run_mode) => (Parameter::RunMode, run_mode.wire_value()),
            ParameterValue::LockTimeUs(time) => (Parameter::LockTime, time),
            ParameterValue::StartupTimeUs(time) => (Parameter::StartupTime, time),
            ParameterValue::OnTimeRaw(raw) => (Parameter::OnTime, raw),
            ParameterValue::OffTimeMs(time) => (Parameter::OffTime, time),
            ParameterValue::RampStartPowerRaw(raw) => (Parameter::RampStartPower, raw),
            ParameterValue::RampEndPowerRaw(raw) => (Parameter::RampEndPower, raw),
            ParameterValue::MinLockCurrentRaw(raw) => (Parameter::MinLockCurrent, raw),
            ParameterValue::CurrentLimitRaw(raw) => (Parameter::CurrentLimit, raw),
            ParameterValue::FlatPowerRaw(raw) => (Parameter::FlatPower, raw),
        }
    }

    /// The value a decoded raw integer stands for under a given catalog
    /// entry; `None` exactly when the entry is the run mode and the integer
    /// lies outside its valid set.
    pub open spec fn spec_from_raw(param: Parameter, value: u16) -> Option<ParameterValue> {
        match param {
            Parameter::DelayCompensation => Some(
                ParameterValue::DelayCompensationNs(spec_sign_extend_i14(value)),
            ),
            Parameter::StartupFrequency => Some(ParameterValue::StartupFrequencyRaw(value)),
            Parameter::LockRange => Some(ParameterValue::LockRangeRaw(value)),
            Parameter::RunMode => match RunMode::spec_from_wire_value(value) {
                Some(mode) => Some(ParameterValue::RunMode(mode)),
                None => None,
            },
            Parameter::LockTime => Some(ParameterValue::LockTimeUs(value)),
            Parameter::StartupTime => Some(ParameterValue::StartupTimeUs(value)),
            Parameter::OnTime => Some(ParameterValue::OnTimeRaw(value)),
            Parameter::OffTime => Some(ParameterValue::OffTimeMs(value)),
            Parameter::RampStartPower => Some(ParameterValue::RampStartPowerRaw(value)),
            Parameter::RampEndPower => Some(ParameterValue::RampEndPowerRaw(value)),
            Parameter::MinLockCurrent => Some(ParameterValue::MinLockCurrentRaw(value)),
            Parameter::CurrentLimit => Some(ParameterValue::CurrentLimitRaw(value)),
            Parameter::FlatPower => Some(ParameterValue::FlatPowerRaw(value)),
        }
    }

    /// Pairs a catalog entry with a decoded raw integer, the form the
    /// decoder assembles.
    pub fn from_raw(param: Parameter, value: u16) -> (r: Option<ParameterValue>)
        ensures
            r == ParameterValue::spec_from_raw(param, value),
    {
        match param {
            Parameter::DelayCompensation => Some(
                ParameterValue::DelayCompensationNs(sign_extend_i14(value)),
            ),
            Parameter::StartupFrequency => Some(ParameterValue::StartupFrequencyRaw(value)),
            Parameter::LockRange => Some(ParameterValue::LockRangeRaw(value)),
            Parameter::RunMode => match RunMode::from_wire_value(value) {
                Some(mode) => Some(ParameterValue::RunMode(mode)),
                None => None,
            },
            Parameter::LockTime => Some(ParameterValue::LockTimeUs(value)),
            Parameter::StartupTime => Some(ParameterValue::StartupTimeUs(value)),
            Parameter::OnTime => Some(ParameterValue::OnTimeRaw(value)),
            Parameter::OffTime => Some(ParameterValue::OffTimeMs(value)),
            Parameter::RampStartPower => Some(ParameterValue::RampStartPowerRaw(value)),
            Parameter::RampEndPower => Some(ParameterValue::RampEndPowerRaw(value)),
            Parameter::MinLockCurrent => Some(ParameterValue::MinLockCurrentRaw(value)),
            Parameter::CurrentLimit => Some(ParameterValue::CurrentLimitRaw(value)),
            Parameter::FlatPower => Some(ParameterValue::FlatPowerRaw(value)),
        }
    }

    /// Whether the value fits the 14-bit wire field it travels in, so that
    /// decoding its encoding gives it back unchanged.
    pub open spec fn representable(self) -> bool {
        match self {
            ParameterValue::DelayCompensationNs(delay_ns) => -0x2000 <= delay_ns <= 0x1FFF,
            ParameterValue::StartupFrequencyRaw(raw) => raw <= RAW_VALUE_MAX,
            ParameterValue::LockRangeRaw(raw) => raw <= RAW_VALUE_MAX,
            ParameterValue::RunMode(..) => true,
            ParameterValue::LockTimeUs(time) => time <= RAW_VALUE_MAX,
            ParameterValue::StartupTimeUs(time) => time <= RAW_VALUE_MAX,
            ParameterValue::OnTimeRaw(raw) => raw <= RAW_VALUE_MAX,
            ParameterValue::OffTimeMs(time) => time <= RAW_VALUE_MAX,
            ParameterValue::RampStartPowerRaw(raw) => raw <= RAW_VALUE_MAX,
            ParameterValue::RampEndPowerRaw(raw) => raw <= RAW_VALUE_MAX,
            ParameterValue::MinLockCurrentRaw(raw) => raw <= RAW_VALUE_MAX,
            ParameterValue::CurrentLimitRaw(raw) => raw <= RAW_VALUE_MAX,
            ParameterValue::FlatPowerRaw(raw) => raw <= RAW_VALUE_MAX,
        }
    }
}

/// The physical-unit pairing of a statistic-catalog entry with a numeric
/// value, carried as the fixed-point raw integer that travels on the wire.
#[derive(Copy, Clone, Debug, PartialEq, Eq, Structural)]
pub enum StatisticValue {
    /// 1/32 ampere units: amperes = raw / 32.
    MaxPrimaryCurrentRaw(u16),
    /// Sixteenths of a kilohertz: kilohertz = raw / 16.
    FeedbackFrequencyRaw(u16),
}

impl StatisticValue {
    /// The catalog entry this value pairs with.
    pub open spec fn spec_statistic(self) -> Statistic {
        match self {
            StatisticValue::MaxPrimaryCurrentRaw(..) => Statistic::MaxPrimaryCurrent,
            StatisticValue::FeedbackFrequencyRaw(..) => Statistic::FeedbackFrequency,
        }
    }

    /// The raw 14-bit integer this value puts on the wire.
    pub open spec fn spec_to_raw(self) -> u16 {
        match self {
            StatisticValue::MaxPrimaryCurrentRaw(raw) => raw,
            StatisticValue::FeedbackFrequencyRaw(raw) => raw,
        }
    }

    /// Identity plus raw wire value, the form the encoder packs.
    pub fn to_raw(self) -> (r: (Statistic, u16))
        ensures
            r.0 == self.spec_statistic(),
            r.1 == self.spec_to_raw(),
    {
        match self {
            StatisticValue::MaxPrimaryCurrentRaw(raw) => (Statistic::MaxPrimaryCurrent, raw),
            StatisticValue::FeedbackFrequencyRaw(raw) => (Statistic::FeedbackFrequency, raw),
        }
    }

    /// The value a decoded raw integer stands for under a given catalog
    /// entry; total, since neither statistic restricts its raw range.
    pub open spec fn spec_from_raw(stat: Statistic, value: u16) -> StatisticValue {
        match stat {
            Statistic::MaxPrimaryCurrent => StatisticValue::MaxPrimaryCurrentRaw(value),
            Statistic::FeedbackFrequency => StatisticValue::FeedbackFrequencyRaw(value),
        }
    }

    /// Pairs a catalog entry with a decoded raw integer, the form the
    /// decoder assembles.
    pub fn from_raw(stat: Statistic, value: u16) -> (r: StatisticValue)
        ensures
            r == StatisticValue::spec_from_raw(stat, value),
    {
        match stat {
            Statistic::MaxPrimaryCurrent => StatisticValue::MaxPrimaryCurrentRaw(value),
            Statistic::FeedbackFrequency => StatisticValue::FeedbackFrequencyRaw(value),
        }
    }

    /// Whether the value fits the 14-bit wire field it travels in.
    pub open spec fn representable(self) -> bool {
        match self {
            StatisticValue::MaxPrimaryCurrentRaw(raw) => raw <= RAW_VALUE_MAX,
            StatisticValue::FeedbackFrequencyRaw(raw) => raw <= RAW_VALUE_MAX,
        }
    }
}

} // verus!

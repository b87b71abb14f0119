use vstd::prelude::*;

verus! {

/// Wire ids of the parameter catalog. Both ends of the link must agree on
/// these byte-for-byte; changing one breaks wire compatibility.
pub const PARAMETER_ID_DELAY_COMP: u8 = 1;

pub const PARAMETER_ID_STARTUP_FREQ: u8 = 2;

pub const PARAMETER_ID_RUN_MODE: u8 = 3;

pub const PARAMETER_ID_LOCK_TIME: u8 = 4;

pub const PARAMETER_ID_STARTUP_TIME: u8 = 5;

pub const PARAMETER_ID_ON_TIME: u8 = 6;

pub const PARAMETER_ID_OFF_TIME: u8 = 7;

pub const PARAMETER_ID_RAMP_START: u8 = 8;

pub const PARAMETER_ID_RAMP_END: u8 = 9;

pub const PARAMETER_ID_MIN_LOCK_CURRENT: u8 = 10;

pub const PARAMETER_ID_CURRENT_LIMIT: u8 = 11;

pub const PARAMETER_ID_FLAT_POWER: u8 = 12;

pub const PARAMETER_ID_LOCK_RANGE: u8 = 13;

/// Wire ids of the statistic catalog.
pub const STATISTIC_ID_MAX_PRIMARY_CURRENT: u8 = 0;

pub const STATISTIC_ID_FEEDBACK_FREQUENCY: u8 = 1;

/// A semantic identity in the parameter catalog: one entry per tunable
/// setting of the controller.
#[derive(Copy, Clone, Debug, PartialEq, Eq, Structural)]
pub enum Parameter {
    DelayCompensation,
    StartupFrequency,
    LockRange,
    RunMode,
    LockTime,
    StartupTime,
    OnTime,
    OffTime,
    RampStartPower,
    RampEndPower,
    MinLockCurrent,
    CurrentLimit,
    FlatPower,
}

impl Parameter {
    /// The 7-bit wire id of this parameter.
    pub open spec fn spec_wire_id(self) -> u8 {
        match self {
            Parameter::DelayCompensation => PARAMETER_ID_DELAY_COMP,
            Parameter::StartupFrequency => PARAMETER_ID_STARTUP_FREQ,
            Parameter::LockRange => PARAMETER_ID_LOCK_RANGE,
            Parameter::RunMode => PARAMETER_ID_RUN_MODE,
            Parameter::LockTime => PARAMETER_ID_LOCK_TIME,
            Parameter::StartupTime => PARAMETER_ID_STARTUP_TIME,
            Parameter::OnTime => PARAMETER_ID_ON_TIME,
            Parameter::OffTime => PARAMETER_ID_OFF_TIME,
            Parameter::RampStartPower => PARAMETER_ID_RAMP_START,
            Parameter::RampEndPower => PARAMETER_ID_RAMP_END,
            Parameter::MinLockCurrent => PARAMETER_ID_MIN_LOCK_CURRENT,
            Parameter::CurrentLimit => PARAMETER_ID_CURRENT_LIMIT,
            Parameter::FlatPower => PARAMETER_ID_FLAT_POWER,
        }
    }

    /// The parameter a 7-bit wire id names, or `None` for an id outside the
    /// catalog.
    pub open spec fn spec_from_wire_id(id: u8) -> Option<Parameter> {
        if id == PARAMETER_ID_DELAY_COMP {
            Some(Parameter::DelayCompensation)
        } else if id == PARAMETER_ID_STARTUP_FREQ {
            Some(Parameter::StartupFrequency)
        } else if id == PARAMETER_ID_RUN_MODE {
            Some(Parameter::RunMode)
        } else if id == PARAMETER_ID_LOCK_TIME {
            Some(Parameter::LockTime)
        } else if id == PARAMETER_ID_STARTUP_TIME {
            Some(Parameter::StartupTime)
        } else if id == PARAMETER_ID_ON_TIME {
            Some(Parameter::OnTime)
        } else if id == PARAMETER_ID_OFF_TIME {
            Some(Parameter::OffTime)
        } else if id == PARAMETER_ID_RAMP_START {
            Some(Parameter::RampStartPower)
        } else if id == PARAMETER_ID_RAMP_END {
            Some(Parameter::RampEndPower)
        } else if id == PARAMETER_ID_MIN_LOCK_CURRENT {
            Some(Parameter::MinLockCurrent)
        } else if id == PARAMETER_ID_CURRENT_LIMIT {
            Some(Parameter::CurrentLimit)
        } else if id == PARAMETER_ID_FLAT_POWER {
            Some(Parameter::FlatPower)
        } else if id == PARAMETER_ID_LOCK_RANGE {
            Some(Parameter::LockRange)
        } else {
            None
        }
    }

    /// Identity -> wire id direction of the catalog lookup.
    pub fn wire_id(self) -> (r: u8)
        ensures
            r == self.spec_wire_id(),
    {
        match self {
            Parameter::DelayCompensation => PARAMETER_ID_DELAY_COMP,
            Parameter::StartupFrequency => PARAMETER_ID_STARTUP_FREQ,
            Parameter::LockRange => PARAMETER_ID_LOCK_RANGE,
            Parameter::RunMode => PARAMETER_ID_RUN_MODE,
            Parameter::LockTime => PARAMETER_ID_LOCK_TIME,
            Parameter::StartupTime => PARAMETER_ID_STARTUP_TIME,
            Parameter::OnTime => PARAMETER_ID_ON_TIME,
            Parameter::OffTime => PARAMETER_ID_OFF_TIME,
            Parameter::RampStartPower => PARAMETER_ID_RAMP_START,
            Parameter::RampEndPower => PARAMETER_ID_RAMP_END,
            Parameter::MinLockCurrent => PARAMETER_ID_MIN_LOCK_CURRENT,
            Parameter::CurrentLimit => PARAMETER_ID_CURRENT_LIMIT,
            Parameter::FlatPower => PARAMETER_ID_FLAT_POWER,
        }
    }

    /// Wire id -> identity direction of the catalog lookup; fails on an
    /// unknown id.
    pub fn from_wire_id(id: u8) -> (r: Option<Parameter>)
        ensures
            r == Parameter::spec_from_wire_id(id),
    {
        if id == PARAMETER_ID_DELAY_COMP {
            Some(Parameter::DelayCompensation)
        } else if id == PARAMETER_ID_STARTUP_FREQ {
            Some(Parameter::StartupFrequency)
        } else if id == PARAMETER_ID_RUN_MODE {
            Some(Parameter::RunMode)
        } else if id == PARAMETER_ID_LOCK_TIME {
            Some(Parameter::LockTime)
        } else if id == PARAMETER_ID_STARTUP_TIME {
            Some(Parameter::StartupTime)
        } else if id == PARAMETER_ID_ON_TIME {
            Some(Parameter::OnTime)
        } else if id == PARAMETER_ID_OFF_TIME {
            Some(Parameter::OffTime)
        } else if id == PARAMETER_ID_RAMP_START {
            Some(Parameter::RampStartPower)
        } else if id == PARAMETER_ID_RAMP_END {
            Some(Parameter::RampEndPower)
        } else if id == PARAMETER_ID_MIN_LOCK_CURRENT {
            Some(Parameter::MinLockCurrent)
        } else if id == PARAMETER_ID_CURRENT_LIMIT {
            Some(Parameter::CurrentLimit)
        } else if id == PARAMETER_ID_FLAT_POWER {
            Some(Parameter::FlatPower)
        } else if id == PARAMETER_ID_LOCK_RANGE {
            Some(Parameter::LockRange)
        } else {
            None
        }
    }
}

/// A small closed enumeration carried inside the run-mode parameter.
#[derive(Copy, Clone, Debug, PartialEq, Eq, Structural)]
pub enum RunMode {
    OpenLoop,
    TestClosedLoop,
    ClosedLoopRamp,
}

impl RunMode {
    /// The raw integer this mode travels as.
    pub open spec fn spec_wire_value(self) -> u16 {
        match self {
            RunMode::OpenLoop => 0,
            RunMode::TestClosedLoop => 1,
            RunMode::ClosedLoopRamp => 2,
        }
    }

    /// The mode a raw integer names, or `None` outside the valid set.
    pub open spec fn spec_from_wire_value(value: u16) -> Option<RunMode> {
        if value == 0 {
            Some(RunMode::OpenLoop)
        } else if value == 1 {
            Some(RunMode::TestClosedLoop)
        } else if value == 2 {
            Some(RunMode::ClosedLoopRamp)
        } else {
            None
        }
    }

    pub fn wire_value(self) -> (r: u16)
        ensures
            r == self.spec_wire_value(),
    {
        match self {
            RunMode::OpenLoop => 0,
            RunMode::TestClosedLoop => 1,
            RunMode::ClosedLoopRamp => 2,
        }
    }

    pub fn from_wire_value(value: u16) -> (r: Option<RunMode>)
        ensures
            r == RunMode::spec_from_wire_value(value),
    {
        if value == 0 {
            Some(RunMode::OpenLoop)
        } else if value == 1 {
            Some(RunMode::TestClosedLoop)
        } else if value == 2 {
            Some(RunMode::ClosedLoopRamp)
        } else {
            None
        }
    }
}

/// A semantic identity in the statistic catalog: one entry per quantity the
/// controller measures.
#[derive(Copy, Clone, Debug, PartialEq, Eq, Structural)]
pub enum Statistic {
    MaxPrimaryCurrent,
    FeedbackFrequency,
}

impl Statistic {
    /// The 7-bit wire id of this statistic.
    pub open spec fn spec_wire_id(self) -> u8 {
        match self {
            Statistic::MaxPrimaryCurrent => STATISTIC_ID_MAX_PRIMARY_CURRENT,
            Statistic::FeedbackFrequency => STATISTIC_ID_FEEDBACK_FREQUENCY,
        }
    }

    /// The statistic a 7-bit wire id names, or `None` for an id outside the
    /// catalog.
    pub open spec fn spec_from_wire_id(id: u8) -> Option<Statistic> {
        if id == STATISTIC_ID_MAX_PRIMARY_CURRENT {
            Some(Statistic::MaxPrimaryCurrent)
        } else if id == STATISTIC_ID_FEEDBACK_FREQUENCY {
            Some(Statistic::FeedbackFrequency)
        } else {
            None
        }
    }

    pub fn wire_id(self) -> (r: u8)
        ensures
            r == self.spec_wire_id(),
    {
        match self {
            Statistic::MaxPrimaryCurrent => STATISTIC_ID_MAX_PRIMARY_CURRENT,
            Statistic::FeedbackFrequency => STATISTIC_ID_FEEDBACK_FREQUENCY,
        }
    }

    pub fn from_wire_id(id: u8) -> (r: Option<Statistic>)
        ensures
            r == Statistic::spec_from_wire_id(id),
    {
        if id == STATISTIC_ID_MAX_PRIMARY_CURRENT {
            Some(Statistic::MaxPrimaryCurrent)
        } else if id == STATISTIC_ID_FEEDBACK_FREQUENCY {
            Some(Statistic::FeedbackFrequency)
        } else {
            None
        }
    }
}

} // verus!

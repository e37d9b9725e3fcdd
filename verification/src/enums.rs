//! Common enumerations for the bus protocols: bus/interface selection,
//! per-family status and error codes, and the parameter value types.

use vstd::prelude::*;

verus! {

// ---------------------------------------------------------------------------
// Bus selection
// ---------------------------------------------------------------------------

#[derive(Debug, Clone, PartialEq, Eq, Structural)]
pub enum BusType {
    SocketCan,
    Virtual,
}

impl BusType {
    pub fn value(&self) -> (r: &'static str)
        ensures
            *self is SocketCan ==> r@ == "socketcan"@,
            *self is Virtual ==> r@ == "virtual"@,
    {
        match self {
            BusType::SocketCan => "socketcan",
            BusType::Virtual => "virtual",
        }
    }
}

/// Selects the named CAN channel to bind.
#[derive(Debug, Clone, PartialEq, Eq, Structural)]
pub enum CanInterface {
    Odrive,
    Myactuator,
    Virtual,
}

impl CanInterface {
    pub fn value(&self) -> (r: &'static str)
        ensures
            *self is Virtual ==> r@ == "vcan"@,
            !(*self is Virtual) ==> r@ == "can0"@,
    {
        match self {
            CanInterface::Odrive => "can0",
            CanInterface::Myactuator => "can0",
            CanInterface::Virtual => "vcan",
        }
    }
}

// ---------------------------------------------------------------------------
// Family-C motor error codes
// ---------------------------------------------------------------------------

#[derive(Debug, Clone, PartialEq, Eq, Structural)]
pub enum X424MotorError {
    NoError,
    MotorOverheating,
    MotorOvercurrent,
    MotorVoltageTooLow,
    MotorEncoderError,
    MotorBrakeVoltageTooHigh,
    DrvDriveError,
}

pub open spec fn spec_x424_error_value(e: X424MotorError) -> u8 {
    match e {
        X424MotorError::NoError => 0,
        X424MotorError::MotorOverheating => 1,
        X424MotorError::MotorOvercurrent => 2,
        X424MotorError::MotorVoltageTooLow => 3,
        X424MotorError::MotorEncoderError => 4,
        X424MotorError::MotorBrakeVoltageTooHigh => 6,
        X424MotorError::DrvDriveError => 7,
    }
}

/// Unknown codes degrade to `NoError` rather than failing.
pub open spec fn spec_x424_error_of_value(value: u8) -> X424MotorError {
    match value {
        1u8 => X424MotorError::MotorOverheating,
        2u8 => X424MotorError::MotorOvercurrent,
        3u8 => X424MotorError::MotorVoltageTooLow,
        4u8 => X424MotorError::MotorEncoderError,
        6u8 => X424MotorError::MotorBrakeVoltageTooHigh,
        7u8 => X424MotorError::DrvDriveError,
        _ => X424MotorError::NoError,
    }
}

impl X424MotorError {
    pub fn value(&self) -> (r: u8)
        ensures
            r == spec_x424_error_value(*self),
    {
        match self {
            X424MotorError::NoError => 0,
            X424MotorError::MotorOverheating => 1,
            X424MotorError::MotorOvercurrent => 2,
            X424MotorError::MotorVoltageTooLow => 3,
            X424MotorError::MotorEncoderError => 4,
            X424MotorError::MotorBrakeVoltageTooHigh => 6,
            X424MotorError::DrvDriveError => 7,
        }
    }

    pub fn from_value(value: u8) -> (r: Self)
        ensures
            r == spec_x424_error_of_value(value),
    {
        match value {
            1 => Self::MotorOverheating,
            2 => Self::MotorOvercurrent,
            3 => Self::MotorVoltageTooLow,
            4 => Self::MotorEncoderError,
            6 => Self::MotorBrakeVoltageTooHigh,
            7 => Self::DrvDriveError,
            _ => Self::NoError,
        }
    }
}

/// `from_value` inverts `value` on every error code.
pub proof fn lemma_x424_error_round_trip(e: X424MotorError)
    ensures
        spec_x424_error_of_value(spec_x424_error_value(e)) == e,
{
}

// ---------------------------------------------------------------------------
// Family-B operating modes and function-control indices
// ---------------------------------------------------------------------------

#[derive(Debug, Clone, PartialEq, Eq, Structural)]
pub enum MyActuatorV3OperatingMode {
    CurrentLoopControl,
    SpeedLoopControl,
    PositionLoopControl,
}

pub open spec fn spec_v3_mode_value(m: MyActuatorV3OperatingMode) -> u8 {
    match m {
        MyActuatorV3OperatingMode::CurrentLoopControl => 0x01,
        MyActuatorV3OperatingMode::SpeedLoopControl => 0x02,
        MyActuatorV3OperatingMode::PositionLoopControl => 0x03,
    }
}

pub open spec fn spec_v3_mode_of_value(value: u8) -> Option<MyActuatorV3OperatingMode> {
    match value {
        0x01u8 => Some(MyActuatorV3OperatingMode::CurrentLoopControl),
        0x02u8 => Some(MyActuatorV3OperatingMode::SpeedLoopControl),
        0x03u8 => Some(MyActuatorV3OperatingMode::PositionLoopControl),
        _ => None,
    }
}

impl MyActuatorV3OperatingMode {
    pub fn value(&self) -> (r: u8)
        ensures
            r == spec_v3_mode_value(*self),
    {
        match self {
            MyActuatorV3OperatingMode::CurrentLoopControl => 0x01,
            MyActuatorV3OperatingMode::SpeedLoopControl => 0x02,
            MyActuatorV3OperatingMode::PositionLoopControl => 0x03,
        }
    }

    pub fn from_value(value: u8) -> (r: Option<Self>)
        ensures
            r == spec_v3_mode_of_value(value),
    {
        match value {
            0x01 => Some(Self::CurrentLoopControl),
            0x02 => Some(Self::SpeedLoopControl),
            0x03 => Some(Self::PositionLoopControl),
            _ => None,
        }
    }
}

/// `from_value` inverts `value` on every operating mode.
pub proof fn lemma_v3_mode_round_trip(m: MyActuatorV3OperatingMode)
    ensures
        spec_v3_mode_of_value(spec_v3_mode_value(m)) == Some(m),
{
}

/// Function indices for the family-B function control command.
#[derive(Debug, Clone, PartialEq, Eq, Structural)]
pub enum MyActuatorFunctionControlIndex {
    /// Clear the motor multi-turn value, update the zero point and save.
    ClearMultiTurnValue,
    /// Enable or disable the CANID filter for communication efficiency.
    CanidFilterEnable,
    /// Enable or disable automatic error status reporting.
    ErrorStatusTransmission,
    /// Enable or disable saving the multi-turn value on power off.
    MultiTurnSaveOnPowerOff,
    /// Set the CANID for the motor.
    SetCanid,
    /// Set the maximum positive angle for position mode.
    SetMaxPositiveAngle,
    /// Set the maximum negative angle for position mode.
    SetMaxNegativeAngle,
}

pub open spec fn spec_function_index_value(f: MyActuatorFunctionControlIndex) -> u8 {
    match f {
        MyActuatorFunctionControlIndex::ClearMultiTurnValue => 0x01,
        MyActuatorFunctionControlIndex::CanidFilterEnable => 0x02,
        MyActuatorFunctionControlIndex::ErrorStatusTransmission => 0x03,
        MyActuatorFunctionControlIndex::MultiTurnSaveOnPowerOff => 0x04,
        MyActuatorFunctionControlIndex::SetCanid => 0x05,
        MyActuatorFunctionControlIndex::SetMaxPositiveAngle => 0x06,
        MyActuatorFunctionControlIndex::SetMaxNegativeAngle => 0x07,
    }
}

pub open spec fn spec_function_index_of_value(value: u8) -> Option<
    MyActuatorFunctionControlIndex,
> {
    match value {
        0x01u8 => Some(MyActuatorFunctionControlIndex::ClearMultiTurnValue),
        0x02u8 => Some(MyActuatorFunctionControlIndex::CanidFilterEnable),
        0x03u8 => Some(MyActuatorFunctionControlIndex::ErrorStatusTransmission),
        0x04u8 => Some(MyActuatorFunctionControlIndex::MultiTurnSaveOnPowerOff),
        0x05u8 => Some(MyActuatorFunctionControlIndex::SetCanid),
        0x06u8 => Some(MyActuatorFunctionControlIndex::SetMaxPositiveAngle),
        0x07u8 => Some(MyActuatorFunctionControlIndex::SetMaxNegativeAngle),
        _ => None,
    }
}

impl MyActuatorFunctionControlIndex {
    pub fn value(&self) -> (r: u8)
        ensures
            r == spec_function_index_value(*self),
    {
        match self {
            MyActuatorFunctionControlIndex::ClearMultiTurnValue => 0x01,
            MyActuatorFunctionControlIndex::CanidFilterEnable => 0x02,
            MyActuatorFunctionControlIndex::ErrorStatusTransmission => 0x03,
            MyActuatorFunctionControlIndex::MultiTurnSaveOnPowerOff => 0x04,
            MyActuatorFunctionControlIndex::SetCanid => 0x05,
            MyActuatorFunctionControlIndex::SetMaxPositiveAngle => 0x06,
            MyActuatorFunctionControlIndex::SetMaxNegativeAngle => 0x07,
        }
    }

    pub fn from_value(value: u8) -> (r: Option<Self>)
        ensures
            r == spec_function_index_of_value(value),
    {
        match value {
            0x01 => Some(Self::ClearMultiTurnValue),
            0x02 => Some(Self::CanidFilterEnable),
            0x03 => Some(Self::ErrorStatusTransmission),
            0x04 => Some(Self::MultiTurnSaveOnPowerOff),
            0x05 => Some(Self::SetCanid),
            0x06 => Some(Self::SetMaxPositiveAngle),
            0x07 => Some(Self::SetMaxNegativeAngle),
            _ => None,
        }
    }
}

/// `from_value` inverts `value` on every function index.
pub proof fn lemma_function_index_round_trip(f: MyActuatorFunctionControlIndex)
    ensures
        spec_function_index_of_value(spec_function_index_value(f)) == Some(f),
{
}

// ---------------------------------------------------------------------------
// Family-A axis states, modes, results and error flags
// ---------------------------------------------------------------------------

#[derive(Debug, Clone, Copy, PartialEq, Eq, Structural)]
pub enum AxisState {
    Undefined,
    Idle,
    StartupSequence,
    FullCalibrationSequence,
    MotorCalibration,
    EncoderIndexSearch,
    EncoderOffsetCalibration,
    ClosedLoopControl,
    LockinSpin,
    EncoderDirFind,
    Homing,
    EncoderHallPolarityCalibration,
    EncoderHallPhaseCalibration,
    AnticoggingCalibration,
}

pub open spec fn spec_axis_state_value(s: AxisState) -> u8 {
    match s {
        AxisState::Undefined => 0,
        AxisState::Idle => 1,
        AxisState::StartupSequence => 2,
        AxisState::FullCalibrationSequence => 3,
        AxisState::MotorCalibration => 4,
        AxisState::EncoderIndexSearch => 6,
        AxisState::EncoderOffsetCalibration => 7,
        AxisState::ClosedLoopControl => 8,
        AxisState::LockinSpin => 9,
        AxisState::EncoderDirFind => 10,
        AxisState::Homing => 11,
        AxisState::EncoderHallPolarityCalibration => 12,
        AxisState::EncoderHallPhaseCalibration => 13,
        AxisState::AnticoggingCalibration => 14,
    }
}

/// Unknown codes degrade to `Undefined` rather than failing.
pub open spec fn spec_axis_state_of_value(value: u8) -> AxisState {
    match value {
        1u8 => AxisState::Idle,
        2u8 => AxisState::StartupSequence,
        3u8 => AxisState::FullCalibrationSequence,
        4u8 => AxisState::MotorCalibration,
        6u8 => AxisState::EncoderIndexSearch,
        7u8 => AxisState::EncoderOffsetCalibration,
        8u8 => AxisState::ClosedLoopControl,
        9u8 => AxisState::LockinSpin,
        10u8 => AxisState::EncoderDirFind,
        11u8 => AxisState::Homing,
        12u8 => AxisState::EncoderHallPolarityCalibration,
        13u8 => AxisState::EncoderHallPhaseCalibration,
        14u8 => AxisState::AnticoggingCalibration,
        _ => AxisState::Undefined,
    }
}

impl AxisState {
    pub fn value(&self) -> (r: u8)
        ensures
            r == spec_axis_state_value(*self),
    {
        match self {
            AxisState::Undefined => 0,
            AxisState::Idle => 1,
            AxisState::StartupSequence => 2,
            AxisState::FullCalibrationSequence => 3,
            AxisState::MotorCalibration => 4,
            AxisState::EncoderIndexSearch => 6,
            AxisState::EncoderOffsetCalibration => 7,
            AxisState::ClosedLoopControl => 8,
            AxisState::LockinSpin => 9,
            AxisState::EncoderDirFind => 10,
            AxisState::Homing => 11,
            AxisState::EncoderHallPolarityCalibration => 12,
            AxisState::EncoderHallPhaseCalibration => 13,
            AxisState::AnticoggingCalibration => 14,
        }
    }

    pub fn from_value(value: u8) -> (r: Self)
        ensures
            r == spec_axis_state_of_value(value),
    {
        match value {
            1 => AxisState::Idle,
            2 => AxisState::StartupSequence,
            3 => AxisState::FullCalibrationSequence,
            4 => AxisState::MotorCalibration,
            6 => AxisState::EncoderIndexSearch,
            7 => AxisState::EncoderOffsetCalibration,
            8 => AxisState::ClosedLoopControl,
            9 => AxisState::LockinSpin,
            10 => AxisState::EncoderDirFind,
            11 => AxisState::Homing,
            12 => AxisState::EncoderHallPolarityCalibration,
            13 => AxisState::EncoderHallPhaseCalibration,
            14 => AxisState::AnticoggingCalibration,
            _ => AxisState::Undefined,
        }
    }
}

/// `from_value` inverts `value` on every axis state.
pub proof fn lemma_axis_state_round_trip(s: AxisState)
    ensures
        spec_axis_state_of_value(spec_axis_state_value(s)) == s,
{
}

#[derive(Debug, Clone, Copy, PartialEq, Eq, Structural)]
pub enum ControlMode {
    VoltageControl,
    TorqueControl,
    VelocityControl,
    PositionControl,
}

pub open spec fn spec_control_mode_value(m: ControlMode) -> u8 {
    match m {
        ControlMode::VoltageControl => 0,
        ControlMode::TorqueControl => 1,
        ControlMode::VelocityControl => 2,
        ControlMode::PositionControl => 3,
    }
}

/// Unknown codes degrade to `VoltageControl` rather than failing.
pub open spec fn spec_control_mode_of_value(value: u32) -> ControlMode {
    match value {
        1u32 => ControlMode::TorqueControl,
        2u32 => ControlMode::VelocityControl,
        3u32 => ControlMode::PositionControl,
        _ => ControlMode::VoltageControl,
    }
}

impl ControlMode {
    pub fn value(&self) -> (r: u8)
        ensures
            r == spec_control_mode_value(*self),
    {
        match self {
            ControlMode::VoltageControl => 0,
            ControlMode::TorqueControl => 1,
            ControlMode::VelocityControl => 2,
            ControlMode::PositionControl => 3,
        }
    }

    pub fn from_value(value: u32) -> (r: Self)
        ensures
            r == spec_control_mode_of_value(value),
    {
        match value {
            1 => ControlMode::TorqueControl,
            2 => ControlMode::VelocityControl,
            3 => ControlMode::PositionControl,
            _ => ControlMode::VoltageControl,
        }
    }
}

/// `from_value` inverts `value` on every control mode.
pub proof fn lemma_control_mode_round_trip(m: ControlMode)
    ensures
        spec_control_mode_of_value(spec_control_mode_value(m) as u32) == m,
{
}

#[derive(Debug, Clone, Copy, PartialEq, Eq, Structural)]
pub enum InputMode {
    Inactive,
    Passthrough,
    VelRamp,
    PosFilter,
    TrapTraj,
    TorqueRamp,
    Mirror,
    Tuning,
}

pub open spec fn spec_input_mode_value(m: InputMode) -> u8 {
    match m {
        InputMode::Inactive => 0,
        InputMode::Passthrough => 1,
        InputMode::VelRamp => 2,
        InputMode::PosFilter => 3,
        InputMode::TrapTraj => 5,
        InputMode::TorqueRamp => 6,
        InputMode::Mirror => 7,
        InputMode::Tuning => 8,
    }
}

/// Unknown codes degrade to `Inactive` rather than failing.
pub open spec fn spec_input_mode_of_value(value: u32) -> InputMode {
    match value {
        1u32 => InputMode::Passthrough,
        2u32 => InputMode::VelRamp,
        3u32 => InputMode::PosFilter,
        5u32 => InputMode::TrapTraj,
        6u32 => InputMode::TorqueRamp,
        7u32 => InputMode::Mirror,
        8u32 => InputMode::Tuning,
        _ => InputMode::Inactive,
    }
}

impl InputMode {
    pub fn value(&self) -> (r: u8)
        ensures
            r == spec_input_mode_value(*self),
    {
        match self {
            InputMode::Inactive => 0,
            InputMode::Passthrough => 1,
            InputMode::VelRamp => 2,
            InputMode::PosFilter => 3,
            InputMode::TrapTraj => 5,
            InputMode::TorqueRamp => 6,
            InputMode::Mirror => 7,
            InputMode::Tuning => 8,
        }
    }

    pub fn from_value(value: u32) -> (r: Self)
        ensures
            r == spec_input_mode_of_value(value),
    {
        match value {
            1 => InputMode::Passthrough,
            2 => InputMode::VelRamp,
            3 => InputMode::PosFilter,
            5 => InputMode::TrapTraj,
            6 => InputMode::TorqueRamp,
            7 => InputMode::Mirror,
            8 => InputMode::Tuning,
            _ => InputMode::Inactive,
        }
    }
}

/// `from_value` inverts `value` on every input mode.
pub proof fn lemma_input_mode_round_trip(m: InputMode)
    ensures
        spec_input_mode_of_value(spec_input_mode_value(m) as u32) == m,
{
}

#[derive(Debug, Clone, Copy, PartialEq, Eq, Structural)]
pub enum ODriveError {
    Initializing,
    SystemLevel,
    TimingError,
    MissingEstimate,
    BadConfig,
    DrvFault,
    MissingInput,
    DcBusOverVoltage,
    DcBusUnderVoltage,
    DcBusOverCurrent,
    DcBusOverRegenCurrent,
    CurrentLimitViolation,
    MotorOverTemp,
    InverterOverTemp,
    VelocityLimitViolation,
    PositionLimitViolation,
    WatchdogTimerExpired,
    EstopRequested,
    SpinoutDetected,
    BrakeResistorDisarmed,
    ThermistorDisconnected,
    CalibrationError,
}

/// The bit each error flag occupies in the 32-bit error word.
pub open spec fn spec_odrive_error_bit(e: ODriveError) -> u32 {
    match e {
        ODriveError::Initializing => 0x1,
        ODriveError::SystemLevel => 0x2,
        ODriveError::TimingError => 0x4,
        ODriveError::MissingEstimate => 0x8,
        ODriveError::BadConfig => 0x10,
        ODriveError::DrvFault => 0x20,
        ODriveError::MissingInput => 0x40,
        ODriveError::DcBusOverVoltage => 0x100,
        ODriveError::DcBusUnderVoltage => 0x200,
        ODriveError::DcBusOverCurrent => 0x400,
        ODriveError::DcBusOverRegenCurrent => 0x800,
        ODriveError::CurrentLimitViolation => 0x1000,
        ODriveError::MotorOverTemp => 0x2000,
        ODriveError::InverterOverTemp => 0x4000,
        ODriveError::VelocityLimitViolation => 0x8000,
        ODriveError::PositionLimitViolation => 0x10000,
        ODriveError::WatchdogTimerExpired => 0x100000,
        ODriveError::EstopRequested => 0x200000,
        ODriveError::SpinoutDetected => 0x400000,
        ODriveError::BrakeResistorDisarmed => 0x800000,
        ODriveError::ThermistorDisconnected => 0x1000000,
        ODriveError::CalibrationError => 0x10000000,
    }
}

/// One error flag as a singleton list if its bit is set, else nothing.
pub open spec fn spec_odrive_flag(bits: u32, e: ODriveError) -> Seq<ODriveError> {
    if bits & spec_odrive_error_bit(e) != 0 {
        seq![e]
    } else {
        Seq::empty()
    }
}

/// All error flags, in the order `from_bits` reports them.
pub open spec fn spec_odrive_error_order() -> Seq<ODriveError> {
    seq![
        ODriveError::Initializing,
        ODriveError::SystemLevel,
        ODriveError::TimingError,
        ODriveError::MissingEstimate,
        ODriveError::BadConfig,
        ODriveError::DrvFault,
        ODriveError::MissingInput,
        ODriveError::DcBusOverVoltage,
        ODriveError::DcBusUnderVoltage,
        ODriveError::DcBusOverCurrent,
        ODriveError::DcBusOverRegenCurrent,
        ODriveError::CurrentLimitViolation,
        ODriveError::MotorOverTemp,
        ODriveError::InverterOverTemp,
        ODriveError::VelocityLimitViolation,
        ODriveError::PositionLimitViolation,
        ODriveError::WatchdogTimerExpired,
        ODriveError::EstopRequested,
        ODriveError::SpinoutDetected,
        ODriveError::BrakeResistorDisarmed,
        ODriveError::ThermistorDisconnected,
        ODriveError::CalibrationError,
    ]
}

/// The set flags among the first `k` of the report order, lowest bit first.
pub open spec fn spec_odrive_errors_upto(bits: u32, k: int) -> Seq<ODriveError>
    decreases k,
{
    if k <= 0 {
        Seq::empty()
    } else {
        spec_odrive_errors_upto(bits, k - 1) + spec_odrive_flag(
            bits,
            spec_odrive_error_order()[k - 1],
        )
    }
}

/// The decoded error list: every flag whose bit is set, lowest bit first.
pub open spec fn spec_odrive_errors_of_bits(bits: u32) -> Seq<ODriveError> {
    spec_odrive_errors_upto(bits, 22)
}

impl ODriveError {
    /// The bit mask of this error flag in the 32-bit error word.
    pub fn bit_mask(&self) -> (r: u32)
        ensures
            r == spec_odrive_error_bit(*self),
    {
        match self {
            ODriveError::Initializing => 0x1,
            ODriveError::SystemLevel => 0x2,
            ODriveError::TimingError => 0x4,
            ODriveError::MissingEstimate => 0x8,
            ODriveError::BadConfig => 0x10,
            ODriveError::DrvFault => 0x20,
            ODriveError::MissingInput => 0x40,
            ODriveError::DcBusOverVoltage => 0x100,
            ODriveError::DcBusUnderVoltage => 0x200,
            ODriveError::DcBusOverCurrent => 0x400,
            ODriveError::DcBusOverRegenCurrent => 0x800,
            ODriveError::CurrentLimitViolation => 0x1000,
            ODriveError::MotorOverTemp => 0x2000,
            ODriveError::InverterOverTemp => 0x4000,
            ODriveError::VelocityLimitViolation => 0x8000,
            ODriveError::PositionLimitViolation => 0x10000,
            ODriveError::WatchdogTimerExpired => 0x100000,
            ODriveError::EstopRequested => 0x200000,
            ODriveError::SpinoutDetected => 0x400000,
            ODriveError::BrakeResistorDisarmed => 0x800000,
            ODriveError::ThermistorDisconnected => 0x1000000,
            ODriveError::CalibrationError => 0x10000000,
        }
    }

    /// Expands a 32-bit error word into the list of set error flags.
    pub fn from_bits(bits: u32) -> (r: Vec<Self>)
        ensures
            r@ == spec_odrive_errors_of_bits(bits),
    {
        let flags: [Self; 22] = [
            ODriveError::Initializing,
            ODriveError::SystemLevel,
            ODriveError::TimingError,
            ODriveError::MissingEstimate,
            ODriveError::BadConfig,
            ODriveError::DrvFault,
            ODriveError::MissingInput,
            ODriveError::DcBusOverVoltage,
            ODriveError::DcBusUnderVoltage,
            ODriveError::DcBusOverCurrent,
            ODriveError::DcBusOverRegenCurrent,
            ODriveError::CurrentLimitViolation,
            ODriveError::MotorOverTemp,
            ODriveError::InverterOverTemp,
            ODriveError::VelocityLimitViolation,
            ODriveError::PositionLimitViolation,
            ODriveError::WatchdogTimerExpired,
            ODriveError::EstopRequested,
            ODriveError::SpinoutDetected,
            ODriveError::BrakeResistorDisarmed,
            ODriveError::ThermistorDisconnected,
            ODriveError::CalibrationError,
        ];
        proof {
            assert(flags@ =~= spec_odrive_error_order());
        }
        let mut errors: Vec<Self> = Vec::new();
        let mut k: usize = 0;
        while k < 22
            invariant
                k <= 22,
                flags@ == spec_odrive_error_order(),
                errors@ == spec_odrive_errors_upto(bits, k as int),
            decreases 22 - k,
        {
            let e = flags[k];
            if bits & e.bit_mask() != 0 {
                errors.push(e);
            }
            k = k + 1;
        }
        errors
    }
}

#[derive(Debug, Clone, Copy, PartialEq, Eq, Structural)]
pub enum ProcedureResult {
    Success,
    Busy,
    Cancelled,
    Disarmed,
    NoResponse,
    PolePairCprMismatch,
    PhaseResistanceOutOfRange,
    PhaseInductanceOutOfRange,
    UnbalancedPhases,
    InvalidMotorType,
    IllegalHallState,
    Timeout,
    HomingWithoutEndstop,
    InvalidState,
    NotCalibrated,
    NotConverging,
}

pub open spec fn spec_procedure_result_value(p: ProcedureResult) -> u8 {
    match p {
        ProcedureResult::Success => 0,
        ProcedureResult::Busy => 1,
        ProcedureResult::Cancelled => 2,
        ProcedureResult::Disarmed => 3,
        ProcedureResult::NoResponse => 4,
        ProcedureResult::PolePairCprMismatch => 5,
        ProcedureResult::PhaseResistanceOutOfRange => 6,
        ProcedureResult::PhaseInductanceOutOfRange => 7,
        ProcedureResult::UnbalancedPhases => 8,
        ProcedureResult::InvalidMotorType => 9,
        ProcedureResult::IllegalHallState => 10,
        ProcedureResult::Timeout => 11,
        ProcedureResult::HomingWithoutEndstop => 12,
        ProcedureResult::InvalidState => 13,
        ProcedureResult::NotCalibrated => 14,
        ProcedureResult::NotConverging => 15,
    }
}

/// Unknown codes degrade to `Success` rather than failing.
pub open spec fn spec_procedure_result_of_value(value: u8) -> ProcedureResult {
    match value {
        1u8 => ProcedureResult::Busy,
        2u8 => ProcedureResult::Cancelled,
        3u8 => ProcedureResult::Disarmed,
        4u8 => ProcedureResult::NoResponse,
        5u8 => ProcedureResult::PolePairCprMismatch,
        6u8 => ProcedureResult::PhaseResistanceOutOfRange,
        7u8 => ProcedureResult::PhaseInductanceOutOfRange,
        8u8 => ProcedureResult::UnbalancedPhases,
        9u8 => ProcedureResult::InvalidMotorType,
        10u8 => ProcedureResult::IllegalHallState,
        11u8 => ProcedureResult::Timeout,
        12u8 => ProcedureResult::HomingWithoutEndstop,
        13u8 => ProcedureResult::InvalidState,
        14u8 => ProcedureResult::NotCalibrated,
        15u8 => ProcedureResult::NotConverging,
        _ => ProcedureResult::Success,
    }
}

impl ProcedureResult {
    pub fn value(&self) -> (r: u8)
        ensures
            r == spec_procedure_result_value(*self),
    {
        match self {
            ProcedureResult::Success => 0,
            ProcedureResult::Busy => 1,
            ProcedureResult::Cancelled => 2,
            ProcedureResult::Disarmed => 3,
            ProcedureResult::NoResponse => 4,
            ProcedureResult::PolePairCprMismatch => 5,
            ProcedureResult::PhaseResistanceOutOfRange => 6,
            ProcedureResult::PhaseInductanceOutOfRange => 7,
            ProcedureResult::UnbalancedPhases => 8,
            ProcedureResult::InvalidMotorType => 9,
            ProcedureResult::IllegalHallState => 10,
            ProcedureResult::Timeout => 11,
            ProcedureResult::HomingWithoutEndstop => 12,
            ProcedureResult::InvalidState => 13,
            ProcedureResult::NotCalibrated => 14,
            ProcedureResult::NotConverging => 15,
        }
    }

    pub fn from_value(value: u8) -> (r: Self)
        ensures
            r == spec_procedure_result_of_value(value),
    {
        match value {
            1 => ProcedureResult::Busy,
            2 => ProcedureResult::Cancelled,
            3 => ProcedureResult::Disarmed,
            4 => ProcedureResult::NoResponse,
            5 => ProcedureResult::PolePairCprMismatch,
            6 => ProcedureResult::PhaseResistanceOutOfRange,
            7 => ProcedureResult::PhaseInductanceOutOfRange,
            8 => ProcedureResult::UnbalancedPhases,
            9 => ProcedureResult::InvalidMotorType,
            10 => ProcedureResult::IllegalHallState,
            11 => ProcedureResult::Timeout,
            12 => ProcedureResult::HomingWithoutEndstop,
            13 => ProcedureResult::InvalidState,
            14 => ProcedureResult::NotCalibrated,
            15 => ProcedureResult::NotConverging,
            _ => ProcedureResult::Success,
        }
    }
}

/// `from_value` inverts `value` on every procedure result.
pub proof fn lemma_procedure_result_round_trip(p: ProcedureResult)
    ensures
        spec_procedure_result_of_value(spec_procedure_result_value(p)) == p,
{
}

// ---------------------------------------------------------------------------
// Parameter value types
// ---------------------------------------------------------------------------

/// The wire type of one configuration parameter.
#[derive(Debug, Clone, Copy, PartialEq, Eq, Structural)]
pub enum ValueTypes {
    Bool,
    Uint8,
    Int8,
    Uint16,
    Int16,
    Uint32,
    Int32,
    Uint64,
    Int64,
    Float,
}

pub open spec fn spec_value_type_size(t: ValueTypes) -> usize {
    match t {
        ValueTypes::Bool | ValueTypes::Uint8 | ValueTypes::Int8 => 1,
        ValueTypes::Uint16 | ValueTypes::Int16 => 2,
        ValueTypes::Uint32 | ValueTypes::Int32 | ValueTypes::Float => 4,
        ValueTypes::Uint64 | ValueTypes::Int64 => 8,
    }
}

impl ValueTypes {
    /// How many payload bytes a value of this type occupies.
    pub fn byte_size(&self) -> (r: usize)
        ensures
            r == spec_value_type_size(*self),
            1 <= r <= 8,
    {
        match self {
            ValueTypes::Bool | ValueTypes::Uint8 | ValueTypes::Int8 => 1,
            ValueTypes::Uint16 | ValueTypes::Int16 => 2,
            ValueTypes::Uint32 | ValueTypes::Int32 | ValueTypes::Float => 4,
            ValueTypes::Uint64 | ValueTypes::Int64 => 8,
        }
    }
}

} // verus!

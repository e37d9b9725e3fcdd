//! Enumeration codec tests: wire values, lookups and their round trips,
//! including the degraded defaults for unknown codes.

use havendrive::enums::{
    AxisState, BusType, CanInterface, ControlMode, InputMode, MyActuatorFunctionControlIndex,
    MyActuatorV3OperatingMode, ODriveError, ProcedureResult, ValueTypes, X424MotorError,
};

#[test]
fn bus_and_interface_names() {
    assert_eq!(BusType::SocketCan.value(), "socketcan");
    assert_eq!(BusType::Virtual.value(), "virtual");
    assert_eq!(CanInterface::Odrive.value(), "can0");
    assert_eq!(CanInterface::Myactuator.value(), "can0");
    assert_eq!(CanInterface::Virtual.value(), "vcan");
}

#[test]
fn x424_error_round_trip_and_default() {
    let all = [
        X424MotorError::NoError,
        X424MotorError::MotorOverheating,
        X424MotorError::MotorOvercurrent,
        X424MotorError::MotorVoltageTooLow,
        X424MotorError::MotorEncoderError,
        X424MotorError::MotorBrakeVoltageTooHigh,
        X424MotorError::DrvDriveError,
    ];
    for e in all {
        assert_eq!(X424MotorError::from_value(e.value()), e);
    }
    assert_eq!(X424MotorError::from_value(5), X424MotorError::NoError);
    assert_eq!(X424MotorError::from_value(0xFF), X424MotorError::NoError);
}

#[test]
fn operating_mode_round_trip_and_unknown() {
    let all = [
        MyActuatorV3OperatingMode::CurrentLoopControl,
        MyActuatorV3OperatingMode::SpeedLoopControl,
        MyActuatorV3OperatingMode::PositionLoopControl,
    ];
    for m in all {
        assert_eq!(MyActuatorV3OperatingMode::from_value(m.value()), Some(m));
    }
    assert_eq!(MyActuatorV3OperatingMode::from_value(0), None);
    assert_eq!(MyActuatorV3OperatingMode::from_value(4), None);
}

#[test]
fn function_index_round_trip_and_unknown() {
    let all = [
        MyActuatorFunctionControlIndex::ClearMultiTurnValue,
        MyActuatorFunctionControlIndex::CanidFilterEnable,
        MyActuatorFunctionControlIndex::ErrorStatusTransmission,
        MyActuatorFunctionControlIndex::MultiTurnSaveOnPowerOff,
        MyActuatorFunctionControlIndex::SetCanid,
        MyActuatorFunctionControlIndex::SetMaxPositiveAngle,
        MyActuatorFunctionControlIndex::SetMaxNegativeAngle,
    ];
    for f in all {
        assert_eq!(MyActuatorFunctionControlIndex::from_value(f.value()), Some(f));
    }
    assert_eq!(MyActuatorFunctionControlIndex::from_value(0), None);
    assert_eq!(MyActuatorFunctionControlIndex::from_value(8), None);
}

#[test]
fn axis_state_round_trip_and_default() {
    assert_eq!(AxisState::from_value(8), AxisState::ClosedLoopControl);
    assert_eq!(AxisState::ClosedLoopControl.value(), 8);
    assert_eq!(AxisState::from_value(5), AxisState::Undefined);
    assert_eq!(AxisState::from_value(200), AxisState::Undefined);
    assert_eq!(AxisState::from_value(AxisState::Homing.value()), AxisState::Homing);
}

#[test]
fn control_and_input_modes() {
    assert_eq!(ControlMode::from_value(3), ControlMode::PositionControl);
    assert_eq!(ControlMode::from_value(9), ControlMode::VoltageControl);
    assert_eq!(InputMode::from_value(5), InputMode::TrapTraj);
    assert_eq!(InputMode::from_value(4), InputMode::Inactive);
    assert_eq!(InputMode::Tuning.value(), 8);
}

#[test]
fn procedure_result_round_trip_and_default() {
    assert_eq!(ProcedureResult::from_value(11), ProcedureResult::Timeout);
    assert_eq!(ProcedureResult::Timeout.value(), 11);
    assert_eq!(ProcedureResult::from_value(16), ProcedureResult::Success);
}

#[test]
fn odrive_error_bits() {
    assert_eq!(ODriveError::from_bits(0), vec![]);
    assert_eq!(
        ODriveError::from_bits(0x10000001),
        vec![ODriveError::Initializing, ODriveError::CalibrationError]
    );
    // Undefined bit positions are ignored.
    assert_eq!(ODriveError::from_bits(0x80), vec![]);
}

#[test]
fn value_type_sizes() {
    assert_eq!(ValueTypes::Bool.byte_size(), 1);
    assert_eq!(ValueTypes::Int16.byte_size(), 2);
    assert_eq!(ValueTypes::Float.byte_size(), 4);
    assert_eq!(ValueTypes::Uint64.byte_size(), 8);
}

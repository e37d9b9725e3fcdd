//! Wire-codec tests: classification, decoding, encoding and round trips
//! for the three device families.

use havendrive::enums::{
    AxisState, MyActuatorFunctionControlIndex, ODriveError, ProcedureResult, ValueTypes,
    X424MotorError,
};
use havendrive::messages::{
    CanMessageTrait, MessageFilter, MyActuatorArbitrationId, OdriveArbitrationId, RawCanMessage,
    X424ArbitrationId,
};
use havendrive::myactuator_v3_msgs::{
    CANIDCommand, FunctionControlCommand, MyActuatorCanMessage, MyactuatorReadMotorStatus1Message,
    PositionControlCommand, ReadMotorStatus2Message, ReadWriteFlag, SpeedControlCommand,
    TorqueControlCommand, VersionAcquisitionCommand,
};
use havendrive::myactuator_x424_msgs::{
    QAReturnMessage, QAReturnMessageType1, QAReturnMessageType2, QAReturnMessageType3,
    QAReturnMessageType4, QAReturnMessageType5, QueryCANCommunicationIDMessage,
    QueryCommunicationModeMessage,
    ResetMotorIDMessage, SetCommunicationModeMessage, SetMotorIDMessage, SetZeroPositionMessage,
    X424CommunicationMode, X424CurrentControlMessage, X424ServoPositionControlMessage,
    X424ServoSpeedControlMessage,
};
use havendrive::odrive_msgs::{
    BusVoltageCurrentMessage, ClearErrorsCommand, ErrorMessage, HeartbeatMessage,
    ParameterResponse, ReadParameterCommand, Reboot, SetAxisStateMessage, SetControllerMode,
    SetPositionMessage, SetVelocityMessage, Value, VersionMessage, WriteParameterCommand,
};
use havendrive::enums::{ControlMode, InputMode};

fn std_frame(arbitration_id: u32, data: Vec<u8>) -> RawCanMessage {
    RawCanMessage {
        arbitration_id,
        data,
        is_extended_id: false,
    }
}

// --- family A -------------------------------------------------------------

#[test]
fn heartbeat_decodes_axis_state_and_trajectory_flag() {
    // Family-A command 0x01 to node 3: (3 << 5) | 0x01, with a 7-byte
    // payload: axis error 0, state 8, result 0, trajectory done 1.
    let frame = std_frame((3 << 5) | 0x01, vec![0, 0, 0, 0, 8, 0, 1]);
    assert!(HeartbeatMessage::matches(&frame));
    let m = HeartbeatMessage::from_can_message(frame);
    assert_eq!(m.node_id(), 3);
    assert_eq!(m.axis_error, 0);
    assert_eq!(m.axis_state, AxisState::ClosedLoopControl);
    assert_eq!(m.procedure_result, ProcedureResult::Success);
    assert!(m.trajectory_done);
}

#[test]
fn heartbeat_short_payload_keeps_defaults() {
    let frame = std_frame((3 << 5) | 0x01, vec![1, 2, 3]);
    let m = HeartbeatMessage::from_can_message(frame);
    assert_eq!(m.axis_error, 0);
    assert_eq!(m.axis_state, AxisState::Undefined);
    assert!(!m.trajectory_done);
}

#[test]
fn heartbeat_does_not_match_other_commands() {
    let frame = std_frame((3 << 5) | 0x02, vec![0; 8]);
    assert!(!HeartbeatMessage::matches(&frame));
    let ext = RawCanMessage {
        arbitration_id: (3 << 5) | 0x01,
        data: vec![],
        is_extended_id: true,
    };
    assert!(!HeartbeatMessage::matches(&ext));
}

#[test]
fn odrive_arbitration_round_trip() {
    let a = OdriveArbitrationId {
        node_id: 0x2A,
        cmd_id: 0x17,
    };
    assert_eq!(a.value(), (0x2A << 5) | 0x17);
    let frame = std_frame(a.value(), vec![]);
    let b = OdriveArbitrationId::from_can_message(&frame);
    assert_eq!(b, a);
}

#[test]
fn bus_voltage_current_decodes_ieee_bits() {
    let mut data = 24.5f32.to_le_bytes().to_vec();
    data.extend_from_slice(&(-1.25f32).to_le_bytes());
    let frame = std_frame((1 << 5) | 0x17, data);
    let m = BusVoltageCurrentMessage::from_can_message(frame);
    assert_eq!(f32::from_bits(m.voltage_bits), 24.5);
    assert_eq!(f32::from_bits(m.current_bits), -1.25);
}

#[test]
fn error_message_expands_bit_flags() {
    let bits: u32 = 0x1 | 0x20 | 0x100000;
    let mut data = bits.to_le_bytes().to_vec();
    data.extend_from_slice(&0u32.to_le_bytes());
    let frame = std_frame((1 << 5) | 0x03, data);
    let m = ErrorMessage::from_can_message(frame);
    assert_eq!(
        m.active_errors,
        vec![
            ODriveError::Initializing,
            ODriveError::DrvFault,
            ODriveError::WatchdogTimerExpired
        ]
    );
    assert_eq!(m.disarm_reason, vec![]);
}

#[test]
fn read_parameter_round_trip() {
    let m = ReadParameterCommand::new(2, 0xBEEF);
    let frame = m.as_can_message();
    assert_eq!(frame.arbitration_id, (2 << 5) | 0x04);
    assert_eq!(frame.data, vec![0, 0xEF, 0xBE, 0]);
    assert!(ReadParameterCommand::matches(&frame));
    assert!(!WriteParameterCommand::matches(&frame));
    let d = ReadParameterCommand::from_can_message(frame);
    assert_eq!(d.endpoint_id, 0xBEEF);
    assert_eq!(d.node_id(), 2);
}

#[test]
fn write_parameter_packs_value() {
    let m = WriteParameterCommand::new(1, 0x0102, ValueTypes::Uint32, Value::Uint32(0xDEADBEEF));
    let frame = m.as_can_message();
    assert_eq!(
        frame.data,
        vec![1, 0x02, 0x01, 0, 0xEF, 0xBE, 0xAD, 0xDE]
    );
    assert!(WriteParameterCommand::matches(&frame));
    assert!(!ReadParameterCommand::matches(&frame));
}

#[test]
fn parameter_response_parses_typed_values() {
    assert_eq!(
        ParameterResponse::parse_value(&[0x2A], ValueTypes::Uint8),
        Value::Uint8(0x2A)
    );
    assert_eq!(
        ParameterResponse::parse_value(&[0xFF], ValueTypes::Int8),
        Value::Int8(-1)
    );
    assert_eq!(
        ParameterResponse::parse_value(&[0x01, 0x80], ValueTypes::Int16),
        Value::Int16(-32767)
    );
    assert_eq!(
        ParameterResponse::parse_value(&[1], ValueTypes::Bool),
        Value::Bool(true)
    );
    assert_eq!(
        ParameterResponse::parse_value(&3.5f32.to_le_bytes(), ValueTypes::Float),
        Value::Float(3.5f32.to_bits())
    );
    assert_eq!(
        ParameterResponse::parse_value(&(-5i64).to_le_bytes(), ValueTypes::Int64),
        Value::Int64(-5)
    );
    let mut data = vec![0u8, 0x34, 0x12, 0];
    data.extend_from_slice(&0x0BADF00Du32.to_le_bytes());
    let frame = std_frame((4 << 5) | 0x05, data);
    let mut r = ParameterResponse::new(0, 0, ValueTypes::Uint32, Value::Uint32(0));
    r.parse_can_msg_data(&frame);
    assert_eq!(r.endpoint_id, 0x1234);
    assert_eq!(r.value, Value::Uint32(0x0BADF00D));
}

#[test]
fn set_controller_mode_round_trip() {
    let m = SetControllerMode::new(6, ControlMode::PositionControl, InputMode::TrapTraj);
    let frame = m.as_can_message();
    assert_eq!(frame.data, vec![3, 0, 0, 0, 5, 0, 0, 0]);
    let d = SetControllerMode::from_can_message(frame);
    assert_eq!(d.control_mode, ControlMode::PositionControl);
    assert_eq!(d.input_mode, InputMode::TrapTraj);
    assert_eq!(d.node_id(), 6);
}

#[test]
fn set_position_round_trip() {
    let m = SetPositionMessage::new(1, 2.5f32.to_bits(), -2, 7);
    let d = SetPositionMessage::from_can_message(m.as_can_message());
    assert_eq!(f32::from_bits(d.input_position_bits), 2.5);
    assert_eq!(d.velocity_ff, -2);
    assert_eq!(d.torque_ff, 7);
}

#[test]
fn set_velocity_round_trip() {
    let m = SetVelocityMessage::new(1, 10.0f32.to_bits(), (-0.5f32).to_bits());
    let d = SetVelocityMessage::from_can_message(m.as_can_message());
    assert_eq!(f32::from_bits(d.velocity_bits), 10.0);
    assert_eq!(f32::from_bits(d.torque_bits), -0.5);
}

#[test]
fn reboot_round_trip() {
    let m = Reboot::new(3, 1);
    let d = Reboot::from_can_message(m.as_can_message());
    assert_eq!(d.action, 1);
    assert_eq!(d.node_id(), 3);
}

#[test]
fn clear_errors_payload() {
    let m = ClearErrorsCommand::new(3, 1);
    assert_eq!(m.as_can_message().data, vec![1]);
}

#[test]
fn version_message_strings() {
    let frame = std_frame(0 << 5, vec![2, 1, 2, 3, 0, 105, 17, 0]);
    let m = VersionMessage::from_can_message(frame);
    assert_eq!(m.hw_version(), "1.2.3");
    assert_eq!(m.fw_version(), "0.105.17");
}

// --- family B -------------------------------------------------------------

#[test]
fn speed_control_encodes_scaled_le() {
    // Node 5, command 0xA2, speed 12.34 as the scaled integer 1234:
    // arbitration id 0x145, payload [0xA2, 0, 0, 0, <1234 as le i32>].
    let m = SpeedControlCommand::new(5, 1234);
    let frame = m.as_can_message();
    assert_eq!(frame.arbitration_id, 0x145);
    assert_eq!(frame.data, vec![0xA2, 0, 0, 0, 0xD2, 0x04, 0, 0]);
    assert!(!frame.is_extended_id);
}

#[test]
fn speed_control_round_trip_negative() {
    let m = SpeedControlCommand::new(7, -250);
    let d = SpeedControlCommand::from_can_message(m.as_can_message());
    assert_eq!(d.speed_raw, -250);
    assert_eq!(d.node_id(), 7);
}

#[test]
fn myactuator_arbitration_classifies_both_ranges() {
    let cmd = std_frame(0x147, vec![0x9A]);
    let a = MyActuatorArbitrationId::from_can_message(&cmd).unwrap();
    assert_eq!(a.node_id, 7);
    assert_eq!(a.cmd_id, 0x9A);
    let reply = std_frame(0x243, vec![0x9C]);
    let b = MyActuatorArbitrationId::from_can_message(&reply).unwrap();
    assert_eq!(b.node_id, 3);
    let outside = std_frame(0x100, vec![0x9A]);
    assert!(MyActuatorArbitrationId::from_can_message(&outside).is_err());
    let empty = std_frame(0x147, vec![]);
    assert!(MyActuatorArbitrationId::from_can_message(&empty).is_err());
}

#[test]
fn motor_status1_decodes_scaled_fields() {
    // temp 25, brake released, voltage 24.1 V (241 raw), error 0x0203.
    let frame = std_frame(0x242, vec![0x9A, 25, 0, 1, 0xF1, 0x00, 0x03, 0x02]);
    assert!(MyactuatorReadMotorStatus1Message::matches(&frame));
    let m = MyactuatorReadMotorStatus1Message::from_can_message(frame);
    assert_eq!(m.node_id(), 2);
    assert_eq!(m.temperature, 25);
    assert!(m.brake_released);
    assert_eq!(m.voltage_raw, 241);
    assert_eq!(m.error_state, 0x0203);
}

#[test]
fn motor_status2_decodes_signed_fields() {
    let frame = std_frame(0x241, vec![0x9C, 0xF6, 0xFF, 0xFF, 0x10, 0x00, 0x00, 0x80]);
    let m = ReadMotorStatus2Message::from_can_message(frame);
    assert_eq!(m.temperature, -10);
    assert_eq!(m.torque_current_raw, -1);
    assert_eq!(m.speed, 16);
    assert_eq!(m.angle, -32768);
}

#[test]
fn torque_control_round_trip() {
    let m = TorqueControlCommand::new(4, -150);
    let frame = m.as_can_message();
    assert_eq!(frame.data[0], 0xA1);
    let d = TorqueControlCommand::from_can_message(frame);
    assert_eq!(d.torque_current_raw, -150);
    assert_eq!(d.node_id(), 4);
}

#[test]
fn position_control_round_trip() {
    let m = PositionControlCommand::new(1, -36000, 500);
    let frame = m.as_can_message();
    assert_eq!(frame.data[0], 0xA4);
    assert_eq!(frame.data[2], 0xF4);
    assert_eq!(frame.data[3], 0x01);
    let d = PositionControlCommand::from_can_message(frame);
    assert_eq!(d.position_raw, -36000);
    assert_eq!(d.max_speed, 500);
}

#[test]
fn function_control_round_trip() {
    let m = FunctionControlCommand::new(2, MyActuatorFunctionControlIndex::SetCanid, 9);
    let d = FunctionControlCommand::from_can_message(m.as_can_message());
    assert_eq!(d.function, MyActuatorFunctionControlIndex::SetCanid);
    assert_eq!(d.function_value, 9);
}

#[test]
fn canid_command_clips_and_broadcasts() {
    let m = CANIDCommand::new(1, ReadWriteFlag::Write, 100);
    let frame = m.as_can_message();
    assert_eq!(frame.arbitration_id, 0x300);
    assert_eq!(frame.data, vec![0x79, 0, 0, 0, 0, 0, 0, 32]);
    let low = CANIDCommand::new(1, ReadWriteFlag::Read, 0);
    assert_eq!(low.as_can_message().data, vec![0x79, 0, 1, 0, 0, 0, 0, 1]);
}

#[test]
fn version_acquisition_dates() {
    let mut m = VersionAcquisitionCommand::new(1);
    let mut data = vec![0xB2, 0, 0, 0];
    data.extend_from_slice(&20240229u32.to_le_bytes());
    m.parse_can_msg_data(&std_frame(0x241, data));
    assert_eq!(m.version_date, 20240229);
    let d = m.version_datetime().unwrap();
    assert_eq!((d.year, d.month, d.day), (2024, 2, 29));

    let bad = VersionAcquisitionCommand {
        version_date: 20230229,
        ..m
    };
    assert!(bad.version_datetime().is_none());
}

// --- family C -------------------------------------------------------------

#[test]
fn x424_arbitration_is_node_id() {
    let frame = std_frame(9, vec![0x20]);
    let a = X424ArbitrationId::from_can_message(&frame);
    assert_eq!(a.node_id, 9);
    assert_eq!(a.cmd_id, 0x20);
    assert_eq!(a.value(), 9);
}

#[test]
fn set_communication_mode_round_trip() {
    let m = SetCommunicationModeMessage::new(0x0102, X424CommunicationMode::Qa);
    let frame = m.as_can_message();
    assert_eq!(frame.arbitration_id, 0x7FF);
    assert_eq!(frame.data, vec![0x01, 0x02, 0x00, 0x02]);
    let d = SetCommunicationModeMessage::from_can_message(frame);
    assert_eq!(d.mode, X424CommunicationMode::Qa);
}

#[test]
fn set_zero_position_payload() {
    let m = SetZeroPositionMessage::new(0x0304);
    assert_eq!(m.as_can_message().data, vec![0x03, 0x04, 0x00, 0x03]);
}

#[test]
fn set_motor_id_payload() {
    let m = SetMotorIDMessage::new(1, 0x0102, 0x0304);
    assert_eq!(
        m.as_can_message().data,
        vec![0x01, 0x02, 0x00, 0x04, 0x03, 0x04]
    );
}

#[test]
fn reset_motor_id_payload() {
    let m = ResetMotorIDMessage::new(1);
    assert_eq!(
        m.as_can_message().data,
        vec![0x7F, 0x7F, 0x00, 0x05, 0x7F, 0x7F]
    );
}

#[test]
fn servo_position_control_packs_word() {
    let m = X424ServoPositionControlMessage::new(3, (-90.0f32).to_bits(), 300, 50, 0);
    let frame = m.as_can_message();
    assert_eq!(frame.arbitration_id, 3);
    let word: u64 = (1u64 << 61)
        | (((-90.0f32).to_bits() as u64) << 29)
        | ((300u64 & 0x7FFF) << 14)
        | ((50u64 & 0xFFF) << 2);
    assert_eq!(frame.data, word.to_be_bytes().to_vec());
}

#[test]
fn servo_position_control_caps_limits() {
    let m = X424ServoPositionControlMessage::new(3, 0, 0xFFFF, 0xFFFF, 5);
    let word: u64 = (1u64 << 61) | (0x7FFFu64 << 14) | (0xFFFu64 << 2) | 1;
    assert_eq!(m.as_can_message().data, word.to_be_bytes().to_vec());
}

#[test]
fn servo_speed_control_packs_word() {
    let m = X424ServoSpeedControlMessage::new(2, 100.0f32.to_bits(), 50, 0);
    let word: u64 =
        (2u64 << 53) | ((100.0f32.to_bits() as u64) << 16) | 50;
    assert_eq!(m.as_can_message().data, word.to_be_bytes().to_vec());
}

#[test]
fn current_control_packs_negative_current() {
    let m = X424CurrentControlMessage::new(4, -100, 1, 2);
    let word: u32 = (3u32 << 21) | (1u32 << 18) | (2u32 << 16) | (((-100i16) as u16) as u32);
    let expected = vec![
        ((word >> 16) & 0xFF) as u8,
        ((word >> 8) & 0xFF) as u8,
        (word & 0xFF) as u8,
    ];
    assert_eq!(m.as_can_message().data, expected);
}

#[test]
fn qa_return_reads_motor_error() {
    let frame = std_frame(6, vec![0x04]);
    assert!(QAReturnMessage::matches(&frame));
    let m = QAReturnMessage::from_can_message(frame);
    assert_eq!(m.motor_error, X424MotorError::MotorEncoderError);
    assert_eq!(m.node_id(), 6);
}

#[test]
fn qa_return_type1_unpacks_bitfields() {
    let word: u64 = (1u64 << 61)
        | (0x8000u64 << 40)
        | (0x800u64 << 28)
        | (0x7FFu64 << 16)
        | (120u64 << 8)
        | 80u64;
    let frame = std_frame(2, word.to_be_bytes().to_vec());
    assert!(QAReturnMessageType1::matches(&frame));
    let m = QAReturnMessageType1::from_can_message(frame);
    assert_eq!(m.position_raw, 0x8000);
    assert_eq!(m.speed_raw, 0x800);
    assert_eq!(m.current_raw, 0x7FF);
    assert_eq!(m.motor_temp_raw, 120);
    assert_eq!(m.mos_temp_raw, 80);
}

#[test]
fn qa_return_type2_takes_current_magnitude() {
    let mut data = vec![0x40u8];
    data.extend_from_slice(&1.5f32.to_le_bytes());
    data.extend_from_slice(&(-250i16).to_be_bytes());
    data.push(70);
    let frame = std_frame(2, data);
    assert!(QAReturnMessageType2::matches(&frame));
    let m = QAReturnMessageType2::from_can_message(frame);
    assert_eq!(f32::from_bits(m.position_bits), 1.5);
    assert_eq!(m.current_raw, 250);
    assert_eq!(m.motor_temp_raw, 70);
}

#[test]
fn qa_return_type4_acknowledges_config() {
    let frame = std_frame(2, vec![0x80, 0x07, 0x01]);
    assert!(QAReturnMessageType4::matches(&frame));
    let m = QAReturnMessageType4::from_can_message(frame);
    assert_eq!(m.config_code, 7);
    assert!(m.config_status);
}

#[test]
fn qa_return_type5_selects_by_query_code() {
    let mut data = vec![0xA0u8, 2];
    data.extend_from_slice(&9.0f32.to_le_bytes());
    let frame = std_frame(2, data);
    let m = QAReturnMessageType5::from_can_message(frame);
    assert_eq!(m.query_code, 2);
    assert_eq!(f32::from_bits(m.speed_bits), 9.0);
    assert_eq!(m.position_bits, 0);

    let frame16 = std_frame(2, vec![0xA0, 5, 0x12, 0x34]);
    let m16 = QAReturnMessageType5::from_can_message(frame16);
    assert_eq!(m16.uint16_value, 0x1234);
}

// --- classification exclusivity -------------------------------------------

#[test]
fn sibling_classifiers_are_exclusive() {
    // One frame per family, checked against sibling classifiers.
    let fam_a = std_frame((3 << 5) | 0x01, vec![0; 8]);
    assert!(HeartbeatMessage::matches(&fam_a));
    assert!(!SetControllerMode::matches(&fam_a));
    assert!(!ReadParameterCommand::matches(&fam_a));

    let fam_b = std_frame(0x145, vec![0xA2, 0, 0, 0, 0, 0, 0, 0]);
    assert!(SpeedControlCommand::matches(&fam_b));
    assert!(!TorqueControlCommand::matches(&fam_b));
    assert!(!PositionControlCommand::matches(&fam_b));

    let qa = std_frame(2, vec![0x20, 0, 0]);
    assert!(QAReturnMessageType1::matches(&qa));
    assert!(!QAReturnMessageType2::matches(&qa));
    assert!(!QAReturnMessage::matches(&qa));
}

#[test]
fn filters_reify_classification() {
    let frame = std_frame(0x145, vec![0xA2, 0, 0, 0, 0, 0, 0, 0]);
    assert!(MessageFilter::MyActuatorCmd(0xA2).accepts(&frame));
    assert!(MessageFilter::MyActuatorFamily.accepts(&frame));
    assert!(!MessageFilter::MyActuatorCmd(0xA1).accepts(&frame));
    assert_eq!(SpeedControlCommand::message_filter(), MessageFilter::MyActuatorCmd(0xA2));
}

#[test]
fn query_communication_mode_reply_decodes() {
    // A config-exchange reply on the shared id: byte 2 marks the reply,
    // byte 3 carries the mode.
    let reply = std_frame(0x7FF, vec![0x01, 0x02, 0x01, 0x01]);
    assert!(QueryCommunicationModeMessage::matches(&reply));
    let m = QueryCommunicationModeMessage::from_can_message(reply);
    assert_eq!(m.mode, Some(X424CommunicationMode::Auto));
}

#[test]
fn qa_return_type3_reads_speed() {
    let mut data = vec![0x60u8];
    data.extend_from_slice(&(-3.0f32).to_le_bytes());
    data.extend_from_slice(&120i16.to_be_bytes());
    data.push(90);
    let frame = std_frame(4, data);
    assert!(QAReturnMessageType3::matches(&frame));
    let m = QAReturnMessageType3::from_can_message(frame);
    assert_eq!(f32::from_bits(m.speed_bits), -3.0);
    assert_eq!(m.current_raw, 120);
    assert_eq!(m.motor_temp_raw, 90);
}

#[test]
fn base_and_derived_matchers_overlap_by_design() {
    // The generic family matcher and a command-keyed matcher within the
    // family may both claim one frame: double delivery is intended for
    // this base/derived pair.
    let frame = std_frame((3 << 5) | 0x01, vec![0; 7]);
    assert!(havendrive::odrive_msgs::OdriveCanMessage::matches(&frame));
    assert!(HeartbeatMessage::matches(&frame));
}

#[test]
fn clear_errors_round_trip() {
    let m = ClearErrorsCommand::new(3, 1);
    let d = ClearErrorsCommand::from_can_message(m.as_can_message());
    assert_eq!(d.identify, 1);
    assert_eq!(d.node_id(), 3);
}

#[test]
fn set_axis_state_round_trip() {
    let m = SetAxisStateMessage::new(2, AxisState::ClosedLoopControl);
    let frame = m.as_can_message();
    assert_eq!(frame.data, vec![8, 0, 0, 0]);
    let d = SetAxisStateMessage::from_can_message(frame);
    assert_eq!(d.axis_state, AxisState::ClosedLoopControl);
    assert_eq!(d.node_id(), 2);
}

#[test]
fn write_parameter_round_trip() {
    let m = WriteParameterCommand::new(1, 0x0102, ValueTypes::Uint32, Value::Uint32(0xDEADBEEF));
    let d = WriteParameterCommand::from_can_message(m.as_can_message());
    assert_eq!(d.endpoint_id, 0x0102);
    assert_eq!(d.value, Value::Uint32(0xDEADBEEF));
    assert_eq!(d.node_id(), 1);

    // Other wire types decode once the expected type is fixed beforehand.
    let m16 = WriteParameterCommand::new(1, 7, ValueTypes::Int16, Value::Int16(-5));
    let mut d16 = WriteParameterCommand::new(0, 0, ValueTypes::Int16, Value::Int16(0));
    d16.parse_can_msg_data(&m16.as_can_message());
    assert_eq!(d16.endpoint_id, 7);
    assert_eq!(d16.value, Value::Int16(-5));
}

#[test]
fn set_motor_id_round_trip() {
    let m = SetMotorIDMessage::new(1, 0x0102, 0x0304);
    let d = SetMotorIDMessage::from_can_message(m.as_can_message());
    assert_eq!(d.cur_node_id, 0x0102);
    assert_eq!(d.new_node_id, 0x0304);
}

#[test]
fn servo_position_control_round_trip() {
    let m = X424ServoPositionControlMessage::new(3, (-90.0f32).to_bits(), 300, 50, 2);
    let d = X424ServoPositionControlMessage::from_can_message(m.as_can_message());
    assert_eq!(f32::from_bits(d.position_bits), -90.0);
    assert_eq!(d.speed, 300);
    assert_eq!(d.current_limit_raw, 50);
    assert_eq!(d.message_type, 2);
    assert_eq!(d.node_id(), 3);
}

#[test]
fn servo_speed_control_round_trip() {
    let m = X424ServoSpeedControlMessage::new(2, 100.0f32.to_bits(), 0xFFFF, 1);
    let d = X424ServoSpeedControlMessage::from_can_message(m.as_can_message());
    assert_eq!(f32::from_bits(d.speed_bits), 100.0);
    assert_eq!(d.current_limit_raw, 0xFFFF);
    assert_eq!(d.message_type, 1);
    assert_eq!(d.node_id(), 2);
}

#[test]
fn current_control_round_trip() {
    let m = X424CurrentControlMessage::new(4, -100, 1, 2);
    let d = X424CurrentControlMessage::from_can_message(m.as_can_message());
    assert_eq!(d.current_raw, -100);
    assert_eq!(d.control_type, 1);
    assert_eq!(d.message_type, 2);
    assert_eq!(d.node_id(), 4);
}

#[test]
fn odrive_value_uses_shifted_or() {
    // The wire value is the shifted-or of the fields, exactly as the bus
    // standard lays it out; out-of-range commands overlap the node bits.
    let a = OdriveArbitrationId {
        node_id: 0,
        cmd_id: 0x20,
    };
    assert_eq!(a.value(), 0x20);
}

#[test]
fn myactuator_value_is_base_plus_node() {
    // The plain-address value adds the node to the base unmasked; an
    // out-of-window node yields a value outside the family range, which
    // the transport's send validation rejects.
    let a = MyActuatorArbitrationId {
        node_id: 0x25,
        cmd_id: 0xA2,
        custom_value: None,
    };
    assert_eq!(a.value(), 0x165);
}

#[test]
fn myactuator_empty_payload_keeps_node_from_id() {
    // The node lives in the arbitration id, which is always present; only
    // the payload-derived command byte degrades to zero.
    let base = MyActuatorCanMessage::from_can_message(std_frame(0x247, vec![]));
    assert_eq!(base.node_id(), 7);
    let status = MyactuatorReadMotorStatus1Message::from_can_message(std_frame(0x247, vec![]));
    assert_eq!(status.node_id(), 7);
    assert_eq!(status.voltage_raw, 0);
}

#[test]
fn query_replies_are_told_apart_by_lead_byte() {
    // The broadcast id-query reply leads with 0xFF; a mode reply leads
    // with the node address and no longer matches the id-query type.
    let id_reply = std_frame(0x7FF, vec![0xFF, 0xFF, 0x01, 0x00, 0x05]);
    assert!(QueryCANCommunicationIDMessage::matches(&id_reply));
    let m = QueryCANCommunicationIDMessage::from_can_message(id_reply);
    assert_eq!(m.node_id(), 5);

    let mode_reply = std_frame(0x7FF, vec![0x01, 0x02, 0x01, 0x01]);
    assert!(QueryCommunicationModeMessage::matches(&mode_reply));
    assert!(!QueryCANCommunicationIDMessage::matches(&mode_reply));
}

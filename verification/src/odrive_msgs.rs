//! Family-A message catalog: the node address lives in the top six bits of
//! an 11-bit standard arbitration id, the command in the low five.
//!
//! Fields that travel as IEEE-754 single-precision words on the wire are
//! held as their 32-bit bit patterns (`*_bits`), so the codec stays exact;
//! interpreting them as floating point is the caller's concern.

use vstd::prelude::*;

use crate::bytes::{
    bits_of_i16, bits_of_i32, bits_of_i64, bits_of_i8, hi16, i16_from_bits, i16_of_bits,
    i16_to_bits, i32_from_bits, i32_of_bits, i32_to_bits, i64_from_bits, i64_of_bits, i64_to_bits,
    i8_from_bits, i8_of_bits, i8_to_bits, le32_byte, le64_byte, lemma_i16_bits_round_trip,
    lemma_i32_bits_round_trip, lemma_i64_bits_round_trip, lemma_i8_bits_round_trip,
    lemma_u16_le_round_trip, lemma_u32_le_round_trip, lemma_u64_le_round_trip, lo16, u16_from_le,
    u16_le_hi, u16_le_lo, u16_of_le, u32_from_le, u32_le_part, u32_of_le, u64_from_le_slice,
    u64_le_part, u64_of_le,
};
use crate::enums::{
    spec_axis_state_of_value, spec_axis_state_value, spec_control_mode_of_value,
    spec_control_mode_value, spec_input_mode_of_value, spec_input_mode_value,
    spec_odrive_errors_of_bits, spec_procedure_result_of_value,
    spec_value_type_size, AxisState, ControlMode, InputMode, ODriveError, ProcedureResult,
    ValueTypes,
};
use crate::messages::{
    lemma_odrive_arbitration_round_trip, spec_odrive_cmd_matches, spec_odrive_cmd_opcode_matches,
    spec_odrive_family_matches, ArbitrationId, CanMessageTrait, FrameModel, MessageFilter,
    OdriveArbitrationId, RawCanMessage,
};

verus! {

/// A value carried by a parameter access: its wire type tag decides which
/// variant is used. Floating-point parameters are carried as their IEEE-754
/// bit pattern.
#[derive(Debug, Clone, PartialEq, Eq, Structural)]
pub enum Value {
    Bool(bool),
    Uint8(u8),
    Int8(i8),
    Uint16(u16),
    Int16(i16),
    Uint32(u32),
    Int32(i32),
    Uint64(u64),
    Int64(i64),
    Float(u32),
}

// ---------------------------------------------------------------------------
// Family base message
// ---------------------------------------------------------------------------

/// The family-A base message: address only, no semantic payload. As a
/// classifier it is the generic family matcher; command-specific types
/// refine it.
#[derive(Debug, Clone)]
pub struct OdriveCanMessage {
    pub node_id: u32,
    pub arbitration_id: OdriveArbitrationId,
}

impl OdriveCanMessage {
    /// Address and arbitration fields agree and fit the wire layout.
    pub open spec fn wf(self) -> bool {
        self.node_id == self.arbitration_id.node_id && self.arbitration_id.wf()
    }

    pub open spec fn spec_new(node_id: u32, cmd_id: u32) -> Self {
        OdriveCanMessage {
            node_id,
            arbitration_id: OdriveArbitrationId { node_id, cmd_id },
        }
    }

    /// The base of a message decoded from `m`, carrying this command id.
    pub open spec fn spec_base_decoded(self, m: FrameModel, cmd: u32) -> bool {
        self.node_id == OdriveArbitrationId::spec_node_of(m.arbitration_id)
            && self.arbitration_id == (OdriveArbitrationId {
            node_id: OdriveArbitrationId::spec_node_of(m.arbitration_id),
            cmd_id: cmd,
        })
    }

    pub fn new(node_id: u32, cmd_id: u32) -> (r: Self)
        ensures
            r == Self::spec_new(node_id, cmd_id),
    {
        let arbitration_id = OdriveArbitrationId { node_id, cmd_id };
        Self { node_id, arbitration_id }
    }
}

impl CanMessageTrait for OdriveCanMessage {
    open spec fn spec_matches(m: FrameModel) -> bool {
        spec_odrive_family_matches(m)
    }

    open spec fn spec_frame(&self) -> FrameModel {
        FrameModel {
            arbitration_id: self.arbitration_id.spec_value(),
            data: Seq::empty(),
            is_extended_id: false,
        }
    }

    open spec fn spec_decoded(&self, m: FrameModel) -> bool {
        self.spec_base_decoded(m, OdriveArbitrationId::spec_cmd_of(m.arbitration_id))
    }

    fn cmd_id() -> (r: u32)
        ensures
            r == 0,
    {
        0
    }

    fn node_id(&self) -> (r: u32)
        ensures
            r == self.node_id,
    {
        self.node_id
    }

    fn matches(msg: &RawCanMessage) -> (r: bool) {
        MessageFilter::OdriveFamily.accepts(msg)
    }

    fn from_can_message(msg: RawCanMessage) -> (r: Self) {
        let arb = OdriveArbitrationId::from_can_message(&msg);
        let mut s = Self::new(arb.node_id, arb.cmd_id);
        s.parse_can_msg_data(&msg);
        s
    }

    fn as_can_message(&self) -> (r: RawCanMessage) {
        let r = RawCanMessage {
            arbitration_id: self.arbitration_id.value(),
            data: self.gen_can_msg_data(),
            is_extended_id: false,
        };
        proof {
            assert(r@ =~= self.spec_frame());
        }
        r
    }

    open spec fn spec_arbitration(&self) -> ArbitrationId {
        ArbitrationId::Odrive(self.arbitration_id)
    }

    fn gen_arbitration_id(&self) -> (r: ArbitrationId)
        ensures
            r == ArbitrationId::Odrive(self.arbitration_id),
    {
        ArbitrationId::Odrive(self.arbitration_id)
    }

    fn gen_can_msg_data(&self) -> (r: Vec<u8>) {
        let r: Vec<u8> = Vec::new();
        proof {
            assert(r@ =~= self.spec_frame().data);
        }
        r
    }

    fn parse_can_msg_data(&mut self, msg: &RawCanMessage)
        ensures
            *final(self) == *old(self),
    {
    }

    fn message_filter() -> (f: MessageFilter) {
        MessageFilter::OdriveFamily
    }
}

// ---------------------------------------------------------------------------
// Heartbeat (cyclic, command 0x01)
// ---------------------------------------------------------------------------

/// Cyclic axis heartbeat: error word, axis state, last procedure result and
/// the trajectory-done flag.
#[derive(Debug, Clone)]
pub struct HeartbeatMessage {
    pub base: OdriveCanMessage,
    pub axis_error: u32,
    pub axis_state: AxisState,
    pub procedure_result: ProcedureResult,
    pub trajectory_done: bool,
}

impl HeartbeatMessage {
    pub open spec fn wf(self) -> bool {
        self.base.wf() && self.base.arbitration_id.cmd_id == 0x01
    }

    /// The payload fields as decoded from `d`; payloads shorter than seven
    /// bytes leave the defaults in place.
    pub open spec fn spec_fields_decoded(self, pre: Self, d: Seq<u8>) -> bool {
        if d.len() >= 7 {
            &&& self.axis_error == u32_of_le(d[0], d[1], d[2], d[3])
            &&& self.axis_state == spec_axis_state_of_value(d[4])
            &&& self.procedure_result == spec_procedure_result_of_value(d[5])
            &&& self.trajectory_done == (d[6] != 0)
        } else {
            &&& self.axis_error == pre.axis_error
            &&& self.axis_state == pre.axis_state
            &&& self.procedure_result == pre.procedure_result
            &&& self.trajectory_done == pre.trajectory_done
        }
    }

    pub open spec fn spec_new(node_id: u32) -> Self {
        HeartbeatMessage {
            base: OdriveCanMessage::spec_new(node_id, 0x01),
            axis_error: 0,
            axis_state: AxisState::Undefined,
            procedure_result: ProcedureResult::Success,
            trajectory_done: false,
        }
    }

    pub fn new(node_id: u32) -> (r: Self)
        ensures
            r == Self::spec_new(node_id),
    {
        Self {
            base: OdriveCanMessage::new(node_id, 0x01),
            axis_error: 0,
            axis_state: AxisState::Undefined,
            procedure_result: ProcedureResult::Success,
            trajectory_done: false,
        }
    }
}

impl CanMessageTrait for HeartbeatMessage {
    open spec fn spec_matches(m: FrameModel) -> bool {
        spec_odrive_cmd_matches(0x01, m)
    }

    open spec fn spec_frame(&self) -> FrameModel {
        FrameModel {
            arbitration_id: self.base.arbitration_id.spec_value(),
            data: Seq::empty(),
            is_extended_id: false,
        }
    }

    open spec fn spec_decoded(&self, m: FrameModel) -> bool {
        self.base.spec_base_decoded(m, 0x01) && self.spec_fields_decoded(
            Self::spec_new(self.base.node_id),
            m.data,
        )
    }

    fn cmd_id() -> (r: u32)
        ensures
            r == 0x01,
    {
        0x01
    }

    fn node_id(&self) -> (r: u32)
        ensures
            r == self.base.node_id,
    {
        self.base.node_id
    }

    fn matches(msg: &RawCanMessage) -> (r: bool) {
        MessageFilter::OdriveCmd(0x01).accepts(msg)
    }

    fn from_can_message(msg: RawCanMessage) -> (r: Self) {
        let arb = OdriveArbitrationId::from_can_message(&msg);
        let mut s = Self::new(arb.node_id);
        s.parse_can_msg_data(&msg);
        s
    }

    fn as_can_message(&self) -> (r: RawCanMessage) {
        let r = RawCanMessage {
            arbitration_id: self.base.arbitration_id.value(),
            data: self.gen_can_msg_data(),
            is_extended_id: false,
        };
        proof {
            assert(r@ =~= self.spec_frame());
        }
        r
    }

    open spec fn spec_arbitration(&self) -> ArbitrationId {
        ArbitrationId::Odrive(self.base.arbitration_id)
    }

    fn gen_arbitration_id(&self) -> (r: ArbitrationId)
        ensures
            r == ArbitrationId::Odrive(self.base.arbitration_id),
    {
        ArbitrationId::Odrive(self.base.arbitration_id)
    }

    fn gen_can_msg_data(&self) -> (r: Vec<u8>) {
        let r: Vec<u8> = Vec::new();
        proof {
            assert(r@ =~= self.spec_frame().data);
        }
        r
    }

    fn parse_can_msg_data(&mut self, msg: &RawCanMessage)
        ensures
            final(self).base == old(self).base,
            final(self).spec_fields_decoded(*old(self), msg@.data),
    {
        if msg.data.len() >= 7 {
            self.axis_error = u32_from_le(msg.data[0], msg.data[1], msg.data[2], msg.data[3]);
            self.axis_state = AxisState::from_value(msg.data[4]);
            self.procedure_result = ProcedureResult::from_value(msg.data[5]);
            self.trajectory_done = msg.data[6] != 0;
        }
    }

    fn message_filter() -> (f: MessageFilter) {
        MessageFilter::OdriveCmd(0x01)
    }
}

// ---------------------------------------------------------------------------
// Bus voltage and current (command 0x17)
// ---------------------------------------------------------------------------

/// Cyclic report of bus voltage and current, each an IEEE-754 bit pattern.
#[derive(Debug, Clone)]
pub struct BusVoltageCurrentMessage {
    pub base: OdriveCanMessage,
    pub voltage_bits: u32,
    pub current_bits: u32,
}

impl BusVoltageCurrentMessage {
    pub open spec fn wf(self) -> bool {
        self.base.wf() && self.base.arbitration_id.cmd_id == 0x17
    }

    /// The payload bytes this message encodes to.
    pub open spec fn spec_payload(self) -> Seq<u8> {
        Seq::empty()
    }

    /// The payload fields as decoded from `d`.
    pub open spec fn spec_fields_decoded(self, pre: Self, d: Seq<u8>) -> bool {
        if d.len() >= 8 {
            self.voltage_bits == u32_of_le(d[0], d[1], d[2], d[3]) && self.current_bits == u32_of_le(
                d[4],
                d[5],
                d[6],
                d[7],
            )
        } else {
            self.voltage_bits == pre.voltage_bits && self.current_bits == pre.current_bits
        }
    }

    pub open spec fn spec_new(node_id: u32) -> Self {
        BusVoltageCurrentMessage {
            base: OdriveCanMessage::spec_new(node_id, 0x17),
            voltage_bits: 0,
            current_bits: 0,
        }
    }

    pub fn new(node_id: u32) -> (r: Self)
        ensures
            r == Self::spec_new(node_id),
    {
        Self {
            base: OdriveCanMessage::new(node_id, 0x17),
            voltage_bits: 0,
            current_bits: 0,
        }
    }
}

impl CanMessageTrait for BusVoltageCurrentMessage {
    open spec fn spec_matches(m: FrameModel) -> bool {
        spec_odrive_cmd_matches(0x17, m)
    }

    open spec fn spec_frame(&self) -> FrameModel {
        FrameModel {
            arbitration_id: self.base.arbitration_id.spec_value(),
            data: self.spec_payload(),
            is_extended_id: false,
        }
    }

    open spec fn spec_decoded(&self, m: FrameModel) -> bool {
        self.base.spec_base_decoded(m, 0x17) && self.spec_fields_decoded(
            BusVoltageCurrentMessage::spec_new(self.base.node_id),
            m.data,
        )
    }

    fn cmd_id() -> (r: u32)
        ensures
            r == 0x17,
    {
        0x17
    }

    fn node_id(&self) -> (r: u32)
        ensures
            r == self.base.node_id,
    {
        self.base.node_id
    }

    fn matches(msg: &RawCanMessage) -> (r: bool) {
        MessageFilter::OdriveCmd(0x17).accepts(msg)
    }

    fn from_can_message(msg: RawCanMessage) -> (r: Self) {
        let arb = OdriveArbitrationId::from_can_message(&msg);
        let mut s = Self::new(arb.node_id);
        s.parse_can_msg_data(&msg);
        s
    }

    fn as_can_message(&self) -> (r: RawCanMessage) {
        let r = RawCanMessage {
            arbitration_id: self.base.arbitration_id.value(),
            data: self.gen_can_msg_data(),
            is_extended_id: false,
        };
        proof {
            assert(r@ =~= self.spec_frame());
        }
        r
    }

    open spec fn spec_arbitration(&self) -> ArbitrationId {
        ArbitrationId::Odrive(self.base.arbitration_id)
    }

    fn gen_arbitration_id(&self) -> (r: ArbitrationId)
        ensures
            r == ArbitrationId::Odrive(self.base.arbitration_id),
    {
        ArbitrationId::Odrive(self.base.arbitration_id)
    }

    fn gen_can_msg_data(&self) -> (r: Vec<u8>) {
        let r: Vec<u8> = Vec::new();
        proof {
            assert(r@ =~= self.spec_payload());
        }
        r
    }

    fn parse_can_msg_data(&mut self, msg: &RawCanMessage)
        ensures
            final(self).base == old(self).base,
            final(self).spec_fields_decoded(*old(self), msg@.data),
    {
        if msg.data.len() >= 8 {
            self.voltage_bits = u32_from_le(msg.data[0], msg.data[1], msg.data[2], msg.data[3]);
            self.current_bits = u32_from_le(msg.data[4], msg.data[5], msg.data[6], msg.data[7]);
        }
    }

    fn message_filter() -> (f: MessageFilter) {
        MessageFilter::OdriveCmd(0x17)
    }
}


// ---------------------------------------------------------------------------
// Encoder estimates (command 0x09)
// ---------------------------------------------------------------------------

/// Cyclic report of position and velocity estimates, each an IEEE-754 bit pattern.
#[derive(Debug, Clone)]
pub struct EncoderEstimatesMessage {
    pub base: OdriveCanMessage,
    pub pos_estimate_bits: u32,
    pub vel_estimate_bits: u32,
}

impl EncoderEstimatesMessage {
    pub open spec fn wf(self) -> bool {
        self.base.wf() && self.base.arbitration_id.cmd_id == 0x09
    }

    /// The payload bytes this message encodes to.
    pub open spec fn spec_payload(self) -> Seq<u8> {
        Seq::empty()
    }

    /// The payload fields as decoded from `d`.
    pub open spec fn spec_fields_decoded(self, pre: Self, d: Seq<u8>) -> bool {
        if d.len() >= 8 {
            self.pos_estimate_bits == u32_of_le(d[0], d[1], d[2], d[3]) && self.vel_estimate_bits == u32_of_le(
                d[4],
                d[5],
                d[6],
                d[7],
            )
        } else {
            self.pos_estimate_bits == pre.pos_estimate_bits && self.vel_estimate_bits == pre.vel_estimate_bits
        }
    }

    pub open spec fn spec_new(node_id: u32) -> Self {
        EncoderEstimatesMessage {
            base: OdriveCanMessage::spec_new(node_id, 0x09),
            pos_estimate_bits: 0,
            vel_estimate_bits: 0,
        }
    }

    pub fn new(node_id: u32) -> (r: Self)
        ensures
            r == Self::spec_new(node_id),
    {
        Self {
            base: OdriveCanMessage::new(node_id, 0x09),
            pos_estimate_bits: 0,
            vel_estimate_bits: 0,
        }
    }
}

impl CanMessageTrait for EncoderEstimatesMessage {
    open spec fn spec_matches(m: FrameModel) -> bool {
        spec_odrive_cmd_matches(0x09, m)
    }

    open spec fn spec_frame(&self) -> FrameModel {
        FrameModel {
            arbitration_id: self.base.arbitration_id.spec_value(),
            data: self.spec_payload(),
            is_extended_id: false,
        }
    }

    open spec fn spec_decoded(&self, m: FrameModel) -> bool {
        self.base.spec_base_decoded(m, 0x09) && self.spec_fields_decoded(
            EncoderEstimatesMessage::spec_new(self.base.node_id),
            m.data,
        )
    }

    fn cmd_id() -> (r: u32)
        ensures
            r == 0x09,
    {
        0x09
    }

    fn node_id(&self) -> (r: u32)
        ensures
            r == self.base.node_id,
    {
        self.base.node_id
    }

    fn matches(msg: &RawCanMessage) -> (r: bool) {
        MessageFilter::OdriveCmd(0x09).accepts(msg)
    }

    fn from_can_message(msg: RawCanMessage) -> (r: Self) {
        let arb = OdriveArbitrationId::from_can_message(&msg);
        let mut s = Self::new(arb.node_id);
        s.parse_can_msg_data(&msg);
        s
    }

    fn as_can_message(&self) -> (r: RawCanMessage) {
        let r = RawCanMessage {
            arbitration_id: self.base.arbitration_id.value(),
            data: self.gen_can_msg_data(),
            is_extended_id: false,
        };
        proof {
            assert(r@ =~= self.spec_frame());
        }
        r
    }

    open spec fn spec_arbitration(&self) -> ArbitrationId {
        ArbitrationId::Odrive(self.base.arbitration_id)
    }

    fn gen_arbitration_id(&self) -> (r: ArbitrationId)
        ensures
            r == ArbitrationId::Odrive(self.base.arbitration_id),
    {
        ArbitrationId::Odrive(self.base.arbitration_id)
    }

    fn gen_can_msg_data(&self) -> (r: Vec<u8>) {
        let r: Vec<u8> = Vec::new();
        proof {
            assert(r@ =~= self.spec_payload());
        }
        r
    }

    fn parse_can_msg_data(&mut self, msg: &RawCanMessage)
        ensures
            final(self).base == old(self).base,
            final(self).spec_fields_decoded(*old(self), msg@.data),
    {
        if msg.data.len() >= 8 {
            self.pos_estimate_bits = u32_from_le(msg.data[0], msg.data[1], msg.data[2], msg.data[3]);
            self.vel_estimate_bits = u32_from_le(msg.data[4], msg.data[5], msg.data[6], msg.data[7]);
        }
    }

    fn message_filter() -> (f: MessageFilter) {
        MessageFilter::OdriveCmd(0x09)
    }
}


// ---------------------------------------------------------------------------
// Iq setpoint and measurement (command 0x14)
// ---------------------------------------------------------------------------

/// Cyclic report of the q-axis current setpoint and measurement, each an IEEE-754 bit pattern.
#[derive(Debug, Clone)]
pub struct IqMessage {
    pub base: OdriveCanMessage,
    pub setpoint_bits: u32,
    pub measured_bits: u32,
}

impl IqMessage {
    pub open spec fn wf(self) -> bool {
        self.base.wf() && self.base.arbitration_id.cmd_id == 0x14
    }

    /// The payload bytes this message encodes to.
    pub open spec fn spec_payload(self) -> Seq<u8> {
        Seq::empty()
    }

    /// The payload fields as decoded from `d`.
    pub open spec fn spec_fields_decoded(self, pre: Self, d: Seq<u8>) -> bool {
        if d.len() >= 8 {
            self.setpoint_bits == u32_of_le(d[0], d[1], d[2], d[3]) && self.measured_bits == u32_of_le(
                d[4],
                d[5],
                d[6],
                d[7],
            )
        } else {
            self.setpoint_bits == pre.setpoint_bits && self.measured_bits == pre.measured_bits
        }
    }

    pub open spec fn spec_new(node_id: u32) -> Self {
        IqMessage {
            base: OdriveCanMessage::spec_new(node_id, 0x14),
            setpoint_bits: 0,
            measured_bits: 0,
        }
    }

    pub fn new(node_id: u32) -> (r: Self)
        ensures
            r == Self::spec_new(node_id),
    {
        Self {
            base: OdriveCanMessage::new(node_id, 0x14),
            setpoint_bits: 0,
            measured_bits: 0,
        }
    }
}

impl CanMessageTrait for IqMessage {
    open spec fn spec_matches(m: FrameModel) -> bool {
        spec_odrive_cmd_matches(0x14, m)
    }

    open spec fn spec_frame(&self) -> FrameModel {
        FrameModel {
            arbitration_id: self.base.arbitration_id.spec_value(),
            data: self.spec_payload(),
            is_extended_id: false,
        }
    }

    open spec fn spec_decoded(&self, m: FrameModel) -> bool {
        self.base.spec_base_decoded(m, 0x14) && self.spec_fields_decoded(
            IqMessage::spec_new(self.base.node_id),
            m.data,
        )
    }

    fn cmd_id() -> (r: u32)
        ensures
            r == 0x14,
    {
        0x14
    }

    fn node_id(&self) -> (r: u32)
        ensures
            r == self.base.node_id,
    {
        self.base.node_id
    }

    fn matches(msg: &RawCanMessage) -> (r: bool) {
        MessageFilter::OdriveCmd(0x14).accepts(msg)
    }

    fn from_can_message(msg: RawCanMessage) -> (r: Self) {
        let arb = OdriveArbitrationId::from_can_message(&msg);
        let mut s = Self::new(arb.node_id);
        s.parse_can_msg_data(&msg);
        s
    }

    fn as_can_message(&self) -> (r: RawCanMessage) {
        let r = RawCanMessage {
            arbitration_id: self.base.arbitration_id.value(),
            data: self.gen_can_msg_data(),
            is_extended_id: false,
        };
        proof {
            assert(r@ =~= self.spec_frame());
        }
        r
    }

    open spec fn spec_arbitration(&self) -> ArbitrationId {
        ArbitrationId::Odrive(self.base.arbitration_id)
    }

    fn gen_arbitration_id(&self) -> (r: ArbitrationId)
        ensures
            r == ArbitrationId::Odrive(self.base.arbitration_id),
    {
        ArbitrationId::Odrive(self.base.arbitration_id)
    }

    fn gen_can_msg_data(&self) -> (r: Vec<u8>) {
        let r: Vec<u8> = Vec::new();
        proof {
            assert(r@ =~= self.spec_payload());
        }
        r
    }

    fn parse_can_msg_data(&mut self, msg: &RawCanMessage)
        ensures
            final(self).base == old(self).base,
            final(self).spec_fields_decoded(*old(self), msg@.data),
    {
        if msg.data.len() >= 8 {
            self.setpoint_bits = u32_from_le(msg.data[0], msg.data[1], msg.data[2], msg.data[3]);
            self.measured_bits = u32_from_le(msg.data[4], msg.data[5], msg.data[6], msg.data[7]);
        }
    }

    fn message_filter() -> (f: MessageFilter) {
        MessageFilter::OdriveCmd(0x14)
    }
}


// ---------------------------------------------------------------------------
// Electrical and mechanical power (command 0x1D)
// ---------------------------------------------------------------------------

/// Cyclic report of electrical and mechanical power, each an IEEE-754 bit pattern.
#[derive(Debug, Clone)]
pub struct PowersMessage {
    pub base: OdriveCanMessage,
    pub electrical_power_bits: u32,
    pub mechanical_power_bits: u32,
}

impl PowersMessage {
    pub open spec fn wf(self) -> bool {
        self.base.wf() && self.base.arbitration_id.cmd_id == 0x1D
    }

    /// The payload bytes this message encodes to.
    pub open spec fn spec_payload(self) -> Seq<u8> {
        Seq::empty()
    }

    /// The payload fields as decoded from `d`.
    pub open spec fn spec_fields_decoded(self, pre: Self, d: Seq<u8>) -> bool {
        if d.len() >= 8 {
            self.electrical_power_bits == u32_of_le(d[0], d[1], d[2], d[3]) && self.mechanical_power_bits == u32_of_le(
                d[4],
                d[5],
                d[6],
                d[7],
            )
        } else {
            self.electrical_power_bits == pre.electrical_power_bits && self.mechanical_power_bits == pre.mechanical_power_bits
        }
    }

    pub open spec fn spec_new(node_id: u32) -> Self {
        PowersMessage {
            base: OdriveCanMessage::spec_new(node_id, 0x1D),
            electrical_power_bits: 0,
            mechanical_power_bits: 0,
        }
    }

    pub fn new(node_id: u32) -> (r: Self)
        ensures
            r == Self::spec_new(node_id),
    {
        Self {
            base: OdriveCanMessage::new(node_id, 0x1D),
            electrical_power_bits: 0,
            mechanical_power_bits: 0,
        }
    }
}

impl CanMessageTrait for PowersMessage {
    open spec fn spec_matches(m: FrameModel) -> bool {
        spec_odrive_cmd_matches(0x1D, m)
    }

    open spec fn spec_frame(&self) -> FrameModel {
        FrameModel {
            arbitration_id: self.base.arbitration_id.spec_value(),
            data: self.spec_payload(),
            is_extended_id: false,
        }
    }

    open spec fn spec_decoded(&self, m: FrameModel) -> bool {
        self.base.spec_base_decoded(m, 0x1D) && self.spec_fields_decoded(
            PowersMessage::spec_new(self.base.node_id),
            m.data,
        )
    }

    fn cmd_id() -> (r: u32)
        ensures
            r == 0x1D,
    {
        0x1D
    }

    fn node_id(&self) -> (r: u32)
        ensures
            r == self.base.node_id,
    {
        self.base.node_id
    }

    fn matches(msg: &RawCanMessage) -> (r: bool) {
        MessageFilter::OdriveCmd(0x1D).accepts(msg)
    }

    fn from_can_message(msg: RawCanMessage) -> (r: Self) {
        let arb = OdriveArbitrationId::from_can_message(&msg);
        let mut s = Self::new(arb.node_id);
        s.parse_can_msg_data(&msg);
        s
    }

    fn as_can_message(&self) -> (r: RawCanMessage) {
        let r = RawCanMessage {
            arbitration_id: self.base.arbitration_id.value(),
            data: self.gen_can_msg_data(),
            is_extended_id: false,
        };
        proof {
            assert(r@ =~= self.spec_frame());
        }
        r
    }

    open spec fn spec_arbitration(&self) -> ArbitrationId {
        ArbitrationId::Odrive(self.base.arbitration_id)
    }

    fn gen_arbitration_id(&self) -> (r: ArbitrationId)
        ensures
            r == ArbitrationId::Odrive(self.base.arbitration_id),
    {
        ArbitrationId::Odrive(self.base.arbitration_id)
    }

    fn gen_can_msg_data(&self) -> (r: Vec<u8>) {
        let r: Vec<u8> = Vec::new();
        proof {
            assert(r@ =~= self.spec_payload());
        }
        r
    }

    fn parse_can_msg_data(&mut self, msg: &RawCanMessage)
        ensures
            final(self).base == old(self).base,
            final(self).spec_fields_decoded(*old(self), msg@.data),
    {
        if msg.data.len() >= 8 {
            self.electrical_power_bits = u32_from_le(msg.data[0], msg.data[1], msg.data[2], msg.data[3]);
            self.mechanical_power_bits = u32_from_le(msg.data[4], msg.data[5], msg.data[6], msg.data[7]);
        }
    }

    fn message_filter() -> (f: MessageFilter) {
        MessageFilter::OdriveCmd(0x1D)
    }
}


// ---------------------------------------------------------------------------
// FET and motor temperature (command 0x15)
// ---------------------------------------------------------------------------

/// Cyclic report of FET and motor temperatures, each an IEEE-754 bit pattern.
#[derive(Debug, Clone)]
pub struct TemperatureMessage {
    pub base: OdriveCanMessage,
    pub fet_temperature_bits: u32,
    pub motor_temperature_bits: u32,
}

impl TemperatureMessage {
    pub open spec fn wf(self) -> bool {
        self.base.wf() && self.base.arbitration_id.cmd_id == 0x15
    }

    /// The payload bytes this message encodes to.
    pub open spec fn spec_payload(self) -> Seq<u8> {
        Seq::empty()
    }

    /// The payload fields as decoded from `d`.
    pub open spec fn spec_fields_decoded(self, pre: Self, d: Seq<u8>) -> bool {
        if d.len() >= 8 {
            self.fet_temperature_bits == u32_of_le(d[0], d[1], d[2], d[3]) && self.motor_temperature_bits == u32_of_le(
                d[4],
                d[5],
                d[6],
                d[7],
            )
        } else {
            self.fet_temperature_bits == pre.fet_temperature_bits && self.motor_temperature_bits == pre.motor_temperature_bits
        }
    }

    pub open spec fn spec_new(node_id: u32) -> Self {
        TemperatureMessage {
            base: OdriveCanMessage::spec_new(node_id, 0x15),
            fet_temperature_bits: 0,
            motor_temperature_bits: 0,
        }
    }

    pub fn new(node_id: u32) -> (r: Self)
        ensures
            r == Self::spec_new(node_id),
    {
        Self {
            base: OdriveCanMessage::new(node_id, 0x15),
            fet_temperature_bits: 0,
            motor_temperature_bits: 0,
        }
    }
}

impl CanMessageTrait for TemperatureMessage {
    open spec fn spec_matches(m: FrameModel) -> bool {
        spec_odrive_cmd_matches(0x15, m)
    }

    open spec fn spec_frame(&self) -> FrameModel {
        FrameModel {
            arbitration_id: self.base.arbitration_id.spec_value(),
            data: self.spec_payload(),
            is_extended_id: false,
        }
    }

    open spec fn spec_decoded(&self, m: FrameModel) -> bool {
        self.base.spec_base_decoded(m, 0x15) && self.spec_fields_decoded(
            TemperatureMessage::spec_new(self.base.node_id),
            m.data,
        )
    }

    fn cmd_id() -> (r: u32)
        ensures
            r == 0x15,
    {
        0x15
    }

    fn node_id(&self) -> (r: u32)
        ensures
            r == self.base.node_id,
    {
        self.base.node_id
    }

    fn matches(msg: &RawCanMessage) -> (r: bool) {
        MessageFilter::OdriveCmd(0x15).accepts(msg)
    }

    fn from_can_message(msg: RawCanMessage) -> (r: Self) {
        let arb = OdriveArbitrationId::from_can_message(&msg);
        let mut s = Self::new(arb.node_id);
        s.parse_can_msg_data(&msg);
        s
    }

    fn as_can_message(&self) -> (r: RawCanMessage) {
        let r = RawCanMessage {
            arbitration_id: self.base.arbitration_id.value(),
            data: self.gen_can_msg_data(),
            is_extended_id: false,
        };
        proof {
            assert(r@ =~= self.spec_frame());
        }
        r
    }

    open spec fn spec_arbitration(&self) -> ArbitrationId {
        ArbitrationId::Odrive(self.base.arbitration_id)
    }

    fn gen_arbitration_id(&self) -> (r: ArbitrationId)
        ensures
            r == ArbitrationId::Odrive(self.base.arbitration_id),
    {
        ArbitrationId::Odrive(self.base.arbitration_id)
    }

    fn gen_can_msg_data(&self) -> (r: Vec<u8>) {
        let r: Vec<u8> = Vec::new();
        proof {
            assert(r@ =~= self.spec_payload());
        }
        r
    }

    fn parse_can_msg_data(&mut self, msg: &RawCanMessage)
        ensures
            final(self).base == old(self).base,
            final(self).spec_fields_decoded(*old(self), msg@.data),
    {
        if msg.data.len() >= 8 {
            self.fet_temperature_bits = u32_from_le(msg.data[0], msg.data[1], msg.data[2], msg.data[3]);
            self.motor_temperature_bits = u32_from_le(msg.data[4], msg.data[5], msg.data[6], msg.data[7]);
        }
    }

    fn message_filter() -> (f: MessageFilter) {
        MessageFilter::OdriveCmd(0x15)
    }
}


// ---------------------------------------------------------------------------
// Torque target and estimate (command 0x1C)
// ---------------------------------------------------------------------------

/// Cyclic report of the torque target and estimate, each an IEEE-754 bit pattern.
#[derive(Debug, Clone)]
pub struct TorquesMessage {
    pub base: OdriveCanMessage,
    pub target_bits: u32,
    pub estimate_bits: u32,
}

impl TorquesMessage {
    pub open spec fn wf(self) -> bool {
        self.base.wf() && self.base.arbitration_id.cmd_id == 0x1C
    }

    /// The payload bytes this message encodes to.
    pub open spec fn spec_payload(self) -> Seq<u8> {
        Seq::empty()
    }

    /// The payload fields as decoded from `d`.
    pub open spec fn spec_fields_decoded(self, pre: Self, d: Seq<u8>) -> bool {
        if d.len() >= 8 {
            self.target_bits == u32_of_le(d[0], d[1], d[2], d[3]) && self.estimate_bits == u32_of_le(
                d[4],
                d[5],
                d[6],
                d[7],
            )
        } else {
            self.target_bits == pre.target_bits && self.estimate_bits == pre.estimate_bits
        }
    }

    pub open spec fn spec_new(node_id: u32) -> Self {
        TorquesMessage {
            base: OdriveCanMessage::spec_new(node_id, 0x1C),
            target_bits: 0,
            estimate_bits: 0,
        }
    }

    pub fn new(node_id: u32) -> (r: Self)
        ensures
            r == Self::spec_new(node_id),
    {
        Self {
            base: OdriveCanMessage::new(node_id, 0x1C),
            target_bits: 0,
            estimate_bits: 0,
        }
    }
}

impl CanMessageTrait for TorquesMessage {
    open spec fn spec_matches(m: FrameModel) -> bool {
        spec_odrive_cmd_matches(0x1C, m)
    }

    open spec fn spec_frame(&self) -> FrameModel {
        FrameModel {
            arbitration_id: self.base.arbitration_id.spec_value(),
            data: self.spec_payload(),
            is_extended_id: false,
        }
    }

    open spec fn spec_decoded(&self, m: FrameModel) -> bool {
        self.base.spec_base_decoded(m, 0x1C) && self.spec_fields_decoded(
            TorquesMessage::spec_new(self.base.node_id),
            m.data,
        )
    }

    fn cmd_id() -> (r: u32)
        ensures
            r == 0x1C,
    {
        0x1C
    }

    fn node_id(&self) -> (r: u32)
        ensures
            r == self.base.node_id,
    {
        self.base.node_id
    }

    fn matches(msg: &RawCanMessage) -> (r: bool) {
        MessageFilter::OdriveCmd(0x1C).accepts(msg)
    }

    fn from_can_message(msg: RawCanMessage) -> (r: Self) {
        let arb = OdriveArbitrationId::from_can_message(&msg);
        let mut s = Self::new(arb.node_id);
        s.parse_can_msg_data(&msg);
        s
    }

    fn as_can_message(&self) -> (r: RawCanMessage) {
        let r = RawCanMessage {
            arbitration_id: self.base.arbitration_id.value(),
            data: self.gen_can_msg_data(),
            is_extended_id: false,
        };
        proof {
            assert(r@ =~= self.spec_frame());
        }
        r
    }

    open spec fn spec_arbitration(&self) -> ArbitrationId {
        ArbitrationId::Odrive(self.base.arbitration_id)
    }

    fn gen_arbitration_id(&self) -> (r: ArbitrationId)
        ensures
            r == ArbitrationId::Odrive(self.base.arbitration_id),
    {
        ArbitrationId::Odrive(self.base.arbitration_id)
    }

    fn gen_can_msg_data(&self) -> (r: Vec<u8>) {
        let r: Vec<u8> = Vec::new();
        proof {
            assert(r@ =~= self.spec_payload());
        }
        r
    }

    fn parse_can_msg_data(&mut self, msg: &RawCanMessage)
        ensures
            final(self).base == old(self).base,
            final(self).spec_fields_decoded(*old(self), msg@.data),
    {
        if msg.data.len() >= 8 {
            self.target_bits = u32_from_le(msg.data[0], msg.data[1], msg.data[2], msg.data[3]);
            self.estimate_bits = u32_from_le(msg.data[4], msg.data[5], msg.data[6], msg.data[7]);
        }
    }

    fn message_filter() -> (f: MessageFilter) {
        MessageFilter::OdriveCmd(0x1C)
    }
}


// ---------------------------------------------------------------------------
// Hardware and firmware version (command 0x00)
// ---------------------------------------------------------------------------

/// Report of the hardware and firmware version bytes.
#[derive(Debug, Clone)]
pub struct VersionMessage {
    pub base: OdriveCanMessage,
    pub hw_major: u8,
    pub hw_minor: u8,
    pub hw_variant: u8,
    pub fw_major: u8,
    pub fw_minor: u8,
    pub fw_revision: u8,
}

impl VersionMessage {
    pub open spec fn wf(self) -> bool {
        self.base.wf() && self.base.arbitration_id.cmd_id == 0x00
    }

    /// The payload bytes this message encodes to.
    pub open spec fn spec_payload(self) -> Seq<u8> {
        Seq::empty()
    }

    /// The payload fields as decoded from `d`.
    pub open spec fn spec_fields_decoded(self, pre: Self, d: Seq<u8>) -> bool {
        if d.len() >= 8 {
            self.hw_major == d[1] && self.hw_minor == d[2] && self.hw_variant == d[3]
                && self.fw_major == d[4] && self.fw_minor == d[5] && self.fw_revision == d[6]
        } else {
            self.hw_major == pre.hw_major && self.hw_minor == pre.hw_minor
                && self.hw_variant == pre.hw_variant && self.fw_major == pre.fw_major
                && self.fw_minor == pre.fw_minor && self.fw_revision == pre.fw_revision
        }
    }

    pub open spec fn spec_new(node_id: u32) -> Self {
        VersionMessage {
            base: OdriveCanMessage::spec_new(node_id, 0x00),
            hw_major: 0,
            hw_minor: 0,
            hw_variant: 0,
            fw_major: 0,
            fw_minor: 0,
            fw_revision: 0,
        }
    }

    pub fn new(node_id: u32) -> (r: Self)
        ensures
            r == Self::spec_new(node_id),
    {
        Self {
            base: OdriveCanMessage::new(node_id, 0x00),
            hw_major: 0,
            hw_minor: 0,
            hw_variant: 0,
            fw_major: 0,
            fw_minor: 0,
            fw_revision: 0,
        }
    }
}

impl CanMessageTrait for VersionMessage {
    open spec fn spec_matches(m: FrameModel) -> bool {
        spec_odrive_cmd_matches(0x00, m)
    }

    open spec fn spec_frame(&self) -> FrameModel {
        FrameModel {
            arbitration_id: self.base.arbitration_id.spec_value(),
            data: self.spec_payload(),
            is_extended_id: false,
        }
    }

    open spec fn spec_decoded(&self, m: FrameModel) -> bool {
        self.base.spec_base_decoded(m, 0x00) && self.spec_fields_decoded(
            VersionMessage::spec_new(self.base.node_id),
            m.data,
        )
    }

    fn cmd_id() -> (r: u32)
        ensures
            r == 0x00,
    {
        0x00
    }

    fn node_id(&self) -> (r: u32)
        ensures
            r == self.base.node_id,
    {
        self.base.node_id
    }

    fn matches(msg: &RawCanMessage) -> (r: bool) {
        MessageFilter::OdriveCmd(0x00).accepts(msg)
    }

    fn from_can_message(msg: RawCanMessage) -> (r: Self) {
        let arb = OdriveArbitrationId::from_can_message(&msg);
        let mut s = Self::new(arb.node_id);
        s.parse_can_msg_data(&msg);
        s
    }

    fn as_can_message(&self) -> (r: RawCanMessage) {
        let r = RawCanMessage {
            arbitration_id: self.base.arbitration_id.value(),
            data: self.gen_can_msg_data(),
            is_extended_id: false,
        };
        proof {
            assert(r@ =~= self.spec_frame());
        }
        r
    }

    open spec fn spec_arbitration(&self) -> ArbitrationId {
        ArbitrationId::Odrive(self.base.arbitration_id)
    }

    fn gen_arbitration_id(&self) -> (r: ArbitrationId)
        ensures
            r == ArbitrationId::Odrive(self.base.arbitration_id),
    {
        ArbitrationId::Odrive(self.base.arbitration_id)
    }

    fn gen_can_msg_data(&self) -> (r: Vec<u8>) {
        let r: Vec<u8> = Vec::new();
        proof {
            assert(r@ =~= self.spec_payload());
        }
        r
    }

    fn parse_can_msg_data(&mut self, msg: &RawCanMessage)
        ensures
            final(self).base == old(self).base,
            final(self).spec_fields_decoded(*old(self), msg@.data),
    {
        if msg.data.len() >= 8 {
            self.hw_major = msg.data[1];
            self.hw_minor = msg.data[2];
            self.hw_variant = msg.data[3];
            self.fw_major = msg.data[4];
            self.fw_minor = msg.data[5];
            self.fw_revision = msg.data[6];
        }
    }

    fn message_filter() -> (f: MessageFilter) {
        MessageFilter::OdriveCmd(0x00)
    }
}


// ---------------------------------------------------------------------------
// Clear errors (command 0x18)
// ---------------------------------------------------------------------------

/// Command to clear the error state; the identify byte selects the LED identify behaviour.
#[derive(Debug, Clone)]
pub struct ClearErrorsCommand {
    pub base: OdriveCanMessage,
    pub identify: u8,
}

impl ClearErrorsCommand {
    pub open spec fn wf(self) -> bool {
        self.base.wf() && self.base.arbitration_id.cmd_id == 0x18
    }

    /// The payload bytes this message encodes to.
    pub open spec fn spec_payload(self) -> Seq<u8> {
        seq![self.identify]
    }

    /// The payload fields as decoded from `d`.
    pub open spec fn spec_fields_decoded(self, pre: Self, d: Seq<u8>) -> bool {
        if d.len() >= 1 {
            self.identify == d[0]
        } else {
            self.identify == pre.identify
        }
    }

    pub open spec fn spec_new(node_id: u32, identify: u8) -> Self {
        ClearErrorsCommand {
            base: OdriveCanMessage::spec_new(node_id, 0x18),
            identify,
        }
    }

    pub fn new(node_id: u32, identify: u8) -> (r: Self)
        ensures
            r == Self::spec_new(node_id, identify),
    {
        Self {
            base: OdriveCanMessage::new(node_id, 0x18),
            identify,
        }
    }
}

impl CanMessageTrait for ClearErrorsCommand {
    open spec fn spec_matches(m: FrameModel) -> bool {
        spec_odrive_cmd_matches(0x18, m)
    }

    open spec fn spec_frame(&self) -> FrameModel {
        FrameModel {
            arbitration_id: self.base.arbitration_id.spec_value(),
            data: self.spec_payload(),
            is_extended_id: false,
        }
    }

    open spec fn spec_decoded(&self, m: FrameModel) -> bool {
        self.base.spec_base_decoded(m, 0x18) && self.spec_fields_decoded(
            ClearErrorsCommand::spec_new(self.base.node_id, 0),
            m.data,
        )
    }

    fn cmd_id() -> (r: u32)
        ensures
            r == 0x18,
    {
        0x18
    }

    fn node_id(&self) -> (r: u32)
        ensures
            r == self.base.node_id,
    {
        self.base.node_id
    }

    fn matches(msg: &RawCanMessage) -> (r: bool) {
        MessageFilter::OdriveCmd(0x18).accepts(msg)
    }

    fn from_can_message(msg: RawCanMessage) -> (r: Self) {
        let arb = OdriveArbitrationId::from_can_message(&msg);
        let mut s = Self::new(arb.node_id, 0);
        s.parse_can_msg_data(&msg);
        s
    }

    fn as_can_message(&self) -> (r: RawCanMessage) {
        let r = RawCanMessage {
            arbitration_id: self.base.arbitration_id.value(),
            data: self.gen_can_msg_data(),
            is_extended_id: false,
        };
        proof {
            assert(r@ =~= self.spec_frame());
        }
        r
    }

    open spec fn spec_arbitration(&self) -> ArbitrationId {
        ArbitrationId::Odrive(self.base.arbitration_id)
    }

    fn gen_arbitration_id(&self) -> (r: ArbitrationId)
        ensures
            r == ArbitrationId::Odrive(self.base.arbitration_id),
    {
        ArbitrationId::Odrive(self.base.arbitration_id)
    }

    fn gen_can_msg_data(&self) -> (r: Vec<u8>) {
        let mut d: Vec<u8> = Vec::new();
        d.push(self.identify);
        proof {
            assert(d@ =~= self.spec_payload());
        }
        d
    }

    fn parse_can_msg_data(&mut self, msg: &RawCanMessage)
        ensures
            final(self).base == old(self).base,
            final(self).spec_fields_decoded(*old(self), msg@.data),
    {
        if msg.data.len() >= 1 {
            self.identify = msg.data[0];
        }
    }

    fn message_filter() -> (f: MessageFilter) {
        MessageFilter::OdriveCmd(0x18)
    }
}


// ---------------------------------------------------------------------------
// Read a parameter (command 0x04)
// ---------------------------------------------------------------------------

/// Command to read one configuration endpoint; opcode byte 0 marks a read.
#[derive(Debug, Clone)]
pub struct ReadParameterCommand {
    pub base: OdriveCanMessage,
    pub endpoint_id: u16,
}

impl ReadParameterCommand {
    pub open spec fn wf(self) -> bool {
        self.base.wf() && self.base.arbitration_id.cmd_id == 0x04
    }

    /// The payload bytes this message encodes to.
    pub open spec fn spec_payload(self) -> Seq<u8> {
        seq![0u8, lo16(self.endpoint_id), hi16(self.endpoint_id), 0u8]
    }

    /// The payload fields as decoded from `d`.
    pub open spec fn spec_fields_decoded(self, pre: Self, d: Seq<u8>) -> bool {
        if d.len() >= 4 {
            self.endpoint_id == u16_of_le(d[1], d[2])
        } else {
            self.endpoint_id == pre.endpoint_id
        }
    }

    pub open spec fn spec_new(node_id: u32, endpoint_id: u16) -> Self {
        ReadParameterCommand {
            base: OdriveCanMessage::spec_new(node_id, 0x04),
            endpoint_id,
        }
    }

    pub fn new(node_id: u32, endpoint_id: u16) -> (r: Self)
        ensures
            r == Self::spec_new(node_id, endpoint_id),
    {
        Self {
            base: OdriveCanMessage::new(node_id, 0x04),
            endpoint_id,
        }
    }
}

impl CanMessageTrait for ReadParameterCommand {
    open spec fn spec_matches(m: FrameModel) -> bool {
        spec_odrive_cmd_opcode_matches(0x04, 0, m)
    }

    open spec fn spec_frame(&self) -> FrameModel {
        FrameModel {
            arbitration_id: self.base.arbitration_id.spec_value(),
            data: self.spec_payload(),
            is_extended_id: false,
        }
    }

    open spec fn spec_decoded(&self, m: FrameModel) -> bool {
        self.base.spec_base_decoded(m, 0x04) && self.spec_fields_decoded(
            ReadParameterCommand::spec_new(self.base.node_id, 0),
            m.data,
        )
    }

    fn cmd_id() -> (r: u32)
        ensures
            r == 0x04,
    {
        0x04
    }

    fn node_id(&self) -> (r: u32)
        ensures
            r == self.base.node_id,
    {
        self.base.node_id
    }

    fn matches(msg: &RawCanMessage) -> (r: bool) {
        MessageFilter::OdriveCmdOpcode(0x04, 0).accepts(msg)
    }

    fn from_can_message(msg: RawCanMessage) -> (r: Self) {
        let arb = OdriveArbitrationId::from_can_message(&msg);
        let mut s = Self::new(arb.node_id, 0);
        s.parse_can_msg_data(&msg);
        s
    }

    fn as_can_message(&self) -> (r: RawCanMessage) {
        let r = RawCanMessage {
            arbitration_id: self.base.arbitration_id.value(),
            data: self.gen_can_msg_data(),
            is_extended_id: false,
        };
        proof {
            assert(r@ =~= self.spec_frame());
        }
        r
    }

    open spec fn spec_arbitration(&self) -> ArbitrationId {
        ArbitrationId::Odrive(self.base.arbitration_id)
    }

    fn gen_arbitration_id(&self) -> (r: ArbitrationId)
        ensures
            r == ArbitrationId::Odrive(self.base.arbitration_id),
    {
        ArbitrationId::Odrive(self.base.arbitration_id)
    }

    fn gen_can_msg_data(&self) -> (r: Vec<u8>) {
        let mut d: Vec<u8> = Vec::new();
        d.push(0);
        d.push(u16_le_lo(self.endpoint_id));
        d.push(u16_le_hi(self.endpoint_id));
        d.push(0);
        proof {
            assert(d@ =~= self.spec_payload());
        }
        d
    }

    fn parse_can_msg_data(&mut self, msg: &RawCanMessage)
        ensures
            final(self).base == old(self).base,
            final(self).spec_fields_decoded(*old(self), msg@.data),
    {
        if msg.data.len() >= 4 {
            self.endpoint_id = u16_from_le(msg.data[1], msg.data[2]);
        }
    }

    fn message_filter() -> (f: MessageFilter) {
        MessageFilter::OdriveCmdOpcode(0x04, 0)
    }
}


// ---------------------------------------------------------------------------
// Set the axis state (command 0x07)
// ---------------------------------------------------------------------------

/// Command to request an axis state transition.
#[derive(Debug, Clone)]
pub struct SetAxisStateMessage {
    pub base: OdriveCanMessage,
    pub axis_state: AxisState,
}

impl SetAxisStateMessage {
    pub open spec fn wf(self) -> bool {
        self.base.wf() && self.base.arbitration_id.cmd_id == 0x07
    }

    /// The payload bytes this message encodes to.
    pub open spec fn spec_payload(self) -> Seq<u8> {
        seq![spec_axis_state_value(self.axis_state), 0u8, 0u8, 0u8]
    }

    /// The payload fields as decoded from `d`.
    pub open spec fn spec_fields_decoded(self, pre: Self, d: Seq<u8>) -> bool {
        if d.len() >= 4 {
            let w = u32_of_le(d[0], d[1], d[2], d[3]);
            self.axis_state == (if w <= 0xFF {
                spec_axis_state_of_value(w as u8)
            } else {
                AxisState::Undefined
            })
        } else {
            self.axis_state == pre.axis_state
        }
    }

    pub open spec fn spec_new(node_id: u32, axis_state: AxisState) -> Self {
        SetAxisStateMessage {
            base: OdriveCanMessage::spec_new(node_id, 0x07),
            axis_state,
        }
    }

    pub fn new(node_id: u32, axis_state: AxisState) -> (r: Self)
        ensures
            r == Self::spec_new(node_id, axis_state),
    {
        Self {
            base: OdriveCanMessage::new(node_id, 0x07),
            axis_state,
        }
    }
}

impl CanMessageTrait for SetAxisStateMessage {
    open spec fn spec_matches(m: FrameModel) -> bool {
        spec_odrive_cmd_matches(0x07, m)
    }

    open spec fn spec_frame(&self) -> FrameModel {
        FrameModel {
            arbitration_id: self.base.arbitration_id.spec_value(),
            data: self.spec_payload(),
            is_extended_id: false,
        }
    }

    open spec fn spec_decoded(&self, m: FrameModel) -> bool {
        self.base.spec_base_decoded(m, 0x07) && self.spec_fields_decoded(
            SetAxisStateMessage::spec_new(self.base.node_id, AxisState::Undefined),
            m.data,
        )
    }

    fn cmd_id() -> (r: u32)
        ensures
            r == 0x07,
    {
        0x07
    }

    fn node_id(&self) -> (r: u32)
        ensures
            r == self.base.node_id,
    {
        self.base.node_id
    }

    fn matches(msg: &RawCanMessage) -> (r: bool) {
        MessageFilter::OdriveCmd(0x07).accepts(msg)
    }

    fn from_can_message(msg: RawCanMessage) -> (r: Self) {
        let arb = OdriveArbitrationId::from_can_message(&msg);
        let mut s = Self::new(arb.node_id, AxisState::Undefined);
        s.parse_can_msg_data(&msg);
        s
    }

    fn as_can_message(&self) -> (r: RawCanMessage) {
        let r = RawCanMessage {
            arbitration_id: self.base.arbitration_id.value(),
            data: self.gen_can_msg_data(),
            is_extended_id: false,
        };
        proof {
            assert(r@ =~= self.spec_frame());
        }
        r
    }

    open spec fn spec_arbitration(&self) -> ArbitrationId {
        ArbitrationId::Odrive(self.base.arbitration_id)
    }

    fn gen_arbitration_id(&self) -> (r: ArbitrationId)
        ensures
            r == ArbitrationId::Odrive(self.base.arbitration_id),
    {
        ArbitrationId::Odrive(self.base.arbitration_id)
    }

    fn gen_can_msg_data(&self) -> (r: Vec<u8>) {
        let mut d: Vec<u8> = Vec::new();
        d.push(self.axis_state.value());
        d.push(0);
        d.push(0);
        d.push(0);
        proof {
            assert(d@ =~= self.spec_payload());
        }
        d
    }

    fn parse_can_msg_data(&mut self, msg: &RawCanMessage)
        ensures
            final(self).base == old(self).base,
            final(self).spec_fields_decoded(*old(self), msg@.data),
    {
        if msg.data.len() >= 4 {
            let w = u32_from_le(msg.data[0], msg.data[1], msg.data[2], msg.data[3]);
            self.axis_state = if w <= 0xFF {
                AxisState::from_value(w as u8)
            } else {
                AxisState::Undefined
            };
        }
    }

    fn message_filter() -> (f: MessageFilter) {
        MessageFilter::OdriveCmd(0x07)
    }
}


// ---------------------------------------------------------------------------
// Set controller modes (command 0x0B)
// ---------------------------------------------------------------------------

/// Command selecting the control mode and the input mode.
#[derive(Debug, Clone)]
pub struct SetControllerMode {
    pub base: OdriveCanMessage,
    pub control_mode: ControlMode,
    pub input_mode: InputMode,
}

impl SetControllerMode {
    pub open spec fn wf(self) -> bool {
        self.base.wf() && self.base.arbitration_id.cmd_id == 0x0B
    }

    /// The payload bytes this message encodes to.
    pub open spec fn spec_payload(self) -> Seq<u8> {
        seq![spec_control_mode_value(self.control_mode), 0u8, 0u8, 0u8,
            spec_input_mode_value(self.input_mode), 0u8, 0u8, 0u8]
    }

    /// The payload fields as decoded from `d`.
    pub open spec fn spec_fields_decoded(self, pre: Self, d: Seq<u8>) -> bool {
        if d.len() >= 8 {
            self.control_mode == spec_control_mode_of_value(u32_of_le(d[0], d[1], d[2], d[3]))
                && self.input_mode == spec_input_mode_of_value(u32_of_le(d[4], d[5], d[6], d[7]))
        } else {
            self.control_mode == pre.control_mode && self.input_mode == pre.input_mode
        }
    }

    pub open spec fn spec_new(node_id: u32, control_mode: ControlMode, input_mode: InputMode) -> Self {
        SetControllerMode {
            base: OdriveCanMessage::spec_new(node_id, 0x0B),
            control_mode,
            input_mode,
        }
    }

    pub fn new(node_id: u32, control_mode: ControlMode, input_mode: InputMode) -> (r: Self)
        ensures
            r == Self::spec_new(node_id, control_mode, input_mode),
    {
        Self {
            base: OdriveCanMessage::new(node_id, 0x0B),
            control_mode,
            input_mode,
        }
    }
}

impl CanMessageTrait for SetControllerMode {
    open spec fn spec_matches(m: FrameModel) -> bool {
        spec_odrive_cmd_matches(0x0B, m)
    }

    open spec fn spec_frame(&self) -> FrameModel {
        FrameModel {
            arbitration_id: self.base.arbitration_id.spec_value(),
            data: self.spec_payload(),
            is_extended_id: false,
        }
    }

    open spec fn spec_decoded(&self, m: FrameModel) -> bool {
        self.base.spec_base_decoded(m, 0x0B) && self.spec_fields_decoded(
            SetControllerMode::spec_new(self.base.node_id, ControlMode::VoltageControl, InputMode::Inactive),
            m.data,
        )
    }

    fn cmd_id() -> (r: u32)
        ensures
            r == 0x0B,
    {
        0x0B
    }

    fn node_id(&self) -> (r: u32)
        ensures
            r == self.base.node_id,
    {
        self.base.node_id
    }

    fn matches(msg: &RawCanMessage) -> (r: bool) {
        MessageFilter::OdriveCmd(0x0B).accepts(msg)
    }

    fn from_can_message(msg: RawCanMessage) -> (r: Self) {
        let arb = OdriveArbitrationId::from_can_message(&msg);
        let mut s = Self::new(arb.node_id, ControlMode::VoltageControl, InputMode::Inactive);
        s.parse_can_msg_data(&msg);
        s
    }

    fn as_can_message(&self) -> (r: RawCanMessage) {
        let r = RawCanMessage {
            arbitration_id: self.base.arbitration_id.value(),
            data: self.gen_can_msg_data(),
            is_extended_id: false,
        };
        proof {
            assert(r@ =~= self.spec_frame());
        }
        r
    }

    open spec fn spec_arbitration(&self) -> ArbitrationId {
        ArbitrationId::Odrive(self.base.arbitration_id)
    }

    fn gen_arbitration_id(&self) -> (r: ArbitrationId)
        ensures
            r == ArbitrationId::Odrive(self.base.arbitration_id),
    {
        ArbitrationId::Odrive(self.base.arbitration_id)
    }

    fn gen_can_msg_data(&self) -> (r: Vec<u8>) {
        let mut d: Vec<u8> = Vec::new();
        d.push(self.control_mode.value());
        d.push(0);
        d.push(0);
        d.push(0);
        d.push(self.input_mode.value());
        d.push(0);
        d.push(0);
        d.push(0);
        proof {
            assert(d@ =~= self.spec_payload());
        }
        d
    }

    fn parse_can_msg_data(&mut self, msg: &RawCanMessage)
        ensures
            final(self).base == old(self).base,
            final(self).spec_fields_decoded(*old(self), msg@.data),
    {
        if msg.data.len() >= 8 {
            self.control_mode = ControlMode::from_value(
                u32_from_le(msg.data[0], msg.data[1], msg.data[2], msg.data[3]),
            );
            self.input_mode = InputMode::from_value(
                u32_from_le(msg.data[4], msg.data[5], msg.data[6], msg.data[7]),
            );
        }
    }

    fn message_filter() -> (f: MessageFilter) {
        MessageFilter::OdriveCmd(0x0B)
    }
}


// ---------------------------------------------------------------------------
// Set input position (command 0x0C)
// ---------------------------------------------------------------------------

/// Command carrying the input position (IEEE-754 bit pattern) and the velocity and torque feed-forward terms.
#[derive(Debug, Clone)]
pub struct SetPositionMessage {
    pub base: OdriveCanMessage,
    pub input_position_bits: u32,
    pub velocity_ff: i16,
    pub torque_ff: i16,
}

impl SetPositionMessage {
    pub open spec fn wf(self) -> bool {
        self.base.wf() && self.base.arbitration_id.cmd_id == 0x0C
    }

    /// The payload bytes this message encodes to.
    pub open spec fn spec_payload(self) -> Seq<u8> {
        seq![le32_byte(self.input_position_bits, 0), le32_byte(self.input_position_bits, 1),
            le32_byte(self.input_position_bits, 2), le32_byte(self.input_position_bits, 3),
            lo16(bits_of_i16(self.velocity_ff)), hi16(bits_of_i16(self.velocity_ff)),
            lo16(bits_of_i16(self.torque_ff)), hi16(bits_of_i16(self.torque_ff))]
    }

    /// The payload fields as decoded from `d`.
    pub open spec fn spec_fields_decoded(self, pre: Self, d: Seq<u8>) -> bool {
        if d.len() >= 8 {
            self.input_position_bits == u32_of_le(d[0], d[1], d[2], d[3])
                && self.velocity_ff == i16_of_bits(u16_of_le(d[4], d[5]))
                && self.torque_ff == i16_of_bits(u16_of_le(d[6], d[7]))
        } else {
            self.input_position_bits == pre.input_position_bits
                && self.velocity_ff == pre.velocity_ff && self.torque_ff == pre.torque_ff
        }
    }

    pub open spec fn spec_new(node_id: u32, input_position_bits: u32, velocity_ff: i16, torque_ff: i16) -> Self {
        SetPositionMessage {
            base: OdriveCanMessage::spec_new(node_id, 0x0C),
            input_position_bits,
            velocity_ff,
            torque_ff,
        }
    }

    pub fn new(node_id: u32, input_position_bits: u32, velocity_ff: i16, torque_ff: i16) -> (r: Self)
        ensures
            r == Self::spec_new(node_id, input_position_bits, velocity_ff, torque_ff),
    {
        Self {
            base: OdriveCanMessage::new(node_id, 0x0C),
            input_position_bits,
            velocity_ff,
            torque_ff,
        }
    }
}

impl CanMessageTrait for SetPositionMessage {
    open spec fn spec_matches(m: FrameModel) -> bool {
        spec_odrive_cmd_matches(0x0C, m)
    }

    open spec fn spec_frame(&self) -> FrameModel {
        FrameModel {
            arbitration_id: self.base.arbitration_id.spec_value(),
            data: self.spec_payload(),
            is_extended_id: false,
        }
    }

    open spec fn spec_decoded(&self, m: FrameModel) -> bool {
        self.base.spec_base_decoded(m, 0x0C) && self.spec_fields_decoded(
            SetPositionMessage::spec_new(self.base.node_id, 0, 0, 0),
            m.data,
        )
    }

    fn cmd_id() -> (r: u32)
        ensures
            r == 0x0C,
    {
        0x0C
    }

    fn node_id(&self) -> (r: u32)
        ensures
            r == self.base.node_id,
    {
        self.base.node_id
    }

    fn matches(msg: &RawCanMessage) -> (r: bool) {
        MessageFilter::OdriveCmd(0x0C).accepts(msg)
    }

    fn from_can_message(msg: RawCanMessage) -> (r: Self) {
        let arb = OdriveArbitrationId::from_can_message(&msg);
        let mut s = Self::new(arb.node_id, 0, 0, 0);
        s.parse_can_msg_data(&msg);
        s
    }

    fn as_can_message(&self) -> (r: RawCanMessage) {
        let r = RawCanMessage {
            arbitration_id: self.base.arbitration_id.value(),
            data: self.gen_can_msg_data(),
            is_extended_id: false,
        };
        proof {
            assert(r@ =~= self.spec_frame());
        }
        r
    }

    open spec fn spec_arbitration(&self) -> ArbitrationId {
        ArbitrationId::Odrive(self.base.arbitration_id)
    }

    fn gen_arbitration_id(&self) -> (r: ArbitrationId)
        ensures
            r == ArbitrationId::Odrive(self.base.arbitration_id),
    {
        ArbitrationId::Odrive(self.base.arbitration_id)
    }

    fn gen_can_msg_data(&self) -> (r: Vec<u8>) {
        let mut d: Vec<u8> = Vec::new();
        d.push(u32_le_part(self.input_position_bits, 0));
        d.push(u32_le_part(self.input_position_bits, 1));
        d.push(u32_le_part(self.input_position_bits, 2));
        d.push(u32_le_part(self.input_position_bits, 3));
        d.push(u16_le_lo(i16_to_bits(self.velocity_ff)));
        d.push(u16_le_hi(i16_to_bits(self.velocity_ff)));
        d.push(u16_le_lo(i16_to_bits(self.torque_ff)));
        d.push(u16_le_hi(i16_to_bits(self.torque_ff)));
        proof {
            assert(d@ =~= self.spec_payload());
        }
        d
    }

    fn parse_can_msg_data(&mut self, msg: &RawCanMessage)
        ensures
            final(self).base == old(self).base,
            final(self).spec_fields_decoded(*old(self), msg@.data),
    {
        if msg.data.len() >= 8 {
            self.input_position_bits = u32_from_le(msg.data[0], msg.data[1], msg.data[2], msg.data[3]);
            self.velocity_ff = i16_from_bits(u16_from_le(msg.data[4], msg.data[5]));
            self.torque_ff = i16_from_bits(u16_from_le(msg.data[6], msg.data[7]));
        }
    }

    fn message_filter() -> (f: MessageFilter) {
        MessageFilter::OdriveCmd(0x0C)
    }
}


// ---------------------------------------------------------------------------
// Set input torque (command 0x0E)
// ---------------------------------------------------------------------------

/// Command carrying the input torque as an IEEE-754 bit pattern.
#[derive(Debug, Clone)]
pub struct SetTorqueMessage {
    pub base: OdriveCanMessage,
    pub input_torque_bits: u32,
}

impl SetTorqueMessage {
    pub open spec fn wf(self) -> bool {
        self.base.wf() && self.base.arbitration_id.cmd_id == 0x0E
    }

    /// The payload bytes this message encodes to.
    pub open spec fn spec_payload(self) -> Seq<u8> {
        seq![le32_byte(self.input_torque_bits, 0), le32_byte(self.input_torque_bits, 1), le32_byte(self.input_torque_bits, 2), le32_byte(self.input_torque_bits, 3)]
    }

    /// The payload fields as decoded from `d`.
    pub open spec fn spec_fields_decoded(self, pre: Self, d: Seq<u8>) -> bool {
        if d.len() >= 4 {
            self.input_torque_bits == u32_of_le(d[0], d[1], d[2], d[3])
        } else {
            self.input_torque_bits == pre.input_torque_bits
        }
    }

    pub open spec fn spec_new(node_id: u32, input_torque_bits: u32) -> Self {
        SetTorqueMessage {
            base: OdriveCanMessage::spec_new(node_id, 0x0E),
            input_torque_bits,
        }
    }

    pub fn new(node_id: u32, input_torque_bits: u32) -> (r: Self)
        ensures
            r == Self::spec_new(node_id, input_torque_bits),
    {
        Self {
            base: OdriveCanMessage::new(node_id, 0x0E),
            input_torque_bits,
        }
    }
}

impl CanMessageTrait for SetTorqueMessage {
    open spec fn spec_matches(m: FrameModel) -> bool {
        spec_odrive_cmd_matches(0x0E, m)
    }

    open spec fn spec_frame(&self) -> FrameModel {
        FrameModel {
            arbitration_id: self.base.arbitration_id.spec_value(),
            data: self.spec_payload(),
            is_extended_id: false,
        }
    }

    open spec fn spec_decoded(&self, m: FrameModel) -> bool {
        self.base.spec_base_decoded(m, 0x0E) && self.spec_fields_decoded(
            SetTorqueMessage::spec_new(self.base.node_id, 0),
            m.data,
        )
    }

    fn cmd_id() -> (r: u32)
        ensures
            r == 0x0E,
    {
        0x0E
    }

    fn node_id(&self) -> (r: u32)
        ensures
            r == self.base.node_id,
    {
        self.base.node_id
    }

    fn matches(msg: &RawCanMessage) -> (r: bool) {
        MessageFilter::OdriveCmd(0x0E).accepts(msg)
    }

    fn from_can_message(msg: RawCanMessage) -> (r: Self) {
        let arb = OdriveArbitrationId::from_can_message(&msg);
        let mut s = Self::new(arb.node_id, 0);
        s.parse_can_msg_data(&msg);
        s
    }

    fn as_can_message(&self) -> (r: RawCanMessage) {
        let r = RawCanMessage {
            arbitration_id: self.base.arbitration_id.value(),
            data: self.gen_can_msg_data(),
            is_extended_id: false,
        };
        proof {
            assert(r@ =~= self.spec_frame());
        }
        r
    }

    open spec fn spec_arbitration(&self) -> ArbitrationId {
        ArbitrationId::Odrive(self.base.arbitration_id)
    }

    fn gen_arbitration_id(&self) -> (r: ArbitrationId)
        ensures
            r == ArbitrationId::Odrive(self.base.arbitration_id),
    {
        ArbitrationId::Odrive(self.base.arbitration_id)
    }

    fn gen_can_msg_data(&self) -> (r: Vec<u8>) {
        let mut d: Vec<u8> = Vec::new();
        d.push(u32_le_part(self.input_torque_bits, 0));
        d.push(u32_le_part(self.input_torque_bits, 1));
        d.push(u32_le_part(self.input_torque_bits, 2));
        d.push(u32_le_part(self.input_torque_bits, 3));
        proof {
            assert(d@ =~= self.spec_payload());
        }
        d
    }

    fn parse_can_msg_data(&mut self, msg: &RawCanMessage)
        ensures
            final(self).base == old(self).base,
            final(self).spec_fields_decoded(*old(self), msg@.data),
    {
        if msg.data.len() >= 4 {
            self.input_torque_bits = u32_from_le(msg.data[0], msg.data[1], msg.data[2], msg.data[3]);
        }
    }

    fn message_filter() -> (f: MessageFilter) {
        MessageFilter::OdriveCmd(0x0E)
    }
}


// ---------------------------------------------------------------------------
// Set input velocity (command 0x0D)
// ---------------------------------------------------------------------------

/// Command carrying the input velocity and torque feed-forward, each an IEEE-754 bit pattern.
#[derive(Debug, Clone)]
pub struct SetVelocityMessage {
    pub base: OdriveCanMessage,
    pub velocity_bits: u32,
    pub torque_bits: u32,
}

impl SetVelocityMessage {
    pub open spec fn wf(self) -> bool {
        self.base.wf() && self.base.arbitration_id.cmd_id == 0x0D
    }

    /// The payload bytes this message encodes to.
    pub open spec fn spec_payload(self) -> Seq<u8> {
        seq![le32_byte(self.velocity_bits, 0), le32_byte(self.velocity_bits, 1), le32_byte(self.velocity_bits, 2), le32_byte(self.velocity_bits, 3),
            le32_byte(self.torque_bits, 0), le32_byte(self.torque_bits, 1), le32_byte(self.torque_bits, 2), le32_byte(self.torque_bits, 3)]
    }

    /// The payload fields as decoded from `d`.
    pub open spec fn spec_fields_decoded(self, pre: Self, d: Seq<u8>) -> bool {
        if d.len() >= 8 {
            self.velocity_bits == u32_of_le(d[0], d[1], d[2], d[3]) && self.torque_bits == u32_of_le(d[4], d[5], d[6], d[7])
        } else {
            self.velocity_bits == pre.velocity_bits && self.torque_bits == pre.torque_bits
        }
    }

    pub open spec fn spec_new(node_id: u32, velocity_bits: u32, torque_bits: u32) -> Self {
        SetVelocityMessage {
            base: OdriveCanMessage::spec_new(node_id, 0x0D),
            velocity_bits,
            torque_bits,
        }
    }

    pub fn new(node_id: u32, velocity_bits: u32, torque_bits: u32) -> (r: Self)
        ensures
            r == Self::spec_new(node_id, velocity_bits, torque_bits),
    {
        Self {
            base: OdriveCanMessage::new(node_id, 0x0D),
            velocity_bits,
            torque_bits,
        }
    }
}

impl CanMessageTrait for SetVelocityMessage {
    open spec fn spec_matches(m: FrameModel) -> bool {
        spec_odrive_cmd_matches(0x0D, m)
    }

    open spec fn spec_frame(&self) -> FrameModel {
        FrameModel {
            arbitration_id: self.base.arbitration_id.spec_value(),
            data: self.spec_payload(),
            is_extended_id: false,
        }
    }

    open spec fn spec_decoded(&self, m: FrameModel) -> bool {
        self.base.spec_base_decoded(m, 0x0D) && self.spec_fields_decoded(
            SetVelocityMessage::spec_new(self.base.node_id, 0, 0),
            m.data,
        )
    }

    fn cmd_id() -> (r: u32)
        ensures
            r == 0x0D,
    {
        0x0D
    }

    fn node_id(&self) -> (r: u32)
        ensures
            r == self.base.node_id,
    {
        self.base.node_id
    }

    fn matches(msg: &RawCanMessage) -> (r: bool) {
        MessageFilter::OdriveCmd(0x0D).accepts(msg)
    }

    fn from_can_message(msg: RawCanMessage) -> (r: Self) {
        let arb = OdriveArbitrationId::from_can_message(&msg);
        let mut s = Self::new(arb.node_id, 0, 0);
        s.parse_can_msg_data(&msg);
        s
    }

    fn as_can_message(&self) -> (r: RawCanMessage) {
        let r = RawCanMessage {
            arbitration_id: self.base.arbitration_id.value(),
            data: self.gen_can_msg_data(),
            is_extended_id: false,
        };
        proof {
            assert(r@ =~= self.spec_frame());
        }
        r
    }

    open spec fn spec_arbitration(&self) -> ArbitrationId {
        ArbitrationId::Odrive(self.base.arbitration_id)
    }

    fn gen_arbitration_id(&self) -> (r: ArbitrationId)
        ensures
            r == ArbitrationId::Odrive(self.base.arbitration_id),
    {
        ArbitrationId::Odrive(self.base.arbitration_id)
    }

    fn gen_can_msg_data(&self) -> (r: Vec<u8>) {
        let mut d: Vec<u8> = Vec::new();
        d.push(u32_le_part(self.velocity_bits, 0));
        d.push(u32_le_part(self.velocity_bits, 1));
        d.push(u32_le_part(self.velocity_bits, 2));
        d.push(u32_le_part(self.velocity_bits, 3));
        d.push(u32_le_part(self.torque_bits, 0));
        d.push(u32_le_part(self.torque_bits, 1));
        d.push(u32_le_part(self.torque_bits, 2));
        d.push(u32_le_part(self.torque_bits, 3));
        proof {
            assert(d@ =~= self.spec_payload());
        }
        d
    }

    fn parse_can_msg_data(&mut self, msg: &RawCanMessage)
        ensures
            final(self).base == old(self).base,
            final(self).spec_fields_decoded(*old(self), msg@.data),
    {
        if msg.data.len() >= 8 {
            self.velocity_bits = u32_from_le(msg.data[0], msg.data[1], msg.data[2], msg.data[3]);
            self.torque_bits = u32_from_le(msg.data[4], msg.data[5], msg.data[6], msg.data[7]);
        }
    }

    fn message_filter() -> (f: MessageFilter) {
        MessageFilter::OdriveCmd(0x0D)
    }
}


// ---------------------------------------------------------------------------
// Emergency stop (command 0x02)
// ---------------------------------------------------------------------------

/// Command requesting an immediate stop.
#[derive(Debug, Clone)]
pub struct EStop {
    pub base: OdriveCanMessage,
}

impl EStop {
    pub open spec fn wf(self) -> bool {
        self.base.wf() && self.base.arbitration_id.cmd_id == 0x02
    }

    /// The payload bytes this message encodes to.
    pub open spec fn spec_payload(self) -> Seq<u8> {
        Seq::empty()
    }

    /// The payload fields as decoded from `d`.
    pub open spec fn spec_fields_decoded(self, pre: Self, d: Seq<u8>) -> bool {
        true
    }

    pub open spec fn spec_new(node_id: u32) -> Self {
        EStop {
            base: OdriveCanMessage::spec_new(node_id, 0x02),
        }
    }

    pub fn new(node_id: u32) -> (r: Self)
        ensures
            r == Self::spec_new(node_id),
    {
        Self {
            base: OdriveCanMessage::new(node_id, 0x02),
        }
    }
}

impl CanMessageTrait for EStop {
    open spec fn spec_matches(m: FrameModel) -> bool {
        spec_odrive_cmd_matches(0x02, m)
    }

    open spec fn spec_frame(&self) -> FrameModel {
        FrameModel {
            arbitration_id: self.base.arbitration_id.spec_value(),
            data: self.spec_payload(),
            is_extended_id: false,
        }
    }

    open spec fn spec_decoded(&self, m: FrameModel) -> bool {
        self.base.spec_base_decoded(m, 0x02) && self.spec_fields_decoded(
            EStop::spec_new(self.base.node_id),
            m.data,
        )
    }

    fn cmd_id() -> (r: u32)
        ensures
            r == 0x02,
    {
        0x02
    }

    fn node_id(&self) -> (r: u32)
        ensures
            r == self.base.node_id,
    {
        self.base.node_id
    }

    fn matches(msg: &RawCanMessage) -> (r: bool) {
        MessageFilter::OdriveCmd(0x02).accepts(msg)
    }

    fn from_can_message(msg: RawCanMessage) -> (r: Self) {
        let arb = OdriveArbitrationId::from_can_message(&msg);
        let mut s = Self::new(arb.node_id);
        s.parse_can_msg_data(&msg);
        s
    }

    fn as_can_message(&self) -> (r: RawCanMessage) {
        let r = RawCanMessage {
            arbitration_id: self.base.arbitration_id.value(),
            data: self.gen_can_msg_data(),
            is_extended_id: false,
        };
        proof {
            assert(r@ =~= self.spec_frame());
        }
        r
    }

    open spec fn spec_arbitration(&self) -> ArbitrationId {
        ArbitrationId::Odrive(self.base.arbitration_id)
    }

    fn gen_arbitration_id(&self) -> (r: ArbitrationId)
        ensures
            r == ArbitrationId::Odrive(self.base.arbitration_id),
    {
        ArbitrationId::Odrive(self.base.arbitration_id)
    }

    fn gen_can_msg_data(&self) -> (r: Vec<u8>) {
        let r: Vec<u8> = Vec::new();
        proof {
            assert(r@ =~= self.spec_payload());
        }
        r
    }

    fn parse_can_msg_data(&mut self, msg: &RawCanMessage)
        ensures
            final(self).base == old(self).base,
            final(self).spec_fields_decoded(*old(self), msg@.data),
    {
    }

    fn message_filter() -> (f: MessageFilter) {
        MessageFilter::OdriveCmd(0x02)
    }
}


// ---------------------------------------------------------------------------
// Reboot (command 0x16)
// ---------------------------------------------------------------------------

/// Command requesting a reboot; the action word selects the variant.
#[derive(Debug, Clone)]
pub struct Reboot {
    pub base: OdriveCanMessage,
    pub action: u32,
}

impl Reboot {
    pub open spec fn wf(self) -> bool {
        self.base.wf() && self.base.arbitration_id.cmd_id == 0x16
    }

    /// The payload bytes this message encodes to.
    pub open spec fn spec_payload(self) -> Seq<u8> {
        seq![le32_byte(self.action, 0), le32_byte(self.action, 1), le32_byte(self.action, 2), le32_byte(self.action, 3)]
    }

    /// The payload fields as decoded from `d`.
    pub open spec fn spec_fields_decoded(self, pre: Self, d: Seq<u8>) -> bool {
        if d.len() >= 4 {
            self.action == u32_of_le(d[0], d[1], d[2], d[3])
        } else {
            self.action == pre.action
        }
    }

    pub open spec fn spec_new(node_id: u32, action: u32) -> Self {
        Reboot {
            base: OdriveCanMessage::spec_new(node_id, 0x16),
            action,
        }
    }

    pub fn new(node_id: u32, action: u32) -> (r: Self)
        ensures
            r == Self::spec_new(node_id, action),
    {
        Self {
            base: OdriveCanMessage::new(node_id, 0x16),
            action,
        }
    }
}

impl CanMessageTrait for Reboot {
    open spec fn spec_matches(m: FrameModel) -> bool {
        spec_odrive_cmd_matches(0x16, m)
    }

    open spec fn spec_frame(&self) -> FrameModel {
        FrameModel {
            arbitration_id: self.base.arbitration_id.spec_value(),
            data: self.spec_payload(),
            is_extended_id: false,
        }
    }

    open spec fn spec_decoded(&self, m: FrameModel) -> bool {
        self.base.spec_base_decoded(m, 0x16) && self.spec_fields_decoded(
            Reboot::spec_new(self.base.node_id, 0),
            m.data,
        )
    }

    fn cmd_id() -> (r: u32)
        ensures
            r == 0x16,
    {
        0x16
    }

    fn node_id(&self) -> (r: u32)
        ensures
            r == self.base.node_id,
    {
        self.base.node_id
    }

    fn matches(msg: &RawCanMessage) -> (r: bool) {
        MessageFilter::OdriveCmd(0x16).accepts(msg)
    }

    fn from_can_message(msg: RawCanMessage) -> (r: Self) {
        let arb = OdriveArbitrationId::from_can_message(&msg);
        let mut s = Self::new(arb.node_id, 0);
        s.parse_can_msg_data(&msg);
        s
    }

    fn as_can_message(&self) -> (r: RawCanMessage) {
        let r = RawCanMessage {
            arbitration_id: self.base.arbitration_id.value(),
            data: self.gen_can_msg_data(),
            is_extended_id: false,
        };
        proof {
            assert(r@ =~= self.spec_frame());
        }
        r
    }

    open spec fn spec_arbitration(&self) -> ArbitrationId {
        ArbitrationId::Odrive(self.base.arbitration_id)
    }

    fn gen_arbitration_id(&self) -> (r: ArbitrationId)
        ensures
            r == ArbitrationId::Odrive(self.base.arbitration_id),
    {
        ArbitrationId::Odrive(self.base.arbitration_id)
    }

    fn gen_can_msg_data(&self) -> (r: Vec<u8>) {
        let mut d: Vec<u8> = Vec::new();
        d.push(u32_le_part(self.action, 0));
        d.push(u32_le_part(self.action, 1));
        d.push(u32_le_part(self.action, 2));
        d.push(u32_le_part(self.action, 3));
        proof {
            assert(d@ =~= self.spec_payload());
        }
        d
    }

    fn parse_can_msg_data(&mut self, msg: &RawCanMessage)
        ensures
            final(self).base == old(self).base,
            final(self).spec_fields_decoded(*old(self), msg@.data),
    {
        if msg.data.len() >= 4 {
            self.action = u32_from_le(msg.data[0], msg.data[1], msg.data[2], msg.data[3]);
        }
    }

    fn message_filter() -> (f: MessageFilter) {
        MessageFilter::OdriveCmd(0x16)
    }
}


// ---------------------------------------------------------------------------
// Set limits (command 0x0F)
// ---------------------------------------------------------------------------

/// Command carrying the velocity and current limits, each an IEEE-754 bit pattern.
#[derive(Debug, Clone)]
pub struct SetLimitsCommand {
    pub base: OdriveCanMessage,
    pub velocity_limit_bits: u32,
    pub current_limit_bits: u32,
}

impl SetLimitsCommand {
    pub open spec fn wf(self) -> bool {
        self.base.wf() && self.base.arbitration_id.cmd_id == 0x0F
    }

    /// The payload bytes this message encodes to.
    pub open spec fn spec_payload(self) -> Seq<u8> {
        seq![le32_byte(self.velocity_limit_bits, 0), le32_byte(self.velocity_limit_bits, 1), le32_byte(self.velocity_limit_bits, 2), le32_byte(self.velocity_limit_bits, 3),
            le32_byte(self.current_limit_bits, 0), le32_byte(self.current_limit_bits, 1), le32_byte(self.current_limit_bits, 2), le32_byte(self.current_limit_bits, 3)]
    }

    /// The payload fields as decoded from `d`.
    pub open spec fn spec_fields_decoded(self, pre: Self, d: Seq<u8>) -> bool {
        if d.len() >= 8 {
            self.velocity_limit_bits == u32_of_le(d[0], d[1], d[2], d[3]) && self.current_limit_bits == u32_of_le(d[4], d[5], d[6], d[7])
        } else {
            self.velocity_limit_bits == pre.velocity_limit_bits && self.current_limit_bits == pre.current_limit_bits
        }
    }

    pub open spec fn spec_new(node_id: u32, velocity_limit_bits: u32, current_limit_bits: u32) -> Self {
        SetLimitsCommand {
            base: OdriveCanMessage::spec_new(node_id, 0x0F),
            velocity_limit_bits,
            current_limit_bits,
        }
    }

    pub fn new(node_id: u32, velocity_limit_bits: u32, current_limit_bits: u32) -> (r: Self)
        ensures
            r == Self::spec_new(node_id, velocity_limit_bits, current_limit_bits),
    {
        Self {
            base: OdriveCanMessage::new(node_id, 0x0F),
            velocity_limit_bits,
            current_limit_bits,
        }
    }
}

impl CanMessageTrait for SetLimitsCommand {
    open spec fn spec_matches(m: FrameModel) -> bool {
        spec_odrive_cmd_matches(0x0F, m)
    }

    open spec fn spec_frame(&self) -> FrameModel {
        FrameModel {
            arbitration_id: self.base.arbitration_id.spec_value(),
            data: self.spec_payload(),
            is_extended_id: false,
        }
    }

    open spec fn spec_decoded(&self, m: FrameModel) -> bool {
        self.base.spec_base_decoded(m, 0x0F) && self.spec_fields_decoded(
            SetLimitsCommand::spec_new(self.base.node_id, 0, 0),
            m.data,
        )
    }

    fn cmd_id() -> (r: u32)
        ensures
            r == 0x0F,
    {
        0x0F
    }

    fn node_id(&self) -> (r: u32)
        ensures
            r == self.base.node_id,
    {
        self.base.node_id
    }

    fn matches(msg: &RawCanMessage) -> (r: bool) {
        MessageFilter::OdriveCmd(0x0F).accepts(msg)
    }

    fn from_can_message(msg: RawCanMessage) -> (r: Self) {
        let arb = OdriveArbitrationId::from_can_message(&msg);
        let mut s = Self::new(arb.node_id, 0, 0);
        s.parse_can_msg_data(&msg);
        s
    }

    fn as_can_message(&self) -> (r: RawCanMessage) {
        let r = RawCanMessage {
            arbitration_id: self.base.arbitration_id.value(),
            data: self.gen_can_msg_data(),
            is_extended_id: false,
        };
        proof {
            assert(r@ =~= self.spec_frame());
        }
        r
    }

    open spec fn spec_arbitration(&self) -> ArbitrationId {
        ArbitrationId::Odrive(self.base.arbitration_id)
    }

    fn gen_arbitration_id(&self) -> (r: ArbitrationId)
        ensures
            r == ArbitrationId::Odrive(self.base.arbitration_id),
    {
        ArbitrationId::Odrive(self.base.arbitration_id)
    }

    fn gen_can_msg_data(&self) -> (r: Vec<u8>) {
        let mut d: Vec<u8> = Vec::new();
        d.push(u32_le_part(self.velocity_limit_bits, 0));
        d.push(u32_le_part(self.velocity_limit_bits, 1));
        d.push(u32_le_part(self.velocity_limit_bits, 2));
        d.push(u32_le_part(self.velocity_limit_bits, 3));
        d.push(u32_le_part(self.current_limit_bits, 0));
        d.push(u32_le_part(self.current_limit_bits, 1));
        d.push(u32_le_part(self.current_limit_bits, 2));
        d.push(u32_le_part(self.current_limit_bits, 3));
        proof {
            assert(d@ =~= self.spec_payload());
        }
        d
    }

    fn parse_can_msg_data(&mut self, msg: &RawCanMessage)
        ensures
            final(self).base == old(self).base,
            final(self).spec_fields_decoded(*old(self), msg@.data),
    {
        if msg.data.len() >= 8 {
            self.velocity_limit_bits = u32_from_le(msg.data[0], msg.data[1], msg.data[2], msg.data[3]);
            self.current_limit_bits = u32_from_le(msg.data[4], msg.data[5], msg.data[6], msg.data[7]);
        }
    }

    fn message_filter() -> (f: MessageFilter) {
        MessageFilter::OdriveCmd(0x0F)
    }
}


// ---------------------------------------------------------------------------
// Set trajectory velocity limit (command 0x11)
// ---------------------------------------------------------------------------

/// Command carrying the trajectory velocity limit as an IEEE-754 bit pattern.
#[derive(Debug, Clone)]
pub struct SetTrajVelLimitMessage {
    pub base: OdriveCanMessage,
    pub traj_vel_limit_bits: u32,
}

impl SetTrajVelLimitMessage {
    pub open spec fn wf(self) -> bool {
        self.base.wf() && self.base.arbitration_id.cmd_id == 0x11
    }

    /// The payload bytes this message encodes to.
    pub open spec fn spec_payload(self) -> Seq<u8> {
        seq![le32_byte(self.traj_vel_limit_bits, 0), le32_byte(self.traj_vel_limit_bits, 1), le32_byte(self.traj_vel_limit_bits, 2), le32_byte(self.traj_vel_limit_bits, 3)]
    }

    /// The payload fields as decoded from `d`.
    pub open spec fn spec_fields_decoded(self, pre: Self, d: Seq<u8>) -> bool {
        if d.len() >= 4 {
            self.traj_vel_limit_bits == u32_of_le(d[0], d[1], d[2], d[3])
        } else {
            self.traj_vel_limit_bits == pre.traj_vel_limit_bits
        }
    }

    pub open spec fn spec_new(node_id: u32, traj_vel_limit_bits: u32) -> Self {
        SetTrajVelLimitMessage {
            base: OdriveCanMessage::spec_new(node_id, 0x11),
            traj_vel_limit_bits,
        }
    }

    pub fn new(node_id: u32, traj_vel_limit_bits: u32) -> (r: Self)
        ensures
            r == Self::spec_new(node_id, traj_vel_limit_bits),
    {
        Self {
            base: OdriveCanMessage::new(node_id, 0x11),
            traj_vel_limit_bits,
        }
    }
}

impl CanMessageTrait for SetTrajVelLimitMessage {
    open spec fn spec_matches(m: FrameModel) -> bool {
        spec_odrive_cmd_matches(0x11, m)
    }

    open spec fn spec_frame(&self) -> FrameModel {
        FrameModel {
            arbitration_id: self.base.arbitration_id.spec_value(),
            data: self.spec_payload(),
            is_extended_id: false,
        }
    }

    open spec fn spec_decoded(&self, m: FrameModel) -> bool {
        self.base.spec_base_decoded(m, 0x11) && self.spec_fields_decoded(
            SetTrajVelLimitMessage::spec_new(self.base.node_id, 0),
            m.data,
        )
    }

    fn cmd_id() -> (r: u32)
        ensures
            r == 0x11,
    {
        0x11
    }

    fn node_id(&self) -> (r: u32)
        ensures
            r == self.base.node_id,
    {
        self.base.node_id
    }

    fn matches(msg: &RawCanMessage) -> (r: bool) {
        MessageFilter::OdriveCmd(0x11).accepts(msg)
    }

    fn from_can_message(msg: RawCanMessage) -> (r: Self) {
        let arb = OdriveArbitrationId::from_can_message(&msg);
        let mut s = Self::new(arb.node_id, 0);
        s.parse_can_msg_data(&msg);
        s
    }

    fn as_can_message(&self) -> (r: RawCanMessage) {
        let r = RawCanMessage {
            arbitration_id: self.base.arbitration_id.value(),
            data: self.gen_can_msg_data(),
            is_extended_id: false,
        };
        proof {
            assert(r@ =~= self.spec_frame());
        }
        r
    }

    open spec fn spec_arbitration(&self) -> ArbitrationId {
        ArbitrationId::Odrive(self.base.arbitration_id)
    }

    fn gen_arbitration_id(&self) -> (r: ArbitrationId)
        ensures
            r == ArbitrationId::Odrive(self.base.arbitration_id),
    {
        ArbitrationId::Odrive(self.base.arbitration_id)
    }

    fn gen_can_msg_data(&self) -> (r: Vec<u8>) {
        let mut d: Vec<u8> = Vec::new();
        d.push(u32_le_part(self.traj_vel_limit_bits, 0));
        d.push(u32_le_part(self.traj_vel_limit_bits, 1));
        d.push(u32_le_part(self.traj_vel_limit_bits, 2));
        d.push(u32_le_part(self.traj_vel_limit_bits, 3));
        proof {
            assert(d@ =~= self.spec_payload());
        }
        d
    }

    fn parse_can_msg_data(&mut self, msg: &RawCanMessage)
        ensures
            final(self).base == old(self).base,
            final(self).spec_fields_decoded(*old(self), msg@.data),
    {
        if msg.data.len() >= 4 {
            self.traj_vel_limit_bits = u32_from_le(msg.data[0], msg.data[1], msg.data[2], msg.data[3]);
        }
    }

    fn message_filter() -> (f: MessageFilter) {
        MessageFilter::OdriveCmd(0x11)
    }
}


// ---------------------------------------------------------------------------
// Set trajectory acceleration limits (command 0x12)
// ---------------------------------------------------------------------------

/// Command carrying the trajectory acceleration and deceleration limits, each an IEEE-754 bit pattern.
#[derive(Debug, Clone)]
pub struct SetTrajAccelLimitsMessage {
    pub base: OdriveCanMessage,
    pub traj_accel_limit_bits: u32,
    pub traj_decel_limit_bits: u32,
}

impl SetTrajAccelLimitsMessage {
    pub open spec fn wf(self) -> bool {
        self.base.wf() && self.base.arbitration_id.cmd_id == 0x12
    }

    /// The payload bytes this message encodes to.
    pub open spec fn spec_payload(self) -> Seq<u8> {
        seq![le32_byte(self.traj_accel_limit_bits, 0), le32_byte(self.traj_accel_limit_bits, 1), le32_byte(self.traj_accel_limit_bits, 2), le32_byte(self.traj_accel_limit_bits, 3),
            le32_byte(self.traj_decel_limit_bits, 0), le32_byte(self.traj_decel_limit_bits, 1), le32_byte(self.traj_decel_limit_bits, 2), le32_byte(self.traj_decel_limit_bits, 3)]
    }

    /// The payload fields as decoded from `d`.
    pub open spec fn spec_fields_decoded(self, pre: Self, d: Seq<u8>) -> bool {
        if d.len() >= 8 {
            self.traj_accel_limit_bits == u32_of_le(d[0], d[1], d[2], d[3]) && self.traj_decel_limit_bits == u32_of_le(d[4], d[5], d[6], d[7])
        } else {
            self.traj_accel_limit_bits == pre.traj_accel_limit_bits && self.traj_decel_limit_bits == pre.traj_decel_limit_bits
        }
    }

    pub open spec fn spec_new(node_id: u32, traj_accel_limit_bits: u32, traj_decel_limit_bits: u32) -> Self {
        SetTrajAccelLimitsMessage {
            base: OdriveCanMessage::spec_new(node_id, 0x12),
            traj_accel_limit_bits,
            traj_decel_limit_bits,
        }
    }

    pub fn new(node_id: u32, traj_accel_limit_bits: u32, traj_decel_limit_bits: u32) -> (r: Self)
        ensures
            r == Self::spec_new(node_id, traj_accel_limit_bits, traj_decel_limit_bits),
    {
        Self {
            base: OdriveCanMessage::new(node_id, 0x12),
            traj_accel_limit_bits,
            traj_decel_limit_bits,
        }
    }
}

impl CanMessageTrait for SetTrajAccelLimitsMessage {
    open spec fn spec_matches(m: FrameModel) -> bool {
        spec_odrive_cmd_matches(0x12, m)
    }

    open spec fn spec_frame(&self) -> FrameModel {
        FrameModel {
            arbitration_id: self.base.arbitration_id.spec_value(),
            data: self.spec_payload(),
            is_extended_id: false,
        }
    }

    open spec fn spec_decoded(&self, m: FrameModel) -> bool {
        self.base.spec_base_decoded(m, 0x12) && self.spec_fields_decoded(
            SetTrajAccelLimitsMessage::spec_new(self.base.node_id, 0, 0),
            m.data,
        )
    }

    fn cmd_id() -> (r: u32)
        ensures
            r == 0x12,
    {
        0x12
    }

    fn node_id(&self) -> (r: u32)
        ensures
            r == self.base.node_id,
    {
        self.base.node_id
    }

    fn matches(msg: &RawCanMessage) -> (r: bool) {
        MessageFilter::OdriveCmd(0x12).accepts(msg)
    }

    fn from_can_message(msg: RawCanMessage) -> (r: Self) {
        let arb = OdriveArbitrationId::from_can_message(&msg);
        let mut s = Self::new(arb.node_id, 0, 0);
        s.parse_can_msg_data(&msg);
        s
    }

    fn as_can_message(&self) -> (r: RawCanMessage) {
        let r = RawCanMessage {
            arbitration_id: self.base.arbitration_id.value(),
            data: self.gen_can_msg_data(),
            is_extended_id: false,
        };
        proof {
            assert(r@ =~= self.spec_frame());
        }
        r
    }

    open spec fn spec_arbitration(&self) -> ArbitrationId {
        ArbitrationId::Odrive(self.base.arbitration_id)
    }

    fn gen_arbitration_id(&self) -> (r: ArbitrationId)
        ensures
            r == ArbitrationId::Odrive(self.base.arbitration_id),
    {
        ArbitrationId::Odrive(self.base.arbitration_id)
    }

    fn gen_can_msg_data(&self) -> (r: Vec<u8>) {
        let mut d: Vec<u8> = Vec::new();
        d.push(u32_le_part(self.traj_accel_limit_bits, 0));
        d.push(u32_le_part(self.traj_accel_limit_bits, 1));
        d.push(u32_le_part(self.traj_accel_limit_bits, 2));
        d.push(u32_le_part(self.traj_accel_limit_bits, 3));
        d.push(u32_le_part(self.traj_decel_limit_bits, 0));
        d.push(u32_le_part(self.traj_decel_limit_bits, 1));
        d.push(u32_le_part(self.traj_decel_limit_bits, 2));
        d.push(u32_le_part(self.traj_decel_limit_bits, 3));
        proof {
            assert(d@ =~= self.spec_payload());
        }
        d
    }

    fn parse_can_msg_data(&mut self, msg: &RawCanMessage)
        ensures
            final(self).base == old(self).base,
            final(self).spec_fields_decoded(*old(self), msg@.data),
    {
        if msg.data.len() >= 8 {
            self.traj_accel_limit_bits = u32_from_le(msg.data[0], msg.data[1], msg.data[2], msg.data[3]);
            self.traj_decel_limit_bits = u32_from_le(msg.data[4], msg.data[5], msg.data[6], msg.data[7]);
        }
    }

    fn message_filter() -> (f: MessageFilter) {
        MessageFilter::OdriveCmd(0x12)
    }
}


// ---------------------------------------------------------------------------
// Set trajectory inertia (command 0x13)
// ---------------------------------------------------------------------------

/// Command carrying the trajectory inertia as an IEEE-754 bit pattern.
#[derive(Debug, Clone)]
pub struct SetTrajInertiaMessage {
    pub base: OdriveCanMessage,
    pub traj_inertia_bits: u32,
}

impl SetTrajInertiaMessage {
    pub open spec fn wf(self) -> bool {
        self.base.wf() && self.base.arbitration_id.cmd_id == 0x13
    }

    /// The payload bytes this message encodes to.
    pub open spec fn spec_payload(self) -> Seq<u8> {
        seq![le32_byte(self.traj_inertia_bits, 0), le32_byte(self.traj_inertia_bits, 1), le32_byte(self.traj_inertia_bits, 2), le32_byte(self.traj_inertia_bits, 3)]
    }

    /// The payload fields as decoded from `d`.
    pub open spec fn spec_fields_decoded(self, pre: Self, d: Seq<u8>) -> bool {
        if d.len() >= 4 {
            self.traj_inertia_bits == u32_of_le(d[0], d[1], d[2], d[3])
        } else {
            self.traj_inertia_bits == pre.traj_inertia_bits
        }
    }

    pub open spec fn spec_new(node_id: u32, traj_inertia_bits: u32) -> Self {
        SetTrajInertiaMessage {
            base: OdriveCanMessage::spec_new(node_id, 0x13),
            traj_inertia_bits,
        }
    }

    pub fn new(node_id: u32, traj_inertia_bits: u32) -> (r: Self)
        ensures
            r == Self::spec_new(node_id, traj_inertia_bits),
    {
        Self {
            base: OdriveCanMessage::new(node_id, 0x13),
            traj_inertia_bits,
        }
    }
}

impl CanMessageTrait for SetTrajInertiaMessage {
    open spec fn spec_matches(m: FrameModel) -> bool {
        spec_odrive_cmd_matches(0x13, m)
    }

    open spec fn spec_frame(&self) -> FrameModel {
        FrameModel {
            arbitration_id: self.base.arbitration_id.spec_value(),
            data: self.spec_payload(),
            is_extended_id: false,
        }
    }

    open spec fn spec_decoded(&self, m: FrameModel) -> bool {
        self.base.spec_base_decoded(m, 0x13) && self.spec_fields_decoded(
            SetTrajInertiaMessage::spec_new(self.base.node_id, 0),
            m.data,
        )
    }

    fn cmd_id() -> (r: u32)
        ensures
            r == 0x13,
    {
        0x13
    }

    fn node_id(&self) -> (r: u32)
        ensures
            r == self.base.node_id,
    {
        self.base.node_id
    }

    fn matches(msg: &RawCanMessage) -> (r: bool) {
        MessageFilter::OdriveCmd(0x13).accepts(msg)
    }

    fn from_can_message(msg: RawCanMessage) -> (r: Self) {
        let arb = OdriveArbitrationId::from_can_message(&msg);
        let mut s = Self::new(arb.node_id, 0);
        s.parse_can_msg_data(&msg);
        s
    }

    fn as_can_message(&self) -> (r: RawCanMessage) {
        let r = RawCanMessage {
            arbitration_id: self.base.arbitration_id.value(),
            data: self.gen_can_msg_data(),
            is_extended_id: false,
        };
        proof {
            assert(r@ =~= self.spec_frame());
        }
        r
    }

    open spec fn spec_arbitration(&self) -> ArbitrationId {
        ArbitrationId::Odrive(self.base.arbitration_id)
    }

    fn gen_arbitration_id(&self) -> (r: ArbitrationId)
        ensures
            r == ArbitrationId::Odrive(self.base.arbitration_id),
    {
        ArbitrationId::Odrive(self.base.arbitration_id)
    }

    fn gen_can_msg_data(&self) -> (r: Vec<u8>) {
        let mut d: Vec<u8> = Vec::new();
        d.push(u32_le_part(self.traj_inertia_bits, 0));
        d.push(u32_le_part(self.traj_inertia_bits, 1));
        d.push(u32_le_part(self.traj_inertia_bits, 2));
        d.push(u32_le_part(self.traj_inertia_bits, 3));
        proof {
            assert(d@ =~= self.spec_payload());
        }
        d
    }

    fn parse_can_msg_data(&mut self, msg: &RawCanMessage)
        ensures
            final(self).base == old(self).base,
            final(self).spec_fields_decoded(*old(self), msg@.data),
    {
        if msg.data.len() >= 4 {
            self.traj_inertia_bits = u32_from_le(msg.data[0], msg.data[1], msg.data[2], msg.data[3]);
        }
    }

    fn message_filter() -> (f: MessageFilter) {
        MessageFilter::OdriveCmd(0x13)
    }
}


// ---------------------------------------------------------------------------
// Set absolute position (command 0x19)
// ---------------------------------------------------------------------------

/// Command carrying the absolute position as an IEEE-754 bit pattern.
#[derive(Debug, Clone)]
pub struct SetAbsolutePositionMessage {
    pub base: OdriveCanMessage,
    pub position_bits: u32,
}

impl SetAbsolutePositionMessage {
    pub open spec fn wf(self) -> bool {
        self.base.wf() && self.base.arbitration_id.cmd_id == 0x19
    }

    /// The payload bytes this message encodes to.
    pub open spec fn spec_payload(self) -> Seq<u8> {
        seq![le32_byte(self.position_bits, 0), le32_byte(self.position_bits, 1), le32_byte(self.position_bits, 2), le32_byte(self.position_bits, 3)]
    }

    /// The payload fields as decoded from `d`.
    pub open spec fn spec_fields_decoded(self, pre: Self, d: Seq<u8>) -> bool {
        if d.len() >= 4 {
            self.position_bits == u32_of_le(d[0], d[1], d[2], d[3])
        } else {
            self.position_bits == pre.position_bits
        }
    }

    pub open spec fn spec_new(node_id: u32, position_bits: u32) -> Self {
        SetAbsolutePositionMessage {
            base: OdriveCanMessage::spec_new(node_id, 0x19),
            position_bits,
        }
    }

    pub fn new(node_id: u32, position_bits: u32) -> (r: Self)
        ensures
            r == Self::spec_new(node_id, position_bits),
    {
        Self {
            base: OdriveCanMessage::new(node_id, 0x19),
            position_bits,
        }
    }
}

impl CanMessageTrait for SetAbsolutePositionMessage {
    open spec fn spec_matches(m: FrameModel) -> bool {
        spec_odrive_cmd_matches(0x19, m)
    }

    open spec fn spec_frame(&self) -> FrameModel {
        FrameModel {
            arbitration_id: self.base.arbitration_id.spec_value(),
            data: self.spec_payload(),
            is_extended_id: false,
        }
    }

    open spec fn spec_decoded(&self, m: FrameModel) -> bool {
        self.base.spec_base_decoded(m, 0x19) && self.spec_fields_decoded(
            SetAbsolutePositionMessage::spec_new(self.base.node_id, 0),
            m.data,
        )
    }

    fn cmd_id() -> (r: u32)
        ensures
            r == 0x19,
    {
        0x19
    }

    fn node_id(&self) -> (r: u32)
        ensures
            r == self.base.node_id,
    {
        self.base.node_id
    }

    fn matches(msg: &RawCanMessage) -> (r: bool) {
        MessageFilter::OdriveCmd(0x19).accepts(msg)
    }

    fn from_can_message(msg: RawCanMessage) -> (r: Self) {
        let arb = OdriveArbitrationId::from_can_message(&msg);
        let mut s = Self::new(arb.node_id, 0);
        s.parse_can_msg_data(&msg);
        s
    }

    fn as_can_message(&self) -> (r: RawCanMessage) {
        let r = RawCanMessage {
            arbitration_id: self.base.arbitration_id.value(),
            data: self.gen_can_msg_data(),
            is_extended_id: false,
        };
        proof {
            assert(r@ =~= self.spec_frame());
        }
        r
    }

    open spec fn spec_arbitration(&self) -> ArbitrationId {
        ArbitrationId::Odrive(self.base.arbitration_id)
    }

    fn gen_arbitration_id(&self) -> (r: ArbitrationId)
        ensures
            r == ArbitrationId::Odrive(self.base.arbitration_id),
    {
        ArbitrationId::Odrive(self.base.arbitration_id)
    }

    fn gen_can_msg_data(&self) -> (r: Vec<u8>) {
        let mut d: Vec<u8> = Vec::new();
        d.push(u32_le_part(self.position_bits, 0));
        d.push(u32_le_part(self.position_bits, 1));
        d.push(u32_le_part(self.position_bits, 2));
        d.push(u32_le_part(self.position_bits, 3));
        proof {
            assert(d@ =~= self.spec_payload());
        }
        d
    }

    fn parse_can_msg_data(&mut self, msg: &RawCanMessage)
        ensures
            final(self).base == old(self).base,
            final(self).spec_fields_decoded(*old(self), msg@.data),
    {
        if msg.data.len() >= 4 {
            self.position_bits = u32_from_le(msg.data[0], msg.data[1], msg.data[2], msg.data[3]);
        }
    }

    fn message_filter() -> (f: MessageFilter) {
        MessageFilter::OdriveCmd(0x19)
    }
}


// ---------------------------------------------------------------------------
// Set position gain (command 0x1A)
// ---------------------------------------------------------------------------

/// Command carrying the position gain as an IEEE-754 bit pattern.
#[derive(Debug, Clone)]
pub struct SetPosGainMessage {
    pub base: OdriveCanMessage,
    pub pos_gain_bits: u32,
}

impl SetPosGainMessage {
    pub open spec fn wf(self) -> bool {
        self.base.wf() && self.base.arbitration_id.cmd_id == 0x1A
    }

    /// The payload bytes this message encodes to.
    pub open spec fn spec_payload(self) -> Seq<u8> {
        seq![le32_byte(self.pos_gain_bits, 0), le32_byte(self.pos_gain_bits, 1), le32_byte(self.pos_gain_bits, 2), le32_byte(self.pos_gain_bits, 3)]
    }

    /// The payload fields as decoded from `d`.
    pub open spec fn spec_fields_decoded(self, pre: Self, d: Seq<u8>) -> bool {
        if d.len() >= 4 {
            self.pos_gain_bits == u32_of_le(d[0], d[1], d[2], d[3])
        } else {
            self.pos_gain_bits == pre.pos_gain_bits
        }
    }

    pub open spec fn spec_new(node_id: u32, pos_gain_bits: u32) -> Self {
        SetPosGainMessage {
            base: OdriveCanMessage::spec_new(node_id, 0x1A),
            pos_gain_bits,
        }
    }

    pub fn new(node_id: u32, pos_gain_bits: u32) -> (r: Self)
        ensures
            r == Self::spec_new(node_id, pos_gain_bits),
    {
        Self {
            base: OdriveCanMessage::new(node_id, 0x1A),
            pos_gain_bits,
        }
    }
}

impl CanMessageTrait for SetPosGainMessage {
    open spec fn spec_matches(m: FrameModel) -> bool {
        spec_odrive_cmd_matches(0x1A, m)
    }

    open spec fn spec_frame(&self) -> FrameModel {
        FrameModel {
            arbitration_id: self.base.arbitration_id.spec_value(),
            data: self.spec_payload(),
            is_extended_id: false,
        }
    }

    open spec fn spec_decoded(&self, m: FrameModel) -> bool {
        self.base.spec_base_decoded(m, 0x1A) && self.spec_fields_decoded(
            SetPosGainMessage::spec_new(self.base.node_id, 0),
            m.data,
        )
    }

    fn cmd_id() -> (r: u32)
        ensures
            r == 0x1A,
    {
        0x1A
    }

    fn node_id(&self) -> (r: u32)
        ensures
            r == self.base.node_id,
    {
        self.base.node_id
    }

    fn matches(msg: &RawCanMessage) -> (r: bool) {
        MessageFilter::OdriveCmd(0x1A).accepts(msg)
    }

    fn from_can_message(msg: RawCanMessage) -> (r: Self) {
        let arb = OdriveArbitrationId::from_can_message(&msg);
        let mut s = Self::new(arb.node_id, 0);
        s.parse_can_msg_data(&msg);
        s
    }

    fn as_can_message(&self) -> (r: RawCanMessage) {
        let r = RawCanMessage {
            arbitration_id: self.base.arbitration_id.value(),
            data: self.gen_can_msg_data(),
            is_extended_id: false,
        };
        proof {
            assert(r@ =~= self.spec_frame());
        }
        r
    }

    open spec fn spec_arbitration(&self) -> ArbitrationId {
        ArbitrationId::Odrive(self.base.arbitration_id)
    }

    fn gen_arbitration_id(&self) -> (r: ArbitrationId)
        ensures
            r == ArbitrationId::Odrive(self.base.arbitration_id),
    {
        ArbitrationId::Odrive(self.base.arbitration_id)
    }

    fn gen_can_msg_data(&self) -> (r: Vec<u8>) {
        let mut d: Vec<u8> = Vec::new();
        d.push(u32_le_part(self.pos_gain_bits, 0));
        d.push(u32_le_part(self.pos_gain_bits, 1));
        d.push(u32_le_part(self.pos_gain_bits, 2));
        d.push(u32_le_part(self.pos_gain_bits, 3));
        proof {
            assert(d@ =~= self.spec_payload());
        }
        d
    }

    fn parse_can_msg_data(&mut self, msg: &RawCanMessage)
        ensures
            final(self).base == old(self).base,
            final(self).spec_fields_decoded(*old(self), msg@.data),
    {
        if msg.data.len() >= 4 {
            self.pos_gain_bits = u32_from_le(msg.data[0], msg.data[1], msg.data[2], msg.data[3]);
        }
    }

    fn message_filter() -> (f: MessageFilter) {
        MessageFilter::OdriveCmd(0x1A)
    }
}


// ---------------------------------------------------------------------------
// Set velocity gains (command 0x1B)
// ---------------------------------------------------------------------------

/// Command carrying the velocity gain and integrator gain, each an IEEE-754 bit pattern.
#[derive(Debug, Clone)]
pub struct SetVelGainsMessage {
    pub base: OdriveCanMessage,
    pub vel_gain_bits: u32,
    pub vel_integrator_gain_bits: u32,
}

impl SetVelGainsMessage {
    pub open spec fn wf(self) -> bool {
        self.base.wf() && self.base.arbitration_id.cmd_id == 0x1B
    }

    /// The payload bytes this message encodes to.
    pub open spec fn spec_payload(self) -> Seq<u8> {
        seq![le32_byte(self.vel_gain_bits, 0), le32_byte(self.vel_gain_bits, 1), le32_byte(self.vel_gain_bits, 2), le32_byte(self.vel_gain_bits, 3),
            le32_byte(self.vel_integrator_gain_bits, 0), le32_byte(self.vel_integrator_gain_bits, 1), le32_byte(self.vel_integrator_gain_bits, 2), le32_byte(self.vel_integrator_gain_bits, 3)]
    }

    /// The payload fields as decoded from `d`.
    pub open spec fn spec_fields_decoded(self, pre: Self, d: Seq<u8>) -> bool {
        if d.len() >= 8 {
            self.vel_gain_bits == u32_of_le(d[0], d[1], d[2], d[3]) && self.vel_integrator_gain_bits == u32_of_le(d[4], d[5], d[6], d[7])
        } else {
            self.vel_gain_bits == pre.vel_gain_bits && self.vel_integrator_gain_bits == pre.vel_integrator_gain_bits
        }
    }

    pub open spec fn spec_new(node_id: u32, vel_gain_bits: u32, vel_integrator_gain_bits: u32) -> Self {
        SetVelGainsMessage {
            base: OdriveCanMessage::spec_new(node_id, 0x1B),
            vel_gain_bits,
            vel_integrator_gain_bits,
        }
    }

    pub fn new(node_id: u32, vel_gain_bits: u32, vel_integrator_gain_bits: u32) -> (r: Self)
        ensures
            r == Self::spec_new(node_id, vel_gain_bits, vel_integrator_gain_bits),
    {
        Self {
            base: OdriveCanMessage::new(node_id, 0x1B),
            vel_gain_bits,
            vel_integrator_gain_bits,
        }
    }
}

impl CanMessageTrait for SetVelGainsMessage {
    open spec fn spec_matches(m: FrameModel) -> bool {
        spec_odrive_cmd_matches(0x1B, m)
    }

    open spec fn spec_frame(&self) -> FrameModel {
        FrameModel {
            arbitration_id: self.base.arbitration_id.spec_value(),
            data: self.spec_payload(),
            is_extended_id: false,
        }
    }

    open spec fn spec_decoded(&self, m: FrameModel) -> bool {
        self.base.spec_base_decoded(m, 0x1B) && self.spec_fields_decoded(
            SetVelGainsMessage::spec_new(self.base.node_id, 0, 0),
            m.data,
        )
    }

    fn cmd_id() -> (r: u32)
        ensures
            r == 0x1B,
    {
        0x1B
    }

    fn node_id(&self) -> (r: u32)
        ensures
            r == self.base.node_id,
    {
        self.base.node_id
    }

    fn matches(msg: &RawCanMessage) -> (r: bool) {
        MessageFilter::OdriveCmd(0x1B).accepts(msg)
    }

    fn from_can_message(msg: RawCanMessage) -> (r: Self) {
        let arb = OdriveArbitrationId::from_can_message(&msg);
        let mut s = Self::new(arb.node_id, 0, 0);
        s.parse_can_msg_data(&msg);
        s
    }

    fn as_can_message(&self) -> (r: RawCanMessage) {
        let r = RawCanMessage {
            arbitration_id: self.base.arbitration_id.value(),
            data: self.gen_can_msg_data(),
            is_extended_id: false,
        };
        proof {
            assert(r@ =~= self.spec_frame());
        }
        r
    }

    open spec fn spec_arbitration(&self) -> ArbitrationId {
        ArbitrationId::Odrive(self.base.arbitration_id)
    }

    fn gen_arbitration_id(&self) -> (r: ArbitrationId)
        ensures
            r == ArbitrationId::Odrive(self.base.arbitration_id),
    {
        ArbitrationId::Odrive(self.base.arbitration_id)
    }

    fn gen_can_msg_data(&self) -> (r: Vec<u8>) {
        let mut d: Vec<u8> = Vec::new();
        d.push(u32_le_part(self.vel_gain_bits, 0));
        d.push(u32_le_part(self.vel_gain_bits, 1));
        d.push(u32_le_part(self.vel_gain_bits, 2));
        d.push(u32_le_part(self.vel_gain_bits, 3));
        d.push(u32_le_part(self.vel_integrator_gain_bits, 0));
        d.push(u32_le_part(self.vel_integrator_gain_bits, 1));
        d.push(u32_le_part(self.vel_integrator_gain_bits, 2));
        d.push(u32_le_part(self.vel_integrator_gain_bits, 3));
        proof {
            assert(d@ =~= self.spec_payload());
        }
        d
    }

    fn parse_can_msg_data(&mut self, msg: &RawCanMessage)
        ensures
            final(self).base == old(self).base,
            final(self).spec_fields_decoded(*old(self), msg@.data),
    {
        if msg.data.len() >= 8 {
            self.vel_gain_bits = u32_from_le(msg.data[0], msg.data[1], msg.data[2], msg.data[3]);
            self.vel_integrator_gain_bits = u32_from_le(msg.data[4], msg.data[5], msg.data[6], msg.data[7]);
        }
    }

    fn message_filter() -> (f: MessageFilter) {
        MessageFilter::OdriveCmd(0x1B)
    }
}


// ---------------------------------------------------------------------------
// Enter DFU mode (command 0x1F)
// ---------------------------------------------------------------------------

/// Command asking the device to enter firmware-update mode.
#[derive(Debug, Clone)]
pub struct EnterDfuModeCommand {
    pub base: OdriveCanMessage,
}

impl EnterDfuModeCommand {
    pub open spec fn wf(self) -> bool {
        self.base.wf() && self.base.arbitration_id.cmd_id == 0x1F
    }

    /// The payload bytes this message encodes to.
    pub open spec fn spec_payload(self) -> Seq<u8> {
        Seq::empty()
    }

    /// The payload fields as decoded from `d`.
    pub open spec fn spec_fields_decoded(self, pre: Self, d: Seq<u8>) -> bool {
        true
    }

    pub open spec fn spec_new(node_id: u32) -> Self {
        EnterDfuModeCommand {
            base: OdriveCanMessage::spec_new(node_id, 0x1F),
        }
    }

    pub fn new(node_id: u32) -> (r: Self)
        ensures
            r == Self::spec_new(node_id),
    {
        Self {
            base: OdriveCanMessage::new(node_id, 0x1F),
        }
    }
}

impl CanMessageTrait for EnterDfuModeCommand {
    open spec fn spec_matches(m: FrameModel) -> bool {
        spec_odrive_cmd_matches(0x1F, m)
    }

    open spec fn spec_frame(&self) -> FrameModel {
        FrameModel {
            arbitration_id: self.base.arbitration_id.spec_value(),
            data: self.spec_payload(),
            is_extended_id: false,
        }
    }

    open spec fn spec_decoded(&self, m: FrameModel) -> bool {
        self.base.spec_base_decoded(m, 0x1F) && self.spec_fields_decoded(
            EnterDfuModeCommand::spec_new(self.base.node_id),
            m.data,
        )
    }

    fn cmd_id() -> (r: u32)
        ensures
            r == 0x1F,
    {
        0x1F
    }

    fn node_id(&self) -> (r: u32)
        ensures
            r == self.base.node_id,
    {
        self.base.node_id
    }

    fn matches(msg: &RawCanMessage) -> (r: bool) {
        MessageFilter::OdriveCmd(0x1F).accepts(msg)
    }

    fn from_can_message(msg: RawCanMessage) -> (r: Self) {
        let arb = OdriveArbitrationId::from_can_message(&msg);
        let mut s = Self::new(arb.node_id);
        s.parse_can_msg_data(&msg);
        s
    }

    fn as_can_message(&self) -> (r: RawCanMessage) {
        let r = RawCanMessage {
            arbitration_id: self.base.arbitration_id.value(),
            data: self.gen_can_msg_data(),
            is_extended_id: false,
        };
        proof {
            assert(r@ =~= self.spec_frame());
        }
        r
    }

    open spec fn spec_arbitration(&self) -> ArbitrationId {
        ArbitrationId::Odrive(self.base.arbitration_id)
    }

    fn gen_arbitration_id(&self) -> (r: ArbitrationId)
        ensures
            r == ArbitrationId::Odrive(self.base.arbitration_id),
    {
        ArbitrationId::Odrive(self.base.arbitration_id)
    }

    fn gen_can_msg_data(&self) -> (r: Vec<u8>) {
        let r: Vec<u8> = Vec::new();
        proof {
            assert(r@ =~= self.spec_payload());
        }
        r
    }

    fn parse_can_msg_data(&mut self, msg: &RawCanMessage)
        ensures
            final(self).base == old(self).base,
            final(self).spec_fields_decoded(*old(self), msg@.data),
    {
    }

    fn message_filter() -> (f: MessageFilter) {
        MessageFilter::OdriveCmd(0x1F)
    }
}

// ---------------------------------------------------------------------------
// Active errors and disarm reason (command 0x03)
// ---------------------------------------------------------------------------

/// Cyclic report of the active error flags and the disarm reason.
#[derive(Debug, Clone)]
pub struct ErrorMessage {
    pub base: OdriveCanMessage,
    pub active_errors: Vec<ODriveError>,
    pub disarm_reason: Vec<ODriveError>,
}

impl ErrorMessage {
    pub open spec fn wf(self) -> bool {
        self.base.wf() && self.base.arbitration_id.cmd_id == 0x03
    }

    /// Both error lists are still empty, as freshly constructed.
    pub open spec fn spec_fields_default(self) -> bool {
        self.active_errors@ == Seq::<ODriveError>::empty() && self.disarm_reason@ == Seq::<
            ODriveError,
        >::empty()
    }

    /// The payload fields as decoded from `d`.
    pub open spec fn spec_fields_decoded(self, pre: Self, d: Seq<u8>) -> bool {
        if d.len() >= 8 {
            self.active_errors@ == spec_odrive_errors_of_bits(u32_of_le(d[0], d[1], d[2], d[3]))
                && self.disarm_reason@ == spec_odrive_errors_of_bits(
                u32_of_le(d[4], d[5], d[6], d[7]),
            )
        } else {
            self.active_errors@ == pre.active_errors@ && self.disarm_reason@
                == pre.disarm_reason@
        }
    }

    pub fn new(node_id: u32) -> (r: Self)
        ensures
            r.base == OdriveCanMessage::spec_new(node_id, 0x03),
            r.spec_fields_default(),
    {
        Self {
            base: OdriveCanMessage::new(node_id, 0x03),
            active_errors: Vec::new(),
            disarm_reason: Vec::new(),
        }
    }
}

impl CanMessageTrait for ErrorMessage {
    open spec fn spec_matches(m: FrameModel) -> bool {
        spec_odrive_cmd_matches(0x03, m)
    }

    open spec fn spec_frame(&self) -> FrameModel {
        FrameModel {
            arbitration_id: self.base.arbitration_id.spec_value(),
            data: Seq::empty(),
            is_extended_id: false,
        }
    }

    open spec fn spec_decoded(&self, m: FrameModel) -> bool {
        self.base.spec_base_decoded(m, 0x03) && if m.data.len() >= 8 {
            self.active_errors@ == spec_odrive_errors_of_bits(
                u32_of_le(m.data[0], m.data[1], m.data[2], m.data[3]),
            ) && self.disarm_reason@ == spec_odrive_errors_of_bits(
                u32_of_le(m.data[4], m.data[5], m.data[6], m.data[7]),
            )
        } else {
            self.spec_fields_default()
        }
    }

    fn cmd_id() -> (r: u32)
        ensures
            r == 0x03,
    {
        0x03
    }

    fn node_id(&self) -> (r: u32)
        ensures
            r == self.base.node_id,
    {
        self.base.node_id
    }

    fn matches(msg: &RawCanMessage) -> (r: bool) {
        MessageFilter::OdriveCmd(0x03).accepts(msg)
    }

    fn from_can_message(msg: RawCanMessage) -> (r: Self) {
        let arb = OdriveArbitrationId::from_can_message(&msg);
        let mut s = Self::new(arb.node_id);
        s.parse_can_msg_data(&msg);
        s
    }

    fn as_can_message(&self) -> (r: RawCanMessage) {
        let r = RawCanMessage {
            arbitration_id: self.base.arbitration_id.value(),
            data: self.gen_can_msg_data(),
            is_extended_id: false,
        };
        proof {
            assert(r@ =~= self.spec_frame());
        }
        r
    }

    open spec fn spec_arbitration(&self) -> ArbitrationId {
        ArbitrationId::Odrive(self.base.arbitration_id)
    }

    fn gen_arbitration_id(&self) -> (r: ArbitrationId)
        ensures
            r == ArbitrationId::Odrive(self.base.arbitration_id),
    {
        ArbitrationId::Odrive(self.base.arbitration_id)
    }

    fn gen_can_msg_data(&self) -> (r: Vec<u8>) {
        let r: Vec<u8> = Vec::new();
        proof {
            assert(r@ =~= self.spec_frame().data);
        }
        r
    }

    fn parse_can_msg_data(&mut self, msg: &RawCanMessage)
        ensures
            final(self).base == old(self).base,
            final(self).spec_fields_decoded(*old(self), msg@.data),
    {
        if msg.data.len() >= 8 {
            let active_errors_int = u32_from_le(msg.data[0], msg.data[1], msg.data[2], msg.data[3]);
            self.active_errors = ODriveError::from_bits(active_errors_int);
            let disarm_reason_int = u32_from_le(msg.data[4], msg.data[5], msg.data[6], msg.data[7]);
            self.disarm_reason = ODriveError::from_bits(disarm_reason_int);
        }
    }

    fn message_filter() -> (f: MessageFilter) {
        MessageFilter::OdriveCmd(0x03)
    }
}

// ---------------------------------------------------------------------------
// Parameter values on the wire
// ---------------------------------------------------------------------------

/// The little-endian bytes a parameter value occupies on the wire.
pub open spec fn spec_packed_value(v: Value) -> Seq<u8> {
    match v {
        Value::Bool(b) => seq![if b { 1u8 } else { 0u8 }],
        Value::Uint8(x) => seq![x],
        Value::Int8(x) => seq![bits_of_i8(x)],
        Value::Uint16(x) => seq![lo16(x), hi16(x)],
        Value::Int16(x) => seq![lo16(bits_of_i16(x)), hi16(bits_of_i16(x))],
        Value::Uint32(x) => seq![
            le32_byte(x, 0),
            le32_byte(x, 1),
            le32_byte(x, 2),
            le32_byte(x, 3),
        ],
        Value::Int32(x) => seq![
            le32_byte(bits_of_i32(x), 0),
            le32_byte(bits_of_i32(x), 1),
            le32_byte(bits_of_i32(x), 2),
            le32_byte(bits_of_i32(x), 3),
        ],
        Value::Float(x) => seq![
            le32_byte(x, 0),
            le32_byte(x, 1),
            le32_byte(x, 2),
            le32_byte(x, 3),
        ],
        Value::Uint64(x) => seq![
            le64_byte(x, 0),
            le64_byte(x, 1),
            le64_byte(x, 2),
            le64_byte(x, 3),
            le64_byte(x, 4),
            le64_byte(x, 5),
            le64_byte(x, 6),
            le64_byte(x, 7),
        ],
        Value::Int64(x) => seq![
            le64_byte(bits_of_i64(x), 0),
            le64_byte(bits_of_i64(x), 1),
            le64_byte(bits_of_i64(x), 2),
            le64_byte(bits_of_i64(x), 3),
            le64_byte(bits_of_i64(x), 4),
            le64_byte(bits_of_i64(x), 5),
            le64_byte(bits_of_i64(x), 6),
            le64_byte(bits_of_i64(x), 7),
        ],
    }
}

/// The value read back from little-endian payload bytes for a given wire
/// type.
pub open spec fn spec_parsed_value(d: Seq<u8>, t: ValueTypes) -> Value {
    match t {
        ValueTypes::Bool => Value::Bool(d[0] != 0),
        ValueTypes::Uint8 => Value::Uint8(d[0]),
        ValueTypes::Int8 => Value::Int8(i8_of_bits(d[0])),
        ValueTypes::Uint16 => Value::Uint16(u16_of_le(d[0], d[1])),
        ValueTypes::Int16 => Value::Int16(i16_of_bits(u16_of_le(d[0], d[1]))),
        ValueTypes::Uint32 => Value::Uint32(u32_of_le(d[0], d[1], d[2], d[3])),
        ValueTypes::Int32 => Value::Int32(i32_of_bits(u32_of_le(d[0], d[1], d[2], d[3]))),
        ValueTypes::Float => Value::Float(u32_of_le(d[0], d[1], d[2], d[3])),
        ValueTypes::Uint64 => Value::Uint64(u64_of_le(d.subrange(0, 8))),
        ValueTypes::Int64 => Value::Int64(i64_of_bits(u64_of_le(d.subrange(0, 8)))),
    }
}

/// Whether a value's variant is the one its wire type tag names. A `Bool`
/// round-trips exactly only when true: a false value and a zero byte are
/// the same on the wire.
pub open spec fn spec_value_has_type(v: Value, t: ValueTypes) -> bool {
    match (v, t) {
        (Value::Bool(b), ValueTypes::Bool) => b,
        (Value::Uint8(_), ValueTypes::Uint8) => true,
        (Value::Int8(_), ValueTypes::Int8) => true,
        (Value::Uint16(_), ValueTypes::Uint16) => true,
        (Value::Int16(_), ValueTypes::Int16) => true,
        (Value::Uint32(_), ValueTypes::Uint32) => true,
        (Value::Int32(_), ValueTypes::Int32) => true,
        (Value::Uint64(_), ValueTypes::Uint64) => true,
        (Value::Int64(_), ValueTypes::Int64) => true,
        (Value::Float(_), ValueTypes::Float) => true,
        _ => false,
    }
}

/// A value of its named wire type occupies exactly that type's byte count.
pub proof fn lemma_packed_value_size(v: Value, t: ValueTypes)
    requires
        spec_value_has_type(v, t),
    ensures
        spec_packed_value(v).len() == spec_value_type_size(t),
{
}

/// Packing a value and reading it back under its own wire type returns the
/// value unchanged.
pub proof fn lemma_value_pack_round_trip(v: Value, t: ValueTypes)
    requires
        spec_value_has_type(v, t),
    ensures
        spec_parsed_value(spec_packed_value(v), t) == v,
{
    match v {
        Value::Bool(b) => {
        },
        Value::Uint8(x) => {
        },
        Value::Int8(x) => {
            lemma_i8_bits_round_trip(x);
            assert(spec_packed_value(v)[0] == bits_of_i8(x));
        },
        Value::Uint16(x) => {
            lemma_u16_le_round_trip(x);
        },
        Value::Int16(x) => {
            lemma_u16_le_round_trip(bits_of_i16(x));
            lemma_i16_bits_round_trip(x);
        },
        Value::Uint32(x) => {
            lemma_u32_le_round_trip(x);
        },
        Value::Int32(x) => {
            lemma_u32_le_round_trip(bits_of_i32(x));
            lemma_i32_bits_round_trip(x);
        },
        Value::Float(x) => {
            lemma_u32_le_round_trip(x);
        },
        Value::Uint64(x) => {
            lemma_u64_le_round_trip(x);
            assert(spec_packed_value(v).subrange(0, 8) =~= seq![
                le64_byte(x, 0),
                le64_byte(x, 1),
                le64_byte(x, 2),
                le64_byte(x, 3),
                le64_byte(x, 4),
                le64_byte(x, 5),
                le64_byte(x, 6),
                le64_byte(x, 7),
            ]);
        },
        Value::Int64(x) => {
            lemma_u64_le_round_trip(bits_of_i64(x));
            lemma_i64_bits_round_trip(x);
            assert(spec_packed_value(v).subrange(0, 8) =~= seq![
                le64_byte(bits_of_i64(x), 0),
                le64_byte(bits_of_i64(x), 1),
                le64_byte(bits_of_i64(x), 2),
                le64_byte(bits_of_i64(x), 3),
                le64_byte(bits_of_i64(x), 4),
                le64_byte(bits_of_i64(x), 5),
                le64_byte(bits_of_i64(x), 6),
                le64_byte(bits_of_i64(x), 7),
            ]);
        },
    }
}

// ---------------------------------------------------------------------------
// Write a parameter (command 0x04, opcode 1)
// ---------------------------------------------------------------------------

/// Command writing one configuration endpoint; opcode byte 1 marks a write.
#[derive(Debug, Clone)]
pub struct WriteParameterCommand {
    pub base: OdriveCanMessage,
    pub endpoint_id: u16,
    pub value_type: ValueTypes,
    pub value: Value,
}

impl WriteParameterCommand {
    pub open spec fn wf(self) -> bool {
        self.base.wf() && self.base.arbitration_id.cmd_id == 0x04
    }

    /// The payload bytes this message encodes to.
    pub open spec fn spec_payload(self) -> Seq<u8> {
        seq![1u8, lo16(self.endpoint_id), hi16(self.endpoint_id), 0u8] + spec_packed_value(
            self.value,
        )
    }

    /// The payload fields as decoded from `d`, under the expected wire type
    /// held before parsing.
    pub open spec fn spec_fields_decoded(self, pre: Self, d: Seq<u8>) -> bool {
        self.value_type == pre.value_type && if d.len() >= 4 + spec_value_type_size(
            pre.value_type,
        ) {
            self.endpoint_id == u16_of_le(d[1], d[2]) && self.value == spec_parsed_value(
                d.subrange(4, 4 + spec_value_type_size(pre.value_type) as int),
                pre.value_type,
            )
        } else {
            self.endpoint_id == pre.endpoint_id && self.value == pre.value
        }
    }

    pub open spec fn spec_new(node_id: u32, endpoint_id: u16, value_type: ValueTypes, value: Value) -> Self {
        WriteParameterCommand {
            base: OdriveCanMessage::spec_new(node_id, 0x04),
            endpoint_id,
            value_type,
            value,
        }
    }

    pub fn new(node_id: u32, endpoint_id: u16, value_type: ValueTypes, value: Value) -> (r: Self)
        ensures
            r == Self::spec_new(node_id, endpoint_id, value_type, value),
    {
        Self {
            base: OdriveCanMessage::new(node_id, 0x04),
            endpoint_id,
            value_type,
            value,
        }
    }

    /// The wire bytes of the carried value alone.
    fn pack_value(&self) -> (r: Vec<u8>)
        ensures
            r@ == spec_packed_value(self.value),
    {
        let mut d: Vec<u8> = Vec::new();
        match &self.value {
            Value::Bool(v) => {
                d.push(if *v {
                    1
                } else {
                    0
                });
            },
            Value::Uint8(v) => {
                d.push(*v);
            },
            Value::Int8(v) => {
                d.push(i8_to_bits(*v));
            },
            Value::Uint16(v) => {
                d.push(u16_le_lo(*v));
                d.push(u16_le_hi(*v));
            },
            Value::Int16(v) => {
                let u = i16_to_bits(*v);
                d.push(u16_le_lo(u));
                d.push(u16_le_hi(u));
            },
            Value::Uint32(v) => {
                d.push(u32_le_part(*v, 0));
                d.push(u32_le_part(*v, 1));
                d.push(u32_le_part(*v, 2));
                d.push(u32_le_part(*v, 3));
            },
            Value::Int32(v) => {
                let u = i32_to_bits(*v);
                d.push(u32_le_part(u, 0));
                d.push(u32_le_part(u, 1));
                d.push(u32_le_part(u, 2));
                d.push(u32_le_part(u, 3));
            },
            Value::Float(v) => {
                d.push(u32_le_part(*v, 0));
                d.push(u32_le_part(*v, 1));
                d.push(u32_le_part(*v, 2));
                d.push(u32_le_part(*v, 3));
            },
            Value::Uint64(v) => {
                d.push(u64_le_part(*v, 0));
                d.push(u64_le_part(*v, 1));
                d.push(u64_le_part(*v, 2));
                d.push(u64_le_part(*v, 3));
                d.push(u64_le_part(*v, 4));
                d.push(u64_le_part(*v, 5));
                d.push(u64_le_part(*v, 6));
                d.push(u64_le_part(*v, 7));
            },
            Value::Int64(v) => {
                let u = i64_to_bits(*v);
                d.push(u64_le_part(u, 0));
                d.push(u64_le_part(u, 1));
                d.push(u64_le_part(u, 2));
                d.push(u64_le_part(u, 3));
                d.push(u64_le_part(u, 4));
                d.push(u64_le_part(u, 5));
                d.push(u64_le_part(u, 6));
                d.push(u64_le_part(u, 7));
            },
        }
        proof {
            assert(d@ =~= spec_packed_value(self.value));
        }
        d
    }
}

impl CanMessageTrait for WriteParameterCommand {
    open spec fn spec_matches(m: FrameModel) -> bool {
        spec_odrive_cmd_opcode_matches(0x04, 1, m)
    }

    open spec fn spec_frame(&self) -> FrameModel {
        FrameModel {
            arbitration_id: self.base.arbitration_id.spec_value(),
            data: self.spec_payload(),
            is_extended_id: false,
        }
    }

    open spec fn spec_decoded(&self, m: FrameModel) -> bool {
        self.base.spec_base_decoded(m, 0x04) && self.spec_fields_decoded(
            Self::spec_new(self.base.node_id, 0, ValueTypes::Uint32, Value::Uint32(0)),
            m.data,
        )
    }

    fn cmd_id() -> (r: u32)
        ensures
            r == 0x04,
    {
        0x04
    }

    fn node_id(&self) -> (r: u32)
        ensures
            r == self.base.node_id,
    {
        self.base.node_id
    }

    fn matches(msg: &RawCanMessage) -> (r: bool) {
        MessageFilter::OdriveCmdOpcode(0x04, 1).accepts(msg)
    }

    fn from_can_message(msg: RawCanMessage) -> (r: Self) {
        let arb = OdriveArbitrationId::from_can_message(&msg);
        let mut s = Self::new(arb.node_id, 0, ValueTypes::Uint32, Value::Uint32(0));
        s.parse_can_msg_data(&msg);
        s
    }

    fn as_can_message(&self) -> (r: RawCanMessage) {
        let r = RawCanMessage {
            arbitration_id: self.base.arbitration_id.value(),
            data: self.gen_can_msg_data(),
            is_extended_id: false,
        };
        proof {
            assert(r@ =~= self.spec_frame());
        }
        r
    }

    open spec fn spec_arbitration(&self) -> ArbitrationId {
        ArbitrationId::Odrive(self.base.arbitration_id)
    }

    fn gen_arbitration_id(&self) -> (r: ArbitrationId)
        ensures
            r == ArbitrationId::Odrive(self.base.arbitration_id),
    {
        ArbitrationId::Odrive(self.base.arbitration_id)
    }

    fn gen_can_msg_data(&self) -> (r: Vec<u8>) {
        let mut d: Vec<u8> = Vec::new();
        d.push(1);
        d.push(u16_le_lo(self.endpoint_id));
        d.push(u16_le_hi(self.endpoint_id));
        d.push(0);
        let mut packed = self.pack_value();
        d.append(&mut packed);
        proof {
            assert(d@ =~= self.spec_payload());
        }
        d
    }

    fn parse_can_msg_data(&mut self, msg: &RawCanMessage)
        ensures
            final(self).base == old(self).base,
            final(self).spec_fields_decoded(*old(self), msg@.data),
    {
        let size = self.value_type.byte_size();
        if msg.data.len() >= 4 + size {
            self.endpoint_id = u16_from_le(msg.data[1], msg.data[2]);
            let value_data = vstd::slice::slice_subrange(msg.data.as_slice(), 4, 4 + size);
            self.value = ParameterResponse::parse_value(value_data, self.value_type);
        }
    }

    fn message_filter() -> (f: MessageFilter) {
        MessageFilter::OdriveCmdOpcode(0x04, 1)
    }
}

// ---------------------------------------------------------------------------
// Parameter response (command 0x05)
// ---------------------------------------------------------------------------

/// Response carrying the value of one configuration endpoint. The caller
/// fixes the expected wire type before decoding.
#[derive(Debug, Clone)]
pub struct ParameterResponse {
    pub base: OdriveCanMessage,
    pub endpoint_id: u16,
    pub value_type: ValueTypes,
    pub value: Value,
}

impl ParameterResponse {
    pub open spec fn wf(self) -> bool {
        self.base.wf() && self.base.arbitration_id.cmd_id == 0x05
    }

    /// The payload fields as decoded from `d`, under the expected wire type
    /// held before parsing.
    pub open spec fn spec_fields_decoded(self, pre: Self, d: Seq<u8>) -> bool {
        self.value_type == pre.value_type && if d.len() >= 4 + spec_value_type_size(
            pre.value_type,
        ) {
            self.endpoint_id == u16_of_le(d[1], d[2]) && self.value == spec_parsed_value(
                d.subrange(4, 4 + spec_value_type_size(pre.value_type) as int),
                pre.value_type,
            )
        } else {
            self.endpoint_id == pre.endpoint_id && self.value == pre.value
        }
    }

    pub open spec fn spec_new(node_id: u32, endpoint_id: u16, value_type: ValueTypes, value: Value) -> Self {
        ParameterResponse {
            base: OdriveCanMessage::spec_new(node_id, 0x05),
            endpoint_id,
            value_type,
            value,
        }
    }

    pub fn new(node_id: u32, endpoint_id: u16, value_type: ValueTypes, value: Value) -> (r: Self)
        ensures
            r == Self::spec_new(node_id, endpoint_id, value_type, value),
    {
        Self {
            base: OdriveCanMessage::new(node_id, 0x05),
            endpoint_id,
            value_type,
            value,
        }
    }

    /// Reads one value of the given wire type from the start of `data`.
    pub fn parse_value(data: &[u8], value_type: ValueTypes) -> (r: Value)
        requires
            data@.len() >= spec_value_type_size(value_type),
        ensures
            r == spec_parsed_value(data@, value_type),
    {
        match value_type {
            ValueTypes::Bool => Value::Bool(data[0] != 0),
            ValueTypes::Uint8 => Value::Uint8(data[0]),
            ValueTypes::Int8 => Value::Int8(i8_from_bits(data[0])),
            ValueTypes::Uint16 => Value::Uint16(u16_from_le(data[0], data[1])),
            ValueTypes::Int16 => Value::Int16(i16_from_bits(u16_from_le(data[0], data[1]))),
            ValueTypes::Uint32 => Value::Uint32(u32_from_le(data[0], data[1], data[2], data[3])),
            ValueTypes::Int32 => Value::Int32(
                i32_from_bits(u32_from_le(data[0], data[1], data[2], data[3])),
            ),
            ValueTypes::Float => Value::Float(u32_from_le(data[0], data[1], data[2], data[3])),
            ValueTypes::Uint64 => Value::Uint64(
                u64_from_le_slice(vstd::slice::slice_subrange(data, 0, 8)),
            ),
            ValueTypes::Int64 => Value::Int64(
                i64_from_bits(u64_from_le_slice(vstd::slice::slice_subrange(data, 0, 8))),
            ),
        }
    }
}

impl CanMessageTrait for ParameterResponse {
    open spec fn spec_matches(m: FrameModel) -> bool {
        spec_odrive_cmd_matches(0x05, m)
    }

    open spec fn spec_frame(&self) -> FrameModel {
        FrameModel {
            arbitration_id: self.base.arbitration_id.spec_value(),
            data: Seq::empty(),
            is_extended_id: false,
        }
    }

    open spec fn spec_decoded(&self, m: FrameModel) -> bool {
        self.base.spec_base_decoded(m, 0x05) && self.spec_fields_decoded(
            Self::spec_new(self.base.node_id, 0, ValueTypes::Uint32, Value::Uint32(0)),
            m.data,
        )
    }

    fn cmd_id() -> (r: u32)
        ensures
            r == 0x05,
    {
        0x05
    }

    fn node_id(&self) -> (r: u32)
        ensures
            r == self.base.node_id,
    {
        self.base.node_id
    }

    fn matches(msg: &RawCanMessage) -> (r: bool) {
        MessageFilter::OdriveCmd(0x05).accepts(msg)
    }

    fn from_can_message(msg: RawCanMessage) -> (r: Self) {
        let arb = OdriveArbitrationId::from_can_message(&msg);
        let mut s = Self::new(arb.node_id, 0, ValueTypes::Uint32, Value::Uint32(0));
        s.parse_can_msg_data(&msg);
        s
    }

    fn as_can_message(&self) -> (r: RawCanMessage) {
        let r = RawCanMessage {
            arbitration_id: self.base.arbitration_id.value(),
            data: self.gen_can_msg_data(),
            is_extended_id: false,
        };
        proof {
            assert(r@ =~= self.spec_frame());
        }
        r
    }

    open spec fn spec_arbitration(&self) -> ArbitrationId {
        ArbitrationId::Odrive(self.base.arbitration_id)
    }

    fn gen_arbitration_id(&self) -> (r: ArbitrationId)
        ensures
            r == ArbitrationId::Odrive(self.base.arbitration_id),
    {
        ArbitrationId::Odrive(self.base.arbitration_id)
    }

    fn gen_can_msg_data(&self) -> (r: Vec<u8>) {
        let r: Vec<u8> = Vec::new();
        proof {
            assert(r@ =~= self.spec_frame().data);
        }
        r
    }

    fn parse_can_msg_data(&mut self, msg: &RawCanMessage)
        ensures
            final(self).base == old(self).base,
            final(self).spec_fields_decoded(*old(self), msg@.data),
    {
        let size = self.value_type.byte_size();
        if msg.data.len() >= 4 + size {
            self.endpoint_id = u16_from_le(msg.data[1], msg.data[2]);
            let value_data = vstd::slice::slice_subrange(msg.data.as_slice(), 4, 4 + size);
            self.value = Self::parse_value(value_data, self.value_type);
        }
    }

    fn message_filter() -> (f: MessageFilter) {
        MessageFilter::OdriveCmd(0x05)
    }
}

// ---------------------------------------------------------------------------
// Decimal rendering for version strings
// ---------------------------------------------------------------------------

/// The decimal digit character for one value below ten.
pub open spec fn spec_digit(d: u8) -> char {
    match d {
        0u8 => '0',
        1u8 => '1',
        2u8 => '2',
        3u8 => '3',
        4u8 => '4',
        5u8 => '5',
        6u8 => '6',
        7u8 => '7',
        8u8 => '8',
        _ => '9',
    }
}

/// The decimal rendering of a byte, without leading zeroes.
pub open spec fn spec_decimal_u8(v: u8) -> Seq<char> {
    if v < 10 {
        seq![spec_digit(v)]
    } else if v < 100 {
        seq![spec_digit(v / 10), spec_digit(v % 10)]
    } else {
        seq![spec_digit(v / 100), spec_digit((v / 10) % 10), spec_digit(v % 10)]
    }
}

/// A three-part version rendered as `major.minor.patch`.
pub open spec fn spec_version_chars(a: u8, b: u8, c: u8) -> Seq<char> {
    spec_decimal_u8(a) + seq!['.'] + spec_decimal_u8(b) + seq!['.'] + spec_decimal_u8(c)
}

fn digit_str(d: u8) -> (r: &'static str)
    requires
        d < 10,
    ensures
        r@ == seq![spec_digit(d)],
{
    proof {
        reveal_strlit("0");
        reveal_strlit("1");
        reveal_strlit("2");
        reveal_strlit("3");
        reveal_strlit("4");
        reveal_strlit("5");
        reveal_strlit("6");
        reveal_strlit("7");
        reveal_strlit("8");
        reveal_strlit("9");
    }
    match d {
        0 => "0",
        1 => "1",
        2 => "2",
        3 => "3",
        4 => "4",
        5 => "5",
        6 => "6",
        7 => "7",
        8 => "8",
        _ => "9",
    }
}

fn push_decimal_u8(s: &mut String, v: u8)
    ensures
        final(s)@ == old(s)@ + spec_decimal_u8(v),
{
    if v < 10 {
        s.append(digit_str(v));
    } else if v < 100 {
        s.append(digit_str(v / 10));
        s.append(digit_str(v % 10));
        proof {
            assert(final(s)@ =~= old(s)@ + spec_decimal_u8(v));
        }
    } else {
        s.append(digit_str(v / 100));
        s.append(digit_str((v / 10) % 10));
        s.append(digit_str(v % 10));
        proof {
            assert(final(s)@ =~= old(s)@ + spec_decimal_u8(v));
        }
    }
}

fn version_string(a: u8, b: u8, c: u8) -> (r: String)
    ensures
        r@ == spec_version_chars(a, b, c),
{
    proof {
        reveal_strlit(".");
    }
    let mut s = String::new();
    push_decimal_u8(&mut s, a);
    s.append(".");
    push_decimal_u8(&mut s, b);
    s.append(".");
    push_decimal_u8(&mut s, c);
    proof {
        assert(s@ =~= spec_version_chars(a, b, c));
    }
    s
}

impl VersionMessage {
    /// The hardware version as `major.minor.variant`.
    pub fn hw_version(&self) -> (r: String)
        ensures
            r@ == spec_version_chars(self.hw_major, self.hw_minor, self.hw_variant),
    {
        version_string(self.hw_major, self.hw_minor, self.hw_variant)
    }

    /// The firmware version as `major.minor.revision`.
    pub fn fw_version(&self) -> (r: String)
        ensures
            r@ == spec_version_chars(self.fw_major, self.fw_minor, self.fw_revision),
    {
        version_string(self.fw_major, self.fw_minor, self.fw_revision)
    }
}

// ---------------------------------------------------------------------------
// Round trips: decoding an encoded frame recovers the message
// ---------------------------------------------------------------------------

/// The family base: decoding the encoded frame recovers address and command.
pub proof fn lemma_odrive_message_round_trip(m: OdriveCanMessage, d: OdriveCanMessage)
    requires
        m.wf(),
        d.spec_decoded(m.spec_frame()),
    ensures
        d == m,
{
    lemma_odrive_arbitration_round_trip(m.arbitration_id);
}


/// Reading back an encoded parameter-read command recovers the endpoint.
pub proof fn lemma_read_parameter_round_trip(m: ReadParameterCommand, d: ReadParameterCommand)
    requires
        m.wf(),
        d.spec_decoded(m.spec_frame()),
    ensures
        d.base == m.base,
        d.endpoint_id == m.endpoint_id,
{
    lemma_odrive_arbitration_round_trip(m.base.arbitration_id);
    lemma_u16_le_round_trip(m.endpoint_id);
}


/// Reading back an encoded controller-mode command recovers both modes.
pub proof fn lemma_set_controller_mode_round_trip(m: SetControllerMode, d: SetControllerMode)
    requires
        m.wf(),
        d.spec_decoded(m.spec_frame()),
    ensures
        d.base == m.base,
        d.control_mode == m.control_mode,
        d.input_mode == m.input_mode,
{
    lemma_odrive_arbitration_round_trip(m.base.arbitration_id);
}


/// Reading back an encoded position command recovers all three fields.
pub proof fn lemma_set_position_round_trip(m: SetPositionMessage, d: SetPositionMessage)
    requires
        m.wf(),
        d.spec_decoded(m.spec_frame()),
    ensures
        d.base == m.base,
        d.input_position_bits == m.input_position_bits,
        d.velocity_ff == m.velocity_ff,
        d.torque_ff == m.torque_ff,
{
    lemma_odrive_arbitration_round_trip(m.base.arbitration_id);
    lemma_u32_le_round_trip(m.input_position_bits);
    lemma_u16_le_round_trip(bits_of_i16(m.velocity_ff));
    lemma_i16_bits_round_trip(m.velocity_ff);
    lemma_u16_le_round_trip(bits_of_i16(m.torque_ff));
    lemma_i16_bits_round_trip(m.torque_ff);
}


/// Reading back this encoded command recovers its field.
pub proof fn lemma_set_torque_round_trip(m: SetTorqueMessage, d: SetTorqueMessage)
    requires
        m.wf(),
        d.spec_decoded(m.spec_frame()),
    ensures
        d.base == m.base,
        d.input_torque_bits == m.input_torque_bits,
{
    lemma_odrive_arbitration_round_trip(m.base.arbitration_id);
    lemma_u32_le_round_trip(m.input_torque_bits);
}


/// Reading back this encoded command recovers its field.
pub proof fn lemma_reboot_round_trip(m: Reboot, d: Reboot)
    requires
        m.wf(),
        d.spec_decoded(m.spec_frame()),
    ensures
        d.base == m.base,
        d.action == m.action,
{
    lemma_odrive_arbitration_round_trip(m.base.arbitration_id);
    lemma_u32_le_round_trip(m.action);
}


/// Reading back this encoded command recovers its field.
pub proof fn lemma_set_traj_vel_limit_round_trip(m: SetTrajVelLimitMessage, d: SetTrajVelLimitMessage)
    requires
        m.wf(),
        d.spec_decoded(m.spec_frame()),
    ensures
        d.base == m.base,
        d.traj_vel_limit_bits == m.traj_vel_limit_bits,
{
    lemma_odrive_arbitration_round_trip(m.base.arbitration_id);
    lemma_u32_le_round_trip(m.traj_vel_limit_bits);
}


/// Reading back this encoded command recovers its field.
pub proof fn lemma_set_traj_inertia_round_trip(m: SetTrajInertiaMessage, d: SetTrajInertiaMessage)
    requires
        m.wf(),
        d.spec_decoded(m.spec_frame()),
    ensures
        d.base == m.base,
        d.traj_inertia_bits == m.traj_inertia_bits,
{
    lemma_odrive_arbitration_round_trip(m.base.arbitration_id);
    lemma_u32_le_round_trip(m.traj_inertia_bits);
}


/// Reading back this encoded command recovers its field.
pub proof fn lemma_set_absolute_position_round_trip(m: SetAbsolutePositionMessage, d: SetAbsolutePositionMessage)
    requires
        m.wf(),
        d.spec_decoded(m.spec_frame()),
    ensures
        d.base == m.base,
        d.position_bits == m.position_bits,
{
    lemma_odrive_arbitration_round_trip(m.base.arbitration_id);
    lemma_u32_le_round_trip(m.position_bits);
}


/// Reading back this encoded command recovers its field.
pub proof fn lemma_set_pos_gain_round_trip(m: SetPosGainMessage, d: SetPosGainMessage)
    requires
        m.wf(),
        d.spec_decoded(m.spec_frame()),
    ensures
        d.base == m.base,
        d.pos_gain_bits == m.pos_gain_bits,
{
    lemma_odrive_arbitration_round_trip(m.base.arbitration_id);
    lemma_u32_le_round_trip(m.pos_gain_bits);
}


/// Reading back this encoded command recovers both fields.
pub proof fn lemma_set_velocity_round_trip(m: SetVelocityMessage, d: SetVelocityMessage)
    requires
        m.wf(),
        d.spec_decoded(m.spec_frame()),
    ensures
        d.base == m.base,
        d.velocity_bits == m.velocity_bits,
        d.torque_bits == m.torque_bits,
{
    lemma_odrive_arbitration_round_trip(m.base.arbitration_id);
    lemma_u32_le_round_trip(m.velocity_bits);
    lemma_u32_le_round_trip(m.torque_bits);
}


/// Reading back this encoded command recovers both fields.
pub proof fn lemma_set_limits_round_trip(m: SetLimitsCommand, d: SetLimitsCommand)
    requires
        m.wf(),
        d.spec_decoded(m.spec_frame()),
    ensures
        d.base == m.base,
        d.velocity_limit_bits == m.velocity_limit_bits,
        d.current_limit_bits == m.current_limit_bits,
{
    lemma_odrive_arbitration_round_trip(m.base.arbitration_id);
    lemma_u32_le_round_trip(m.velocity_limit_bits);
    lemma_u32_le_round_trip(m.current_limit_bits);
}


/// Reading back this encoded command recovers both fields.
pub proof fn lemma_set_traj_accel_limits_round_trip(m: SetTrajAccelLimitsMessage, d: SetTrajAccelLimitsMessage)
    requires
        m.wf(),
        d.spec_decoded(m.spec_frame()),
    ensures
        d.base == m.base,
        d.traj_accel_limit_bits == m.traj_accel_limit_bits,
        d.traj_decel_limit_bits == m.traj_decel_limit_bits,
{
    lemma_odrive_arbitration_round_trip(m.base.arbitration_id);
    lemma_u32_le_round_trip(m.traj_accel_limit_bits);
    lemma_u32_le_round_trip(m.traj_decel_limit_bits);
}


/// Reading back this encoded command recovers both fields.
pub proof fn lemma_set_vel_gains_round_trip(m: SetVelGainsMessage, d: SetVelGainsMessage)
    requires
        m.wf(),
        d.spec_decoded(m.spec_frame()),
    ensures
        d.base == m.base,
        d.vel_gain_bits == m.vel_gain_bits,
        d.vel_integrator_gain_bits == m.vel_integrator_gain_bits,
{
    lemma_odrive_arbitration_round_trip(m.base.arbitration_id);
    lemma_u32_le_round_trip(m.vel_gain_bits);
    lemma_u32_le_round_trip(m.vel_integrator_gain_bits);
}

/// Reading back an encoded clear-errors command recovers the identify
/// byte.
pub proof fn lemma_clear_errors_round_trip(m: ClearErrorsCommand, d: ClearErrorsCommand)
    requires
        m.wf(),
        d.spec_decoded(m.spec_frame()),
    ensures
        d.base == m.base,
        d.identify == m.identify,
{
    lemma_odrive_arbitration_round_trip(m.base.arbitration_id);
}

/// Reading back an encoded axis-state command recovers the state.
pub proof fn lemma_set_axis_state_round_trip(m: SetAxisStateMessage, d: SetAxisStateMessage)
    requires
        m.wf(),
        d.spec_decoded(m.spec_frame()),
    ensures
        d.base == m.base,
        d.axis_state == m.axis_state,
{
    lemma_odrive_arbitration_round_trip(m.base.arbitration_id);
    crate::enums::lemma_axis_state_round_trip(m.axis_state);
}

/// Reading back an encoded parameter-write command under the matching
/// expected wire type recovers the endpoint and the value.
pub proof fn lemma_write_parameter_round_trip(
    m: WriteParameterCommand,
    d: WriteParameterCommand,
    pre: WriteParameterCommand,
)
    requires
        m.wf(),
        spec_value_has_type(m.value, m.value_type),
        pre.value_type == m.value_type,
        d.spec_fields_decoded(pre, m.spec_frame().data),
    ensures
        d.endpoint_id == m.endpoint_id,
        d.value == m.value,
        d.value_type == m.value_type,
{
    lemma_packed_value_size(m.value, m.value_type);
    lemma_u16_le_round_trip(m.endpoint_id);
    assert(m.spec_frame().data.subrange(
        4,
        4 + spec_value_type_size(m.value_type) as int,
    ) =~= spec_packed_value(m.value));
    lemma_value_pack_round_trip(m.value, m.value_type);
}

} // verus!

//! Family-B message catalog: the node address is an offset from a fixed
//! base arbitration value (0x140 for commands, 0x240 for replies), and the
//! command identifier travels as the first payload byte.
//!
//! Wire fields that the device scales to physical units (0.1 V, 0.01 A,
//! 0.01 degree) are held as the scaled integers themselves (`*_raw`);
//! interpreting them as physical quantities is the caller's concern.

use vstd::prelude::*;

use crate::bytes::{
    bits_of_i16, bits_of_i32, hi16, i16_from_bits, i16_of_bits, i16_to_bits, i32_from_bits,
    i32_of_bits, i32_to_bits, i8_from_bits, i8_of_bits, le32_byte, lemma_i16_bits_round_trip,
    lemma_i32_bits_round_trip, lemma_u16_le_round_trip, lemma_u32_le_round_trip, lo16, u16_from_le,
    u16_le_hi, u16_le_lo, u16_of_le, u32_from_le, u32_le_part, u32_of_le,
};
use crate::enums::{
    lemma_function_index_round_trip, spec_function_index_of_value, spec_function_index_value,
    spec_v3_mode_of_value, MyActuatorFunctionControlIndex, MyActuatorV3OperatingMode,
};
use crate::messages::{
    lemma_myactuator_arbitration_round_trip, spec_myactuator_cmd_matches,
    spec_myactuator_family_matches, ArbitrationId, CanMessageTrait, FrameModel, MessageFilter,
    MyActuatorArbitrationId, RawCanMessage,
};

verus! {

/// Clamps a value into the inclusive range `min_val..=max_val`.
pub fn clip(val: i32, min_val: i32, max_val: i32) -> (r: i32)
    ensures
        r == spec_clip(val, min_val, max_val),
{
    let lower = if val > min_val {
        val
    } else {
        min_val
    };
    if lower < max_val {
        lower
    } else {
        max_val
    }
}

/// `min(max(val, min_val), max_val)`.
pub open spec fn spec_clip(val: i32, min_val: i32, max_val: i32) -> i32 {
    let lower = if val > min_val {
        val
    } else {
        min_val
    };
    if lower < max_val {
        lower
    } else {
        max_val
    }
}

// ---------------------------------------------------------------------------
// Family base message
// ---------------------------------------------------------------------------

/// The family-B base message: address only, no semantic payload. As a
/// classifier it is the generic family matcher; command-specific types
/// refine it.
#[derive(Debug, Clone)]
pub struct MyActuatorCanMessage {
    pub node_id: u32,
    pub arbitration_id: MyActuatorArbitrationId,
}

impl MyActuatorCanMessage {
    /// Address and arbitration fields agree and fit the family window.
    pub open spec fn wf(self) -> bool {
        self.node_id == self.arbitration_id.node_id && self.arbitration_id.wf()
            && self.arbitration_id.custom_value is None
    }

    pub open spec fn spec_new(node_id: u32, cmd_id: u32) -> Self {
        MyActuatorCanMessage {
            node_id,
            arbitration_id: MyActuatorArbitrationId { node_id, cmd_id, custom_value: None },
        }
    }

    /// The node a received family frame addresses, recovered from the
    /// arbitration id alone; frames outside the family decode to node 0.
    pub open spec fn spec_decoded_node(m: FrameModel) -> u32 {
        if MyActuatorArbitrationId::spec_in_family(m.arbitration_id) {
            if m.arbitration_id < 0x160 {
                (m.arbitration_id - 0x140) as u32
            } else {
                (m.arbitration_id - 0x240) as u32
            }
        } else {
            0
        }
    }

    /// Recovers the addressed node from a received frame's arbitration id.
    pub fn decoded_node(msg: &RawCanMessage) -> (n: u32)
        ensures
            n == Self::spec_decoded_node(msg@),
    {
        let id = msg.arbitration_id;
        if 0x140 <= id && id < 0x160 {
            id - 0x140
        } else if 0x240 <= id && id < 0x260 {
            id - 0x240
        } else {
            0
        }
    }

    /// The base of a message decoded from `m`, carrying this command id.
    pub open spec fn spec_base_decoded(self, m: FrameModel, cmd: u32) -> bool {
        self.node_id == Self::spec_decoded_node(m) && self.arbitration_id
            == (MyActuatorArbitrationId {
            node_id: Self::spec_decoded_node(m),
            cmd_id: cmd,
            custom_value: None,
        })
    }

    pub fn new(node_id: u32, cmd_id: u32) -> (r: Self)
        ensures
            r == Self::spec_new(node_id, cmd_id),
    {
        let arbitration_id = MyActuatorArbitrationId { node_id, cmd_id, custom_value: None };
        Self { node_id, arbitration_id }
    }
}

impl CanMessageTrait for MyActuatorCanMessage {
    open spec fn spec_matches(m: FrameModel) -> bool {
        spec_myactuator_family_matches(m)
    }

    open spec fn spec_frame(&self) -> FrameModel {
        FrameModel {
            arbitration_id: self.arbitration_id.spec_value(),
            data: seq![0u8, 0u8, 0u8, 0u8, 0u8, 0u8, 0u8, 0u8],
            is_extended_id: false,
        }
    }

    open spec fn spec_decoded(&self, m: FrameModel) -> bool {
        self.spec_base_decoded(
            m,
            if MyActuatorArbitrationId::spec_in_family(m.arbitration_id) && m.data.len() > 0 {
                m.data[0] as u32
            } else {
                0
            },
        )
    }

    fn cmd_id() -> (r: u32)
        ensures
            r == 0,
    {
        0
    }

    fn node_id(&self) -> (r: u32)
        ensures
            r == self.node_id,
    {
        self.node_id
    }

    fn matches(msg: &RawCanMessage) -> (r: bool) {
        MessageFilter::MyActuatorFamily.accepts(msg)
    }

    fn from_can_message(msg: RawCanMessage) -> (r: Self) {
        let node = Self::decoded_node(&msg);
        let cmd: u32 = match MyActuatorArbitrationId::from_can_message(&msg) {
            Ok(arb) => arb.cmd_id,
            Err(_) => 0,
        };
        Self::new(node, cmd)
    }

    fn as_can_message(&self) -> (r: RawCanMessage) {
        let r = RawCanMessage {
            arbitration_id: self.arbitration_id.value(),
            data: self.gen_can_msg_data(),
            is_extended_id: false,
        };
        proof {
            assert(r@ =~= self.spec_frame());
        }
        r
    }

    open spec fn spec_arbitration(&self) -> ArbitrationId {
        ArbitrationId::MyActuator(self.arbitration_id)
    }

    fn gen_arbitration_id(&self) -> (r: ArbitrationId)
        ensures
            r == ArbitrationId::MyActuator(self.arbitration_id),
    {
        ArbitrationId::MyActuator(self.arbitration_id)
    }

    fn gen_can_msg_data(&self) -> (r: Vec<u8>) {
        let mut d: Vec<u8> = Vec::new();
        let mut k: usize = 0;
        while k < 8
            invariant
                k <= 8,
                d@ =~= Seq::new(k as nat, |i: int| 0u8),
            decreases 8 - k,
        {
            d.push(0);
            k = k + 1;
        }
        proof {
            assert(d@ =~= self.spec_frame().data);
        }
        d
    }

    fn parse_can_msg_data(&mut self, msg: &RawCanMessage)
        ensures
            *final(self) == *old(self),
    {
    }

    fn message_filter() -> (f: MessageFilter) {
        MessageFilter::MyActuatorFamily
    }
}

// ---------------------------------------------------------------------------
// Motor status 1 (command 0x9A)
// ---------------------------------------------------------------------------

/// Query for, and reply carrying, temperature, brake state, supply voltage (0.1 V units) and the error word.
#[derive(Debug, Clone)]
pub struct MyactuatorReadMotorStatus1Message {
    pub base: MyActuatorCanMessage,
    pub temperature: i8,
    pub brake_released: bool,
    pub voltage_raw: u16,
    pub error_state: u16,
}

impl MyactuatorReadMotorStatus1Message {
    pub open spec fn wf(self) -> bool {
        self.base.wf() && self.base.arbitration_id.cmd_id == 0x9A
    }

    /// The payload bytes this message encodes to.
    pub open spec fn spec_payload(self) -> Seq<u8> {
        seq![0x9Au8, 0u8, 0u8, 0u8, 0u8, 0u8, 0u8, 0u8]
    }

    /// The payload fields as decoded from `d`.
    pub open spec fn spec_fields_decoded(self, pre: Self, d: Seq<u8>) -> bool {
        if d.len() >= 8 {
            self.temperature == i8_of_bits(d[1]) && self.brake_released == (d[3] != 0)
                && self.voltage_raw == u16_of_le(d[4], d[5]) && self.error_state == u16_of_le(
                d[6],
                d[7],
            )
        } else {
            self.temperature == pre.temperature && self.brake_released == pre.brake_released
                && self.voltage_raw == pre.voltage_raw && self.error_state == pre.error_state
        }
    }

    pub open spec fn spec_new(node_id: u32) -> Self {
        MyactuatorReadMotorStatus1Message {
            base: MyActuatorCanMessage::spec_new(node_id, 0x9A),
            temperature: 0,
            brake_released: false,
            voltage_raw: 0,
            error_state: 0,
        }
    }

    pub fn new(node_id: u32) -> (r: Self)
        ensures
            r == Self::spec_new(node_id),
    {
        Self {
            base: MyActuatorCanMessage::new(node_id, 0x9A),
            temperature: 0,
            brake_released: false,
            voltage_raw: 0,
            error_state: 0,
        }
    }
}

impl CanMessageTrait for MyactuatorReadMotorStatus1Message {
    open spec fn spec_matches(m: FrameModel) -> bool {
        spec_myactuator_cmd_matches(0x9Au8, m)
    }

    open spec fn spec_frame(&self) -> FrameModel {
        FrameModel {
            arbitration_id: self.base.arbitration_id.spec_value(),
            data: self.spec_payload(),
            is_extended_id: false,
        }
    }

    open spec fn spec_decoded(&self, m: FrameModel) -> bool {
        self.base.spec_base_decoded(m, 0x9A) && self.spec_fields_decoded(
            MyactuatorReadMotorStatus1Message::spec_new(self.base.node_id),
            m.data,
        )
    }

    fn cmd_id() -> (r: u32)
        ensures
            r == 0x9A,
    {
        0x9A
    }

    fn node_id(&self) -> (r: u32)
        ensures
            r == self.base.node_id,
    {
        self.base.node_id
    }

    fn matches(msg: &RawCanMessage) -> (r: bool) {
        MessageFilter::MyActuatorCmd(0x9Au8).accepts(msg)
    }

    fn from_can_message(msg: RawCanMessage) -> (r: Self) {
        let node = MyActuatorCanMessage::decoded_node(&msg);
        let mut s = Self::new(node);
        s.parse_can_msg_data(&msg);
        s
    }

    fn as_can_message(&self) -> (r: RawCanMessage) {
        let r = RawCanMessage {
            arbitration_id: self.base.arbitration_id.value(),
            data: self.gen_can_msg_data(),
            is_extended_id: false,
        };
        proof {
            assert(r@ =~= self.spec_frame());
        }
        r
    }

    open spec fn spec_arbitration(&self) -> ArbitrationId {
        ArbitrationId::MyActuator(self.base.arbitration_id)
    }

    fn gen_arbitration_id(&self) -> (r: ArbitrationId)
        ensures
            r == ArbitrationId::MyActuator(self.base.arbitration_id),
    {
        ArbitrationId::MyActuator(self.base.arbitration_id)
    }

    fn gen_can_msg_data(&self) -> (r: Vec<u8>) {
        let mut d: Vec<u8> = Vec::new();
        d.push(0x9A);
        d.push(0);
        d.push(0);
        d.push(0);
        d.push(0);
        d.push(0);
        d.push(0);
        d.push(0);
        proof {
            assert(d@ =~= self.spec_payload());
        }
        d
    }

    fn parse_can_msg_data(&mut self, msg: &RawCanMessage)
        ensures
            final(self).base == old(self).base,
            final(self).spec_fields_decoded(*old(self), msg@.data),
    {
        if msg.data.len() >= 8 {
            self.temperature = i8_from_bits(msg.data[1]);
            self.brake_released = msg.data[3] != 0;
            self.voltage_raw = u16_from_le(msg.data[4], msg.data[5]);
            self.error_state = u16_from_le(msg.data[6], msg.data[7]);
        }
    }

    fn message_filter() -> (f: MessageFilter) {
        MessageFilter::MyActuatorCmd(0x9Au8)
    }
}


// ---------------------------------------------------------------------------
// Motor status 2 (command 0x9C)
// ---------------------------------------------------------------------------

/// Query for, and reply carrying, temperature, torque current (0.01 A units), speed and encoder angle.
#[derive(Debug, Clone)]
pub struct ReadMotorStatus2Message {
    pub base: MyActuatorCanMessage,
    pub temperature: i8,
    pub torque_current_raw: i16,
    pub speed: i16,
    pub angle: i16,
}

impl ReadMotorStatus2Message {
    pub open spec fn wf(self) -> bool {
        self.base.wf() && self.base.arbitration_id.cmd_id == 0x9C
    }

    /// The payload bytes this message encodes to.
    pub open spec fn spec_payload(self) -> Seq<u8> {
        seq![0x9Cu8, 0u8, 0u8, 0u8, 0u8, 0u8, 0u8, 0u8]
    }

    /// The payload fields as decoded from `d`.
    pub open spec fn spec_fields_decoded(self, pre: Self, d: Seq<u8>) -> bool {
        if d.len() >= 8 {
            self.temperature == i8_of_bits(d[1])
                && self.torque_current_raw == i16_of_bits(u16_of_le(d[2], d[3]))
                && self.speed == i16_of_bits(u16_of_le(d[4], d[5]))
                && self.angle == i16_of_bits(u16_of_le(d[6], d[7]))
        } else {
            self.temperature == pre.temperature
                && self.torque_current_raw == pre.torque_current_raw
                && self.speed == pre.speed && self.angle == pre.angle
        }
    }

    pub open spec fn spec_new(node_id: u32) -> Self {
        ReadMotorStatus2Message {
            base: MyActuatorCanMessage::spec_new(node_id, 0x9C),
            temperature: 0,
            torque_current_raw: 0,
            speed: 0,
            angle: 0,
        }
    }

    pub fn new(node_id: u32) -> (r: Self)
        ensures
            r == Self::spec_new(node_id),
    {
        Self {
            base: MyActuatorCanMessage::new(node_id, 0x9C),
            temperature: 0,
            torque_current_raw: 0,
            speed: 0,
            angle: 0,
        }
    }
}

impl CanMessageTrait for ReadMotorStatus2Message {
    open spec fn spec_matches(m: FrameModel) -> bool {
        spec_myactuator_cmd_matches(0x9Cu8, m)
    }

    open spec fn spec_frame(&self) -> FrameModel {
        FrameModel {
            arbitration_id: self.base.arbitration_id.spec_value(),
            data: self.spec_payload(),
            is_extended_id: false,
        }
    }

    open spec fn spec_decoded(&self, m: FrameModel) -> bool {
        self.base.spec_base_decoded(m, 0x9C) && self.spec_fields_decoded(
            ReadMotorStatus2Message::spec_new(self.base.node_id),
            m.data,
        )
    }

    fn cmd_id() -> (r: u32)
        ensures
            r == 0x9C,
    {
        0x9C
    }

    fn node_id(&self) -> (r: u32)
        ensures
            r == self.base.node_id,
    {
        self.base.node_id
    }

    fn matches(msg: &RawCanMessage) -> (r: bool) {
        MessageFilter::MyActuatorCmd(0x9Cu8).accepts(msg)
    }

    fn from_can_message(msg: RawCanMessage) -> (r: Self) {
        let node = MyActuatorCanMessage::decoded_node(&msg);
        let mut s = Self::new(node);
        s.parse_can_msg_data(&msg);
        s
    }

    fn as_can_message(&self) -> (r: RawCanMessage) {
        let r = RawCanMessage {
            arbitration_id: self.base.arbitration_id.value(),
            data: self.gen_can_msg_data(),
            is_extended_id: false,
        };
        proof {
            assert(r@ =~= self.spec_frame());
        }
        r
    }

    open spec fn spec_arbitration(&self) -> ArbitrationId {
        ArbitrationId::MyActuator(self.base.arbitration_id)
    }

    fn gen_arbitration_id(&self) -> (r: ArbitrationId)
        ensures
            r == ArbitrationId::MyActuator(self.base.arbitration_id),
    {
        ArbitrationId::MyActuator(self.base.arbitration_id)
    }

    fn gen_can_msg_data(&self) -> (r: Vec<u8>) {
        let mut d: Vec<u8> = Vec::new();
        d.push(0x9C);
        d.push(0);
        d.push(0);
        d.push(0);
        d.push(0);
        d.push(0);
        d.push(0);
        d.push(0);
        proof {
            assert(d@ =~= self.spec_payload());
        }
        d
    }

    fn parse_can_msg_data(&mut self, msg: &RawCanMessage)
        ensures
            final(self).base == old(self).base,
            final(self).spec_fields_decoded(*old(self), msg@.data),
    {
        if msg.data.len() >= 8 {
            self.temperature = i8_from_bits(msg.data[1]);
            self.torque_current_raw = i16_from_bits(u16_from_le(msg.data[2], msg.data[3]));
            self.speed = i16_from_bits(u16_from_le(msg.data[4], msg.data[5]));
            self.angle = i16_from_bits(u16_from_le(msg.data[6], msg.data[7]));
        }
    }

    fn message_filter() -> (f: MessageFilter) {
        MessageFilter::MyActuatorCmd(0x9Cu8)
    }
}


// ---------------------------------------------------------------------------
// Write motor zero position (command 0x64)
// ---------------------------------------------------------------------------

/// Command storing the current position as the zero point.
#[derive(Debug, Clone)]
pub struct WriteMotorZeroPositionMessage {
    pub base: MyActuatorCanMessage,
}

impl WriteMotorZeroPositionMessage {
    pub open spec fn wf(self) -> bool {
        self.base.wf() && self.base.arbitration_id.cmd_id == 0x64
    }

    /// The payload bytes this message encodes to.
    pub open spec fn spec_payload(self) -> Seq<u8> {
        seq![0x64u8, 0u8, 0u8, 0u8, 0u8, 0u8, 0u8, 0u8]
    }

    /// The payload fields as decoded from `d`.
    pub open spec fn spec_fields_decoded(self, pre: Self, d: Seq<u8>) -> bool {
        true
    }

    pub open spec fn spec_new(node_id: u32) -> Self {
        WriteMotorZeroPositionMessage {
            base: MyActuatorCanMessage::spec_new(node_id, 0x64),
        }
    }

    pub fn new(node_id: u32) -> (r: Self)
        ensures
            r == Self::spec_new(node_id),
    {
        Self {
            base: MyActuatorCanMessage::new(node_id, 0x64),
        }
    }
}

impl CanMessageTrait for WriteMotorZeroPositionMessage {
    open spec fn spec_matches(m: FrameModel) -> bool {
        spec_myactuator_cmd_matches(0x64u8, m)
    }

    open spec fn spec_frame(&self) -> FrameModel {
        FrameModel {
            arbitration_id: self.base.arbitration_id.spec_value(),
            data: self.spec_payload(),
            is_extended_id: false,
        }
    }

    open spec fn spec_decoded(&self, m: FrameModel) -> bool {
        self.base.spec_base_decoded(m, 0x64) && self.spec_fields_decoded(
            WriteMotorZeroPositionMessage::spec_new(self.base.node_id),
            m.data,
        )
    }

    fn cmd_id() -> (r: u32)
        ensures
            r == 0x64,
    {
        0x64
    }

    fn node_id(&self) -> (r: u32)
        ensures
            r == self.base.node_id,
    {
        self.base.node_id
    }

    fn matches(msg: &RawCanMessage) -> (r: bool) {
        MessageFilter::MyActuatorCmd(0x64u8).accepts(msg)
    }

    fn from_can_message(msg: RawCanMessage) -> (r: Self) {
        let node = MyActuatorCanMessage::decoded_node(&msg);
        let mut s = Self::new(node);
        s.parse_can_msg_data(&msg);
        s
    }

    fn as_can_message(&self) -> (r: RawCanMessage) {
        let r = RawCanMessage {
            arbitration_id: self.base.arbitration_id.value(),
            data: self.gen_can_msg_data(),
            is_extended_id: false,
        };
        proof {
            assert(r@ =~= self.spec_frame());
        }
        r
    }

    open spec fn spec_arbitration(&self) -> ArbitrationId {
        ArbitrationId::MyActuator(self.base.arbitration_id)
    }

    fn gen_arbitration_id(&self) -> (r: ArbitrationId)
        ensures
            r == ArbitrationId::MyActuator(self.base.arbitration_id),
    {
        ArbitrationId::MyActuator(self.base.arbitration_id)
    }

    fn gen_can_msg_data(&self) -> (r: Vec<u8>) {
        let mut d: Vec<u8> = Vec::new();
        d.push(0x64);
        d.push(0);
        d.push(0);
        d.push(0);
        d.push(0);
        d.push(0);
        d.push(0);
        d.push(0);
        proof {
            assert(d@ =~= self.spec_payload());
        }
        d
    }

    fn parse_can_msg_data(&mut self, msg: &RawCanMessage)
        ensures
            final(self).base == old(self).base,
            final(self).spec_fields_decoded(*old(self), msg@.data),
    {
    }

    fn message_filter() -> (f: MessageFilter) {
        MessageFilter::MyActuatorCmd(0x64u8)
    }
}


// ---------------------------------------------------------------------------
// Torque control (command 0xA1)
// ---------------------------------------------------------------------------

/// Command setting the torque current, in 0.01 A units.
#[derive(Debug, Clone)]
pub struct TorqueControlCommand {
    pub base: MyActuatorCanMessage,
    pub torque_current_raw: i16,
}

impl TorqueControlCommand {
    pub open spec fn wf(self) -> bool {
        self.base.wf() && self.base.arbitration_id.cmd_id == 0xA1
    }

    /// The payload bytes this message encodes to.
    pub open spec fn spec_payload(self) -> Seq<u8> {
        seq![0xA1u8, 0u8, 0u8, 0u8, lo16(bits_of_i16(self.torque_current_raw)),
            hi16(bits_of_i16(self.torque_current_raw)), 0u8, 0u8]
    }

    /// The payload fields as decoded from `d`.
    pub open spec fn spec_fields_decoded(self, pre: Self, d: Seq<u8>) -> bool {
        if d.len() >= 6 {
            self.torque_current_raw == i16_of_bits(u16_of_le(d[4], d[5]))
        } else {
            self.torque_current_raw == pre.torque_current_raw
        }
    }

    pub open spec fn spec_new(node_id: u32, torque_current_raw: i16) -> Self {
        TorqueControlCommand {
            base: MyActuatorCanMessage::spec_new(node_id, 0xA1),
            torque_current_raw,
        }
    }

    pub fn new(node_id: u32, torque_current_raw: i16) -> (r: Self)
        ensures
            r == Self::spec_new(node_id, torque_current_raw),
    {
        Self {
            base: MyActuatorCanMessage::new(node_id, 0xA1),
            torque_current_raw,
        }
    }
}

impl CanMessageTrait for TorqueControlCommand {
    open spec fn spec_matches(m: FrameModel) -> bool {
        spec_myactuator_cmd_matches(0xA1u8, m)
    }

    open spec fn spec_frame(&self) -> FrameModel {
        FrameModel {
            arbitration_id: self.base.arbitration_id.spec_value(),
            data: self.spec_payload(),
            is_extended_id: false,
        }
    }

    open spec fn spec_decoded(&self, m: FrameModel) -> bool {
        self.base.spec_base_decoded(m, 0xA1) && self.spec_fields_decoded(
            TorqueControlCommand::spec_new(self.base.node_id, 0),
            m.data,
        )
    }

    fn cmd_id() -> (r: u32)
        ensures
            r == 0xA1,
    {
        0xA1
    }

    fn node_id(&self) -> (r: u32)
        ensures
            r == self.base.node_id,
    {
        self.base.node_id
    }

    fn matches(msg: &RawCanMessage) -> (r: bool) {
        MessageFilter::MyActuatorCmd(0xA1u8).accepts(msg)
    }

    fn from_can_message(msg: RawCanMessage) -> (r: Self) {
        let node = MyActuatorCanMessage::decoded_node(&msg);
        let mut s = Self::new(node, 0);
        s.parse_can_msg_data(&msg);
        s
    }

    fn as_can_message(&self) -> (r: RawCanMessage) {
        let r = RawCanMessage {
            arbitration_id: self.base.arbitration_id.value(),
            data: self.gen_can_msg_data(),
            is_extended_id: false,
        };
        proof {
            assert(r@ =~= self.spec_frame());
        }
        r
    }

    open spec fn spec_arbitration(&self) -> ArbitrationId {
        ArbitrationId::MyActuator(self.base.arbitration_id)
    }

    fn gen_arbitration_id(&self) -> (r: ArbitrationId)
        ensures
            r == ArbitrationId::MyActuator(self.base.arbitration_id),
    {
        ArbitrationId::MyActuator(self.base.arbitration_id)
    }

    fn gen_can_msg_data(&self) -> (r: Vec<u8>) {
        let mut d: Vec<u8> = Vec::new();
        d.push(0xA1);
        d.push(0);
        d.push(0);
        d.push(0);
        d.push(u16_le_lo(i16_to_bits(self.torque_current_raw)));
        d.push(u16_le_hi(i16_to_bits(self.torque_current_raw)));
        d.push(0);
        d.push(0);
        proof {
            assert(d@ =~= self.spec_payload());
        }
        d
    }

    fn parse_can_msg_data(&mut self, msg: &RawCanMessage)
        ensures
            final(self).base == old(self).base,
            final(self).spec_fields_decoded(*old(self), msg@.data),
    {
        if msg.data.len() >= 6 {
            self.torque_current_raw = i16_from_bits(u16_from_le(msg.data[4], msg.data[5]));
        }
    }

    fn message_filter() -> (f: MessageFilter) {
        MessageFilter::MyActuatorCmd(0xA1u8)
    }
}


// ---------------------------------------------------------------------------
// Function control (command 0x20)
// ---------------------------------------------------------------------------

/// Command driving one auxiliary controller function with a 32-bit argument.
#[derive(Debug, Clone)]
pub struct FunctionControlCommand {
    pub base: MyActuatorCanMessage,
    pub function: MyActuatorFunctionControlIndex,
    pub function_value: i32,
}

impl FunctionControlCommand {
    pub open spec fn wf(self) -> bool {
        self.base.wf() && self.base.arbitration_id.cmd_id == 0x20
    }

    /// The payload bytes this message encodes to.
    pub open spec fn spec_payload(self) -> Seq<u8> {
        seq![0x20u8, spec_function_index_value(self.function), 0u8, 0u8,
            le32_byte(bits_of_i32(self.function_value), 0),
            le32_byte(bits_of_i32(self.function_value), 1),
            le32_byte(bits_of_i32(self.function_value), 2),
            le32_byte(bits_of_i32(self.function_value), 3)]
    }

    /// The payload fields as decoded from `d`.
    pub open spec fn spec_fields_decoded(self, pre: Self, d: Seq<u8>) -> bool {
        if d.len() >= 8 {
            self.function == (match spec_function_index_of_value(d[1]) {
                Some(f) => f,
                None => MyActuatorFunctionControlIndex::ClearMultiTurnValue,
            }) && self.function_value == i32_of_bits(u32_of_le(d[4], d[5], d[6], d[7]))
        } else {
            self.function == pre.function && self.function_value == pre.function_value
        }
    }

    pub open spec fn spec_new(node_id: u32, function: MyActuatorFunctionControlIndex, function_value: i32) -> Self {
        FunctionControlCommand {
            base: MyActuatorCanMessage::spec_new(node_id, 0x20),
            function,
            function_value,
        }
    }

    pub fn new(node_id: u32, function: MyActuatorFunctionControlIndex, function_value: i32) -> (r: Self)
        ensures
            r == Self::spec_new(node_id, function, function_value),
    {
        Self {
            base: MyActuatorCanMessage::new(node_id, 0x20),
            function,
            function_value,
        }
    }
}

impl CanMessageTrait for FunctionControlCommand {
    open spec fn spec_matches(m: FrameModel) -> bool {
        spec_myactuator_cmd_matches(0x20u8, m)
    }

    open spec fn spec_frame(&self) -> FrameModel {
        FrameModel {
            arbitration_id: self.base.arbitration_id.spec_value(),
            data: self.spec_payload(),
            is_extended_id: false,
        }
    }

    open spec fn spec_decoded(&self, m: FrameModel) -> bool {
        self.base.spec_base_decoded(m, 0x20) && self.spec_fields_decoded(
            FunctionControlCommand::spec_new(self.base.node_id, MyActuatorFunctionControlIndex::ClearMultiTurnValue, 0),
            m.data,
        )
    }

    fn cmd_id() -> (r: u32)
        ensures
            r == 0x20,
    {
        0x20
    }

    fn node_id(&self) -> (r: u32)
        ensures
            r == self.base.node_id,
    {
        self.base.node_id
    }

    fn matches(msg: &RawCanMessage) -> (r: bool) {
        MessageFilter::MyActuatorCmd(0x20u8).accepts(msg)
    }

    fn from_can_message(msg: RawCanMessage) -> (r: Self) {
        let node = MyActuatorCanMessage::decoded_node(&msg);
        let mut s = Self::new(node, MyActuatorFunctionControlIndex::ClearMultiTurnValue, 0);
        s.parse_can_msg_data(&msg);
        s
    }

    fn as_can_message(&self) -> (r: RawCanMessage) {
        let r = RawCanMessage {
            arbitration_id: self.base.arbitration_id.value(),
            data: self.gen_can_msg_data(),
            is_extended_id: false,
        };
        proof {
            assert(r@ =~= self.spec_frame());
        }
        r
    }

    open spec fn spec_arbitration(&self) -> ArbitrationId {
        ArbitrationId::MyActuator(self.base.arbitration_id)
    }

    fn gen_arbitration_id(&self) -> (r: ArbitrationId)
        ensures
            r == ArbitrationId::MyActuator(self.base.arbitration_id),
    {
        ArbitrationId::MyActuator(self.base.arbitration_id)
    }

    fn gen_can_msg_data(&self) -> (r: Vec<u8>) {
        let mut d: Vec<u8> = Vec::new();
        d.push(0x20);
        d.push(self.function.value());
        d.push(0);
        d.push(0);
        d.push(u32_le_part(i32_to_bits(self.function_value), 0));
        d.push(u32_le_part(i32_to_bits(self.function_value), 1));
        d.push(u32_le_part(i32_to_bits(self.function_value), 2));
        d.push(u32_le_part(i32_to_bits(self.function_value), 3));
        proof {
            assert(d@ =~= self.spec_payload());
        }
        d
    }

    fn parse_can_msg_data(&mut self, msg: &RawCanMessage)
        ensures
            final(self).base == old(self).base,
            final(self).spec_fields_decoded(*old(self), msg@.data),
    {
        if msg.data.len() >= 8 {
            self.function = match MyActuatorFunctionControlIndex::from_value(msg.data[1]) {
                Some(f) => f,
                None => MyActuatorFunctionControlIndex::ClearMultiTurnValue,
            };
            self.function_value = i32_from_bits(
                u32_from_le(msg.data[4], msg.data[5], msg.data[6], msg.data[7]),
            );
        }
    }

    fn message_filter() -> (f: MessageFilter) {
        MessageFilter::MyActuatorCmd(0x20u8)
    }
}


// ---------------------------------------------------------------------------
// Speed control (command 0xA2)
// ---------------------------------------------------------------------------

/// Command setting the target speed, in 0.01 degree-per-second units.
#[derive(Debug, Clone)]
pub struct SpeedControlCommand {
    pub base: MyActuatorCanMessage,
    pub speed_raw: i32,
}

impl SpeedControlCommand {
    pub open spec fn wf(self) -> bool {
        self.base.wf() && self.base.arbitration_id.cmd_id == 0xA2
    }

    /// The payload bytes this message encodes to.
    pub open spec fn spec_payload(self) -> Seq<u8> {
        seq![0xA2u8, 0u8, 0u8, 0u8, le32_byte(bits_of_i32(self.speed_raw), 0),
            le32_byte(bits_of_i32(self.speed_raw), 1), le32_byte(bits_of_i32(self.speed_raw), 2),
            le32_byte(bits_of_i32(self.speed_raw), 3)]
    }

    /// The payload fields as decoded from `d`.
    pub open spec fn spec_fields_decoded(self, pre: Self, d: Seq<u8>) -> bool {
        if d.len() >= 8 {
            self.speed_raw == i32_of_bits(u32_of_le(d[4], d[5], d[6], d[7]))
        } else {
            self.speed_raw == pre.speed_raw
        }
    }

    pub open spec fn spec_new(node_id: u32, speed_raw: i32) -> Self {
        SpeedControlCommand {
            base: MyActuatorCanMessage::spec_new(node_id, 0xA2),
            speed_raw,
        }
    }

    pub fn new(node_id: u32, speed_raw: i32) -> (r: Self)
        ensures
            r == Self::spec_new(node_id, speed_raw),
    {
        Self {
            base: MyActuatorCanMessage::new(node_id, 0xA2),
            speed_raw,
        }
    }
}

impl CanMessageTrait for SpeedControlCommand {
    open spec fn spec_matches(m: FrameModel) -> bool {
        spec_myactuator_cmd_matches(0xA2u8, m)
    }

    open spec fn spec_frame(&self) -> FrameModel {
        FrameModel {
            arbitration_id: self.base.arbitration_id.spec_value(),
            data: self.spec_payload(),
            is_extended_id: false,
        }
    }

    open spec fn spec_decoded(&self, m: FrameModel) -> bool {
        self.base.spec_base_decoded(m, 0xA2) && self.spec_fields_decoded(
            SpeedControlCommand::spec_new(self.base.node_id, 0),
            m.data,
        )
    }

    fn cmd_id() -> (r: u32)
        ensures
            r == 0xA2,
    {
        0xA2
    }

    fn node_id(&self) -> (r: u32)
        ensures
            r == self.base.node_id,
    {
        self.base.node_id
    }

    fn matches(msg: &RawCanMessage) -> (r: bool) {
        MessageFilter::MyActuatorCmd(0xA2u8).accepts(msg)
    }

    fn from_can_message(msg: RawCanMessage) -> (r: Self) {
        let node = MyActuatorCanMessage::decoded_node(&msg);
        let mut s = Self::new(node, 0);
        s.parse_can_msg_data(&msg);
        s
    }

    fn as_can_message(&self) -> (r: RawCanMessage) {
        let r = RawCanMessage {
            arbitration_id: self.base.arbitration_id.value(),
            data: self.gen_can_msg_data(),
            is_extended_id: false,
        };
        proof {
            assert(r@ =~= self.spec_frame());
        }
        r
    }

    open spec fn spec_arbitration(&self) -> ArbitrationId {
        ArbitrationId::MyActuator(self.base.arbitration_id)
    }

    fn gen_arbitration_id(&self) -> (r: ArbitrationId)
        ensures
            r == ArbitrationId::MyActuator(self.base.arbitration_id),
    {
        ArbitrationId::MyActuator(self.base.arbitration_id)
    }

    fn gen_can_msg_data(&self) -> (r: Vec<u8>) {
        let mut d: Vec<u8> = Vec::new();
        d.push(0xA2);
        d.push(0);
        d.push(0);
        d.push(0);
        d.push(u32_le_part(i32_to_bits(self.speed_raw), 0));
        d.push(u32_le_part(i32_to_bits(self.speed_raw), 1));
        d.push(u32_le_part(i32_to_bits(self.speed_raw), 2));
        d.push(u32_le_part(i32_to_bits(self.speed_raw), 3));
        proof {
            assert(d@ =~= self.spec_payload());
        }
        d
    }

    fn parse_can_msg_data(&mut self, msg: &RawCanMessage)
        ensures
            final(self).base == old(self).base,
            final(self).spec_fields_decoded(*old(self), msg@.data),
    {
        if msg.data.len() >= 8 {
            self.speed_raw = i32_from_bits(
                u32_from_le(msg.data[4], msg.data[5], msg.data[6], msg.data[7]),
            );
        }
    }

    fn message_filter() -> (f: MessageFilter) {
        MessageFilter::MyActuatorCmd(0xA2u8)
    }
}


// ---------------------------------------------------------------------------
// Position control (command 0xA4)
// ---------------------------------------------------------------------------

/// Command setting the absolute target position (0.01 degree units) under a speed limit.
#[derive(Debug, Clone)]
pub struct PositionControlCommand {
    pub base: MyActuatorCanMessage,
    pub position_raw: i32,
    pub max_speed: u16,
}

impl PositionControlCommand {
    pub open spec fn wf(self) -> bool {
        self.base.wf() && self.base.arbitration_id.cmd_id == 0xA4
    }

    /// The payload bytes this message encodes to.
    pub open spec fn spec_payload(self) -> Seq<u8> {
        seq![0xA4u8, 0u8, lo16(self.max_speed), hi16(self.max_speed),
            le32_byte(bits_of_i32(self.position_raw), 0), le32_byte(bits_of_i32(self.position_raw), 1),
            le32_byte(bits_of_i32(self.position_raw), 2), le32_byte(bits_of_i32(self.position_raw), 3)]
    }

    /// The payload fields as decoded from `d`.
    pub open spec fn spec_fields_decoded(self, pre: Self, d: Seq<u8>) -> bool {
        if d.len() >= 8 {
            self.max_speed == u16_of_le(d[2], d[3]) && self.position_raw == i32_of_bits(
                u32_of_le(d[4], d[5], d[6], d[7]),
            )
        } else {
            self.max_speed == pre.max_speed && self.position_raw == pre.position_raw
        }
    }

    pub open spec fn spec_new(node_id: u32, position_raw: i32, max_speed: u16) -> Self {
        PositionControlCommand {
            base: MyActuatorCanMessage::spec_new(node_id, 0xA4),
            position_raw,
            max_speed,
        }
    }

    pub fn new(node_id: u32, position_raw: i32, max_speed: u16) -> (r: Self)
        ensures
            r == Self::spec_new(node_id, position_raw, max_speed),
    {
        Self {
            base: MyActuatorCanMessage::new(node_id, 0xA4),
            position_raw,
            max_speed,
        }
    }
}

impl CanMessageTrait for PositionControlCommand {
    open spec fn spec_matches(m: FrameModel) -> bool {
        spec_myactuator_cmd_matches(0xA4u8, m)
    }

    open spec fn spec_frame(&self) -> FrameModel {
        FrameModel {
            arbitration_id: self.base.arbitration_id.spec_value(),
            data: self.spec_payload(),
            is_extended_id: false,
        }
    }

    open spec fn spec_decoded(&self, m: FrameModel) -> bool {
        self.base.spec_base_decoded(m, 0xA4) && self.spec_fields_decoded(
            PositionControlCommand::spec_new(self.base.node_id, 0, 0),
            m.data,
        )
    }

    fn cmd_id() -> (r: u32)
        ensures
            r == 0xA4,
    {
        0xA4
    }

    fn node_id(&self) -> (r: u32)
        ensures
            r == self.base.node_id,
    {
        self.base.node_id
    }

    fn matches(msg: &RawCanMessage) -> (r: bool) {
        MessageFilter::MyActuatorCmd(0xA4u8).accepts(msg)
    }

    fn from_can_message(msg: RawCanMessage) -> (r: Self) {
        let node = MyActuatorCanMessage::decoded_node(&msg);
        let mut s = Self::new(node, 0, 0);
        s.parse_can_msg_data(&msg);
        s
    }

    fn as_can_message(&self) -> (r: RawCanMessage) {
        let r = RawCanMessage {
            arbitration_id: self.base.arbitration_id.value(),
            data: self.gen_can_msg_data(),
            is_extended_id: false,
        };
        proof {
            assert(r@ =~= self.spec_frame());
        }
        r
    }

    open spec fn spec_arbitration(&self) -> ArbitrationId {
        ArbitrationId::MyActuator(self.base.arbitration_id)
    }

    fn gen_arbitration_id(&self) -> (r: ArbitrationId)
        ensures
            r == ArbitrationId::MyActuator(self.base.arbitration_id),
    {
        ArbitrationId::MyActuator(self.base.arbitration_id)
    }

    fn gen_can_msg_data(&self) -> (r: Vec<u8>) {
        let mut d: Vec<u8> = Vec::new();
        d.push(0xA4);
        d.push(0);
        d.push(u16_le_lo(self.max_speed));
        d.push(u16_le_hi(self.max_speed));
        d.push(u32_le_part(i32_to_bits(self.position_raw), 0));
        d.push(u32_le_part(i32_to_bits(self.position_raw), 1));
        d.push(u32_le_part(i32_to_bits(self.position_raw), 2));
        d.push(u32_le_part(i32_to_bits(self.position_raw), 3));
        proof {
            assert(d@ =~= self.spec_payload());
        }
        d
    }

    fn parse_can_msg_data(&mut self, msg: &RawCanMessage)
        ensures
            final(self).base == old(self).base,
            final(self).spec_fields_decoded(*old(self), msg@.data),
    {
        if msg.data.len() >= 8 {
            self.max_speed = u16_from_le(msg.data[2], msg.data[3]);
            self.position_raw = i32_from_bits(
                u32_from_le(msg.data[4], msg.data[5], msg.data[6], msg.data[7]),
            );
        }
    }

    fn message_filter() -> (f: MessageFilter) {
        MessageFilter::MyActuatorCmd(0xA4u8)
    }
}


// ---------------------------------------------------------------------------
// Incremental position control (command 0xA8)
// ---------------------------------------------------------------------------

/// Command moving by a position increment (0.01 degree units) under a speed limit.
#[derive(Debug, Clone)]
pub struct IncrementalPositionControlCommand {
    pub base: MyActuatorCanMessage,
    pub position_increment_raw: i32,
    pub max_speed: u16,
}

impl IncrementalPositionControlCommand {
    pub open spec fn wf(self) -> bool {
        self.base.wf() && self.base.arbitration_id.cmd_id == 0xA8
    }

    /// The payload bytes this message encodes to.
    pub open spec fn spec_payload(self) -> Seq<u8> {
        seq![0xA8u8, 0u8, lo16(self.max_speed), hi16(self.max_speed),
            le32_byte(bits_of_i32(self.position_increment_raw), 0), le32_byte(bits_of_i32(self.position_increment_raw), 1),
            le32_byte(bits_of_i32(self.position_increment_raw), 2), le32_byte(bits_of_i32(self.position_increment_raw), 3)]
    }

    /// The payload fields as decoded from `d`.
    pub open spec fn spec_fields_decoded(self, pre: Self, d: Seq<u8>) -> bool {
        if d.len() >= 8 {
            self.max_speed == u16_of_le(d[2], d[3]) && self.position_increment_raw == i32_of_bits(
                u32_of_le(d[4], d[5], d[6], d[7]),
            )
        } else {
            self.max_speed == pre.max_speed && self.position_increment_raw == pre.position_increment_raw
        }
    }

    pub open spec fn spec_new(node_id: u32, position_increment_raw: i32, max_speed: u16) -> Self {
        IncrementalPositionControlCommand {
            base: MyActuatorCanMessage::spec_new(node_id, 0xA8),
            position_increment_raw,
            max_speed,
        }
    }

    pub fn new(node_id: u32, position_increment_raw: i32, max_speed: u16) -> (r: Self)
        ensures
            r == Self::spec_new(node_id, position_increment_raw, max_speed),
    {
        Self {
            base: MyActuatorCanMessage::new(node_id, 0xA8),
            position_increment_raw,
            max_speed,
        }
    }
}

impl CanMessageTrait for IncrementalPositionControlCommand {
    open spec fn spec_matches(m: FrameModel) -> bool {
        spec_myactuator_cmd_matches(0xA8u8, m)
    }

    open spec fn spec_frame(&self) -> FrameModel {
        FrameModel {
            arbitration_id: self.base.arbitration_id.spec_value(),
            data: self.spec_payload(),
            is_extended_id: false,
        }
    }

    open spec fn spec_decoded(&self, m: FrameModel) -> bool {
        self.base.spec_base_decoded(m, 0xA8) && self.spec_fields_decoded(
            IncrementalPositionControlCommand::spec_new(self.base.node_id, 0, 0),
            m.data,
        )
    }

    fn cmd_id() -> (r: u32)
        ensures
            r == 0xA8,
    {
        0xA8
    }

    fn node_id(&self) -> (r: u32)
        ensures
            r == self.base.node_id,
    {
        self.base.node_id
    }

    fn matches(msg: &RawCanMessage) -> (r: bool) {
        MessageFilter::MyActuatorCmd(0xA8u8).accepts(msg)
    }

    fn from_can_message(msg: RawCanMessage) -> (r: Self) {
        let node = MyActuatorCanMessage::decoded_node(&msg);
        let mut s = Self::new(node, 0, 0);
        s.parse_can_msg_data(&msg);
        s
    }

    fn as_can_message(&self) -> (r: RawCanMessage) {
        let r = RawCanMessage {
            arbitration_id: self.base.arbitration_id.value(),
            data: self.gen_can_msg_data(),
            is_extended_id: false,
        };
        proof {
            assert(r@ =~= self.spec_frame());
        }
        r
    }

    open spec fn spec_arbitration(&self) -> ArbitrationId {
        ArbitrationId::MyActuator(self.base.arbitration_id)
    }

    fn gen_arbitration_id(&self) -> (r: ArbitrationId)
        ensures
            r == ArbitrationId::MyActuator(self.base.arbitration_id),
    {
        ArbitrationId::MyActuator(self.base.arbitration_id)
    }

    fn gen_can_msg_data(&self) -> (r: Vec<u8>) {
        let mut d: Vec<u8> = Vec::new();
        d.push(0xA8);
        d.push(0);
        d.push(u16_le_lo(self.max_speed));
        d.push(u16_le_hi(self.max_speed));
        d.push(u32_le_part(i32_to_bits(self.position_increment_raw), 0));
        d.push(u32_le_part(i32_to_bits(self.position_increment_raw), 1));
        d.push(u32_le_part(i32_to_bits(self.position_increment_raw), 2));
        d.push(u32_le_part(i32_to_bits(self.position_increment_raw), 3));
        proof {
            assert(d@ =~= self.spec_payload());
        }
        d
    }

    fn parse_can_msg_data(&mut self, msg: &RawCanMessage)
        ensures
            final(self).base == old(self).base,
            final(self).spec_fields_decoded(*old(self), msg@.data),
    {
        if msg.data.len() >= 8 {
            self.max_speed = u16_from_le(msg.data[2], msg.data[3]);
            self.position_increment_raw = i32_from_bits(
                u32_from_le(msg.data[4], msg.data[5], msg.data[6], msg.data[7]),
            );
        }
    }

    fn message_filter() -> (f: MessageFilter) {
        MessageFilter::MyActuatorCmd(0xA8u8)
    }
}


// ---------------------------------------------------------------------------
// Motor shutdown (command 0x80)
// ---------------------------------------------------------------------------

/// Command switching the motor output off.
#[derive(Debug, Clone)]
pub struct MotorShutdownCommand {
    pub base: MyActuatorCanMessage,
}

impl MotorShutdownCommand {
    pub open spec fn wf(self) -> bool {
        self.base.wf() && self.base.arbitration_id.cmd_id == 0x80
    }

    /// The payload bytes this message encodes to.
    pub open spec fn spec_payload(self) -> Seq<u8> {
        seq![0x80u8, 0u8, 0u8, 0u8, 0u8, 0u8, 0u8, 0u8]
    }

    /// The payload fields as decoded from `d`.
    pub open spec fn spec_fields_decoded(self, pre: Self, d: Seq<u8>) -> bool {
        true
    }

    pub open spec fn spec_new(node_id: u32) -> Self {
        MotorShutdownCommand {
            base: MyActuatorCanMessage::spec_new(node_id, 0x80),
        }
    }

    pub fn new(node_id: u32) -> (r: Self)
        ensures
            r == Self::spec_new(node_id),
    {
        Self {
            base: MyActuatorCanMessage::new(node_id, 0x80),
        }
    }
}

impl CanMessageTrait for MotorShutdownCommand {
    open spec fn spec_matches(m: FrameModel) -> bool {
        spec_myactuator_cmd_matches(0x80u8, m)
    }

    open spec fn spec_frame(&self) -> FrameModel {
        FrameModel {
            arbitration_id: self.base.arbitration_id.spec_value(),
            data: self.spec_payload(),
            is_extended_id: false,
        }
    }

    open spec fn spec_decoded(&self, m: FrameModel) -> bool {
        self.base.spec_base_decoded(m, 0x80) && self.spec_fields_decoded(
            MotorShutdownCommand::spec_new(self.base.node_id),
            m.data,
        )
    }

    fn cmd_id() -> (r: u32)
        ensures
            r == 0x80,
    {
        0x80
    }

    fn node_id(&self) -> (r: u32)
        ensures
            r == self.base.node_id,
    {
        self.base.node_id
    }

    fn matches(msg: &RawCanMessage) -> (r: bool) {
        MessageFilter::MyActuatorCmd(0x80u8).accepts(msg)
    }

    fn from_can_message(msg: RawCanMessage) -> (r: Self) {
        let node = MyActuatorCanMessage::decoded_node(&msg);
        let mut s = Self::new(node);
        s.parse_can_msg_data(&msg);
        s
    }

    fn as_can_message(&self) -> (r: RawCanMessage) {
        let r = RawCanMessage {
            arbitration_id: self.base.arbitration_id.value(),
            data: self.gen_can_msg_data(),
            is_extended_id: false,
        };
        proof {
            assert(r@ =~= self.spec_frame());
        }
        r
    }

    open spec fn spec_arbitration(&self) -> ArbitrationId {
        ArbitrationId::MyActuator(self.base.arbitration_id)
    }

    fn gen_arbitration_id(&self) -> (r: ArbitrationId)
        ensures
            r == ArbitrationId::MyActuator(self.base.arbitration_id),
    {
        ArbitrationId::MyActuator(self.base.arbitration_id)
    }

    fn gen_can_msg_data(&self) -> (r: Vec<u8>) {
        let mut d: Vec<u8> = Vec::new();
        d.push(0x80);
        d.push(0);
        d.push(0);
        d.push(0);
        d.push(0);
        d.push(0);
        d.push(0);
        d.push(0);
        proof {
            assert(d@ =~= self.spec_payload());
        }
        d
    }

    fn parse_can_msg_data(&mut self, msg: &RawCanMessage)
        ensures
            final(self).base == old(self).base,
            final(self).spec_fields_decoded(*old(self), msg@.data),
    {
    }

    fn message_filter() -> (f: MessageFilter) {
        MessageFilter::MyActuatorCmd(0x80u8)
    }
}


// ---------------------------------------------------------------------------
// Motor stop (command 0x81)
// ---------------------------------------------------------------------------

/// Command stopping motion while keeping the motor energised.
#[derive(Debug, Clone)]
pub struct MotorStopCommand {
    pub base: MyActuatorCanMessage,
}

impl MotorStopCommand {
    pub open spec fn wf(self) -> bool {
        self.base.wf() && self.base.arbitration_id.cmd_id == 0x81
    }

    /// The payload bytes this message encodes to.
    pub open spec fn spec_payload(self) -> Seq<u8> {
        seq![0x81u8, 0u8, 0u8, 0u8, 0u8, 0u8, 0u8, 0u8]
    }

    /// The payload fields as decoded from `d`.
    pub open spec fn spec_fields_decoded(self, pre: Self, d: Seq<u8>) -> bool {
        true
    }

    pub open spec fn spec_new(node_id: u32) -> Self {
        MotorStopCommand {
            base: MyActuatorCanMessage::spec_new(node_id, 0x81),
        }
    }

    pub fn new(node_id: u32) -> (r: Self)
        ensures
            r == Self::spec_new(node_id),
    {
        Self {
            base: MyActuatorCanMessage::new(node_id, 0x81),
        }
    }
}

impl CanMessageTrait for MotorStopCommand {
    open spec fn spec_matches(m: FrameModel) -> bool {
        spec_myactuator_cmd_matches(0x81u8, m)
    }

    open spec fn spec_frame(&self) -> FrameModel {
        FrameModel {
            arbitration_id: self.base.arbitration_id.spec_value(),
            data: self.spec_payload(),
            is_extended_id: false,
        }
    }

    open spec fn spec_decoded(&self, m: FrameModel) -> bool {
        self.base.spec_base_decoded(m, 0x81) && self.spec_fields_decoded(
            MotorStopCommand::spec_new(self.base.node_id),
            m.data,
        )
    }

    fn cmd_id() -> (r: u32)
        ensures
            r == 0x81,
    {
        0x81
    }

    fn node_id(&self) -> (r: u32)
        ensures
            r == self.base.node_id,
    {
        self.base.node_id
    }

    fn matches(msg: &RawCanMessage) -> (r: bool) {
        MessageFilter::MyActuatorCmd(0x81u8).accepts(msg)
    }

    fn from_can_message(msg: RawCanMessage) -> (r: Self) {
        let node = MyActuatorCanMessage::decoded_node(&msg);
        let mut s = Self::new(node);
        s.parse_can_msg_data(&msg);
        s
    }

    fn as_can_message(&self) -> (r: RawCanMessage) {
        let r = RawCanMessage {
            arbitration_id: self.base.arbitration_id.value(),
            data: self.gen_can_msg_data(),
            is_extended_id: false,
        };
        proof {
            assert(r@ =~= self.spec_frame());
        }
        r
    }

    open spec fn spec_arbitration(&self) -> ArbitrationId {
        ArbitrationId::MyActuator(self.base.arbitration_id)
    }

    fn gen_arbitration_id(&self) -> (r: ArbitrationId)
        ensures
            r == ArbitrationId::MyActuator(self.base.arbitration_id),
    {
        ArbitrationId::MyActuator(self.base.arbitration_id)
    }

    fn gen_can_msg_data(&self) -> (r: Vec<u8>) {
        let mut d: Vec<u8> = Vec::new();
        d.push(0x81);
        d.push(0);
        d.push(0);
        d.push(0);
        d.push(0);
        d.push(0);
        d.push(0);
        d.push(0);
        proof {
            assert(d@ =~= self.spec_payload());
        }
        d
    }

    fn parse_can_msg_data(&mut self, msg: &RawCanMessage)
        ensures
            final(self).base == old(self).base,
            final(self).spec_fields_decoded(*old(self), msg@.data),
    {
    }

    fn message_filter() -> (f: MessageFilter) {
        MessageFilter::MyActuatorCmd(0x81u8)
    }
}


// ---------------------------------------------------------------------------
// Multi-turn angle (command 0x92)
// ---------------------------------------------------------------------------

/// Query for, and reply carrying, the multi-turn angle in 0.01 degree units.
#[derive(Debug, Clone)]
pub struct ReadMultiTurnAngleMessage {
    pub base: MyActuatorCanMessage,
    pub angle_raw: i32,
}

impl ReadMultiTurnAngleMessage {
    pub open spec fn wf(self) -> bool {
        self.base.wf() && self.base.arbitration_id.cmd_id == 0x92
    }

    /// The payload bytes this message encodes to.
    pub open spec fn spec_payload(self) -> Seq<u8> {
        seq![0x92u8, 0u8, 0u8, 0u8, 0u8, 0u8, 0u8, 0u8]
    }

    /// The payload fields as decoded from `d`.
    pub open spec fn spec_fields_decoded(self, pre: Self, d: Seq<u8>) -> bool {
        if d.len() >= 8 {
            self.angle_raw == i32_of_bits(u32_of_le(d[4], d[5], d[6], d[7]))
        } else {
            self.angle_raw == pre.angle_raw
        }
    }

    pub open spec fn spec_new(node_id: u32) -> Self {
        ReadMultiTurnAngleMessage {
            base: MyActuatorCanMessage::spec_new(node_id, 0x92),
            angle_raw: 0,
        }
    }

    pub fn new(node_id: u32) -> (r: Self)
        ensures
            r == Self::spec_new(node_id),
    {
        Self {
            base: MyActuatorCanMessage::new(node_id, 0x92),
            angle_raw: 0,
        }
    }
}

impl CanMessageTrait for ReadMultiTurnAngleMessage {
    open spec fn spec_matches(m: FrameModel) -> bool {
        spec_myactuator_cmd_matches(0x92u8, m)
    }

    open spec fn spec_frame(&self) -> FrameModel {
        FrameModel {
            arbitration_id: self.base.arbitration_id.spec_value(),
            data: self.spec_payload(),
            is_extended_id: false,
        }
    }

    open spec fn spec_decoded(&self, m: FrameModel) -> bool {
        self.base.spec_base_decoded(m, 0x92) && self.spec_fields_decoded(
            ReadMultiTurnAngleMessage::spec_new(self.base.node_id),
            m.data,
        )
    }

    fn cmd_id() -> (r: u32)
        ensures
            r == 0x92,
    {
        0x92
    }

    fn node_id(&self) -> (r: u32)
        ensures
            r == self.base.node_id,
    {
        self.base.node_id
    }

    fn matches(msg: &RawCanMessage) -> (r: bool) {
        MessageFilter::MyActuatorCmd(0x92u8).accepts(msg)
    }

    fn from_can_message(msg: RawCanMessage) -> (r: Self) {
        let node = MyActuatorCanMessage::decoded_node(&msg);
        let mut s = Self::new(node);
        s.parse_can_msg_data(&msg);
        s
    }

    fn as_can_message(&self) -> (r: RawCanMessage) {
        let r = RawCanMessage {
            arbitration_id: self.base.arbitration_id.value(),
            data: self.gen_can_msg_data(),
            is_extended_id: false,
        };
        proof {
            assert(r@ =~= self.spec_frame());
        }
        r
    }

    open spec fn spec_arbitration(&self) -> ArbitrationId {
        ArbitrationId::MyActuator(self.base.arbitration_id)
    }

    fn gen_arbitration_id(&self) -> (r: ArbitrationId)
        ensures
            r == ArbitrationId::MyActuator(self.base.arbitration_id),
    {
        ArbitrationId::MyActuator(self.base.arbitration_id)
    }

    fn gen_can_msg_data(&self) -> (r: Vec<u8>) {
        let mut d: Vec<u8> = Vec::new();
        d.push(0x92);
        d.push(0);
        d.push(0);
        d.push(0);
        d.push(0);
        d.push(0);
        d.push(0);
        d.push(0);
        proof {
            assert(d@ =~= self.spec_payload());
        }
        d
    }

    fn parse_can_msg_data(&mut self, msg: &RawCanMessage)
        ensures
            final(self).base == old(self).base,
            final(self).spec_fields_decoded(*old(self), msg@.data),
    {
        if msg.data.len() >= 8 {
            self.angle_raw = i32_from_bits(
                u32_from_le(msg.data[4], msg.data[5], msg.data[6], msg.data[7]),
            );
        }
    }

    fn message_filter() -> (f: MessageFilter) {
        MessageFilter::MyActuatorCmd(0x92u8)
    }
}


// ---------------------------------------------------------------------------
// Brake release (command 0x77)
// ---------------------------------------------------------------------------

/// Command releasing the holding brake.
#[derive(Debug, Clone)]
pub struct SystemBrakeReleaseCommand {
    pub base: MyActuatorCanMessage,
}

impl SystemBrakeReleaseCommand {
    pub open spec fn wf(self) -> bool {
        self.base.wf() && self.base.arbitration_id.cmd_id == 0x77
    }

    /// The payload bytes this message encodes to.
    pub open spec fn spec_payload(self) -> Seq<u8> {
        seq![0x77u8, 0u8, 0u8, 0u8, 0u8, 0u8, 0u8, 0u8]
    }

    /// The payload fields as decoded from `d`.
    pub open spec fn spec_fields_decoded(self, pre: Self, d: Seq<u8>) -> bool {
        true
    }

    pub open spec fn spec_new(node_id: u32) -> Self {
        SystemBrakeReleaseCommand {
            base: MyActuatorCanMessage::spec_new(node_id, 0x77),
        }
    }

    pub fn new(node_id: u32) -> (r: Self)
        ensures
            r == Self::spec_new(node_id),
    {
        Self {
            base: MyActuatorCanMessage::new(node_id, 0x77),
        }
    }
}

impl CanMessageTrait for SystemBrakeReleaseCommand {
    open spec fn spec_matches(m: FrameModel) -> bool {
        spec_myactuator_cmd_matches(0x77u8, m)
    }

    open spec fn spec_frame(&self) -> FrameModel {
        FrameModel {
            arbitration_id: self.base.arbitration_id.spec_value(),
            data: self.spec_payload(),
            is_extended_id: false,
        }
    }

    open spec fn spec_decoded(&self, m: FrameModel) -> bool {
        self.base.spec_base_decoded(m, 0x77) && self.spec_fields_decoded(
            SystemBrakeReleaseCommand::spec_new(self.base.node_id),
            m.data,
        )
    }

    fn cmd_id() -> (r: u32)
        ensures
            r == 0x77,
    {
        0x77
    }

    fn node_id(&self) -> (r: u32)
        ensures
            r == self.base.node_id,
    {
        self.base.node_id
    }

    fn matches(msg: &RawCanMessage) -> (r: bool) {
        MessageFilter::MyActuatorCmd(0x77u8).accepts(msg)
    }

    fn from_can_message(msg: RawCanMessage) -> (r: Self) {
        let node = MyActuatorCanMessage::decoded_node(&msg);
        let mut s = Self::new(node);
        s.parse_can_msg_data(&msg);
        s
    }

    fn as_can_message(&self) -> (r: RawCanMessage) {
        let r = RawCanMessage {
            arbitration_id: self.base.arbitration_id.value(),
            data: self.gen_can_msg_data(),
            is_extended_id: false,
        };
        proof {
            assert(r@ =~= self.spec_frame());
        }
        r
    }

    open spec fn spec_arbitration(&self) -> ArbitrationId {
        ArbitrationId::MyActuator(self.base.arbitration_id)
    }

    fn gen_arbitration_id(&self) -> (r: ArbitrationId)
        ensures
            r == ArbitrationId::MyActuator(self.base.arbitration_id),
    {
        ArbitrationId::MyActuator(self.base.arbitration_id)
    }

    fn gen_can_msg_data(&self) -> (r: Vec<u8>) {
        let mut d: Vec<u8> = Vec::new();
        d.push(0x77);
        d.push(0);
        d.push(0);
        d.push(0);
        d.push(0);
        d.push(0);
        d.push(0);
        d.push(0);
        proof {
            assert(d@ =~= self.spec_payload());
        }
        d
    }

    fn parse_can_msg_data(&mut self, msg: &RawCanMessage)
        ensures
            final(self).base == old(self).base,
            final(self).spec_fields_decoded(*old(self), msg@.data),
    {
    }

    fn message_filter() -> (f: MessageFilter) {
        MessageFilter::MyActuatorCmd(0x77u8)
    }
}


// ---------------------------------------------------------------------------
// Brake lock (command 0x78)
// ---------------------------------------------------------------------------

/// Command engaging the holding brake.
#[derive(Debug, Clone)]
pub struct SystemBrakeLockCommand {
    pub base: MyActuatorCanMessage,
}

impl SystemBrakeLockCommand {
    pub open spec fn wf(self) -> bool {
        self.base.wf() && self.base.arbitration_id.cmd_id == 0x78
    }

    /// The payload bytes this message encodes to.
    pub open spec fn spec_payload(self) -> Seq<u8> {
        seq![0x78u8, 0u8, 0u8, 0u8, 0u8, 0u8, 0u8, 0u8]
    }

    /// The payload fields as decoded from `d`.
    pub open spec fn spec_fields_decoded(self, pre: Self, d: Seq<u8>) -> bool {
        true
    }

    pub open spec fn spec_new(node_id: u32) -> Self {
        SystemBrakeLockCommand {
            base: MyActuatorCanMessage::spec_new(node_id, 0x78),
        }
    }

    pub fn new(node_id: u32) -> (r: Self)
        ensures
            r == Self::spec_new(node_id),
    {
        Self {
            base: MyActuatorCanMessage::new(node_id, 0x78),
        }
    }
}

impl CanMessageTrait for SystemBrakeLockCommand {
    open spec fn spec_matches(m: FrameModel) -> bool {
        spec_myactuator_cmd_matches(0x78u8, m)
    }

    open spec fn spec_frame(&self) -> FrameModel {
        FrameModel {
            arbitration_id: self.base.arbitration_id.spec_value(),
            data: self.spec_payload(),
            is_extended_id: false,
        }
    }

    open spec fn spec_decoded(&self, m: FrameModel) -> bool {
        self.base.spec_base_decoded(m, 0x78) && self.spec_fields_decoded(
            SystemBrakeLockCommand::spec_new(self.base.node_id),
            m.data,
        )
    }

    fn cmd_id() -> (r: u32)
        ensures
            r == 0x78,
    {
        0x78
    }

    fn node_id(&self) -> (r: u32)
        ensures
            r == self.base.node_id,
    {
        self.base.node_id
    }

    fn matches(msg: &RawCanMessage) -> (r: bool) {
        MessageFilter::MyActuatorCmd(0x78u8).accepts(msg)
    }

    fn from_can_message(msg: RawCanMessage) -> (r: Self) {
        let node = MyActuatorCanMessage::decoded_node(&msg);
        let mut s = Self::new(node);
        s.parse_can_msg_data(&msg);
        s
    }

    fn as_can_message(&self) -> (r: RawCanMessage) {
        let r = RawCanMessage {
            arbitration_id: self.base.arbitration_id.value(),
            data: self.gen_can_msg_data(),
            is_extended_id: false,
        };
        proof {
            assert(r@ =~= self.spec_frame());
        }
        r
    }

    open spec fn spec_arbitration(&self) -> ArbitrationId {
        ArbitrationId::MyActuator(self.base.arbitration_id)
    }

    fn gen_arbitration_id(&self) -> (r: ArbitrationId)
        ensures
            r == ArbitrationId::MyActuator(self.base.arbitration_id),
    {
        ArbitrationId::MyActuator(self.base.arbitration_id)
    }

    fn gen_can_msg_data(&self) -> (r: Vec<u8>) {
        let mut d: Vec<u8> = Vec::new();
        d.push(0x78);
        d.push(0);
        d.push(0);
        d.push(0);
        d.push(0);
        d.push(0);
        d.push(0);
        d.push(0);
        proof {
            assert(d@ =~= self.spec_payload());
        }
        d
    }

    fn parse_can_msg_data(&mut self, msg: &RawCanMessage)
        ensures
            final(self).base == old(self).base,
            final(self).spec_fields_decoded(*old(self), msg@.data),
    {
    }

    fn message_filter() -> (f: MessageFilter) {
        MessageFilter::MyActuatorCmd(0x78u8)
    }
}


// ---------------------------------------------------------------------------
// Operating mode acquisition (command 0x70)
// ---------------------------------------------------------------------------

/// Query for, and reply carrying, the current operating mode.
#[derive(Debug, Clone)]
pub struct SystemOperatingModeAcquisitionCommand {
    pub base: MyActuatorCanMessage,
    pub operating_mode: MyActuatorV3OperatingMode,
}

impl SystemOperatingModeAcquisitionCommand {
    pub open spec fn wf(self) -> bool {
        self.base.wf() && self.base.arbitration_id.cmd_id == 0x70
    }

    /// The payload bytes this message encodes to.
    pub open spec fn spec_payload(self) -> Seq<u8> {
        seq![0x70u8, 0u8, 0u8, 0u8, 0u8, 0u8, 0u8, 0u8]
    }

    /// The payload fields as decoded from `d`.
    pub open spec fn spec_fields_decoded(self, pre: Self, d: Seq<u8>) -> bool {
        if d.len() >= 8 {
            self.operating_mode == (match spec_v3_mode_of_value(d[7]) {
                Some(v) => v,
                None => MyActuatorV3OperatingMode::PositionLoopControl,
            })
        } else {
            self.operating_mode == pre.operating_mode
        }
    }

    pub open spec fn spec_new(node_id: u32) -> Self {
        SystemOperatingModeAcquisitionCommand {
            base: MyActuatorCanMessage::spec_new(node_id, 0x70),
            operating_mode: MyActuatorV3OperatingMode::PositionLoopControl,
        }
    }

    pub fn new(node_id: u32) -> (r: Self)
        ensures
            r == Self::spec_new(node_id),
    {
        Self {
            base: MyActuatorCanMessage::new(node_id, 0x70),
            operating_mode: MyActuatorV3OperatingMode::PositionLoopControl,
        }
    }
}

impl CanMessageTrait for SystemOperatingModeAcquisitionCommand {
    open spec fn spec_matches(m: FrameModel) -> bool {
        spec_myactuator_cmd_matches(0x70u8, m)
    }

    open spec fn spec_frame(&self) -> FrameModel {
        FrameModel {
            arbitration_id: self.base.arbitration_id.spec_value(),
            data: self.spec_payload(),
            is_extended_id: false,
        }
    }

    open spec fn spec_decoded(&self, m: FrameModel) -> bool {
        self.base.spec_base_decoded(m, 0x70) && self.spec_fields_decoded(
            SystemOperatingModeAcquisitionCommand::spec_new(self.base.node_id),
            m.data,
        )
    }

    fn cmd_id() -> (r: u32)
        ensures
            r == 0x70,
    {
        0x70
    }

    fn node_id(&self) -> (r: u32)
        ensures
            r == self.base.node_id,
    {
        self.base.node_id
    }

    fn matches(msg: &RawCanMessage) -> (r: bool) {
        MessageFilter::MyActuatorCmd(0x70u8).accepts(msg)
    }

    fn from_can_message(msg: RawCanMessage) -> (r: Self) {
        let node = MyActuatorCanMessage::decoded_node(&msg);
        let mut s = Self::new(node);
        s.parse_can_msg_data(&msg);
        s
    }

    fn as_can_message(&self) -> (r: RawCanMessage) {
        let r = RawCanMessage {
            arbitration_id: self.base.arbitration_id.value(),
            data: self.gen_can_msg_data(),
            is_extended_id: false,
        };
        proof {
            assert(r@ =~= self.spec_frame());
        }
        r
    }

    open spec fn spec_arbitration(&self) -> ArbitrationId {
        ArbitrationId::MyActuator(self.base.arbitration_id)
    }

    fn gen_arbitration_id(&self) -> (r: ArbitrationId)
        ensures
            r == ArbitrationId::MyActuator(self.base.arbitration_id),
    {
        ArbitrationId::MyActuator(self.base.arbitration_id)
    }

    fn gen_can_msg_data(&self) -> (r: Vec<u8>) {
        let mut d: Vec<u8> = Vec::new();
        d.push(0x70);
        d.push(0);
        d.push(0);
        d.push(0);
        d.push(0);
        d.push(0);
        d.push(0);
        d.push(0);
        proof {
            assert(d@ =~= self.spec_payload());
        }
        d
    }

    fn parse_can_msg_data(&mut self, msg: &RawCanMessage)
        ensures
            final(self).base == old(self).base,
            final(self).spec_fields_decoded(*old(self), msg@.data),
    {
        if msg.data.len() >= 8 {
            self.operating_mode = match MyActuatorV3OperatingMode::from_value(msg.data[7]) {
                Some(v) => v,
                None => MyActuatorV3OperatingMode::PositionLoopControl,
            };
        }
    }

    fn message_filter() -> (f: MessageFilter) {
        MessageFilter::MyActuatorCmd(0x70u8)
    }
}


// ---------------------------------------------------------------------------
// System reset (command 0x76)
// ---------------------------------------------------------------------------

/// Command restarting the controller.
#[derive(Debug, Clone)]
pub struct SystemResetCommand {
    pub base: MyActuatorCanMessage,
}

impl SystemResetCommand {
    pub open spec fn wf(self) -> bool {
        self.base.wf() && self.base.arbitration_id.cmd_id == 0x76
    }

    /// The payload bytes this message encodes to.
    pub open spec fn spec_payload(self) -> Seq<u8> {
        seq![0x76u8, 0u8, 0u8, 0u8, 0u8, 0u8, 0u8, 0u8]
    }

    /// The payload fields as decoded from `d`.
    pub open spec fn spec_fields_decoded(self, pre: Self, d: Seq<u8>) -> bool {
        true
    }

    pub open spec fn spec_new(node_id: u32) -> Self {
        SystemResetCommand {
            base: MyActuatorCanMessage::spec_new(node_id, 0x76),
        }
    }

    pub fn new(node_id: u32) -> (r: Self)
        ensures
            r == Self::spec_new(node_id),
    {
        Self {
            base: MyActuatorCanMessage::new(node_id, 0x76),
        }
    }
}

impl CanMessageTrait for SystemResetCommand {
    open spec fn spec_matches(m: FrameModel) -> bool {
        spec_myactuator_cmd_matches(0x76u8, m)
    }

    open spec fn spec_frame(&self) -> FrameModel {
        FrameModel {
            arbitration_id: self.base.arbitration_id.spec_value(),
            data: self.spec_payload(),
            is_extended_id: false,
        }
    }

    open spec fn spec_decoded(&self, m: FrameModel) -> bool {
        self.base.spec_base_decoded(m, 0x76) && self.spec_fields_decoded(
            SystemResetCommand::spec_new(self.base.node_id),
            m.data,
        )
    }

    fn cmd_id() -> (r: u32)
        ensures
            r == 0x76,
    {
        0x76
    }

    fn node_id(&self) -> (r: u32)
        ensures
            r == self.base.node_id,
    {
        self.base.node_id
    }

    fn matches(msg: &RawCanMessage) -> (r: bool) {
        MessageFilter::MyActuatorCmd(0x76u8).accepts(msg)
    }

    fn from_can_message(msg: RawCanMessage) -> (r: Self) {
        let node = MyActuatorCanMessage::decoded_node(&msg);
        let mut s = Self::new(node);
        s.parse_can_msg_data(&msg);
        s
    }

    fn as_can_message(&self) -> (r: RawCanMessage) {
        let r = RawCanMessage {
            arbitration_id: self.base.arbitration_id.value(),
            data: self.gen_can_msg_data(),
            is_extended_id: false,
        };
        proof {
            assert(r@ =~= self.spec_frame());
        }
        r
    }

    open spec fn spec_arbitration(&self) -> ArbitrationId {
        ArbitrationId::MyActuator(self.base.arbitration_id)
    }

    fn gen_arbitration_id(&self) -> (r: ArbitrationId)
        ensures
            r == ArbitrationId::MyActuator(self.base.arbitration_id),
    {
        ArbitrationId::MyActuator(self.base.arbitration_id)
    }

    fn gen_can_msg_data(&self) -> (r: Vec<u8>) {
        let mut d: Vec<u8> = Vec::new();
        d.push(0x76);
        d.push(0);
        d.push(0);
        d.push(0);
        d.push(0);
        d.push(0);
        d.push(0);
        d.push(0);
        proof {
            assert(d@ =~= self.spec_payload());
        }
        d
    }

    fn parse_can_msg_data(&mut self, msg: &RawCanMessage)
        ensures
            final(self).base == old(self).base,
            final(self).spec_fields_decoded(*old(self), msg@.data),
    {
    }

    fn message_filter() -> (f: MessageFilter) {
        MessageFilter::MyActuatorCmd(0x76u8)
    }
}


// ---------------------------------------------------------------------------
// Version acquisition (command 0xB2)
// ---------------------------------------------------------------------------

/// Query for, and reply carrying, the firmware version date, encoded as the decimal number `yyyymmdd`.
#[derive(Debug, Clone)]
pub struct VersionAcquisitionCommand {
    pub base: MyActuatorCanMessage,
    pub version_date: u32,
}

impl VersionAcquisitionCommand {
    pub open spec fn wf(self) -> bool {
        self.base.wf() && self.base.arbitration_id.cmd_id == 0xB2
    }

    /// The payload bytes this message encodes to.
    pub open spec fn spec_payload(self) -> Seq<u8> {
        seq![0xB2u8, 0u8, 0u8, 0u8, 0u8, 0u8, 0u8, 0u8]
    }

    /// The payload fields as decoded from `d`.
    pub open spec fn spec_fields_decoded(self, pre: Self, d: Seq<u8>) -> bool {
        if d.len() >= 8 {
            self.version_date == u32_of_le(d[4], d[5], d[6], d[7])
        } else {
            self.version_date == pre.version_date
        }
    }

    pub open spec fn spec_new(node_id: u32) -> Self {
        VersionAcquisitionCommand {
            base: MyActuatorCanMessage::spec_new(node_id, 0xB2),
            version_date: 0,
        }
    }

    pub fn new(node_id: u32) -> (r: Self)
        ensures
            r == Self::spec_new(node_id),
    {
        Self {
            base: MyActuatorCanMessage::new(node_id, 0xB2),
            version_date: 0,
        }
    }
}

impl CanMessageTrait for VersionAcquisitionCommand {
    open spec fn spec_matches(m: FrameModel) -> bool {
        spec_myactuator_cmd_matches(0xB2u8, m)
    }

    open spec fn spec_frame(&self) -> FrameModel {
        FrameModel {
            arbitration_id: self.base.arbitration_id.spec_value(),
            data: self.spec_payload(),
            is_extended_id: false,
        }
    }

    open spec fn spec_decoded(&self, m: FrameModel) -> bool {
        self.base.spec_base_decoded(m, 0xB2) && self.spec_fields_decoded(
            VersionAcquisitionCommand::spec_new(self.base.node_id),
            m.data,
        )
    }

    fn cmd_id() -> (r: u32)
        ensures
            r == 0xB2,
    {
        0xB2
    }

    fn node_id(&self) -> (r: u32)
        ensures
            r == self.base.node_id,
    {
        self.base.node_id
    }

    fn matches(msg: &RawCanMessage) -> (r: bool) {
        MessageFilter::MyActuatorCmd(0xB2u8).accepts(msg)
    }

    fn from_can_message(msg: RawCanMessage) -> (r: Self) {
        let node = MyActuatorCanMessage::decoded_node(&msg);
        let mut s = Self::new(node);
        s.parse_can_msg_data(&msg);
        s
    }

    fn as_can_message(&self) -> (r: RawCanMessage) {
        let r = RawCanMessage {
            arbitration_id: self.base.arbitration_id.value(),
            data: self.gen_can_msg_data(),
            is_extended_id: false,
        };
        proof {
            assert(r@ =~= self.spec_frame());
        }
        r
    }

    open spec fn spec_arbitration(&self) -> ArbitrationId {
        ArbitrationId::MyActuator(self.base.arbitration_id)
    }

    fn gen_arbitration_id(&self) -> (r: ArbitrationId)
        ensures
            r == ArbitrationId::MyActuator(self.base.arbitration_id),
    {
        ArbitrationId::MyActuator(self.base.arbitration_id)
    }

    fn gen_can_msg_data(&self) -> (r: Vec<u8>) {
        let mut d: Vec<u8> = Vec::new();
        d.push(0xB2);
        d.push(0);
        d.push(0);
        d.push(0);
        d.push(0);
        d.push(0);
        d.push(0);
        d.push(0);
        proof {
            assert(d@ =~= self.spec_payload());
        }
        d
    }

    fn parse_can_msg_data(&mut self, msg: &RawCanMessage)
        ensures
            final(self).base == old(self).base,
            final(self).spec_fields_decoded(*old(self), msg@.data),
    {
        if msg.data.len() >= 8 {
            self.version_date = u32_from_le(msg.data[4], msg.data[5], msg.data[6], msg.data[7]);
        }
    }

    fn message_filter() -> (f: MessageFilter) {
        MessageFilter::MyActuatorCmd(0xB2u8)
    }
}

// ---------------------------------------------------------------------------
// Firmware version dates
// ---------------------------------------------------------------------------

pub open spec fn spec_is_leap_year(y: u32) -> bool {
    y % 4 == 0 && (y % 100 != 0 || y % 400 == 0)
}

pub open spec fn spec_days_in_month(y: u32, m: u32) -> u32 {
    if m == 2 {
        if spec_is_leap_year(y) {
            29
        } else {
            28
        }
    } else if m == 4 || m == 6 || m == 9 || m == 11 {
        30
    } else {
        31
    }
}

/// A calendar date as plain fields, used for the firmware version date.
#[derive(Debug, Clone, Copy, PartialEq, Eq, Structural)]
pub struct VersionDate {
    pub year: u32,
    pub month: u32,
    pub day: u32,
}

impl VersionDate {
    /// A real calendar date in the Gregorian calendar.
    pub open spec fn wf(self) -> bool {
        1 <= self.month <= 12 && 1 <= self.day <= spec_days_in_month(self.year, self.month)
    }
}

/// Whether a decimal `yyyymmdd` number denotes a real calendar date.
pub open spec fn spec_valid_version_date(v: u32) -> bool {
    let m = (v / 100) % 100;
    let d = v % 100;
    1 <= m <= 12 && 1 <= d <= spec_days_in_month(v / 10000, m)
}

impl VersionAcquisitionCommand {
    /// The firmware version date split into calendar fields, if
    /// `version_date` is a valid decimal `yyyymmdd` number.
    pub fn version_datetime(&self) -> (r: Option<VersionDate>)
        ensures
            r matches Some(d) ==> d == (VersionDate {
                year: self.version_date / 10000,
                month: (self.version_date / 100) % 100,
                day: self.version_date % 100,
            }) && d.wf(),
            r is Some <==> spec_valid_version_date(self.version_date),
    {
        let year = self.version_date / 10000;
        let month = (self.version_date / 100) % 100;
        let day = self.version_date % 100;
        if month < 1 || month > 12 {
            return None;
        }
        let days = if month == 2 {
            if year % 4 == 0 && (year % 100 != 0 || year % 400 == 0) {
                29
            } else {
                28
            }
        } else if month == 4 || month == 6 || month == 9 || month == 11 {
            30
        } else {
            31
        };
        if day < 1 || day > days {
            return None;
        }
        Some(VersionDate { year, month, day })
    }
}

// ---------------------------------------------------------------------------
// CANID configuration (command 0x79, broadcast)
// ---------------------------------------------------------------------------

/// Whether a CANID access reads or writes the stored id.
#[derive(Debug, Clone, Copy, PartialEq, Eq, Structural)]
pub enum ReadWriteFlag {
    Read,
    Write,
}

/// The id byte actually sent: the requested id clamped into 1..=32 after
/// the wire's signed reinterpretation.
pub open spec fn spec_canid_byte(c: u32) -> u8 {
    if c > 0x7FFF_FFFF {
        1
    } else if c < 1 {
        1
    } else if c > 32 {
        32
    } else {
        c as u8
    }
}

/// Command reading or writing the motor's stored CANID. It is addressed to
/// the fixed broadcast arbitration value rather than a single node.
#[derive(Debug, Clone)]
pub struct CANIDCommand {
    pub base: MyActuatorCanMessage,
    pub read_write_flag: ReadWriteFlag,
    pub can_id: u32,
}

impl CANIDCommand {
    pub open spec fn wf(self) -> bool {
        self.base.wf() && self.base.arbitration_id.cmd_id == 0x79
    }

    /// The payload bytes this message encodes to.
    pub open spec fn spec_payload(self) -> Seq<u8> {
        seq![
            0x79u8,
            0u8,
            if self.read_write_flag is Read {
                1u8
            } else {
                0u8
            },
            0u8,
            0u8,
            0u8,
            0u8,
            spec_canid_byte(self.can_id),
        ]
    }

    /// The payload fields as decoded from `d`.
    pub open spec fn spec_fields_decoded(self, pre: Self, d: Seq<u8>) -> bool {
        if d.len() >= 8 {
            self.read_write_flag == (if d[2] != 0 {
                ReadWriteFlag::Read
            } else {
                ReadWriteFlag::Write
            }) && self.can_id == d[7] as u32
        } else {
            self.read_write_flag == pre.read_write_flag && self.can_id == pre.can_id
        }
    }

    pub open spec fn spec_new(node_id: u32, read_write_flag: ReadWriteFlag, can_id: u32) -> Self {
        CANIDCommand {
            base: MyActuatorCanMessage::spec_new(node_id, 0x79),
            read_write_flag,
            can_id,
        }
    }

    pub fn new(node_id: u32, read_write_flag: ReadWriteFlag, can_id: u32) -> (r: Self)
        ensures
            r == Self::spec_new(node_id, read_write_flag, can_id),
    {
        Self {
            base: MyActuatorCanMessage::new(node_id, 0x79),
            read_write_flag,
            can_id,
        }
    }
}

impl CanMessageTrait for CANIDCommand {
    open spec fn spec_matches(m: FrameModel) -> bool {
        spec_myactuator_cmd_matches(0x79u8, m)
    }

    open spec fn spec_frame(&self) -> FrameModel {
        FrameModel {
            arbitration_id: 0x300,
            data: self.spec_payload(),
            is_extended_id: false,
        }
    }

    open spec fn spec_decoded(&self, m: FrameModel) -> bool {
        self.base.spec_base_decoded(m, 0x79) && self.spec_fields_decoded(
            CANIDCommand::spec_new(self.base.node_id, ReadWriteFlag::Write, 0),
            m.data,
        )
    }

    fn cmd_id() -> (r: u32)
        ensures
            r == 0x79,
    {
        0x79
    }

    fn node_id(&self) -> (r: u32)
        ensures
            r == self.base.node_id,
    {
        self.base.node_id
    }

    fn matches(msg: &RawCanMessage) -> (r: bool) {
        MessageFilter::MyActuatorCmd(0x79u8).accepts(msg)
    }

    fn from_can_message(msg: RawCanMessage) -> (r: Self) {
        let node = MyActuatorCanMessage::decoded_node(&msg);
        let mut s = Self::new(node, ReadWriteFlag::Write, 0);
        s.parse_can_msg_data(&msg);
        s
    }

    fn as_can_message(&self) -> (r: RawCanMessage) {
        let r = RawCanMessage {
            arbitration_id: 0x300,
            data: self.gen_can_msg_data(),
            is_extended_id: false,
        };
        proof {
            assert(r@ =~= self.spec_frame());
        }
        r
    }

    /// The structured arbitration id: the broadcast value this command is
    /// sent under.
    open spec fn spec_arbitration(&self) -> ArbitrationId {
        ArbitrationId::MyActuator(MyActuatorArbitrationId {
            node_id: self.base.arbitration_id.node_id,
            cmd_id: self.base.arbitration_id.cmd_id,
            custom_value: Some(0x300),
        })
    }

    fn gen_arbitration_id(&self) -> (r: ArbitrationId)
        ensures
            r == ArbitrationId::MyActuator(MyActuatorArbitrationId {
                node_id: self.base.arbitration_id.node_id,
                cmd_id: self.base.arbitration_id.cmd_id,
                custom_value: Some(0x300),
            }),
    {
        ArbitrationId::MyActuator(
            MyActuatorArbitrationId {
                node_id: self.base.arbitration_id.node_id,
                cmd_id: self.base.arbitration_id.cmd_id,
                custom_value: Some(0x300),
            },
        )
    }

    fn gen_can_msg_data(&self) -> (r: Vec<u8>) {
        let flag_byte: u8 = if matches!(self.read_write_flag, ReadWriteFlag::Read) {
            0x01
        } else {
            0x00
        };
        let clipped_id: u8 = if self.can_id > 0x7FFF_FFFF {
            1
        } else if self.can_id < 1 {
            1
        } else if self.can_id > 32 {
            32
        } else {
            self.can_id as u8
        };
        let mut d: Vec<u8> = Vec::new();
        d.push(0x79);
        d.push(0);
        d.push(flag_byte);
        d.push(0);
        d.push(0);
        d.push(0);
        d.push(0);
        d.push(clipped_id);
        proof {
            assert(d@ =~= self.spec_payload());
        }
        d
    }

    fn parse_can_msg_data(&mut self, msg: &RawCanMessage)
        ensures
            final(self).base == old(self).base,
            final(self).spec_fields_decoded(*old(self), msg@.data),
    {
        if msg.data.len() >= 8 {
            self.read_write_flag = if msg.data[2] != 0 {
                ReadWriteFlag::Read
            } else {
                ReadWriteFlag::Write
            };
            self.can_id = msg.data[7] as u32;
        }
    }

    fn message_filter() -> (f: MessageFilter) {
        MessageFilter::MyActuatorCmd(0x79u8)
    }
}

// ---------------------------------------------------------------------------
// Round trips: decoding an encoded frame recovers the message
// ---------------------------------------------------------------------------

/// The family base: decoding the encoded frame recovers the node address.
pub proof fn lemma_myactuator_message_round_trip(m: MyActuatorCanMessage, d: MyActuatorCanMessage)
    requires
        m.wf(),
        d.spec_decoded(m.spec_frame()),
    ensures
        d.node_id == m.node_id,
        d.arbitration_id.node_id == m.node_id,
{
    lemma_myactuator_arbitration_round_trip(m.arbitration_id);
}

/// Reading back an encoded torque command recovers node and torque.
pub proof fn lemma_torque_control_round_trip(m: TorqueControlCommand, d: TorqueControlCommand)
    requires
        m.wf(),
        d.spec_decoded(m.spec_frame()),
    ensures
        d.base == m.base,
        d.torque_current_raw == m.torque_current_raw,
{
    lemma_myactuator_arbitration_round_trip(m.base.arbitration_id);
    lemma_u16_le_round_trip(bits_of_i16(m.torque_current_raw));
    lemma_i16_bits_round_trip(m.torque_current_raw);
}

/// Reading back an encoded function-control command recovers node, function
/// and argument.
pub proof fn lemma_function_control_round_trip(m: FunctionControlCommand, d: FunctionControlCommand)
    requires
        m.wf(),
        d.spec_decoded(m.spec_frame()),
    ensures
        d.base == m.base,
        d.function == m.function,
        d.function_value == m.function_value,
{
    lemma_myactuator_arbitration_round_trip(m.base.arbitration_id);
    lemma_function_index_round_trip(m.function);
    lemma_u32_le_round_trip(bits_of_i32(m.function_value));
    lemma_i32_bits_round_trip(m.function_value);
}

/// Reading back an encoded speed command recovers node and speed.
pub proof fn lemma_speed_control_round_trip(m: SpeedControlCommand, d: SpeedControlCommand)
    requires
        m.wf(),
        d.spec_decoded(m.spec_frame()),
    ensures
        d.base == m.base,
        d.speed_raw == m.speed_raw,
{
    lemma_myactuator_arbitration_round_trip(m.base.arbitration_id);
    lemma_u32_le_round_trip(bits_of_i32(m.speed_raw));
    lemma_i32_bits_round_trip(m.speed_raw);
}

/// Reading back an encoded position command recovers node, position and
/// speed limit.
pub proof fn lemma_position_control_round_trip(
    m: PositionControlCommand,
    d: PositionControlCommand,
)
    requires
        m.wf(),
        d.spec_decoded(m.spec_frame()),
    ensures
        d.base == m.base,
        d.position_raw == m.position_raw,
        d.max_speed == m.max_speed,
{
    lemma_myactuator_arbitration_round_trip(m.base.arbitration_id);
    lemma_u16_le_round_trip(m.max_speed);
    lemma_u32_le_round_trip(bits_of_i32(m.position_raw));
    lemma_i32_bits_round_trip(m.position_raw);
}

/// Reading back an encoded incremental position command recovers node,
/// increment and speed limit.
pub proof fn lemma_incremental_position_control_round_trip(
    m: IncrementalPositionControlCommand,
    d: IncrementalPositionControlCommand,
)
    requires
        m.wf(),
        d.spec_decoded(m.spec_frame()),
    ensures
        d.base == m.base,
        d.position_increment_raw == m.position_increment_raw,
        d.max_speed == m.max_speed,
{
    lemma_myactuator_arbitration_round_trip(m.base.arbitration_id);
    lemma_u16_le_round_trip(m.max_speed);
    lemma_u32_le_round_trip(bits_of_i32(m.position_increment_raw));
    lemma_i32_bits_round_trip(m.position_increment_raw);
}

/// Reading back an encoded CANID command recovers the flag and, for ids in
/// the storable range, the id itself. The broadcast addressing carries no
/// node, so the node is not recovered.
pub proof fn lemma_canid_command_round_trip(m: CANIDCommand, d: CANIDCommand)
    requires
        m.wf(),
        1 <= m.can_id <= 32,
        d.spec_decoded(m.spec_frame()),
    ensures
        d.read_write_flag == m.read_write_flag,
        d.can_id == m.can_id,
{
}

} // verus!

//! Family-C message catalog: the arbitration value is the node id itself
//! for point-to-point traffic, while configuration exchanges share the
//! fixed id 0x7FF with selector bytes in the payload, and asynchronous
//! status replies carry their type code in the top three bits of payload
//! byte 0.
//!
//! Wire fields that the device scales to physical units are held as the
//! scaled integers themselves (`*_raw`); fields that travel as IEEE-754
//! words are held as their bit patterns (`*_bits`).

use vstd::prelude::*;

use vstd::arithmetic::div_mod::lemma_fundamental_div_mod;

use crate::bytes::{
    be64_byte, bits_of_i16, i16_from_bits, i16_of_bits, i16_to_bits, le32_byte,
    lemma_i16_bits_round_trip, lemma_u32_le_round_trip, lemma_u64_be_round_trip, u16_from_be,
    u16_of_be, u32_from_le, u32_le_part, u32_of_le, u64_be_part, u64_from_be_slice, u64_of_be,
};
use crate::enums::{spec_x424_error_of_value, X424MotorError};
use crate::messages::{
    spec_x424_config_id_reply_matches, spec_x424_config_matches, spec_x424_config_reply_matches,
    spec_x424_first_byte_matches,
    spec_x424_qa_type_matches, ArbitrationId, CanMessageTrait, FrameModel, MessageFilter,
    RawCanMessage, X424ArbitrationId,
};

verus! {

/// The high byte of a 16-bit node address on the wire.
pub open spec fn spec_node_hi(n: u32) -> u8 {
    ((n / 0x100) % 0x100) as u8
}

/// The low byte of a 16-bit node address on the wire.
pub open spec fn spec_node_lo(n: u32) -> u8 {
    (n % 0x100) as u8
}

fn node_hi(n: u32) -> (b: u8)
    ensures
        b == spec_node_hi(n),
{
    ((n / 0x100) % 0x100) as u8
}

fn node_lo(n: u32) -> (b: u8)
    ensures
        b == spec_node_lo(n),
{
    (n % 0x100) as u8
}

/// The magnitude of a 16-bit two's-complement value, read from its bits.
pub open spec fn spec_abs_of_bits16(u: u16) -> u16 {
    if u < 0x8000 {
        u
    } else {
        (0x1_0000 - u) as u16
    }
}

fn abs_of_bits16(u: u16) -> (r: u16)
    ensures
        r == spec_abs_of_bits16(u),
{
    if u < 0x8000 {
        u
    } else {
        ((0x1_0000u32 - u as u32)) as u16
    }
}

/// The communication mode of a family-C device: cyclic automatic reporting
/// or question-and-answer.
#[derive(Debug, Clone, Copy, PartialEq, Eq, Structural)]
pub enum X424CommunicationMode {
    Auto,
    Qa,
}

// ---------------------------------------------------------------------------
// Family base message
// ---------------------------------------------------------------------------

/// The family-C base message for point-to-point traffic: the arbitration
/// value is the node id itself.
#[derive(Debug, Clone)]
pub struct X424CanMessage {
    pub node_id: u32,
    pub arbitration_id: X424ArbitrationId,
}

impl X424CanMessage {
    pub open spec fn wf(self) -> bool {
        self.node_id == self.arbitration_id.node_id
    }

    pub open spec fn spec_new(node_id: u32, cmd_id: u32) -> Self {
        X424CanMessage { node_id, arbitration_id: X424ArbitrationId { node_id, cmd_id } }
    }

    /// The base of a message decoded from `m`, carrying this command id.
    pub open spec fn spec_base_decoded(self, m: FrameModel, cmd: u32) -> bool {
        self.node_id == m.arbitration_id && self.arbitration_id == (X424ArbitrationId {
            node_id: m.arbitration_id,
            cmd_id: cmd,
        })
    }

    pub fn new(node_id: u32, cmd_id: u32) -> (r: Self)
        ensures
            r == Self::spec_new(node_id, cmd_id),
    {
        let arbitration_id = X424ArbitrationId { node_id, cmd_id };
        Self { node_id, arbitration_id }
    }
}

impl CanMessageTrait for X424CanMessage {
    open spec fn spec_matches(m: FrameModel) -> bool {
        spec_x424_first_byte_matches(0, m)
    }

    open spec fn spec_frame(&self) -> FrameModel {
        FrameModel {
            arbitration_id: self.arbitration_id.node_id,
            data: Seq::empty(),
            is_extended_id: false,
        }
    }

    open spec fn spec_decoded(&self, m: FrameModel) -> bool {
        self.spec_base_decoded(
            m,
            if m.data.len() > 0 {
                m.data[0] as u32
            } else {
                0
            },
        )
    }

    fn cmd_id() -> (r: u32)
        ensures
            r == 0,
    {
        0
    }

    fn node_id(&self) -> (r: u32)
        ensures
            r == self.node_id,
    {
        self.node_id
    }

    fn matches(msg: &RawCanMessage) -> (r: bool) {
        MessageFilter::X424FirstByte(0).accepts(msg)
    }

    fn from_can_message(msg: RawCanMessage) -> (r: Self) {
        let arb = X424ArbitrationId::from_can_message(&msg);
        Self::new(arb.node_id, arb.cmd_id)
    }

    fn as_can_message(&self) -> (r: RawCanMessage) {
        let r = RawCanMessage {
            arbitration_id: self.arbitration_id.value(),
            data: self.gen_can_msg_data(),
            is_extended_id: false,
        };
        proof {
            assert(r@ =~= self.spec_frame());
        }
        r
    }

    open spec fn spec_arbitration(&self) -> ArbitrationId {
        ArbitrationId::X424(self.arbitration_id)
    }

    fn gen_arbitration_id(&self) -> (r: ArbitrationId)
        ensures
            r == ArbitrationId::X424(self.arbitration_id),
    {
        ArbitrationId::X424(self.arbitration_id)
    }

    fn gen_can_msg_data(&self) -> (r: Vec<u8>) {
        let r: Vec<u8> = Vec::new();
        proof {
            assert(r@ =~= self.spec_frame().data);
        }
        r
    }

    fn parse_can_msg_data(&mut self, msg: &RawCanMessage)
        ensures
            *final(self) == *old(self),
    {
    }

    fn message_filter() -> (f: MessageFilter) {
        MessageFilter::X424FirstByte(0)
    }
}

// ---------------------------------------------------------------------------
// Configuration exchange base (shared id 0x7FF)
// ---------------------------------------------------------------------------

/// The base of the configuration set-and-query exchange: all such frames
/// travel on the shared arbitration id 0x7FF with a selector in payload
/// byte 3.
#[derive(Debug, Clone)]
pub struct X424CanMessageSetAndQuery {
    pub base: X424CanMessage,
}

impl X424CanMessageSetAndQuery {
    pub open spec fn wf(self) -> bool {
        self.base.wf()
    }

    pub open spec fn spec_new(node_id: u32, cmd_id: u32) -> Self {
        X424CanMessageSetAndQuery { base: X424CanMessage::spec_new(node_id, cmd_id) }
    }

    pub fn new(node_id: u32, cmd_id: u32) -> (r: Self)
        ensures
            r == Self::spec_new(node_id, cmd_id),
    {
        Self { base: X424CanMessage::new(node_id, cmd_id) }
    }
}

impl CanMessageTrait for X424CanMessageSetAndQuery {
    open spec fn spec_matches(m: FrameModel) -> bool {
        spec_x424_config_matches(0, m)
    }

    open spec fn spec_frame(&self) -> FrameModel {
        FrameModel { arbitration_id: 0x7FF, data: Seq::empty(), is_extended_id: false }
    }

    open spec fn spec_decoded(&self, m: FrameModel) -> bool {
        self.base.spec_base_decoded(
            m,
            if m.data.len() > 0 {
                m.data[0] as u32
            } else {
                0
            },
        )
    }

    fn cmd_id() -> (r: u32)
        ensures
            r == 0,
    {
        0
    }

    fn node_id(&self) -> (r: u32)
        ensures
            r == self.base.node_id,
    {
        self.base.node_id
    }

    fn matches(msg: &RawCanMessage) -> (r: bool) {
        MessageFilter::X424Config(0).accepts(msg)
    }

    fn from_can_message(msg: RawCanMessage) -> (r: Self) {
        let arb = X424ArbitrationId::from_can_message(&msg);
        Self::new(arb.node_id, arb.cmd_id)
    }

    fn as_can_message(&self) -> (r: RawCanMessage) {
        let r = RawCanMessage {
            arbitration_id: 0x7FF,
            data: self.gen_can_msg_data(),
            is_extended_id: false,
        };
        proof {
            assert(r@ =~= self.spec_frame());
        }
        r
    }

    open spec fn spec_arbitration(&self) -> ArbitrationId {
        ArbitrationId::X424(self.base.arbitration_id)
    }

    fn gen_arbitration_id(&self) -> (r: ArbitrationId)
        ensures
            r == ArbitrationId::X424(self.base.arbitration_id),
    {
        ArbitrationId::X424(self.base.arbitration_id)
    }

    fn gen_can_msg_data(&self) -> (r: Vec<u8>) {
        let r: Vec<u8> = Vec::new();
        proof {
            assert(r@ =~= self.spec_frame().data);
        }
        r
    }

    fn parse_can_msg_data(&mut self, msg: &RawCanMessage)
        ensures
            *final(self) == *old(self),
    {
    }

    fn message_filter() -> (f: MessageFilter) {
        MessageFilter::X424Config(0)
    }
}

// ---------------------------------------------------------------------------
// Query communication mode (selector 0x81)
// ---------------------------------------------------------------------------

/// Query for the communication mode; the reply carries the mode in payload byte 3.
#[derive(Debug, Clone)]
pub struct QueryCommunicationModeMessage {
    pub base: X424CanMessageSetAndQuery,
    pub mode: Option<X424CommunicationMode>,
}

impl QueryCommunicationModeMessage {
    pub open spec fn wf(self) -> bool {
        self.base.wf() && self.base.base.arbitration_id.cmd_id == 0x81
    }

    /// The payload bytes this message encodes to.
    pub open spec fn spec_payload(self) -> Seq<u8> {
        seq![spec_node_hi(self.base.base.node_id), spec_node_lo(self.base.base.node_id),
            0u8, 0x81u8]
    }

    /// The payload fields as decoded from `d`.
    pub open spec fn spec_fields_decoded(self, pre: Self, d: Seq<u8>) -> bool {
        if d.len() >= 4 {
            self.mode == Some(
                if d[3] == 0x01 {
                    X424CommunicationMode::Auto
                } else {
                    X424CommunicationMode::Qa
                },
            )
        } else {
            self.mode == pre.mode
        }
    }

    pub open spec fn spec_new(node_id: u32) -> Self {
        QueryCommunicationModeMessage {
            base: X424CanMessageSetAndQuery::spec_new(node_id, 0x81),
            mode: None,
        }
    }

    pub fn new(node_id: u32) -> (r: Self)
        ensures
            r == Self::spec_new(node_id),
    {
        Self {
            base: X424CanMessageSetAndQuery::new(node_id, 0x81),
            mode: None,
        }
    }
}

impl CanMessageTrait for QueryCommunicationModeMessage {
    open spec fn spec_matches(m: FrameModel) -> bool {
        spec_x424_config_reply_matches(m)
    }

    open spec fn spec_frame(&self) -> FrameModel {
        FrameModel {
            arbitration_id: 0x7FF,
            data: self.spec_payload(),
            is_extended_id: false,
        }
    }

    open spec fn spec_decoded(&self, m: FrameModel) -> bool {
        self.base.base.spec_base_decoded(m, 0x81) && self.spec_fields_decoded(
            Self::spec_new(m.arbitration_id),
            m.data,
        )
    }

    fn cmd_id() -> (r: u32)
        ensures
            r == 0x81,
    {
        0x81
    }

    fn node_id(&self) -> (r: u32)
        ensures
            r == self.base.base.node_id,
    {
        self.base.base.node_id
    }

    fn matches(msg: &RawCanMessage) -> (r: bool) {
        MessageFilter::X424ConfigReply.accepts(msg)
    }

    fn from_can_message(msg: RawCanMessage) -> (r: Self) {
        let arb = X424ArbitrationId::from_can_message(&msg);
        let mut s = Self::new(arb.node_id);
        s.parse_can_msg_data(&msg);
        s
    }

    fn as_can_message(&self) -> (r: RawCanMessage) {
        let r = RawCanMessage {
            arbitration_id: 0x7FF,
            data: self.gen_can_msg_data(),
            is_extended_id: false,
        };
        proof {
            assert(r@ =~= self.spec_frame());
        }
        r
    }

    open spec fn spec_arbitration(&self) -> ArbitrationId {
        ArbitrationId::X424(self.base.base.arbitration_id)
    }

    fn gen_arbitration_id(&self) -> (r: ArbitrationId)
        ensures
            r == ArbitrationId::X424(self.base.base.arbitration_id),
    {
        ArbitrationId::X424(self.base.base.arbitration_id)
    }

    fn gen_can_msg_data(&self) -> (r: Vec<u8>) {
        let mut d: Vec<u8> = Vec::new();
        d.push(node_hi(self.base.base.node_id));
        d.push(node_lo(self.base.base.node_id));
        d.push(0x00);
        d.push(0x81);
        proof {
            assert(d@ =~= self.spec_payload());
        }
        d
    }

    fn parse_can_msg_data(&mut self, msg: &RawCanMessage)
        ensures
            final(self).base == old(self).base,
            final(self).spec_fields_decoded(*old(self), msg@.data),
    {
        if msg.data.len() >= 4 {
            self.mode = Some(
                if msg.data[3] == 0x01 {
                    X424CommunicationMode::Auto
                } else {
                    X424CommunicationMode::Qa
                },
            );
        }
    }

    fn message_filter() -> (f: MessageFilter) {
        MessageFilter::X424ConfigReply
    }
}


// ---------------------------------------------------------------------------
// Query CAN communication id (selector 0x82)
// ---------------------------------------------------------------------------

/// Broadcast query for the stored CAN id; the reply carries the id big-endian in payload bytes 3 and 4.
#[derive(Debug, Clone)]
pub struct QueryCANCommunicationIDMessage {
    pub base: X424CanMessageSetAndQuery,
}

impl QueryCANCommunicationIDMessage {
    pub open spec fn wf(self) -> bool {
        self.base.wf() && self.base.base.arbitration_id.cmd_id == 0x82
    }

    /// The payload bytes this message encodes to.
    pub open spec fn spec_payload(self) -> Seq<u8> {
        seq![0xFFu8, 0xFFu8, 0u8, 0x82u8]
    }

    /// The payload fields as decoded from `d`.
    pub open spec fn spec_fields_decoded(self, pre: Self, d: Seq<u8>) -> bool {
        true
    }

    pub open spec fn spec_new(node_id: u32) -> Self {
        QueryCANCommunicationIDMessage {
            base: X424CanMessageSetAndQuery::spec_new(node_id, 0x82),
        }
    }

    pub fn new(node_id: u32) -> (r: Self)
        ensures
            r == Self::spec_new(node_id),
    {
        Self {
            base: X424CanMessageSetAndQuery::new(node_id, 0x82),
        }
    }
}

impl CanMessageTrait for QueryCANCommunicationIDMessage {
    open spec fn spec_matches(m: FrameModel) -> bool {
        spec_x424_config_id_reply_matches(m)
    }

    open spec fn spec_frame(&self) -> FrameModel {
        FrameModel {
            arbitration_id: 0x7FF,
            data: self.spec_payload(),
            is_extended_id: false,
        }
    }

    open spec fn spec_decoded(&self, m: FrameModel) -> bool {
        if m.data.len() >= 5 && m.data[0] == 0xFF && m.data[2] == 0x01 {
            self.base.base.node_id == u16_of_be(m.data[3], m.data[4])
                && self.base.base.arbitration_id == (X424ArbitrationId {
                node_id: m.arbitration_id,
                cmd_id: 0x82,
            })
        } else {
            self.base.base.spec_base_decoded(m, 0x82)
        }
    }

    fn cmd_id() -> (r: u32)
        ensures
            r == 0x82,
    {
        0x82
    }

    fn node_id(&self) -> (r: u32)
        ensures
            r == self.base.base.node_id,
    {
        self.base.base.node_id
    }

    fn matches(msg: &RawCanMessage) -> (r: bool) {
        MessageFilter::X424ConfigIdReply.accepts(msg)
    }

    fn from_can_message(msg: RawCanMessage) -> (r: Self) {
        let arb = X424ArbitrationId::from_can_message(&msg);
        let mut s = Self::new(arb.node_id);
        s.parse_can_msg_data(&msg);
        s
    }

    fn as_can_message(&self) -> (r: RawCanMessage) {
        let r = RawCanMessage {
            arbitration_id: 0x7FF,
            data: self.gen_can_msg_data(),
            is_extended_id: false,
        };
        proof {
            assert(r@ =~= self.spec_frame());
        }
        r
    }

    open spec fn spec_arbitration(&self) -> ArbitrationId {
        ArbitrationId::X424(self.base.base.arbitration_id)
    }

    fn gen_arbitration_id(&self) -> (r: ArbitrationId)
        ensures
            r == ArbitrationId::X424(self.base.base.arbitration_id),
    {
        ArbitrationId::X424(self.base.base.arbitration_id)
    }

    fn gen_can_msg_data(&self) -> (r: Vec<u8>) {
        let mut d: Vec<u8> = Vec::new();
        d.push(0xFF);
        d.push(0xFF);
        d.push(0x00);
        d.push(0x82);
        proof {
            assert(d@ =~= self.spec_payload());
        }
        d
    }

    fn parse_can_msg_data(&mut self, msg: &RawCanMessage)
        ensures
            final(self).base.base.arbitration_id == old(self).base.base.arbitration_id,
            if msg@.data.len() >= 5 && msg@.data[0] == 0xFF && msg@.data[2] == 0x01 {
                final(self).base.base.node_id == u16_of_be(msg@.data[3], msg@.data[4])
            } else {
                final(self).base.base.node_id == old(self).base.base.node_id
            },
    {
        if msg.data.len() >= 5 && msg.data[0] == 0xFF && msg.data[2] == 0x01 {
            self.base.base.node_id = u16_from_be(msg.data[3], msg.data[4]) as u32;
        }
    }

    fn message_filter() -> (f: MessageFilter) {
        MessageFilter::X424ConfigIdReply
    }
}


// ---------------------------------------------------------------------------
// Set communication mode (selector 0x00)
// ---------------------------------------------------------------------------

/// Command switching a device between automatic reporting and question-and-answer mode.
#[derive(Debug, Clone)]
pub struct SetCommunicationModeMessage {
    pub base: X424CanMessageSetAndQuery,
    pub mode: X424CommunicationMode,
}

impl SetCommunicationModeMessage {
    pub open spec fn wf(self) -> bool {
        self.base.wf() && self.base.base.arbitration_id.cmd_id == 0x00
    }

    /// The payload bytes this message encodes to.
    pub open spec fn spec_payload(self) -> Seq<u8> {
        seq![spec_node_hi(self.base.base.node_id), spec_node_lo(self.base.base.node_id),
            0u8, if self.mode is Auto {
                0x01u8
            } else {
                0x02u8
            }]
    }

    /// The payload fields as decoded from `d`.
    pub open spec fn spec_fields_decoded(self, pre: Self, d: Seq<u8>) -> bool {
        if d.len() >= 4 {
            self.mode == (if d[3] == 0x01 {
                X424CommunicationMode::Auto
            } else {
                X424CommunicationMode::Qa
            })
        } else {
            self.mode == pre.mode
        }
    }

    pub open spec fn spec_new(node_id: u32, mode: X424CommunicationMode) -> Self {
        SetCommunicationModeMessage {
            base: X424CanMessageSetAndQuery::spec_new(node_id, 0x00),
            mode,
        }
    }

    pub fn new(node_id: u32, mode: X424CommunicationMode) -> (r: Self)
        ensures
            r == Self::spec_new(node_id, mode),
    {
        Self {
            base: X424CanMessageSetAndQuery::new(node_id, 0x00),
            mode,
        }
    }
}

impl CanMessageTrait for SetCommunicationModeMessage {
    open spec fn spec_matches(m: FrameModel) -> bool {
        spec_x424_config_matches(0, m)
    }

    open spec fn spec_frame(&self) -> FrameModel {
        FrameModel {
            arbitration_id: 0x7FF,
            data: self.spec_payload(),
            is_extended_id: false,
        }
    }

    open spec fn spec_decoded(&self, m: FrameModel) -> bool {
        self.base.base.node_id == m.arbitration_id && self.base.base.arbitration_id
            == (X424ArbitrationId { node_id: m.arbitration_id, cmd_id: 0x00 })
            && self.spec_fields_decoded(
            Self::spec_new(m.arbitration_id, X424CommunicationMode::Qa),
            m.data,
        )
    }

    fn cmd_id() -> (r: u32)
        ensures
            r == 0x00,
    {
        0x00
    }

    fn node_id(&self) -> (r: u32)
        ensures
            r == self.base.base.node_id,
    {
        self.base.base.node_id
    }

    fn matches(msg: &RawCanMessage) -> (r: bool) {
        MessageFilter::X424Config(0).accepts(msg)
    }

    fn from_can_message(msg: RawCanMessage) -> (r: Self) {
        let arb = X424ArbitrationId::from_can_message(&msg);
        let mut s = Self::new(arb.node_id, X424CommunicationMode::Qa);
        s.parse_can_msg_data(&msg);
        s
    }

    fn as_can_message(&self) -> (r: RawCanMessage) {
        let r = RawCanMessage {
            arbitration_id: 0x7FF,
            data: self.gen_can_msg_data(),
            is_extended_id: false,
        };
        proof {
            assert(r@ =~= self.spec_frame());
        }
        r
    }

    open spec fn spec_arbitration(&self) -> ArbitrationId {
        ArbitrationId::X424(self.base.base.arbitration_id)
    }

    fn gen_arbitration_id(&self) -> (r: ArbitrationId)
        ensures
            r == ArbitrationId::X424(self.base.base.arbitration_id),
    {
        ArbitrationId::X424(self.base.base.arbitration_id)
    }

    fn gen_can_msg_data(&self) -> (r: Vec<u8>) {
        let mut d: Vec<u8> = Vec::new();
        d.push(node_hi(self.base.base.node_id));
        d.push(node_lo(self.base.base.node_id));
        d.push(0x00);
        d.push(if matches!(self.mode, X424CommunicationMode::Auto) {
            0x01
        } else {
            0x02
        });
        proof {
            assert(d@ =~= self.spec_payload());
        }
        d
    }

    fn parse_can_msg_data(&mut self, msg: &RawCanMessage)
        ensures
            final(self).base.base.node_id == msg@.arbitration_id,
            final(self).base.base.arbitration_id == old(self).base.base.arbitration_id,
            final(self).spec_fields_decoded(*old(self), msg@.data),
    {
        self.base.base.node_id = msg.arbitration_id;
        if msg.data.len() >= 4 {
            self.mode = if msg.data[3] == 0x01 {
                X424CommunicationMode::Auto
            } else {
                X424CommunicationMode::Qa
            };
        }
    }

    fn message_filter() -> (f: MessageFilter) {
        MessageFilter::X424Config(0)
    }
}


// ---------------------------------------------------------------------------
// Set zero position (selector 0x03)
// ---------------------------------------------------------------------------

/// Command storing the current position as the zero point.
#[derive(Debug, Clone)]
pub struct SetZeroPositionMessage {
    pub base: X424CanMessageSetAndQuery,
}

impl SetZeroPositionMessage {
    pub open spec fn wf(self) -> bool {
        self.base.wf() && self.base.base.arbitration_id.cmd_id == 0x03
    }

    /// The payload bytes this message encodes to.
    pub open spec fn spec_payload(self) -> Seq<u8> {
        seq![spec_node_hi(self.base.base.node_id), spec_node_lo(self.base.base.node_id),
            0u8, 0x03u8]
    }

    /// The payload fields as decoded from `d`.
    pub open spec fn spec_fields_decoded(self, pre: Self, d: Seq<u8>) -> bool {
        true
    }

    pub open spec fn spec_new(node_id: u32) -> Self {
        SetZeroPositionMessage {
            base: X424CanMessageSetAndQuery::spec_new(node_id, 0x03),
        }
    }

    pub fn new(node_id: u32) -> (r: Self)
        ensures
            r == Self::spec_new(node_id),
    {
        Self {
            base: X424CanMessageSetAndQuery::new(node_id, 0x03),
        }
    }
}

impl CanMessageTrait for SetZeroPositionMessage {
    open spec fn spec_matches(m: FrameModel) -> bool {
        spec_x424_config_matches(0x03, m)
    }

    open spec fn spec_frame(&self) -> FrameModel {
        FrameModel {
            arbitration_id: 0x7FF,
            data: self.spec_payload(),
            is_extended_id: false,
        }
    }

    open spec fn spec_decoded(&self, m: FrameModel) -> bool {
        self.base.base.spec_base_decoded(m, 0x03)
    }

    fn cmd_id() -> (r: u32)
        ensures
            r == 0x03,
    {
        0x03
    }

    fn node_id(&self) -> (r: u32)
        ensures
            r == self.base.base.node_id,
    {
        self.base.base.node_id
    }

    fn matches(msg: &RawCanMessage) -> (r: bool) {
        MessageFilter::X424Config(0x03).accepts(msg)
    }

    fn from_can_message(msg: RawCanMessage) -> (r: Self) {
        let arb = X424ArbitrationId::from_can_message(&msg);
        let mut s = Self::new(arb.node_id);
        s.parse_can_msg_data(&msg);
        s
    }

    fn as_can_message(&self) -> (r: RawCanMessage) {
        let r = RawCanMessage {
            arbitration_id: 0x7FF,
            data: self.gen_can_msg_data(),
            is_extended_id: false,
        };
        proof {
            assert(r@ =~= self.spec_frame());
        }
        r
    }

    open spec fn spec_arbitration(&self) -> ArbitrationId {
        ArbitrationId::X424(self.base.base.arbitration_id)
    }

    fn gen_arbitration_id(&self) -> (r: ArbitrationId)
        ensures
            r == ArbitrationId::X424(self.base.base.arbitration_id),
    {
        ArbitrationId::X424(self.base.base.arbitration_id)
    }

    fn gen_can_msg_data(&self) -> (r: Vec<u8>) {
        let mut d: Vec<u8> = Vec::new();
        d.push(node_hi(self.base.base.node_id));
        d.push(node_lo(self.base.base.node_id));
        d.push(0x00);
        d.push(0x03);
        proof {
            assert(d@ =~= self.spec_payload());
        }
        d
    }

    fn parse_can_msg_data(&mut self, msg: &RawCanMessage)
        ensures
            *final(self) == *old(self),
    {
    }

    fn message_filter() -> (f: MessageFilter) {
        MessageFilter::X424Config(0x03)
    }
}


// ---------------------------------------------------------------------------
// Set motor id (selector 0x04)
// ---------------------------------------------------------------------------

/// Command changing the stored id of the motor at the current id.
#[derive(Debug, Clone)]
pub struct SetMotorIDMessage {
    pub base: X424CanMessageSetAndQuery,
    pub cur_node_id: u32,
    pub new_node_id: u32,
}

impl SetMotorIDMessage {
    pub open spec fn wf(self) -> bool {
        self.base.wf() && self.base.base.arbitration_id.cmd_id == 0x04
    }

    /// The payload bytes this message encodes to.
    pub open spec fn spec_payload(self) -> Seq<u8> {
        seq![spec_node_hi(self.cur_node_id), spec_node_lo(self.cur_node_id), 0u8, 0x04u8,
            spec_node_hi(self.new_node_id), spec_node_lo(self.new_node_id)]
    }

    /// The payload fields as decoded from `d`: both node addresses read
    /// back big-endian.
    pub open spec fn spec_fields_decoded(self, pre: Self, d: Seq<u8>) -> bool {
        if d.len() >= 6 {
            self.cur_node_id == u16_of_be(d[0], d[1]) && self.new_node_id == u16_of_be(d[4], d[5])
        } else {
            self.cur_node_id == pre.cur_node_id && self.new_node_id == pre.new_node_id
        }
    }

    pub open spec fn spec_new(node_id: u32, cur_node_id: u32, new_node_id: u32) -> Self {
        SetMotorIDMessage {
            base: X424CanMessageSetAndQuery::spec_new(node_id, 0x04),
            cur_node_id,
            new_node_id,
        }
    }

    pub fn new(node_id: u32, cur_node_id: u32, new_node_id: u32) -> (r: Self)
        ensures
            r == Self::spec_new(node_id, cur_node_id, new_node_id),
    {
        Self {
            base: X424CanMessageSetAndQuery::new(node_id, 0x04),
            cur_node_id,
            new_node_id,
        }
    }
}

impl CanMessageTrait for SetMotorIDMessage {
    open spec fn spec_matches(m: FrameModel) -> bool {
        spec_x424_config_matches(0x04, m)
    }

    open spec fn spec_frame(&self) -> FrameModel {
        FrameModel {
            arbitration_id: 0x7FF,
            data: self.spec_payload(),
            is_extended_id: false,
        }
    }

    open spec fn spec_decoded(&self, m: FrameModel) -> bool {
        self.base.base.spec_base_decoded(m, 0x04) && self.spec_fields_decoded(
            Self::spec_new(m.arbitration_id, 0, 0),
            m.data,
        )
    }

    fn cmd_id() -> (r: u32)
        ensures
            r == 0x04,
    {
        0x04
    }

    fn node_id(&self) -> (r: u32)
        ensures
            r == self.base.base.node_id,
    {
        self.base.base.node_id
    }

    fn matches(msg: &RawCanMessage) -> (r: bool) {
        MessageFilter::X424Config(0x04).accepts(msg)
    }

    fn from_can_message(msg: RawCanMessage) -> (r: Self) {
        let arb = X424ArbitrationId::from_can_message(&msg);
        let mut s = Self::new(arb.node_id, 0, 0);
        s.parse_can_msg_data(&msg);
        s
    }

    fn as_can_message(&self) -> (r: RawCanMessage) {
        let r = RawCanMessage {
            arbitration_id: 0x7FF,
            data: self.gen_can_msg_data(),
            is_extended_id: false,
        };
        proof {
            assert(r@ =~= self.spec_frame());
        }
        r
    }

    open spec fn spec_arbitration(&self) -> ArbitrationId {
        ArbitrationId::X424(self.base.base.arbitration_id)
    }

    fn gen_arbitration_id(&self) -> (r: ArbitrationId)
        ensures
            r == ArbitrationId::X424(self.base.base.arbitration_id),
    {
        ArbitrationId::X424(self.base.base.arbitration_id)
    }

    fn gen_can_msg_data(&self) -> (r: Vec<u8>) {
        let mut d: Vec<u8> = Vec::new();
        d.push(node_hi(self.cur_node_id));
        d.push(node_lo(self.cur_node_id));
        d.push(0x00);
        d.push(0x04);
        d.push(node_hi(self.new_node_id));
        d.push(node_lo(self.new_node_id));
        proof {
            assert(d@ =~= self.spec_payload());
        }
        d
    }

    fn parse_can_msg_data(&mut self, msg: &RawCanMessage)
        ensures
            final(self).base == old(self).base,
            final(self).spec_fields_decoded(*old(self), msg@.data),
    {
        if msg.data.len() >= 6 {
            self.cur_node_id = u16_from_be(msg.data[0], msg.data[1]) as u32;
            self.new_node_id = u16_from_be(msg.data[4], msg.data[5]) as u32;
        }
    }

    fn message_filter() -> (f: MessageFilter) {
        MessageFilter::X424Config(0x04)
    }
}


// ---------------------------------------------------------------------------
// Reset motor id (selector 0x05)
// ---------------------------------------------------------------------------

/// Broadcast command restoring the default stored id on every motor.
#[derive(Debug, Clone)]
pub struct ResetMotorIDMessage {
    pub base: X424CanMessageSetAndQuery,
}

impl ResetMotorIDMessage {
    pub open spec fn wf(self) -> bool {
        self.base.wf() && self.base.base.arbitration_id.cmd_id == 0x05
    }

    /// The payload bytes this message encodes to.
    pub open spec fn spec_payload(self) -> Seq<u8> {
        seq![0x7Fu8, 0x7Fu8, 0u8, 0x05u8, 0x7Fu8, 0x7Fu8]
    }

    /// The payload fields as decoded from `d`.
    pub open spec fn spec_fields_decoded(self, pre: Self, d: Seq<u8>) -> bool {
        true
    }

    pub open spec fn spec_new(node_id: u32) -> Self {
        ResetMotorIDMessage {
            base: X424CanMessageSetAndQuery::spec_new(node_id, 0x05),
        }
    }

    pub fn new(node_id: u32) -> (r: Self)
        ensures
            r == Self::spec_new(node_id),
    {
        Self {
            base: X424CanMessageSetAndQuery::new(node_id, 0x05),
        }
    }
}

impl CanMessageTrait for ResetMotorIDMessage {
    open spec fn spec_matches(m: FrameModel) -> bool {
        spec_x424_config_matches(0x05, m)
    }

    open spec fn spec_frame(&self) -> FrameModel {
        FrameModel {
            arbitration_id: 0x7FF,
            data: self.spec_payload(),
            is_extended_id: false,
        }
    }

    open spec fn spec_decoded(&self, m: FrameModel) -> bool {
        self.base.base.spec_base_decoded(m, 0x05)
    }

    fn cmd_id() -> (r: u32)
        ensures
            r == 0x05,
    {
        0x05
    }

    fn node_id(&self) -> (r: u32)
        ensures
            r == self.base.base.node_id,
    {
        self.base.base.node_id
    }

    fn matches(msg: &RawCanMessage) -> (r: bool) {
        MessageFilter::X424Config(0x05).accepts(msg)
    }

    fn from_can_message(msg: RawCanMessage) -> (r: Self) {
        let arb = X424ArbitrationId::from_can_message(&msg);
        let mut s = Self::new(arb.node_id);
        s.parse_can_msg_data(&msg);
        s
    }

    fn as_can_message(&self) -> (r: RawCanMessage) {
        let r = RawCanMessage {
            arbitration_id: 0x7FF,
            data: self.gen_can_msg_data(),
            is_extended_id: false,
        };
        proof {
            assert(r@ =~= self.spec_frame());
        }
        r
    }

    open spec fn spec_arbitration(&self) -> ArbitrationId {
        ArbitrationId::X424(self.base.base.arbitration_id)
    }

    fn gen_arbitration_id(&self) -> (r: ArbitrationId)
        ensures
            r == ArbitrationId::X424(self.base.base.arbitration_id),
    {
        ArbitrationId::X424(self.base.base.arbitration_id)
    }

    fn gen_can_msg_data(&self) -> (r: Vec<u8>) {
        let mut d: Vec<u8> = Vec::new();
        d.push(0x7F);
        d.push(0x7F);
        d.push(0x00);
        d.push(0x05);
        d.push(0x7F);
        d.push(0x7F);
        proof {
            assert(d@ =~= self.spec_payload());
        }
        d
    }

    fn parse_can_msg_data(&mut self, msg: &RawCanMessage)
        ensures
            *final(self) == *old(self),
    {
    }

    fn message_filter() -> (f: MessageFilter) {
        MessageFilter::X424Config(0x05)
    }
}

// ---------------------------------------------------------------------------
// Servo position control (type code 0x01)
// ---------------------------------------------------------------------------

/// Command moving the servo to a position (IEEE-754 bit pattern) under
/// speed and current limits, packed into one big-endian 64-bit word.
#[derive(Debug, Clone)]
pub struct X424ServoPositionControlMessage {
    pub base: X424CanMessage,
    pub position_bits: u32,
    pub speed: u16,
    pub current_limit_raw: u16,
    pub message_type: u32,
}

impl X424ServoPositionControlMessage {
    pub open spec fn wf(self) -> bool {
        self.base.wf() && self.base.arbitration_id.cmd_id == 0x01
    }

    /// The packed control word: type code, position bits, speed capped to
    /// 15 bits, current limit capped to 12 bits, and the message type.
    pub open spec fn spec_word(self) -> u64 {
        (0x2000_0000_0000_0000 + self.position_bits * 0x2000_0000 + (if self.speed > 0x7FFF {
            0x7FFFu16
        } else {
            self.speed
        }) * 0x4000 + (if self.current_limit_raw > 0xFFF {
            0xFFFu16
        } else {
            self.current_limit_raw
        }) * 4 + (self.message_type % 4)) as u64
    }

    /// The payload bytes this message encodes to.
    pub open spec fn spec_payload(self) -> Seq<u8> {
        seq![
            be64_byte(self.spec_word(), 0),
            be64_byte(self.spec_word(), 1),
            be64_byte(self.spec_word(), 2),
            be64_byte(self.spec_word(), 3),
            be64_byte(self.spec_word(), 4),
            be64_byte(self.spec_word(), 5),
            be64_byte(self.spec_word(), 6),
            be64_byte(self.spec_word(), 7),
        ]
    }

    /// The payload fields as decoded from `d`: the packed word read back
    /// as one big-endian 64-bit value and split by bit position.
    pub open spec fn spec_fields_decoded(self, pre: Self, d: Seq<u8>) -> bool {
        if d.len() >= 8 {
            let w = u64_of_be(d.subrange(0, 8));
            &&& self.position_bits == ((w / 0x2000_0000) % 0x1_0000_0000) as u32
            &&& self.speed == ((w / 0x4000) % 0x8000) as u16
            &&& self.current_limit_raw == ((w / 4) % 0x1000) as u16
            &&& self.message_type == (w % 4) as u32
        } else {
            &&& self.position_bits == pre.position_bits
            &&& self.speed == pre.speed
            &&& self.current_limit_raw == pre.current_limit_raw
            &&& self.message_type == pre.message_type
        }
    }

    pub open spec fn spec_new(
        node_id: u32,
        position_bits: u32,
        speed: u16,
        current_limit_raw: u16,
        message_type: u32,
    ) -> Self {
        X424ServoPositionControlMessage {
            base: X424CanMessage::spec_new(node_id, 0x01),
            position_bits,
            speed,
            current_limit_raw,
            message_type,
        }
    }

    pub fn new(
        node_id: u32,
        position_bits: u32,
        speed: u16,
        current_limit_raw: u16,
        message_type: u32,
    ) -> (r: Self)
        ensures
            r == Self::spec_new(node_id, position_bits, speed, current_limit_raw, message_type),
    {
        Self {
            base: X424CanMessage::new(node_id, 0x01),
            position_bits,
            speed,
            current_limit_raw,
            message_type,
        }
    }
}

impl CanMessageTrait for X424ServoPositionControlMessage {
    open spec fn spec_matches(m: FrameModel) -> bool {
        spec_x424_first_byte_matches(0, m)
    }

    open spec fn spec_frame(&self) -> FrameModel {
        FrameModel {
            arbitration_id: self.base.arbitration_id.node_id,
            data: self.spec_payload(),
            is_extended_id: false,
        }
    }

    open spec fn spec_decoded(&self, m: FrameModel) -> bool {
        self.base.spec_base_decoded(m, 0x01) && self.spec_fields_decoded(
            Self::spec_new(m.arbitration_id, 0, 0, 0, 0),
            m.data,
        )
    }

    fn cmd_id() -> (r: u32)
        ensures
            r == 0x01,
    {
        0x01
    }

    fn node_id(&self) -> (r: u32)
        ensures
            r == self.base.node_id,
    {
        self.base.node_id
    }

    fn matches(msg: &RawCanMessage) -> (r: bool) {
        MessageFilter::X424FirstByte(0).accepts(msg)
    }

    fn from_can_message(msg: RawCanMessage) -> (r: Self) {
        let arb = X424ArbitrationId::from_can_message(&msg);
        let mut s = Self::new(arb.node_id, 0, 0, 0, 0);
        s.parse_can_msg_data(&msg);
        s
    }

    fn as_can_message(&self) -> (r: RawCanMessage) {
        let r = RawCanMessage {
            arbitration_id: self.base.arbitration_id.value(),
            data: self.gen_can_msg_data(),
            is_extended_id: false,
        };
        proof {
            assert(r@ =~= self.spec_frame());
        }
        r
    }

    open spec fn spec_arbitration(&self) -> ArbitrationId {
        ArbitrationId::X424(self.base.arbitration_id)
    }

    fn gen_arbitration_id(&self) -> (r: ArbitrationId)
        ensures
            r == ArbitrationId::X424(self.base.arbitration_id),
    {
        ArbitrationId::X424(self.base.arbitration_id)
    }

    fn gen_can_msg_data(&self) -> (r: Vec<u8>) {
        let speed_capped: u16 = if self.speed > 0x7FFF {
            0x7FFF
        } else {
            self.speed
        };
        let current_capped: u16 = if self.current_limit_raw > 0xFFF {
            0xFFF
        } else {
            self.current_limit_raw
        };
        let word: u64 = 0x2000_0000_0000_0000u64 + (self.position_bits as u64) * 0x2000_0000u64
            + (speed_capped as u64) * 0x4000u64 + (current_capped as u64) * 4u64 + (
        self.message_type % 4) as u64;
        let mut d: Vec<u8> = Vec::new();
        d.push(u64_be_part(word, 0));
        d.push(u64_be_part(word, 1));
        d.push(u64_be_part(word, 2));
        d.push(u64_be_part(word, 3));
        d.push(u64_be_part(word, 4));
        d.push(u64_be_part(word, 5));
        d.push(u64_be_part(word, 6));
        d.push(u64_be_part(word, 7));
        proof {
            assert(d@ =~= self.spec_payload());
        }
        d
    }

    fn parse_can_msg_data(&mut self, msg: &RawCanMessage)
        ensures
            final(self).base == old(self).base,
            final(self).spec_fields_decoded(*old(self), msg@.data),
    {
        if msg.data.len() >= 8 {
            let w = u64_from_be_slice(vstd::slice::slice_subrange(msg.data.as_slice(), 0, 8));
            self.position_bits = ((w / 0x2000_0000) % 0x1_0000_0000) as u32;
            self.speed = ((w / 0x4000) % 0x8000) as u16;
            self.current_limit_raw = ((w / 4) % 0x1000) as u16;
            self.message_type = (w % 4) as u32;
        }
    }

    fn message_filter() -> (f: MessageFilter) {
        MessageFilter::X424FirstByte(0)
    }
}

// ---------------------------------------------------------------------------
// Servo speed control (type code 0x02)
// ---------------------------------------------------------------------------

/// Command driving the servo at a speed (IEEE-754 bit pattern) under a
/// current limit, packed into one big-endian 64-bit word.
#[derive(Debug, Clone)]
pub struct X424ServoSpeedControlMessage {
    pub base: X424CanMessage,
    pub speed_bits: u32,
    pub current_limit_raw: u16,
    pub message_type: u32,
}

impl X424ServoSpeedControlMessage {
    pub open spec fn wf(self) -> bool {
        self.base.wf() && self.base.arbitration_id.cmd_id == 0x02
    }

    /// The packed control word: type code, message type, speed bits and the
    /// current limit.
    pub open spec fn spec_word(self) -> u64 {
        (0x40_0000_0000_0000 + (self.message_type % 4) * 0x1_0000_0000_0000 + self.speed_bits
            * 0x1_0000 + self.current_limit_raw) as u64
    }

    /// The payload bytes this message encodes to.
    pub open spec fn spec_payload(self) -> Seq<u8> {
        seq![
            be64_byte(self.spec_word(), 0),
            be64_byte(self.spec_word(), 1),
            be64_byte(self.spec_word(), 2),
            be64_byte(self.spec_word(), 3),
            be64_byte(self.spec_word(), 4),
            be64_byte(self.spec_word(), 5),
            be64_byte(self.spec_word(), 6),
            be64_byte(self.spec_word(), 7),
        ]
    }

    /// The payload fields as decoded from `d`: the packed word read back
    /// as one big-endian 64-bit value and split by bit position.
    pub open spec fn spec_fields_decoded(self, pre: Self, d: Seq<u8>) -> bool {
        if d.len() >= 8 {
            let w = u64_of_be(d.subrange(0, 8));
            &&& self.speed_bits == ((w / 0x1_0000) % 0x1_0000_0000) as u32
            &&& self.current_limit_raw == (w % 0x1_0000) as u16
            &&& self.message_type == ((w / 0x1_0000_0000_0000) % 4) as u32
        } else {
            &&& self.speed_bits == pre.speed_bits
            &&& self.current_limit_raw == pre.current_limit_raw
            &&& self.message_type == pre.message_type
        }
    }

    pub open spec fn spec_new(
        node_id: u32,
        speed_bits: u32,
        current_limit_raw: u16,
        message_type: u32,
    ) -> Self {
        X424ServoSpeedControlMessage {
            base: X424CanMessage::spec_new(node_id, 0x02),
            speed_bits,
            current_limit_raw,
            message_type,
        }
    }

    pub fn new(node_id: u32, speed_bits: u32, current_limit_raw: u16, message_type: u32) -> (r:
        Self)
        ensures
            r == Self::spec_new(node_id, speed_bits, current_limit_raw, message_type),
    {
        Self {
            base: X424CanMessage::new(node_id, 0x02),
            speed_bits,
            current_limit_raw,
            message_type,
        }
    }
}

impl CanMessageTrait for X424ServoSpeedControlMessage {
    open spec fn spec_matches(m: FrameModel) -> bool {
        spec_x424_first_byte_matches(0, m)
    }

    open spec fn spec_frame(&self) -> FrameModel {
        FrameModel {
            arbitration_id: self.base.arbitration_id.node_id,
            data: self.spec_payload(),
            is_extended_id: false,
        }
    }

    open spec fn spec_decoded(&self, m: FrameModel) -> bool {
        self.base.spec_base_decoded(m, 0x02) && self.spec_fields_decoded(
            Self::spec_new(m.arbitration_id, 0, 0, 0),
            m.data,
        )
    }

    fn cmd_id() -> (r: u32)
        ensures
            r == 0x02,
    {
        0x02
    }

    fn node_id(&self) -> (r: u32)
        ensures
            r == self.base.node_id,
    {
        self.base.node_id
    }

    fn matches(msg: &RawCanMessage) -> (r: bool) {
        MessageFilter::X424FirstByte(0).accepts(msg)
    }

    fn from_can_message(msg: RawCanMessage) -> (r: Self) {
        let arb = X424ArbitrationId::from_can_message(&msg);
        let mut s = Self::new(arb.node_id, 0, 0, 0);
        s.parse_can_msg_data(&msg);
        s
    }

    fn as_can_message(&self) -> (r: RawCanMessage) {
        let r = RawCanMessage {
            arbitration_id: self.base.arbitration_id.value(),
            data: self.gen_can_msg_data(),
            is_extended_id: false,
        };
        proof {
            assert(r@ =~= self.spec_frame());
        }
        r
    }

    open spec fn spec_arbitration(&self) -> ArbitrationId {
        ArbitrationId::X424(self.base.arbitration_id)
    }

    fn gen_arbitration_id(&self) -> (r: ArbitrationId)
        ensures
            r == ArbitrationId::X424(self.base.arbitration_id),
    {
        ArbitrationId::X424(self.base.arbitration_id)
    }

    fn gen_can_msg_data(&self) -> (r: Vec<u8>) {
        let word: u64 = 0x40_0000_0000_0000u64 + ((self.message_type % 4) as u64)
            * 0x1_0000_0000_0000u64 + (self.speed_bits as u64) * 0x1_0000u64
            + self.current_limit_raw as u64;
        let mut d: Vec<u8> = Vec::new();
        d.push(u64_be_part(word, 0));
        d.push(u64_be_part(word, 1));
        d.push(u64_be_part(word, 2));
        d.push(u64_be_part(word, 3));
        d.push(u64_be_part(word, 4));
        d.push(u64_be_part(word, 5));
        d.push(u64_be_part(word, 6));
        d.push(u64_be_part(word, 7));
        proof {
            assert(d@ =~= self.spec_payload());
        }
        d
    }

    fn parse_can_msg_data(&mut self, msg: &RawCanMessage)
        ensures
            final(self).base == old(self).base,
            final(self).spec_fields_decoded(*old(self), msg@.data),
    {
        if msg.data.len() >= 8 {
            let w = u64_from_be_slice(vstd::slice::slice_subrange(msg.data.as_slice(), 0, 8));
            self.speed_bits = ((w / 0x1_0000) % 0x1_0000_0000) as u32;
            self.current_limit_raw = (w % 0x1_0000) as u16;
            self.message_type = ((w / 0x1_0000_0000_0000) % 4) as u32;
        }
    }

    fn message_filter() -> (f: MessageFilter) {
        MessageFilter::X424FirstByte(0)
    }
}

// ---------------------------------------------------------------------------
// Current control (type code 0x03)
// ---------------------------------------------------------------------------

/// Command driving the servo by current (0.01 A units), packed into a
/// 24-bit big-endian word.
#[derive(Debug, Clone)]
pub struct X424CurrentControlMessage {
    pub base: X424CanMessage,
    pub current_raw: i16,
    pub control_type: u32,
    pub message_type: u32,
}

impl X424CurrentControlMessage {
    pub open spec fn wf(self) -> bool {
        self.base.wf() && self.base.arbitration_id.cmd_id == 0x03
    }

    /// The packed control word: type code, control type, message type and
    /// the current in two's complement.
    pub open spec fn spec_word(self) -> u32 {
        (0x60_0000 + (self.control_type % 8) * 0x4_0000 + (self.message_type % 4) * 0x1_0000
            + bits_of_i16(self.current_raw)) as u32
    }

    /// The payload bytes this message encodes to: the low three bytes of
    /// the control word, highest first.
    pub open spec fn spec_payload(self) -> Seq<u8> {
        seq![le32_byte(self.spec_word(), 2), le32_byte(self.spec_word(), 1), le32_byte(
            self.spec_word(),
            0,
        )]
    }

    /// The payload fields as decoded from `d`: the three payload bytes
    /// read back as one big-endian 24-bit word and split by bit position.
    pub open spec fn spec_fields_decoded(self, pre: Self, d: Seq<u8>) -> bool {
        if d.len() >= 3 {
            let w = u32_of_le(d[2], d[1], d[0], 0);
            &&& self.current_raw == i16_of_bits((w % 0x1_0000) as u16)
            &&& self.control_type == ((w / 0x4_0000) % 8) as u32
            &&& self.message_type == ((w / 0x1_0000) % 4) as u32
        } else {
            &&& self.current_raw == pre.current_raw
            &&& self.control_type == pre.control_type
            &&& self.message_type == pre.message_type
        }
    }

    pub open spec fn spec_new(node_id: u32, current_raw: i16, control_type: u32, message_type: u32) -> Self {
        X424CurrentControlMessage {
            base: X424CanMessage::spec_new(node_id, 0x03),
            current_raw,
            control_type,
            message_type,
        }
    }

    pub fn new(node_id: u32, current_raw: i16, control_type: u32, message_type: u32) -> (r: Self)
        ensures
            r == Self::spec_new(node_id, current_raw, control_type, message_type),
    {
        Self {
            base: X424CanMessage::new(node_id, 0x03),
            current_raw,
            control_type,
            message_type,
        }
    }
}

impl CanMessageTrait for X424CurrentControlMessage {
    open spec fn spec_matches(m: FrameModel) -> bool {
        spec_x424_first_byte_matches(0, m)
    }

    open spec fn spec_frame(&self) -> FrameModel {
        FrameModel {
            arbitration_id: self.base.arbitration_id.node_id,
            data: self.spec_payload(),
            is_extended_id: false,
        }
    }

    open spec fn spec_decoded(&self, m: FrameModel) -> bool {
        self.base.spec_base_decoded(m, 0x03) && self.spec_fields_decoded(
            Self::spec_new(m.arbitration_id, 0, 0, 0),
            m.data,
        )
    }

    fn cmd_id() -> (r: u32)
        ensures
            r == 0x03,
    {
        0x03
    }

    fn node_id(&self) -> (r: u32)
        ensures
            r == self.base.node_id,
    {
        self.base.node_id
    }

    fn matches(msg: &RawCanMessage) -> (r: bool) {
        MessageFilter::X424FirstByte(0).accepts(msg)
    }

    fn from_can_message(msg: RawCanMessage) -> (r: Self) {
        let arb = X424ArbitrationId::from_can_message(&msg);
        let mut s = Self::new(arb.node_id, 0, 0, 0);
        s.parse_can_msg_data(&msg);
        s
    }

    fn as_can_message(&self) -> (r: RawCanMessage) {
        let r = RawCanMessage {
            arbitration_id: self.base.arbitration_id.value(),
            data: self.gen_can_msg_data(),
            is_extended_id: false,
        };
        proof {
            assert(r@ =~= self.spec_frame());
        }
        r
    }

    open spec fn spec_arbitration(&self) -> ArbitrationId {
        ArbitrationId::X424(self.base.arbitration_id)
    }

    fn gen_arbitration_id(&self) -> (r: ArbitrationId)
        ensures
            r == ArbitrationId::X424(self.base.arbitration_id),
    {
        ArbitrationId::X424(self.base.arbitration_id)
    }

    fn gen_can_msg_data(&self) -> (r: Vec<u8>) {
        let word: u32 = 0x60_0000u32 + (self.control_type % 8) * 0x4_0000u32 + (self.message_type
            % 4) * 0x1_0000u32 + i16_to_bits(self.current_raw) as u32;
        let mut d: Vec<u8> = Vec::new();
        d.push(u32_le_part(word, 2));
        d.push(u32_le_part(word, 1));
        d.push(u32_le_part(word, 0));
        proof {
            assert(d@ =~= self.spec_payload());
        }
        d
    }

    fn parse_can_msg_data(&mut self, msg: &RawCanMessage)
        ensures
            final(self).base == old(self).base,
            final(self).spec_fields_decoded(*old(self), msg@.data),
    {
        if msg.data.len() >= 3 {
            let w = u32_from_le(msg.data[2], msg.data[1], msg.data[0], 0);
            self.current_raw = i16_from_bits((w % 0x1_0000) as u16);
            self.control_type = ((w / 0x4_0000) % 8) as u32;
            self.message_type = ((w / 0x1_0000) % 4) as u32;
        }
    }

    fn message_filter() -> (f: MessageFilter) {
        MessageFilter::X424FirstByte(0)
    }
}

// ---------------------------------------------------------------------------
// Asynchronous status replies (type code in the top three bits of byte 0)
// ---------------------------------------------------------------------------

/// The generic status reply: carries the motor error code in the low five
/// bits of payload byte 0. Typed replies refine it by type code.
#[derive(Debug, Clone)]
pub struct QAReturnMessage {
    pub base: X424CanMessage,
    pub motor_error: X424MotorError,
}

impl QAReturnMessage {
    pub open spec fn wf(self) -> bool {
        self.base.wf() && self.base.arbitration_id.cmd_id == 0
    }

    /// The payload fields as decoded from `d`.
    pub open spec fn spec_fields_decoded(self, pre: Self, d: Seq<u8>) -> bool {
        if d.len() > 0 {
            self.motor_error == spec_x424_error_of_value((d[0] % 0x20) as u8)
        } else {
            self.motor_error == pre.motor_error
        }
    }

    pub open spec fn spec_new(node_id: u32) -> Self {
        QAReturnMessage {
            base: X424CanMessage::spec_new(node_id, 0),
            motor_error: X424MotorError::NoError,
        }
    }

    pub fn new(node_id: u32) -> (r: Self)
        ensures
            r == Self::spec_new(node_id),
    {
        Self { base: X424CanMessage::new(node_id, 0), motor_error: X424MotorError::NoError }
    }
}

impl CanMessageTrait for QAReturnMessage {
    open spec fn spec_matches(m: FrameModel) -> bool {
        spec_x424_qa_type_matches(0, m)
    }

    open spec fn spec_frame(&self) -> FrameModel {
        FrameModel {
            arbitration_id: self.base.arbitration_id.node_id,
            data: Seq::empty(),
            is_extended_id: false,
        }
    }

    open spec fn spec_decoded(&self, m: FrameModel) -> bool {
        self.base.spec_base_decoded(m, 0) && self.spec_fields_decoded(
            Self::spec_new(m.arbitration_id),
            m.data,
        )
    }

    fn cmd_id() -> (r: u32)
        ensures
            r == 0,
    {
        0
    }

    fn node_id(&self) -> (r: u32)
        ensures
            r == self.base.node_id,
    {
        self.base.node_id
    }

    fn matches(msg: &RawCanMessage) -> (r: bool) {
        MessageFilter::X424QaType(0).accepts(msg)
    }

    fn from_can_message(msg: RawCanMessage) -> (r: Self) {
        let arb = X424ArbitrationId::from_can_message(&msg);
        let mut s = Self::new(arb.node_id);
        s.parse_can_msg_data(&msg);
        s
    }

    fn as_can_message(&self) -> (r: RawCanMessage) {
        let r = RawCanMessage {
            arbitration_id: self.base.arbitration_id.value(),
            data: self.gen_can_msg_data(),
            is_extended_id: false,
        };
        proof {
            assert(r@ =~= self.spec_frame());
        }
        r
    }

    open spec fn spec_arbitration(&self) -> ArbitrationId {
        ArbitrationId::X424(self.base.arbitration_id)
    }

    fn gen_arbitration_id(&self) -> (r: ArbitrationId)
        ensures
            r == ArbitrationId::X424(self.base.arbitration_id),
    {
        ArbitrationId::X424(self.base.arbitration_id)
    }

    fn gen_can_msg_data(&self) -> (r: Vec<u8>) {
        let r: Vec<u8> = Vec::new();
        proof {
            assert(r@ =~= self.spec_frame().data);
        }
        r
    }

    fn parse_can_msg_data(&mut self, msg: &RawCanMessage)
        ensures
            final(self).base == old(self).base,
            final(self).spec_fields_decoded(*old(self), msg@.data),
    {
        if msg.data.len() > 0 {
            self.motor_error = X424MotorError::from_value(msg.data[0] % 0x20);
        }
    }

    fn message_filter() -> (f: MessageFilter) {
        MessageFilter::X424QaType(0)
    }
}

/// Status reply type 1: packed position, speed, current and temperatures
/// in one big-endian 64-bit word.
#[derive(Debug, Clone)]
pub struct QAReturnMessageType1 {
    pub base: QAReturnMessage,
    pub position_raw: u16,
    pub speed_raw: u16,
    pub current_raw: u16,
    pub motor_temp_raw: u8,
    pub mos_temp_raw: u8,
}

impl QAReturnMessageType1 {
    pub open spec fn wf(self) -> bool {
        self.base.base.wf() && self.base.base.arbitration_id.cmd_id == 0x01
    }

    /// The payload fields as decoded from `d`: the reply is exactly eight
    /// bytes, read as one big-endian word and split by bit position.
    pub open spec fn spec_fields_decoded(self, pre: Self, d: Seq<u8>) -> bool {
        if d.len() == 8 {
            let w = u64_of_be(d);
            &&& self.position_raw == ((w / 0x100_0000_0000) % 0x1_0000) as u16
            &&& self.speed_raw == ((w / 0x1000_0000) % 0x1000) as u16
            &&& self.current_raw == ((w / 0x1_0000) % 0x1000) as u16
            &&& self.motor_temp_raw == ((w / 0x100) % 0x100) as u8
            &&& self.mos_temp_raw == (w % 0x100) as u8
        } else {
            &&& self.position_raw == pre.position_raw
            &&& self.speed_raw == pre.speed_raw
            &&& self.current_raw == pre.current_raw
            &&& self.motor_temp_raw == pre.motor_temp_raw
            &&& self.mos_temp_raw == pre.mos_temp_raw
        }
    }

    pub open spec fn spec_new(node_id: u32) -> Self {
        QAReturnMessageType1 {
            base: QAReturnMessage {
                base: X424CanMessage::spec_new(node_id, 0x01),
                motor_error: X424MotorError::NoError,
            },
            position_raw: 0,
            speed_raw: 0,
            current_raw: 0,
            motor_temp_raw: 0,
            mos_temp_raw: 0,
        }
    }

    pub fn new(node_id: u32) -> (r: Self)
        ensures
            r == Self::spec_new(node_id),
    {
        Self {
            base: QAReturnMessage {
                base: X424CanMessage::new(node_id, 0x01),
                motor_error: X424MotorError::NoError,
            },
            position_raw: 0,
            speed_raw: 0,
            current_raw: 0,
            motor_temp_raw: 0,
            mos_temp_raw: 0,
        }
    }
}

impl CanMessageTrait for QAReturnMessageType1 {
    open spec fn spec_matches(m: FrameModel) -> bool {
        spec_x424_qa_type_matches(0x01, m)
    }

    open spec fn spec_frame(&self) -> FrameModel {
        FrameModel {
            arbitration_id: self.base.base.arbitration_id.node_id,
            data: Seq::empty(),
            is_extended_id: false,
        }
    }

    open spec fn spec_decoded(&self, m: FrameModel) -> bool {
        self.base.base.spec_base_decoded(m, 0x01) && self.base.motor_error
            == X424MotorError::NoError && self.spec_fields_decoded(
            Self::spec_new(m.arbitration_id),
            m.data,
        )
    }

    fn cmd_id() -> (r: u32)
        ensures
            r == 0x01,
    {
        0x01
    }

    fn node_id(&self) -> (r: u32)
        ensures
            r == self.base.base.node_id,
    {
        self.base.base.node_id
    }

    fn matches(msg: &RawCanMessage) -> (r: bool) {
        MessageFilter::X424QaType(0x01).accepts(msg)
    }

    fn from_can_message(msg: RawCanMessage) -> (r: Self) {
        let arb = X424ArbitrationId::from_can_message(&msg);
        let mut s = Self::new(arb.node_id);
        s.parse_can_msg_data(&msg);
        s
    }

    fn as_can_message(&self) -> (r: RawCanMessage) {
        let r = RawCanMessage {
            arbitration_id: self.base.base.arbitration_id.value(),
            data: self.gen_can_msg_data(),
            is_extended_id: false,
        };
        proof {
            assert(r@ =~= self.spec_frame());
        }
        r
    }

    open spec fn spec_arbitration(&self) -> ArbitrationId {
        ArbitrationId::X424(self.base.base.arbitration_id)
    }

    fn gen_arbitration_id(&self) -> (r: ArbitrationId)
        ensures
            r == ArbitrationId::X424(self.base.base.arbitration_id),
    {
        ArbitrationId::X424(self.base.base.arbitration_id)
    }

    fn gen_can_msg_data(&self) -> (r: Vec<u8>) {
        let r: Vec<u8> = Vec::new();
        proof {
            assert(r@ =~= self.spec_frame().data);
        }
        r
    }

    fn parse_can_msg_data(&mut self, msg: &RawCanMessage)
        ensures
            final(self).base == old(self).base,
            final(self).spec_fields_decoded(*old(self), msg@.data),
    {
        if msg.data.len() == 8 {
            let w = u64_from_be_slice(msg.data.as_slice());
            self.position_raw = ((w / 0x100_0000_0000) % 0x1_0000) as u16;
            self.speed_raw = ((w / 0x1000_0000) % 0x1000) as u16;
            self.current_raw = ((w / 0x1_0000) % 0x1000) as u16;
            self.motor_temp_raw = ((w / 0x100) % 0x100) as u8;
            self.mos_temp_raw = (w % 0x100) as u8;
        }
    }

    fn message_filter() -> (f: MessageFilter) {
        MessageFilter::X424QaType(0x01)
    }
}

/// Status reply type 2: the position as an IEEE-754 bit pattern, the current
/// magnitude (0.01 A units) and the motor temperature.
#[derive(Debug, Clone)]
pub struct QAReturnMessageType2 {
    pub base: QAReturnMessage,
    pub position_bits: u32,
    pub current_raw: u16,
    pub motor_temp_raw: u8,
}

impl QAReturnMessageType2 {
    pub open spec fn wf(self) -> bool {
        self.base.base.wf() && self.base.base.arbitration_id.cmd_id == 0x02
    }

    /// The payload fields as decoded from `d`.
    pub open spec fn spec_fields_decoded(self, pre: Self, d: Seq<u8>) -> bool {
        if d.len() >= 8 {
            &&& self.position_bits == u32_of_le(d[1], d[2], d[3], d[4])
            &&& self.current_raw == spec_abs_of_bits16(u16_of_be(d[5], d[6]))
            &&& self.motor_temp_raw == d[7]
        } else {
            &&& self.position_bits == pre.position_bits
            &&& self.current_raw == pre.current_raw
            &&& self.motor_temp_raw == pre.motor_temp_raw
        }
    }

    pub open spec fn spec_new(node_id: u32) -> Self {
        QAReturnMessageType2 {
            base: QAReturnMessage {
                base: X424CanMessage::spec_new(node_id, 0x02),
                motor_error: X424MotorError::NoError,
            },
            position_bits: 0,
            current_raw: 0,
            motor_temp_raw: 0,
        }
    }

    pub fn new(node_id: u32) -> (r: Self)
        ensures
            r == Self::spec_new(node_id),
    {
        Self {
            base: QAReturnMessage {
                base: X424CanMessage::new(node_id, 0x02),
                motor_error: X424MotorError::NoError,
            },
            position_bits: 0,
            current_raw: 0,
            motor_temp_raw: 0,
        }
    }
}

impl CanMessageTrait for QAReturnMessageType2 {
    open spec fn spec_matches(m: FrameModel) -> bool {
        spec_x424_qa_type_matches(0x02, m)
    }

    open spec fn spec_frame(&self) -> FrameModel {
        FrameModel {
            arbitration_id: self.base.base.arbitration_id.node_id,
            data: Seq::empty(),
            is_extended_id: false,
        }
    }

    open spec fn spec_decoded(&self, m: FrameModel) -> bool {
        self.base.base.spec_base_decoded(m, 0x02) && self.base.motor_error
            == X424MotorError::NoError && self.spec_fields_decoded(
            Self::spec_new(m.arbitration_id),
            m.data,
        )
    }

    fn cmd_id() -> (r: u32)
        ensures
            r == 0x02,
    {
        0x02
    }

    fn node_id(&self) -> (r: u32)
        ensures
            r == self.base.base.node_id,
    {
        self.base.base.node_id
    }

    fn matches(msg: &RawCanMessage) -> (r: bool) {
        MessageFilter::X424QaType(0x02).accepts(msg)
    }

    fn from_can_message(msg: RawCanMessage) -> (r: Self) {
        let arb = X424ArbitrationId::from_can_message(&msg);
        let mut s = Self::new(arb.node_id);
        s.parse_can_msg_data(&msg);
        s
    }

    fn as_can_message(&self) -> (r: RawCanMessage) {
        let r = RawCanMessage {
            arbitration_id: self.base.base.arbitration_id.value(),
            data: self.gen_can_msg_data(),
            is_extended_id: false,
        };
        proof {
            assert(r@ =~= self.spec_frame());
        }
        r
    }

    open spec fn spec_arbitration(&self) -> ArbitrationId {
        ArbitrationId::X424(self.base.base.arbitration_id)
    }

    fn gen_arbitration_id(&self) -> (r: ArbitrationId)
        ensures
            r == ArbitrationId::X424(self.base.base.arbitration_id),
    {
        ArbitrationId::X424(self.base.base.arbitration_id)
    }

    fn gen_can_msg_data(&self) -> (r: Vec<u8>) {
        let r: Vec<u8> = Vec::new();
        proof {
            assert(r@ =~= self.spec_frame().data);
        }
        r
    }

    fn parse_can_msg_data(&mut self, msg: &RawCanMessage)
        ensures
            final(self).base == old(self).base,
            final(self).spec_fields_decoded(*old(self), msg@.data),
    {
        if msg.data.len() >= 8 {
            self.position_bits = u32_from_le(msg.data[1], msg.data[2], msg.data[3], msg.data[4]);
            self.current_raw = abs_of_bits16(u16_from_be(msg.data[5], msg.data[6]));
            self.motor_temp_raw = msg.data[7];
        }
    }

    fn message_filter() -> (f: MessageFilter) {
        MessageFilter::X424QaType(0x02)
    }
}


/// Status reply type 3: the speed as an IEEE-754 bit pattern, the current
/// magnitude (0.01 A units) and the motor temperature.
#[derive(Debug, Clone)]
pub struct QAReturnMessageType3 {
    pub base: QAReturnMessage,
    pub speed_bits: u32,
    pub current_raw: u16,
    pub motor_temp_raw: u8,
}

impl QAReturnMessageType3 {
    pub open spec fn wf(self) -> bool {
        self.base.base.wf() && self.base.base.arbitration_id.cmd_id == 0x03
    }

    /// The payload fields as decoded from `d`.
    pub open spec fn spec_fields_decoded(self, pre: Self, d: Seq<u8>) -> bool {
        if d.len() >= 8 {
            &&& self.speed_bits == u32_of_le(d[1], d[2], d[3], d[4])
            &&& self.current_raw == spec_abs_of_bits16(u16_of_be(d[5], d[6]))
            &&& self.motor_temp_raw == d[7]
        } else {
            &&& self.speed_bits == pre.speed_bits
            &&& self.current_raw == pre.current_raw
            &&& self.motor_temp_raw == pre.motor_temp_raw
        }
    }

    pub open spec fn spec_new(node_id: u32) -> Self {
        QAReturnMessageType3 {
            base: QAReturnMessage {
                base: X424CanMessage::spec_new(node_id, 0x03),
                motor_error: X424MotorError::NoError,
            },
            speed_bits: 0,
            current_raw: 0,
            motor_temp_raw: 0,
        }
    }

    pub fn new(node_id: u32) -> (r: Self)
        ensures
            r == Self::spec_new(node_id),
    {
        Self {
            base: QAReturnMessage {
                base: X424CanMessage::new(node_id, 0x03),
                motor_error: X424MotorError::NoError,
            },
            speed_bits: 0,
            current_raw: 0,
            motor_temp_raw: 0,
        }
    }
}

impl CanMessageTrait for QAReturnMessageType3 {
    open spec fn spec_matches(m: FrameModel) -> bool {
        spec_x424_qa_type_matches(0x03, m)
    }

    open spec fn spec_frame(&self) -> FrameModel {
        FrameModel {
            arbitration_id: self.base.base.arbitration_id.node_id,
            data: Seq::empty(),
            is_extended_id: false,
        }
    }

    open spec fn spec_decoded(&self, m: FrameModel) -> bool {
        self.base.base.spec_base_decoded(m, 0x03) && self.base.motor_error
            == X424MotorError::NoError && self.spec_fields_decoded(
            Self::spec_new(m.arbitration_id),
            m.data,
        )
    }

    fn cmd_id() -> (r: u32)
        ensures
            r == 0x03,
    {
        0x03
    }

    fn node_id(&self) -> (r: u32)
        ensures
            r == self.base.base.node_id,
    {
        self.base.base.node_id
    }

    fn matches(msg: &RawCanMessage) -> (r: bool) {
        MessageFilter::X424QaType(0x03).accepts(msg)
    }

    fn from_can_message(msg: RawCanMessage) -> (r: Self) {
        let arb = X424ArbitrationId::from_can_message(&msg);
        let mut s = Self::new(arb.node_id);
        s.parse_can_msg_data(&msg);
        s
    }

    fn as_can_message(&self) -> (r: RawCanMessage) {
        let r = RawCanMessage {
            arbitration_id: self.base.base.arbitration_id.value(),
            data: self.gen_can_msg_data(),
            is_extended_id: false,
        };
        proof {
            assert(r@ =~= self.spec_frame());
        }
        r
    }

    open spec fn spec_arbitration(&self) -> ArbitrationId {
        ArbitrationId::X424(self.base.base.arbitration_id)
    }

    fn gen_arbitration_id(&self) -> (r: ArbitrationId)
        ensures
            r == ArbitrationId::X424(self.base.base.arbitration_id),
    {
        ArbitrationId::X424(self.base.base.arbitration_id)
    }

    fn gen_can_msg_data(&self) -> (r: Vec<u8>) {
        let r: Vec<u8> = Vec::new();
        proof {
            assert(r@ =~= self.spec_frame().data);
        }
        r
    }

    fn parse_can_msg_data(&mut self, msg: &RawCanMessage)
        ensures
            final(self).base == old(self).base,
            final(self).spec_fields_decoded(*old(self), msg@.data),
    {
        if msg.data.len() >= 8 {
            self.speed_bits = u32_from_le(msg.data[1], msg.data[2], msg.data[3], msg.data[4]);
            self.current_raw = abs_of_bits16(u16_from_be(msg.data[5], msg.data[6]));
            self.motor_temp_raw = msg.data[7];
        }
    }

    fn message_filter() -> (f: MessageFilter) {
        MessageFilter::X424QaType(0x03)
    }
}


/// Status reply type 4: acknowledges a configuration command with its code
/// and a success flag.
#[derive(Debug, Clone)]
pub struct QAReturnMessageType4 {
    pub base: X424CanMessage,
    pub config_code: u8,
    pub config_status: bool,
}

impl QAReturnMessageType4 {
    pub open spec fn wf(self) -> bool {
        self.base.wf() && self.base.arbitration_id.cmd_id == 0x04
    }

    /// The payload fields as decoded from `d`.
    pub open spec fn spec_fields_decoded(self, pre: Self, d: Seq<u8>) -> bool {
        if d.len() >= 3 {
            self.config_code == d[1] && self.config_status == (d[2] == 1)
        } else {
            self.config_code == pre.config_code && self.config_status == pre.config_status
        }
    }

    pub open spec fn spec_new(node_id: u32) -> Self {
        QAReturnMessageType4 {
            base: X424CanMessage::spec_new(node_id, 0x04),
            config_code: 0,
            config_status: false,
        }
    }

    pub fn new(node_id: u32) -> (r: Self)
        ensures
            r == Self::spec_new(node_id),
    {
        Self { base: X424CanMessage::new(node_id, 0x04), config_code: 0, config_status: false }
    }
}

impl CanMessageTrait for QAReturnMessageType4 {
    open spec fn spec_matches(m: FrameModel) -> bool {
        spec_x424_qa_type_matches(0x04, m)
    }

    open spec fn spec_frame(&self) -> FrameModel {
        FrameModel {
            arbitration_id: self.base.arbitration_id.node_id,
            data: Seq::empty(),
            is_extended_id: false,
        }
    }

    open spec fn spec_decoded(&self, m: FrameModel) -> bool {
        self.base.spec_base_decoded(m, 0x04) && self.spec_fields_decoded(
            Self::spec_new(m.arbitration_id),
            m.data,
        )
    }

    fn cmd_id() -> (r: u32)
        ensures
            r == 0x04,
    {
        0x04
    }

    fn node_id(&self) -> (r: u32)
        ensures
            r == self.base.node_id,
    {
        self.base.node_id
    }

    fn matches(msg: &RawCanMessage) -> (r: bool) {
        MessageFilter::X424QaType(0x04).accepts(msg)
    }

    fn from_can_message(msg: RawCanMessage) -> (r: Self) {
        let arb = X424ArbitrationId::from_can_message(&msg);
        let mut s = Self::new(arb.node_id);
        s.parse_can_msg_data(&msg);
        s
    }

    fn as_can_message(&self) -> (r: RawCanMessage) {
        let r = RawCanMessage {
            arbitration_id: self.base.arbitration_id.value(),
            data: self.gen_can_msg_data(),
            is_extended_id: false,
        };
        proof {
            assert(r@ =~= self.spec_frame());
        }
        r
    }

    open spec fn spec_arbitration(&self) -> ArbitrationId {
        ArbitrationId::X424(self.base.arbitration_id)
    }

    fn gen_arbitration_id(&self) -> (r: ArbitrationId)
        ensures
            r == ArbitrationId::X424(self.base.arbitration_id),
    {
        ArbitrationId::X424(self.base.arbitration_id)
    }

    fn gen_can_msg_data(&self) -> (r: Vec<u8>) {
        let r: Vec<u8> = Vec::new();
        proof {
            assert(r@ =~= self.spec_frame().data);
        }
        r
    }

    fn parse_can_msg_data(&mut self, msg: &RawCanMessage)
        ensures
            final(self).base == old(self).base,
            final(self).spec_fields_decoded(*old(self), msg@.data),
    {
        if msg.data.len() >= 3 {
            self.config_code = msg.data[1];
            self.config_status = msg.data[2] == 1;
        }
    }

    fn message_filter() -> (f: MessageFilter) {
        MessageFilter::X424QaType(0x04)
    }
}

/// Status reply type 5: one queried quantity, selected by the query code:
/// a 32-bit value (IEEE-754 bit pattern) for codes 1 to 4, a 16-bit value
/// for codes 5 to 9.
#[derive(Debug, Clone)]
pub struct QAReturnMessageType5 {
    pub base: X424CanMessage,
    pub query_code: u8,
    pub position_bits: u32,
    pub speed_bits: u32,
    pub current_bits: u32,
    pub power_bits: u32,
    pub uint16_value: u16,
}

impl QAReturnMessageType5 {
    pub open spec fn wf(self) -> bool {
        self.base.wf() && self.base.arbitration_id.cmd_id == 0x05
    }

    /// The payload fields as decoded from `d`: the query code selects which
    /// single field is filled in.
    pub open spec fn spec_fields_decoded(self, pre: Self, d: Seq<u8>) -> bool {
        if d.len() >= 3 {
            let qc = d[1];
            &&& self.query_code == qc
            &&& self.position_bits == (if qc == 1 && d.len() >= 6 {
                u32_of_le(d[2], d[3], d[4], d[5])
            } else {
                pre.position_bits
            })
            &&& self.speed_bits == (if qc == 2 && d.len() >= 6 {
                u32_of_le(d[2], d[3], d[4], d[5])
            } else {
                pre.speed_bits
            })
            &&& self.current_bits == (if qc == 3 && d.len() >= 6 {
                u32_of_le(d[2], d[3], d[4], d[5])
            } else {
                pre.current_bits
            })
            &&& self.power_bits == (if qc == 4 && d.len() >= 6 {
                u32_of_le(d[2], d[3], d[4], d[5])
            } else {
                pre.power_bits
            })
            &&& self.uint16_value == (if 5 <= qc <= 9 && d.len() >= 4 {
                u16_of_be(d[2], d[3])
            } else {
                pre.uint16_value
            })
        } else {
            &&& self.query_code == pre.query_code
            &&& self.position_bits == pre.position_bits
            &&& self.speed_bits == pre.speed_bits
            &&& self.current_bits == pre.current_bits
            &&& self.power_bits == pre.power_bits
            &&& self.uint16_value == pre.uint16_value
        }
    }

    pub open spec fn spec_new(node_id: u32) -> Self {
        QAReturnMessageType5 {
            base: X424CanMessage::spec_new(node_id, 0x05),
            query_code: 0,
            position_bits: 0,
            speed_bits: 0,
            current_bits: 0,
            power_bits: 0,
            uint16_value: 0,
        }
    }

    pub fn new(node_id: u32) -> (r: Self)
        ensures
            r == Self::spec_new(node_id),
    {
        Self {
            base: X424CanMessage::new(node_id, 0x05),
            query_code: 0,
            position_bits: 0,
            speed_bits: 0,
            current_bits: 0,
            power_bits: 0,
            uint16_value: 0,
        }
    }
}

impl CanMessageTrait for QAReturnMessageType5 {
    open spec fn spec_matches(m: FrameModel) -> bool {
        spec_x424_qa_type_matches(0x05, m)
    }

    open spec fn spec_frame(&self) -> FrameModel {
        FrameModel {
            arbitration_id: self.base.arbitration_id.node_id,
            data: Seq::empty(),
            is_extended_id: false,
        }
    }

    open spec fn spec_decoded(&self, m: FrameModel) -> bool {
        self.base.spec_base_decoded(m, 0x05) && self.spec_fields_decoded(
            Self::spec_new(m.arbitration_id),
            m.data,
        )
    }

    fn cmd_id() -> (r: u32)
        ensures
            r == 0x05,
    {
        0x05
    }

    fn node_id(&self) -> (r: u32)
        ensures
            r == self.base.node_id,
    {
        self.base.node_id
    }

    fn matches(msg: &RawCanMessage) -> (r: bool) {
        MessageFilter::X424QaType(0x05).accepts(msg)
    }

    fn from_can_message(msg: RawCanMessage) -> (r: Self) {
        let arb = X424ArbitrationId::from_can_message(&msg);
        let mut s = Self::new(arb.node_id);
        s.parse_can_msg_data(&msg);
        s
    }

    fn as_can_message(&self) -> (r: RawCanMessage) {
        let r = RawCanMessage {
            arbitration_id: self.base.arbitration_id.value(),
            data: self.gen_can_msg_data(),
            is_extended_id: false,
        };
        proof {
            assert(r@ =~= self.spec_frame());
        }
        r
    }

    open spec fn spec_arbitration(&self) -> ArbitrationId {
        ArbitrationId::X424(self.base.arbitration_id)
    }

    fn gen_arbitration_id(&self) -> (r: ArbitrationId)
        ensures
            r == ArbitrationId::X424(self.base.arbitration_id),
    {
        ArbitrationId::X424(self.base.arbitration_id)
    }

    fn gen_can_msg_data(&self) -> (r: Vec<u8>) {
        let r: Vec<u8> = Vec::new();
        proof {
            assert(r@ =~= self.spec_frame().data);
        }
        r
    }

    fn parse_can_msg_data(&mut self, msg: &RawCanMessage)
        ensures
            final(self).base == old(self).base,
            final(self).spec_fields_decoded(*old(self), msg@.data),
    {
        if msg.data.len() >= 3 {
            self.query_code = msg.data[1];
            if self.query_code >= 1 && self.query_code <= 4 && msg.data.len() >= 6 {
                let value = u32_from_le(msg.data[2], msg.data[3], msg.data[4], msg.data[5]);
                if self.query_code == 1 {
                    self.position_bits = value;
                } else if self.query_code == 2 {
                    self.speed_bits = value;
                } else if self.query_code == 3 {
                    self.current_bits = value;
                } else {
                    self.power_bits = value;
                }
            } else if self.query_code >= 5 && self.query_code <= 9 && msg.data.len() >= 4 {
                self.uint16_value = u16_from_be(msg.data[2], msg.data[3]);
            }
        }
    }

    fn message_filter() -> (f: MessageFilter) {
        MessageFilter::X424QaType(0x05)
    }
}

// ---------------------------------------------------------------------------
// Round trips: decoding an encoded frame recovers the message
// ---------------------------------------------------------------------------

/// The family base: decoding the encoded frame recovers the node address.
pub proof fn lemma_x424_message_round_trip(m: X424CanMessage, d: X424CanMessage)
    requires
        m.wf(),
        d.spec_decoded(m.spec_frame()),
    ensures
        d.node_id == m.node_id,
        d.arbitration_id.node_id == m.node_id,
{
}

/// Reading back an encoded set-communication-mode command recovers the
/// mode. The command travels on the shared configuration id, so the node
/// is recovered as that shared value.
pub proof fn lemma_set_communication_mode_round_trip(
    m: SetCommunicationModeMessage,
    d: SetCommunicationModeMessage,
)
    requires
        m.wf(),
        d.spec_decoded(m.spec_frame()),
    ensures
        d.mode == m.mode,
        d.base.base.node_id == 0x7FF,
{
}

/// Splitting the packed servo position word recovers its bit fields.
proof fn lemma_servo_position_word_fields(p: u32, s: u16, c: u16, t: u32)
    by (bit_vector)
    requires
        s <= 0x7FFF,
        c <= 0xFFF,
        t <= 3,
    ensures
        ({
            let w = (0x2000_0000_0000_0000 + p * 0x2000_0000 + s * 0x4000 + c * 4 + t) as u64;
            &&& ((w / 0x2000_0000) % 0x1_0000_0000) as u32 == p
            &&& ((w / 0x4000) % 0x8000) as u16 == s
            &&& ((w / 4) % 0x1000) as u16 == c
            &&& (w % 4) as u32 == t
        }),
{
}

/// Reading back an encoded servo position command recovers node and all
/// four fields, for limits within their capped wire ranges.
pub proof fn lemma_servo_position_control_round_trip(
    m: X424ServoPositionControlMessage,
    d: X424ServoPositionControlMessage,
)
    requires
        m.wf(),
        m.speed <= 0x7FFF,
        m.current_limit_raw <= 0xFFF,
        m.message_type <= 3,
        d.spec_decoded(m.spec_frame()),
    ensures
        d.base == m.base,
        d.position_bits == m.position_bits,
        d.speed == m.speed,
        d.current_limit_raw == m.current_limit_raw,
        d.message_type == m.message_type,
{
    let w = m.spec_word();
    lemma_u64_be_round_trip(w);
    assert(m.spec_frame().data.subrange(0, 8) =~= seq![
        be64_byte(w, 0),
        be64_byte(w, 1),
        be64_byte(w, 2),
        be64_byte(w, 3),
        be64_byte(w, 4),
        be64_byte(w, 5),
        be64_byte(w, 6),
        be64_byte(w, 7),
    ]);
    assert(w == (0x2000_0000_0000_0000 + m.position_bits * 0x2000_0000 + m.speed * 0x4000
        + m.current_limit_raw * 4 + m.message_type) as u64);
    lemma_servo_position_word_fields(m.position_bits, m.speed, m.current_limit_raw, m.message_type);
}

/// Splitting the packed servo speed word recovers its bit fields.
proof fn lemma_servo_speed_word_fields(sb: u32, c: u16, t: u32)
    by (bit_vector)
    requires
        t <= 3,
    ensures
        ({
            let w = (0x40_0000_0000_0000 + t * 0x1_0000_0000_0000 + sb * 0x1_0000 + c) as u64;
            &&& ((w / 0x1_0000) % 0x1_0000_0000) as u32 == sb
            &&& (w % 0x1_0000) as u16 == c
            &&& ((w / 0x1_0000_0000_0000) % 4) as u32 == t
        }),
{
}

/// Reading back an encoded servo speed command recovers node and all
/// three fields.
pub proof fn lemma_servo_speed_control_round_trip(
    m: X424ServoSpeedControlMessage,
    d: X424ServoSpeedControlMessage,
)
    requires
        m.wf(),
        m.message_type <= 3,
        d.spec_decoded(m.spec_frame()),
    ensures
        d.base == m.base,
        d.speed_bits == m.speed_bits,
        d.current_limit_raw == m.current_limit_raw,
        d.message_type == m.message_type,
{
    let w = m.spec_word();
    lemma_u64_be_round_trip(w);
    assert(m.spec_frame().data.subrange(0, 8) =~= seq![
        be64_byte(w, 0),
        be64_byte(w, 1),
        be64_byte(w, 2),
        be64_byte(w, 3),
        be64_byte(w, 4),
        be64_byte(w, 5),
        be64_byte(w, 6),
        be64_byte(w, 7),
    ]);
    assert(w == (0x40_0000_0000_0000 + m.message_type * 0x1_0000_0000_0000 + m.speed_bits
        * 0x1_0000 + m.current_limit_raw) as u64);
    lemma_servo_speed_word_fields(m.speed_bits, m.current_limit_raw, m.message_type);
}

/// Splitting the packed current control word recovers its bit fields.
proof fn lemma_current_word_fields(b: u16, ct: u32, t: u32)
    by (bit_vector)
    requires
        ct <= 7,
        t <= 3,
    ensures
        ({
            let w = (0x60_0000 + ct * 0x4_0000 + t * 0x1_0000 + b) as u32;
            &&& (w % 0x1_0000) as u16 == b
            &&& ((w / 0x4_0000) % 8) as u32 == ct
            &&& ((w / 0x1_0000) % 4) as u32 == t
            &&& w < 0x100_0000
        }),
{
}

/// Reading back an encoded current command recovers node and all three
/// fields, for selectors within their wire ranges.
pub proof fn lemma_current_control_round_trip(
    m: X424CurrentControlMessage,
    d: X424CurrentControlMessage,
)
    requires
        m.wf(),
        m.control_type <= 7,
        m.message_type <= 3,
        d.spec_decoded(m.spec_frame()),
    ensures
        d.base == m.base,
        d.current_raw == m.current_raw,
        d.control_type == m.control_type,
        d.message_type == m.message_type,
{
    let w = m.spec_word();
    assert(w == (0x60_0000 + m.control_type * 0x4_0000 + m.message_type * 0x1_0000 + bits_of_i16(
        m.current_raw,
    )) as u32);
    lemma_current_word_fields(bits_of_i16(m.current_raw), m.control_type, m.message_type);
    lemma_u32_le_round_trip(w);
    assert(le32_byte(w, 3) == 0);
    assert(u32_of_le(le32_byte(w, 0), le32_byte(w, 1), le32_byte(w, 2), 0) == w);
    lemma_i16_bits_round_trip(m.current_raw);
}

/// Reading back an encoded motor-id command recovers both addresses, for
/// addresses within the 16-bit wire range. The command travels on the
/// shared configuration id, so the node is recovered as that shared value.
pub proof fn lemma_set_motor_id_round_trip(m: SetMotorIDMessage, d: SetMotorIDMessage)
    requires
        m.wf(),
        m.cur_node_id <= 0xFFFF,
        m.new_node_id <= 0xFFFF,
        d.spec_decoded(m.spec_frame()),
    ensures
        d.cur_node_id == m.cur_node_id,
        d.new_node_id == m.new_node_id,
{
    lemma_fundamental_div_mod(m.cur_node_id as int, 0x100);
    lemma_fundamental_div_mod(m.new_node_id as int, 0x100);
}

} // verus!

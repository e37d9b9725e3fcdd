//! The wire frame, the three family addressing schemes, the classification
//! filters the dispatch registry is keyed by, and the capability contract
//! every concrete message type implements.

use vstd::prelude::*;

verus! {

// ---------------------------------------------------------------------------
// Raw frame and its mathematical view
// ---------------------------------------------------------------------------

/// Mathematical model of one bus frame: the arbitration value, the payload
/// as a byte sequence, and the standard/extended flag.
#[verifier::ext_equal]
pub ghost struct FrameModel {
    pub arbitration_id: u32,
    pub data: Seq<u8>,
    pub is_extended_id: bool,
}

/// One unit of transmission on the bus. Immutable once constructed; the
/// payload carries at most eight bytes on a real channel, but nothing here
/// depends on that bound.
#[derive(Debug)]
pub struct RawCanMessage {
    pub arbitration_id: u32,
    pub data: Vec<u8>,
    pub is_extended_id: bool,
}

impl View for RawCanMessage {
    type V = FrameModel;

    open spec fn view(&self) -> FrameModel {
        FrameModel {
            arbitration_id: self.arbitration_id,
            data: self.data@,
            is_extended_id: self.is_extended_id,
        }
    }
}

impl Clone for RawCanMessage {
    fn clone(&self) -> (r: Self)
        ensures
            r@ == self@,
    {
        let r = RawCanMessage {
            arbitration_id: self.arbitration_id,
            data: self.data.clone(),
            is_extended_id: self.is_extended_id,
        };
        proof {
            assert(r@ =~= self@);
        }
        r
    }
}

// ---------------------------------------------------------------------------
// Family A: 6-bit node, 5-bit command, 11-bit standard id
// ---------------------------------------------------------------------------

/// Arbitration value `(node_id << 5) | cmd_id`: the node address in the
/// top six bits of an 11-bit standard id, the command in the low five.
/// `wf` marks the ids whose fields fit those ranges.
#[derive(Debug, Clone, Copy, PartialEq, Eq, Structural)]
pub struct OdriveArbitrationId {
    pub node_id: u32,
    pub cmd_id: u32,
}

impl OdriveArbitrationId {
    /// Both fields within their wire ranges, so `value` fits an 11-bit id.
    pub open spec fn wf(self) -> bool {
        self.node_id < 0x40 && self.cmd_id < 0x20
    }

    pub open spec fn spec_node_of(id: u32) -> u32 {
        id / 0x20
    }

    pub open spec fn spec_cmd_of(id: u32) -> u32 {
        id % 0x20
    }

    pub open spec fn spec_value(self) -> u32 {
        (self.node_id << 5) | self.cmd_id
    }

    pub fn from_can_message(msg: &RawCanMessage) -> (r: Self)
        ensures
            r.node_id == Self::spec_node_of(msg.arbitration_id),
            r.cmd_id == Self::spec_cmd_of(msg.arbitration_id),
            msg.arbitration_id < 0x800 ==> r.wf(),
    {
        let id = msg.arbitration_id;
        Self { node_id: id / 0x20, cmd_id: id % 0x20 }
    }

    pub fn value(&self) -> (r: u32)
        ensures
            r == self.spec_value(),
            self.wf() ==> r < 0x800,
    {
        proof {
            if self.wf() {
                lemma_odrive_value_bits(self.node_id, self.cmd_id);
            }
        }
        (self.node_id << 5) | self.cmd_id
    }
}

/// On in-range fields the shifted-or value splits back into node and
/// command by division and remainder, and fits an 11-bit id.
proof fn lemma_odrive_value_bits(node: u32, cmd: u32)
    by (bit_vector)
    requires
        node < 0x40,
        cmd < 0x20,
    ensures
        ((node << 5) | cmd) < 0x800,
        ((node << 5) | cmd) / 0x20 == node,
        ((node << 5) | cmd) % 0x20 == cmd,
{
}

/// Recovering node and command from an encoded family-A value is the left
/// inverse of `value` on well-formed ids.
pub proof fn lemma_odrive_arbitration_round_trip(a: OdriveArbitrationId)
    requires
        a.wf(),
    ensures
        OdriveArbitrationId::spec_node_of(a.spec_value()) == a.node_id,
        OdriveArbitrationId::spec_cmd_of(a.spec_value()) == a.cmd_id,
        a.spec_value() < 0x800,
{
    lemma_odrive_value_bits(a.node_id, a.cmd_id);
}

// ---------------------------------------------------------------------------
// Family B: fixed base ranges 0x140.. and 0x240.., command in payload byte 0
// ---------------------------------------------------------------------------

/// Arbitration value `0x140 + node_id` (or a custom broadcast value for
/// multi-target commands); the command id travels as the first payload byte.
#[derive(Debug, Clone, Copy, PartialEq, Eq, Structural)]
pub struct MyActuatorArbitrationId {
    pub node_id: u32,
    pub cmd_id: u32,
    pub custom_value: Option<u32>,
}

impl MyActuatorArbitrationId {
    /// The node address fits the 32-slot family window.
    pub open spec fn wf(self) -> bool {
        self.node_id < 0x20
    }

    /// The arbitration values this family claims on the wire.
    pub open spec fn spec_in_family(id: u32) -> bool {
        (0x140 <= id < 0x160) || (0x240 <= id < 0x260)
    }

    pub open spec fn spec_value(self) -> u32 {
        match self.custom_value {
            Some(v) => v,
            None => (0x140 + self.node_id) as u32,
        }
    }

    /// Classifies and splits a frame of this family; frames outside the two
    /// base ranges, or without the command byte, are rejected.
    pub fn from_can_message(msg: &RawCanMessage) -> (r: Result<Self, &'static str>)
        ensures
            match r {
                Ok(a) => {
                    &&& Self::spec_in_family(msg.arbitration_id)
                    &&& msg.data@.len() > 0
                    &&& a.node_id == (if msg.arbitration_id < 0x160 {
                        msg.arbitration_id - 0x140
                    } else {
                        msg.arbitration_id - 0x240
                    })
                    &&& a.cmd_id == msg.data@[0]
                    &&& a.custom_value is None
                    &&& a.wf()
                },
                Err(_) => !Self::spec_in_family(msg.arbitration_id) || msg.data@.len() == 0,
            },
    {
        let id = msg.arbitration_id;
        if 0x140 <= id && id < 0x160 {
            if msg.data.len() == 0 {
                return Err("No data for cmd_id");
            }
            Ok(Self { node_id: id - 0x140, cmd_id: msg.data[0] as u32, custom_value: None })
        } else if 0x240 <= id && id < 0x260 {
            if msg.data.len() == 0 {
                return Err("No data for cmd_id");
            }
            Ok(Self { node_id: id - 0x240, cmd_id: msg.data[0] as u32, custom_value: None })
        } else {
            Err("Invalid MyActuator arbitration ID")
        }
    }

    pub fn value(&self) -> (r: u32)
        ensures
            r == self.spec_value(),
    {
        match self.custom_value {
            Some(v) => v,
            None => {
                let n = self.node_id;
                if n <= 0xFFFF_FEBF {
                    0x140 + n
                } else {
                    // Addresses within 0x140 of the u32 ceiling wrap, as
                    // the wire arithmetic does.
                    let r = ((n as u64 + 0x140) - 0x1_0000_0000) as u32;
                    proof {
                        assert(r == (0x140 + n) as u32) by (bit_vector)
                            requires
                                n > 0xFFFF_FEBFu32,
                                r == ((n as u64 + 0x140) - 0x1_0000_0000) as u32,
                        ;
                    }
                    r
                }
            },
        }
    }
}

/// On the send range, recovering the node from an encoded family-B value is
/// the left inverse of `value`.
pub proof fn lemma_myactuator_arbitration_round_trip(a: MyActuatorArbitrationId)
    requires
        a.wf(),
        a.custom_value is None,
    ensures
        MyActuatorArbitrationId::spec_in_family(a.spec_value()),
        a.spec_value() - 0x140 == a.node_id,
{
}

// ---------------------------------------------------------------------------
// Family C: point-to-point id, or shared config id with payload selectors
// ---------------------------------------------------------------------------

/// Arbitration value equal to the node id itself; for replies the command
/// selector travels in the payload.
#[derive(Debug, Clone, Copy, PartialEq, Eq, Structural)]
pub struct X424ArbitrationId {
    pub node_id: u32,
    pub cmd_id: u32,
}

impl X424ArbitrationId {
    pub fn from_can_message(msg: &RawCanMessage) -> (r: Self)
        ensures
            r.node_id == msg.arbitration_id,
            r.cmd_id == (if msg.data@.len() > 0 {
                msg.data@[0] as u32
            } else {
                0
            }),
    {
        let cmd_id: u32 = if msg.data.len() > 0 {
            msg.data[0] as u32
        } else {
            0
        };
        Self { node_id: msg.arbitration_id, cmd_id }
    }

    pub fn value(&self) -> (r: u32)
        ensures
            r == self.node_id,
    {
        self.node_id
    }
}

/// The tagged union over the three family addressing schemes.
#[derive(Debug, Clone, Copy, PartialEq, Eq, Structural)]
pub enum ArbitrationId {
    Odrive(OdriveArbitrationId),
    MyActuator(MyActuatorArbitrationId),
    X424(X424ArbitrationId),
}

/// Whether a structured arbitration id lies within its family's encodable
/// range: family-A fields within their bit widths, a family-B node within
/// the 32-slot window (broadcast values are taken as given), and any
/// family-C node, whose value is the id itself and is bounded by the
/// frame-level check alone.
pub open spec fn spec_arbitration_valid(a: ArbitrationId) -> bool {
    match a {
        ArbitrationId::Odrive(x) => x.wf(),
        ArbitrationId::MyActuator(x) => x.custom_value is Some || x.wf(),
        ArbitrationId::X424(_) => true,
    }
}

/// Runs the family-range check on a structured arbitration id.
pub fn arbitration_valid(a: &ArbitrationId) -> (r: bool)
    ensures
        r == spec_arbitration_valid(*a),
{
    match a {
        ArbitrationId::Odrive(x) => x.node_id < 0x40 && x.cmd_id < 0x20,
        ArbitrationId::MyActuator(x) => x.custom_value.is_some() || x.node_id < 0x20,
        ArbitrationId::X424(_) => true,
    }
}

// ---------------------------------------------------------------------------
// Classification filters
// ---------------------------------------------------------------------------

/// A runtime classification key: the reified `matches` predicate of one
/// message type, used by the dispatch registry in place of compile-time
/// type dispatch.
#[derive(Debug, Clone, Copy, PartialEq, Eq, Structural)]
pub enum MessageFilter {
    /// Any family-A frame: a standard 11-bit id.
    OdriveFamily,
    /// A family-A frame whose low five id bits carry this command.
    OdriveCmd(u32),
    /// A family-A frame with this command and this opcode in payload byte 0.
    OdriveCmdOpcode(u32, u8),
    /// Any frame in the family-B base ranges.
    MyActuatorFamily,
    /// A family-B frame whose first payload byte carries this command.
    MyActuatorCmd(u8),
    /// A frame whose first payload byte equals this value.
    X424FirstByte(u8),
    /// A reply whose top three bits of payload byte 0 carry this type code.
    X424QaType(u8),
    /// A config-exchange frame on the shared id with this selector byte.
    X424Config(u8),
    /// A config-exchange reply on the shared id.
    X424ConfigReply,
    /// A config-exchange reply on the shared id whose lead byte marks the
    /// broadcast id-query reply format.
    X424ConfigIdReply,
}

pub open spec fn spec_odrive_family_matches(m: FrameModel) -> bool {
    !m.is_extended_id && m.arbitration_id < 0x800
}

pub open spec fn spec_odrive_cmd_matches(cmd: u32, m: FrameModel) -> bool {
    spec_odrive_family_matches(m) && OdriveArbitrationId::spec_cmd_of(m.arbitration_id) == cmd
}

pub open spec fn spec_odrive_cmd_opcode_matches(cmd: u32, op: u8, m: FrameModel) -> bool {
    spec_odrive_cmd_matches(cmd, m) && m.data.len() > 0 && m.data[0] == op
}

pub open spec fn spec_myactuator_family_matches(m: FrameModel) -> bool {
    MyActuatorArbitrationId::spec_in_family(m.arbitration_id)
}

pub open spec fn spec_myactuator_cmd_matches(cmd: u8, m: FrameModel) -> bool {
    spec_myactuator_family_matches(m) && m.data.len() > 0 && m.data[0] == cmd
}

pub open spec fn spec_x424_first_byte_matches(b: u8, m: FrameModel) -> bool {
    m.data.len() > 0 && m.data[0] == b
}

pub open spec fn spec_x424_qa_type_matches(t: u8, m: FrameModel) -> bool {
    m.data.len() > 0 && (m.data[0] / 0x20) == t
}

pub open spec fn spec_x424_config_matches(cmd: u8, m: FrameModel) -> bool {
    m.arbitration_id == 0x7FF && m.data.len() >= 4 && m.data[3] == cmd
}

pub open spec fn spec_x424_config_reply_matches(m: FrameModel) -> bool {
    m.arbitration_id == 0x7FF && m.data.len() >= 3 && m.data[2] == 0x01
}

pub open spec fn spec_x424_config_id_reply_matches(m: FrameModel) -> bool {
    spec_x424_config_reply_matches(m) && m.data[0] == 0xFF
}

/// What each filter accepts, as a predicate over frame models.
pub open spec fn filter_matches(f: MessageFilter, m: FrameModel) -> bool {
    match f {
        MessageFilter::OdriveFamily => spec_odrive_family_matches(m),
        MessageFilter::OdriveCmd(cmd) => spec_odrive_cmd_matches(cmd, m),
        MessageFilter::OdriveCmdOpcode(cmd, op) => spec_odrive_cmd_opcode_matches(cmd, op, m),
        MessageFilter::MyActuatorFamily => spec_myactuator_family_matches(m),
        MessageFilter::MyActuatorCmd(cmd) => spec_myactuator_cmd_matches(cmd, m),
        MessageFilter::X424FirstByte(b) => spec_x424_first_byte_matches(b, m),
        MessageFilter::X424QaType(t) => spec_x424_qa_type_matches(t, m),
        MessageFilter::X424Config(cmd) => spec_x424_config_matches(cmd, m),
        MessageFilter::X424ConfigReply => spec_x424_config_reply_matches(m),
        MessageFilter::X424ConfigIdReply => spec_x424_config_id_reply_matches(m),
    }
}

impl MessageFilter {
    /// Runs the reified classification predicate on a frame.
    pub fn accepts(&self, msg: &RawCanMessage) -> (r: bool)
        ensures
            r == filter_matches(*self, msg@),
    {
        match self {
            MessageFilter::OdriveFamily => !msg.is_extended_id && msg.arbitration_id < 0x800,
            MessageFilter::OdriveCmd(cmd) => !msg.is_extended_id && msg.arbitration_id < 0x800
                && msg.arbitration_id % 0x20 == *cmd,
            MessageFilter::OdriveCmdOpcode(cmd, op) => !msg.is_extended_id
                && msg.arbitration_id < 0x800 && msg.arbitration_id % 0x20 == *cmd
                && msg.data.len() > 0 && msg.data[0] == *op,
            MessageFilter::MyActuatorFamily => (0x140 <= msg.arbitration_id
                && msg.arbitration_id < 0x160) || (0x240 <= msg.arbitration_id
                && msg.arbitration_id < 0x260),
            MessageFilter::MyActuatorCmd(cmd) => ((0x140 <= msg.arbitration_id
                && msg.arbitration_id < 0x160) || (0x240 <= msg.arbitration_id
                && msg.arbitration_id < 0x260)) && msg.data.len() > 0 && msg.data[0] == *cmd,
            MessageFilter::X424FirstByte(b) => msg.data.len() > 0 && msg.data[0] == *b,
            MessageFilter::X424QaType(t) => msg.data.len() > 0 && msg.data[0] / 0x20 == *t,
            MessageFilter::X424Config(cmd) => msg.arbitration_id == 0x7FF && msg.data.len() >= 4
                && msg.data[3] == *cmd,
            MessageFilter::X424ConfigReply => msg.arbitration_id == 0x7FF && msg.data.len() >= 3
                && msg.data[2] == 0x01,
            MessageFilter::X424ConfigIdReply => msg.arbitration_id == 0x7FF && msg.data.len() >= 3
                && msg.data[2] == 0x01 && msg.data[0] == 0xFF,
        }
    }
}

// ---------------------------------------------------------------------------
// The message capability contract
// ---------------------------------------------------------------------------

/// The capability set a concrete wire message implements to take part in
/// dispatch: classification from the frame alone, decoding, and encoding
/// back to a frame.
pub trait CanMessageTrait: Sized {
    /// Classification predicate of this type, as a pure function of the
    /// frame model.
    spec fn spec_matches(m: FrameModel) -> bool;

    /// The frame this message encodes to.
    spec fn spec_frame(&self) -> FrameModel;

    /// Decode relation: `self` is what decoding `m` produces.
    spec fn spec_decoded(&self, m: FrameModel) -> bool;

    /// The static command identifier of this type.
    fn cmd_id() -> u32;

    /// The node address this message carries.
    fn node_id(&self) -> u32;

    /// Pure classification, decidable from the frame alone.
    fn matches(msg: &RawCanMessage) -> (r: bool)
        ensures
            r == Self::spec_matches(msg@),
    ;

    /// Total decoder: never panics; malformed payloads degrade to default
    /// field values.
    fn from_can_message(msg: RawCanMessage) -> (r: Self)
        ensures
            r.spec_decoded(msg@),
    ;

    /// The structured arbitration id this message addresses.
    spec fn spec_arbitration(&self) -> ArbitrationId;

    /// Encode to a wire frame.
    fn as_can_message(&self) -> (r: RawCanMessage)
        ensures
            r@ == self.spec_frame(),
    ;

    /// The structured arbitration id this message addresses.
    fn gen_arbitration_id(&self) -> (r: ArbitrationId)
        ensures
            r == self.spec_arbitration(),
    ;

    /// The payload bytes of the encoded frame.
    fn gen_can_msg_data(&self) -> (r: Vec<u8>)
        ensures
            r@ == self.spec_frame().data,
    ;

    /// Fill the semantic fields from a received frame's payload.
    fn parse_can_msg_data(&mut self, msg: &RawCanMessage);

    /// The classification key equivalent to this type's `matches`.
    fn message_filter() -> (f: MessageFilter)
        ensures
            forall|m: FrameModel| filter_matches(f, m) == Self::spec_matches(m),
    ;
}

// ---------------------------------------------------------------------------
// Classification exclusivity within each family
// ---------------------------------------------------------------------------

/// Two family-A message types keyed by different commands never both
/// classify one frame as matching.
pub proof fn lemma_odrive_siblings_exclusive(c1: u32, c2: u32, m: FrameModel)
    requires
        c1 != c2,
    ensures
        !(spec_odrive_cmd_matches(c1, m) && spec_odrive_cmd_matches(c2, m)),
{
}

/// The two family-A parameter commands share a command id but are told
/// apart by the opcode byte, so they never both match.
pub proof fn lemma_odrive_opcode_siblings_exclusive(c: u32, op1: u8, op2: u8, m: FrameModel)
    requires
        op1 != op2,
    ensures
        !(spec_odrive_cmd_opcode_matches(c, op1, m) && spec_odrive_cmd_opcode_matches(c, op2, m)),
{
}

/// Two family-B message types keyed by different command bytes never both
/// classify one frame as matching.
pub proof fn lemma_myactuator_siblings_exclusive(c1: u8, c2: u8, m: FrameModel)
    requires
        c1 != c2,
    ensures
        !(spec_myactuator_cmd_matches(c1, m) && spec_myactuator_cmd_matches(c2, m)),
{
}

/// Two family-C reply types keyed by different type codes in the top three
/// bits of payload byte 0 never both classify one frame as matching.
pub proof fn lemma_x424_qa_siblings_exclusive(t1: u8, t2: u8, m: FrameModel)
    requires
        t1 != t2,
    ensures
        !(spec_x424_qa_type_matches(t1, m) && spec_x424_qa_type_matches(t2, m)),
{
}

/// Two family-C config commands keyed by different selector bytes never
/// both classify one frame as matching.
pub proof fn lemma_x424_config_siblings_exclusive(c1: u8, c2: u8, m: FrameModel)
    requires
        c1 != c2,
    ensures
        !(spec_x424_config_matches(c1, m) && spec_x424_config_matches(c2, m)),
{
}

} // verus!

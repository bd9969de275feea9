//! Binary frames: one opcode byte, then a payload.

use vstd::prelude::*;
use vstd::std_specs::convert::TryFromSpecImpl;
use vstd::utf8::encode_utf8;

use crate::codec::{
    decoded_id, decoded_text, encoded_bytes, encoded_text, read_id, read_text, write_bytes, write_id,
    write_text, MAX_FIELD_LEN,
};

use super::common::UuidBytes;

verus! {

/// What a frame carries.
#[derive(Clone, Copy, Debug, PartialEq, Eq, Structural)]
pub enum Opcode {
    /// Asks for a `PongPayload` with the same identifier.
    PingPayload,
    /// Answers a `PingPayload`.
    PongPayload,
    /// A request of the client, as JSON text.
    JSONRequestPayload,
    /// A response or notification of the server, as JSON text.
    JSONResponsePayload,
    /// The client leaves.
    ClosePayload,
    /// A discrete match event, passed on unread over the reliable channel.
    GameEventPayload,
    /// The state of a falling piece, passed on unread over the unreliable channel.
    PieceStatePayload,
}

impl Opcode {
    /// The byte that stands for the opcode.
    pub open spec fn spec_code(self) -> u8 {
        match self {
            Opcode::PingPayload => 0x01,
            Opcode::PongPayload => 0x02,
            Opcode::JSONRequestPayload => 0x03,
            Opcode::JSONResponsePayload => 0x04,
            Opcode::ClosePayload => 0x05,
            Opcode::GameEventPayload => 0x06,
            Opcode::PieceStatePayload => 0x07,
        }
    }

    /// The opcode that a byte stands for.
    pub open spec fn spec_from_code(code: u8) -> Option<Opcode> {
        if code == 0x01 {
            Some(Opcode::PingPayload)
        } else if code == 0x02 {
            Some(Opcode::PongPayload)
        } else if code == 0x03 {
            Some(Opcode::JSONRequestPayload)
        } else if code == 0x04 {
            Some(Opcode::JSONResponsePayload)
        } else if code == 0x05 {
            Some(Opcode::ClosePayload)
        } else if code == 0x06 {
            Some(Opcode::GameEventPayload)
        } else if code == 0x07 {
            Some(Opcode::PieceStatePayload)
        } else {
            None
        }
    }

    /// The byte that stands for the opcode.
    pub fn code(self) -> (code: u8)
        ensures
            code == self.spec_code(),
    {
        match self {
            Opcode::PingPayload => 0x01,
            Opcode::PongPayload => 0x02,
            Opcode::JSONRequestPayload => 0x03,
            Opcode::JSONResponsePayload => 0x04,
            Opcode::ClosePayload => 0x05,
            Opcode::GameEventPayload => 0x06,
            Opcode::PieceStatePayload => 0x07,
        }
    }
}

impl TryFrom<u8> for Opcode {
    type Error = ();

    fn try_from(value: u8) -> (op: Result<Self, ()>) {
        match value {
            0x01 => Ok(Opcode::PingPayload),
            0x02 => Ok(Opcode::PongPayload),
            0x03 => Ok(Opcode::JSONRequestPayload),
            0x04 => Ok(Opcode::JSONResponsePayload),
            0x05 => Ok(Opcode::ClosePayload),
            0x06 => Ok(Opcode::GameEventPayload),
            0x07 => Ok(Opcode::PieceStatePayload),
            _ => Err(()),
        }
    }
}

impl TryFromSpecImpl<u8> for Opcode {
    open spec fn obeys_try_from_spec() -> bool {
        true
    }

    open spec fn try_from_spec(value: u8) -> Result<Self, ()> {
        match Opcode::spec_from_code(value) {
            Some(op) => Ok(op),
            None => Err(()),
        }
    }
}

/// Each opcode is read back from the byte that stands for it.
pub proof fn law_opcode_round_trip(op: Opcode)
    ensures
        Opcode::spec_from_code(op.spec_code()) == Some(op),
{
}

/// A byte that stands for an opcode stands for one alone.
pub proof fn law_opcode_of_code(code: u8, op: Opcode)
    requires
        Opcode::spec_from_code(code) == Some(op),
    ensures
        op.spec_code() == code,
{
}

/// A frame: the opcode byte, then the body.
pub open spec fn frame(op: Opcode, body: Seq<u8>) -> Seq<u8> {
    seq![op.spec_code()] + body
}

/// Puts the opcode byte in front of a body.
pub fn wrap_with_opcode(op: Opcode, body: Vec<u8>) -> (buf: Vec<u8>)
    ensures
        buf@ == frame(op, body@),
{
    let mut buf: Vec<u8> = Vec::with_capacity(body.len());
    buf.push(op.code());
    buf.extend_from_slice(body.as_slice());
    assert(buf@ =~= frame(op, body@));
    buf
}

/// Opcode and body of a frame are read back from it, and the body is what follows the first byte.
pub proof fn law_frame_round_trip(op: Opcode, body: Seq<u8>)
    ensures
        Opcode::spec_from_code(frame(op, body)[0]) == Some(op),
        frame(op, body).skip(1) == body,
{
    assert(frame(op, body).skip(1) =~= body);
}

/// A liveness probe.
#[derive(Debug)]
pub struct PingPayload {
    pub id: UuidBytes,
}

impl PingPayload {
    /// The payload on the wire: the sixteen bytes of the identifier. Writing it never fails.
    pub fn to_binary(&self) -> (written: Result<Vec<u8>, wincode::WriteError>)
        ensures
            written is Ok,
            written->Ok_0@ == self.id.0@,
    {
        write_id(&self.id.0)
    }

    /// Reads the payload from the front of a body. Refused if there are fewer than sixteen bytes.
    pub fn from_binary(body: &[u8]) -> (read: Result<Self, wincode::ReadError>)
        ensures
            match read {
                Ok(payload) => decoded_id(body@) == Some(payload.id.0@),
                Err(_) => decoded_id(body@) is None,
            },
    {
        match read_id(body) {
            Ok(id) => Ok(PingPayload { id: UuidBytes(id) }),
            Err(error) => Err(error),
        }
    }
}

/// The answer to a liveness probe: the identifier of the probe.
#[derive(Debug)]
pub struct PongPayload {
    pub id: UuidBytes,
}

impl PongPayload {
    /// The payload on the wire: the sixteen bytes of the identifier. Writing it never fails.
    pub fn to_binary(&self) -> (written: Result<Vec<u8>, wincode::WriteError>)
        ensures
            written is Ok,
            written->Ok_0@ == self.id.0@,
    {
        write_id(&self.id.0)
    }

    /// Reads the payload from the front of a body. Refused if there are fewer than sixteen bytes.
    pub fn from_binary(body: &[u8]) -> (read: Result<Self, wincode::ReadError>)
        ensures
            match read {
                Ok(payload) => decoded_id(body@) == Some(payload.id.0@),
                Err(_) => decoded_id(body@) is None,
            },
    {
        match read_id(body) {
            Ok(id) => Ok(PongPayload { id: UuidBytes(id) }),
            Err(error) => Err(error),
        }
    }
}

/// A request of the client, as JSON text.
#[derive(Debug)]
pub struct JSONRequestPayload {
    pub data: String,
}

impl JSONRequestPayload {
    /// The payload on the wire: the text, length-prefixed. Refused over 4 MiB of UTF-8.
    pub fn to_binary(&self) -> (written: Result<Vec<u8>, wincode::WriteError>)
        ensures
            match written {
                Ok(bytes) => {
                    &&& encode_utf8(self.data@).len() <= MAX_FIELD_LEN
                    &&& bytes@ == encoded_text(self.data@)
                },
                Err(_) => encode_utf8(self.data@).len() > MAX_FIELD_LEN,
            },
    {
        write_text(&self.data)
    }

    /// Reads the payload from the front of a body. Refused where no text can be read there.
    pub fn from_binary(body: &[u8]) -> (read: Result<Self, wincode::ReadError>)
        ensures
            match read {
                Ok(payload) => decoded_text(body@) == Some(payload.data@),
                Err(_) => decoded_text(body@) is None,
            },
    {
        match read_text(body) {
            Ok(data) => Ok(JSONRequestPayload { data }),
            Err(error) => Err(error),
        }
    }
}

/// A response or notification of the server, as JSON text.
#[derive(Debug)]
pub struct JSONResponsePayload {
    pub data: String,
}

impl JSONResponsePayload {
    /// The payload on the wire: the text, length-prefixed. Refused over 4 MiB of UTF-8.
    pub fn to_binary(&self) -> (written: Result<Vec<u8>, wincode::WriteError>)
        ensures
            match written {
                Ok(bytes) => {
                    &&& encode_utf8(self.data@).len() <= MAX_FIELD_LEN
                    &&& bytes@ == encoded_text(self.data@)
                },
                Err(_) => encode_utf8(self.data@).len() > MAX_FIELD_LEN,
            },
    {
        write_text(&self.data)
    }
}

/// The client leaves. Nothing follows the opcode byte.
#[derive(Debug)]
pub struct ClosePayload {
}

impl ClosePayload {
    /// The payload on the wire: nothing. Writing it never fails.
    pub fn to_binary(&self) -> (written: Result<Vec<u8>, wincode::WriteError>)
        ensures
            written is Ok,
            written->Ok_0@ == Seq::<u8>::empty(),
    {
        Ok(Vec::new())
    }
}

/// A discrete match event. The server does not look into it.
#[derive(Debug)]
pub struct GameEventPayload {
    pub data: Vec<u8>,
}

impl GameEventPayload {
    /// The payload on the wire: the bytes, length-prefixed. Refused over 4 MiB.
    pub fn to_binary(&self) -> (written: Result<Vec<u8>, wincode::WriteError>)
        ensures
            match written {
                Ok(bytes) => {
                    &&& self.data@.len() <= MAX_FIELD_LEN
                    &&& bytes@ == encoded_bytes(self.data@)
                },
                Err(_) => self.data@.len() > MAX_FIELD_LEN,
            },
    {
        write_bytes(&self.data)
    }
}

/// The state of a falling piece. The server does not look into it.
#[derive(Debug)]
pub struct PieceStatePayload {
    pub data: Vec<u8>,
}

impl PieceStatePayload {
    /// The payload on the wire: the bytes, length-prefixed. Refused over 4 MiB.
    pub fn to_binary(&self) -> (written: Result<Vec<u8>, wincode::WriteError>)
        ensures
            match written {
                Ok(bytes) => {
                    &&& self.data@.len() <= MAX_FIELD_LEN
                    &&& bytes@ == encoded_bytes(self.data@)
                },
                Err(_) => self.data@.len() > MAX_FIELD_LEN,
            },
    {
        write_bytes(&self.data)
    }
}

/// A payload, with the opcode that it travels under.
#[derive(Debug)]
pub enum GameMessage {
    PingPayload(PingPayload),
    PongPayload(PongPayload),
    JSONRequestPayload(JSONRequestPayload),
    JSONResponsePayload(JSONResponsePayload),
    ClosePayload(ClosePayload),
    GameEventPayload(GameEventPayload),
    PieceStatePayload(PieceStatePayload),
}

impl GameMessage {
    /// The opcode that the payload travels under.
    pub open spec fn spec_opcode(self) -> Opcode {
        match self {
            GameMessage::PingPayload(_) => Opcode::PingPayload,
            GameMessage::PongPayload(_) => Opcode::PongPayload,
            GameMessage::JSONRequestPayload(_) => Opcode::JSONRequestPayload,
            GameMessage::JSONResponsePayload(_) => Opcode::JSONResponsePayload,
            GameMessage::ClosePayload(_) => Opcode::ClosePayload,
            GameMessage::GameEventPayload(_) => Opcode::GameEventPayload,
            GameMessage::PieceStatePayload(_) => Opcode::PieceStatePayload,
        }
    }

    /// The opcode that the payload travels under.
    pub fn opcode(&self) -> (op: Opcode)
        ensures
            op == self.spec_opcode(),
    {
        match self {
            GameMessage::PingPayload(_) => Opcode::PingPayload,
            GameMessage::PongPayload(_) => Opcode::PongPayload,
            GameMessage::JSONRequestPayload(_) => Opcode::JSONRequestPayload,
            GameMessage::JSONResponsePayload(_) => Opcode::JSONResponsePayload,
            GameMessage::ClosePayload(_) => Opcode::ClosePayload,
            GameMessage::GameEventPayload(_) => Opcode::GameEventPayload,
            GameMessage::PieceStatePayload(_) => Opcode::PieceStatePayload,
        }
    }
}

/// The bytes that payloads travel under, in the order of their kinds.
pub proof fn law_payload_codes(message: GameMessage)
    ensures
        message.spec_opcode().spec_code() == (match message {
            GameMessage::PingPayload(_) => 0x01u8,
            GameMessage::PongPayload(_) => 0x02u8,
            GameMessage::JSONRequestPayload(_) => 0x03u8,
            GameMessage::JSONResponsePayload(_) => 0x04u8,
            GameMessage::ClosePayload(_) => 0x05u8,
            GameMessage::GameEventPayload(_) => 0x06u8,
            GameMessage::PieceStatePayload(_) => 0x07u8,
        }),
{
}

} // verus!

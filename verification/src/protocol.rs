//! The packets a game client sends, and how a raw packet is told apart.
//!
//! A packet is an opcode and a payload whose first byte, when present, is
//! the sub-opcode. A fixed table of (opcode, sub-opcode) pairs selects the
//! decoder; everything else is handed on as `Client::Unrecognized`.

use crate::bytes::{le_u16, le_u32, read_bytes, read_text, read_u16_le, read_u32_le, text_of};
use vstd::prelude::*;

verus! {

/// Opcode of the client's timing report.
pub const CLIENT_TIME_CODE: u8 = 0x0E;

/// Opcode of the account packets.
pub const ACCOUNT_CODE: u8 = 0xF1;

/// Opcode of the character lobby packets.
pub const CHARACTER_CODE: u8 = 0xF3;

/// Width of a name, password or security-code field.
pub const TEXT_FIELD: usize = 10;

/// Width of the client version field.
pub const VERSION_FIELD: usize = 5;

/// Width of the client serial field.
pub const SERIAL_FIELD: usize = 16;

/// A raw packet as it comes off the wire, already unframed.
#[derive(Clone, Debug, PartialEq, Eq)]
pub struct Packet {
    pub code: u8,
    pub data: Vec<u8>,
}

impl Packet {
    /// A packet with the given opcode and payload.
    pub fn new(code: u8, data: Vec<u8>) -> (packet: Packet)
        ensures
            packet.code == code,
            packet.data == data,
    {
        Packet { code, data }
    }

    /// The packet's opcode.
    pub fn code(&self) -> (code: u8)
        ensures
            code == self.code,
    {
        self.code
    }

    /// The packet's sub-opcode: the first byte of its payload, if it has one.
    pub fn subcode(&self) -> (subcode: Option<u8>)
        ensures
            subcode == (if self.data@.len() > 0 {
                Some(self.data@[0])
            } else {
                None
            }),
    {
        if self.data.len() > 0 {
            Some(self.data[0])
        } else {
            None
        }
    }

    /// The packet's payload, sub-opcode included.
    pub fn data(&self) -> (data: &Vec<u8>)
        ensures
            data == self.data,
    {
        &self.data
    }
}

/// The character classes a client can name.
#[derive(Clone, Copy, Debug, PartialEq, Eq, Structural)]
pub enum Class {
    DarkWizard,
    SoulMaster,
    DarkKnight,
    BladeKnight,
    FairyElf,
    MuseElf,
    MagicGladiator,
    DarkLord,
}

/// The class a wire byte stands for, if any.
pub open spec fn class_of_code(code: u8) -> Option<Class> {
    if code == 0x00 {
        Some(Class::DarkWizard)
    } else if code == 0x10 {
        Some(Class::SoulMaster)
    } else if code == 0x20 {
        Some(Class::DarkKnight)
    } else if code == 0x30 {
        Some(Class::BladeKnight)
    } else if code == 0x40 {
        Some(Class::FairyElf)
    } else if code == 0x50 {
        Some(Class::MuseElf)
    } else if code == 0x60 {
        Some(Class::MagicGladiator)
    } else if code == 0x80 {
        Some(Class::DarkLord)
    } else {
        None
    }
}

impl Class {
    /// The byte that stands for this class on the wire.
    pub open spec fn spec_code(self) -> u8 {
        match self {
            Class::DarkWizard => 0x00,
            Class::SoulMaster => 0x10,
            Class::DarkKnight => 0x20,
            Class::BladeKnight => 0x30,
            Class::FairyElf => 0x40,
            Class::MuseElf => 0x50,
            Class::MagicGladiator => 0x60,
            Class::DarkLord => 0x80,
        }
    }

    /// The byte that stands for this class on the wire.
    pub fn code(self) -> (code: u8)
        ensures
            code == self.spec_code(),
            class_of_code(code) == Some(self),
    {
        match self {
            Class::DarkWizard => 0x00,
            Class::SoulMaster => 0x10,
            Class::DarkKnight => 0x20,
            Class::BladeKnight => 0x30,
            Class::FairyElf => 0x40,
            Class::MuseElf => 0x50,
            Class::MagicGladiator => 0x60,
            Class::DarkLord => 0x80,
        }
    }

    /// Reads a class byte; `None` for a byte outside the enumeration.
    pub fn from_code(code: u8) -> (class: Option<Class>)
        ensures
            class == class_of_code(code),
    {
        if code == 0x00 {
            Some(Class::DarkWizard)
        } else if code == 0x10 {
            Some(Class::SoulMaster)
        } else if code == 0x20 {
            Some(Class::DarkKnight)
        } else if code == 0x30 {
            Some(Class::BladeKnight)
        } else if code == 0x40 {
            Some(Class::FairyElf)
        } else if code == 0x50 {
            Some(Class::MuseElf)
        } else if code == 0x60 {
            Some(Class::MagicGladiator)
        } else if code == 0x80 {
            Some(Class::DarkLord)
        } else {
            None
        }
    }
}

/// Why the payload of a known packet was rejected.
#[derive(Clone, Copy, Debug, PartialEq, Eq, Structural)]
pub enum DecodeError {
    /// The payload does not have the length its layout prescribes.
    InvalidLength,
    /// The class byte names no class.
    InvalidClass,
}

/// Timing values reported by the client.
#[derive(Clone, Debug, PartialEq, Eq)]
pub struct ClientTime {
    pub time: u32,
    pub attack_speed: u16,
    pub magic_speed: u16,
}

/// A login attempt.
#[derive(Clone, Debug, PartialEq, Eq)]
pub struct AccountLoginRequest {
    pub username: Vec<u8>,
    pub password: Vec<u8>,
    pub time: u32,
    pub version: Vec<u8>,
    pub serial: Vec<u8>,
}

/// A request to create a character.
#[derive(Clone, Debug, PartialEq, Eq)]
pub struct CharacterCreate {
    pub name: Vec<u8>,
    pub class: Class,
}

/// A request to delete a character.
#[derive(Clone, Debug, PartialEq, Eq)]
pub struct CharacterDelete {
    pub name: Vec<u8>,
    pub security_code: Vec<u8>,
}

/// A request to enter the world with a character.
#[derive(Clone, Debug, PartialEq, Eq)]
pub struct CharacterJoinRequest {
    pub name: Vec<u8>,
}

/// An aggregation of all possible client packets.
#[derive(Clone, Debug, PartialEq, Eq)]
pub enum Client {
    ClientTime(ClientTime),
    AccountLoginRequest(AccountLoginRequest),
    CharacterListRequest,
    CharacterCreate(CharacterCreate),
    CharacterDelete(CharacterDelete),
    CharacterJoinRequest(CharacterJoinRequest),
    Unrecognized,
}

/// What a client packet says, with its byte strings as sequences.
pub enum ClientModel {
    ClientTime { time: u32, attack_speed: u16, magic_speed: u16 },
    AccountLoginRequest {
        username: Seq<u8>,
        password: Seq<u8>,
        time: u32,
        version: Seq<u8>,
        serial: Seq<u8>,
    },
    CharacterListRequest,
    CharacterCreate { name: Seq<u8>, class: Class },
    CharacterDelete { name: Seq<u8>, security_code: Seq<u8> },
    CharacterJoinRequest { name: Seq<u8> },
    Unrecognized,
}

impl View for Client {
    type V = ClientModel;

    open spec fn view(&self) -> ClientModel {
        match *self {
            Client::ClientTime(p) => ClientModel::ClientTime {
                time: p.time,
                attack_speed: p.attack_speed,
                magic_speed: p.magic_speed,
            },
            Client::AccountLoginRequest(p) => ClientModel::AccountLoginRequest {
                username: p.username@,
                password: p.password@,
                time: p.time,
                version: p.version@,
                serial: p.serial@,
            },
            Client::CharacterListRequest => ClientModel::CharacterListRequest,
            Client::CharacterCreate(p) => ClientModel::CharacterCreate {
                name: p.name@,
                class: p.class,
            },
            Client::CharacterDelete(p) => ClientModel::CharacterDelete {
                name: p.name@,
                security_code: p.security_code@,
            },
            Client::CharacterJoinRequest(p) => ClientModel::CharacterJoinRequest { name: p.name@ },
            Client::Unrecognized => ClientModel::Unrecognized,
        }
    }
}

/// The kinds of client packet, without their contents.
#[derive(Clone, Copy, Debug, PartialEq, Eq, Structural)]
pub enum ClientKind {
    ClientTime,
    AccountLoginRequest,
    CharacterListRequest,
    CharacterCreate,
    CharacterDelete,
    CharacterJoinRequest,
    Unrecognized,
}

impl ClientModel {
    /// Which kind of packet this is.
    pub open spec fn kind(self) -> ClientKind {
        match self {
            ClientModel::ClientTime { .. } => ClientKind::ClientTime,
            ClientModel::AccountLoginRequest { .. } => ClientKind::AccountLoginRequest,
            ClientModel::CharacterListRequest => ClientKind::CharacterListRequest,
            ClientModel::CharacterCreate { .. } => ClientKind::CharacterCreate,
            ClientModel::CharacterDelete { .. } => ClientKind::CharacterDelete,
            ClientModel::CharacterJoinRequest { .. } => ClientKind::CharacterJoinRequest,
            ClientModel::Unrecognized => ClientKind::Unrecognized,
        }
    }
}

/// The dispatch table: the kind that an opcode and a payload select.
/// A payload without a first byte, or a pair that is not listed, selects
/// `Unrecognized`.
pub open spec fn kind_of(code: u8, data: Seq<u8>) -> ClientKind {
    if data.len() == 0 {
        ClientKind::Unrecognized
    } else if code == CLIENT_TIME_CODE && data[0] == 0x00 {
        ClientKind::ClientTime
    } else if code == ACCOUNT_CODE && data[0] == 0x01 {
        ClientKind::AccountLoginRequest
    } else if code == CHARACTER_CODE && data[0] == 0x00 {
        ClientKind::CharacterListRequest
    } else if code == CHARACTER_CODE && data[0] == 0x01 {
        ClientKind::CharacterCreate
    } else if code == CHARACTER_CODE && data[0] == 0x02 {
        ClientKind::CharacterDelete
    } else if code == CHARACTER_CODE && data[0] == 0x03 {
        ClientKind::CharacterJoinRequest
    } else {
        ClientKind::Unrecognized
    }
}

/// The payload length, sub-opcode included, that the layout of a kind prescribes.
pub open spec fn payload_len(kind: ClientKind) -> nat {
    match kind {
        ClientKind::ClientTime => 9,
        ClientKind::AccountLoginRequest => 46,
        ClientKind::CharacterListRequest => 1,
        ClientKind::CharacterCreate => 12,
        ClientKind::CharacterDelete => 21,
        ClientKind::CharacterJoinRequest => 11,
        ClientKind::Unrecognized => 0,
    }
}

/// Whether `data` is a structurally valid payload for `kind`: it has the
/// prescribed length and every enumerated field holds a listed value.
pub open spec fn well_formed(kind: ClientKind, data: Seq<u8>) -> bool {
    match kind {
        ClientKind::Unrecognized => true,
        ClientKind::CharacterCreate => data.len() == payload_len(kind) && class_of_code(
            data[11],
        ).is_some(),
        _ => data.len() == payload_len(kind),
    }
}

/// The contents of a structurally valid payload of the given kind.
pub open spec fn contents(kind: ClientKind, data: Seq<u8>) -> ClientModel {
    match kind {
        ClientKind::ClientTime => ClientModel::ClientTime {
            time: le_u32(data.subrange(1, 5)),
            attack_speed: le_u16(data.subrange(5, 7)),
            magic_speed: le_u16(data.subrange(7, 9)),
        },
        ClientKind::AccountLoginRequest => ClientModel::AccountLoginRequest {
            username: text_of(data.subrange(1, 11)),
            password: text_of(data.subrange(11, 21)),
            time: le_u32(data.subrange(21, 25)),
            version: data.subrange(25, 30),
            serial: data.subrange(30, 46),
        },
        ClientKind::CharacterListRequest => ClientModel::CharacterListRequest,
        ClientKind::CharacterCreate => ClientModel::CharacterCreate {
            name: text_of(data.subrange(1, 11)),
            class: class_of_code(data[11]).unwrap(),
        },
        ClientKind::CharacterDelete => ClientModel::CharacterDelete {
            name: text_of(data.subrange(1, 11)),
            security_code: text_of(data.subrange(11, 21)),
        },
        ClientKind::CharacterJoinRequest => ClientModel::CharacterJoinRequest {
            name: text_of(data.subrange(1, 11)),
        },
        ClientKind::Unrecognized => ClientModel::Unrecognized,
    }
}

/// Why a payload of the given kind is rejected, for one that is not well formed.
pub open spec fn defect(kind: ClientKind, data: Seq<u8>) -> DecodeError {
    if data.len() != payload_len(kind) {
        DecodeError::InvalidLength
    } else {
        DecodeError::InvalidClass
    }
}

/// What decoding a packet with this opcode and payload gives.
pub open spec fn decode(code: u8, data: Seq<u8>) -> Result<ClientModel, DecodeError> {
    let kind = kind_of(code, data);
    if well_formed(kind, data) {
        Ok(contents(kind, data))
    } else {
        Err(defect(kind, data))
    }
}

/// Whether an exec decoding result is the given model result.
pub open spec fn decoded_as(
    got: Result<Client, DecodeError>,
    want: Result<ClientModel, DecodeError>,
) -> bool {
    match got {
        Ok(message) => want == Ok::<ClientModel, DecodeError>(message@),
        Err(error) => want == Err::<ClientModel, DecodeError>(error),
    }
}

impl ClientTime {
    /// Decodes the payload of a timing report.
    pub fn from_payload(data: &Vec<u8>) -> (r: Result<ClientTime, DecodeError>)
        ensures
            decoded_as(
                match r {
                    Ok(p) => Ok(Client::ClientTime(p)),
                    Err(e) => Err(e),
                },
                if well_formed(ClientKind::ClientTime, data@) {
                    Ok(contents(ClientKind::ClientTime, data@))
                } else {
                    Err(defect(ClientKind::ClientTime, data@))
                },
            ),
    {
        if data.len() != 9 {
            return Err(DecodeError::InvalidLength);
        }
        Ok(
            ClientTime {
                time: read_u32_le(data, 1),
                attack_speed: read_u16_le(data, 5),
                magic_speed: read_u16_le(data, 7),
            },
        )
    }
}

impl AccountLoginRequest {
    /// Decodes the payload of a login attempt.
    pub fn from_payload(data: &Vec<u8>) -> (r: Result<AccountLoginRequest, DecodeError>)
        ensures
            decoded_as(
                match r {
                    Ok(p) => Ok(Client::AccountLoginRequest(p)),
                    Err(e) => Err(e),
                },
                if well_formed(ClientKind::AccountLoginRequest, data@) {
                    Ok(contents(ClientKind::AccountLoginRequest, data@))
                } else {
                    Err(defect(ClientKind::AccountLoginRequest, data@))
                },
            ),
    {
        if data.len() != 1 + 2 * TEXT_FIELD + 4 + VERSION_FIELD + SERIAL_FIELD {
            return Err(DecodeError::InvalidLength);
        }
        Ok(
            AccountLoginRequest {
                username: read_text(data, 1, TEXT_FIELD),
                password: read_text(data, 11, TEXT_FIELD),
                time: read_u32_le(data, 21),
                version: read_bytes(data, 25, VERSION_FIELD),
                serial: read_bytes(data, 30, SERIAL_FIELD),
            },
        )
    }
}

impl CharacterCreate {
    /// Decodes the payload of a request to create a character.
    pub fn from_payload(data: &Vec<u8>) -> (r: Result<CharacterCreate, DecodeError>)
        ensures
            decoded_as(
                match r {
                    Ok(p) => Ok(Client::CharacterCreate(p)),
                    Err(e) => Err(e),
                },
                if well_formed(ClientKind::CharacterCreate, data@) {
                    Ok(contents(ClientKind::CharacterCreate, data@))
                } else {
                    Err(defect(ClientKind::CharacterCreate, data@))
                },
            ),
    {
        if data.len() != 2 + TEXT_FIELD {
            return Err(DecodeError::InvalidLength);
        }
        match Class::from_code(data[11]) {
            Some(class) => Ok(CharacterCreate { name: read_text(data, 1, TEXT_FIELD), class }),
            None => Err(DecodeError::InvalidClass),
        }
    }
}

impl CharacterDelete {
    /// Decodes the payload of a request to delete a character.
    pub fn from_payload(data: &Vec<u8>) -> (r: Result<CharacterDelete, DecodeError>)
        ensures
            decoded_as(
                match r {
                    Ok(p) => Ok(Client::CharacterDelete(p)),
                    Err(e) => Err(e),
                },
                if well_formed(ClientKind::CharacterDelete, data@) {
                    Ok(contents(ClientKind::CharacterDelete, data@))
                } else {
                    Err(defect(ClientKind::CharacterDelete, data@))
                },
            ),
    {
        if data.len() != 1 + 2 * TEXT_FIELD {
            return Err(DecodeError::InvalidLength);
        }
        Ok(
            CharacterDelete {
                name: read_text(data, 1, TEXT_FIELD),
                security_code: read_text(data, 11, TEXT_FIELD),
            },
        )
    }
}

impl CharacterJoinRequest {
    /// Decodes the payload of a request to enter the world.
    pub fn from_payload(data: &Vec<u8>) -> (r: Result<CharacterJoinRequest, DecodeError>)
        ensures
            decoded_as(
                match r {
                    Ok(p) => Ok(Client::CharacterJoinRequest(p)),
                    Err(e) => Err(e),
                },
                if well_formed(ClientKind::CharacterJoinRequest, data@) {
                    Ok(contents(ClientKind::CharacterJoinRequest, data@))
                } else {
                    Err(defect(ClientKind::CharacterJoinRequest, data@))
                },
            ),
    {
        if data.len() != 1 + TEXT_FIELD {
            return Err(DecodeError::InvalidLength);
        }
        Ok(CharacterJoinRequest { name: read_text(data, 1, TEXT_FIELD) })
    }
}

impl Client {
    /// Constructs a client packet from an unidentified one.
    ///
    /// A pair of opcode and sub-opcode outside the table gives
    /// `Unrecognized`; an error comes only from a payload that its own
    /// layout rejects.
    pub fn from_packet(packet: &Packet) -> (r: Result<Client, DecodeError>)
        ensures
            decoded_as(r, decode(packet.code, packet.data@)),
    {
        let data = &packet.data;
        if data.len() == 0 {
            return Ok(Client::Unrecognized);
        }
        let code: u8 = packet.code;
        let subcode: u8 = data[0];
        if code == CLIENT_TIME_CODE && subcode == 0x00 {
            match ClientTime::from_payload(data) {
                Ok(p) => Ok(Client::ClientTime(p)),
                Err(e) => Err(e),
            }
        } else if code == ACCOUNT_CODE && subcode == 0x01 {
            match AccountLoginRequest::from_payload(data) {
                Ok(p) => Ok(Client::AccountLoginRequest(p)),
                Err(e) => Err(e),
            }
        } else if code == CHARACTER_CODE && subcode == 0x00 {
            if data.len() != 1 {
                Err(DecodeError::InvalidLength)
            } else {
                Ok(Client::CharacterListRequest)
            }
        } else if code == CHARACTER_CODE && subcode == 0x01 {
            match CharacterCreate::from_payload(data) {
                Ok(p) => Ok(Client::CharacterCreate(p)),
                Err(e) => Err(e),
            }
        } else if code == CHARACTER_CODE && subcode == 0x02 {
            match CharacterDelete::from_payload(data) {
                Ok(p) => Ok(Client::CharacterDelete(p)),
                Err(e) => Err(e),
            }
        } else if code == CHARACTER_CODE && subcode == 0x03 {
            match CharacterJoinRequest::from_payload(data) {
                Ok(p) => Ok(Client::CharacterJoinRequest(p)),
                Err(e) => Err(e),
            }
        } else {
            Ok(Client::Unrecognized)
        }
    }
}

/// The class bytes and the classes stand one for one: a class is read back
/// from its byte, and a byte that names a class is the byte of that class.
pub proof fn lemma_class_codes_round_trip(class: Class, code: u8)
    ensures
        class_of_code(class.spec_code()) == Some(class),
        class_of_code(code) matches Some(named) ==> named.spec_code() == code,
{
}

/// Decoding a structurally valid payload of a listed pair never fails and
/// gives a message of the kind that the pair selects.
pub proof fn lemma_valid_payload_decodes(code: u8, data: Seq<u8>)
    requires
        kind_of(code, data) != ClientKind::Unrecognized,
        well_formed(kind_of(code, data), data),
    ensures
        decode(code, data).is_ok(),
        decode(code, data).unwrap().kind() == kind_of(code, data),
        decode(code, data).unwrap() == contents(kind_of(code, data), data),
{
}

/// A pair of opcode and sub-opcode outside the table decodes to
/// `Unrecognized`, whatever the payload holds, and never to an error.
pub proof fn lemma_unlisted_pair_is_unrecognized(code: u8, data: Seq<u8>)
    requires
        kind_of(code, data) == ClientKind::Unrecognized,
    ensures
        decode(code, data) == Ok::<ClientModel, DecodeError>(ClientModel::Unrecognized),
{
}

/// Decoding fails exactly on a listed pair whose payload its layout rejects.
pub proof fn lemma_decode_error_iff_malformed(code: u8, data: Seq<u8>)
    ensures
        decode(code, data).is_err() <==> !well_formed(kind_of(code, data), data),
        decode(code, data).is_err() ==> kind_of(code, data) != ClientKind::Unrecognized,
{
}

} // verus!

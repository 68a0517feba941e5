//! Protocol-wide enumerations and fixed values: DCE/RPC packet types,
//! opnums, interface versions, PNIO block header types, and the tower
//! floor protocol identifiers of the endpoint mapper.

use vstd::prelude::*;

verus! {

/// The `max_count` used by IOD read requests.
pub const READ_MAX_COUNT: u32 = 65584;

/// The well-known DCE/RPC endpoint-mapper interface UUID, in standard
/// byte order (e1af8308-5d1f-11c9-91a4-08002b14a0fa).
pub const LOOKUP_INTERFACE_UUID: [u8; 16] = [0xe1, 0xaf, 0x83, 0x08, 0x5d, 0x1f, 0x11, 0xc9, 0x91,
    0xa4, 0x08, 0x00, 0x2b, 0x14, 0xa0, 0xfa];

/// Protocol identifier of one floor in an endpoint-mapper tower.
#[derive(Debug, Copy, Clone, PartialEq, Eq, Structural)]
pub enum TowerFloorProtocol {
    Uuid,
    RpcConnectionlessProtocol,
    Udp,
    Ip,
}

impl TowerFloorProtocol {
    /// The identifier byte carried on the wire for this protocol.
    pub open spec fn spec_value(self) -> u8 {
        match self {
            TowerFloorProtocol::Uuid => 0x0d,
            TowerFloorProtocol::RpcConnectionlessProtocol => 0x0a,
            TowerFloorProtocol::Udp => 0x08,
            TowerFloorProtocol::Ip => 0x09,
        }
    }

    /// The protocol a wire byte denotes, if any.
    pub open spec fn spec_from_u8(value: u8) -> Option<Self> {
        match value {
            0x0d => Some(TowerFloorProtocol::Uuid),
            0x0a => Some(TowerFloorProtocol::RpcConnectionlessProtocol),
            0x08 => Some(TowerFloorProtocol::Udp),
            0x09 => Some(TowerFloorProtocol::Ip),
            _ => None,
        }
    }

    pub fn from_u8(value: u8) -> (r: Option<Self>)
        ensures
            r == Self::spec_from_u8(value),
    {
        match value {
            0x0d => Some(Self::Uuid),
            0x0a => Some(Self::RpcConnectionlessProtocol),
            0x08 => Some(Self::Udp),
            0x09 => Some(Self::Ip),
            _ => None,
        }
    }

    pub fn value(self) -> (r: u8)
        ensures
            r == self.spec_value(),
    {
        match self {
            TowerFloorProtocol::Uuid => 0x0d,
            TowerFloorProtocol::RpcConnectionlessProtocol => 0x0a,
            TowerFloorProtocol::Udp => 0x08,
            TowerFloorProtocol::Ip => 0x09,
        }
    }
}

/// DCE/RPC interface version: the endpoint-mapper lookup interface or the
/// PNIO read/write interface.
#[derive(Debug, Copy, Clone, PartialEq, Eq, Structural)]
pub enum InterfaceVersion {
    Lookup,
    ReadWrite,
}

impl InterfaceVersion {
    pub open spec fn spec_value(self) -> u32 {
        match self {
            InterfaceVersion::Lookup => 3,
            InterfaceVersion::ReadWrite => 1,
        }
    }

    pub open spec fn spec_from_u32(value: u32) -> Option<Self> {
        match value {
            3u32 => Some(InterfaceVersion::Lookup),
            1u32 => Some(InterfaceVersion::ReadWrite),
            _ => None,
        }
    }

    pub fn from_u32(value: u32) -> (r: Option<Self>)
        ensures
            r == Self::spec_from_u32(value),
    {
        match value {
            3u32 => Some(Self::Lookup),
            1u32 => Some(Self::ReadWrite),
            _ => None,
        }
    }

    pub fn value(self) -> (r: u32)
        ensures
            r == self.spec_value(),
    {
        match self {
            InterfaceVersion::Lookup => 3,
            InterfaceVersion::ReadWrite => 1,
        }
    }
}

/// DCE/RPC operation number.
#[derive(Debug, Copy, Clone, PartialEq, Eq, Structural)]
pub enum OpNum {
    Write,
    Read,
    Connect,
}

impl OpNum {
    pub open spec fn spec_value(self) -> u16 {
        match self {
            OpNum::Write => 3,
            OpNum::Read => 2,
            OpNum::Connect => 0,
        }
    }

    pub open spec fn spec_from_u16(value: u16) -> Option<Self> {
        match value {
            3u16 => Some(OpNum::Write),
            2u16 => Some(OpNum::Read),
            0u16 => Some(OpNum::Connect),
            _ => None,
        }
    }

    pub fn from_u16(value: u16) -> (r: Option<Self>)
        ensures
            r == Self::spec_from_u16(value),
    {
        match value {
            3u16 => Some(Self::Write),
            2u16 => Some(Self::Read),
            0u16 => Some(Self::Connect),
            _ => None,
        }
    }

    pub fn value(self) -> (r: u16)
        ensures
            r == self.spec_value(),
    {
        match self {
            OpNum::Write => 3,
            OpNum::Read => 2,
            OpNum::Connect => 0,
        }
    }
}

/// DCE/RPC packet type.
#[derive(Debug, Copy, Clone, PartialEq, Eq, Structural)]
pub enum PacketType {
    Request,
    Response,
    Reject,
}

impl PacketType {
    pub open spec fn spec_value(self) -> u8 {
        match self {
            PacketType::Request => 0x00,
            PacketType::Response => 0x02,
            PacketType::Reject => 0x06,
        }
    }

    pub open spec fn spec_from_u8(value: u8) -> Option<Self> {
        match value {
            0x00u8 => Some(PacketType::Request),
            0x02u8 => Some(PacketType::Response),
            0x06u8 => Some(PacketType::Reject),
            _ => None,
        }
    }

    pub fn from_u8(value: u8) -> (r: Option<Self>)
        ensures
            r == Self::spec_from_u8(value),
    {
        match value {
            0x00u8 => Some(Self::Request),
            0x02u8 => Some(Self::Response),
            0x06u8 => Some(Self::Reject),
            _ => None,
        }
    }

    pub fn value(self) -> (r: u8)
        ensures
            r == self.spec_value(),
    {
        match self {
            PacketType::Request => 0x00,
            PacketType::Response => 0x02,
            PacketType::Reject => 0x06,
        }
    }
}

/// PNIO block header type.
#[derive(Debug, Copy, Clone, PartialEq, Eq, Structural)]
pub enum BlockHeaderType {
    ArBlockReqType,
    ArBlockResType,
    IodReadReqType,
    IodReadResType,
    IodWriteReqType,
    IodWriteResType,
}

impl BlockHeaderType {
    pub open spec fn spec_value(self) -> u16 {
        match self {
            BlockHeaderType::ArBlockReqType => 0x0101,
            BlockHeaderType::ArBlockResType => 0x8101,
            BlockHeaderType::IodReadReqType => 0x0009,
            BlockHeaderType::IodReadResType => 0x8009,
            BlockHeaderType::IodWriteReqType => 0x0008,
            BlockHeaderType::IodWriteResType => 0x8008,
        }
    }

    pub open spec fn spec_from_u16(value: u16) -> Option<Self> {
        match value {
            0x0101u16 => Some(BlockHeaderType::ArBlockReqType),
            0x8101u16 => Some(BlockHeaderType::ArBlockResType),
            0x0009u16 => Some(BlockHeaderType::IodReadReqType),
            0x8009u16 => Some(BlockHeaderType::IodReadResType),
            0x0008u16 => Some(BlockHeaderType::IodWriteReqType),
            0x8008u16 => Some(BlockHeaderType::IodWriteResType),
            _ => None,
        }
    }

    pub fn from_u16(value: u16) -> (r: Option<Self>)
        ensures
            r == Self::spec_from_u16(value),
    {
        match value {
            0x0101u16 => Some(Self::ArBlockReqType),
            0x8101u16 => Some(Self::ArBlockResType),
            0x0009u16 => Some(Self::IodReadReqType),
            0x8009u16 => Some(Self::IodReadResType),
            0x0008u16 => Some(Self::IodWriteReqType),
            0x8008u16 => Some(Self::IodWriteResType),
            _ => None,
        }
    }

    pub fn value(self) -> (r: u16)
        ensures
            r == self.spec_value(),
    {
        match self {
            BlockHeaderType::ArBlockReqType => 0x0101,
            BlockHeaderType::ArBlockResType => 0x8101,
            BlockHeaderType::IodReadReqType => 0x0009,
            BlockHeaderType::IodReadResType => 0x8009,
            BlockHeaderType::IodWriteReqType => 0x0008,
            BlockHeaderType::IodWriteResType => 0x8008,
        }
    }
}

} // verus!

//! The DCE/RPC v4 connectionless header: an 80-byte fixed header followed
//! by stub data (an endpoint-mapper stub or a PNIO envelope).

use vstd::prelude::*;
use crate::error::DecodeError;
use crate::protocol::constant::{InterfaceVersion, OpNum, PacketType};
use crate::protocol::packet::Packet;
use crate::protocol::wire::{
    push_bytes, push_le16, push_le32, push_repeat, push_vec, read_array16, read_u16_le,
    read_u32_le, spec_le16, spec_le32, spec_u16_le, spec_u32_le, spec_uuid_le, spec_zeros,
};

verus! {

/// A DCE/RPC v4 connectionless packet. The UUID fields hold the bytes in
/// the order they appear on the wire (the little-endian field order of
/// DCE/RPC); `data` is the stub that follows the 80-byte header.
pub struct DceRpcPacket {
    pub packet_type: PacketType,
    pub obj_uuid: [u8; 16],
    pub interface: [u8; 16],
    pub activity: [u8; 16],
    pub interface_ver: InterfaceVersion,
    pub seq_num: u32,
    pub opnum: OpNum,
    pub data: Vec<u8>,
}

impl DceRpcPacket {
    /// The 80-byte header in front of the stub data.
    pub open spec fn spec_header(self) -> Seq<u8> {
        seq![0x04u8, self.packet_type.spec_value(), 0x20u8, 0x00u8, 0x10u8, 0x00u8, 0x00u8, 0x00u8]
            + self.obj_uuid@ + self.interface@ + self.activity@ + spec_zeros(4) + spec_le32(
            self.interface_ver.spec_value(),
        ) + spec_le32(self.seq_num) + spec_le16(self.opnum.spec_value()) + seq![0xffu8, 0xffu8,
            0xffu8, 0xffu8] + spec_le16(self.data@.len() as u16) + spec_zeros(4)
    }

    /// A packet whose stub fits the 16-bit fragment length field.
    pub open spec fn wf(self) -> bool {
        self.data@.len() <= 0xffff
    }

    /// Builds a request or response packet. The three UUIDs are given in
    /// standard byte order and are stored in wire order.
    pub fn new(
        packet_type: PacketType,
        obj_uuid: [u8; 16],
        interface: [u8; 16],
        interface_ver: InterfaceVersion,
        activity: [u8; 16],
        seq_num: u32,
        opnum: OpNum,
        data: Vec<u8>,
    ) -> (r: Self)
        ensures
            r.packet_type == packet_type,
            r.obj_uuid@ == spec_uuid_le(obj_uuid@),
            r.interface@ == spec_uuid_le(interface@),
            r.activity@ == spec_uuid_le(activity@),
            r.interface_ver == interface_ver,
            r.seq_num == seq_num,
            r.opnum == opnum,
            r.data == data,
    {
        DceRpcPacket {
            packet_type,
            obj_uuid: crate::protocol::wire::uuid_le(&obj_uuid),
            interface: crate::protocol::wire::uuid_le(&interface),
            activity: crate::protocol::wire::uuid_le(&activity),
            interface_ver,
            seq_num,
            opnum,
            data,
        }
    }

    /// True when a buffer decodes to a packet: it holds a full header and
    /// its packet type, interface version and opnum bytes are recognised.
    pub open spec fn spec_decodable(bytes: Seq<u8>) -> bool {
        &&& bytes.len() >= 80
        &&& PacketType::spec_from_u8(bytes[1]) is Some
        &&& InterfaceVersion::spec_from_u32(
            spec_u32_le(bytes[60], bytes[61], bytes[62], bytes[63]),
        ) is Some
        &&& OpNum::spec_from_u16(spec_u16_le(bytes[68], bytes[69])) is Some
    }

    /// Decodes a received datagram. Succeeds exactly on the buffers that
    /// `spec_decodable` admits; every header field of the result is the
    /// value read at its wire offset, and `data` is everything from offset
    /// 80 on.
    pub fn decode(bytes: &Vec<u8>) -> (r: Result<Self, DecodeError>)
        ensures
            r is Ok <==> Self::spec_decodable(bytes@),
            r matches Ok(p) ==> {
                &&& Some(p.packet_type) == PacketType::spec_from_u8(bytes@[1])
                &&& p.obj_uuid@ == bytes@.subrange(8, 24)
                &&& p.interface@ == bytes@.subrange(24, 40)
                &&& p.activity@ == bytes@.subrange(40, 56)
                &&& Some(p.interface_ver) == InterfaceVersion::spec_from_u32(
                    spec_u32_le(bytes@[60], bytes@[61], bytes@[62], bytes@[63]),
                )
                &&& p.seq_num == spec_u32_le(bytes@[64], bytes@[65], bytes@[66], bytes@[67])
                &&& Some(p.opnum) == OpNum::spec_from_u16(spec_u16_le(bytes@[68], bytes@[69]))
                &&& p.data@ == bytes@.subrange(80, bytes@.len() as int)
            },
    {
        let n: usize = bytes.len();
        if n < 80 {
            return Err(DecodeError);
        }
        let packet_type = match PacketType::from_u8(bytes[1]) {
            Some(p) => p,
            None => {
                return Err(DecodeError);
            },
        };
        let obj_uuid = read_array16(bytes, 8);
        let interface = read_array16(bytes, 24);
        let activity = read_array16(bytes, 40);
        let interface_ver = match InterfaceVersion::from_u32(read_u32_le(bytes, 60)) {
            Some(iv) => iv,
            None => {
                return Err(DecodeError);
            },
        };
        let seq_num = read_u32_le(bytes, 64);
        let opnum = match OpNum::from_u16(read_u16_le(bytes, 68)) {
            Some(o) => o,
            None => {
                return Err(DecodeError);
            },
        };
        let data = crate::protocol::wire::copy_range(bytes, 80, n - 80);
        Ok(
            DceRpcPacket {
                packet_type,
                obj_uuid,
                interface,
                activity,
                interface_ver,
                seq_num,
                opnum,
                data,
            },
        )
    }
}

impl Packet for DceRpcPacket {
    open spec fn valid(&self) -> bool {
        self.wf()
    }

    open spec fn spec_encoding(&self) -> Seq<u8> {
        self.spec_header() + self.data@
    }

    fn concat(&self) -> (r: Vec<u8>) {
        let mut v: Vec<u8> = Vec::new();
        v.push(0x04);
        v.push(self.packet_type.value());
        v.push(0x20);
        v.push(0x00);
        v.push(0x10);
        v.push(0x00);
        v.push(0x00);
        v.push(0x00);
        push_bytes(&mut v, &self.obj_uuid);
        push_bytes(&mut v, &self.interface);
        push_bytes(&mut v, &self.activity);
        push_repeat(&mut v, 0x00, 4);
        push_le32(&mut v, self.interface_ver.value());
        push_le32(&mut v, self.seq_num);
        push_le16(&mut v, self.opnum.value());
        push_repeat(&mut v, 0xff, 4);
        push_le16(&mut v, self.data.len() as u16);
        push_repeat(&mut v, 0x00, 4);
        assert(v@ =~= self.spec_header());
        push_vec(&mut v, &self.data);
        assert(v@ =~= self.spec_encoding());
        v
    }

    fn size(&self) -> (r: usize) {
        assert(self.spec_encoding().len() == 80 + self.data@.len());
        80 + self.data.len()
    }
}

/// The header layout: where each field of a well-formed packet lands in
/// its encoding.
pub proof fn lemma_dcerpc_layout(p: DceRpcPacket)
    requires
        p.wf(),
    ensures
        p.spec_encoding().len() == 80 + p.data@.len(),
        p.spec_encoding()[1] == p.packet_type.spec_value(),
        p.spec_encoding().subrange(8, 24) == p.obj_uuid@,
        p.spec_encoding().subrange(24, 40) == p.interface@,
        p.spec_encoding().subrange(40, 56) == p.activity@,
        p.spec_encoding().subrange(60, 64) == spec_le32(p.interface_ver.spec_value()),
        p.spec_encoding().subrange(64, 68) == spec_le32(p.seq_num),
        p.spec_encoding().subrange(68, 70) == spec_le16(p.opnum.spec_value()),
        p.spec_encoding().subrange(74, 76) == spec_le16(p.data@.len() as u16),
        p.spec_encoding().subrange(80, p.spec_encoding().len() as int) == p.data@,
{
    let e = p.spec_encoding();
    assert(e.subrange(8, 24) =~= p.obj_uuid@);
    assert(e.subrange(24, 40) =~= p.interface@);
    assert(e.subrange(40, 56) =~= p.activity@);
    assert(e.subrange(60, 64) =~= spec_le32(p.interface_ver.spec_value()));
    assert(e.subrange(64, 68) =~= spec_le32(p.seq_num));
    assert(e.subrange(68, 70) =~= spec_le16(p.opnum.spec_value()));
    assert(e.subrange(74, 76) =~= spec_le16(p.data@.len() as u16));
    assert(e.subrange(80, e.len() as int) =~= p.data@);
}

/// Decoding an encoded packet restores it field for field, and the
/// fragment length carried at offset 74 equals the stub length.
pub proof fn lemma_dcerpc_round_trip(p: DceRpcPacket)
    requires
        p.wf(),
    ensures
        DceRpcPacket::spec_decodable(p.spec_encoding()),
        ({
            let e = p.spec_encoding();
            &&& PacketType::spec_from_u8(e[1]) == Some(p.packet_type)
            &&& e.subrange(8, 24) == p.obj_uuid@
            &&& e.subrange(24, 40) == p.interface@
            &&& e.subrange(40, 56) == p.activity@
            &&& InterfaceVersion::spec_from_u32(spec_u32_le(e[60], e[61], e[62], e[63])) == Some(
                p.interface_ver,
            )
            &&& spec_u32_le(e[64], e[65], e[66], e[67]) == p.seq_num
            &&& OpNum::spec_from_u16(spec_u16_le(e[68], e[69])) == Some(p.opnum)
            &&& e.subrange(80, e.len() as int) == p.data@
            &&& spec_u16_le(e[74], e[75]) == p.data@.len()
        }),
{
    lemma_dcerpc_layout(p);
    let e = p.spec_encoding();
    assert(e[1] == p.packet_type.spec_value());
    assert(PacketType::spec_from_u8(p.packet_type.spec_value()) == Some(p.packet_type));
    assert(e[60] == spec_le32(p.interface_ver.spec_value())[0] && e[61] == spec_le32(
        p.interface_ver.spec_value(),
    )[1] && e[62] == spec_le32(p.interface_ver.spec_value())[2] && e[63] == spec_le32(
        p.interface_ver.spec_value(),
    )[3]) by {
        assert(e.subrange(60, 64)[0] == e[60]);
        assert(e.subrange(60, 64)[1] == e[61]);
        assert(e.subrange(60, 64)[2] == e[62]);
        assert(e.subrange(60, 64)[3] == e[63]);
    }
    crate::protocol::wire::lemma_le32_round_trip(p.interface_ver.spec_value());
    assert(InterfaceVersion::spec_from_u32(p.interface_ver.spec_value()) == Some(p.interface_ver));
    assert(e[64] == spec_le32(p.seq_num)[0] && e[65] == spec_le32(p.seq_num)[1] && e[66]
        == spec_le32(p.seq_num)[2] && e[67] == spec_le32(p.seq_num)[3]) by {
        assert(e.subrange(64, 68)[0] == e[64]);
        assert(e.subrange(64, 68)[1] == e[65]);
        assert(e.subrange(64, 68)[2] == e[66]);
        assert(e.subrange(64, 68)[3] == e[67]);
    }
    crate::protocol::wire::lemma_le32_round_trip(p.seq_num);
    assert(e[68] == spec_le16(p.opnum.spec_value())[0] && e[69] == spec_le16(
        p.opnum.spec_value(),
    )[1]) by {
        assert(e.subrange(68, 70)[0] == e[68]);
        assert(e.subrange(68, 70)[1] == e[69]);
    }
    crate::protocol::wire::lemma_le16_round_trip(p.opnum.spec_value());
    assert(OpNum::spec_from_u16(p.opnum.spec_value()) == Some(p.opnum));
    assert(e[74] == spec_le16(p.data@.len() as u16)[0] && e[75] == spec_le16(
        p.data@.len() as u16,
    )[1]) by {
        assert(e.subrange(74, 76)[0] == e[74]);
        assert(e.subrange(74, 76)[1] == e[75]);
    }
    crate::protocol::wire::lemma_le16_round_trip(p.data@.len() as u16);
}

} // verus!

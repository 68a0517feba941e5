//! The endpoint-mapper lookup response: a context handle, entry counts,
//! and a single entry holding an object UUID and a tower of floors. Each
//! floor names a protocol and may carry a UUID, a UDP port or an IPv4
//! address.

use vstd::prelude::*;
use crate::error::DecodeError;
use crate::protocol::constant::TowerFloorProtocol;
use crate::protocol::wire::{
    copy_range, read_array16, read_array4, read_u16_le, read_u32_le, spec_u16_be, spec_u16_le,
    spec_u32_le, spec_uuid_le, uuid_le,
};

verus! {

/// One parsed tower floor. A UUID floor carries its UUID (stored in
/// standard byte order), a UDP floor its big-endian port, an IP floor its
/// address bytes.
pub struct TowerFloor {
    pub lhs_length: u16,
    pub rhs_length: u16,
    pub protocol: TowerFloorProtocol,
    pub uuid: Option<[u8; 16]>,
    pub udp_port: Option<u16>,
    pub ipv4: Option<[u8; 4]>,
}

/// The mathematical shape of a parsed floor.
pub struct TowerFloorView {
    pub lhs_length: u16,
    pub rhs_length: u16,
    pub protocol: TowerFloorProtocol,
    pub uuid: Option<Seq<u8>>,
    pub udp_port: Option<u16>,
    pub ipv4: Option<Seq<u8>>,
}

impl View for TowerFloor {
    type V = TowerFloorView;

    open spec fn view(&self) -> TowerFloorView {
        TowerFloorView {
            lhs_length: self.lhs_length,
            rhs_length: self.rhs_length,
            protocol: self.protocol,
            uuid: match self.uuid {
                Some(u) => Some(u@),
                None => None,
            },
            udp_port: self.udp_port,
            ipv4: match self.ipv4 {
                Some(p) => Some(p@),
                None => None,
            },
        }
    }
}

/// The views of a sequence of floors.
pub open spec fn spec_floor_views(floors: Seq<TowerFloor>) -> Seq<TowerFloorView> {
    floors.map_values(|f: TowerFloor| f@)
}

/// Parses one floor at `pos`: two bytes of lhs length, the protocol byte,
/// the lhs payload, two bytes of rhs length, the rhs payload. `None`
/// stands for a malformed floor; `Some((None, next))` for a floor with an
/// unrecognised protocol, which is skipped; `Some((Some(f), next))` for a
/// parsed floor. `next` may point past the buffer when the last floor's
/// lengths overhang it.
pub open spec fn spec_parse_floor(b: Seq<u8>, pos: int) -> Option<
    (Option<TowerFloorView>, int),
> {
    if pos + 3 > b.len() {
        None
    } else {
        let lhs = spec_u16_le(b[pos], b[pos + 1]) as int;
        let rhs_start = pos + 2 + lhs;
        if rhs_start + 2 > b.len() {
            None
        } else {
            let rhs = spec_u16_le(b[rhs_start], b[rhs_start + 1]) as int;
            let next = pos + 4 + lhs + rhs;
            match TowerFloorProtocol::spec_from_u8(b[pos + 2]) {
                None => Some((None, next)),
                Some(p) => {
                    let base = TowerFloorView {
                        lhs_length: spec_u16_le(b[pos], b[pos + 1]),
                        rhs_length: spec_u16_le(b[rhs_start], b[rhs_start + 1]),
                        protocol: p,
                        uuid: None,
                        udp_port: None,
                        ipv4: None,
                    };
                    match p {
                        TowerFloorProtocol::Uuid => {
                            if pos + 19 > b.len() {
                                None
                            } else {
                                Some(
                                    (
                                        Some(
                                            TowerFloorView {
                                                uuid: Some(
                                                    spec_uuid_le(b.subrange(pos + 3, pos + 19)),
                                                ),
                                                ..base
                                            },
                                        ),
                                        next,
                                    ),
                                )
                            }
                        },
                        TowerFloorProtocol::Udp => {
                            if rhs_start + 4 > b.len() {
                                None
                            } else {
                                Some(
                                    (
                                        Some(
                                            TowerFloorView {
                                                udp_port: Some(
                                                    spec_u16_be(b[rhs_start + 2], b[rhs_start + 3]),
                                                ),
                                                ..base
                                            },
                                        ),
                                        next,
                                    ),
                                )
                            }
                        },
                        TowerFloorProtocol::Ip => {
                            if rhs_start + 6 > b.len() {
                                None
                            } else {
                                Some(
                                    (
                                        Some(
                                            TowerFloorView {
                                                ipv4: Some(
                                                    b.subrange(rhs_start + 2, rhs_start + 6),
                                                ),
                                                ..base
                                            },
                                        ),
                                        next,
                                    ),
                                )
                            }
                        },
                        TowerFloorProtocol::RpcConnectionlessProtocol => Some((Some(base), next)),
                    }
                },
            }
        }
    }
}

/// Parses `k` floors starting at `pos`, collecting the recognised ones in
/// order. `None` stands for a malformed tower.
pub open spec fn spec_parse_floors(b: Seq<u8>, pos: int, k: nat) -> Option<
    (Seq<TowerFloorView>, int),
>
    decreases k,
{
    if k == 0 {
        Some((Seq::empty(), pos))
    } else {
        match spec_parse_floor(b, pos) {
            None => None,
            Some((fopt, next)) => match spec_parse_floors(b, next, (k - 1) as nat) {
                None => None,
                Some((rest, end)) => match fopt {
                    Some(f) => Some((seq![f] + rest, end)),
                    None => Some((rest, end)),
                },
            },
        }
    }
}

/// Parses one floor at `pos` of `bytes`. Mirrors `spec_parse_floor`; the
/// second component of a success is `None` when the floor's lengths point
/// past the buffer, in which case no further floor can be parsed.
fn parse_floor(bytes: &Vec<u8>, pos: usize) -> (r: Result<
    (Option<TowerFloor>, Option<usize>),
    DecodeError,
>)
    requires
        pos <= bytes@.len(),
    ensures
        r is Err <==> spec_parse_floor(bytes@, pos as int) is None,
        r matches Ok((fopt, nopt)) ==> ({
            &&& spec_parse_floor(bytes@, pos as int) matches Some((sf, snext))
            &&& match (fopt, spec_parse_floor(bytes@, pos as int)->Some_0.0) {
                (Some(f), Some(sf)) => f@ == sf,
                (None, None) => true,
                _ => false,
            }
            &&& match nopt {
                Some(np) => np == spec_parse_floor(bytes@, pos as int)->Some_0.1 && np
                    <= bytes@.len(),
                None => spec_parse_floor(bytes@, pos as int)->Some_0.1 > bytes@.len(),
            }
        }),
{
    let n: usize = bytes.len();
    if n - pos < 3 {
        return Err(DecodeError);
    }
    let lhs_length = read_u16_le(bytes, pos);
    let lhs = lhs_length as usize;
    if n - pos < 3 || n - (pos + 2) < lhs || n - (pos + 2 + lhs) < 2 {
        return Err(DecodeError);
    }
    let rhs_start = pos + 2 + lhs;
    let rhs_length = read_u16_le(bytes, rhs_start);
    let rhs = rhs_length as usize;
    let after_rhs_len = rhs_start + 2;
    let nopt: Option<usize> = if n - after_rhs_len >= rhs {
        Some(after_rhs_len + rhs)
    } else {
        None
    };
    let proto_byte = bytes[pos + 2];
    let proto = match TowerFloorProtocol::from_u8(proto_byte) {
        None => {
            return Ok((None, nopt));
        },
        Some(p) => p,
    };
    let mut uuid: Option<[u8; 16]> = None;
    let mut udp_port: Option<u16> = None;
    let mut ipv4: Option<[u8; 4]> = None;
    match proto {
        TowerFloorProtocol::Uuid => {
            if n - (pos + 3) < 16 {
                return Err(DecodeError);
            }
            let wire_uuid = read_array16(bytes, pos + 3);
            uuid = Some(uuid_le(&wire_uuid));
        },
        TowerFloorProtocol::Udp => {
            if n - after_rhs_len < 2 {
                return Err(DecodeError);
            }
            udp_port = Some(crate::protocol::wire::read_u16_be(bytes, after_rhs_len));
        },
        TowerFloorProtocol::Ip => {
            if n - after_rhs_len < 4 {
                return Err(DecodeError);
            }
            ipv4 = Some(read_array4(bytes, after_rhs_len));
        },
        TowerFloorProtocol::RpcConnectionlessProtocol => {},
    }
    let floor = TowerFloor { lhs_length, rhs_length, protocol: proto, uuid, udp_port, ipv4 };
    Ok((Some(floor), nopt))
}

/// Parses `num_floors` floors starting at `start`.
fn parse_floors(bytes: &Vec<u8>, start: usize, num_floors: u16) -> (r: Result<
    Vec<TowerFloor>,
    DecodeError,
>)
    requires
        start <= bytes@.len(),
    ensures
        r is Ok <==> spec_parse_floors(bytes@, start as int, num_floors as nat) is Some,
        r matches Ok(floors) ==> spec_floor_views(floors@) == spec_parse_floors(
            bytes@,
            start as int,
            num_floors as nat,
        )->Some_0.0,
{
    let mut floors: Vec<TowerFloor> = Vec::new();
    let mut pos: usize = start;
    let mut i: u16 = 0;
    assert(spec_floor_views(floors@) =~= Seq::<TowerFloorView>::empty());
    while i < num_floors
        invariant
            i <= num_floors,
            pos <= bytes@.len(),
            spec_parse_floors(bytes@, start as int, num_floors as nat) is Some <==> (
            spec_parse_floors(bytes@, pos as int, (num_floors - i) as nat) is Some),
            spec_parse_floors(bytes@, start as int, num_floors as nat) matches Some((all, end))
                ==> spec_parse_floors(bytes@, pos as int, (num_floors - i) as nat) matches Some(
                (rest, e2),
            ) && all == spec_floor_views(floors@) + rest,
        decreases num_floors - i,
    {
        let ghost rem: nat = (num_floors - i) as nat;
        match parse_floor(bytes, pos) {
            Err(e) => {
                return Err(e);
            },
            Ok((fopt, nopt)) => {
                let ghost prev_views = spec_floor_views(floors@);
                match fopt {
                    Some(f) => {
                        let ghost fv = f@;
                        floors.push(f);
                        assert(spec_floor_views(floors@) =~= prev_views.push(fv));
                    },
                    None => {},
                }
                i = i + 1;
                match nopt {
                    Some(np) => {
                        proof {
                            let (sf, snext) = spec_parse_floor(bytes@, pos as int)->Some_0;
                            assert(spec_parse_floors(bytes@, pos as int, rem) matches Some(
                                (rest, e2),
                            ) ==> ({
                                &&& spec_parse_floors(bytes@, snext, (rem - 1) as nat) is Some
                                &&& rest == match sf {
                                    Some(f) => seq![f] + spec_parse_floors(
                                        bytes@,
                                        snext,
                                        (rem - 1) as nat,
                                    )->Some_0.0,
                                    None => spec_parse_floors(
                                        bytes@,
                                        snext,
                                        (rem - 1) as nat,
                                    )->Some_0.0,
                                }
                            }));
                            if spec_parse_floors(bytes@, start as int, num_floors as nat) is Some {
                                let all = spec_parse_floors(
                                    bytes@,
                                    start as int,
                                    num_floors as nat,
                                )->Some_0.0;
                                let rest = spec_parse_floors(bytes@, pos as int, rem)->Some_0.0;
                                let rest2 = spec_parse_floors(
                                    bytes@,
                                    snext,
                                    (rem - 1) as nat,
                                )->Some_0.0;
                                assert(all == prev_views + rest);
                                match sf {
                                    Some(f) => {
                                        assert(rest == seq![f] + rest2);
                                        assert(prev_views + rest =~= prev_views.push(f) + rest2);
                                    },
                                    None => {
                                        assert(rest == rest2);
                                    },
                                }
                            }
                        }
                        pos = np;
                    },
                    None => {
                        // The floor overhangs the buffer. Any further
                        // floor would fail its first read, so the tower
                        // is malformed unless this was the last floor.
                        if i < num_floors {
                            proof {
                                let snext = spec_parse_floor(bytes@, pos as int)->Some_0.1;
                                assert(snext > bytes@.len());
                                assert(spec_parse_floor(bytes@, snext) is None);
                                assert(spec_parse_floors(bytes@, snext, (rem - 1) as nat) is None);
                                assert(spec_parse_floors(bytes@, pos as int, rem) is None);
                            }
                            return Err(DecodeError);
                        }
                        proof {
                            let (sf, snext) = spec_parse_floor(bytes@, pos as int)->Some_0;
                            assert(spec_parse_floors(bytes@, snext, 0) == Some(
                                (Seq::<TowerFloorView>::empty(), snext),
                            ));
                            if spec_parse_floors(bytes@, start as int, num_floors as nat) is Some {
                                let all = spec_parse_floors(
                                    bytes@,
                                    start as int,
                                    num_floors as nat,
                                )->Some_0.0;
                                let rest = spec_parse_floors(bytes@, pos as int, rem)->Some_0.0;
                                match sf {
                                    Some(f) => {
                                        assert(rest =~= seq![f]);
                                        assert(all =~= spec_floor_views(floors@));
                                    },
                                    None => {
                                        assert(rest =~= Seq::<TowerFloorView>::empty());
                                        assert(all =~= spec_floor_views(floors@));
                                    },
                                }
                            }
                        }
                        return Ok(floors);
                    },
                }
            },
        }
    }
    proof {
        if spec_parse_floors(bytes@, start as int, num_floors as nat) is Some {
            let all = spec_parse_floors(bytes@, start as int, num_floors as nat)->Some_0.0;
            assert(all =~= spec_floor_views(floors@));
        }
    }
    Ok(floors)
}

/// A tower pointer: annotation metadata, the annotation bytes, two length
/// fields, and the floors.
pub struct TowerPointer {
    pub annotation_offset: u32,
    pub annotation_length: u32,
    pub annotation: Vec<u8>,
    pub length1: u32,
    pub length2: u32,
    pub num_of_floors: u16,
    pub floors: Vec<TowerFloor>,
}

impl TowerPointer {
    /// Where the annotation ends: it starts at offset 12 after the
    /// referent id, annotation offset and annotation length fields.
    pub open spec fn spec_annotation_end(b: Seq<u8>) -> int
        recommends
            b.len() >= 12,
    {
        12 + spec_u32_le(b[8], b[9], b[10], b[11]) as int
    }

    /// True when a buffer decodes to a tower pointer.
    pub open spec fn spec_decodable(b: Seq<u8>) -> bool {
        let aend = Self::spec_annotation_end(b);
        &&& b.len() >= 12
        &&& aend + 10 <= b.len()
        &&& spec_parse_floors(
            b,
            aend + 10,
            spec_u16_le(b[aend + 8], b[aend + 9]) as nat,
        ) is Some
    }

    /// The fields a buffer decodes to.
    pub open spec fn spec_decodes_to(b: Seq<u8>, r: Self) -> bool {
        let aend = Self::spec_annotation_end(b);
        &&& r.annotation_offset == spec_u32_le(b[4], b[5], b[6], b[7])
        &&& r.annotation_length == spec_u32_le(b[8], b[9], b[10], b[11])
        &&& r.annotation@ == b.subrange(12, aend)
        &&& r.length1 == spec_u32_le(b[aend], b[aend + 1], b[aend + 2], b[aend + 3])
        &&& r.length2 == spec_u32_le(b[aend + 4], b[aend + 5], b[aend + 6], b[aend + 7])
        &&& r.num_of_floors == spec_u16_le(b[aend + 8], b[aend + 9])
        &&& spec_floor_views(r.floors@) == spec_parse_floors(
            b,
            aend + 10,
            spec_u16_le(b[aend + 8], b[aend + 9]) as nat,
        )->Some_0.0
    }

    /// Decodes a tower pointer from the bytes after an entry's object
    /// UUID.
    pub fn decode(bytes: &Vec<u8>) -> (r: Result<Self, DecodeError>)
        ensures
            r is Ok <==> Self::spec_decodable(bytes@),
            r matches Ok(t) ==> Self::spec_decodes_to(bytes@, t),
    {
        let n: usize = bytes.len();
        if n < 12 {
            return Err(DecodeError);
        }
        let annotation_offset = read_u32_le(bytes, 4);
        let annotation_length = read_u32_le(bytes, 8);
        let alen = annotation_length as usize;
        if n - 12 < alen {
            return Err(DecodeError);
        }
        let aend = 12 + alen;
        if n - aend < 10 {
            return Err(DecodeError);
        }
        let annotation = copy_range(bytes, 12, alen);
        let length1 = read_u32_le(bytes, aend);
        let length2 = read_u32_le(bytes, aend + 4);
        let num_of_floors = read_u16_le(bytes, aend + 8);
        let floors = match parse_floors(bytes, aend + 10, num_of_floors) {
            Ok(f) => f,
            Err(e) => {
                return Err(e);
            },
        };
        Ok(
            TowerPointer {
                annotation_offset,
                annotation_length,
                annotation,
                length1,
                length2,
                num_of_floors,
                floors,
            },
        )
    }
}

/// One endpoint-mapper entry: the object UUID (stored in standard byte
/// order) and the tower pointer after it.
pub struct Entry {
    pub object: [u8; 16],
    pub tower_pointer: TowerPointer,
}

impl Entry {
    /// True when a buffer decodes to an entry.
    pub open spec fn spec_decodable(b: Seq<u8>) -> bool {
        b.len() >= 16 && TowerPointer::spec_decodable(b.subrange(16, b.len() as int))
    }

    /// The fields a buffer decodes to.
    pub open spec fn spec_decodes_to(b: Seq<u8>, r: Self) -> bool {
        &&& r.object@ == spec_uuid_le(b.subrange(0, 16))
        &&& TowerPointer::spec_decodes_to(b.subrange(16, b.len() as int), r.tower_pointer)
    }

    /// Decodes an entry from the bytes after the response counts.
    pub fn decode(bytes: &Vec<u8>) -> (r: Result<Self, DecodeError>)
        ensures
            r is Ok <==> Self::spec_decodable(bytes@),
            r matches Ok(e) ==> Self::spec_decodes_to(bytes@, e),
    {
        let n: usize = bytes.len();
        if n < 16 {
            return Err(DecodeError);
        }
        let wire_object = read_array16(bytes, 0);
        let object = uuid_le(&wire_object);
        let rest = copy_range(bytes, 16, n - 16);
        let tower_pointer = match TowerPointer::decode(&rest) {
            Ok(t) => t,
            Err(e) => {
                return Err(e);
            },
        };
        Ok(Entry { object, tower_pointer })
    }
}

/// A decoded endpoint-mapper response: the 20-byte context handle, the
/// entry count, the actual count, and the single entry this engine
/// expects.
pub struct DceRpcEpmResponse {
    pub handle: Vec<u8>,
    pub num_of_entries: u32,
    pub actual_count: u32,
    pub entry: Entry,
}

impl DceRpcEpmResponse {
    /// True when a buffer decodes to a response.
    pub open spec fn spec_decodable(b: Seq<u8>) -> bool {
        b.len() >= 36 && Entry::spec_decodable(b.subrange(36, b.len() as int))
    }

    /// The fields a buffer decodes to.
    pub open spec fn spec_decodes_to(b: Seq<u8>, r: Self) -> bool {
        &&& r.handle@ == b.subrange(0, 20)
        &&& r.num_of_entries == spec_u32_le(b[20], b[21], b[22], b[23])
        &&& r.actual_count == spec_u32_le(b[32], b[33], b[34], b[35])
        &&& Entry::spec_decodes_to(b.subrange(36, b.len() as int), r.entry)
    }

    /// Decodes the stub data of an endpoint-mapper reply.
    pub fn decode(bytes: &Vec<u8>) -> (r: Result<Self, DecodeError>)
        ensures
            r is Ok <==> Self::spec_decodable(bytes@),
            r matches Ok(resp) ==> Self::spec_decodes_to(bytes@, resp),
    {
        let n: usize = bytes.len();
        if n < 36 {
            return Err(DecodeError);
        }
        let handle = copy_range(bytes, 0, 20);
        let num_of_entries = read_u32_le(bytes, 20);
        let actual_count = read_u32_le(bytes, 32);
        let rest = copy_range(bytes, 36, n - 36);
        let entry = match Entry::decode(&rest) {
            Ok(e) => e,
            Err(e) => {
                return Err(e);
            },
        };
        Ok(DceRpcEpmResponse { handle, num_of_entries, actual_count, entry })
    }
}

} // verus!

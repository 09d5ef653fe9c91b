//! The fixed header that every OTR resource starts with.

use vstd::prelude::*;
use crate::bytes::{le_u32, le_u64, read_u32_le, read_u64_le};
use crate::error::DecodeError;

verus! {

/// Size in bytes of the resource header.
pub const OTR_HEADER_SIZE: usize = 64;

/// The kind of a resource, by the four-byte tag in its header.
#[derive(Clone, Copy, Debug, PartialEq, Eq, Structural)]
pub enum ResourceType {
    /// No kind: the zero tag, and every tag that names no kind.
    Unknown,
    DisplayList,
    Light,
    Matrix,
    Texture,
    Vertex,
}

impl ResourceType {
    /// The tag that stands for this kind in a header.
    pub open spec fn tag(self) -> int {
        match self {
            ResourceType::Unknown => 0x0000_0000,
            ResourceType::DisplayList => 0x4F44_4C54,
            ResourceType::Light => 0x4666_9697,
            ResourceType::Matrix => 0x4F4D_5458,
            ResourceType::Texture => 0x4F54_4558,
            ResourceType::Vertex => 0x4F56_5458,
        }
    }

    /// The kind that a tag stands for.  A tag that names no kind stands
    /// for `Unknown`.
    pub open spec fn of_tag(tag: int) -> ResourceType {
        if tag == 0x4F44_4C54 {
            ResourceType::DisplayList
        } else if tag == 0x4666_9697 {
            ResourceType::Light
        } else if tag == 0x4F4D_5458 {
            ResourceType::Matrix
        } else if tag == 0x4F54_4558 {
            ResourceType::Texture
        } else if tag == 0x4F56_5458 {
            ResourceType::Vertex
        } else {
            ResourceType::Unknown
        }
    }

    /// Decodes a resource-kind tag.  A tag that names no kind is not an
    /// error: it gives `Unknown`, so that such resources can be passed over.
    pub fn from_tag(tag: u32) -> (r: ResourceType)
        ensures
            r == ResourceType::of_tag(tag as int),
    {
        match tag {
            0x4F44_4C54 => ResourceType::DisplayList,
            0x4666_9697 => ResourceType::Light,
            0x4F4D_5458 => ResourceType::Matrix,
            0x4F54_4558 => ResourceType::Texture,
            0x4F56_5458 => ResourceType::Vertex,
            _ => ResourceType::Unknown,
        }
    }

    /// The tag of this kind.
    pub fn to_tag(&self) -> (r: u32)
        ensures
            r == self.tag(),
    {
        match self {
            ResourceType::Unknown => 0x0000_0000,
            ResourceType::DisplayList => 0x4F44_4C54,
            ResourceType::Light => 0x4666_9697,
            ResourceType::Matrix => 0x4F4D_5458,
            ResourceType::Texture => 0x4F54_4558,
            ResourceType::Vertex => 0x4F56_5458,
        }
    }
}

/// Every kind is the kind of its own tag.
pub proof fn tag_round_trip(kind: ResourceType)
    ensures
        ResourceType::of_tag(kind.tag()) == kind,
{
}

/// The header of a resource.
#[derive(Clone, Copy, Debug, PartialEq, Eq, Structural)]
pub struct OTRHeader {
    /// Endianness tag of the authoring tool.  It is informational: the
    /// fields of a resource are little-endian whatever it says.
    pub byte_order: i8,
    /// Whether the resource is flagged as custom.
    pub is_custom: bool,
    /// The kind of the resource.
    pub type_id: ResourceType,
    /// The version of the resource format.
    pub version: u32,
    /// The identity of the resource.
    pub id: u64,
}

/// The signed value of a byte read as two's complement.
pub open spec fn as_signed(byte: u8) -> int {
    if byte < 128 {
        byte as int
    } else {
        byte as int - 256
    }
}

/// The header that a blob of at least 64 bytes starts with.
pub open spec fn parsed_header(bytes: Seq<u8>) -> OTRHeader
    recommends
        bytes.len() >= OTR_HEADER_SIZE,
{
    OTRHeader {
        byte_order: as_signed(bytes[0]) as i8,
        is_custom: bytes[1] != 0,
        type_id: ResourceType::of_tag(le_u32(bytes, 4)),
        version: le_u32(bytes, 8) as u32,
        id: le_u64(bytes, 12) as u64,
    }
}

impl OTRHeader {
    /// A header of the given fields.
    pub fn new(
        byte_order: i8,
        is_custom: bool,
        type_id: ResourceType,
        version: u32,
        id: u64,
    ) -> (r: Self)
        ensures
            r.byte_order == byte_order,
            r.is_custom == is_custom,
            r.type_id == type_id,
            r.version == version,
            r.id == id,
    {
        OTRHeader { byte_order, is_custom, type_id, version, id }
    }

    /// Parses the header of a resource blob.  The header takes the first
    /// 64 bytes of every resource; a shorter blob is an error.
    pub fn parse(data: &[u8]) -> (r: Result<OTRHeader, DecodeError>)
        ensures
            r is Ok <==> data@.len() >= 64,
            r matches Ok(header) ==> header == parsed_header(data@),
            r matches Err(e) ==> e == DecodeError::HeaderTooShort,
            r matches Ok(header) ==> {
                &&& header.byte_order == as_signed(data@[0])
                &&& header.is_custom == (data@[1] != 0)
                &&& header.type_id == ResourceType::of_tag(le_u32(data@, 4))
                &&& header.version == le_u32(data@, 8)
                &&& header.id == le_u64(data@, 12)
            },
    {
        if data.len() < OTR_HEADER_SIZE {
            return Err(DecodeError::HeaderTooShort);
        }
        let first: u8 = data[0];
        let byte_order: i8 = if first < 128 {
            first as i8
        } else {
            (first as i16 - 256) as i8
        };
        let is_custom = data[1] != 0;
        let type_id = ResourceType::from_tag(read_u32_le(data, 4));
        let version = read_u32_le(data, 8);
        let id = read_u64_le(data, 12);
        Ok(OTRHeader::new(byte_order, is_custom, type_id, version, id))
    }
}

} // verus!

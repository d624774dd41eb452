//! Interface and class identifiers.
//!
//! A `Guid` holds the four-field layout of a 16-byte identifier. The last
//! eight bytes are packed big-endian into `data4`, so the hexadecimal value
//! reads like the textual form of the identifier.

use vstd::prelude::*;

verus! {

/// A 16-byte interface or class identifier.
#[derive(Debug, Clone, Copy, PartialEq, Eq, Structural)]
pub struct Guid {
    pub data1: u32,
    pub data2: u16,
    pub data3: u16,
    /// Bytes 8..16 of the identifier, packed big-endian.
    pub data4: u64,
}

/// The base identity interface.
pub open spec fn spec_iid_iunknown() -> Guid {
    Guid { data1: 0, data2: 0, data3: 0, data4: 0xC000_0000_0000_0046 }
}

/// The archive read interface.
pub open spec fn spec_iid_iinarchive() -> Guid {
    Guid { data1: 0x23170F69, data2: 0x40C1, data3: 0x278A, data4: 0x0000_0006_0060_0000 }
}

/// The archive write interface.
pub open spec fn spec_iid_ioutarchive() -> Guid {
    Guid { data1: 0x23170F69, data2: 0x40C1, data3: 0x278A, data4: 0x0000_0006_00A0_0000 }
}

/// The decryption-password capability interface.
pub open spec fn spec_iid_icryptogettextpassword() -> Guid {
    Guid { data1: 0x23170F69, data2: 0x40C1, data3: 0x278A, data4: 0x0000_0005_0010_0000 }
}

/// The encryption-password capability interface.
pub open spec fn spec_iid_icryptogettextpassword2() -> Guid {
    Guid { data1: 0x23170F69, data2: 0x40C1, data3: 0x278A, data4: 0x0000_0005_0011_0000 }
}

/// The base identity interface.
pub fn iid_iunknown() -> (g: Guid)
    ensures
        g == spec_iid_iunknown(),
{
    Guid { data1: 0, data2: 0, data3: 0, data4: 0xC000_0000_0000_0046 }
}

/// The archive read interface.
pub fn iid_iinarchive() -> (g: Guid)
    ensures
        g == spec_iid_iinarchive(),
{
    Guid { data1: 0x23170F69, data2: 0x40C1, data3: 0x278A, data4: 0x0000_0006_0060_0000 }
}

/// The archive write interface.
pub fn iid_ioutarchive() -> (g: Guid)
    ensures
        g == spec_iid_ioutarchive(),
{
    Guid { data1: 0x23170F69, data2: 0x40C1, data3: 0x278A, data4: 0x0000_0006_00A0_0000 }
}

/// The decryption-password capability interface.
pub fn iid_icryptogettextpassword() -> (g: Guid)
    ensures
        g == spec_iid_icryptogettextpassword(),
{
    Guid { data1: 0x23170F69, data2: 0x40C1, data3: 0x278A, data4: 0x0000_0005_0010_0000 }
}

/// The encryption-password capability interface.
pub fn iid_icryptogettextpassword2() -> (g: Guid)
    ensures
        g == spec_iid_icryptogettextpassword2(),
{
    Guid { data1: 0x23170F69, data2: 0x40C1, data3: 0x278A, data4: 0x0000_0005_0011_0000 }
}

/// The little-endian 32-bit value read from four bytes.
pub open spec fn u32_le(b0: u8, b1: u8, b2: u8, b3: u8) -> u32 {
    (b0 as u32) | ((b1 as u32) << 8) | ((b2 as u32) << 16) | ((b3 as u32) << 24)
}

/// The little-endian 16-bit value read from two bytes.
pub open spec fn u16_le(b0: u8, b1: u8) -> u16 {
    (b0 as u16) | ((b1 as u16) << 8)
}

/// The big-endian 64-bit value read from eight bytes.
pub open spec fn u64_be(b: Seq<u8>) -> u64
    recommends
        b.len() == 8,
{
    ((b[0] as u64) << 56) | ((b[1] as u64) << 48) | ((b[2] as u64) << 40) | ((b[3] as u64) << 32)
        | ((b[4] as u64) << 24) | ((b[5] as u64) << 16) | ((b[6] as u64) << 8) | (b[7] as u64)
}

/// The four-field layout read from a 16-byte identifier: the first three
/// fields little-endian, the final eight bytes in order.
pub open spec fn spec_guid_from_bytes(b: Seq<u8>) -> Guid
    recommends
        b.len() == 16,
{
    Guid {
        data1: u32_le(b[0], b[1], b[2], b[3]),
        data2: u16_le(b[4], b[5]),
        data3: u16_le(b[6], b[7]),
        data4: u64_be(b.subrange(8, 16)),
    }
}

/// Convert a 16-byte class identifier to its four-field layout: the first
/// three fields are read little-endian, the final eight bytes in order.
pub fn guid_from_bytes(bytes: &[u8; 16]) -> (g: Guid)
    ensures
        g == spec_guid_from_bytes(bytes@),
{
    let data1: u32 = (bytes[0] as u32) | ((bytes[1] as u32) << 8) | ((bytes[2] as u32) << 16)
        | ((bytes[3] as u32) << 24);
    let data2: u16 = (bytes[4] as u16) | ((bytes[5] as u16) << 8);
    let data3: u16 = (bytes[6] as u16) | ((bytes[7] as u16) << 8);
    let data4: u64 = ((bytes[8] as u64) << 56) | ((bytes[9] as u64) << 48)
        | ((bytes[10] as u64) << 40) | ((bytes[11] as u64) << 32) | ((bytes[12] as u64) << 24)
        | ((bytes[13] as u64) << 16) | ((bytes[14] as u64) << 8) | (bytes[15] as u64);
    Guid { data1, data2, data3, data4 }
}

/// Build the class identifier for a format from its one-byte format id.
pub fn make_format_guid(id: u8) -> (g: Guid)
    ensures
        g.data1 == 0x23170F69,
        g.data2 == 0x40C1,
        g.data3 == 0x278A,
        g.data4 == 0x1000_0001_1000_0000u64 | ((id as u64) << 32),
{
    Guid {
        data1: 0x23170F69,
        data2: 0x40C1,
        data3: 0x278A,
        data4: 0x1000_0001_1000_0000u64 | ((id as u64) << 32),
    }
}

} // verus!

//! The fixed-size tagged variant used to exchange typed properties with the
//! host, and the FILETIME conversion.
//!
//! On the wire the variant is sixteen bytes: a two-byte type tag, six
//! reserved bytes, and eight bytes of payload. Numeric payloads sit inline
//! in `data`; string and blob payloads travel as a handle to an allocation.
//! Here the allocation behind the handle is held in `payload`, so that who
//! owns it — and that overwriting a variant never retains a stale
//! allocation — is part of every contract.

use vstd::prelude::*;
use crate::types::UnixTime;

verus! {

/// Type tag: no value.
pub const VT_EMPTY: u16 = 0;

/// Type tag: unsigned 32-bit integer.
pub const VT_UI4: u16 = 19;

/// Type tag: unsigned 64-bit integer.
pub const VT_UI8: u16 = 21;

/// Type tag: string or raw byte payload carried by handle.
pub const VT_BSTR: u16 = 8;

/// Type tag: boolean.
pub const VT_BOOL: u16 = 11;

/// Type tag: 64-bit FILETIME tick count.
pub const VT_FILETIME: u16 = 64;

/// 100-nanosecond ticks from 1601-01-01 to the Unix epoch.
pub const FILETIME_UNIX_DIFF: u64 = 116_444_736_000_000_000;

/// The allocation a variant's handle refers to: either text or raw bytes.
#[derive(Debug, Clone)]
pub enum BstrPayload {
    /// A text payload.
    Text(String),
    /// A raw byte payload (class identifiers, format signatures).
    Raw(Vec<u8>),
}

/// The fixed 16-byte tagged property value, with its owned allocation.
///
/// `vt` is the type tag and `data` the inline numeric payload. For
/// string/blob values the wire form carries a handle; the allocation that
/// handle refers to is `payload`, and `data` is zero.
#[derive(Debug)]
pub struct RawPropVariant {
    /// The type tag.
    pub vt: u16,
    /// The inline numeric payload.
    pub data: u64,
    /// The allocation owned by this variant, if any.
    pub payload: Option<BstrPayload>,
}

/// The variant produced by clearing: empty, with no allocation.
pub open spec fn spec_cleared() -> RawPropVariant {
    RawPropVariant { vt: VT_EMPTY, data: 0, payload: None }
}

/// The variant produced by encoding a string.
pub open spec fn spec_set_bstr(s: String) -> RawPropVariant {
    RawPropVariant { vt: VT_BSTR, data: 0, payload: Some(BstrPayload::Text(s)) }
}

/// The variant produced by encoding an unsigned 32-bit value.
pub open spec fn spec_set_u32(v: u32) -> RawPropVariant {
    RawPropVariant { vt: VT_UI4, data: v as u64, payload: None }
}

/// The variant produced by encoding an unsigned 64-bit value.
pub open spec fn spec_set_u64(v: u64) -> RawPropVariant {
    RawPropVariant { vt: VT_UI8, data: v, payload: None }
}

/// The variant produced by encoding a boolean: true is 0xFFFF, false 0.
pub open spec fn spec_set_bool(v: bool) -> RawPropVariant {
    RawPropVariant { vt: VT_BOOL, data: if v { 0xFFFF } else { 0 }, payload: None }
}

/// The variant produced by encoding a FILETIME tick count.
pub open spec fn spec_set_filetime(v: u64) -> RawPropVariant {
    RawPropVariant { vt: VT_FILETIME, data: v, payload: None }
}

impl RawPropVariant {
    /// How many allocations this variant holds (zero or one).
    pub open spec fn live_allocs(self) -> nat {
        if self.payload is Some {
            1
        } else {
            0
        }
    }

    /// What decoding as unsigned 64-bit yields: the inline value for the
    /// 64-bit tag, the low 32 bits for the 32-bit tag, absent otherwise.
    pub open spec fn spec_get_u64(self) -> Option<u64> {
        if self.vt == VT_UI8 {
            Some(self.data)
        } else if self.vt == VT_UI4 {
            Some((self.data & 0xFFFF_FFFF) as u64)
        } else {
            None
        }
    }

    /// What decoding as unsigned 32-bit yields.
    pub open spec fn spec_get_u32(self) -> Option<u32> {
        if self.vt == VT_UI4 {
            Some((self.data & 0xFFFF_FFFF) as u32)
        } else {
            None
        }
    }

    /// What decoding as boolean yields: any non-zero payload is true.
    pub open spec fn spec_get_bool(self) -> Option<bool> {
        if self.vt == VT_BOOL {
            Some(self.data != 0)
        } else {
            None
        }
    }

    /// What the variant's raw byte payload is: present when the tag says
    /// string/blob and the variant owns a raw payload.
    pub open spec fn spec_get_raw(self) -> Option<Seq<u8>> {
        if self.vt == VT_BSTR {
            match self.payload {
                Some(BstrPayload::Raw(b)) => Some(b@),
                _ => None,
            }
        } else {
            None
        }
    }

    /// What decoding as a string yields: the owned text payload when the
    /// tag says string, absent otherwise.
    pub open spec fn spec_get_bstr(self) -> Option<Seq<char>> {
        if self.vt == VT_BSTR {
            match self.payload {
                Some(BstrPayload::Text(s)) => Some(s@),
                _ => None,
            }
        } else {
            None
        }
    }
}

impl Default for RawPropVariant {
    /// A fresh variant is empty and holds no allocation.
    fn default() -> (r: Self)
        ensures
            r == spec_cleared(),
    {
        RawPropVariant { vt: VT_EMPTY, data: 0, payload: None }
    }
}

impl RawPropVariant {
    /// Release any owned allocation and reset to the empty value.
    pub fn clear(&mut self)
        ensures
            *final(self) == spec_cleared(),
            final(self).live_allocs() == 0,
    {
        self.vt = VT_EMPTY;
        self.data = 0;
        self.payload = None;
    }

    /// Set the tag to empty without touching the owned allocation.
    ///
    /// The allocation, if any, stays with the variant; `clear` releases it.
    pub fn set_empty(&mut self)
        ensures
            final(self).vt == VT_EMPTY,
            final(self).data == 0,
            final(self).payload == old(self).payload,
    {
        self.vt = VT_EMPTY;
        self.data = 0;
    }

    /// Encode a string value, releasing any prior allocation first.
    pub fn set_bstr(&mut self, value: &str)
        ensures
            final(self).vt == VT_BSTR,
            final(self).data == 0,
            final(self).spec_get_bstr() == Some(value@),
            final(self).live_allocs() == 1,
    {
        self.clear();
        self.vt = VT_BSTR;
        self.payload = Some(BstrPayload::Text(value.to_owned()));
    }

    /// Encode an unsigned 32-bit value, releasing any prior allocation.
    pub fn set_u32(&mut self, value: u32)
        ensures
            *final(self) == spec_set_u32(value),
            final(self).live_allocs() == 0,
    {
        self.clear();
        self.vt = VT_UI4;
        self.data = value as u64;
    }

    /// Encode an unsigned 64-bit value, releasing any prior allocation.
    pub fn set_u64(&mut self, value: u64)
        ensures
            *final(self) == spec_set_u64(value),
            final(self).live_allocs() == 0,
    {
        self.clear();
        self.vt = VT_UI8;
        self.data = value;
    }

    /// Encode a boolean, releasing any prior allocation. True encodes as
    /// 0xFFFF and false as 0.
    pub fn set_bool(&mut self, value: bool)
        ensures
            *final(self) == spec_set_bool(value),
            final(self).live_allocs() == 0,
    {
        self.clear();
        self.vt = VT_BOOL;
        self.data = if value { 0xFFFF } else { 0 };
    }

    /// Encode a FILETIME tick count, releasing any prior allocation.
    pub fn set_filetime(&mut self, value: u64)
        ensures
            *final(self) == spec_set_filetime(value),
            final(self).live_allocs() == 0,
    {
        self.clear();
        self.vt = VT_FILETIME;
        self.data = value;
    }

    /// Encode a 16-byte class identifier as a raw blob payload, releasing
    /// any prior allocation.
    pub fn set_guid(&mut self, bytes: &[u8; 16])
        ensures
            final(self).vt == VT_BSTR,
            final(self).data == 0,
            final(self).spec_get_raw() == Some(bytes@),
            final(self).live_allocs() == 1,
    {
        self.clear();
        let mut buf: Vec<u8> = Vec::new();
        let mut i: usize = 0;
        while i < 16
            invariant
                i <= 16,
                buf@ == bytes@.take(i as int),
            decreases 16 - i,
        {
            buf.push(bytes[i]);
            i = i + 1;
        }
        proof {
            assert(buf@ == bytes@.take(16));
            assert(bytes@.take(16) =~= bytes@);
        }
        self.vt = VT_BSTR;
        self.payload = Some(BstrPayload::Raw(buf));
    }

    /// Encode raw bytes (a format signature) as a blob payload, releasing
    /// any prior allocation.
    pub fn set_bytes(&mut self, bytes: &[u8])
        ensures
            final(self).vt == VT_BSTR,
            final(self).data == 0,
            final(self).spec_get_raw() == Some(bytes@),
            final(self).live_allocs() == 1,
    {
        self.clear();
        let mut buf: Vec<u8> = Vec::new();
        let mut i: usize = 0;
        while i < bytes.len()
            invariant
                i <= bytes@.len(),
                buf@ == bytes@.take(i as int),
            decreases bytes@.len() - i,
        {
            buf.push(bytes[i]);
            i = i + 1;
        }
        proof {
            assert(bytes@.take(bytes@.len() as int) =~= bytes@);
        }
        self.vt = VT_BSTR;
        self.payload = Some(BstrPayload::Raw(buf));
    }

    /// Decode a string value; absent unless the tag says string and the
    /// variant owns a text payload.
    pub fn get_bstr(&self) -> (r: Option<String>)
        ensures
            match r {
                Some(s) => self.spec_get_bstr() == Some(s@),
                None => self.spec_get_bstr() is None,
            },
    {
        if self.vt == VT_BSTR {
            match &self.payload {
                Some(BstrPayload::Text(s)) => Some(s.clone()),
                _ => None,
            }
        } else {
            None
        }
    }

    /// Decode an unsigned 64-bit value; also accepts the 32-bit tag.
    pub fn get_u64(&self) -> (r: Option<u64>)
        ensures
            r == self.spec_get_u64(),
    {
        if self.vt == VT_UI8 {
            Some(self.data)
        } else if self.vt == VT_UI4 {
            Some(self.data & 0xFFFF_FFFF)
        } else {
            None
        }
    }

    /// Decode an unsigned 32-bit value; absent unless the tag matches.
    pub fn get_u32(&self) -> (r: Option<u32>)
        ensures
            r == self.spec_get_u32(),
    {
        if self.vt == VT_UI4 {
            Some((self.data & 0xFFFF_FFFF) as u32)
        } else {
            None
        }
    }

    /// Decode a boolean; absent unless the tag matches.
    pub fn get_bool(&self) -> (r: Option<bool>)
        ensures
            r == self.spec_get_bool(),
    {
        if self.vt == VT_BOOL {
            Some(self.data != 0)
        } else {
            None
        }
    }

    /// How many allocations this variant currently holds.
    pub fn allocation_count(&self) -> (n: usize)
        ensures
            n == self.live_allocs(),
    {
        if self.payload.is_some() {
            1
        } else {
            0
        }
    }
}

/// The FILETIME tick count for an instant: 0 for times before the Unix
/// epoch, otherwise the epoch difference plus the distance in 100ns ticks,
/// saturated at the largest 64-bit value.
pub open spec fn spec_filetime_of(t: UnixTime) -> u64 {
    if t.before_epoch {
        0
    } else {
        let ticks: int = FILETIME_UNIX_DIFF as int + t.secs as int * 10_000_000
            + t.nanos as int / 100;
        if ticks > u64::MAX as int {
            u64::MAX
        } else {
            ticks as u64
        }
    }
}

/// Convert an instant to the FILETIME representation (100ns ticks since
/// 1601-01-01). Times before the Unix epoch are not representable and
/// convert to 0 rather than wrapping.
pub fn systemtime_to_filetime(time: UnixTime) -> (r: u64)
    ensures
        r == spec_filetime_of(time),
{
    if time.before_epoch {
        0
    } else {
        let ticks: u128 = (FILETIME_UNIX_DIFF as u128) + (time.secs as u128) * 10_000_000
            + ((time.nanos / 100) as u128);
        if ticks > u64::MAX as u128 {
            u64::MAX
        } else {
            ticks as u64
        }
    }
}

/// Known conversion points: the Unix epoch itself converts to exactly the
/// epoch-difference constant, and every instant before the epoch converts
/// to 0 — never to a wrapped-around value.
pub proof fn lemma_filetime_known_points(t: UnixTime)
    ensures
        spec_filetime_of(UnixTime { before_epoch: false, secs: 0, nanos: 0 })
            == 116_444_736_000_000_000u64,
        t.before_epoch ==> spec_filetime_of(t) == 0,
{
}

/// Round trip: encoding any unsigned 64-bit value and decoding it as
/// unsigned 64-bit returns the original value.
pub proof fn lemma_u64_round_trip(v: u64)
    ensures
        spec_set_u64(v).spec_get_u64() == Some(v),
{
}

/// Round trip: encoding any boolean and decoding it as boolean returns the
/// original value.
pub proof fn lemma_bool_round_trip(v: bool)
    ensures
        spec_set_bool(v).spec_get_bool() == Some(v),
{
}

/// Re-encoding never leaks: whatever a variant held before, after any
/// encode operation it owns at most the one allocation of the new value,
/// so repeated encode cycles cannot accumulate allocations.
pub proof fn lemma_encode_releases_prior(s: String, v: u64)
    ensures
        spec_set_bstr(s).live_allocs() == 1,
        spec_set_u64(v).live_allocs() == 0,
        spec_cleared().live_allocs() == 0,
{
}

} // verus!

//! A 32-bit stream identifier whose 4 least-significant bits are always clear.

use vstd::prelude::*;

use vstd::std_specs::cmp::PartialOrdSpec;

use crate::render::spec_decimal_digits;
use crate::render::spec_hex_digits;
use crate::render::decimal_string;
use crate::render::hex_string;

verus! {

/// Holds exactly when `raw` may be the value of a `DemuxId`:
/// the 4 least-significant bits are clear.
pub open spec fn demux_id_valid(raw: u32) -> bool {
    raw & 0b1111 == 0
}

/// The low 4 bits are clear exactly when the value is a multiple of 16.
pub proof fn lemma_valid_is_multiple_of_16(raw: u32)
    ensures
        demux_id_valid(raw) <==> raw % 16 == 0,
{
    assert((raw & 0b1111 == 0) <==> raw % 16 == 0) by (bit_vector);
}

/// A wrapper around a `u32` with the 4 least-significant bits set to 0.
/// Uniquely identifies a client within a call (scoped to the call era).
#[derive(Clone, Copy, Debug, PartialEq, Eq, Structural, Hash, Ord)]
pub struct DemuxId(u32);

impl View for DemuxId {
    type V = u32;

    closed spec fn view(&self) -> u32 {
        self.0
    }
}

impl DemuxId {
    /// The underlying bits, unchanged.
    pub fn as_u32(self) -> (r: u32)
        ensures
            r == self@,
    {
        self.0
    }

    /// Construction for values whose validity the caller has established by
    /// inspection (literal constants, test fixtures). Untrusted input goes
    /// through `try_from` instead.
    pub fn from_const(raw: u32) -> (r: Self)
        requires
            demux_id_valid(raw),
        ensures
            r@ == raw,
    {
        Self(raw)
    }
}

/// The distinguished "no id assigned" value, with raw value 0.
pub fn dummy_demux_id() -> (r: DemuxId)
    ensures
        r@ == 0u32,
{
    DemuxId(0)
}

/// Error for a raw value whose low 4 bits are not clear;
/// carries the rejected value for diagnostics.
#[derive(Clone, Copy, Debug, PartialEq, Eq, Structural, Hash)]
pub struct InvalidDemuxIdError(u32);

impl View for InvalidDemuxIdError {
    type V = u32;

    closed spec fn view(&self) -> u32 {
        self.0
    }
}

/// The diagnostic text for a rejected raw value: the value in decimal,
/// then in hexadecimal.
pub open spec fn spec_invalid_demux_id_message(v: u32) -> Seq<char> {
    "Invalid demux ID: "@ + spec_decimal_digits(v as nat) + " (0x"@ + spec_hex_digits(
        v as nat,
    ) + ")"@
}

impl InvalidDemuxIdError {
    /// The rejected raw value.
    pub fn raw_value(&self) -> (r: u32)
        ensures
            r == self@,
    {
        self.0
    }

    /// The diagnostic rendering of the rejected value, in decimal and
    /// hexadecimal.
    pub fn message(&self) -> (r: String)
        ensures
            r@ == spec_invalid_demux_id_message(self@),
    {
        let mut s = "Invalid demux ID: ".to_owned();
        let dec = decimal_string(self.0);
        s.append(dec.as_str());
        s.append(" (0x");
        let hex = hex_string(self.0);
        s.append(hex.as_str());
        s.append(")");
        s
    }
}

impl TryFrom<u32> for DemuxId {
    type Error = InvalidDemuxIdError;

    /// The only construction path for externally supplied raw values:
    /// succeeds exactly when the low 4 bits are clear, and on failure the
    /// error carries the rejected value.
    fn try_from(raw: u32) -> (r: Result<Self, InvalidDemuxIdError>)
        ensures
            demux_id_valid(raw) ==> (r matches Ok(d) && d@ == raw),
            !demux_id_valid(raw) ==> (r matches Err(e) && e@ == raw),
    {
        if raw & 0b1111 == 0 {
            Ok(Self(raw))
        } else {
            Err(InvalidDemuxIdError(raw))
        }
    }
}

impl vstd::std_specs::convert::TryFromSpecImpl<u32> for DemuxId {
    open spec fn obeys_try_from_spec() -> bool {
        true
    }

    closed spec fn try_from_spec(v: u32) -> Result<DemuxId, InvalidDemuxIdError> {
        if demux_id_valid(v) {
            Ok(DemuxId(v))
        } else {
            Err(InvalidDemuxIdError(v))
        }
    }
}

/// Construction succeeds exactly on the raw values with the low 4 bits
/// clear, and a valid raw value survives the round trip unchanged.
pub proof fn lemma_try_from_exact(raw: u32)
    ensures
        demux_id_valid(raw) <==> (<DemuxId as vstd::std_specs::convert::TryFromSpec<
            u32,
        >>::try_from_spec(raw) matches Ok(d) && d@ == raw),
        !demux_id_valid(raw) <==> (<DemuxId as vstd::std_specs::convert::TryFromSpec<
            u32,
        >>::try_from_spec(raw) matches Err(e) && e@ == raw),
{
}

impl From<DemuxId> for u32 {
    /// The wire representation of a `DemuxId` is its raw 32-bit value.
    fn from(demux_id: DemuxId) -> (r: u32)
        ensures
            r == demux_id@,
    {
        demux_id.0
    }
}

impl vstd::std_specs::convert::FromSpecImpl<DemuxId> for u32 {
    open spec fn obeys_from_spec() -> bool {
        true
    }

    open spec fn from_spec(v: DemuxId) -> u32 {
        v@
    }
}

impl PartialOrd for DemuxId {
    /// Ordering is the numeric ordering of the raw values.
    fn partial_cmp(&self, other: &Self) -> (r: Option<core::cmp::Ordering>)
    {
        if self.0 < other.0 {
            Some(core::cmp::Ordering::Less)
        } else if self.0 == other.0 {
            Some(core::cmp::Ordering::Equal)
        } else {
            Some(core::cmp::Ordering::Greater)
        }
    }
}

impl vstd::std_specs::cmp::PartialOrdSpecImpl for DemuxId {
    open spec fn obeys_partial_cmp_spec() -> bool {
        true
    }

    open spec fn partial_cmp_spec(&self, other: &Self) -> Option<core::cmp::Ordering> {
        if self@ < other@ {
            Some(core::cmp::Ordering::Less)
        } else if self@ == other@ {
            Some(core::cmp::Ordering::Equal)
        } else {
            Some(core::cmp::Ordering::Greater)
        }
    }
}

/// The comparison of two ids is consistent with the numeric ordering of
/// their raw values.
pub proof fn lemma_order_matches_raw(a: DemuxId, b: DemuxId)
    ensures
        a.partial_cmp_spec(&b) == Some(core::cmp::Ordering::Less) <==> a@ < b@,
        a.partial_cmp_spec(&b) == Some(core::cmp::Ordering::Equal) <==> a@ == b@,
        a.partial_cmp_spec(&b) == Some(core::cmp::Ordering::Greater) <==> a@ > b@,
{
}

} // verus!

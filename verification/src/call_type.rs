//! The kind of a call: a closed enumeration with a stable external tag
//! per variant and parsing from the variant name.

use vstd::prelude::*;

verus! {

/// The kind of a call. The set of variants is closed: no extension at
/// runtime.
#[derive(Clone, Copy, Debug, PartialEq, Eq, Structural, Hash)]
pub enum CallType {
    Adhoc,
    GroupV2,
}

/// Error for a string that names no `CallType` variant.
#[derive(Clone, Copy, Debug, PartialEq, Eq, Structural, Hash)]
pub struct UnrecognizedCallTypeError;

/// The fixed external tag of a variant, for metrics and telemetry labels.
pub open spec fn spec_tag(c: CallType) -> Seq<char> {
    match c {
        CallType::Adhoc => "call-type:Adhoc"@,
        CallType::GroupV2 => "call-type:GroupV2"@,
    }
}

/// The textual variant name, which `parse` accepts back.
pub open spec fn spec_name(c: CallType) -> Seq<char> {
    match c {
        CallType::Adhoc => "Adhoc"@,
        CallType::GroupV2 => "GroupV2"@,
    }
}

/// What `parse` returns: the variant whose name the input matches exactly,
/// or an error when it matches none.
pub open spec fn spec_parse(s: Seq<char>) -> Result<CallType, UnrecognizedCallTypeError> {
    if s == spec_name(CallType::Adhoc) {
        Ok(CallType::Adhoc)
    } else if s == spec_name(CallType::GroupV2) {
        Ok(CallType::GroupV2)
    } else {
        Err(UnrecognizedCallTypeError)
    }
}

impl CallType {
    /// The fixed external tag of this variant.
    pub fn as_tag(&self) -> (r: &'static str)
        ensures
            r@ == spec_tag(*self),
    {
        match self {
            CallType::Adhoc => "call-type:Adhoc",
            CallType::GroupV2 => "call-type:GroupV2",
        }
    }

    /// Parses a variant from its textual name. Succeeds exactly when the
    /// input matches a variant name.
    pub fn parse(s: &str) -> (r: Result<CallType, UnrecognizedCallTypeError>)
        ensures
            r == spec_parse(s@),
    {
        let input = s.to_owned();
        if input == "Adhoc".to_owned() {
            Ok(CallType::Adhoc)
        } else if input == "GroupV2".to_owned() {
            Ok(CallType::GroupV2)
        } else {
            Err(UnrecognizedCallTypeError)
        }
    }

    /// All variants, in a fixed stable order.
    pub fn enumerate() -> (r: Vec<CallType>)
        ensures
            r@ == seq![CallType::Adhoc, CallType::GroupV2],
    {
        let mut v: Vec<CallType> = Vec::new();
        v.push(CallType::Adhoc);
        v.push(CallType::GroupV2);
        proof {
            assert(v@ =~= seq![CallType::Adhoc, CallType::GroupV2]);
        }
        v
    }
}

/// Parsing a variant's own name gives that variant back, for every variant.
pub proof fn lemma_parse_name_round_trip(c: CallType)
    ensures
        spec_parse(spec_name(c)) == Ok::<CallType, UnrecognizedCallTypeError>(c),
{
    reveal_strlit("Adhoc");
    reveal_strlit("GroupV2");
    assert(spec_name(CallType::Adhoc).len() != spec_name(CallType::GroupV2).len());
}

} // verus!

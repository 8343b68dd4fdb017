//! An opaque string identifying a call room, with a redacted diagnostic
//! rendering decoupled from its equality and serialization semantics.

use vstd::prelude::*;

use vstd::std_specs::cmp::PartialEqSpec;

verus! {

/// An opaque string identifying a call room. Equality, hashing and
/// serialization use the full string; only the diagnostic rendering is
/// redacted.
#[derive(Clone, Eq, Hash)]
pub struct RoomId(String);

impl View for RoomId {
    type V = Seq<char>;

    closed spec fn view(&self) -> Seq<char> {
        self.0@
    }
}

/// The redacted rendering of a room id: its first 4 characters, or the
/// whole string when it is no longer than 4 characters.
pub open spec fn spec_redacted(s: Seq<char>) -> Seq<char> {
    if s.len() <= 4 {
        s
    } else {
        s.subrange(0, 4)
    }
}

impl RoomId {
    /// The full string, for use as a map key or serialization payload;
    /// never redacted.
    pub fn as_str(&self) -> (r: &str)
        ensures
            r@ == self@,
    {
        self.0.as_str()
    }

    /// The redacted diagnostic rendering: at most the first 4 characters
    /// of the full string. The only form that may appear in logs or debug
    /// output. Read-only: it never affects equality or hashing.
    pub fn render_redacted(&self) -> (r: String)
        ensures
            r@ == spec_redacted(self@),
    {
        let len = self.0.as_str().unicode_len();
        if len <= 4 {
            self.0.clone()
        } else {
            let prefix = self.0.as_str().substring_char(0, 4);
            prefix.to_owned()
        }
    }
}

impl From<String> for RoomId {
    /// A room id holding the full string content, unchanged.
    fn from(room_id_string: String) -> (r: Self)
        ensures
            r@ == room_id_string@,
    {
        Self(room_id_string)
    }
}

impl vstd::std_specs::convert::FromSpecImpl<String> for RoomId {
    open spec fn obeys_from_spec() -> bool {
        true
    }

    closed spec fn from_spec(v: String) -> RoomId {
        RoomId(v)
    }
}

impl From<&str> for RoomId {
    /// A room id holding the full string content, unchanged.
    fn from(room_id: &str) -> (r: Self)
        ensures
            r@ == room_id@,
    {
        Self(room_id.to_owned())
    }
}

impl vstd::std_specs::convert::FromSpecImpl<&str> for RoomId {
    open spec fn obeys_from_spec() -> bool {
        false
    }

    closed spec fn from_spec(v: &str) -> RoomId {
        arbitrary()
    }
}

impl From<RoomId> for String {
    /// The full string back out, unchanged.
    fn from(room_id: RoomId) -> (r: String)
        ensures
            r@ == room_id@,
    {
        room_id.0
    }
}

impl vstd::std_specs::convert::FromSpecImpl<RoomId> for String {
    open spec fn obeys_from_spec() -> bool {
        true
    }

    closed spec fn from_spec(v: RoomId) -> String {
        v.0
    }
}

impl PartialEq for RoomId {
    /// Equality over the full string, never over the redacted rendering.
    fn eq(&self, other: &RoomId) -> (r: bool) {
        self.0 == other.0
    }
}

impl vstd::std_specs::cmp::PartialEqSpecImpl for RoomId {
    open spec fn obeys_eq_spec() -> bool {
        true
    }

    open spec fn eq_spec(&self, other: &RoomId) -> bool {
        self@ == other@
    }
}

/// Round trip: a string made into a room id and taken back out is
/// unchanged.
pub proof fn lemma_room_id_string_round_trip(s: String)
    ensures
        <String as vstd::std_specs::convert::FromSpec<RoomId>>::from_spec(
            <RoomId as vstd::std_specs::convert::FromSpec<String>>::from_spec(s),
        ) == s,
{
}

/// Equality of room ids is equality of the full strings: ids built from
/// equal strings are equal, and ids whose full strings differ are unequal
/// even when their redacted renderings agree.
pub proof fn lemma_eq_over_full_string(a: RoomId, b: RoomId)
    ensures
        a.eq_spec(&b) <==> a@ == b@,
        spec_redacted(a@) == spec_redacted(b@) && a@ != b@ ==> !a.eq_spec(&b),
{
}

} // verus!

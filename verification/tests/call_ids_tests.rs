use std::collections::BTreeSet;
use std::collections::HashMap;
use std::hash::DefaultHasher;
use std::hash::Hash;
use std::hash::Hasher;

use call_ids::dummy_demux_id;
use call_ids::CallType;
use call_ids::DemuxId;
use call_ids::RoomId;

fn hash_of<T: Hash>(value: &T) -> u64 {
    let mut hasher = DefaultHasher::new();
    value.hash(&mut hasher);
    hasher.finish()
}

#[test]
fn demux_try_from_succeeds_iff_low_bits_clear() {
    for v in 0u32..4096 {
        assert_eq!(DemuxId::try_from(v).is_ok(), v & 0b1111 == 0);
    }
    assert!(DemuxId::try_from(0xFFFF_FFF0).is_ok());
    assert!(DemuxId::try_from(0xFFFF_FFFF).is_err());
    assert!(DemuxId::try_from(u32::MAX - 15).is_ok());
}

#[test]
fn demux_round_trip() {
    for v in (0u32..4096).step_by(16) {
        assert_eq!(DemuxId::try_from(v).unwrap().as_u32(), v);
    }
    assert_eq!(DemuxId::try_from(0xFFFF_FFF0).unwrap().as_u32(), 0xFFFF_FFF0);
}

#[test]
fn demux_try_from_0x10_succeeds() {
    let id = DemuxId::try_from(0x10).unwrap();
    assert_eq!(id.as_u32(), 16);
}

#[test]
fn demux_try_from_0x11_fails_with_raw_value() {
    let err = DemuxId::try_from(0x11).unwrap_err();
    assert_eq!(err.raw_value(), 17);
    assert_eq!(err.message(), "Invalid demux ID: 17 (0x11)");
}

#[test]
fn demux_error_message_decimal_and_hex() {
    let err = DemuxId::try_from(0xABC1).unwrap_err();
    assert_eq!(err.message(), "Invalid demux ID: 43969 (0xabc1)");
    let err = DemuxId::try_from(1).unwrap_err();
    assert_eq!(err.message(), "Invalid demux ID: 1 (0x1)");
    let err = DemuxId::try_from(0xFFFF_FFFF).unwrap_err();
    assert_eq!(err.message(), "Invalid demux ID: 4294967295 (0xffffffff)");
}

#[test]
fn demux_from_const_known_valid() {
    assert_eq!(DemuxId::from_const(0).as_u32(), 0);
    assert_eq!(DemuxId::from_const(32).as_u32(), 32);
    assert_eq!(DemuxId::from_const(0xFFFF_FFF0).as_u32(), 0xFFFF_FFF0);
}

#[test]
fn dummy_demux_id_is_zero() {
    assert_eq!(dummy_demux_id().as_u32(), 0);
    assert_eq!(dummy_demux_id(), DemuxId::from_const(0));
}

#[test]
fn demux_into_u32() {
    let id = DemuxId::try_from(48).unwrap();
    assert_eq!(u32::from(id), 48);
}

#[test]
fn demux_ordering_matches_raw_value() {
    let raws = [0u32, 16, 32, 256, 0xFFFF_FFF0];
    for &a in &raws {
        for &b in &raws {
            let ia = DemuxId::try_from(a).unwrap();
            let ib = DemuxId::try_from(b).unwrap();
            assert_eq!(ia < ib, a < b);
            assert_eq!(ia == ib, a == b);
            assert_eq!(ia.cmp(&ib), a.cmp(&b));
            assert_eq!(ia.partial_cmp(&ib), a.partial_cmp(&b));
        }
    }
}

#[test]
fn demux_usable_as_ordered_and_hashed_key() {
    let mut set: BTreeSet<DemuxId> = BTreeSet::new();
    set.insert(DemuxId::from_const(48));
    set.insert(DemuxId::from_const(16));
    set.insert(DemuxId::from_const(32));
    let in_order: Vec<u32> = set.iter().map(|d| d.as_u32()).collect();
    assert_eq!(in_order, vec![16, 32, 48]);

    let mut map: HashMap<DemuxId, &str> = HashMap::new();
    map.insert(DemuxId::from_const(16), "first");
    map.insert(DemuxId::from_const(32), "second");
    assert_eq!(map.get(&DemuxId::from_const(16)), Some(&"first"));
    assert_eq!(map.get(&DemuxId::from_const(48)), None);

    // The derived hash feeds exactly the raw value to the hasher.
    assert_eq!(hash_of(&DemuxId::from_const(16)), hash_of(&16u32));
}

#[test]
fn call_type_tags_are_fixed() {
    assert_eq!(CallType::Adhoc.as_tag(), "call-type:Adhoc");
    assert_eq!(CallType::GroupV2.as_tag(), "call-type:GroupV2");
}

#[test]
fn call_type_enumerate_is_stable() {
    assert_eq!(CallType::enumerate(), vec![CallType::Adhoc, CallType::GroupV2]);
    assert_eq!(CallType::enumerate(), CallType::enumerate());
}

#[test]
fn call_type_parse_accepts_variant_names() {
    assert_eq!(CallType::parse("Adhoc"), Ok(CallType::Adhoc));
    assert_eq!(CallType::parse("GroupV2"), Ok(CallType::GroupV2));
}

#[test]
fn call_type_parse_rejects_other_strings() {
    assert!(CallType::parse("not-a-real-tag").is_err());
    assert!(CallType::parse("").is_err());
    assert!(CallType::parse("adhoc").is_err());
    assert!(CallType::parse("call-type:Adhoc").is_err());
    assert!(CallType::parse("GroupV2 ").is_err());
}

#[test]
fn room_id_string_round_trip() {
    for s in ["", "a", "exampleRoom123", "abcdef1234"] {
        let room = RoomId::from(s.to_string());
        assert_eq!(String::from(room), s);
    }
}

#[test]
fn room_id_from_borrowed_matches_owned() {
    let a = RoomId::from("exampleRoom123");
    let b = RoomId::from("exampleRoom123".to_string());
    assert!(a == b);
    assert_eq!(a.as_str(), "exampleRoom123");
}

#[test]
fn room_id_redacted_is_four_character_prefix() {
    assert_eq!(RoomId::from("abcdef1234").render_redacted(), "abcd");
    assert_eq!(RoomId::from("exampleRoom123").render_redacted(), "exam");
}

#[test]
fn room_id_redacted_keeps_short_strings() {
    assert_eq!(RoomId::from("ab").render_redacted(), "ab");
    assert_eq!(RoomId::from("").render_redacted(), "");
    assert_eq!(RoomId::from("abcd").render_redacted(), "abcd");
}

#[test]
fn room_id_equality_and_hash_use_full_string() {
    let a = RoomId::from("abcdef1234");
    let b = RoomId::from("abcdef1234");
    assert!(a == b);
    assert_eq!(hash_of(&a), hash_of(&b));

    // Redacting has no effect on equality or hashing.
    let _ = a.render_redacted();
    assert!(a == b);
    assert_eq!(hash_of(&a), hash_of(&b));

    // Same first four characters, different full strings: unequal.
    let c = RoomId::from("abcdXXXX");
    let d = RoomId::from("abcdYYYY");
    assert_eq!(c.render_redacted(), d.render_redacted());
    assert!(c != d);
}

#[test]
fn room_id_usable_as_map_key() {
    let mut map: HashMap<String, u32> = HashMap::new();
    let room = RoomId::from("exampleRoom123");
    map.insert(room.as_str().to_string(), 7);
    assert_eq!(map.get("exampleRoom123"), Some(&7));
    assert_eq!(map.get("exam"), None);
}

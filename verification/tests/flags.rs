use gateway_model::flags::ActivityFlags;
use gateway_model::flags::EMBEDDED;
use gateway_model::flags::INSTANCE;
use gateway_model::flags::JOIN;
use gateway_model::flags::JOIN_REQUEST;
use gateway_model::flags::NAMED_BITS;
use gateway_model::flags::PARTY_PRIVACY_FRIENDS;
use gateway_model::flags::PARTY_PRIVACY_VOICE_CHANNEL;
use gateway_model::flags::PLAY;
use gateway_model::flags::SPECTATE;
use gateway_model::flags::SYNC;

#[test]
fn named_bits_are_the_first_nine() {
    let named = [
        INSTANCE,
        JOIN,
        SPECTATE,
        JOIN_REQUEST,
        SYNC,
        PLAY,
        PARTY_PRIVACY_FRIENDS,
        PARTY_PRIVACY_VOICE_CHANNEL,
        EMBEDDED,
    ];
    let mut all = 0u64;
    for (position, bit) in named.iter().enumerate() {
        assert_eq!(*bit, 1u64 << position);
        all |= bit;
    }
    assert_eq!(all, NAMED_BITS);
    assert_eq!(ActivityFlags::all().bits(), 0x1ff);
}

#[test]
fn bits_round_trip_with_unnamed_bits() {
    for bits in [0u64, 1, 0x1ff, 0x200, 0x8000_0000_0000_0001, 0xdead_beef, u64::MAX] {
        assert_eq!(ActivityFlags::from_bits_retain(bits).bits(), bits);
    }
}

#[test]
fn flags_split_into_named_and_unnamed_bits() {
    let flags = ActivityFlags::from_bits_retain(0xabc);
    assert_eq!(flags.named(), 0x0bc);
    assert_eq!(flags.unnamed(), 0xa00);
    assert_eq!(flags.named() | flags.unnamed(), 0xabc);
}

#[test]
fn truncating_drops_unnamed_bits_only() {
    assert_eq!(ActivityFlags::from_bits_truncate(0xabc).bits(), 0x0bc);
    assert_eq!(ActivityFlags::from_bits_truncate(0x1ff).bits(), 0x1ff);
}

#[test]
fn strict_decoding_refuses_unnamed_bits() {
    assert_eq!(ActivityFlags::from_bits(0x200), None);
    assert_eq!(ActivityFlags::from_bits(0x003).map(|f| f.bits()), Some(3));
    assert_eq!(ActivityFlags::from_bits(0).map(|f| f.bits()), Some(0));
}

#[test]
fn absent_flags_are_the_empty_set() {
    assert_eq!(ActivityFlags::default().bits(), 0);
    assert!(ActivityFlags::default().is_empty());
    assert!(ActivityFlags::empty().is_empty());
    assert!(!ActivityFlags::from_bits_retain(0x400).is_empty());
}

#[test]
fn contains_asks_for_every_bit_of_the_mask() {
    let flags = ActivityFlags::from_bits_retain(JOIN | PLAY);
    assert!(flags.contains(JOIN));
    assert!(flags.contains(PLAY));
    assert!(flags.contains(JOIN | PLAY));
    assert!(!flags.contains(JOIN | SYNC));
    assert!(!flags.contains(INSTANCE));
    assert!(flags.contains(0));
    assert!(flags.intersects(JOIN | SYNC));
    assert!(!flags.intersects(SYNC | EMBEDDED));
}

#[test]
fn insert_and_remove_leave_other_bits_alone() {
    let mut flags = ActivityFlags::from_bits_retain(0x1000 | JOIN);
    flags.insert(SPECTATE);
    assert_eq!(flags.bits(), 0x1000 | JOIN | SPECTATE);
    flags.remove(JOIN);
    assert_eq!(flags.bits(), 0x1000 | SPECTATE);
    flags.set(EMBEDDED, true);
    assert_eq!(flags.bits(), 0x1000 | SPECTATE | EMBEDDED);
    flags.set(SPECTATE, false);
    assert_eq!(flags.bits(), 0x1000 | EMBEDDED);
    flags.remove(SYNC);
    assert_eq!(flags.bits(), 0x1000 | EMBEDDED);
}

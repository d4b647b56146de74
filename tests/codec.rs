use calculator_core::ids::{ItemId, RuneId, ITEM_VARIANTS, RUNE_VARIANTS};
use calculator_core::model::{ValueException, DISC_BITS, DISC_LOW_MASK, DISC_MASK, VAL_BITS, VAL_MASK};

#[test]
fn layout_matches_enumeration_sizes() {
    assert_eq!(ValueException::find_disc_bits(ITEM_VARIANTS, RUNE_VARIANTS), DISC_BITS);
    assert_eq!(DISC_BITS, 9);
    assert_eq!(VAL_BITS, 23);
    assert_eq!(VAL_MASK, (1u32 << VAL_BITS) - 1);
    assert_eq!(DISC_MASK, !VAL_MASK);
    assert_eq!(DISC_LOW_MASK, (1u32 << DISC_BITS) - 1);
}

#[test]
fn disc_bits_edge_sizes() {
    assert_eq!(ValueException::find_disc_bits(0, 0), 0);
    assert_eq!(ValueException::find_disc_bits(1, 1), 0);
    assert_eq!(ValueException::find_disc_bits(2, 1), 1);
    assert_eq!(ValueException::find_disc_bits(1, 256), 8);
    assert_eq!(ValueException::find_disc_bits(257, 3), 9);
    assert_eq!(ValueException::find_disc_bits(u32::MAX, 0), 32);
}

#[test]
fn item_round_trip() {
    let v = ValueException::pack_item_id(ItemId(5), 7);
    assert_eq!(v.get_item_id(), Some(ItemId(5)));
    assert_eq!(v.stacks(), 7);
    assert_eq!(v.enum_id(), 5);
}

#[test]
fn item_without_rune_code_decodes_as_no_rune() {
    let v = ValueException::pack_item_id(ItemId(299), 1);
    assert_eq!(v.get_item_id(), Some(ItemId(299)));
    assert_eq!(v.get_rune_id(), None);
    assert_eq!(v.stacks(), 1);
}

#[test]
fn low_item_code_also_names_a_rune() {
    let v = ValueException::pack_item_id(ItemId(12), 3);
    assert_eq!(v.get_rune_id(), Some(RuneId(12)));
}

#[test]
fn rune_round_trip() {
    let v = ValueException::pack_rune_id(RuneId(63), 100);
    assert_eq!(v.get_rune_id(), Some(RuneId(63)));
    assert_eq!(v.get_item_id(), Some(ItemId(63)));
    assert_eq!(v.stacks(), 100);
}

#[test]
fn magnitude_is_truncated() {
    let v = ValueException::pack_item_id(ItemId(3), 0x80_0005);
    assert_eq!(v.stacks(), 5);
    assert_eq!(v.get_item_id(), Some(ItemId(3)));
    assert_eq!(v, ValueException::pack_item_id(ItemId(3), 5));
    let w = ValueException::pack_rune_id(RuneId(1), u32::MAX);
    assert_eq!(w.stacks(), 0x7f_ffff);
    assert_eq!(w.get_rune_id(), Some(RuneId(1)));
}

#[test]
fn truncate_value_keeps_low_bits() {
    assert_eq!(ValueException::truncate_value(0x1234_5678), 0x34_5678);
    assert_eq!(ValueException::truncate_value(0x7f_ffff), 0x7f_ffff);
    assert_eq!(ValueException::truncate_value(0x80_0000), 0);
}

#[test]
fn code_naming_no_member_decodes_as_absent() {
    let v = ValueException::pack_item_id(ItemId(400), 9);
    assert_eq!(v.enum_id(), 400);
    assert_eq!(v.get_item_id(), None);
    assert_eq!(v.get_rune_id(), None);
    assert_eq!(v.stacks(), 9);
}

#[test]
fn code_wider_than_the_field_is_masked() {
    let v = ValueException::pack_item_id(ItemId(512 + 7), 2);
    assert_eq!(v.enum_id(), 7);
    assert_eq!(v.get_item_id(), Some(ItemId(7)));
}

#[test]
fn identifier_ranges() {
    assert_eq!(ItemId::from_u16(0), Some(ItemId(0)));
    assert_eq!(ItemId::from_u16(299), Some(ItemId(299)));
    assert_eq!(ItemId::from_u16(300), None);
    assert_eq!(RuneId::from_u8(63), Some(RuneId(63)));
    assert_eq!(RuneId::from_u8(64), None);
}

use vgrs::eeprom::{
    halfword_address, restored_word, word_from_halves, word_halves, word_read_addresses, word_write_plan,
    EEPROM_BASE, HITCOUNT_OFFSET, HITTIME_OFFSET, MAX_WORD_OFFSET,
};

#[test]
fn word_splits_into_low_then_high_half() {
    assert_eq!(word_halves(0x1234_5678), (0x5678, 0x1234));
    assert_eq!(word_halves(0), (0, 0));
    assert_eq!(word_halves(u32::MAX), (0xFFFF, 0xFFFF));
    assert_eq!(word_halves(0x0001_0000), (0, 1));
}

#[test]
fn halves_join_into_word() {
    assert_eq!(word_from_halves(0x5678, 0x1234), 0x1234_5678);
    assert_eq!(word_from_halves(0xFFFF, 0), 0xFFFF);
    assert_eq!(word_from_halves(0, 0xFFFF), 0xFFFF_0000);
}

#[test]
fn split_and_join_round_trip() {
    for w in [0u32, 1, 0xFFFF, 0x1_0000, 0xDEAD_BEEF, u32::MAX, 123_456_789] {
        let (lo, hi) = word_halves(w);
        assert_eq!(word_from_halves(lo, hi), w);
    }
}

#[test]
fn addresses_are_offsets_into_the_eeprom() {
    assert_eq!(halfword_address(0), EEPROM_BASE);
    assert_eq!(halfword_address(HITCOUNT_OFFSET), 0x0808_0006);
    assert_eq!(halfword_address(u32::MAX - EEPROM_BASE), u32::MAX);
}

#[test]
fn stored_word_is_read_back_from_where_it_was_written() {
    let plan = word_write_plan(HITTIME_OFFSET, 0xCAFE_F00D);
    assert_eq!(plan, ((0x0808_0002, 0xF00D), (0x0808_0004, 0xCAFE)));
    assert_eq!(word_read_addresses(HITTIME_OFFSET), (plan.0 .0, plan.1 .0));
    assert_eq!(word_from_halves(plan.0 .1, plan.1 .1), 0xCAFE_F00D);
    let last = word_write_plan(MAX_WORD_OFFSET, 7);
    assert_eq!(last, ((u32::MAX - 2, 7), (u32::MAX, 0)));
}

#[test]
fn totals_do_not_share_halfwords() {
    let (d0, d1) = word_read_addresses(HITTIME_OFFSET);
    let (c0, c1) = word_read_addresses(HITCOUNT_OFFSET);
    let all = [d0, d1, c0, c1];
    for i in 0..4 {
        for j in 0..4 {
            if i != j {
                assert_ne!(all[i], all[j]);
            }
        }
    }
}

#[test]
fn erased_and_zero_words_are_not_restored() {
    assert_eq!(restored_word(0xFFFF_FFFF), None);
    assert_eq!(restored_word(0), None);
    assert_eq!(restored_word(1), Some(1));
    assert_eq!(restored_word(0xFFFF_FFFE), Some(0xFFFF_FFFE));
}

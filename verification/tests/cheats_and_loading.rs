use garntboy::CoreError;
use garntboy::cheats::CheatCache;
use garntboy::garntboy_state::GarntboyState;

#[test]
fn a_fresh_state_is_blank() {
    let mut st = GarntboyState::new();
    assert_eq!(st.registers.pc(), 0);
    assert_eq!(st.cycles_to_sleep, 0);
    assert!(!st.has_queued_changes);
    assert_eq!(st.read_mem(0x0000), 0);
    assert_eq!(st.read_mem(0xFFFF), 0);
}

#[test]
fn memory_reads_and_writes_cover_the_whole_bus() {
    let mut st = GarntboyState::new();
    st.write_mem(0x0000, 0x11);
    st.write_mem(0xFFFF, 0x22);
    assert_eq!(st.read_mem(0x0000), 0x11);
    assert_eq!(st.read_mem(0xFFFF), 0x22);
    assert_eq!(st.read_mem(0x8000), 0x00);
}

#[test]
fn load_image_copies_bytes_and_sets_the_entry_point() {
    let mut st = GarntboyState::new();
    let image = vec![0xAA, 0xBB, 0xCC];
    assert_eq!(st.load_image(&image), Ok(()));
    assert_eq!(st.read_mem(0), 0xAA);
    assert_eq!(st.read_mem(1), 0xBB);
    assert_eq!(st.read_mem(2), 0xCC);
    assert_eq!(st.read_mem(3), 0x00);
    assert_eq!(st.registers.pc(), 0x0100);
}

#[test]
fn load_image_accepts_a_full_sized_image() {
    let mut st = GarntboyState::new();
    let image = vec![0x77u8; 65536];
    assert_eq!(st.load_image(&image), Ok(()));
    assert_eq!(st.read_mem(0xFFFF), 0x77);
}

#[test]
fn an_oversized_image_is_rejected_untouched() {
    let mut st = GarntboyState::new();
    st.write_mem(0x10, 0x42);
    let image = vec![0u8; 65537];
    assert_eq!(st.load_image(&image), Err(CoreError::ImageTooLarge));
    assert_eq!(st.read_mem(0x10), 0x42);
    assert_eq!(st.registers.pc(), 0x0000);
}

#[test]
fn cheat_apply_patches_committed_memory() {
    let mut st = GarntboyState::new();
    let mut cheats = CheatCache::new();
    st.write_mem(0x20, 0x01);
    st.write_mem(0x21, 0x02);
    assert_eq!(cheats.apply(&mut st, 0x20, &vec![0xDE, 0xAD]), Ok(()));
    assert_eq!(st.read_mem(0x20), 0xDE);
    assert_eq!(st.read_mem(0x21), 0xAD);
    assert_eq!(st.read_mem(0x22), 0x00);
}

#[test]
fn cheat_apply_and_revert_restore_memory_bit_for_bit() {
    let mut st = GarntboyState::new();
    let image: Vec<u8> = (0..=255).cycle().take(0x200).map(|b: u16| b as u8).collect();
    st.load_image(&image).unwrap();
    let before: Vec<u8> = (0..0x200u16).map(|a| st.read_mem(a)).collect();

    let mut cheats = CheatCache::new();
    cheats.apply(&mut st, 0x0040, &vec![0xFF, 0xFF, 0xFF, 0xFF]).unwrap();
    assert_eq!(st.read_mem(0x0040), 0xFF);
    cheats.revert(&mut st);

    let after: Vec<u8> = (0..0x200u16).map(|a| st.read_mem(a)).collect();
    assert_eq!(before, after);
}

#[test]
fn overlapping_cheats_revert_newest_first_and_restore_everything() {
    let mut st = GarntboyState::new();
    for a in 0u16..8 {
        st.write_mem(a, a as u8 + 1);
    }
    let mut cheats = CheatCache::new();
    cheats.apply(&mut st, 0, &vec![0x10, 0x20, 0x30, 0x40]).unwrap();
    cheats.apply(&mut st, 2, &vec![0x50, 0x60, 0x70, 0x80]).unwrap();
    assert_eq!(st.read_mem(2), 0x50);
    cheats.revert(&mut st);
    for a in 0u16..8 {
        assert_eq!(st.read_mem(a), a as u8 + 1);
    }
}

#[test]
fn a_cheat_past_the_end_of_memory_is_rejected_untouched() {
    let mut st = GarntboyState::new();
    let mut cheats = CheatCache::new();
    assert_eq!(
        cheats.apply(&mut st, 0xFFFF, &vec![0x01, 0x02]),
        Err(CoreError::CheatOutOfRange)
    );
    assert_eq!(st.read_mem(0xFFFF), 0x00);
    // Memory untouched, so a later revert has nothing to undo.
    cheats.revert(&mut st);
    assert_eq!(st.read_mem(0xFFFF), 0x00);
}

#[test]
fn reverting_an_empty_cache_changes_nothing() {
    let mut st = GarntboyState::new();
    st.write_mem(0x30, 0x99);
    let mut cheats = CheatCache::new();
    cheats.revert(&mut st);
    assert_eq!(st.read_mem(0x30), 0x99);
}

use rot_kernel::cfi::{emit_lpad, ShadowStack, ENVCFG_LPE, ENVCFG_SSE};
use rot_kernel::hart::Hart;
use rot_kernel::memory::Memory;
use rot_kernel::services::{
    rot_measure_firmware, rot_seal_secret, xor_region, MEASURE_LABEL, SEAL_LABEL,
};

fn hart(has_cfi: bool) -> Hart {
    let mut hart = Hart::reset(has_cfi);
    if has_cfi {
        hart.menvcfg = ENVCFG_LPE | ENVCFG_SSE;
    }
    hart.ra = 0x8000_0100;
    hart.sp = 0x8001_8000;
    hart.sw = ShadowStack::new(0x8001_9000);
    hart.hw = ShadowStack::new(0x8001_8000);
    hart
}

fn assert_untouched(hart: &Hart) {
    assert_eq!(hart.ra, 0x8000_0100);
    assert_eq!(hart.sp, 0x8001_8000);
    assert_eq!(hart.sw.ptr, 0x8001_9000);
    assert!(hart.sw.words.is_empty());
    assert!(hart.hw.words.is_empty());
}

#[test]
fn measure_four_words() {
    for has_cfi in [false, true] {
        let mut h = hart(has_cfi);
        let mut mem = Memory::new();
        let base = 0x8002_0000;
        mem.write_word(base, 0x0000_0001);
        mem.write_word(base + 4, 0x0000_0002);
        mem.write_word(base + 8, 0x0000_0004);
        mem.write_word(base + 12, 0x0000_0008);
        assert_eq!(rot_measure_firmware(&mut h, &mem, base, 16), 0x0000_000F);
        assert_untouched(&h);
    }
}

#[test]
fn measure_empty_range_is_zero() {
    let mut h = hart(true);
    let mut mem = Memory::new();
    mem.write_word(0x8002_0000, 0xFFFF_FFFF);
    for base in [0u32, 0x8002_0000, 0x8002_0001, 0xFFFF_FFFF] {
        assert_eq!(rot_measure_firmware(&mut h, &mem, base, 0), 0);
    }
    assert_untouched(&h);
}

#[test]
fn measure_stops_at_the_end_of_the_range() {
    let mut h = hart(false);
    let mut mem = Memory::new();
    mem.write_word(0x1000, 0x1111_1111);
    mem.write_word(0x1004, 0x2222_2222);
    mem.write_word(0x1008, 0x4444_4444);
    assert_eq!(rot_measure_firmware(&mut h, &mem, 0x1000, 4), 0x1111_1111);
    assert_eq!(rot_measure_firmware(&mut h, &mem, 0x1000, 8), 0x3333_3333);
    assert_eq!(rot_measure_firmware(&mut h, &mem, 0x1000, 12), 0x7777_7777);
    assert_eq!(rot_measure_firmware(&mut h, &mem, 0x1004, 8), 0x6666_6666);
}

#[test]
fn measure_cancels_equal_words() {
    let mut h = hart(false);
    let mut mem = Memory::new();
    mem.write_word(0x2000, 0xCAFE_F00D);
    mem.write_word(0x2004, 0xCAFE_F00D);
    assert_eq!(rot_measure_firmware(&mut h, &mem, 0x2000, 8), 0);
}

#[test]
fn measure_reads_words_low_byte_first() {
    let mut h = hart(false);
    let mut mem = Memory::new();
    mem.write_byte(0x3000, 0x78);
    mem.write_byte(0x3001, 0x56);
    mem.write_byte(0x3002, 0x34);
    mem.write_byte(0x3003, 0x12);
    assert_eq!(rot_measure_firmware(&mut h, &mem, 0x3000, 4), 0x1234_5678);
}

#[test]
fn measure_takes_only_whole_aligned_words() {
    let mut h = hart(false);
    let mut mem = Memory::new();
    mem.write_word(0x1000, 0x0000_00AA);
    mem.write_word(0x1004, 0x0000_BB00);
    mem.write_word(0x1008, 0x00CC_0000);
    assert_eq!(rot_measure_firmware(&mut h, &mem, 0x1000, 7), 0x0000_00AA);
    assert_eq!(rot_measure_firmware(&mut h, &mem, 0x1001, 7), 0x0000_BB00);
    assert_eq!(rot_measure_firmware(&mut h, &mem, 0x1001, 6), 0);
    assert_eq!(rot_measure_firmware(&mut h, &mem, 0x1001, 11), 0x00CC_BB00);
    assert_eq!(rot_measure_firmware(&mut h, &mem, 0x1000, 3), 0);
}

#[test]
fn measure_stops_at_the_top_of_the_address_space() {
    let mut h = hart(false);
    let mut mem = Memory::new();
    mem.write_word(0xFFFF_FFF8, 0x0000_0003);
    mem.write_word(0xFFFF_FFFC, 0x0000_0030);
    mem.write_word(0, 0x0000_0300);
    assert_eq!(rot_measure_firmware(&mut h, &mem, 0xFFFF_FFF8, 8), 0x33);
    assert_eq!(rot_measure_firmware(&mut h, &mem, 0xFFFF_FFF8, 0xFFFF_FFFF), 0x33);
}

#[test]
fn measure_the_whole_application_code() {
    let mut h = hart(true);
    let mut mem = Memory::new();
    mem.write_word(0x8002_0000, 0x0000_0017);
    mem.write_word(0x8003_FFFC, 0x1000_0000);
    mem.write_word(0x8004_0000, 0xFFFF_FFFF);
    assert_eq!(rot_measure_firmware(&mut h, &mem, 0x8002_0000, 128 * 1024), 0x1000_0017);
    assert_untouched(&h);
}

#[test]
fn seal_is_exclusive_or() {
    let mut h = hart(true);
    assert_eq!(rot_seal_secret(&mut h, 0xDEAD_BEEF, 1), 0xDEAD_BEEE);
    assert_eq!(rot_seal_secret(&mut h, 0, 0), 0);
    assert_eq!(rot_seal_secret(&mut h, 0xFFFF_FFFF, 0x0F0F_0F0F), 0xF0F0_F0F0);
    assert_untouched(&h);
}

#[test]
fn seal_twice_gives_the_secret_back() {
    let mut h = hart(false);
    for (x, k) in [(0u32, 0u32), (0xDEAD_BEEF, 1), (0x1234_5678, 0xFFFF_FFFF), (7, 7)] {
        let once = rot_seal_secret(&mut h, x, k);
        assert_eq!(rot_seal_secret(&mut h, once, k), x);
    }
}

#[test]
fn service_landing_pads() {
    assert_eq!(emit_lpad(MEASURE_LABEL), 0x0000_0017);
    assert_eq!(emit_lpad(SEAL_LABEL), 0x0000_7017);
}

#[test]
fn body_of_the_measurement_alone() {
    let mut mem = Memory::new();
    mem.write_word(0x4000, 0x00FF_00FF);
    mem.write_word(0x4004, 0x0F0F_0F0F);
    assert_eq!(xor_region(&mem, 0x4000, 8), 0x0FF0_0FF0);
    assert_eq!(xor_region(&mem, 0x4000, 0), 0);
}

use rot_kernel::cfi::{
    check_landing_pad, decode_lpad, emit_hw_sspopchk, emit_hw_sspush, emit_lpad, CfiFault,
    ShadowStack, ENVCFG_LPE, ENVCFG_SSE,
};
use rot_kernel::hart::{Frame, Hart};

fn hart_with_cfi() -> Hart {
    let mut hart = Hart::reset(true);
    hart.menvcfg = ENVCFG_LPE | ENVCFG_SSE;
    hart.ra = 0x8000_1234;
    hart.sp = 0x8001_8000;
    hart.sw = ShadowStack::new(0x8001_9000);
    hart.hw = ShadowStack::new(0x8001_8000);
    hart
}

fn hart_without_cfi() -> Hart {
    let mut hart = Hart::reset(false);
    hart.ra = 0x8000_1234;
    hart.sp = 0x8001_8000;
    hart.sw = ShadowStack::new(0x8001_9000);
    hart
}

#[test]
fn lpad_encodings() {
    assert_eq!(emit_lpad(0), 0x0000_0017);
    assert_eq!(emit_lpad(7), 0x0000_7017);
    assert_eq!(emit_lpad(1), 0x0000_1017);
    assert_eq!(emit_lpad(0xF_FFFF), 0xFFFF_F017);
}

#[test]
fn hardware_shadow_stack_encodings() {
    assert_eq!(emit_hw_sspush(), 0x6010_0073);
    assert_eq!(emit_hw_sspopchk(), 0x6050_0073);
}

#[test]
fn lpad_decodes_to_its_label() {
    assert_eq!(decode_lpad(0x0000_0017), Some(0));
    assert_eq!(decode_lpad(0x0000_7017), Some(7));
    assert_eq!(decode_lpad(emit_lpad(0xABCDE)), Some(0xABCDE));
}

#[test]
fn other_instructions_are_no_landing_pads() {
    assert_eq!(decode_lpad(0x6010_0073), None);
    assert_eq!(decode_lpad(0x0000_0097), None);
    assert_eq!(decode_lpad(0x0000_0013), None);
    assert_eq!(decode_lpad(0), None);
}

#[test]
fn label_zero_matches_every_branch() {
    assert!(check_landing_pad(emit_lpad(0), 0));
    assert!(check_landing_pad(emit_lpad(0), 7));
    assert!(check_landing_pad(emit_lpad(0), 0xF_FFFF));
}

#[test]
fn labelled_pad_matches_only_its_label() {
    assert!(check_landing_pad(emit_lpad(7), 7));
    assert!(!check_landing_pad(emit_lpad(7), 0));
    assert!(!check_landing_pad(emit_lpad(7), 8));
}

#[test]
fn branch_to_a_plain_instruction_is_refused() {
    assert!(!check_landing_pad(0x0000_0013, 0));
    assert!(!check_landing_pad(0x6010_0073, 0));
}

#[test]
fn branch_check_is_off_without_the_feature() {
    let hart = hart_without_cfi();
    assert_eq!(hart.check_branch(0x0000_0013, 0), Ok(()));
    let mut present = Hart::reset(true);
    assert_eq!(present.check_branch(0x0000_0013, 0), Ok(()));
    present.menvcfg = ENVCFG_LPE;
    assert_eq!(present.check_branch(0x0000_0013, 0), Err(CfiFault::LandingPad));
    assert_eq!(present.check_branch(emit_lpad(7), 3), Err(CfiFault::LandingPad));
    assert_eq!(present.check_branch(emit_lpad(7), 7), Ok(()));
}

#[test]
fn shadow_stack_grows_upward() {
    let mut stack = ShadowStack::new(0x8001_9000);
    stack.push(0x11);
    assert_eq!(stack.ptr, 0x8001_9004);
    stack.push(0x22);
    assert_eq!(stack.ptr, 0x8001_9008);
    assert_eq!(stack.words, vec![0x11, 0x22]);
    assert_eq!(stack.pop(), Some(0x22));
    assert_eq!(stack.ptr, 0x8001_9004);
    assert_eq!(stack.pop(), Some(0x11));
    assert_eq!(stack.ptr, 0x8001_9000);
}

#[test]
fn pop_of_an_empty_shadow_stack() {
    let mut stack = ShadowStack::new(0x8001_9000);
    assert_eq!(stack.pop(), None);
    assert_eq!(stack.ptr, 0x8001_8FFC);
    assert!(stack.words.is_empty());
}

#[test]
fn shadow_pointer_wraps() {
    let mut stack = ShadowStack::new(0xFFFF_FFFC);
    stack.push(1);
    assert_eq!(stack.ptr, 0);
    let mut stack = ShadowStack::new(0);
    assert_eq!(stack.pop(), None);
    assert_eq!(stack.ptr, 0xFFFF_FFFC);
}

#[test]
fn switch_empties_and_restore_keeps() {
    let mut stack = ShadowStack::new(0x100);
    stack.push(5);
    stack.restore(0x200);
    assert_eq!(stack.ptr, 0x200);
    assert_eq!(stack.words, vec![5]);
    stack.switch_to(0x300);
    assert_eq!(stack.ptr, 0x300);
    assert!(stack.words.is_empty());
}

#[test]
fn software_push_and_check() {
    let mut hart = hart_without_cfi();
    hart.sw_sspush();
    assert_eq!(hart.sw.words, vec![0x8000_1234]);
    assert_eq!(hart.sw.ptr, 0x8001_9004);
    assert_eq!(hart.sw_sspopchk(), Ok(()));
    assert_eq!(hart.sw.ptr, 0x8001_9000);
    hart.sw_sspush();
    hart.ra = 0x6666_6666;
    assert_eq!(hart.sw_sspopchk(), Err(CfiFault::SoftwareShadowStack));
}

#[test]
fn hardware_push_and_check_are_no_ops_without_the_feature() {
    let mut hart = hart_without_cfi();
    hart.hw_sspush();
    assert!(hart.hw.words.is_empty());
    assert_eq!(hart.hw.ptr, 0);
    hart.ra = 1;
    assert_eq!(hart.hw_sspopchk(), Ok(()));
    assert_eq!(hart.hw.ptr, 0);
}

#[test]
fn hardware_push_and_check_with_the_feature() {
    let mut hart = hart_with_cfi();
    hart.hw_sspush();
    assert_eq!(hart.hw.words, vec![0x8000_1234]);
    assert_eq!(hart.hw.ptr, 0x8001_8004);
    assert_eq!(hart.hw_sspopchk(), Ok(()));
    hart.hw_sspush();
    hart.ra = 2;
    assert_eq!(hart.hw_sspopchk(), Err(CfiFault::HardwareShadowStack));
}

#[test]
fn hardware_shadow_stack_needs_its_enable_bit() {
    let mut hart = hart_with_cfi();
    hart.menvcfg = ENVCFG_LPE;
    hart.hw_sspush();
    assert!(hart.hw.words.is_empty());
    assert!(!hart.shadow_stack_active());
    assert!(hart.landing_pads_active());
}

#[test]
fn enter_fills_the_frame_and_both_stacks() {
    let mut hart = hart_with_cfi();
    let frame = hart.cfi_enter();
    assert_eq!(frame, Frame { saved_ra: 0x8000_1234, saved_gp: 0x8001_9000 });
    assert_eq!(hart.sp, 0x8001_7FF0);
    assert_eq!(hart.sw.words, vec![0x8000_1234]);
    assert_eq!(hart.sw.ptr, 0x8001_9004);
    assert_eq!(hart.hw.words, vec![0x8000_1234]);
}

#[test]
fn leave_undoes_enter() {
    for mut hart in [hart_with_cfi(), hart_without_cfi()] {
        let frame = hart.cfi_enter();
        assert_eq!(hart.cfi_leave(&frame), Ok(()));
        assert_eq!(hart.ra, 0x8000_1234);
        assert_eq!(hart.sp, 0x8001_8000);
        assert_eq!(hart.sw.ptr, 0x8001_9000);
        assert!(hart.sw.words.is_empty());
        assert!(hart.hw.words.is_empty());
    }
}

#[test]
fn corrupted_return_address_stops_at_the_software_check() {
    for mut hart in [hart_with_cfi(), hart_without_cfi()] {
        let mut frame = hart.cfi_enter();
        frame.saved_ra = 0x6666_6666;
        assert_eq!(hart.cfi_leave(&frame), Err(CfiFault::SoftwareShadowStack));
        assert_eq!(hart.sp, 0x8001_7FF0);
    }
}

#[test]
fn hardware_stack_catches_what_the_software_stack_misses() {
    let mut hart = hart_with_cfi();
    let mut frame = hart.cfi_enter();
    frame.saved_ra = 0x6666_6666;
    hart.sw.words[0] = 0x6666_6666;
    assert_eq!(hart.cfi_leave(&frame), Err(CfiFault::HardwareShadowStack));
}

#[test]
fn nested_frames_unwind_in_order() {
    let mut hart = hart_with_cfi();
    let outer = hart.cfi_enter();
    hart.ra = 0x8000_2000;
    let inner = hart.cfi_enter();
    assert_eq!(hart.sw.words, vec![0x8000_1234, 0x8000_2000]);
    assert_eq!(hart.cfi_leave(&inner), Ok(()));
    assert_eq!(hart.cfi_leave(&outer), Ok(()));
    assert_eq!(hart.ra, 0x8000_1234);
    assert!(hart.sw.words.is_empty());
}

use garntboy::register_state::CPUFlags;
use garntboy::register_state::RegisterState;

#[test]
fn new_register_file_is_zeroed() {
    let mut rs = RegisterState::new();
    assert_eq!(rs.af(), 0);
    assert_eq!(rs.bc(), 0);
    assert_eq!(rs.de(), 0);
    assert_eq!(rs.hl(), 0);
    assert_eq!(rs.sp(), 0);
    assert_eq!(rs.pc(), 0);
    assert_eq!(rs.a(), 0);
    assert_eq!(rs.f(), 0);
}

#[test]
fn pair_writes_read_back_af() {
    let mut rs = RegisterState::new();
    rs.set_af(0x1234);
    assert_eq!(rs.af(), 0x1234);
    assert_eq!(rs.a(), 0x12);
    assert_eq!(rs.f(), 0x34);
}

#[test]
fn pair_writes_read_back_bc() {
    let mut rs = RegisterState::new();
    rs.set_bc(0xBEEF);
    assert_eq!(rs.bc(), 0xBEEF);
    assert_eq!(rs.b(), 0xBE);
    assert_eq!(rs.c(), 0xEF);
}

#[test]
fn pair_writes_read_back_de() {
    let mut rs = RegisterState::new();
    rs.set_de(0xD00D);
    assert_eq!(rs.de(), 0xD00D);
    assert_eq!(rs.d(), 0xD0);
    assert_eq!(rs.e(), 0x0D);
}

#[test]
fn pair_writes_read_back_hl() {
    let mut rs = RegisterState::new();
    rs.set_hl(0xFF01);
    assert_eq!(rs.hl(), 0xFF01);
    assert_eq!(rs.h(), 0xFF);
    assert_eq!(rs.l(), 0x01);
}

#[test]
fn half_writes_compose_into_pairs() {
    let mut rs = RegisterState::new();
    rs.set_b(0xAB);
    rs.set_c(0xCD);
    assert_eq!(rs.bc(), 0xABCD);
    rs.set_h(0x12);
    rs.set_l(0x21);
    assert_eq!(rs.hl(), 0x1221);
    rs.set_d(0x7F);
    rs.set_e(0x80);
    assert_eq!(rs.de(), 0x7F80);
    rs.set_a(0x55);
    rs.set_f(0xA0);
    assert_eq!(rs.af(), 0x55A0);
}

#[test]
fn half_write_leaves_every_other_register_alone() {
    let mut rs = RegisterState::new();
    rs.set_a(0x11);
    rs.set_f(0x20);
    rs.set_b(0x33);
    rs.set_c(0x44);
    rs.set_d(0x55);
    rs.set_e(0x66);
    rs.set_h(0x77);
    rs.set_l(0x88);
    rs.set_sp(0x1234);
    rs.set_pc(0x4321);
    rs.set_e(0xEE);
    assert_eq!(rs.a(), 0x11);
    assert_eq!(rs.f(), 0x20);
    assert_eq!(rs.b(), 0x33);
    assert_eq!(rs.c(), 0x44);
    assert_eq!(rs.d(), 0x55);
    assert_eq!(rs.e(), 0xEE);
    assert_eq!(rs.h(), 0x77);
    assert_eq!(rs.l(), 0x88);
    assert_eq!(rs.sp(), 0x1234);
    assert_eq!(rs.pc(), 0x4321);
}

#[test]
fn writing_one_half_keeps_the_other_half_of_its_pair() {
    let mut rs = RegisterState::new();
    rs.set_bc(0x1234);
    rs.set_b(0x99);
    assert_eq!(rs.c(), 0x34);
    rs.set_c(0x77);
    assert_eq!(rs.b(), 0x99);
    assert_eq!(rs.bc(), 0x9977);
}

#[test]
fn sp_and_pc_are_plain_accessors() {
    let mut rs = RegisterState::new();
    rs.set_sp(0xFFFE);
    rs.set_pc(0x0100);
    assert_eq!(rs.sp(), 0xFFFE);
    assert_eq!(rs.pc(), 0x0100);
    assert_eq!(rs.af(), 0);
    assert_eq!(rs.hl(), 0);
}

#[test]
fn flags_round_trip_for_every_combination() {
    for bits in 0u8..16 {
        let fl = CPUFlags {
            zero: bits & 8 != 0,
            subtract: bits & 4 != 0,
            half_carry: bits & 2 != 0,
            carry: bits & 1 != 0,
        };
        let mut rs = RegisterState::new();
        rs.set_cpu_flags(fl);
        assert_eq!(rs.cpu_flags(), fl);
    }
}

#[test]
fn flag_byte_low_nibble_is_zero_whatever_came_before() {
    let mut rs = RegisterState::new();
    rs.set_f(0xFF);
    let fl = CPUFlags { zero: true, subtract: false, half_carry: true, carry: false };
    rs.set_cpu_flags(fl);
    assert_eq!(rs.f() & 0x0F, 0);
    assert_eq!(rs.f(), 0xA0);
}

#[test]
fn flags_project_out_of_the_f_byte() {
    let mut rs = RegisterState::new();
    rs.set_f(0x90);
    let fl = rs.cpu_flags();
    assert!(fl.zero);
    assert!(!fl.subtract);
    assert!(!fl.half_carry);
    assert!(fl.carry);
}

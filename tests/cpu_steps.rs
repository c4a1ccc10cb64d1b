use nes6502::cpu::CPU;
use nes6502::flags::{
    Flags, BREAK_COMMAND, CARRY, DECIMAL_MODE, INTERRUPT_DISABLE, NEGATIVE, OVERFLOW, UNUSED,
    ZERO,
};
use nes6502::memory::{FlatMemory, Memory};

fn cpu_at(pc: u16) -> CPU {
    let mut c = CPU::new();
    c.pc = pc;
    c
}

fn load(m: &mut FlatMemory, address: u16, bytes: &[u8]) {
    for (i, b) in bytes.iter().enumerate() {
        m.write8(address.wrapping_add(i as u16), *b);
    }
}

fn has(c: &CPU, mask: u8) -> bool {
    c.flags.contains(mask)
}

#[test]
fn new_cpu_is_all_zero() {
    let c = CPU::new();
    assert_eq!((c.pc, c.sp, c.a, c.x, c.y, c.flags.bits(), c.clock), (0, 0, 0, 0, 0, 0, 0));
}

#[test]
fn adc_immediate_positive_overflow() {
    let mut m = FlatMemory::new();
    load(&mut m, 0x0200, &[0x69, 0x50]);
    let mut c = cpu_at(0x0200);
    c.a = 0x50;
    c.step(&mut m);
    assert_eq!(c.pc, 0x0202);
    assert_eq!(c.a, 0xa0);
    assert!(has(&c, NEGATIVE));
    assert!(has(&c, OVERFLOW));
    assert!(!has(&c, ZERO));
    assert!(!has(&c, CARRY));
    assert_eq!(c.clock, 2);
}

#[test]
fn stack_wraps_through_pha_and_pla() {
    let mut m = FlatMemory::new();
    load(&mut m, 0x0200, &[0x48, 0x68]);
    let mut c = cpu_at(0x0200);
    c.sp = 0x00;
    c.a = 0x42;
    c.step(&mut m);
    assert_eq!(c.sp, 0xff);
    assert_eq!(m.peek(0x0100), 0x42);
    assert_eq!(c.clock, 3);
    c.a = 0x00;
    c.step(&mut m);
    assert_eq!(c.sp, 0x00);
    assert_eq!(c.a, 0x42);
    assert!(!has(&c, ZERO));
    assert!(!has(&c, NEGATIVE));
    assert_eq!(c.clock, 7);
}

// The branch lands on 0x0205. Its operand ends at 0x01ff, so the address after the operand is
// 0x0200, on the same page as the target: a taken branch without a page cross, 3 cycles.
#[test]
fn taken_branch_after_page_boundary() {
    let mut m = FlatMemory::new();
    load(&mut m, 0x01fe, &[0xf0, 0x05]);
    let mut c = cpu_at(0x01fe);
    c.flags.set(ZERO, true);
    c.step(&mut m);
    assert_eq!(c.pc, 0x0205);
    assert_eq!(c.clock, 3);
}

#[test]
fn taken_branch_across_page_costs_four() {
    let mut m = FlatMemory::new();
    load(&mut m, 0x02f0, &[0xd0, 0x20]);
    let mut c = cpu_at(0x02f0);
    c.step(&mut m);
    assert_eq!(c.pc, 0x0312);
    assert_eq!(c.clock, 4);
}

#[test]
fn backward_branch_and_not_taken_branch() {
    let mut m = FlatMemory::new();
    load(&mut m, 0x0210, &[0x90, 0xfc, 0xb0, 0x10]);
    let mut c = cpu_at(0x0210);
    c.step(&mut m);
    assert_eq!(c.pc, 0x020e);
    assert_eq!(c.clock, 3);
    let mut c = cpu_at(0x0212);
    c.step(&mut m);
    assert_eq!(c.pc, 0x0214);
    assert_eq!(c.clock, 2);
}

#[test]
fn jmp_indirect_stays_on_page() {
    let mut m = FlatMemory::new();
    load(&mut m, 0x0300, &[0x6c, 0xff, 0x02]);
    m.write8(0x02ff, 0x34);
    m.write8(0x0200, 0x12);
    m.write8(0x0300, 0x6c);
    let mut c = cpu_at(0x0300);
    c.step(&mut m);
    assert_eq!(c.pc, 0x1234);
    assert_eq!(c.clock, 5);
}

#[test]
fn jmp_indirect_inside_page() {
    let mut m = FlatMemory::new();
    load(&mut m, 0x0300, &[0x6c, 0x80, 0x04]);
    load(&mut m, 0x0480, &[0xcd, 0xab]);
    let mut c = cpu_at(0x0300);
    c.step(&mut m);
    assert_eq!(c.pc, 0xabcd);
}

#[test]
fn brk_pushes_and_vectors() {
    let mut m = FlatMemory::new();
    m.write8(0xfffe, 0x00);
    m.write8(0xffff, 0xc0);
    m.write8(0x0200, 0x00);
    let mut c = cpu_at(0x0200);
    c.sp = 0xfd;
    c.flags = Flags::from_bits_retain(0b0010_0100);
    c.step(&mut m);
    assert_eq!(m.peek(0x01fd), 0x02);
    assert_eq!(m.peek(0x01fc), 0x02);
    assert_eq!(m.peek(0x01fb), 0x34);
    assert_eq!(c.sp, 0xfa);
    assert_eq!(c.pc, 0xc000);
    assert!(has(&c, INTERRUPT_DISABLE));
    assert_eq!(c.clock, 7);
}

#[test]
fn indirect_indexed_read_across_page() {
    let mut m = FlatMemory::new();
    m.write8(0x0010, 0xff);
    m.write8(0x0011, 0x10);
    load(&mut m, 0x0200, &[0xb1, 0x10]);
    m.write8(0x1100, 0x77);
    let mut c = cpu_at(0x0200);
    c.y = 0x01;
    c.step(&mut m);
    assert_eq!(c.a, 0x77);
    assert!(!has(&c, ZERO));
    assert!(!has(&c, NEGATIVE));
    assert_eq!(c.pc, 0x0202);
    assert_eq!(c.clock, 6);
}

#[test]
fn indexed_absolute_reads_cost_five_across_page() {
    let mut m = FlatMemory::new();
    load(&mut m, 0x0200, &[0xbd, 0xf0, 0x12, 0xb9, 0xf0, 0x12, 0xbd, 0x00, 0x12]);
    m.write8(0x1301, 0x99);
    let mut c = cpu_at(0x0200);
    c.x = 0x11;
    c.step(&mut m);
    assert_eq!(c.a, 0x99);
    assert_eq!(c.clock, 5);
    c.y = 0x11;
    c.a = 0;
    c.step(&mut m);
    assert_eq!(c.a, 0x99);
    assert_eq!(c.clock, 10);
    c.step(&mut m);
    assert_eq!(c.clock, 14);
    assert_eq!(c.pc, 0x0209);
}

#[test]
fn pc_moves_by_instruction_length() {
    let mut m = FlatMemory::new();
    load(&mut m, 0x0400, &[0xea, 0xa9, 0x01, 0xad, 0x00, 0x20, 0x0c, 0x00, 0x00, 0x04, 0x10]);
    let mut c = cpu_at(0x0400);
    c.step(&mut m);
    assert_eq!(c.pc, 0x0401);
    c.step(&mut m);
    assert_eq!(c.pc, 0x0403);
    c.step(&mut m);
    assert_eq!(c.pc, 0x0406);
    c.step(&mut m);
    assert_eq!(c.pc, 0x0409);
    assert_eq!(c.clock, 2 + 2 + 4 + 4);
    c.step(&mut m);
    assert_eq!(c.pc, 0x040b);
    assert_eq!(c.clock, 15);
}

#[test]
fn program_counter_wraps_at_top_of_memory() {
    let mut m = FlatMemory::new();
    m.write8(0xffff, 0xe8);
    let mut c = cpu_at(0xffff);
    c.step(&mut m);
    assert_eq!(c.pc, 0x0000);
    assert_eq!(c.x, 1);
}

#[test]
fn kil_stays_on_its_opcode() {
    let mut m = FlatMemory::new();
    m.write8(0x0200, 0x02);
    let mut c = cpu_at(0x0200);
    c.step(&mut m);
    assert_eq!(c.pc, 0x0200);
    assert_eq!(c.clock, 3);
}

#[test]
fn zero_and_negative_follow_loads() {
    let mut m = FlatMemory::new();
    load(&mut m, 0x0200, &[0xa9, 0x00, 0xa2, 0x80, 0xa0, 0x7f]);
    let mut c = cpu_at(0x0200);
    c.step(&mut m);
    assert!(has(&c, ZERO) && !has(&c, NEGATIVE));
    c.step(&mut m);
    assert!(!has(&c, ZERO) && has(&c, NEGATIVE));
    assert_eq!(c.x, 0x80);
    c.step(&mut m);
    assert!(!has(&c, ZERO) && !has(&c, NEGATIVE));
    assert_eq!(c.y, 0x7f);
}

#[test]
fn php_pushes_break_and_unused() {
    let mut m = FlatMemory::new();
    m.write8(0x0200, 0x08);
    let mut c = cpu_at(0x0200);
    c.sp = 0xff;
    c.flags = Flags::from_bits_retain(CARRY);
    c.step(&mut m);
    assert_eq!(m.peek(0x01ff), CARRY | BREAK_COMMAND | UNUSED);
    assert_eq!(c.sp, 0xfe);
    assert_eq!(c.clock, 3);
}

#[test]
fn plp_clears_break_and_sets_unused() {
    let mut m = FlatMemory::new();
    m.write8(0x0200, 0x28);
    m.write8(0x01ff, 0xdf);
    let mut c = cpu_at(0x0200);
    c.sp = 0xfe;
    c.step(&mut m);
    assert_eq!(c.flags.bits(), 0xef);
    assert_eq!(c.sp, 0xff);
    assert_eq!(c.clock, 4);
}

#[test]
fn rti_restores_flags_and_pc() {
    let mut m = FlatMemory::new();
    m.write8(0x0200, 0x40);
    load(&mut m, 0x01fd, &[0x10 | OVERFLOW, 0x34, 0x12]);
    let mut c = cpu_at(0x0200);
    c.sp = 0xfc;
    c.step(&mut m);
    assert_eq!(c.flags.bits(), OVERFLOW | UNUSED);
    assert_eq!(c.pc, 0x1234);
    assert_eq!(c.sp, 0xff);
    assert_eq!(c.clock, 6);
}

#[test]
fn jsr_then_rts_returns_after_call() {
    let mut m = FlatMemory::new();
    load(&mut m, 0x0200, &[0x20, 0x00, 0x30]);
    m.write8(0x3000, 0x60);
    let mut c = cpu_at(0x0200);
    c.sp = 0xff;
    c.step(&mut m);
    assert_eq!(c.pc, 0x3000);
    assert_eq!(m.peek(0x01ff), 0x02);
    assert_eq!(m.peek(0x01fe), 0x02);
    assert_eq!(c.sp, 0xfd);
    assert_eq!(c.clock, 6);
    c.step(&mut m);
    assert_eq!(c.pc, 0x0203);
    assert_eq!(c.sp, 0xff);
    assert_eq!(c.clock, 12);
}

fn adc(a: u8, value: u8, carry: bool) -> CPU {
    let mut m = FlatMemory::new();
    load(&mut m, 0x0200, &[0x69, value]);
    let mut c = cpu_at(0x0200);
    c.a = a;
    c.flags.set(CARRY, carry);
    c.step(&mut m);
    c
}

#[test]
fn adc_carry_and_overflow_rules() {
    let c = adc(0xff, 0x01, false);
    assert_eq!(c.a, 0x00);
    assert!(has(&c, CARRY) && has(&c, ZERO) && !has(&c, OVERFLOW));
    let c = adc(0x80, 0x80, true);
    assert_eq!(c.a, 0x01);
    assert!(has(&c, CARRY) && has(&c, OVERFLOW) && !has(&c, NEGATIVE));
    let c = adc(0x10, 0x20, true);
    assert_eq!(c.a, 0x31);
    assert!(!has(&c, CARRY) && !has(&c, OVERFLOW));
}

#[test]
fn adc_ignores_decimal_mode() {
    let mut m = FlatMemory::new();
    load(&mut m, 0x0200, &[0x69, 0x09]);
    let mut c = cpu_at(0x0200);
    c.a = 0x09;
    c.flags.set(DECIMAL_MODE, true);
    c.step(&mut m);
    assert_eq!(c.a, 0x12);
}

fn sbc(a: u8, value: u8, carry: bool) -> CPU {
    let mut m = FlatMemory::new();
    load(&mut m, 0x0200, &[0xe9, value]);
    let mut c = cpu_at(0x0200);
    c.a = a;
    c.flags.set(CARRY, carry);
    c.step(&mut m);
    c
}

#[test]
fn sbc_borrow_rules() {
    let c = sbc(0x50, 0xf0, true);
    assert_eq!(c.a, 0x60);
    assert!(!has(&c, CARRY) && !has(&c, OVERFLOW));
    let c = sbc(0x50, 0x10, false);
    assert_eq!(c.a, 0x3f);
    assert!(has(&c, CARRY));
    let c = sbc(0x80, 0x01, true);
    assert_eq!(c.a, 0x7f);
    assert!(has(&c, CARRY) && has(&c, OVERFLOW));
    let c = sbc(0x00, 0x00, false);
    assert_eq!(c.a, 0xff);
    assert!(!has(&c, CARRY) && has(&c, NEGATIVE));
}

#[test]
fn cmp_carry_is_unsigned_greater_or_equal() {
    let mut m = FlatMemory::new();
    load(&mut m, 0x0200, &[0xc9, 0x10, 0xc9, 0x90, 0xc9, 0x50]);
    let mut c = cpu_at(0x0200);
    c.a = 0x50;
    c.step(&mut m);
    assert!(has(&c, CARRY) && !has(&c, ZERO) && !has(&c, NEGATIVE));
    c.step(&mut m);
    assert!(!has(&c, CARRY) && has(&c, NEGATIVE));
    c.step(&mut m);
    assert!(has(&c, CARRY) && has(&c, ZERO));
    assert_eq!(c.a, 0x50);
}

#[test]
fn bit_copies_bits_six_and_seven() {
    let mut m = FlatMemory::new();
    load(&mut m, 0x0200, &[0x24, 0x40]);
    m.write8(0x0040, 0xc0);
    let mut c = cpu_at(0x0200);
    c.a = 0x3f;
    c.step(&mut m);
    assert!(has(&c, NEGATIVE) && has(&c, OVERFLOW) && has(&c, ZERO));
    assert_eq!(c.a, 0x3f);
    assert_eq!(c.clock, 3);
}

#[test]
fn shifts_and_rotates_on_memory_and_accumulator() {
    let mut m = FlatMemory::new();
    load(&mut m, 0x0200, &[0x0e, 0x00, 0x05, 0x6a, 0x26, 0x10]);
    m.write8(0x0500, 0x81);
    m.write8(0x0010, 0x80);
    let mut c = cpu_at(0x0200);
    c.a = 0x01;
    c.step(&mut m);
    assert_eq!(m.peek(0x0500), 0x02);
    assert!(has(&c, CARRY));
    assert_eq!(c.clock, 6);
    c.step(&mut m);
    assert_eq!(c.a, 0x80);
    assert!(has(&c, CARRY) && has(&c, NEGATIVE));
    c.step(&mut m);
    assert_eq!(m.peek(0x0010), 0x01);
    assert!(has(&c, CARRY));
    assert_eq!(c.clock, 6 + 2 + 5);
}

#[test]
fn zero_page_index_wraps_in_page_zero() {
    let mut m = FlatMemory::new();
    load(&mut m, 0x0200, &[0xb5, 0xf0, 0x95, 0xf8]);
    m.write8(0x0010, 0x5a);
    let mut c = cpu_at(0x0200);
    c.x = 0x20;
    c.step(&mut m);
    assert_eq!(c.a, 0x5a);
    assert_eq!(c.clock, 4);
    c.step(&mut m);
    assert_eq!(m.peek(0x0018), 0x5a);
    assert_eq!(m.peek(0x0118), 0x00);
}

#[test]
fn indexed_indirect_pointer_wraps_in_page_zero() {
    let mut m = FlatMemory::new();
    load(&mut m, 0x0200, &[0xa1, 0xfe]);
    m.write8(0x00ff, 0x34);
    m.write8(0x0000, 0x12);
    m.write8(0x1234, 0xab);
    let mut c = cpu_at(0x0200);
    c.x = 0x01;
    c.step(&mut m);
    assert_eq!(c.a, 0xab);
    assert_eq!(c.clock, 6);
}

#[test]
fn store_indexed_costs_full_cycles() {
    let mut m = FlatMemory::new();
    load(&mut m, 0x0200, &[0x9d, 0xff, 0x10]);
    let mut c = cpu_at(0x0200);
    c.a = 0x42;
    c.x = 0x01;
    c.step(&mut m);
    assert_eq!(m.peek(0x1100), 0x42);
    assert_eq!(c.clock, 5);
}

#[test]
fn read_modify_write_indexed_has_no_penalty() {
    let mut m = FlatMemory::new();
    load(&mut m, 0x0200, &[0xfe, 0xff, 0x10]);
    m.write8(0x1100, 0xff);
    let mut c = cpu_at(0x0200);
    c.x = 0x01;
    c.step(&mut m);
    assert_eq!(m.peek(0x1100), 0x00);
    assert!(has(&c, ZERO));
    assert_eq!(c.clock, 7);
}

#[test]
fn unofficial_lax_sax_dcp_isc() {
    let mut m = FlatMemory::new();
    load(&mut m, 0x0200, &[0xa7, 0x10, 0x87, 0x11, 0xc7, 0x12, 0xe7, 0x13]);
    m.write8(0x0010, 0xf3);
    m.write8(0x0012, 0xf4);
    m.write8(0x0013, 0x01);
    let mut c = cpu_at(0x0200);
    c.step(&mut m);
    assert_eq!((c.a, c.x), (0xf3, 0xf3));
    c.x = 0x0f;
    c.step(&mut m);
    assert_eq!(m.peek(0x0011), 0x03);
    c.step(&mut m);
    assert_eq!(m.peek(0x0012), 0xf3);
    assert!(has(&c, ZERO) && has(&c, CARRY));
    c.step(&mut m);
    assert_eq!(m.peek(0x0013), 0x02);
    assert_eq!(c.a, 0xf1);
    assert!(has(&c, CARRY));
}

#[test]
fn unofficial_slo_rla_sre_rra() {
    let mut m = FlatMemory::new();
    load(&mut m, 0x0200, &[0x07, 0x10, 0x27, 0x11, 0x47, 0x12, 0x67, 0x13]);
    m.write8(0x0010, 0x81);
    m.write8(0x0011, 0x40);
    m.write8(0x0012, 0x03);
    m.write8(0x0013, 0x02);
    let mut c = cpu_at(0x0200);
    c.a = 0x10;
    c.step(&mut m);
    assert_eq!(m.peek(0x0010), 0x02);
    assert_eq!(c.a, 0x12);
    assert!(has(&c, CARRY));
    c.step(&mut m);
    assert_eq!(m.peek(0x0011), 0x81);
    assert_eq!(c.a, 0x00);
    assert!(!has(&c, CARRY) && has(&c, ZERO));
    c.step(&mut m);
    assert_eq!(m.peek(0x0012), 0x01);
    assert_eq!(c.a, 0x01);
    assert!(has(&c, CARRY));
    c.step(&mut m);
    assert_eq!(m.peek(0x0013), 0x81);
    assert_eq!(c.a, 0x82);
    assert!(!has(&c, CARRY));
}

#[test]
fn unofficial_immediates() {
    let mut m = FlatMemory::new();
    load(&mut m, 0x0200, &[0x0b, 0x80, 0x4b, 0x03, 0x6b, 0xff, 0xcb, 0x05, 0x8b, 0xff]);
    let mut c = cpu_at(0x0200);
    c.a = 0xff;
    c.step(&mut m);
    assert_eq!(c.a, 0x80);
    assert!(has(&c, CARRY) && has(&c, NEGATIVE));
    c.a = 0x03;
    c.step(&mut m);
    assert_eq!(c.a, 0x01);
    assert!(has(&c, CARRY));
    c.a = 0xc0;
    c.step(&mut m);
    assert_eq!(c.a, 0xe0);
    assert!(has(&c, CARRY) && !has(&c, OVERFLOW));
    c.a = 0x0f;
    c.x = 0x07;
    c.step(&mut m);
    assert_eq!(c.x, 0x02);
    assert!(has(&c, CARRY));
    c.a = 0x00;
    c.x = 0x3c;
    c.step(&mut m);
    assert_eq!(c.a, 0x2c);
}

#[test]
fn unstable_stores_and_their_page_cross() {
    let mut m = FlatMemory::new();
    load(&mut m, 0x0200, &[0x9c, 0x00, 0x12, 0x9e, 0xff, 0x12]);
    let mut c = cpu_at(0x0200);
    c.y = 0xff;
    c.x = 0x01;
    c.step(&mut m);
    assert_eq!(m.peek(0x1201), 0x13);
    c.x = 0xff;
    c.y = 0x02;
    c.step(&mut m);
    assert_eq!(m.peek(0x1301), 0x13);
    assert_eq!(c.clock, 10);
}

#[test]
fn las_and_tas_touch_the_stack_pointer() {
    let mut m = FlatMemory::new();
    load(&mut m, 0x0200, &[0xbb, 0x00, 0x30, 0x9b, 0x00, 0x31]);
    m.write8(0x3000, 0xf0);
    let mut c = cpu_at(0x0200);
    c.sp = 0x3c;
    c.step(&mut m);
    assert_eq!((c.a, c.x, c.sp), (0x30, 0x30, 0x30));
    c.a = 0x0f;
    c.x = 0xfc;
    c.step(&mut m);
    assert_eq!(c.sp, 0x0c);
    assert_eq!(m.peek(0x3100), 0x0c & 0x32);
}

#[test]
fn transfers_and_flag_instructions() {
    let mut m = FlatMemory::new();
    load(&mut m, 0x0200, &[0x38, 0x78, 0xf8, 0xaa, 0x9a, 0xba, 0xca, 0x88, 0x18, 0x58, 0xd8, 0xb8]);
    let mut c = cpu_at(0x0200);
    c.a = 0x80;
    c.flags.set(OVERFLOW, true);
    for _ in 0..3 {
        c.step(&mut m);
    }
    assert!(has(&c, CARRY) && has(&c, INTERRUPT_DISABLE) && has(&c, DECIMAL_MODE));
    c.step(&mut m);
    assert_eq!(c.x, 0x80);
    c.step(&mut m);
    assert_eq!(c.sp, 0x80);
    c.step(&mut m);
    c.step(&mut m);
    assert_eq!(c.x, 0x7f);
    c.step(&mut m);
    assert_eq!(c.y, 0xff);
    for _ in 0..4 {
        c.step(&mut m);
    }
    assert!(!has(&c, CARRY) && !has(&c, INTERRUPT_DISABLE) && !has(&c, DECIMAL_MODE));
    assert!(!has(&c, OVERFLOW));
    assert_eq!(c.clock, 24);
}

#[test]
fn flat_memory_read16_and_write16() {
    let mut m = FlatMemory::new();
    m.write16(0xffff, 0xbeef);
    assert_eq!(m.peek(0xffff), 0xef);
    assert_eq!(m.peek(0x0000), 0xbe);
    assert_eq!(m.read16(0xffff), 0xbeef);
    assert_eq!(m.read8(0x0000), 0xbe);
}

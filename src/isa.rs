use vstd::prelude::*;

use crate::cpu::CPU;
use crate::endians::join;
use crate::flags::{
    Flags, BREAK_COMMAND, CARRY, DECIMAL_MODE, INTERRUPT_DISABLE, NEGATIVE, OVERFLOW, UNUSED,
    ZERO,
};
use crate::memory::{next_address, BusOp};

verus! {

/// How an instruction finds its operand.
pub enum Mode {
    Implied,
    Immediate,
    ZeroPage,
    ZeroPageX,
    ZeroPageY,
    Absolute,
    AbsoluteX,
    AbsoluteY,
    IndirectX,
    IndirectY,
    Relative,
    Indirect,
}

/// The operations of the NES 6502, official and unofficial.
pub enum Op {
    Adc, Ahx, Alr, Anc, And, Arr, Asl, Axs, Bcc, Bcs, Beq, Bit, Bmi, Bne, Bpl, Brk, Bvc, Bvs,
    Clc, Cld, Cli, Clv, Cmp, Cpx, Cpy, Dcp, Dec, Dex, Dey, Eor, Inc, Inx, Iny, Isc, Jmp, Jsr,
    Kil, Las, Lax, Lda, Ldx, Ldy, Lsr, Lxa, Nop, Ora, Pha, Php, Pla, Plp, Rla, Rol, Ror, Rra,
    Rti, Rts, Sax, Sbc, Sec, Sed, Sei, Shx, Shy, Slo, Sre, Sta, Stx, Sty, Tas, Tax, Tay, Tsx,
    Txa, Txs, Tya, Xaa,
}

/// One entry of the opcode table: the operation, its addressing mode and its base cycle count.
pub struct Instr {
    pub op: Op,
    pub mode: Mode,
    pub cycles: nat,
}

pub open spec fn ins(op: Op, mode: Mode, cycles: nat) -> Instr {
    Instr { op, mode, cycles }
}

pub open spec fn wrap8(x: int) -> u8 {
    (x % 256) as u8
}

pub open spec fn wrap16(x: int) -> u16 {
    (x % 0x10000) as u16
}

/// The address of the stack slot that `sp` points at.
pub open spec fn stack_address(sp: u8) -> u16 {
    (0x0100 + sp) as u16
}

/// The address that follows `address` within its own page.
pub open spec fn same_page_next(address: u16) -> u16 {
    (address - address % 256 + (address % 256 + 1) % 256) as u16
}

/// Where a branch at `next` (the address after its operand) goes for a signed `offset`.
pub open spec fn branch_target(next: u16, offset: u8) -> u16 {
    if offset < 128 {
        wrap16(next + offset)
    } else {
        wrap16(next + offset + 0xff00)
    }
}

/// `high(base) + 1`, the byte that the unstable stores AND into what they write.
pub open spec fn high_plus_one(base: u16) -> u8 {
    wrap8(base / 256 + 1)
}

// ---- register updates ----

pub open spec fn advance(s: CPU, k: int) -> CPU {
    CPU { pc: wrap16(s.pc + k), ..s }
}

pub open spec fn tick(s: CPU, c: int) -> CPU {
    CPU { clock: (s.clock + c) as u64, ..s }
}

pub open spec fn carry_in(s: CPU) -> int {
    if s.flags.has(CARRY) {
        1
    } else {
        0
    }
}

pub open spec fn load_a(s: CPU, r: u8) -> CPU {
    CPU { a: r, flags: s.flags.with_nz(r), ..s }
}

/// `A + m + carry` with the 6502's flag rules; decimal mode plays no part.
pub open spec fn adc_result(s: CPU, m: u8, carry: int) -> CPU {
    let sum = s.a + m + carry;
    let r = wrap8(sum);
    CPU {
        a: r,
        flags: s.flags.with_nz(r).with(CARRY, sum >= 256).with(
            OVERFLOW,
            (s.a >= 128) == (m >= 128) && (s.a >= 128) != (r >= 128),
        ),
        ..s
    }
}

/// Subtraction is addition of the complement, with the carry as the inverted borrow.
pub open spec fn sbc_result(s: CPU, m: u8) -> CPU {
    adc_result(s, (255 - m) as u8, carry_in(s))
}

pub open spec fn compare_result(s: CPU, reg: u8, m: u8) -> CPU {
    CPU { flags: s.flags.with_nz(wrap8(reg - m)).with(CARRY, reg >= m), ..s }
}

/// The flags that PLP and RTI restore from a pulled byte.
pub open spec fn pulled_flags(v: u8) -> Flags {
    Flags { bits: v }.with(BREAK_COMMAND, false).with(UNUSED, true)
}

/// The byte that PHP and BRK push for the flags `f`.
pub open spec fn pushed_flags(f: Flags) -> u8 {
    f.with(BREAK_COMMAND, true).with(UNUSED, true).bits
}

/// The effect of an operation that reads one operand byte `v`.
pub open spec fn read_result(op: Op, s: CPU, v: u8) -> CPU {
    match op {
        Op::Ora => load_a(s, s.a | v),
        Op::And => load_a(s, s.a & v),
        Op::Eor => load_a(s, s.a ^ v),
        Op::Adc => adc_result(s, v, carry_in(s)),
        Op::Sbc => sbc_result(s, v),
        Op::Cmp => compare_result(s, s.a, v),
        Op::Cpx => compare_result(s, s.x, v),
        Op::Cpy => compare_result(s, s.y, v),
        Op::Bit => CPU {
            flags: s.flags.with(OVERFLOW, v & 0x40 != 0).with(NEGATIVE, v >= 128).with(
                ZERO,
                v & s.a == 0,
            ),
            ..s
        },
        Op::Lda => load_a(s, v),
        Op::Ldx => CPU { x: v, flags: s.flags.with_nz(v), ..s },
        Op::Ldy => CPU { y: v, flags: s.flags.with_nz(v), ..s },
        Op::Lax => CPU { a: v, x: v, flags: s.flags.with_nz(v), ..s },
        Op::Lxa => {
            let r = (s.a | 0xee) & v;
            CPU { a: r, x: r, flags: s.flags.with_nz(r), ..s }
        },
        Op::Las => {
            let r = v & s.sp;
            CPU { a: r, x: r, sp: r, flags: s.flags.with_nz(r), ..s }
        },
        Op::Anc => {
            let r = s.a & v;
            CPU { a: r, flags: s.flags.with_nz(r).with(CARRY, r >= 128), ..s }
        },
        Op::Alr => {
            let t = s.a & v;
            let r = t / 2;
            CPU { a: r, flags: s.flags.with_nz(r).with(CARRY, t % 2 == 1), ..s }
        },
        Op::Arr => {
            let t = s.a & v;
            let r = (t / 2 + 128 * carry_in(s)) as u8;
            CPU {
                a: r,
                flags: s.flags.with(OVERFLOW, (t ^ ((t / 2) as u8)) & 0x40 != 0).with_nz(r).with(
                    CARRY,
                    t >= 128,
                ),
                ..s
            }
        },
        Op::Axs => {
            let l = s.a & s.x;
            let r = wrap8(l - v);
            CPU { x: r, flags: s.flags.with_nz(r).with(CARRY, l >= v), ..s }
        },
        Op::Xaa => load_a(s, (s.a | 0xee) & s.x & v),
        _ => s,
    }
}

/// The byte that a read-modify-write operation writes back in place of `v`.
pub open spec fn modified(op: Op, s: CPU, v: u8) -> u8 {
    match op {
        Op::Asl | Op::Slo => wrap8(2 * v),
        Op::Lsr | Op::Sre => v / 2,
        Op::Rol | Op::Rla => wrap8(2 * v + carry_in(s)),
        Op::Ror | Op::Rra => (v / 2 + 128 * carry_in(s)) as u8,
        Op::Inc | Op::Isc => wrap8(v + 1),
        Op::Dec | Op::Dcp => wrap8(v - 1),
        _ => v,
    }
}

/// The register effect of a read-modify-write operation on `v`.
pub open spec fn modify_result(op: Op, s: CPU, v: u8) -> CPU {
    let w = modified(op, s, v);
    match op {
        Op::Asl | Op::Rol => CPU { flags: s.flags.with_nz(w).with(CARRY, v >= 128), ..s },
        Op::Lsr | Op::Ror => CPU { flags: s.flags.with_nz(w).with(CARRY, v % 2 == 1), ..s },
        Op::Inc | Op::Dec => CPU { flags: s.flags.with_nz(w), ..s },
        Op::Slo => CPU { a: s.a | w, flags: s.flags.with_nz(s.a | w).with(CARRY, v >= 128), ..s },
        Op::Rla => CPU { a: s.a & w, flags: s.flags.with_nz(s.a & w).with(CARRY, v >= 128), ..s },
        Op::Sre => CPU {
            a: s.a ^ w,
            flags: s.flags.with_nz(s.a ^ w).with(CARRY, v % 2 == 1),
            ..s
        },
        Op::Rra => adc_result(s, w, (v % 2) as int),
        Op::Dcp => compare_result(s, s.a, w),
        Op::Isc => sbc_result(s, w),
        _ => s,
    }
}

/// The byte that a store operation writes.
pub open spec fn store_value(op: Op, s: CPU, base: u16) -> u8 {
    match op {
        Op::Sta => s.a,
        Op::Stx => s.x,
        Op::Sty => s.y,
        Op::Sax => s.a & s.x,
        Op::Shy => s.y & high_plus_one(base),
        Op::Shx => s.x & high_plus_one(base),
        _ => s.a & s.x & high_plus_one(base),
    }
}

pub open spec fn is_unstable_store(op: Op) -> bool {
    op == Op::Shy || op == Op::Shx || op == Op::Ahx || op == Op::Tas
}

/// Where a store writes: the effective address, except that on a page cross the unstable
/// stores replace its high byte by the stored value.
pub open spec fn store_address(op: Op, s: CPU, base: u16, address: u16) -> u16 {
    if is_unstable_store(op) && base / 256 != address / 256 {
        join((address % 256) as u8, store_value(op, s, base))
    } else {
        address
    }
}

pub open spec fn store_result(op: Op, s: CPU) -> CPU {
    if op == Op::Tas {
        CPU { sp: s.a & s.x, ..s }
    } else {
        s
    }
}

/// The effect of an operation that touches no memory.
pub open spec fn implied_result(op: Op, s: CPU) -> CPU {
    match op {
        Op::Clc => CPU { flags: s.flags.with(CARRY, false), ..s },
        Op::Sec => CPU { flags: s.flags.with(CARRY, true), ..s },
        Op::Cli => CPU { flags: s.flags.with(INTERRUPT_DISABLE, false), ..s },
        Op::Sei => CPU { flags: s.flags.with(INTERRUPT_DISABLE, true), ..s },
        Op::Cld => CPU { flags: s.flags.with(DECIMAL_MODE, false), ..s },
        Op::Sed => CPU { flags: s.flags.with(DECIMAL_MODE, true), ..s },
        Op::Clv => CPU { flags: s.flags.with(OVERFLOW, false), ..s },
        Op::Tax => CPU { x: s.a, flags: s.flags.with_nz(s.a), ..s },
        Op::Tay => CPU { y: s.a, flags: s.flags.with_nz(s.a), ..s },
        Op::Txa => CPU { a: s.x, flags: s.flags.with_nz(s.x), ..s },
        Op::Tya => CPU { a: s.y, flags: s.flags.with_nz(s.y), ..s },
        Op::Tsx => CPU { x: s.sp, flags: s.flags.with_nz(s.sp), ..s },
        Op::Txs => CPU { sp: s.x, ..s },
        Op::Inx => CPU { x: wrap8(s.x + 1), flags: s.flags.with_nz(wrap8(s.x + 1)), ..s },
        Op::Iny => CPU { y: wrap8(s.y + 1), flags: s.flags.with_nz(wrap8(s.y + 1)), ..s },
        Op::Dex => CPU { x: wrap8(s.x - 1), flags: s.flags.with_nz(wrap8(s.x - 1)), ..s },
        Op::Dey => CPU { y: wrap8(s.y - 1), flags: s.flags.with_nz(wrap8(s.y - 1)), ..s },
        Op::Asl | Op::Lsr | Op::Rol | Op::Ror => CPU {
            a: modified(op, s, s.a),
            ..modify_result(op, s, s.a)
        },
        Op::Kil => CPU { pc: wrap16(s.pc + 0xffff), ..s },
        _ => s,
    }
}

pub open spec fn branch_taken(op: Op, f: Flags) -> bool {
    match op {
        Op::Bpl => !f.has(NEGATIVE),
        Op::Bmi => f.has(NEGATIVE),
        Op::Bvc => !f.has(OVERFLOW),
        Op::Bvs => f.has(OVERFLOW),
        Op::Bcc => !f.has(CARRY),
        Op::Bcs => f.has(CARRY),
        Op::Bne => !f.has(ZERO),
        _ => f.has(ZERO),
    }
}

pub open spec fn is_branch(op: Op) -> bool {
    op == Op::Bpl || op == Op::Bmi || op == Op::Bvc || op == Op::Bvs || op == Op::Bcc || op
        == Op::Bcs || op == Op::Bne || op == Op::Beq
}

pub open spec fn is_read_op(op: Op) -> bool {
    op == Op::Adc || op == Op::And || op == Op::Bit || op == Op::Cmp || op == Op::Cpx || op
        == Op::Cpy || op == Op::Eor || op == Op::Lda || op == Op::Ldx || op == Op::Ldy || op
        == Op::Lax || op == Op::Lxa || op == Op::Las || op == Op::Ora || op == Op::Sbc || op
        == Op::Anc || op == Op::Alr || op == Op::Arr || op == Op::Axs || op == Op::Xaa
}

pub open spec fn is_modify_op(op: Op) -> bool {
    op == Op::Asl || op == Op::Lsr || op == Op::Rol || op == Op::Ror || op == Op::Inc || op
        == Op::Dec || op == Op::Slo || op == Op::Rla || op == Op::Sre || op == Op::Rra || op
        == Op::Dcp || op == Op::Isc
}

pub open spec fn is_store_op(op: Op) -> bool {
    op == Op::Sta || op == Op::Stx || op == Op::Sty || op == Op::Sax || is_unstable_store(op)
}

// ---- the bus accesses of one instruction ----

/// `after` is `before` followed by exactly `k` more accesses.
pub open spec fn appended(before: Seq<BusOp>, after: Seq<BusOp>, k: int) -> bool {
    &&& after.len() == before.len() + k
    &&& forall|i: int| 0 <= i < before.len() ==> #[trigger] after[i] == before[i]
}

pub open spec fn read_at(t: Seq<BusOp>, i: int, address: u16) -> bool {
    t[i] == (BusOp::Read { address, value: t[i].value() })
}

pub open spec fn written_at(t: Seq<BusOp>, i: int, address: u16, value: u8) -> bool {
    t[i] == (BusOp::Write { address, value })
}

pub open spec fn zero_page(x: int) -> u16 {
    (x % 256) as u16
}

/// Operand bytes that follow the opcode.
pub open spec fn operand_bytes(mode: Mode) -> int {
    match mode {
        Mode::Implied => 0,
        Mode::Absolute | Mode::AbsoluteX | Mode::AbsoluteY | Mode::Indirect => 2,
        _ => 1,
    }
}

/// The position, among the accesses of an instruction, of the access to its operand.
pub open spec fn access_index(mode: Mode) -> int {
    match mode {
        Mode::ZeroPage | Mode::ZeroPageX | Mode::ZeroPageY => 1,
        Mode::Absolute | Mode::AbsoluteX | Mode::AbsoluteY => 2,
        Mode::IndirectX | Mode::IndirectY => 3,
        _ => 0,
    }
}

/// The address before indexing; `t[n]` is the first access after the opcode fetch.
pub open spec fn base_address(s: CPU, mode: Mode, t: Seq<BusOp>, n: int) -> u16 {
    match mode {
        Mode::ZeroPage => t[n].value() as u16,
        Mode::ZeroPageX => zero_page(t[n].value() + s.x),
        Mode::ZeroPageY => zero_page(t[n].value() + s.y),
        Mode::Absolute | Mode::AbsoluteX | Mode::AbsoluteY => join(t[n].value(), t[n + 1].value()),
        Mode::IndirectX | Mode::IndirectY => join(t[n + 1].value(), t[n + 2].value()),
        _ => s.pc,
    }
}

pub open spec fn effective_address(s: CPU, mode: Mode, t: Seq<BusOp>, n: int) -> u16 {
    let b = base_address(s, mode, t, n);
    match mode {
        Mode::AbsoluteX => wrap16(b + s.x),
        Mode::AbsoluteY | Mode::IndirectY => wrap16(b + s.y),
        _ => b,
    }
}

pub open spec fn page_crossed(s: CPU, mode: Mode, t: Seq<BusOp>, n: int) -> bool {
    base_address(s, mode, t, n) / 256 != effective_address(s, mode, t, n) / 256
}

pub open spec fn penalty(s: CPU, mode: Mode, t: Seq<BusOp>, n: int) -> int {
    if page_crossed(s, mode, t, n) {
        1
    } else {
        0
    }
}

/// The reads that find the effective address.
pub open spec fn address_reads(s: CPU, mode: Mode, t: Seq<BusOp>, n: int) -> bool {
    match mode {
        Mode::ZeroPage | Mode::ZeroPageX | Mode::ZeroPageY => read_at(t, n, s.pc),
        Mode::Absolute | Mode::AbsoluteX | Mode::AbsoluteY => {
            &&& read_at(t, n, s.pc)
            &&& read_at(t, n + 1, next_address(s.pc))
        },
        Mode::IndirectX => {
            &&& read_at(t, n, s.pc)
            &&& read_at(t, n + 1, zero_page(t[n].value() + s.x))
            &&& read_at(t, n + 2, zero_page(t[n].value() + s.x + 1))
        },
        Mode::IndirectY => {
            &&& read_at(t, n, s.pc)
            &&& read_at(t, n + 1, t[n].value() as u16)
            &&& read_at(t, n + 2, zero_page(t[n].value() + 1))
        },
        _ => true,
    }
}

/// The operand was fetched: the address reads, the read of the effective address, and then
/// `extra` accesses more.
pub open spec fn accessed(s: CPU, mode: Mode, before: Seq<BusOp>, after: Seq<BusOp>, extra: int) -> bool {
    let n = before.len() as int;
    &&& appended(before, after, access_index(mode) + 1 + extra)
    &&& address_reads(s, mode, after, n)
    &&& read_at(after, n + access_index(mode), effective_address(s, mode, after, n))
}

/// The byte read at the effective address.
pub open spec fn operand(mode: Mode, before: Seq<BusOp>, after: Seq<BusOp>) -> u8 {
    after[before.len() + access_index(mode)].value()
}

/// What an addressing helper leaves behind: the operand fetched, `address` and `value` as the
/// effective address and the byte there, and the program counter past the operand bytes.
pub open spec fn fetched(
    s: CPU,
    mode: Mode,
    before: Seq<BusOp>,
    after: Seq<BusOp>,
    s2: CPU,
    address: u16,
    value: u8,
) -> bool {
    &&& accessed(s, mode, before, after, 0)
    &&& address == effective_address(s, mode, after, before.len() as int)
    &&& value == operand(mode, before, after)
    &&& s2 == advance(s, operand_bytes(mode))
}

/// One instruction `i` run from `s`, whose opcode was already fetched (`s.pc` is the byte after
/// it); the accesses it made are those of `after` past `before`, and it left `s2`.
#[verifier::opaque]
pub open spec fn executes(s: CPU, i: Instr, before: Seq<BusOp>, after: Seq<BusOp>, s2: CPU) -> bool {
    let n = before.len() as int;
    let c = i.cycles as int;
    let k = access_index(i.mode);
    let s1 = advance(s, operand_bytes(i.mode));
    let v = operand(i.mode, before, after);
    let ea = effective_address(s, i.mode, after, n);
    let base = base_address(s, i.mode, after, n);
    if is_read_op(i.op) || (i.op == Op::Nop && i.mode == Mode::AbsoluteX) {
        &&& accessed(s, i.mode, before, after, 0)
        &&& s2 == tick(read_result(i.op, s1, v), c + penalty(s, i.mode, after, n))
    } else if is_modify_op(i.op) && i.mode != Mode::Implied {
        &&& accessed(s, i.mode, before, after, 1)
        &&& written_at(after, n + k + 1, ea, modified(i.op, s1, v))
        &&& s2 == tick(modify_result(i.op, s1, v), c)
    } else if is_store_op(i.op) {
        &&& accessed(s, i.mode, before, after, 1)
        &&& written_at(after, n + k + 1, store_address(i.op, s1, base, ea), store_value(i.op, s1, base))
        &&& s2 == tick(store_result(i.op, s1), c)
    } else if is_branch(i.op) {
        if branch_taken(i.op, s.flags) {
            let next = next_address(s.pc);
            let target = branch_target(next, after[n].value());
            &&& appended(before, after, 1)
            &&& read_at(after, n, s.pc)
            &&& s2 == tick(CPU { pc: target, ..s }, c + 1 + if next / 256 != target / 256 { 1int } else { 0 })
        } else {
            &&& appended(before, after, 0)
            &&& s2 == tick(s1, c)
        }
    } else {
        match i.op {
            Op::Jmp => if i.mode == Mode::Absolute {
                &&& appended(before, after, 2)
                &&& read_at(after, n, s.pc)
                &&& read_at(after, n + 1, next_address(s.pc))
                &&& s2 == tick(CPU { pc: join(after[n].value(), after[n + 1].value()), ..s }, c)
            } else {
                let ptr = join(after[n].value(), after[n + 1].value());
                &&& appended(before, after, 4)
                &&& read_at(after, n, s.pc)
                &&& read_at(after, n + 1, next_address(s.pc))
                &&& read_at(after, n + 2, ptr)
                &&& read_at(after, n + 3, same_page_next(ptr))
                &&& s2 == tick(CPU { pc: join(after[n + 2].value(), after[n + 3].value()), ..s }, c)
            },
            Op::Jsr => {
                let ret = next_address(s.pc);
                &&& appended(before, after, 4)
                &&& read_at(after, n, s.pc)
                &&& read_at(after, n + 1, next_address(s.pc))
                &&& written_at(after, n + 2, stack_address(s.sp), (ret / 256) as u8)
                &&& written_at(after, n + 3, stack_address(wrap8(s.sp - 1)), (ret % 256) as u8)
                &&& s2 == tick(
                    CPU { pc: join(after[n].value(), after[n + 1].value()), sp: wrap8(s.sp - 2), ..s },
                    c,
                )
            },
            Op::Rts => {
                &&& appended(before, after, 2)
                &&& read_at(after, n, stack_address(wrap8(s.sp + 1)))
                &&& read_at(after, n + 1, stack_address(wrap8(s.sp + 2)))
                &&& s2 == tick(
                    CPU {
                        pc: wrap16(join(after[n].value(), after[n + 1].value()) + 1),
                        sp: wrap8(s.sp + 2),
                        ..s
                    },
                    c,
                )
            },
            Op::Rti => {
                &&& appended(before, after, 3)
                &&& read_at(after, n, stack_address(wrap8(s.sp + 1)))
                &&& read_at(after, n + 1, stack_address(wrap8(s.sp + 2)))
                &&& read_at(after, n + 2, stack_address(wrap8(s.sp + 3)))
                &&& s2 == tick(
                    CPU {
                        flags: pulled_flags(after[n].value()),
                        pc: join(after[n + 1].value(), after[n + 2].value()),
                        sp: wrap8(s.sp + 3),
                        ..s
                    },
                    c,
                )
            },
            Op::Brk => {
                let ret = wrap16(s.pc + 1);
                &&& appended(before, after, 5)
                &&& written_at(after, n, stack_address(s.sp), (ret / 256) as u8)
                &&& written_at(after, n + 1, stack_address(wrap8(s.sp - 1)), (ret % 256) as u8)
                &&& written_at(after, n + 2, stack_address(wrap8(s.sp - 2)), pushed_flags(s.flags))
                &&& read_at(after, n + 3, 0xfffe)
                &&& read_at(after, n + 4, 0xffff)
                &&& s2 == tick(
                    CPU {
                        pc: join(after[n + 3].value(), after[n + 4].value()),
                        sp: wrap8(s.sp - 3),
                        flags: s.flags.with(INTERRUPT_DISABLE, true),
                        ..s
                    },
                    c,
                )
            },
            Op::Php => {
                &&& appended(before, after, 1)
                &&& written_at(after, n, stack_address(s.sp), pushed_flags(s.flags))
                &&& s2 == tick(CPU { sp: wrap8(s.sp - 1), ..s1 }, c)
            },
            Op::Pha => {
                &&& appended(before, after, 1)
                &&& written_at(after, n, stack_address(s.sp), s.a)
                &&& s2 == tick(CPU { sp: wrap8(s.sp - 1), ..s1 }, c)
            },
            Op::Pla => {
                let v = after[n].value();
                &&& appended(before, after, 1)
                &&& read_at(after, n, stack_address(wrap8(s.sp + 1)))
                &&& s2 == tick(CPU { sp: wrap8(s.sp + 1), a: v, flags: s.flags.with_nz(v), ..s1 }, c)
            },
            Op::Plp => {
                &&& appended(before, after, 1)
                &&& read_at(after, n, stack_address(wrap8(s.sp + 1)))
                &&& s2 == tick(CPU { sp: wrap8(s.sp + 1), flags: pulled_flags(after[n].value()), ..s1 }, c)
            },
            _ => {
                &&& appended(before, after, 0)
                &&& s2 == tick(implied_result(i.op, s1), c)
            },
        }
    }
}

/// One step from `s`: the opcode read at the program counter, then its instruction.
pub open spec fn steps(s: CPU, before: Seq<BusOp>, after: Seq<BusOp>, s2: CPU) -> bool {
    let n = before.len() as int;
    &&& after.len() > n
    &&& read_at(after, n, s.pc)
    &&& executes(advance(s, 1), decode(after[n].value()), before.push(after[n]), after, s2)
}

/// The operations that make no bus access after the opcode fetch.
pub open spec fn makes_no_access(i: Instr) -> bool {
    match i.op {
        Op::Clc | Op::Sec | Op::Cli | Op::Sei | Op::Cld | Op::Sed | Op::Clv | Op::Tax | Op::Tay
        | Op::Txa | Op::Tya | Op::Tsx | Op::Txs | Op::Inx | Op::Iny | Op::Dex | Op::Dey
        | Op::Kil => true,
        Op::Asl | Op::Lsr | Op::Rol | Op::Ror => i.mode == Mode::Implied,
        Op::Nop => i.mode != Mode::AbsoluteX,
        _ => false,
    }
}

/// An instruction that makes no bus access runs as `implied_result` says.
pub proof fn lemma_no_access(s: CPU, i: Instr, ops: Seq<BusOp>, s2: CPU)
    requires
        makes_no_access(i),
        s2 == tick(implied_result(i.op, advance(s, operand_bytes(i.mode))), i.cycles as int),
    ensures
        executes(s, i, ops, ops, s2),
{
    reveal(executes);
}

/// `after` is `before` followed by some more accesses.
pub open spec fn extends(before: Seq<BusOp>, after: Seq<BusOp>) -> bool {
    &&& before.len() <= after.len()
    &&& forall|i: int| 0 <= i < before.len() ==> #[trigger] after[i] == before[i]
}

/// An instruction only appends to the log of accesses.
pub proof fn lemma_executes_extends(s: CPU, i: Instr, before: Seq<BusOp>, after: Seq<BusOp>, s2: CPU)
    requires
        executes(s, i, before, after, s2),
    ensures
        extends(before, after),
{
    reveal(executes);
}

/// The opcode table: each byte's operation, addressing mode and base cycle count.
pub open spec fn decode(opcode: u8) -> Instr {
    match opcode {
        0x00 => ins(Op::Brk, Mode::Implied, 7),
        0x01 => ins(Op::Ora, Mode::IndirectX, 6),
        0x02 => ins(Op::Kil, Mode::Implied, 3),
        0x03 => ins(Op::Slo, Mode::IndirectX, 8),
        0x04 => ins(Op::Nop, Mode::ZeroPage, 3),
        0x05 => ins(Op::Ora, Mode::ZeroPage, 3),
        0x06 => ins(Op::Asl, Mode::ZeroPage, 5),
        0x07 => ins(Op::Slo, Mode::ZeroPage, 5),
        0x08 => ins(Op::Php, Mode::Implied, 3),
        0x09 => ins(Op::Ora, Mode::Immediate, 2),
        0x0a => ins(Op::Asl, Mode::Implied, 2),
        0x0b => ins(Op::Anc, Mode::Immediate, 2),
        0x0c => ins(Op::Nop, Mode::Absolute, 4),
        0x0d => ins(Op::Ora, Mode::Absolute, 4),
        0x0e => ins(Op::Asl, Mode::Absolute, 6),
        0x0f => ins(Op::Slo, Mode::Absolute, 6),
        0x10 => ins(Op::Bpl, Mode::Relative, 2),
        0x11 => ins(Op::Ora, Mode::IndirectY, 5),
        0x12 => ins(Op::Kil, Mode::Implied, 3),
        0x13 => ins(Op::Slo, Mode::IndirectY, 8),
        0x14 => ins(Op::Nop, Mode::ZeroPageX, 4),
        0x15 => ins(Op::Ora, Mode::ZeroPageX, 4),
        0x16 => ins(Op::Asl, Mode::ZeroPageX, 6),
        0x17 => ins(Op::Slo, Mode::ZeroPageX, 6),
        0x18 => ins(Op::Clc, Mode::Implied, 2),
        0x19 => ins(Op::Ora, Mode::AbsoluteY, 4),
        0x1a => ins(Op::Nop, Mode::Implied, 2),
        0x1b => ins(Op::Slo, Mode::AbsoluteY, 7),
        0x1c => ins(Op::Nop, Mode::AbsoluteX, 4),
        0x1d => ins(Op::Ora, Mode::AbsoluteX, 4),
        0x1e => ins(Op::Asl, Mode::AbsoluteX, 7),
        0x1f => ins(Op::Slo, Mode::AbsoluteX, 7),
        0x20 => ins(Op::Jsr, Mode::Absolute, 6),
        0x21 => ins(Op::And, Mode::IndirectX, 6),
        0x22 => ins(Op::Kil, Mode::Implied, 3),
        0x23 => ins(Op::Rla, Mode::IndirectX, 8),
        0x24 => ins(Op::Bit, Mode::ZeroPage, 3),
        0x25 => ins(Op::And, Mode::ZeroPage, 3),
        0x26 => ins(Op::Rol, Mode::ZeroPage, 5),
        0x27 => ins(Op::Rla, Mode::ZeroPage, 5),
        0x28 => ins(Op::Plp, Mode::Implied, 4),
        0x29 => ins(Op::And, Mode::Immediate, 2),
        0x2a => ins(Op::Rol, Mode::Implied, 2),
        0x2b => ins(Op::Anc, Mode::Immediate, 2),
        0x2c => ins(Op::Bit, Mode::Absolute, 4),
        0x2d => ins(Op::And, Mode::Absolute, 4),
        0x2e => ins(Op::Rol, Mode::Absolute, 6),
        0x2f => ins(Op::Rla, Mode::Absolute, 6),
        0x30 => ins(Op::Bmi, Mode::Relative, 2),
        0x31 => ins(Op::And, Mode::IndirectY, 5),
        0x32 => ins(Op::Kil, Mode::Implied, 3),
        0x33 => ins(Op::Rla, Mode::IndirectY, 8),
        0x34 => ins(Op::Nop, Mode::ZeroPageX, 4),
        0x35 => ins(Op::And, Mode::ZeroPageX, 4),
        0x36 => ins(Op::Rol, Mode::ZeroPageX, 6),
        0x37 => ins(Op::Rla, Mode::ZeroPageX, 6),
        0x38 => ins(Op::Sec, Mode::Implied, 2),
        0x39 => ins(Op::And, Mode::AbsoluteY, 4),
        0x3a => ins(Op::Nop, Mode::Implied, 2),
        0x3b => ins(Op::Rla, Mode::AbsoluteY, 7),
        0x3c => ins(Op::Nop, Mode::AbsoluteX, 4),
        0x3d => ins(Op::And, Mode::AbsoluteX, 4),
        0x3e => ins(Op::Rol, Mode::AbsoluteX, 7),
        0x3f => ins(Op::Rla, Mode::AbsoluteX, 7),
        0x40 => ins(Op::Rti, Mode::Implied, 6),
        0x41 => ins(Op::Eor, Mode::IndirectX, 6),
        0x42 => ins(Op::Kil, Mode::Implied, 3),
        0x43 => ins(Op::Sre, Mode::IndirectX, 8),
        0x44 => ins(Op::Nop, Mode::ZeroPage, 3),
        0x45 => ins(Op::Eor, Mode::ZeroPage, 3),
        0x46 => ins(Op::Lsr, Mode::ZeroPage, 5),
        0x47 => ins(Op::Sre, Mode::ZeroPage, 5),
        0x48 => ins(Op::Pha, Mode::Implied, 3),
        0x49 => ins(Op::Eor, Mode::Immediate, 2),
        0x4a => ins(Op::Lsr, Mode::Implied, 2),
        0x4b => ins(Op::Alr, Mode::Immediate, 2),
        0x4c => ins(Op::Jmp, Mode::Absolute, 3),
        0x4d => ins(Op::Eor, Mode::Absolute, 4),
        0x4e => ins(Op::Lsr, Mode::Absolute, 6),
        0x4f => ins(Op::Sre, Mode::Absolute, 6),
        0x50 => ins(Op::Bvc, Mode::Relative, 2),
        0x51 => ins(Op::Eor, Mode::IndirectY, 5),
        0x52 => ins(Op::Kil, Mode::Implied, 3),
        0x53 => ins(Op::Sre, Mode::IndirectY, 8),
        0x54 => ins(Op::Nop, Mode::ZeroPageX, 4),
        0x55 => ins(Op::Eor, Mode::ZeroPageX, 4),
        0x56 => ins(Op::Lsr, Mode::ZeroPageX, 6),
        0x57 => ins(Op::Sre, Mode::ZeroPageX, 6),
        0x58 => ins(Op::Cli, Mode::Implied, 2),
        0x59 => ins(Op::Eor, Mode::AbsoluteY, 4),
        0x5a => ins(Op::Nop, Mode::Implied, 2),
        0x5b => ins(Op::Sre, Mode::AbsoluteY, 7),
        0x5c => ins(Op::Nop, Mode::AbsoluteX, 4),
        0x5d => ins(Op::Eor, Mode::AbsoluteX, 4),
        0x5e => ins(Op::Lsr, Mode::AbsoluteX, 7),
        0x5f => ins(Op::Sre, Mode::AbsoluteX, 7),
        0x60 => ins(Op::Rts, Mode::Implied, 6),
        0x61 => ins(Op::Adc, Mode::IndirectX, 6),
        0x62 => ins(Op::Kil, Mode::Implied, 3),
        0x63 => ins(Op::Rra, Mode::IndirectX, 8),
        0x64 => ins(Op::Nop, Mode::ZeroPage, 3),
        0x65 => ins(Op::Adc, Mode::ZeroPage, 3),
        0x66 => ins(Op::Ror, Mode::ZeroPage, 5),
        0x67 => ins(Op::Rra, Mode::ZeroPage, 5),
        0x68 => ins(Op::Pla, Mode::Implied, 4),
        0x69 => ins(Op::Adc, Mode::Immediate, 2),
        0x6a => ins(Op::Ror, Mode::Implied, 2),
        0x6b => ins(Op::Arr, Mode::Immediate, 2),
        0x6c => ins(Op::Jmp, Mode::Indirect, 5),
        0x6d => ins(Op::Adc, Mode::Absolute, 4),
        0x6e => ins(Op::Ror, Mode::Absolute, 6),
        0x6f => ins(Op::Rra, Mode::Absolute, 6),
        0x70 => ins(Op::Bvs, Mode::Relative, 2),
        0x71 => ins(Op::Adc, Mode::IndirectY, 5),
        0x72 => ins(Op::Kil, Mode::Implied, 3),
        0x73 => ins(Op::Rra, Mode::IndirectY, 8),
        0x74 => ins(Op::Nop, Mode::ZeroPageX, 4),
        0x75 => ins(Op::Adc, Mode::ZeroPageX, 4),
        0x76 => ins(Op::Ror, Mode::ZeroPageX, 6),
        0x77 => ins(Op::Rra, Mode::ZeroPageX, 6),
        0x78 => ins(Op::Sei, Mode::Implied, 2),
        0x79 => ins(Op::Adc, Mode::AbsoluteY, 4),
        0x7a => ins(Op::Nop, Mode::Implied, 2),
        0x7b => ins(Op::Rra, Mode::AbsoluteY, 7),
        0x7c => ins(Op::Nop, Mode::AbsoluteX, 4),
        0x7d => ins(Op::Adc, Mode::AbsoluteX, 4),
        0x7e => ins(Op::Ror, Mode::AbsoluteX, 7),
        0x7f => ins(Op::Rra, Mode::AbsoluteX, 7),
        0x80 => ins(Op::Nop, Mode::Immediate, 2),
        0x81 => ins(Op::Sta, Mode::IndirectX, 6),
        0x82 => ins(Op::Nop, Mode::Immediate, 2),
        0x83 => ins(Op::Sax, Mode::IndirectX, 6),
        0x84 => ins(Op::Sty, Mode::ZeroPage, 3),
        0x85 => ins(Op::Sta, Mode::ZeroPage, 3),
        0x86 => ins(Op::Stx, Mode::ZeroPage, 3),
        0x87 => ins(Op::Sax, Mode::ZeroPage, 3),
        0x88 => ins(Op::Dey, Mode::Implied, 2),
        0x89 => ins(Op::Nop, Mode::Immediate, 2),
        0x8a => ins(Op::Txa, Mode::Implied, 2),
        0x8b => ins(Op::Xaa, Mode::Immediate, 2),
        0x8c => ins(Op::Sty, Mode::Absolute, 4),
        0x8d => ins(Op::Sta, Mode::Absolute, 4),
        0x8e => ins(Op::Stx, Mode::Absolute, 4),
        0x8f => ins(Op::Sax, Mode::Absolute, 4),
        0x90 => ins(Op::Bcc, Mode::Relative, 2),
        0x91 => ins(Op::Sta, Mode::IndirectY, 6),
        0x92 => ins(Op::Kil, Mode::Implied, 3),
        0x93 => ins(Op::Ahx, Mode::IndirectY, 6),
        0x94 => ins(Op::Sty, Mode::ZeroPageX, 4),
        0x95 => ins(Op::Sta, Mode::ZeroPageX, 4),
        0x96 => ins(Op::Stx, Mode::ZeroPageY, 4),
        0x97 => ins(Op::Sax, Mode::ZeroPageY, 4),
        0x98 => ins(Op::Tya, Mode::Implied, 2),
        0x99 => ins(Op::Sta, Mode::AbsoluteY, 5),
        0x9a => ins(Op::Txs, Mode::Implied, 2),
        0x9b => ins(Op::Tas, Mode::AbsoluteY, 5),
        0x9c => ins(Op::Shy, Mode::AbsoluteX, 5),
        0x9d => ins(Op::Sta, Mode::AbsoluteX, 5),
        0x9e => ins(Op::Shx, Mode::AbsoluteY, 5),
        0x9f => ins(Op::Ahx, Mode::AbsoluteY, 5),
        0xa0 => ins(Op::Ldy, Mode::Immediate, 2),
        0xa1 => ins(Op::Lda, Mode::IndirectX, 6),
        0xa2 => ins(Op::Ldx, Mode::Immediate, 2),
        0xa3 => ins(Op::Lax, Mode::IndirectX, 6),
        0xa4 => ins(Op::Ldy, Mode::ZeroPage, 3),
        0xa5 => ins(Op::Lda, Mode::ZeroPage, 3),
        0xa6 => ins(Op::Ldx, Mode::ZeroPage, 3),
        0xa7 => ins(Op::Lax, Mode::ZeroPage, 3),
        0xa8 => ins(Op::Tay, Mode::Implied, 2),
        0xa9 => ins(Op::Lda, Mode::Immediate, 2),
        0xaa => ins(Op::Tax, Mode::Implied, 2),
        0xab => ins(Op::Lxa, Mode::Immediate, 2),
        0xac => ins(Op::Ldy, Mode::Absolute, 4),
        0xad => ins(Op::Lda, Mode::Absolute, 4),
        0xae => ins(Op::Ldx, Mode::Absolute, 4),
        0xaf => ins(Op::Lax, Mode::Absolute, 4),
        0xb0 => ins(Op::Bcs, Mode::Relative, 2),
        0xb1 => ins(Op::Lda, Mode::IndirectY, 5),
        0xb2 => ins(Op::Kil, Mode::Implied, 3),
        0xb3 => ins(Op::Lax, Mode::IndirectY, 5),
        0xb4 => ins(Op::Ldy, Mode::ZeroPageX, 4),
        0xb5 => ins(Op::Lda, Mode::ZeroPageX, 4),
        0xb6 => ins(Op::Ldx, Mode::ZeroPageY, 4),
        0xb7 => ins(Op::Lax, Mode::ZeroPageY, 4),
        0xb8 => ins(Op::Clv, Mode::Implied, 2),
        0xb9 => ins(Op::Lda, Mode::AbsoluteY, 4),
        0xba => ins(Op::Tsx, Mode::Implied, 2),
        0xbb => ins(Op::Las, Mode::AbsoluteY, 4),
        0xbc => ins(Op::Ldy, Mode::AbsoluteX, 4),
        0xbd => ins(Op::Lda, Mode::AbsoluteX, 4),
        0xbe => ins(Op::Ldx, Mode::AbsoluteY, 4),
        0xbf => ins(Op::Lax, Mode::AbsoluteY, 4),
        0xc0 => ins(Op::Cpy, Mode::Immediate, 2),
        0xc1 => ins(Op::Cmp, Mode::IndirectX, 6),
        0xc2 => ins(Op::Nop, Mode::Immediate, 2),
        0xc3 => ins(Op::Dcp, Mode::IndirectX, 8),
        0xc4 => ins(Op::Cpy, Mode::ZeroPage, 3),
        0xc5 => ins(Op::Cmp, Mode::ZeroPage, 3),
        0xc6 => ins(Op::Dec, Mode::ZeroPage, 5),
        0xc7 => ins(Op::Dcp, Mode::ZeroPage, 5),
        0xc8 => ins(Op::Iny, Mode::Implied, 2),
        0xc9 => ins(Op::Cmp, Mode::Immediate, 2),
        0xca => ins(Op::Dex, Mode::Implied, 2),
        0xcb => ins(Op::Axs, Mode::Immediate, 2),
        0xcc => ins(Op::Cpy, Mode::Absolute, 4),
        0xcd => ins(Op::Cmp, Mode::Absolute, 4),
        0xce => ins(Op::Dec, Mode::Absolute, 6),
        0xcf => ins(Op::Dcp, Mode::Absolute, 6),
        0xd0 => ins(Op::Bne, Mode::Relative, 2),
        0xd1 => ins(Op::Cmp, Mode::IndirectY, 5),
        0xd2 => ins(Op::Kil, Mode::Implied, 3),
        0xd3 => ins(Op::Dcp, Mode::IndirectY, 8),
        0xd4 => ins(Op::Nop, Mode::ZeroPageX, 4),
        0xd5 => ins(Op::Cmp, Mode::ZeroPageX, 4),
        0xd6 => ins(Op::Dec, Mode::ZeroPageX, 6),
        0xd7 => ins(Op::Dcp, Mode::ZeroPageX, 6),
        0xd8 => ins(Op::Cld, Mode::Implied, 2),
        0xd9 => ins(Op::Cmp, Mode::AbsoluteY, 4),
        0xda => ins(Op::Nop, Mode::Implied, 2),
        0xdb => ins(Op::Dcp, Mode::AbsoluteY, 7),
        0xdc => ins(Op::Nop, Mode::AbsoluteX, 4),
        0xdd => ins(Op::Cmp, Mode::AbsoluteX, 4),
        0xde => ins(Op::Dec, Mode::AbsoluteX, 7),
        0xdf => ins(Op::Dcp, Mode::AbsoluteX, 7),
        0xe0 => ins(Op::Cpx, Mode::Immediate, 2),
        0xe1 => ins(Op::Sbc, Mode::IndirectX, 6),
        0xe2 => ins(Op::Nop, Mode::Immediate, 2),
        0xe3 => ins(Op::Isc, Mode::IndirectX, 8),
        0xe4 => ins(Op::Cpx, Mode::ZeroPage, 3),
        0xe5 => ins(Op::Sbc, Mode::ZeroPage, 3),
        0xe6 => ins(Op::Inc, Mode::ZeroPage, 5),
        0xe7 => ins(Op::Isc, Mode::ZeroPage, 5),
        0xe8 => ins(Op::Inx, Mode::Implied, 2),
        0xe9 => ins(Op::Sbc, Mode::Immediate, 2),
        0xea => ins(Op::Nop, Mode::Implied, 2),
        0xeb => ins(Op::Sbc, Mode::Immediate, 2),
        0xec => ins(Op::Cpx, Mode::Absolute, 4),
        0xed => ins(Op::Sbc, Mode::Absolute, 4),
        0xee => ins(Op::Inc, Mode::Absolute, 6),
        0xef => ins(Op::Isc, Mode::Absolute, 6),
        0xf0 => ins(Op::Beq, Mode::Relative, 2),
        0xf1 => ins(Op::Sbc, Mode::IndirectY, 5),
        0xf2 => ins(Op::Kil, Mode::Implied, 3),
        0xf3 => ins(Op::Isc, Mode::IndirectY, 8),
        0xf4 => ins(Op::Nop, Mode::ZeroPageX, 4),
        0xf5 => ins(Op::Sbc, Mode::ZeroPageX, 4),
        0xf6 => ins(Op::Inc, Mode::ZeroPageX, 6),
        0xf7 => ins(Op::Isc, Mode::ZeroPageX, 6),
        0xf8 => ins(Op::Sed, Mode::Implied, 2),
        0xf9 => ins(Op::Sbc, Mode::AbsoluteY, 4),
        0xfa => ins(Op::Nop, Mode::Implied, 2),
        0xfb => ins(Op::Isc, Mode::AbsoluteY, 7),
        0xfc => ins(Op::Nop, Mode::AbsoluteX, 4),
        0xfd => ins(Op::Sbc, Mode::AbsoluteX, 4),
        0xfe => ins(Op::Inc, Mode::AbsoluteX, 7),
        0xff => ins(Op::Isc, Mode::AbsoluteX, 7),
    }
}

} // verus!

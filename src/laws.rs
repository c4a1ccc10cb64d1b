//! Properties of every step, stated over the instruction semantics that `CPU::step` is proved
//! to follow.

use vstd::prelude::*;

use crate::cpu::{CLOCK_LIMIT, CPU};
use crate::endians::join;
use crate::flags::{lemma_with_all, BREAK_COMMAND, CARRY, NEGATIVE, OVERFLOW, UNUSED, ZERO};
use crate::isa::{
    modified, wrap8, makes_no_access, ins, same_page_next, is_modify_op, is_store_op, implied_result, modify_result, read_result, store_result, advance, branch_target, branch_taken, carry_in, decode, executes, is_branch, is_read_op,
    operand, operand_bytes, page_crossed, penalty, read_at, stack_address, steps, wrap16, Instr,
    Mode, Op,
};
use crate::memory::{next_address, BusOp};

verus! {

/// The opcode that a step read.
pub open spec fn opcode_of(before: Seq<BusOp>, after: Seq<BusOp>) -> u8 {
    after[before.len() as int].value()
}

/// Every stack slot lies in page one, whatever the stack pointer: pushes write and pulls read
/// `stack_address` of a byte-sized pointer.
pub proof fn lemma_stack_in_page_one(sp: u8)
    ensures
        0x0100 <= stack_address(sp) <= 0x01ff,
{
}

/// The register updates of the operations leave the program counter and the cycle counter to
/// the instruction around them (a jamming opcode steps the counter back onto itself).
pub proof fn lemma_results_keep_pc_and_clock(op: Op, s: CPU, v: u8)
    ensures
        read_result(op, s, v).pc == s.pc,
        read_result(op, s, v).clock == s.clock,
        modify_result(op, s, v).pc == s.pc,
        modify_result(op, s, v).clock == s.clock,
        store_result(op, s).pc == s.pc,
        store_result(op, s).clock == s.clock,
        op != Op::Kil ==> implied_result(op, s).pc == s.pc,
        implied_result(op, s).clock == s.clock,
{
    lemma_modify_keeps_pc_and_clock(op, s, v);
    lemma_modify_keeps_pc_and_clock(op, s, s.a);
}

proof fn lemma_modify_keeps_pc_and_clock(op: Op, s: CPU, v: u8)
    ensures
        modify_result(op, s, v).pc == s.pc,
        modify_result(op, s, v).clock == s.clock,
{
}

/// The program counter after an instruction whose opcode was already fetched.
#[verifier::spinoff_prover]
#[verifier::rlimit(100)]
pub proof fn lemma_executes_pc(s: CPU, i: Instr, before: Seq<BusOp>, after: Seq<BusOp>, s2: CPU)
    requires
        executes(s, i, before, after, s2),
        s.clock + i.cycles + 2 <= u64::MAX,
    ensures
        !assigns_pc(i, s.flags) ==> s2.pc == wrap16(s.pc + operand_bytes(i.mode)),
        i.op == Op::Kil ==> s2.pc == wrap16(wrap16(s.pc + operand_bytes(i.mode)) + 0xffff),
        s2.clock == s.clock + i.cycles + extra_cycles(s, i, after, before.len() as int),
{
    reveal(executes);
    let s1 = advance(s, operand_bytes(i.mode));
    lemma_results_keep_pc_and_clock(i.op, s1, operand(i.mode, before, after));
    assert(s1.pc == wrap16(s.pc + operand_bytes(i.mode)));
    if is_read_op(i.op) || (i.op == Op::Nop && i.mode == Mode::AbsoluteX) {
        assert(s2.pc == s1.pc);
    } else if is_modify_op(i.op) && i.mode != Mode::Implied {
        assert(s2.pc == s1.pc);
    } else if is_store_op(i.op) {
        assert(s2.pc == s1.pc);
    } else if is_branch(i.op) {
    } else {
        assert(!assigns_pc(i, s.flags) ==> s2.pc == s1.pc);
    }
}

/// No opcode costs more than 8 cycles before penalties.
pub proof fn lemma_decode_cycles(opcode: u8)
    ensures
        decode(opcode).cycles <= 8,
        decode(opcode).op == Op::Kil ==> decode(opcode).mode == Mode::Implied,
{
}

/// In page one: the stack's addresses.
pub open spec fn in_page_one(op: BusOp) -> bool {
    0x0100 <= op.address() <= 0x01ff
}

/// The stack accesses of a step, counted from the opcode fetch, all lie in page one.
pub proof fn lemma_stack_accesses_in_page_one(s: CPU, before: Seq<BusOp>, after: Seq<BusOp>, s2: CPU)
    requires
        steps(s, before, after, s2),
    ensures
        ({
            let op = decode(opcode_of(before, after)).op;
            let n = before.len() as int;
            &&& (op == Op::Pha || op == Op::Php || op == Op::Pla || op == Op::Plp) ==> in_page_one(
                after[n + 1],
            )
            &&& op == Op::Jsr ==> in_page_one(after[n + 3]) && in_page_one(after[n + 4])
            &&& op == Op::Rts ==> in_page_one(after[n + 1]) && in_page_one(after[n + 2])
            &&& (op == Op::Rti || op == Op::Brk) ==> in_page_one(after[n + 1]) && in_page_one(
                after[n + 2],
            ) && in_page_one(after[n + 3])
        }),
{
    reveal(executes);
}

/// The bytes an instruction occupies: the opcode and its operand bytes.
pub open spec fn instruction_length(i: Instr) -> int {
    1 + operand_bytes(i.mode)
}

/// Instructions that set the program counter themselves rather than moving past their bytes.
pub open spec fn assigns_pc(i: Instr, f: crate::flags::Flags) -> bool {
    i.op == Op::Jmp || i.op == Op::Jsr || i.op == Op::Rts || i.op == Op::Rti || i.op == Op::Brk
        || i.op == Op::Kil || (is_branch(i.op) && branch_taken(i.op, f))
}

/// The program counter moves past the instruction's bytes, except for the instructions that
/// assign it; a jamming opcode leaves it on itself.
pub proof fn lemma_pc_advances(s: CPU, before: Seq<BusOp>, after: Seq<BusOp>, s2: CPU)
    requires
        steps(s, before, after, s2),
        s.clock <= CLOCK_LIMIT,
    ensures
        !assigns_pc(decode(opcode_of(before, after)), s.flags) ==> s2.pc == wrap16(
            s.pc + instruction_length(decode(opcode_of(before, after))),
        ),
        decode(opcode_of(before, after)).op == Op::Kil ==> s2.pc == s.pc,
{
    let i = decode(opcode_of(before, after));
    let k = operand_bytes(i.mode);
    lemma_decode_cycles(opcode_of(before, after));
    lemma_executes_pc(advance(s, 1), i, before.push(after[before.len() as int]), after, s2);
    assert(wrap16(wrap16(s.pc + 1) + k) == wrap16(s.pc + 1 + k));
    assert(wrap16(wrap16(s.pc + 1) + 0xffff) == s.pc);
}

/// The cycles added beyond the table's base count: one for an indexed read that crosses a page,
/// and for a taken branch one, or two when it lands on another page.
pub open spec fn extra_cycles(s: CPU, i: Instr, t: Seq<BusOp>, n: int) -> int {
    if is_read_op(i.op) || (i.op == Op::Nop && i.mode == Mode::AbsoluteX) {
        penalty(s, i.mode, t, n)
    } else if is_branch(i.op) && branch_taken(i.op, s.flags) {
        let next = next_address(s.pc);
        if next / 256 != branch_target(next, t[n].value()) / 256 {
            2
        } else {
            1
        }
    } else {
        0
    }
}

/// The cycle counter grows by the opcode's base count plus the page-cross or branch penalty.
pub proof fn lemma_cycles(s: CPU, before: Seq<BusOp>, after: Seq<BusOp>, s2: CPU)
    requires
        steps(s, before, after, s2),
        s.clock <= CLOCK_LIMIT,
    ensures
        s2.clock == s.clock + decode(opcode_of(before, after)).cycles + extra_cycles(
            advance(s, 1),
            decode(opcode_of(before, after)),
            after,
            before.len() as int + 1,
        ),
{
    let i = decode(opcode_of(before, after));
    lemma_decode_cycles(opcode_of(before, after));
    lemma_executes_pc(advance(s, 1), i, before.push(after[before.len() as int]), after, s2);
}

/// An indexed read that crosses a page costs 6 cycles through (zp),Y and 5 through absolute,X
/// or absolute,Y.
pub proof fn lemma_page_cross_reads(s: CPU, before: Seq<BusOp>, after: Seq<BusOp>, s2: CPU)
    requires
        steps(s, before, after, s2),
        s.clock <= CLOCK_LIMIT,
        is_read_op(decode(opcode_of(before, after)).op),
        page_crossed(advance(s, 1), decode(opcode_of(before, after)).mode, after, before.len() as int + 1),
    ensures
        decode(opcode_of(before, after)).mode == Mode::IndirectY ==> s2.clock == s.clock + 6,
        decode(opcode_of(before, after)).mode == Mode::AbsoluteX ==> s2.clock == s.clock + 5,
        decode(opcode_of(before, after)).mode == Mode::AbsoluteY ==> s2.clock == s.clock + 5,
{
    lemma_cycles(s, before, after, s2);
}

/// Which register an operation leaves its NEGATIVE/ZERO result in: 1 for A, 2 for X, 3 for Y,
/// 0 for none.
pub open spec fn result_register(op: Op, mode: Mode) -> int {
    match op {
        Op::Ora | Op::And | Op::Eor | Op::Adc | Op::Sbc | Op::Lda | Op::Lax | Op::Lxa | Op::Las
        | Op::Xaa | Op::Anc | Op::Alr | Op::Arr | Op::Pla | Op::Txa | Op::Tya | Op::Slo | Op::Rla
        | Op::Sre | Op::Rra | Op::Isc => 1,
        Op::Asl | Op::Lsr | Op::Rol | Op::Ror => if mode == Mode::Implied {
            1
        } else {
            0
        },
        Op::Ldx | Op::Tax | Op::Tsx | Op::Inx | Op::Dex | Op::Axs => 2,
        Op::Ldy | Op::Tay | Op::Iny | Op::Dey => 3,
        _ => 0,
    }
}

/// NEGATIVE and ZERO describe the byte in the result register `reg` of `s`.
pub open spec fn nz_describes(s: CPU, reg: int) -> bool {
    let r = if reg == 1 {
        s.a
    } else if reg == 2 {
        s.x
    } else {
        s.y
    };
    reg != 0 ==> s.flags.has(ZERO) == (r == 0) && s.flags.has(NEGATIVE) == (r >= 128)
}

proof fn lemma_nz_read(op: Op, mode: Mode, s: CPU, v: u8)
    requires
        is_read_op(op),
    ensures
        nz_describes(read_result(op, s, v), result_register(op, mode)),
{
    lemma_with_all();
    match op {
        Op::Ora => {},
        Op::And => {},
        Op::Eor => {},
        Op::Adc => {},
        Op::Sbc => {},
        Op::Lda => {},
        Op::Ldx => {},
        Op::Ldy => {},
        Op::Lax => {},
        Op::Lxa => {},
        Op::Las => {},
        Op::Anc => {},
        Op::Alr => {},
        Op::Arr => {},
        Op::Axs => {},
        Op::Xaa => {},
        _ => {},
    }
}

proof fn lemma_nz_modify(op: Op, s: CPU, v: u8)
    requires
        is_modify_op(op),
    ensures
        nz_describes(modify_result(op, s, v), result_register(op, Mode::Absolute)),
{
    lemma_with_all();
    match op {
        Op::Slo => {},
        Op::Rla => {},
        Op::Sre => {},
        Op::Rra => {},
        Op::Isc => {},
        Op::Asl => {},
        Op::Lsr => {},
        Op::Rol => {},
        Op::Ror => {},
        _ => {},
    }
}

proof fn lemma_nz_implied(op: Op, s: CPU)
    requires
        makes_no_access(ins(op, Mode::Implied, 0)),
    ensures
        nz_describes(implied_result(op, s), result_register(op, Mode::Implied)),
{
    lemma_with_all();
    match op {
        Op::Txa => {},
        Op::Tya => {},
        Op::Tax => {},
        Op::Tay => {},
        Op::Tsx => {},
        Op::Inx => {},
        Op::Iny => {},
        Op::Dex => {},
        Op::Dey => {},
        Op::Asl => {},
        Op::Lsr => {},
        Op::Rol => {},
        Op::Ror => {},
        _ => {},
    }
}

/// After an operation whose result lands in a register, ZERO says whether that byte is zero
/// and NEGATIVE gives its bit 7.
#[verifier::spinoff_prover]
pub proof fn lemma_nz_follow_result(s: CPU, before: Seq<BusOp>, after: Seq<BusOp>, s2: CPU)
    requires
        steps(s, before, after, s2),
    ensures
        nz_describes(
            s2,
            result_register(
                decode(opcode_of(before, after)).op,
                decode(opcode_of(before, after)).mode,
            ),
        ),
{
    let i = decode(opcode_of(before, after));
    let b1 = before.push(after[before.len() as int]);
    let s0 = advance(s, 1);
    let s1 = advance(s0, operand_bytes(i.mode));
    let v = operand(i.mode, b1, after);
    lemma_with_all();
    if is_read_op(i.op) {
        lemma_nz_read(i.op, i.mode, s1, v);
    }
    if is_modify_op(i.op) && i.mode != Mode::Implied {
        lemma_nz_modify(i.op, s1, v);
    }
    if makes_no_access(i) {
        lemma_nz_implied(i.op, s1);
    }
    reveal(executes);
}

/// The NEGATIVE/ZERO results of compares and of read-modify-write operations, for an instruction
/// whose opcode was already fetched.
pub open spec fn nz_other_results(s: CPU, i: Instr, before: Seq<BusOp>, after: Seq<BusOp>, s2: CPU) -> bool {
    let s1 = advance(s, operand_bytes(i.mode));
    let v = operand(i.mode, before, after);
    let w = modified(i.op, s1, v);
    &&& i.op == Op::Cmp ==> s2.flags.has(ZERO) == (s.a == v) && s2.flags.has(NEGATIVE) == (wrap8(
        s.a - v,
    ) >= 128)
    &&& i.op == Op::Cpx ==> s2.flags.has(ZERO) == (s.x == v) && s2.flags.has(NEGATIVE) == (wrap8(
        s.x - v,
    ) >= 128)
    &&& i.op == Op::Cpy ==> s2.flags.has(ZERO) == (s.y == v) && s2.flags.has(NEGATIVE) == (wrap8(
        s.y - v,
    ) >= 128)
    &&& (i.op == Op::Inc || i.op == Op::Dec || i.op == Op::Asl || i.op == Op::Lsr || i.op == Op::Rol
        || i.op == Op::Ror) && i.mode != Mode::Implied ==> s2.flags.has(ZERO) == (w == 0)
        && s2.flags.has(NEGATIVE) == (w >= 128)
    &&& i.op == Op::Dcp && i.mode != Mode::Implied ==> s2.flags.has(ZERO) == (s.a == w)
        && s2.flags.has(NEGATIVE) == (wrap8(s.a - w) >= 128)
}

proof fn lemma_nz_compare(op: Op, s: CPU, v: u8)
    requires
        op == Op::Cmp || op == Op::Cpx || op == Op::Cpy,
    ensures
        ({
            let r = read_result(op, s, v);
            &&& op == Op::Cmp ==> r.flags.has(ZERO) == (s.a == v) && r.flags.has(NEGATIVE) == (
            wrap8(s.a - v) >= 128)
            &&& op == Op::Cpx ==> r.flags.has(ZERO) == (s.x == v) && r.flags.has(NEGATIVE) == (
            wrap8(s.x - v) >= 128)
            &&& op == Op::Cpy ==> r.flags.has(ZERO) == (s.y == v) && r.flags.has(NEGATIVE) == (
            wrap8(s.y - v) >= 128)
        }),
{
    lemma_with_all();
}

proof fn lemma_nz_modified(op: Op, s: CPU, v: u8)
    requires
        is_modify_op(op),
    ensures
        ({
            let w = modified(op, s, v);
            let r = modify_result(op, s, v);
            &&& (op == Op::Inc || op == Op::Dec || op == Op::Asl || op == Op::Lsr || op == Op::Rol
                || op == Op::Ror) ==> r.flags.has(ZERO) == (w == 0) && r.flags.has(NEGATIVE) == (w
                >= 128)
            &&& op == Op::Dcp ==> r.flags.has(ZERO) == (s.a == w) && r.flags.has(NEGATIVE) == (
            wrap8(s.a - w) >= 128)
        }),
{
    lemma_with_all();
}

proof fn lemma_executes_nz_other(s: CPU, i: Instr, before: Seq<BusOp>, after: Seq<BusOp>, s2: CPU)
    requires
        executes(s, i, before, after, s2),
    ensures
        nz_other_results(s, i, before, after, s2),
{
    let s1 = advance(s, operand_bytes(i.mode));
    let v = operand(i.mode, before, after);
    if i.op == Op::Cmp || i.op == Op::Cpx || i.op == Op::Cpy {
        lemma_nz_compare(i.op, s1, v);
    }
    if is_modify_op(i.op) {
        lemma_nz_modified(i.op, s1, v);
    }
    reveal(executes);
}

/// Compares set ZERO when the register equals the operand and NEGATIVE from bit 7 of their
/// difference; read-modify-write operations that leave A alone set both from the byte they
/// write back.
pub proof fn lemma_nz_follow_other_results(s: CPU, before: Seq<BusOp>, after: Seq<BusOp>, s2: CPU)
    requires
        steps(s, before, after, s2),
    ensures
        nz_other_results(
            advance(s, 1),
            decode(opcode_of(before, after)),
            before.push(after[before.len() as int]),
            after,
            s2,
        ),
{
    lemma_executes_nz_other(
        advance(s, 1),
        decode(opcode_of(before, after)),
        before.push(after[before.len() as int]),
        after,
        s2,
    );
}

/// PHP and BRK push the flags with BREAK and UNUSED set; PLP and RTI restore them with BREAK
/// clear and UNUSED set.
pub proof fn lemma_break_and_unused(s: CPU, before: Seq<BusOp>, after: Seq<BusOp>, s2: CPU)
    requires
        steps(s, before, after, s2),
    ensures
        decode(opcode_of(before, after)).op == Op::Php ==> after[before.len() as int + 1].value() & 0x30
            == 0x30,
        decode(opcode_of(before, after)).op == Op::Brk ==> after[before.len() as int + 3].value() & 0x30
            == 0x30,
        decode(opcode_of(before, after)).op == Op::Plp || decode(opcode_of(before, after)).op
            == Op::Rti ==> !s2.flags.has(BREAK_COMMAND) && s2.flags.has(UNUSED),
{
    reveal(executes);
    lemma_with_all();
    let b = advance(s, 1).flags.bits;
    assert(((b | 0x10) | 0x20) & 0x30 == 0x30) by (bit_vector);
}

/// ADC: A becomes `(A + M + C) mod 256`, CARRY bit 8 of that sum, and OVERFLOW is set exactly
/// when `(A ^ r) & (M ^ r) & 0x80` is not zero.
pub proof fn lemma_adc(s: CPU, before: Seq<BusOp>, after: Seq<BusOp>, s2: CPU)
    requires
        steps(s, before, after, s2),
        decode(opcode_of(before, after)).op == Op::Adc,
    ensures
        ({
            let i = decode(opcode_of(before, after));
            let m = operand(i.mode, before.push(after[before.len() as int]), after);
            let sum = s.a + m + carry_in(s);
            &&& s2.a == sum % 256
            &&& s2.flags.has(CARRY) == ((sum / 256) % 2 == 1)
            &&& s2.flags.has(OVERFLOW) == ((s.a ^ s2.a) & (m ^ s2.a) & 0x80 != 0)
        }),
{
    reveal(executes);
    lemma_with_all();
    let i = decode(opcode_of(before, after));
    let m = operand(i.mode, before.push(after[before.len() as int]), after);
    let a = s.a;
    let r = s2.a;
    assert(((a ^ r) & (m ^ r) & 0x80 != 0) == ((a >= 128) == (m >= 128) && (a >= 128) != (r
        >= 128))) by (bit_vector);
}

/// JMP (indirect) through a pointer whose low byte is 0xff takes the high byte of the target from
/// the start of the same page, not from the next page.
pub proof fn lemma_jmp_indirect_page_wrap(s: CPU, before: Seq<BusOp>, after: Seq<BusOp>, s2: CPU)
    requires
        steps(s, before, after, s2),
        opcode_of(before, after) == 0x6c,
        after[before.len() as int + 1].value() == 0xff,
    ensures
        read_at(after, before.len() as int + 3, join(0xff, after[before.len() as int + 2].value())),
        read_at(after, before.len() as int + 4, join(0, after[before.len() as int + 2].value())),
        s2.pc == join(after[before.len() as int + 3].value(), after[before.len() as int + 4].value()),
{
    assert(decode(0x6c) == ins(Op::Jmp, Mode::Indirect, 5));
    reveal(executes);
    let hi = after[before.len() as int + 2].value();
    assert(same_page_next(join(0xff, hi)) == join(0, hi));
}

} // verus!

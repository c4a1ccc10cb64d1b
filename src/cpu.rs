use vstd::prelude::*;

use crate::endians::{join, Word};
use crate::flags::{
    Flags, BREAK_COMMAND, CARRY, DECIMAL_MODE, INTERRUPT_DISABLE, NEGATIVE, OVERFLOW, UNUSED,
    ZERO,
};
use crate::isa::{
    extends,    Mode, Op, adc_result, advance, appended, base_address, branch_target, carry_in, compare_result,
    decode, executes, fetched, high_plus_one, implied_result, ins, lemma_executes_extends,
    lemma_no_access, modified, modify_result, operand, penalty, pulled_flags, read_at, read_result,
    stack_address, steps, store_address, store_value, tick, wrap16, wrap8, zero_page,
};
use crate::memory::{next_address, BusOp, Memory};

verus! {

const STACK_ADDRESS: u16 = 0x0100;

const INTERRUPT_REQUEST_INTERRUPT_ADDRESS: u16 = 0xfffe;

/// The largest cycle count from which a step may start: a step adds at most 8 cycles.
pub const CLOCK_LIMIT: u64 = 0xffff_ffff_ffff_0000;

/// The register file of the processor and its cycle counter.
#[derive(Clone, Copy, Debug, PartialEq, Eq, Structural)]
pub struct CPU {
    pub pc: u16,
    pub sp: u8,
    pub a: u8,
    pub x: u8,
    pub y: u8,
    pub flags: Flags,
    pub clock: u64,
}

struct AddrValue {
    address: u16,
    value: u8,
}

/// What an indexed addressing helper found: the effective address, the byte there, the address
/// before indexing, and one extra cycle when indexing crossed a page.
pub struct AddrValueClock {
    pub address: u16,
    pub value: u8,
    pub base: u16,
    pub extra_clock: u64,
}

impl AddrValueClock {
    pub fn is_page_crossing(&self) -> (r: bool)
        ensures
            r == (self.extra_clock != 0),
    {
        self.extra_clock != 0
    }
}

impl CPU {
    /// A processor with every register, every flag and the cycle counter at zero.
    pub fn new() -> (r: CPU)
        ensures
            r == (CPU { pc: 0, sp: 0, a: 0, x: 0, y: 0, flags: Flags { bits: 0 }, clock: 0 }),
            forall|mask: u8| !(#[trigger] r.flags.has(mask)),
    {
        assert(forall|mask: u8| #[trigger] (0u8 & mask) == 0) by (bit_vector);
        CPU { pc: 0, sp: 0, a: 0, x: 0, y: 0, flags: Flags::from_bits_retain(0), clock: 0 }
    }

    /// Runs one instruction: fetches the opcode at the program counter and carries out that
    /// opcode's handler, with all its register, flag, memory and cycle updates.
    ///
    /// The accesses and the new state are those that `steps` gives for the bytes the bus
    /// returned; `reveal(executes)` unfolds one instruction. On a `FlatMemory`,
    /// `FlatMemory::lemma_continues` gives the bytes each read returned from the cells before
    /// the step.
    pub fn step<M: Memory>(&mut self, m: &mut M)
        requires
            old(self).clock <= CLOCK_LIMIT,
        ensures
            steps(*old(self), old(m).ops(), final(m).ops(), *final(self)),
            extends(old(m).ops(), final(m).ops()),
            old(m).wf() ==> final(m).wf(),
    {
        let opcode = self.read_next_u8(m);
        // the opcode table, one group of 32 opcodes each
        match opcode / 0x20 {
            0 => self.dispatch_00_1f(m, opcode),
            1 => self.dispatch_20_3f(m, opcode),
            2 => self.dispatch_40_5f(m, opcode),
            3 => self.dispatch_60_7f(m, opcode),
            4 => self.dispatch_80_9f(m, opcode),
            5 => self.dispatch_a0_bf(m, opcode),
            6 => self.dispatch_c0_df(m, opcode),
            _ => self.dispatch_e0_ff(m, opcode),
        }
        proof {
            lemma_executes_extends(
                advance(*old(self), 1),
                decode(opcode),
                old(m).ops().push(BusOp::Read { address: old(self).pc, value: opcode }),
                m.ops(),
                *self,
            );
        }
    }

    /// Runs the handler of an opcode in 0x00..=0x1f.
    #[verifier::spinoff_prover]
    fn dispatch_00_1f<M: Memory>(&mut self, m: &mut M, opcode: u8)
        requires
            old(self).clock <= CLOCK_LIMIT,
            0x00 <= opcode <= 0x1f,
        ensures
            old(m).wf() ==> final(m).wf(),
            executes(*old(self), decode(opcode), old(m).ops(), final(m).ops(), *final(self)),
    {
        let ghost s = *self;
        match opcode {
            0x00 => self.brk(m),
            0x01 => self.ora_zero_page_indirect_x(m),
            0x02 => {
                self.kil();
                proof {
                    lemma_no_access(s, decode(0x02), m.ops(), *self);
                }
            },
            0x03 => self.slo_zero_page_indirect_x(m),
            0x04 => {
                self.nop(1, 3);
                proof {
                    lemma_no_access(s, decode(0x04), m.ops(), *self);
                }
            },
            0x05 => self.ora_zero_page_fixed(m),
            0x06 => self.asl_zero_page_fixed(m),
            0x07 => self.slo_zero_page_immediate(m),
            0x08 => self.php(m),
            0x09 => self.ora_immediate(m),
            0x0a => {
                self.asl();
                proof {
                    lemma_no_access(s, decode(0x0a), m.ops(), *self);
                }
            },
            0x0b => self.anc_immediate(m),
            0x0c => {
                self.nop(2, 4);
                proof {
                    lemma_no_access(s, decode(0x0c), m.ops(), *self);
                }
            },
            0x0d => self.ora_absolute(m),
            0x0e => self.asl_absolute(m),
            0x0f => self.slo_absolute(m),
            0x10 => self.bpl(m),
            0x11 => self.ora_zero_page_indirect_y(m),
            0x12 => {
                self.kil();
                proof {
                    lemma_no_access(s, decode(0x12), m.ops(), *self);
                }
            },
            0x13 => self.slo_zero_page_indirect_y(m),
            0x14 => {
                self.nop(1, 4);
                proof {
                    lemma_no_access(s, decode(0x14), m.ops(), *self);
                }
            },
            0x15 => self.ora_zero_page_x(m),
            0x16 => self.asl_zero_page_x(m),
            0x17 => self.slo_zero_page_x(m),
            0x18 => {
                self.clc();
                proof {
                    lemma_no_access(s, decode(0x18), m.ops(), *self);
                }
            },
            0x19 => self.ora_absolute_y(m),
            0x1a => {
                self.nop(0, 2);
                proof {
                    lemma_no_access(s, decode(0x1a), m.ops(), *self);
                }
            },
            0x1b => self.slo_absolute_y(m),
            0x1c => self.nop_absolute_x(m),
            0x1d => self.ora_absolute_x(m),
            0x1e => self.asl_absolute_x(m),
            0x1f => self.slo_absolute_x(m),
            _ => {},
        }
    }

    /// Runs the handler of an opcode in 0x20..=0x3f.
    #[verifier::spinoff_prover]
    fn dispatch_20_3f<M: Memory>(&mut self, m: &mut M, opcode: u8)
        requires
            old(self).clock <= CLOCK_LIMIT,
            0x20 <= opcode <= 0x3f,
        ensures
            old(m).wf() ==> final(m).wf(),
            executes(*old(self), decode(opcode), old(m).ops(), final(m).ops(), *final(self)),
    {
        let ghost s = *self;
        match opcode {
            0x20 => self.jsr(m),
            0x21 => self.and_zero_page_indirect_x(m),
            0x22 => {
                self.kil();
                proof {
                    lemma_no_access(s, decode(0x22), m.ops(), *self);
                }
            },
            0x23 => self.rla_zero_page_indirect_x(m),
            0x24 => self.bit_zero_page_immediate(m),
            0x25 => self.and_zero_page(m),
            0x26 => self.rol_zero_page(m),
            0x27 => self.rla_zero_page(m),
            0x28 => self.plp(m),
            0x29 => self.and_immediate(m),
            0x2a => {
                self.rol();
                proof {
                    lemma_no_access(s, decode(0x2a), m.ops(), *self);
                }
            },
            0x2b => self.anc_immediate(m),
            0x2c => self.bit_absolute(m),
            0x2d => self.and_absolute(m),
            0x2e => self.rol_absolute(m),
            0x2f => self.rla_absolute(m),
            0x30 => self.bmi(m),
            0x31 => self.and_zero_page_indirect_y(m),
            0x32 => {
                self.kil();
                proof {
                    lemma_no_access(s, decode(0x32), m.ops(), *self);
                }
            },
            0x33 => self.rla_zero_page_indirect_y(m),
            0x34 => {
                self.nop(1, 4);
                proof {
                    lemma_no_access(s, decode(0x34), m.ops(), *self);
                }
            },
            0x35 => self.and_zero_page_x(m),
            0x36 => self.rol_zero_page_x(m),
            0x37 => self.rla_zero_page_x(m),
            0x38 => {
                self.sec();
                proof {
                    lemma_no_access(s, decode(0x38), m.ops(), *self);
                }
            },
            0x39 => self.and_absolute_y(m),
            0x3a => {
                self.nop(0, 2);
                proof {
                    lemma_no_access(s, decode(0x3a), m.ops(), *self);
                }
            },
            0x3b => self.rla_absolute_y(m),
            0x3c => self.nop_absolute_x(m),
            0x3d => self.and_absolute_x(m),
            0x3e => self.rol_absolute_x(m),
            0x3f => self.rla_absolute_x(m),
            _ => {},
        }
    }

    /// Runs the handler of an opcode in 0x40..=0x5f.
    #[verifier::spinoff_prover]
    fn dispatch_40_5f<M: Memory>(&mut self, m: &mut M, opcode: u8)
        requires
            old(self).clock <= CLOCK_LIMIT,
            0x40 <= opcode <= 0x5f,
        ensures
            old(m).wf() ==> final(m).wf(),
            executes(*old(self), decode(opcode), old(m).ops(), final(m).ops(), *final(self)),
    {
        let ghost s = *self;
        match opcode {
            0x40 => self.rti(m),
            0x41 => self.eor_zero_page_indirect_x(m),
            0x42 => {
                self.kil();
                proof {
                    lemma_no_access(s, decode(0x42), m.ops(), *self);
                }
            },
            0x43 => self.sre_zero_page_indirect_x(m),
            0x44 => {
                self.nop(1, 3);
                proof {
                    lemma_no_access(s, decode(0x44), m.ops(), *self);
                }
            },
            0x45 => self.eor_zero_page(m),
            0x46 => self.lsr_zero_page(m),
            0x47 => self.sre_zero_page(m),
            0x48 => self.pha(m),
            0x49 => self.eor_immediate(m),
            0x4a => {
                self.lsr();
                proof {
                    lemma_no_access(s, decode(0x4a), m.ops(), *self);
                }
            },
            0x4b => self.alr(m),
            0x4c => self.jmp_absolute(m),
            0x4d => self.eor_absolute(m),
            0x4e => self.lsr_absolute(m),
            0x4f => self.sre_absolute(m),
            0x50 => self.bvc(m),
            0x51 => self.eor_zero_page_indirect_y(m),
            0x52 => {
                self.kil();
                proof {
                    lemma_no_access(s, decode(0x52), m.ops(), *self);
                }
            },
            0x53 => self.sre_zero_page_indirect_y(m),
            0x54 => {
                self.nop(1, 4);
                proof {
                    lemma_no_access(s, decode(0x54), m.ops(), *self);
                }
            },
            0x55 => self.eor_zero_page_x(m),
            0x56 => self.lsr_zero_page_x(m),
            0x57 => self.sre_zero_page_x(m),
            0x58 => {
                self.cli();
                proof {
                    lemma_no_access(s, decode(0x58), m.ops(), *self);
                }
            },
            0x59 => self.eor_absolute_y(m),
            0x5a => {
                self.nop(0, 2);
                proof {
                    lemma_no_access(s, decode(0x5a), m.ops(), *self);
                }
            },
            0x5b => self.sre_absolute_y(m),
            0x5c => self.nop_absolute_x(m),
            0x5d => self.eor_absolute_x(m),
            0x5e => self.lsr_absolute_x(m),
            0x5f => self.sre_absolute_x(m),
            _ => {},
        }
    }

    /// Runs the handler of an opcode in 0x60..=0x7f.
    #[verifier::spinoff_prover]
    fn dispatch_60_7f<M: Memory>(&mut self, m: &mut M, opcode: u8)
        requires
            old(self).clock <= CLOCK_LIMIT,
            0x60 <= opcode <= 0x7f,
        ensures
            old(m).wf() ==> final(m).wf(),
            executes(*old(self), decode(opcode), old(m).ops(), final(m).ops(), *final(self)),
    {
        let ghost s = *self;
        match opcode {
            0x60 => self.rta(m),
            0x61 => self.adc_zero_page_indirect_x(m),
            0x62 => {
                self.kil();
                proof {
                    lemma_no_access(s, decode(0x62), m.ops(), *self);
                }
            },
            0x63 => self.rra_zero_page_indirect_x(m),
            0x64 => {
                self.nop(1, 3);
                proof {
                    lemma_no_access(s, decode(0x64), m.ops(), *self);
                }
            },
            0x65 => self.adc_zero_page(m),
            0x66 => self.ror_zero_page(m),
            0x67 => self.rra_zero_page(m),
            0x68 => self.pla(m),
            0x69 => self.adc_immediate(m),
            0x6a => {
                self.ror();
                proof {
                    lemma_no_access(s, decode(0x6a), m.ops(), *self);
                }
            },
            0x6b => self.arr_immediate(m),
            0x6c => self.jmp_indirect(m),
            0x6d => self.adc_absolute(m),
            0x6e => self.ror_absolute(m),
            0x6f => self.rra_absolute(m),
            0x70 => self.bvs(m),
            0x71 => self.adc_zero_page_indirect_y(m),
            0x72 => {
                self.kil();
                proof {
                    lemma_no_access(s, decode(0x72), m.ops(), *self);
                }
            },
            0x73 => self.rra_zero_page_indirect_y(m),
            0x74 => {
                self.nop(1, 4);
                proof {
                    lemma_no_access(s, decode(0x74), m.ops(), *self);
                }
            },
            0x75 => self.adc_zero_page_x(m),
            0x76 => self.ror_zero_page_x(m),
            0x77 => self.rra_zero_page_x(m),
            0x78 => {
                self.sei();
                proof {
                    lemma_no_access(s, decode(0x78), m.ops(), *self);
                }
            },
            0x79 => self.adc_absolute_y(m),
            0x7a => {
                self.nop(0, 2);
                proof {
                    lemma_no_access(s, decode(0x7a), m.ops(), *self);
                }
            },
            0x7b => self.rra_absolute_y(m),
            0x7c => self.nop_absolute_x(m),
            0x7d => self.adc_absolute_x(m),
            0x7e => self.ror_absolute_x(m),
            0x7f => self.rra_absolute_x(m),
            _ => {},
        }
    }

    /// Runs the handler of an opcode in 0x80..=0x9f.
    #[verifier::spinoff_prover]
    fn dispatch_80_9f<M: Memory>(&mut self, m: &mut M, opcode: u8)
        requires
            old(self).clock <= CLOCK_LIMIT,
            0x80 <= opcode <= 0x9f,
        ensures
            old(m).wf() ==> final(m).wf(),
            executes(*old(self), decode(opcode), old(m).ops(), final(m).ops(), *final(self)),
    {
        let ghost s = *self;
        match opcode {
            0x80 => {
                self.nop(1, 2);
                proof {
                    lemma_no_access(s, decode(0x80), m.ops(), *self);
                }
            },
            0x81 => self.sta_zero_page_indirect_x(m),
            0x82 => {
                self.nop(1, 2);
                proof {
                    lemma_no_access(s, decode(0x82), m.ops(), *self);
                }
            },
            0x83 => self.sax_zero_page_indirect_x(m),
            0x84 => self.sty_zero_page(m),
            0x85 => self.sta_zero_page(m),
            0x86 => self.stx_zero_page(m),
            0x87 => self.sax_zero_page(m),
            0x88 => {
                self.dey();
                proof {
                    lemma_no_access(s, decode(0x88), m.ops(), *self);
                }
            },
            0x89 => {
                self.nop(1, 2);
                proof {
                    lemma_no_access(s, decode(0x89), m.ops(), *self);
                }
            },
            0x8a => {
                self.txa();
                proof {
                    lemma_no_access(s, decode(0x8a), m.ops(), *self);
                }
            },
            0x8b => self.xaa_immediate(m),
            0x8c => self.sty_absolute(m),
            0x8d => self.sta_absolute(m),
            0x8e => self.stx_absolute(m),
            0x8f => self.sax_aboslute(m),
            0x90 => self.bcc(m),
            0x91 => self.sta_zero_page_indirect_y(m),
            0x92 => {
                self.kil();
                proof {
                    lemma_no_access(s, decode(0x92), m.ops(), *self);
                }
            },
            0x93 => self.ahx_zero_page_indirect_y(m),
            0x94 => self.sty_zero_page_x(m),
            0x95 => self.sta_zero_page_x(m),
            0x96 => self.stx_zero_page_y(m),
            0x97 => self.sax_zero_page_y(m),
            0x98 => {
                self.tya();
                proof {
                    lemma_no_access(s, decode(0x98), m.ops(), *self);
                }
            },
            0x99 => self.sta_absolute_y(m),
            0x9a => {
                self.txs();
                proof {
                    lemma_no_access(s, decode(0x9a), m.ops(), *self);
                }
            },
            0x9b => self.tas_absolute_y(m),
            0x9c => self.shy_absolute_x(m),
            0x9d => self.sta_absolute_x(m),
            0x9e => self.shx_absolute_y(m),
            0x9f => self.ahx_absolute_y(m),
            _ => {},
        }
    }

    /// Runs the handler of an opcode in 0xa0..=0xbf.
    #[verifier::spinoff_prover]
    fn dispatch_a0_bf<M: Memory>(&mut self, m: &mut M, opcode: u8)
        requires
            old(self).clock <= CLOCK_LIMIT,
            0xa0 <= opcode <= 0xbf,
        ensures
            old(m).wf() ==> final(m).wf(),
            executes(*old(self), decode(opcode), old(m).ops(), final(m).ops(), *final(self)),
    {
        let ghost s = *self;
        match opcode {
            0xa0 => self.ldy_immediate(m),
            0xa1 => self.lda_zero_page_indirect_x(m),
            0xa2 => self.ldx_immediate(m),
            0xa3 => self.lax_zero_page_indirect_x(m),
            0xa4 => self.ldy_zero_page(m),
            0xa5 => self.lda_zero_page(m),
            0xa6 => self.ldx_zero_page(m),
            0xa7 => self.lax_zero_page(m),
            0xa8 => {
                self.tay();
                proof {
                    lemma_no_access(s, decode(0xa8), m.ops(), *self);
                }
            },
            0xa9 => self.lda_immediate(m),
            0xaa => {
                self.tax();
                proof {
                    lemma_no_access(s, decode(0xaa), m.ops(), *self);
                }
            },
            0xab => self.lax_immediate(m),
            0xac => self.ldy_absolute(m),
            0xad => self.lda_absolute(m),
            0xae => self.ldx_absolute(m),
            0xaf => self.lax_absolute(m),
            0xb0 => self.bcs(m),
            0xb1 => self.lda_zero_page_indirect_y(m),
            0xb2 => {
                self.kil();
                proof {
                    lemma_no_access(s, decode(0xb2), m.ops(), *self);
                }
            },
            0xb3 => self.lax_zero_page_indirect_y(m),
            0xb4 => self.ldy_zero_page_x(m),
            0xb5 => self.lda_zero_page_x(m),
            0xb6 => self.ldx_zero_page_y(m),
            0xb7 => self.lax_zero_page_y(m),
            0xb8 => {
                self.clv();
                proof {
                    lemma_no_access(s, decode(0xb8), m.ops(), *self);
                }
            },
            0xb9 => self.lda_absolute_y(m),
            0xba => {
                self.tsx();
                proof {
                    lemma_no_access(s, decode(0xba), m.ops(), *self);
                }
            },
            0xbb => self.las_absolute_y(m),
            0xbc => self.ldy_absolute_x(m),
            0xbd => self.lda_absolute_x(m),
            0xbe => self.ldx_absolute_y(m),
            0xbf => self.lax_absolute_y(m),
            _ => {},
        }
    }

    /// Runs the handler of an opcode in 0xc0..=0xdf.
    #[verifier::spinoff_prover]
    fn dispatch_c0_df<M: Memory>(&mut self, m: &mut M, opcode: u8)
        requires
            old(self).clock <= CLOCK_LIMIT,
            0xc0 <= opcode <= 0xdf,
        ensures
            old(m).wf() ==> final(m).wf(),
            executes(*old(self), decode(opcode), old(m).ops(), final(m).ops(), *final(self)),
    {
        let ghost s = *self;
        match opcode {
            0xc0 => self.cpy_immediate(m),
            0xc1 => self.cmp_zero_page_indirect_x(m),
            0xc2 => {
                self.nop(1, 2);
                proof {
                    lemma_no_access(s, decode(0xc2), m.ops(), *self);
                }
            },
            0xc3 => self.dcp_zero_page_indirect_x(m),
            0xc4 => self.cpy_zero_page(m),
            0xc5 => self.cmp_zero_page(m),
            0xc6 => self.dec_zero_page(m),
            0xc7 => self.dcp_zero_page(m),
            0xc8 => {
                self.iny();
                proof {
                    lemma_no_access(s, decode(0xc8), m.ops(), *self);
                }
            },
            0xc9 => self.cmp_immediate(m),
            0xca => {
                self.dex();
                proof {
                    lemma_no_access(s, decode(0xca), m.ops(), *self);
                }
            },
            0xcb => self.axs_immediate(m),
            0xcc => self.cpy_absolute(m),
            0xcd => self.cmp_absolute(m),
            0xce => self.dec_absolute(m),
            0xcf => self.dcp_absolute(m),
            0xd0 => self.bne(m),
            0xd1 => self.cmp_zero_page_indirect_y(m),
            0xd2 => {
                self.kil();
                proof {
                    lemma_no_access(s, decode(0xd2), m.ops(), *self);
                }
            },
            0xd3 => self.dcp_zero_page_indirect_y(m),
            0xd4 => {
                self.nop(1, 4);
                proof {
                    lemma_no_access(s, decode(0xd4), m.ops(), *self);
                }
            },
            0xd5 => self.cmp_zero_page_x(m),
            0xd6 => self.dec_zero_page_x(m),
            0xd7 => self.dcp_zero_page_x(m),
            0xd8 => {
                self.cld();
                proof {
                    lemma_no_access(s, decode(0xd8), m.ops(), *self);
                }
            },
            0xd9 => self.cmp_absolute_y(m),
            0xda => {
                self.nop(0, 2);
                proof {
                    lemma_no_access(s, decode(0xda), m.ops(), *self);
                }
            },
            0xdb => self.dcp_absolute_y(m),
            0xdc => self.nop_absolute_x(m),
            0xdd => self.cmp_absolute_x(m),
            0xde => self.dec_absolute_x(m),
            0xdf => self.dcp_absolute_x(m),
            _ => {},
        }
    }

    /// Runs the handler of an opcode in 0xe0..=0xff.
    #[verifier::spinoff_prover]
    fn dispatch_e0_ff<M: Memory>(&mut self, m: &mut M, opcode: u8)
        requires
            old(self).clock <= CLOCK_LIMIT,
            0xe0 <= opcode <= 0xff,
        ensures
            old(m).wf() ==> final(m).wf(),
            executes(*old(self), decode(opcode), old(m).ops(), final(m).ops(), *final(self)),
    {
        let ghost s = *self;
        match opcode {
            0xe0 => self.cpx_immediate(m),
            0xe1 => self.sbc_zero_page_indirect_x(m),
            0xe2 => {
                self.nop(1, 2);
                proof {
                    lemma_no_access(s, decode(0xe2), m.ops(), *self);
                }
            },
            0xe3 => self.isc_zero_page_indirect_x(m),
            0xe4 => self.cpx_zerp_page(m),
            0xe5 => self.sbc_zero_page(m),
            0xe6 => self.inc_zero_page(m),
            0xe7 => self.isc_zero_page(m),
            0xe8 => {
                self.inx();
                proof {
                    lemma_no_access(s, decode(0xe8), m.ops(), *self);
                }
            },
            0xe9 => self.sbc_immediate(m),
            0xea => {
                self.nop(0, 2);
                proof {
                    lemma_no_access(s, decode(0xea), m.ops(), *self);
                }
            },
            0xeb => self.sbc_immediate(m),
            0xec => self.cpx_absolute(m),
            0xed => self.sbc_absolute(m),
            0xee => self.inc_absolute(m),
            0xef => self.isc_absolute(m),
            0xf0 => self.beq(m),
            0xf1 => self.sbc_zero_page_indirect_y(m),
            0xf2 => {
                self.kil();
                proof {
                    lemma_no_access(s, decode(0xf2), m.ops(), *self);
                }
            },
            0xf3 => self.isc_zero_page_indirect_y(m),
            0xf4 => {
                self.nop(1, 4);
                proof {
                    lemma_no_access(s, decode(0xf4), m.ops(), *self);
                }
            },
            0xf5 => self.sbc_zero_page_x(m),
            0xf6 => self.inc_zero_page_x(m),
            0xf7 => self.isc_zero_page_x(m),
            0xf8 => {
                self.sed();
                proof {
                    lemma_no_access(s, decode(0xf8), m.ops(), *self);
                }
            },
            0xf9 => self.sbc_absolute_y(m),
            0xfa => {
                self.nop(0, 2);
                proof {
                    lemma_no_access(s, decode(0xfa), m.ops(), *self);
                }
            },
            0xfb => self.isc_absolute_y(m),
            0xfc => self.nop_absolute_x(m),
            0xfd => self.sbc_absolute_x(m),
            0xfe => self.inc_absolute_x(m),
            0xff => self.isc_absolute_x(m),
            _ => {},
        }
    }

    fn read_next_u8<M: Memory>(&mut self, m: &mut M) -> (r: u8)
        ensures
            old(m).wf() ==> final(m).wf(),
            final(m).ops() == old(m).ops().push(BusOp::Read { address: old(self).pc, value: r }),
            *final(self) == advance(*old(self), 1),
    {
        let result = m.read8(self.pc);
        self.pc = self.pc.wrapping_add(1);
        result
    }

    fn read_next_u16<M: Memory>(&mut self, m: &mut M) -> (r: u16)
        ensures
            old(m).wf() ==> final(m).wf(),
            final(m).ops() == old(m).ops().push(
                BusOp::Read { address: old(self).pc, value: (r % 256) as u8 },
            ).push(BusOp::Read { address: next_address(old(self).pc), value: (r / 256) as u8 }),
            *final(self) == advance(*old(self), 2),
    {
        let low = self.read_next_u8(m);
        let high = self.read_next_u8(m);
        Word { low, high }.to_u16()
    }

    fn push8<M: Memory>(&mut self, m: &mut M, value: u8)
        ensures
            old(m).wf() ==> final(m).wf(),
            final(m).ops() == old(m).ops().push(
                BusOp::Write { address: stack_address(old(self).sp), value },
            ),
            *final(self) == (CPU { sp: wrap8(old(self).sp - 1), ..*old(self) }),
            0x0100 <= stack_address(old(self).sp) <= 0x01ff,
    {
        m.write8(STACK_ADDRESS + (self.sp as u16), value);
        self.sp = self.sp.wrapping_sub(1);
    }

    /// Pushes the high byte of `value`, then its low byte.
    fn push16<M: Memory>(&mut self, m: &mut M, value: u16)
        ensures
            old(m).wf() ==> final(m).wf(),
            final(m).ops() == old(m).ops().push(
                BusOp::Write { address: stack_address(old(self).sp), value: (value / 256) as u8 },
            ).push(
                BusOp::Write {
                    address: stack_address(wrap8(old(self).sp - 1)),
                    value: (value % 256) as u8,
                },
            ),
            *final(self) == (CPU { sp: wrap8(old(self).sp - 2), ..*old(self) }),
    {
        let value = Word::from_u16(value);
        self.push8(m, value.high);
        self.push8(m, value.low);
    }

    fn pop8<M: Memory>(&mut self, m: &mut M) -> (r: u8)
        ensures
            old(m).wf() ==> final(m).wf(),
            final(m).ops() == old(m).ops().push(
                BusOp::Read { address: stack_address(wrap8(old(self).sp + 1)), value: r },
            ),
            *final(self) == (CPU { sp: wrap8(old(self).sp + 1), ..*old(self) }),
            0x0100 <= stack_address(wrap8(old(self).sp + 1)) <= 0x01ff,
    {
        self.sp = self.sp.wrapping_add(1);
        m.read8(STACK_ADDRESS + (self.sp as u16))
    }

    /// Pulls the low byte, then the high byte.
    fn pop16<M: Memory>(&mut self, m: &mut M) -> (r: u16)
        ensures
            old(m).wf() ==> final(m).wf(),
            final(m).ops() == old(m).ops().push(
                BusOp::Read {
                    address: stack_address(wrap8(old(self).sp + 1)),
                    value: (r % 256) as u8,
                },
            ).push(
                BusOp::Read {
                    address: stack_address(wrap8(old(self).sp + 2)),
                    value: (r / 256) as u8,
                },
            ),
            *final(self) == (CPU { sp: wrap8(old(self).sp + 2), ..*old(self) }),
    {
        let low = self.pop8(m);
        let high = self.pop8(m);
        Word { low, high }.to_u16()
    }

    fn absolute<M: Memory>(&mut self, m: &mut M) -> (r: AddrValue)
        ensures
            old(m).wf() ==> final(m).wf(),
            fetched(
                *old(self),
                Mode::Absolute,
                old(m).ops(),
                final(m).ops(),
                *final(self),
                r.address,
                r.value,
            ),
    {
        let address = self.read_next_u16(m);
        let value = m.read8(address);
        AddrValue { address, value }
    }

    fn absolute_x<M: Memory>(&mut self, m: &mut M) -> (r: AddrValueClock)
        ensures
            old(m).wf() ==> final(m).wf(),
            fetched(
                *old(self),
                Mode::AbsoluteX,
                old(m).ops(),
                final(m).ops(),
                *final(self),
                r.address,
                r.value,
            ),
            r.base == base_address(*old(self), Mode::AbsoluteX, final(m).ops(), old(m).ops().len() as int),
            r.extra_clock == penalty(*old(self), Mode::AbsoluteX, final(m).ops(), old(m).ops().len() as int),
    {
        self.absolute_common(m, self.x)
    }

    fn absolute_y<M: Memory>(&mut self, m: &mut M) -> (r: AddrValueClock)
        ensures
            old(m).wf() ==> final(m).wf(),
            fetched(
                *old(self),
                Mode::AbsoluteY,
                old(m).ops(),
                final(m).ops(),
                *final(self),
                r.address,
                r.value,
            ),
            r.base == base_address(*old(self), Mode::AbsoluteY, final(m).ops(), old(m).ops().len() as int),
            r.extra_clock == penalty(*old(self), Mode::AbsoluteY, final(m).ops(), old(m).ops().len() as int),
    {
        self.absolute_common(m, self.y)
    }

    /// Absolute addressing indexed by `offset`; an extra cycle when the index crosses a page.
    fn absolute_common<M: Memory>(&mut self, m: &mut M, offset: u8) -> (r: AddrValueClock)
        ensures
            old(m).wf() ==> final(m).wf(),
            ({
                let t = final(m).ops();
                let n = old(m).ops().len() as int;
                &&& appended(old(m).ops(), t, 3)
                &&& read_at(t, n, old(self).pc)
                &&& read_at(t, n + 1, next_address(old(self).pc))
                &&& r.base == join(t[n].value(), t[n + 1].value())
                &&& r.address == wrap16(r.base + offset)
                &&& read_at(t, n + 2, r.address)
                &&& r.value == t[n + 2].value()
                &&& r.extra_clock == if r.base / 256 != r.address / 256 { 1int } else { 0 }
            }),
            *final(self) == advance(*old(self), 2),
    {
        let base = self.read_next_u16(m);
        let high1 = base / 256;
        let address = base.wrapping_add(offset as u16);
        let value = m.read8(address);
        let high2 = address / 256;
        // indexing into the next page takes one more cycle to fix the high byte
        let extra_clock = if high1 == high2 { 0 } else { 1 };
        AddrValueClock { address, value, base, extra_clock }
    }

    fn zero_page_fixed<M: Memory>(&mut self, m: &mut M) -> (r: AddrValue)
        ensures
            old(m).wf() ==> final(m).wf(),
            fetched(
                *old(self),
                Mode::ZeroPage,
                old(m).ops(),
                final(m).ops(),
                *final(self),
                r.address,
                r.value,
            ),
    {
        let address = self.read_next_u8(m) as u16;
        let value = m.read8(address);
        AddrValue { address, value }
    }

    fn zero_page_x<M: Memory>(&mut self, m: &mut M) -> (r: AddrValue)
        ensures
            old(m).wf() ==> final(m).wf(),
            fetched(
                *old(self),
                Mode::ZeroPageX,
                old(m).ops(),
                final(m).ops(),
                *final(self),
                r.address,
                r.value,
            ),
    {
        let address = ((self.read_next_u8(m) as u16) + (self.x as u16)) % 256;
        let value = m.read8(address);
        AddrValue { address, value }
    }

    fn zero_page_y<M: Memory>(&mut self, m: &mut M) -> (r: AddrValue)
        ensures
            old(m).wf() ==> final(m).wf(),
            fetched(
                *old(self),
                Mode::ZeroPageY,
                old(m).ops(),
                final(m).ops(),
                *final(self),
                r.address,
                r.value,
            ),
    {
        let address = ((self.read_next_u8(m) as u16) + (self.y as u16)) % 256;
        let value = m.read8(address);
        AddrValue { address, value }
    }

    fn zero_page_indirect_x<M: Memory>(&mut self, m: &mut M) -> (r: AddrValue)
        ensures
            old(m).wf() ==> final(m).wf(),
            fetched(
                *old(self),
                Mode::IndirectX,
                old(m).ops(),
                final(m).ops(),
                *final(self),
                r.address,
                r.value,
            ),
    {
        let offset = self.read_next_u8(m);
        let address = self.zero_page_indirect(m, offset, self.x);
        let value = m.read8(address);
        AddrValue { address, value }
    }

    fn zero_page_indirect_y<M: Memory>(&mut self, m: &mut M) -> (r: AddrValueClock)
        ensures
            old(m).wf() ==> final(m).wf(),
            fetched(
                *old(self),
                Mode::IndirectY,
                old(m).ops(),
                final(m).ops(),
                *final(self),
                r.address,
                r.value,
            ),
            r.base == base_address(*old(self), Mode::IndirectY, final(m).ops(), old(m).ops().len() as int),
            r.extra_clock == penalty(*old(self), Mode::IndirectY, final(m).ops(), old(m).ops().len() as int),
    {
        let offset = self.read_next_u8(m);
        let base = self.zero_page_indirect(m, offset, 0);
        let high1 = base / 256;
        let address = base.wrapping_add(self.y as u16);
        let value = m.read8(address);
        let high2 = address / 256;
        // indexing into the next page takes one more cycle to fix the high byte
        let extra_clock = if high1 == high2 { 0 } else { 1 };
        AddrValueClock { address, value, base, extra_clock }
    }

    /// Reads a pointer from page zero at `offset1 + offset2`; both of its bytes stay in page zero.
    fn zero_page_indirect<M: Memory>(&mut self, m: &mut M, offset1: u8, offset2: u8) -> (r: u16)
        ensures
            old(m).wf() ==> final(m).wf(),
            ({
                let t = final(m).ops();
                let n = old(m).ops().len() as int;
                &&& appended(old(m).ops(), t, 2)
                &&& read_at(t, n, zero_page(offset1 + offset2))
                &&& read_at(t, n + 1, zero_page(offset1 + offset2 + 1))
                &&& r == join(t[n].value(), t[n + 1].value())
            }),
            *final(self) == *old(self),
    {
        let new_offset = ((offset1 as u16) + (offset2 as u16)) % 256;
        let result_low = m.read8(new_offset);
        let result_high = m.read8((new_offset + 1) % 256);
        Word { low: result_low, high: result_high }.to_u16()
    }

    /// A + value + carry_in into A, with NEGATIVE, ZERO, CARRY and OVERFLOW.
    fn add_to_a(&mut self, value: u8, carry: u8)
        requires
            carry <= 1,
        ensures
            *final(self) == adc_result(*old(self), value, carry as int),
    {
        let sum: u16 = (self.a as u16) + (value as u16) + (carry as u16);
        let r = (sum % 256) as u8;
        let old_a = self.a;
        self.a = r;
        self.flags.set_nz(r);
        self.flags.set(CARRY, sum >= 0x100);
        self.flags.set(
            OVERFLOW,
            (old_a >= 0x80) == (value >= 0x80) && (old_a >= 0x80) != (r >= 0x80),
        );
    }

    fn carry_bit(&self) -> (r: u8)
        ensures
            r == carry_in(*self),
    {
        if self.flags.contains(CARRY) {
            1
        } else {
            0
        }
    }

    fn tick(&mut self, clock: u64)
        requires
            old(self).clock <= CLOCK_LIMIT,
            clock <= 8,
        ensures
            *final(self) == tick(*old(self), clock as int),
    {
        self.clock = self.clock + clock;
    }

    fn ora_common(&mut self, value: u8, clock: u64)
        requires
            old(self).clock <= CLOCK_LIMIT,
            clock <= 8,
        ensures
            *final(self) == tick(read_result(Op::Ora, *old(self), value), clock as int),
    {
        self.a = self.a | value;
        self.flags.set_nz(self.a);
        self.tick(clock);
    }

    fn and_common(&mut self, value: u8, clock: u64)
        requires
            old(self).clock <= CLOCK_LIMIT,
            clock <= 8,
        ensures
            *final(self) == tick(read_result(Op::And, *old(self), value), clock as int),
    {
        self.a = self.a & value;
        self.flags.set_nz(self.a);
        self.tick(clock);
    }

    fn eor_common(&mut self, value: u8, clock: u64)
        requires
            old(self).clock <= CLOCK_LIMIT,
            clock <= 8,
        ensures
            *final(self) == tick(read_result(Op::Eor, *old(self), value), clock as int),
    {
        self.a = self.a ^ value;
        self.flags.set_nz(self.a);
        self.tick(clock);
    }

    fn adc_common(&mut self, value: u8, clock: u64)
        requires
            old(self).clock <= CLOCK_LIMIT,
            clock <= 8,
        ensures
            *final(self) == tick(read_result(Op::Adc, *old(self), value), clock as int),
    {
        let carry = self.carry_bit();
        self.add_to_a(value, carry);
        self.tick(clock);
    }

    /// Subtraction adds the complement of `value`; the carry is the inverted borrow.
    fn sbc_common(&mut self, value: u8, clock: u64)
        requires
            old(self).clock <= CLOCK_LIMIT,
            clock <= 8,
        ensures
            *final(self) == tick(read_result(Op::Sbc, *old(self), value), clock as int),
    {
        let carry = self.carry_bit();
        self.add_to_a(0xff - value, carry);
        self.tick(clock);
    }

    fn compare(&mut self, register: u8, value: u8)
        ensures
            *final(self) == compare_result(*old(self), register, value),
    {
        let r = register.wrapping_sub(value);
        self.flags.set_nz(r);
        self.flags.set(CARRY, register >= value);
    }

    fn cmp_common(&mut self, value: u8, clock: u64)
        requires
            old(self).clock <= CLOCK_LIMIT,
            clock <= 8,
        ensures
            *final(self) == tick(read_result(Op::Cmp, *old(self), value), clock as int),
    {
        self.compare(self.a, value);
        self.tick(clock);
    }

    fn cpx_common(&mut self, value: u8, clock: u64)
        requires
            old(self).clock <= CLOCK_LIMIT,
            clock <= 8,
        ensures
            *final(self) == tick(read_result(Op::Cpx, *old(self), value), clock as int),
    {
        self.compare(self.x, value);
        self.tick(clock);
    }

    fn cpy_common(&mut self, value: u8, clock: u64)
        requires
            old(self).clock <= CLOCK_LIMIT,
            clock <= 8,
        ensures
            *final(self) == tick(read_result(Op::Cpy, *old(self), value), clock as int),
    {
        self.compare(self.y, value);
        self.tick(clock);
    }

    fn bit_common(&mut self, value: u8, clock: u64)
        requires
            old(self).clock <= CLOCK_LIMIT,
            clock <= 8,
        ensures
            *final(self) == tick(read_result(Op::Bit, *old(self), value), clock as int),
    {
        self.flags.set(OVERFLOW, value & 0x40 != 0);
        self.flags.set(NEGATIVE, value >= 0x80);
        self.flags.set(ZERO, value & self.a == 0);
        self.tick(clock);
    }

    fn lda_common(&mut self, value: u8, clock: u64)
        requires
            old(self).clock <= CLOCK_LIMIT,
            clock <= 8,
        ensures
            *final(self) == tick(read_result(Op::Lda, *old(self), value), clock as int),
    {
        self.a = value;
        self.flags.set_nz(value);
        self.tick(clock);
    }

    fn ldx_common(&mut self, value: u8, clock: u64)
        requires
            old(self).clock <= CLOCK_LIMIT,
            clock <= 8,
        ensures
            *final(self) == tick(read_result(Op::Ldx, *old(self), value), clock as int),
    {
        self.x = value;
        self.flags.set_nz(value);
        self.tick(clock);
    }

    fn ldy_common(&mut self, value: u8, clock: u64)
        requires
            old(self).clock <= CLOCK_LIMIT,
            clock <= 8,
        ensures
            *final(self) == tick(read_result(Op::Ldy, *old(self), value), clock as int),
    {
        self.y = value;
        self.flags.set_nz(value);
        self.tick(clock);
    }

    fn lax_common(&mut self, value: u8, clock: u64)
        requires
            old(self).clock <= CLOCK_LIMIT,
            clock <= 8,
        ensures
            *final(self) == tick(read_result(Op::Lax, *old(self), value), clock as int),
    {
        self.a = value;
        self.x = value;
        self.flags.set_nz(value);
        self.tick(clock);
    }

    fn sta_common(&mut self, clock: u64) -> (r: u8)
        requires
            old(self).clock <= CLOCK_LIMIT,
            clock <= 8,
        ensures
            r == old(self).a,
            *final(self) == tick(*old(self), clock as int),
    {
        self.tick(clock);
        self.a
    }

    fn sax_common(&mut self, clock: u64) -> (r: u8)
        requires
            old(self).clock <= CLOCK_LIMIT,
            clock <= 8,
        ensures
            r == old(self).a & old(self).x,
            *final(self) == tick(*old(self), clock as int),
    {
        self.tick(clock);
        self.a & self.x
    }

    fn stx_common(&mut self, clock: u64) -> (r: u8)
        requires
            old(self).clock <= CLOCK_LIMIT,
            clock <= 8,
        ensures
            r == old(self).x,
            *final(self) == tick(*old(self), clock as int),
    {
        self.tick(clock);
        self.x
    }

    fn sty_common(&mut self, clock: u64) -> (r: u8)
        requires
            old(self).clock <= CLOCK_LIMIT,
            clock <= 8,
        ensures
            r == old(self).y,
            *final(self) == tick(*old(self), clock as int),
    {
        self.tick(clock);
        self.y
    }

    /// The read-modify-write core shared by ASL and SLO: the byte shifted left.
    fn shift_left(&self, value: u8) -> (r: u8)
        ensures
            r == wrap8(2 * value),
    {
        if value >= 0x80 {
            (value - 0x80) * 2
        } else {
            value * 2
        }
    }

    /// The byte rotated left through the carry, as ROL and RLA write it.
    fn rotate_left(&self, value: u8) -> (r: u8)
        ensures
            r == modified(Op::Rol, *self, value),
    {
        let carry = self.carry_bit();
        if value >= 0x80 {
            (value - 0x80) * 2 + carry
        } else {
            value * 2 + carry
        }
    }

    /// The byte rotated right through the carry, as ROR and RRA write it.
    fn rotate_right(&self, value: u8) -> (r: u8)
        ensures
            r == modified(Op::Ror, *self, value),
    {
        value / 2 + if self.flags.contains(CARRY) {
            0x80
        } else {
            0
        }
    }

    fn asl_common<M: Memory>(&mut self, m: &mut M, address: u16, value: u8, clock: u64)
        requires
            old(self).clock <= CLOCK_LIMIT,
            clock <= 8,
        ensures
            old(m).wf() ==> final(m).wf(),
            final(m).ops() == old(m).ops().push(
                BusOp::Write { address, value: modified(Op::Asl, *old(self), value) },
            ),
            *final(self) == tick(modify_result(Op::Asl, *old(self), value), clock as int),
    {
        let new_value = self.shift_left(value);
        m.write8(address, new_value);
        self.flags.set_nz(new_value);
        self.flags.set(CARRY, value >= 0x80);
        self.tick(clock);
    }

    fn asl(&mut self)
        requires
            old(self).clock <= CLOCK_LIMIT,
        ensures
            *final(self) == tick(implied_result(Op::Asl, *old(self)), 2),
    {
        let value = self.a;
        let new_value = self.shift_left(value);
        self.a = new_value;
        self.flags.set_nz(new_value);
        self.flags.set(CARRY, value >= 0x80);
        self.tick(2);
    }

    fn slo_common<M: Memory>(&mut self, m: &mut M, address: u16, value: u8, clock: u64)
        requires
            old(self).clock <= CLOCK_LIMIT,
            clock <= 8,
        ensures
            old(m).wf() ==> final(m).wf(),
            final(m).ops() == old(m).ops().push(
                BusOp::Write { address, value: modified(Op::Slo, *old(self), value) },
            ),
            *final(self) == tick(modify_result(Op::Slo, *old(self), value), clock as int),
    {
        let new_value = self.shift_left(value);
        m.write8(address, new_value);
        self.a = self.a | new_value;
        self.flags.set_nz(self.a);
        self.flags.set(CARRY, value >= 0x80);
        self.tick(clock);
    }

    fn rol_common(&mut self, value: u8, clock: u64) -> (r: u8)
        requires
            old(self).clock <= CLOCK_LIMIT,
            clock <= 8,
        ensures
            r == modified(Op::Rol, *old(self), value),
            *final(self) == tick(modify_result(Op::Rol, *old(self), value), clock as int),
    {
        let new_value = self.rotate_left(value);
        self.flags.set_nz(new_value);
        self.flags.set(CARRY, value >= 0x80);
        self.tick(clock);
        new_value
    }

    fn rol(&mut self)
        requires
            old(self).clock <= CLOCK_LIMIT,
        ensures
            *final(self) == tick(implied_result(Op::Rol, *old(self)), 2),
    {
        self.a = self.rol_common(self.a, 2);
    }

    fn rla_common<M: Memory>(&mut self, m: &mut M, address: u16, value: u8, clock: u64)
        requires
            old(self).clock <= CLOCK_LIMIT,
            clock <= 8,
        ensures
            old(m).wf() ==> final(m).wf(),
            final(m).ops() == old(m).ops().push(
                BusOp::Write { address, value: modified(Op::Rla, *old(self), value) },
            ),
            *final(self) == tick(modify_result(Op::Rla, *old(self), value), clock as int),
    {
        let new_value = self.rotate_left(value);
        m.write8(address, new_value);
        self.a = self.a & new_value;
        self.flags.set_nz(self.a);
        self.flags.set(CARRY, value >= 0x80);
        self.tick(clock);
    }

    fn lsr_common(&mut self, value: u8, clock: u64) -> (r: u8)
        requires
            old(self).clock <= CLOCK_LIMIT,
            clock <= 8,
        ensures
            r == modified(Op::Lsr, *old(self), value),
            *final(self) == tick(modify_result(Op::Lsr, *old(self), value), clock as int),
    {
        let new_value = value / 2;
        self.flags.set_nz(new_value);
        self.flags.set(CARRY, value % 2 == 1);
        self.tick(clock);
        new_value
    }

    fn lsr(&mut self)
        requires
            old(self).clock <= CLOCK_LIMIT,
        ensures
            *final(self) == tick(implied_result(Op::Lsr, *old(self)), 2),
    {
        self.a = self.lsr_common(self.a, 2);
    }

    fn sre_common<M: Memory>(&mut self, m: &mut M, address: u16, value: u8, clock: u64)
        requires
            old(self).clock <= CLOCK_LIMIT,
            clock <= 8,
        ensures
            old(m).wf() ==> final(m).wf(),
            final(m).ops() == old(m).ops().push(
                BusOp::Write { address, value: modified(Op::Sre, *old(self), value) },
            ),
            *final(self) == tick(modify_result(Op::Sre, *old(self), value), clock as int),
    {
        let new_value = value / 2;
        m.write8(address, new_value);
        self.a = self.a ^ new_value;
        self.flags.set_nz(self.a);
        self.flags.set(CARRY, value % 2 == 1);
        self.tick(clock);
    }

    fn ror_common(&mut self, value: u8, clock: u64) -> (r: u8)
        requires
            old(self).clock <= CLOCK_LIMIT,
            clock <= 8,
        ensures
            r == modified(Op::Ror, *old(self), value),
            *final(self) == tick(modify_result(Op::Ror, *old(self), value), clock as int),
    {
        let new_value = self.rotate_right(value);
        self.flags.set_nz(new_value);
        self.flags.set(CARRY, value % 2 == 1);
        self.tick(clock);
        new_value
    }

    fn ror(&mut self)
        requires
            old(self).clock <= CLOCK_LIMIT,
        ensures
            *final(self) == tick(implied_result(Op::Ror, *old(self)), 2),
    {
        self.a = self.ror_common(self.a, 2);
    }

    /// ROR on memory, then ADC of the rotated byte with the bit that the rotation shifted out.
    fn rra_common(&mut self, value: u8, clock: u64) -> (r: u8)
        requires
            old(self).clock <= CLOCK_LIMIT,
            clock <= 8,
        ensures
            r == modified(Op::Rra, *old(self), value),
            *final(self) == tick(modify_result(Op::Rra, *old(self), value), clock as int),
    {
        let ror_new_value = self.rotate_right(value);
        self.add_to_a(ror_new_value, value % 2);
        self.tick(clock);
        ror_new_value
    }

    fn inc_common(&mut self, value: u8, clock: u64) -> (r: u8)
        requires
            old(self).clock <= CLOCK_LIMIT,
            clock <= 8,
        ensures
            r == modified(Op::Inc, *old(self), value),
            *final(self) == tick(modify_result(Op::Inc, *old(self), value), clock as int),
    {
        let new_value = value.wrapping_add(1);
        self.flags.set_nz(new_value);
        self.tick(clock);
        new_value
    }

    fn dec_common(&mut self, value: u8, clock: u64) -> (r: u8)
        requires
            old(self).clock <= CLOCK_LIMIT,
            clock <= 8,
        ensures
            r == modified(Op::Dec, *old(self), value),
            *final(self) == tick(modify_result(Op::Dec, *old(self), value), clock as int),
    {
        let new_value = value.wrapping_sub(1);
        self.flags.set_nz(new_value);
        self.tick(clock);
        new_value
    }

    /// DEC on memory, then CMP of A with the decremented byte.
    fn dcp_common(&mut self, value: u8, clock: u64) -> (r: u8)
        requires
            old(self).clock <= CLOCK_LIMIT,
            clock <= 8,
        ensures
            r == modified(Op::Dcp, *old(self), value),
            *final(self) == tick(modify_result(Op::Dcp, *old(self), value), clock as int),
    {
        let dec_value = value.wrapping_sub(1);
        self.compare(self.a, dec_value);
        self.tick(clock);
        dec_value
    }

    /// INC on memory, then SBC of the incremented byte.
    fn isc_common(&mut self, value: u8, clock: u64) -> (r: u8)
        requires
            old(self).clock <= CLOCK_LIMIT,
            clock <= 8,
        ensures
            r == modified(Op::Isc, *old(self), value),
            *final(self) == tick(modify_result(Op::Isc, *old(self), value), clock as int),
    {
        let inc_value = value.wrapping_add(1);
        let carry = self.carry_bit();
        self.add_to_a(0xff - inc_value, carry);
        self.tick(clock);
        inc_value
    }

    fn ora_zero_page_indirect_x<M: Memory>(&mut self, m: &mut M)
        requires
            old(self).clock <= CLOCK_LIMIT,
        ensures
            old(m).wf() ==> final(m).wf(),
            executes(*old(self), ins(Op::Ora, Mode::IndirectX, 6), old(m).ops(), final(m).ops(), *final(self)),
    {
        proof {
            reveal(executes);
        }
        let r = self.zero_page_indirect_x(m);
        self.ora_common(r.value, 6);
    }

    fn slo_zero_page_indirect_x<M: Memory>(&mut self, m: &mut M)
        requires
            old(self).clock <= CLOCK_LIMIT,
        ensures
            old(m).wf() ==> final(m).wf(),
            executes(*old(self), ins(Op::Slo, Mode::IndirectX, 8), old(m).ops(), final(m).ops(), *final(self)),
    {
        proof {
            reveal(executes);
        }
        let r = self.zero_page_indirect_x(m);
        self.slo_common(m, r.address, r.value, 8);
    }

    fn ora_zero_page_fixed<M: Memory>(&mut self, m: &mut M)
        requires
            old(self).clock <= CLOCK_LIMIT,
        ensures
            old(m).wf() ==> final(m).wf(),
            executes(*old(self), ins(Op::Ora, Mode::ZeroPage, 3), old(m).ops(), final(m).ops(), *final(self)),
    {
        proof {
            reveal(executes);
        }
        let r = self.zero_page_fixed(m);
        self.ora_common(r.value, 3);
    }

    fn asl_zero_page_fixed<M: Memory>(&mut self, m: &mut M)
        requires
            old(self).clock <= CLOCK_LIMIT,
        ensures
            old(m).wf() ==> final(m).wf(),
            executes(*old(self), ins(Op::Asl, Mode::ZeroPage, 5), old(m).ops(), final(m).ops(), *final(self)),
    {
        proof {
            reveal(executes);
        }
        let r = self.zero_page_fixed(m);
        self.asl_common(m, r.address, r.value, 5);
    }

    fn slo_zero_page_immediate<M: Memory>(&mut self, m: &mut M)
        requires
            old(self).clock <= CLOCK_LIMIT,
        ensures
            old(m).wf() ==> final(m).wf(),
            executes(*old(self), ins(Op::Slo, Mode::ZeroPage, 5), old(m).ops(), final(m).ops(), *final(self)),
    {
        proof {
            reveal(executes);
        }
        let r = self.zero_page_fixed(m);
        self.slo_common(m, r.address, r.value, 5);
    }

    fn ora_immediate<M: Memory>(&mut self, m: &mut M)
        requires
            old(self).clock <= CLOCK_LIMIT,
        ensures
            old(m).wf() ==> final(m).wf(),
            executes(*old(self), ins(Op::Ora, Mode::Immediate, 2), old(m).ops(), final(m).ops(), *final(self)),
    {
        proof {
            reveal(executes);
        }
        let value = self.read_next_u8(m);
        self.ora_common(value, 2);
    }

    fn ora_absolute<M: Memory>(&mut self, m: &mut M)
        requires
            old(self).clock <= CLOCK_LIMIT,
        ensures
            old(m).wf() ==> final(m).wf(),
            executes(*old(self), ins(Op::Ora, Mode::Absolute, 4), old(m).ops(), final(m).ops(), *final(self)),
    {
        proof {
            reveal(executes);
        }
        let r = self.absolute(m);
        self.ora_common(r.value, 4);
    }

    fn asl_absolute<M: Memory>(&mut self, m: &mut M)
        requires
            old(self).clock <= CLOCK_LIMIT,
        ensures
            old(m).wf() ==> final(m).wf(),
            executes(*old(self), ins(Op::Asl, Mode::Absolute, 6), old(m).ops(), final(m).ops(), *final(self)),
    {
        proof {
            reveal(executes);
        }
        let r = self.absolute(m);
        self.asl_common(m, r.address, r.value, 6);
    }

    fn slo_absolute<M: Memory>(&mut self, m: &mut M)
        requires
            old(self).clock <= CLOCK_LIMIT,
        ensures
            old(m).wf() ==> final(m).wf(),
            executes(*old(self), ins(Op::Slo, Mode::Absolute, 6), old(m).ops(), final(m).ops(), *final(self)),
    {
        proof {
            reveal(executes);
        }
        let r = self.absolute(m);
        self.slo_common(m, r.address, r.value, 6);
    }

    fn ora_zero_page_indirect_y<M: Memory>(&mut self, m: &mut M)
        requires
            old(self).clock <= CLOCK_LIMIT,
        ensures
            old(m).wf() ==> final(m).wf(),
            executes(*old(self), ins(Op::Ora, Mode::IndirectY, 5), old(m).ops(), final(m).ops(), *final(self)),
    {
        proof {
            reveal(executes);
        }
        let r = self.zero_page_indirect_y(m);
        self.ora_common(r.value, 5 + r.extra_clock);
    }

    fn slo_zero_page_indirect_y<M: Memory>(&mut self, m: &mut M)
        requires
            old(self).clock <= CLOCK_LIMIT,
        ensures
            old(m).wf() ==> final(m).wf(),
            executes(*old(self), ins(Op::Slo, Mode::IndirectY, 8), old(m).ops(), final(m).ops(), *final(self)),
    {
        proof {
            reveal(executes);
        }
        let r = self.zero_page_indirect_y(m);
        self.slo_common(m, r.address, r.value, 8);
    }

    fn ora_zero_page_x<M: Memory>(&mut self, m: &mut M)
        requires
            old(self).clock <= CLOCK_LIMIT,
        ensures
            old(m).wf() ==> final(m).wf(),
            executes(*old(self), ins(Op::Ora, Mode::ZeroPageX, 4), old(m).ops(), final(m).ops(), *final(self)),
    {
        proof {
            reveal(executes);
        }
        let r = self.zero_page_x(m);
        self.ora_common(r.value, 4);
    }

    fn asl_zero_page_x<M: Memory>(&mut self, m: &mut M)
        requires
            old(self).clock <= CLOCK_LIMIT,
        ensures
            old(m).wf() ==> final(m).wf(),
            executes(*old(self), ins(Op::Asl, Mode::ZeroPageX, 6), old(m).ops(), final(m).ops(), *final(self)),
    {
        proof {
            reveal(executes);
        }
        let r = self.zero_page_x(m);
        self.asl_common(m, r.address, r.value, 6);
    }

    fn slo_zero_page_x<M: Memory>(&mut self, m: &mut M)
        requires
            old(self).clock <= CLOCK_LIMIT,
        ensures
            old(m).wf() ==> final(m).wf(),
            executes(*old(self), ins(Op::Slo, Mode::ZeroPageX, 6), old(m).ops(), final(m).ops(), *final(self)),
    {
        proof {
            reveal(executes);
        }
        let r = self.zero_page_x(m);
        self.slo_common(m, r.address, r.value, 6);
    }

    fn ora_absolute_y<M: Memory>(&mut self, m: &mut M)
        requires
            old(self).clock <= CLOCK_LIMIT,
        ensures
            old(m).wf() ==> final(m).wf(),
            executes(*old(self), ins(Op::Ora, Mode::AbsoluteY, 4), old(m).ops(), final(m).ops(), *final(self)),
    {
        proof {
            reveal(executes);
        }
        let r = self.absolute_y(m);
        self.ora_common(r.value, 4 + r.extra_clock);
    }

    fn slo_absolute_y<M: Memory>(&mut self, m: &mut M)
        requires
            old(self).clock <= CLOCK_LIMIT,
        ensures
            old(m).wf() ==> final(m).wf(),
            executes(*old(self), ins(Op::Slo, Mode::AbsoluteY, 7), old(m).ops(), final(m).ops(), *final(self)),
    {
        proof {
            reveal(executes);
        }
        let r = self.absolute_y(m);
        self.slo_common(m, r.address, r.value, 7);
    }

    fn ora_absolute_x<M: Memory>(&mut self, m: &mut M)
        requires
            old(self).clock <= CLOCK_LIMIT,
        ensures
            old(m).wf() ==> final(m).wf(),
            executes(*old(self), ins(Op::Ora, Mode::AbsoluteX, 4), old(m).ops(), final(m).ops(), *final(self)),
    {
        proof {
            reveal(executes);
        }
        let r = self.absolute_x(m);
        self.ora_common(r.value, 4 + r.extra_clock);
    }

    fn asl_absolute_x<M: Memory>(&mut self, m: &mut M)
        requires
            old(self).clock <= CLOCK_LIMIT,
        ensures
            old(m).wf() ==> final(m).wf(),
            executes(*old(self), ins(Op::Asl, Mode::AbsoluteX, 7), old(m).ops(), final(m).ops(), *final(self)),
    {
        proof {
            reveal(executes);
        }
        let r = self.absolute_x(m);
        self.asl_common(m, r.address, r.value, 7);
    }

    fn slo_absolute_x<M: Memory>(&mut self, m: &mut M)
        requires
            old(self).clock <= CLOCK_LIMIT,
        ensures
            old(m).wf() ==> final(m).wf(),
            executes(*old(self), ins(Op::Slo, Mode::AbsoluteX, 7), old(m).ops(), final(m).ops(), *final(self)),
    {
        proof {
            reveal(executes);
        }
        let r = self.absolute_x(m);
        self.slo_common(m, r.address, r.value, 7);
    }

    fn and_zero_page_indirect_x<M: Memory>(&mut self, m: &mut M)
        requires
            old(self).clock <= CLOCK_LIMIT,
        ensures
            old(m).wf() ==> final(m).wf(),
            executes(*old(self), ins(Op::And, Mode::IndirectX, 6), old(m).ops(), final(m).ops(), *final(self)),
    {
        proof {
            reveal(executes);
        }
        let r = self.zero_page_indirect_x(m);
        self.and_common(r.value, 6);
    }

    fn rla_zero_page_indirect_x<M: Memory>(&mut self, m: &mut M)
        requires
            old(self).clock <= CLOCK_LIMIT,
        ensures
            old(m).wf() ==> final(m).wf(),
            executes(*old(self), ins(Op::Rla, Mode::IndirectX, 8), old(m).ops(), final(m).ops(), *final(self)),
    {
        proof {
            reveal(executes);
        }
        let r = self.zero_page_indirect_x(m);
        self.rla_common(m, r.address, r.value, 8);
    }

    fn bit_zero_page_immediate<M: Memory>(&mut self, m: &mut M)
        requires
            old(self).clock <= CLOCK_LIMIT,
        ensures
            old(m).wf() ==> final(m).wf(),
            executes(*old(self), ins(Op::Bit, Mode::ZeroPage, 3), old(m).ops(), final(m).ops(), *final(self)),
    {
        proof {
            reveal(executes);
        }
        let r = self.zero_page_fixed(m);
        self.bit_common(r.value, 3);
    }

    fn and_zero_page<M: Memory>(&mut self, m: &mut M)
        requires
            old(self).clock <= CLOCK_LIMIT,
        ensures
            old(m).wf() ==> final(m).wf(),
            executes(*old(self), ins(Op::And, Mode::ZeroPage, 3), old(m).ops(), final(m).ops(), *final(self)),
    {
        proof {
            reveal(executes);
        }
        let r = self.zero_page_fixed(m);
        self.and_common(r.value, 3);
    }

    fn rol_zero_page<M: Memory>(&mut self, m: &mut M)
        requires
            old(self).clock <= CLOCK_LIMIT,
        ensures
            old(m).wf() ==> final(m).wf(),
            executes(*old(self), ins(Op::Rol, Mode::ZeroPage, 5), old(m).ops(), final(m).ops(), *final(self)),
    {
        proof {
            reveal(executes);
        }
        let r = self.zero_page_fixed(m);
        let new_value = self.rol_common(r.value, 5);
        m.write8(r.address, new_value);
    }

    fn rla_zero_page<M: Memory>(&mut self, m: &mut M)
        requires
            old(self).clock <= CLOCK_LIMIT,
        ensures
            old(m).wf() ==> final(m).wf(),
            executes(*old(self), ins(Op::Rla, Mode::ZeroPage, 5), old(m).ops(), final(m).ops(), *final(self)),
    {
        proof {
            reveal(executes);
        }
        let r = self.zero_page_fixed(m);
        self.rla_common(m, r.address, r.value, 5);
    }

    fn and_immediate<M: Memory>(&mut self, m: &mut M)
        requires
            old(self).clock <= CLOCK_LIMIT,
        ensures
            old(m).wf() ==> final(m).wf(),
            executes(*old(self), ins(Op::And, Mode::Immediate, 2), old(m).ops(), final(m).ops(), *final(self)),
    {
        proof {
            reveal(executes);
        }
        let value = self.read_next_u8(m);
        self.and_common(value, 2);
    }

    fn bit_absolute<M: Memory>(&mut self, m: &mut M)
        requires
            old(self).clock <= CLOCK_LIMIT,
        ensures
            old(m).wf() ==> final(m).wf(),
            executes(*old(self), ins(Op::Bit, Mode::Absolute, 4), old(m).ops(), final(m).ops(), *final(self)),
    {
        proof {
            reveal(executes);
        }
        let r = self.absolute(m);
        self.bit_common(r.value, 4);
    }

    fn and_absolute<M: Memory>(&mut self, m: &mut M)
        requires
            old(self).clock <= CLOCK_LIMIT,
        ensures
            old(m).wf() ==> final(m).wf(),
            executes(*old(self), ins(Op::And, Mode::Absolute, 4), old(m).ops(), final(m).ops(), *final(self)),
    {
        proof {
            reveal(executes);
        }
        let r = self.absolute(m);
        self.and_common(r.value, 4);
    }

    fn rol_absolute<M: Memory>(&mut self, m: &mut M)
        requires
            old(self).clock <= CLOCK_LIMIT,
        ensures
            old(m).wf() ==> final(m).wf(),
            executes(*old(self), ins(Op::Rol, Mode::Absolute, 6), old(m).ops(), final(m).ops(), *final(self)),
    {
        proof {
            reveal(executes);
        }
        let r = self.absolute(m);
        let new_value = self.rol_common(r.value, 6);
        m.write8(r.address, new_value);
    }

    fn rla_absolute<M: Memory>(&mut self, m: &mut M)
        requires
            old(self).clock <= CLOCK_LIMIT,
        ensures
            old(m).wf() ==> final(m).wf(),
            executes(*old(self), ins(Op::Rla, Mode::Absolute, 6), old(m).ops(), final(m).ops(), *final(self)),
    {
        proof {
            reveal(executes);
        }
        let r = self.absolute(m);
        self.rla_common(m, r.address, r.value, 6);
    }

    fn and_zero_page_indirect_y<M: Memory>(&mut self, m: &mut M)
        requires
            old(self).clock <= CLOCK_LIMIT,
        ensures
            old(m).wf() ==> final(m).wf(),
            executes(*old(self), ins(Op::And, Mode::IndirectY, 5), old(m).ops(), final(m).ops(), *final(self)),
    {
        proof {
            reveal(executes);
        }
        let r = self.zero_page_indirect_y(m);
        self.and_common(r.value, 5 + r.extra_clock);
    }

    fn rla_zero_page_indirect_y<M: Memory>(&mut self, m: &mut M)
        requires
            old(self).clock <= CLOCK_LIMIT,
        ensures
            old(m).wf() ==> final(m).wf(),
            executes(*old(self), ins(Op::Rla, Mode::IndirectY, 8), old(m).ops(), final(m).ops(), *final(self)),
    {
        proof {
            reveal(executes);
        }
        let r = self.zero_page_indirect_y(m);
        self.rla_common(m, r.address, r.value, 8);
    }

    fn and_zero_page_x<M: Memory>(&mut self, m: &mut M)
        requires
            old(self).clock <= CLOCK_LIMIT,
        ensures
            old(m).wf() ==> final(m).wf(),
            executes(*old(self), ins(Op::And, Mode::ZeroPageX, 4), old(m).ops(), final(m).ops(), *final(self)),
    {
        proof {
            reveal(executes);
        }
        let r = self.zero_page_x(m);
        self.and_common(r.value, 4);
    }

    fn rol_zero_page_x<M: Memory>(&mut self, m: &mut M)
        requires
            old(self).clock <= CLOCK_LIMIT,
        ensures
            old(m).wf() ==> final(m).wf(),
            executes(*old(self), ins(Op::Rol, Mode::ZeroPageX, 6), old(m).ops(), final(m).ops(), *final(self)),
    {
        proof {
            reveal(executes);
        }
        let r = self.zero_page_x(m);
        let new_value = self.rol_common(r.value, 6);
        m.write8(r.address, new_value);
    }

    fn rla_zero_page_x<M: Memory>(&mut self, m: &mut M)
        requires
            old(self).clock <= CLOCK_LIMIT,
        ensures
            old(m).wf() ==> final(m).wf(),
            executes(*old(self), ins(Op::Rla, Mode::ZeroPageX, 6), old(m).ops(), final(m).ops(), *final(self)),
    {
        proof {
            reveal(executes);
        }
        let r = self.zero_page_x(m);
        self.rla_common(m, r.address, r.value, 6);
    }

    fn and_absolute_y<M: Memory>(&mut self, m: &mut M)
        requires
            old(self).clock <= CLOCK_LIMIT,
        ensures
            old(m).wf() ==> final(m).wf(),
            executes(*old(self), ins(Op::And, Mode::AbsoluteY, 4), old(m).ops(), final(m).ops(), *final(self)),
    {
        proof {
            reveal(executes);
        }
        let r = self.absolute_y(m);
        self.and_common(r.value, 4 + r.extra_clock);
    }

    fn rla_absolute_y<M: Memory>(&mut self, m: &mut M)
        requires
            old(self).clock <= CLOCK_LIMIT,
        ensures
            old(m).wf() ==> final(m).wf(),
            executes(*old(self), ins(Op::Rla, Mode::AbsoluteY, 7), old(m).ops(), final(m).ops(), *final(self)),
    {
        proof {
            reveal(executes);
        }
        let r = self.absolute_y(m);
        self.rla_common(m, r.address, r.value, 7);
    }

    fn and_absolute_x<M: Memory>(&mut self, m: &mut M)
        requires
            old(self).clock <= CLOCK_LIMIT,
        ensures
            old(m).wf() ==> final(m).wf(),
            executes(*old(self), ins(Op::And, Mode::AbsoluteX, 4), old(m).ops(), final(m).ops(), *final(self)),
    {
        proof {
            reveal(executes);
        }
        let r = self.absolute_x(m);
        self.and_common(r.value, 4 + r.extra_clock);
    }

    fn rol_absolute_x<M: Memory>(&mut self, m: &mut M)
        requires
            old(self).clock <= CLOCK_LIMIT,
        ensures
            old(m).wf() ==> final(m).wf(),
            executes(*old(self), ins(Op::Rol, Mode::AbsoluteX, 7), old(m).ops(), final(m).ops(), *final(self)),
    {
        proof {
            reveal(executes);
        }
        let r = self.absolute_x(m);
        let new_value = self.rol_common(r.value, 7);
        m.write8(r.address, new_value);
    }

    fn rla_absolute_x<M: Memory>(&mut self, m: &mut M)
        requires
            old(self).clock <= CLOCK_LIMIT,
        ensures
            old(m).wf() ==> final(m).wf(),
            executes(*old(self), ins(Op::Rla, Mode::AbsoluteX, 7), old(m).ops(), final(m).ops(), *final(self)),
    {
        proof {
            reveal(executes);
        }
        let r = self.absolute_x(m);
        self.rla_common(m, r.address, r.value, 7);
    }

    fn eor_zero_page_indirect_x<M: Memory>(&mut self, m: &mut M)
        requires
            old(self).clock <= CLOCK_LIMIT,
        ensures
            old(m).wf() ==> final(m).wf(),
            executes(*old(self), ins(Op::Eor, Mode::IndirectX, 6), old(m).ops(), final(m).ops(), *final(self)),
    {
        proof {
            reveal(executes);
        }
        let r = self.zero_page_indirect_x(m);
        self.eor_common(r.value, 6);
    }

    fn sre_zero_page_indirect_x<M: Memory>(&mut self, m: &mut M)
        requires
            old(self).clock <= CLOCK_LIMIT,
        ensures
            old(m).wf() ==> final(m).wf(),
            executes(*old(self), ins(Op::Sre, Mode::IndirectX, 8), old(m).ops(), final(m).ops(), *final(self)),
    {
        proof {
            reveal(executes);
        }
        let r = self.zero_page_indirect_x(m);
        self.sre_common(m, r.address, r.value, 8);
    }

    fn eor_zero_page<M: Memory>(&mut self, m: &mut M)
        requires
            old(self).clock <= CLOCK_LIMIT,
        ensures
            old(m).wf() ==> final(m).wf(),
            executes(*old(self), ins(Op::Eor, Mode::ZeroPage, 3), old(m).ops(), final(m).ops(), *final(self)),
    {
        proof {
            reveal(executes);
        }
        let r = self.zero_page_fixed(m);
        self.eor_common(r.value, 3);
    }

    fn lsr_zero_page<M: Memory>(&mut self, m: &mut M)
        requires
            old(self).clock <= CLOCK_LIMIT,
        ensures
            old(m).wf() ==> final(m).wf(),
            executes(*old(self), ins(Op::Lsr, Mode::ZeroPage, 5), old(m).ops(), final(m).ops(), *final(self)),
    {
        proof {
            reveal(executes);
        }
        let r = self.zero_page_fixed(m);
        let new_value = self.lsr_common(r.value, 5);
        m.write8(r.address, new_value);
    }

    fn sre_zero_page<M: Memory>(&mut self, m: &mut M)
        requires
            old(self).clock <= CLOCK_LIMIT,
        ensures
            old(m).wf() ==> final(m).wf(),
            executes(*old(self), ins(Op::Sre, Mode::ZeroPage, 5), old(m).ops(), final(m).ops(), *final(self)),
    {
        proof {
            reveal(executes);
        }
        let r = self.zero_page_fixed(m);
        self.sre_common(m, r.address, r.value, 5);
    }

    fn eor_immediate<M: Memory>(&mut self, m: &mut M)
        requires
            old(self).clock <= CLOCK_LIMIT,
        ensures
            old(m).wf() ==> final(m).wf(),
            executes(*old(self), ins(Op::Eor, Mode::Immediate, 2), old(m).ops(), final(m).ops(), *final(self)),
    {
        proof {
            reveal(executes);
        }
        let value = self.read_next_u8(m);
        self.eor_common(value, 2);
    }

    fn eor_absolute<M: Memory>(&mut self, m: &mut M)
        requires
            old(self).clock <= CLOCK_LIMIT,
        ensures
            old(m).wf() ==> final(m).wf(),
            executes(*old(self), ins(Op::Eor, Mode::Absolute, 4), old(m).ops(), final(m).ops(), *final(self)),
    {
        proof {
            reveal(executes);
        }
        let r = self.absolute(m);
        self.eor_common(r.value, 4);
    }

    fn lsr_absolute<M: Memory>(&mut self, m: &mut M)
        requires
            old(self).clock <= CLOCK_LIMIT,
        ensures
            old(m).wf() ==> final(m).wf(),
            executes(*old(self), ins(Op::Lsr, Mode::Absolute, 6), old(m).ops(), final(m).ops(), *final(self)),
    {
        proof {
            reveal(executes);
        }
        let r = self.absolute(m);
        let new_value = self.lsr_common(r.value, 6);
        m.write8(r.address, new_value);
    }

    fn sre_absolute<M: Memory>(&mut self, m: &mut M)
        requires
            old(self).clock <= CLOCK_LIMIT,
        ensures
            old(m).wf() ==> final(m).wf(),
            executes(*old(self), ins(Op::Sre, Mode::Absolute, 6), old(m).ops(), final(m).ops(), *final(self)),
    {
        proof {
            reveal(executes);
        }
        let r = self.absolute(m);
        self.sre_common(m, r.address, r.value, 6);
    }

    fn eor_zero_page_indirect_y<M: Memory>(&mut self, m: &mut M)
        requires
            old(self).clock <= CLOCK_LIMIT,
        ensures
            old(m).wf() ==> final(m).wf(),
            executes(*old(self), ins(Op::Eor, Mode::IndirectY, 5), old(m).ops(), final(m).ops(), *final(self)),
    {
        proof {
            reveal(executes);
        }
        let r = self.zero_page_indirect_y(m);
        self.eor_common(r.value, 5 + r.extra_clock);
    }

    fn sre_zero_page_indirect_y<M: Memory>(&mut self, m: &mut M)
        requires
            old(self).clock <= CLOCK_LIMIT,
        ensures
            old(m).wf() ==> final(m).wf(),
            executes(*old(self), ins(Op::Sre, Mode::IndirectY, 8), old(m).ops(), final(m).ops(), *final(self)),
    {
        proof {
            reveal(executes);
        }
        let r = self.zero_page_indirect_y(m);
        self.sre_common(m, r.address, r.value, 8);
    }

    fn eor_zero_page_x<M: Memory>(&mut self, m: &mut M)
        requires
            old(self).clock <= CLOCK_LIMIT,
        ensures
            old(m).wf() ==> final(m).wf(),
            executes(*old(self), ins(Op::Eor, Mode::ZeroPageX, 4), old(m).ops(), final(m).ops(), *final(self)),
    {
        proof {
            reveal(executes);
        }
        let r = self.zero_page_x(m);
        self.eor_common(r.value, 4);
    }

    fn lsr_zero_page_x<M: Memory>(&mut self, m: &mut M)
        requires
            old(self).clock <= CLOCK_LIMIT,
        ensures
            old(m).wf() ==> final(m).wf(),
            executes(*old(self), ins(Op::Lsr, Mode::ZeroPageX, 6), old(m).ops(), final(m).ops(), *final(self)),
    {
        proof {
            reveal(executes);
        }
        let r = self.zero_page_x(m);
        let new_value = self.lsr_common(r.value, 6);
        m.write8(r.address, new_value);
    }

    fn sre_zero_page_x<M: Memory>(&mut self, m: &mut M)
        requires
            old(self).clock <= CLOCK_LIMIT,
        ensures
            old(m).wf() ==> final(m).wf(),
            executes(*old(self), ins(Op::Sre, Mode::ZeroPageX, 6), old(m).ops(), final(m).ops(), *final(self)),
    {
        proof {
            reveal(executes);
        }
        let r = self.zero_page_x(m);
        self.sre_common(m, r.address, r.value, 6);
    }

    fn eor_absolute_y<M: Memory>(&mut self, m: &mut M)
        requires
            old(self).clock <= CLOCK_LIMIT,
        ensures
            old(m).wf() ==> final(m).wf(),
            executes(*old(self), ins(Op::Eor, Mode::AbsoluteY, 4), old(m).ops(), final(m).ops(), *final(self)),
    {
        proof {
            reveal(executes);
        }
        let r = self.absolute_y(m);
        self.eor_common(r.value, 4 + r.extra_clock);
    }

    fn sre_absolute_y<M: Memory>(&mut self, m: &mut M)
        requires
            old(self).clock <= CLOCK_LIMIT,
        ensures
            old(m).wf() ==> final(m).wf(),
            executes(*old(self), ins(Op::Sre, Mode::AbsoluteY, 7), old(m).ops(), final(m).ops(), *final(self)),
    {
        proof {
            reveal(executes);
        }
        let r = self.absolute_y(m);
        self.sre_common(m, r.address, r.value, 7);
    }

    fn eor_absolute_x<M: Memory>(&mut self, m: &mut M)
        requires
            old(self).clock <= CLOCK_LIMIT,
        ensures
            old(m).wf() ==> final(m).wf(),
            executes(*old(self), ins(Op::Eor, Mode::AbsoluteX, 4), old(m).ops(), final(m).ops(), *final(self)),
    {
        proof {
            reveal(executes);
        }
        let r = self.absolute_x(m);
        self.eor_common(r.value, 4 + r.extra_clock);
    }

    fn lsr_absolute_x<M: Memory>(&mut self, m: &mut M)
        requires
            old(self).clock <= CLOCK_LIMIT,
        ensures
            old(m).wf() ==> final(m).wf(),
            executes(*old(self), ins(Op::Lsr, Mode::AbsoluteX, 7), old(m).ops(), final(m).ops(), *final(self)),
    {
        proof {
            reveal(executes);
        }
        let r = self.absolute_x(m);
        let new_value = self.lsr_common(r.value, 7);
        m.write8(r.address, new_value);
    }

    fn sre_absolute_x<M: Memory>(&mut self, m: &mut M)
        requires
            old(self).clock <= CLOCK_LIMIT,
        ensures
            old(m).wf() ==> final(m).wf(),
            executes(*old(self), ins(Op::Sre, Mode::AbsoluteX, 7), old(m).ops(), final(m).ops(), *final(self)),
    {
        proof {
            reveal(executes);
        }
        let r = self.absolute_x(m);
        self.sre_common(m, r.address, r.value, 7);
    }

    fn adc_zero_page_indirect_x<M: Memory>(&mut self, m: &mut M)
        requires
            old(self).clock <= CLOCK_LIMIT,
        ensures
            old(m).wf() ==> final(m).wf(),
            executes(*old(self), ins(Op::Adc, Mode::IndirectX, 6), old(m).ops(), final(m).ops(), *final(self)),
    {
        proof {
            reveal(executes);
        }
        let r = self.zero_page_indirect_x(m);
        self.adc_common(r.value, 6);
    }

    fn rra_zero_page_indirect_x<M: Memory>(&mut self, m: &mut M)
        requires
            old(self).clock <= CLOCK_LIMIT,
        ensures
            old(m).wf() ==> final(m).wf(),
            executes(*old(self), ins(Op::Rra, Mode::IndirectX, 8), old(m).ops(), final(m).ops(), *final(self)),
    {
        proof {
            reveal(executes);
        }
        let r = self.zero_page_indirect_x(m);
        let new_value = self.rra_common(r.value, 8);
        m.write8(r.address, new_value);
    }

    fn adc_zero_page<M: Memory>(&mut self, m: &mut M)
        requires
            old(self).clock <= CLOCK_LIMIT,
        ensures
            old(m).wf() ==> final(m).wf(),
            executes(*old(self), ins(Op::Adc, Mode::ZeroPage, 3), old(m).ops(), final(m).ops(), *final(self)),
    {
        proof {
            reveal(executes);
        }
        let r = self.zero_page_fixed(m);
        self.adc_common(r.value, 3);
    }

    fn ror_zero_page<M: Memory>(&mut self, m: &mut M)
        requires
            old(self).clock <= CLOCK_LIMIT,
        ensures
            old(m).wf() ==> final(m).wf(),
            executes(*old(self), ins(Op::Ror, Mode::ZeroPage, 5), old(m).ops(), final(m).ops(), *final(self)),
    {
        proof {
            reveal(executes);
        }
        let r = self.zero_page_fixed(m);
        let new_value = self.ror_common(r.value, 5);
        m.write8(r.address, new_value);
    }

    fn rra_zero_page<M: Memory>(&mut self, m: &mut M)
        requires
            old(self).clock <= CLOCK_LIMIT,
        ensures
            old(m).wf() ==> final(m).wf(),
            executes(*old(self), ins(Op::Rra, Mode::ZeroPage, 5), old(m).ops(), final(m).ops(), *final(self)),
    {
        proof {
            reveal(executes);
        }
        let r = self.zero_page_fixed(m);
        let new_value = self.rra_common(r.value, 5);
        m.write8(r.address, new_value);
    }

    fn adc_immediate<M: Memory>(&mut self, m: &mut M)
        requires
            old(self).clock <= CLOCK_LIMIT,
        ensures
            old(m).wf() ==> final(m).wf(),
            executes(*old(self), ins(Op::Adc, Mode::Immediate, 2), old(m).ops(), final(m).ops(), *final(self)),
    {
        proof {
            reveal(executes);
        }
        let value = self.read_next_u8(m);
        self.adc_common(value, 2);
    }

    fn adc_absolute<M: Memory>(&mut self, m: &mut M)
        requires
            old(self).clock <= CLOCK_LIMIT,
        ensures
            old(m).wf() ==> final(m).wf(),
            executes(*old(self), ins(Op::Adc, Mode::Absolute, 4), old(m).ops(), final(m).ops(), *final(self)),
    {
        proof {
            reveal(executes);
        }
        let r = self.absolute(m);
        self.adc_common(r.value, 4);
    }

    fn ror_absolute<M: Memory>(&mut self, m: &mut M)
        requires
            old(self).clock <= CLOCK_LIMIT,
        ensures
            old(m).wf() ==> final(m).wf(),
            executes(*old(self), ins(Op::Ror, Mode::Absolute, 6), old(m).ops(), final(m).ops(), *final(self)),
    {
        proof {
            reveal(executes);
        }
        let r = self.absolute(m);
        let new_value = self.ror_common(r.value, 6);
        m.write8(r.address, new_value);
    }

    fn rra_absolute<M: Memory>(&mut self, m: &mut M)
        requires
            old(self).clock <= CLOCK_LIMIT,
        ensures
            old(m).wf() ==> final(m).wf(),
            executes(*old(self), ins(Op::Rra, Mode::Absolute, 6), old(m).ops(), final(m).ops(), *final(self)),
    {
        proof {
            reveal(executes);
        }
        let r = self.absolute(m);
        let new_value = self.rra_common(r.value, 6);
        m.write8(r.address, new_value);
    }

    fn adc_zero_page_indirect_y<M: Memory>(&mut self, m: &mut M)
        requires
            old(self).clock <= CLOCK_LIMIT,
        ensures
            old(m).wf() ==> final(m).wf(),
            executes(*old(self), ins(Op::Adc, Mode::IndirectY, 5), old(m).ops(), final(m).ops(), *final(self)),
    {
        proof {
            reveal(executes);
        }
        let r = self.zero_page_indirect_y(m);
        self.adc_common(r.value, 5 + r.extra_clock);
    }

    fn rra_zero_page_indirect_y<M: Memory>(&mut self, m: &mut M)
        requires
            old(self).clock <= CLOCK_LIMIT,
        ensures
            old(m).wf() ==> final(m).wf(),
            executes(*old(self), ins(Op::Rra, Mode::IndirectY, 8), old(m).ops(), final(m).ops(), *final(self)),
    {
        proof {
            reveal(executes);
        }
        let r = self.zero_page_indirect_y(m);
        let new_value = self.rra_common(r.value, 8);
        m.write8(r.address, new_value);
    }

    fn adc_zero_page_x<M: Memory>(&mut self, m: &mut M)
        requires
            old(self).clock <= CLOCK_LIMIT,
        ensures
            old(m).wf() ==> final(m).wf(),
            executes(*old(self), ins(Op::Adc, Mode::ZeroPageX, 4), old(m).ops(), final(m).ops(), *final(self)),
    {
        proof {
            reveal(executes);
        }
        let r = self.zero_page_x(m);
        self.adc_common(r.value, 4);
    }

    fn ror_zero_page_x<M: Memory>(&mut self, m: &mut M)
        requires
            old(self).clock <= CLOCK_LIMIT,
        ensures
            old(m).wf() ==> final(m).wf(),
            executes(*old(self), ins(Op::Ror, Mode::ZeroPageX, 6), old(m).ops(), final(m).ops(), *final(self)),
    {
        proof {
            reveal(executes);
        }
        let r = self.zero_page_x(m);
        let new_value = self.ror_common(r.value, 6);
        m.write8(r.address, new_value);
    }

    fn rra_zero_page_x<M: Memory>(&mut self, m: &mut M)
        requires
            old(self).clock <= CLOCK_LIMIT,
        ensures
            old(m).wf() ==> final(m).wf(),
            executes(*old(self), ins(Op::Rra, Mode::ZeroPageX, 6), old(m).ops(), final(m).ops(), *final(self)),
    {
        proof {
            reveal(executes);
        }
        let r = self.zero_page_x(m);
        let new_value = self.rra_common(r.value, 6);
        m.write8(r.address, new_value);
    }

    fn adc_absolute_y<M: Memory>(&mut self, m: &mut M)
        requires
            old(self).clock <= CLOCK_LIMIT,
        ensures
            old(m).wf() ==> final(m).wf(),
            executes(*old(self), ins(Op::Adc, Mode::AbsoluteY, 4), old(m).ops(), final(m).ops(), *final(self)),
    {
        proof {
            reveal(executes);
        }
        let r = self.absolute_y(m);
        self.adc_common(r.value, 4 + r.extra_clock);
    }

    fn rra_absolute_y<M: Memory>(&mut self, m: &mut M)
        requires
            old(self).clock <= CLOCK_LIMIT,
        ensures
            old(m).wf() ==> final(m).wf(),
            executes(*old(self), ins(Op::Rra, Mode::AbsoluteY, 7), old(m).ops(), final(m).ops(), *final(self)),
    {
        proof {
            reveal(executes);
        }
        let r = self.absolute_y(m);
        let new_value = self.rra_common(r.value, 7);
        m.write8(r.address, new_value);
    }

    fn adc_absolute_x<M: Memory>(&mut self, m: &mut M)
        requires
            old(self).clock <= CLOCK_LIMIT,
        ensures
            old(m).wf() ==> final(m).wf(),
            executes(*old(self), ins(Op::Adc, Mode::AbsoluteX, 4), old(m).ops(), final(m).ops(), *final(self)),
    {
        proof {
            reveal(executes);
        }
        let r = self.absolute_x(m);
        self.adc_common(r.value, 4 + r.extra_clock);
    }

    fn ror_absolute_x<M: Memory>(&mut self, m: &mut M)
        requires
            old(self).clock <= CLOCK_LIMIT,
        ensures
            old(m).wf() ==> final(m).wf(),
            executes(*old(self), ins(Op::Ror, Mode::AbsoluteX, 7), old(m).ops(), final(m).ops(), *final(self)),
    {
        proof {
            reveal(executes);
        }
        let r = self.absolute_x(m);
        let new_value = self.ror_common(r.value, 7);
        m.write8(r.address, new_value);
    }

    fn rra_absolute_x<M: Memory>(&mut self, m: &mut M)
        requires
            old(self).clock <= CLOCK_LIMIT,
        ensures
            old(m).wf() ==> final(m).wf(),
            executes(*old(self), ins(Op::Rra, Mode::AbsoluteX, 7), old(m).ops(), final(m).ops(), *final(self)),
    {
        proof {
            reveal(executes);
        }
        let r = self.absolute_x(m);
        let new_value = self.rra_common(r.value, 7);
        m.write8(r.address, new_value);
    }

    fn sta_zero_page_indirect_x<M: Memory>(&mut self, m: &mut M)
        requires
            old(self).clock <= CLOCK_LIMIT,
        ensures
            old(m).wf() ==> final(m).wf(),
            executes(*old(self), ins(Op::Sta, Mode::IndirectX, 6), old(m).ops(), final(m).ops(), *final(self)),
    {
        proof {
            reveal(executes);
        }
        let r = self.zero_page_indirect_x(m);
        let new_value = self.sta_common(6);
        m.write8(r.address, new_value);
    }

    fn sax_zero_page_indirect_x<M: Memory>(&mut self, m: &mut M)
        requires
            old(self).clock <= CLOCK_LIMIT,
        ensures
            old(m).wf() ==> final(m).wf(),
            executes(*old(self), ins(Op::Sax, Mode::IndirectX, 6), old(m).ops(), final(m).ops(), *final(self)),
    {
        proof {
            reveal(executes);
        }
        let r = self.zero_page_indirect_x(m);
        let new_value = self.sax_common(6);
        m.write8(r.address, new_value);
    }

    fn sty_zero_page<M: Memory>(&mut self, m: &mut M)
        requires
            old(self).clock <= CLOCK_LIMIT,
        ensures
            old(m).wf() ==> final(m).wf(),
            executes(*old(self), ins(Op::Sty, Mode::ZeroPage, 3), old(m).ops(), final(m).ops(), *final(self)),
    {
        proof {
            reveal(executes);
        }
        let r = self.zero_page_fixed(m);
        let new_value = self.sty_common(3);
        m.write8(r.address, new_value);
    }

    fn sta_zero_page<M: Memory>(&mut self, m: &mut M)
        requires
            old(self).clock <= CLOCK_LIMIT,
        ensures
            old(m).wf() ==> final(m).wf(),
            executes(*old(self), ins(Op::Sta, Mode::ZeroPage, 3), old(m).ops(), final(m).ops(), *final(self)),
    {
        proof {
            reveal(executes);
        }
        let r = self.zero_page_fixed(m);
        let new_value = self.sta_common(3);
        m.write8(r.address, new_value);
    }

    fn stx_zero_page<M: Memory>(&mut self, m: &mut M)
        requires
            old(self).clock <= CLOCK_LIMIT,
        ensures
            old(m).wf() ==> final(m).wf(),
            executes(*old(self), ins(Op::Stx, Mode::ZeroPage, 3), old(m).ops(), final(m).ops(), *final(self)),
    {
        proof {
            reveal(executes);
        }
        let r = self.zero_page_fixed(m);
        let new_value = self.stx_common(3);
        m.write8(r.address, new_value);
    }

    fn sax_zero_page<M: Memory>(&mut self, m: &mut M)
        requires
            old(self).clock <= CLOCK_LIMIT,
        ensures
            old(m).wf() ==> final(m).wf(),
            executes(*old(self), ins(Op::Sax, Mode::ZeroPage, 3), old(m).ops(), final(m).ops(), *final(self)),
    {
        proof {
            reveal(executes);
        }
        let r = self.zero_page_fixed(m);
        let new_value = self.sax_common(3);
        m.write8(r.address, new_value);
    }

    fn sty_absolute<M: Memory>(&mut self, m: &mut M)
        requires
            old(self).clock <= CLOCK_LIMIT,
        ensures
            old(m).wf() ==> final(m).wf(),
            executes(*old(self), ins(Op::Sty, Mode::Absolute, 4), old(m).ops(), final(m).ops(), *final(self)),
    {
        proof {
            reveal(executes);
        }
        let r = self.absolute(m);
        let new_value = self.sty_common(4);
        m.write8(r.address, new_value);
    }

    fn sta_absolute<M: Memory>(&mut self, m: &mut M)
        requires
            old(self).clock <= CLOCK_LIMIT,
        ensures
            old(m).wf() ==> final(m).wf(),
            executes(*old(self), ins(Op::Sta, Mode::Absolute, 4), old(m).ops(), final(m).ops(), *final(self)),
    {
        proof {
            reveal(executes);
        }
        let r = self.absolute(m);
        let new_value = self.sta_common(4);
        m.write8(r.address, new_value);
    }

    fn stx_absolute<M: Memory>(&mut self, m: &mut M)
        requires
            old(self).clock <= CLOCK_LIMIT,
        ensures
            old(m).wf() ==> final(m).wf(),
            executes(*old(self), ins(Op::Stx, Mode::Absolute, 4), old(m).ops(), final(m).ops(), *final(self)),
    {
        proof {
            reveal(executes);
        }
        let r = self.absolute(m);
        let new_value = self.stx_common(4);
        m.write8(r.address, new_value);
    }

    fn sax_aboslute<M: Memory>(&mut self, m: &mut M)
        requires
            old(self).clock <= CLOCK_LIMIT,
        ensures
            old(m).wf() ==> final(m).wf(),
            executes(*old(self), ins(Op::Sax, Mode::Absolute, 4), old(m).ops(), final(m).ops(), *final(self)),
    {
        proof {
            reveal(executes);
        }
        let r = self.absolute(m);
        let new_value = self.sax_common(4);
        m.write8(r.address, new_value);
    }

    fn sta_zero_page_indirect_y<M: Memory>(&mut self, m: &mut M)
        requires
            old(self).clock <= CLOCK_LIMIT,
        ensures
            old(m).wf() ==> final(m).wf(),
            executes(*old(self), ins(Op::Sta, Mode::IndirectY, 6), old(m).ops(), final(m).ops(), *final(self)),
    {
        proof {
            reveal(executes);
        }
        let r = self.zero_page_indirect_y(m);
        let new_value = self.sta_common(6);
        m.write8(r.address, new_value);
    }

    fn sty_zero_page_x<M: Memory>(&mut self, m: &mut M)
        requires
            old(self).clock <= CLOCK_LIMIT,
        ensures
            old(m).wf() ==> final(m).wf(),
            executes(*old(self), ins(Op::Sty, Mode::ZeroPageX, 4), old(m).ops(), final(m).ops(), *final(self)),
    {
        proof {
            reveal(executes);
        }
        let r = self.zero_page_x(m);
        let new_value = self.sty_common(4);
        m.write8(r.address, new_value);
    }

    fn sta_zero_page_x<M: Memory>(&mut self, m: &mut M)
        requires
            old(self).clock <= CLOCK_LIMIT,
        ensures
            old(m).wf() ==> final(m).wf(),
            executes(*old(self), ins(Op::Sta, Mode::ZeroPageX, 4), old(m).ops(), final(m).ops(), *final(self)),
    {
        proof {
            reveal(executes);
        }
        let r = self.zero_page_x(m);
        let new_value = self.sta_common(4);
        m.write8(r.address, new_value);
    }

    fn stx_zero_page_y<M: Memory>(&mut self, m: &mut M)
        requires
            old(self).clock <= CLOCK_LIMIT,
        ensures
            old(m).wf() ==> final(m).wf(),
            executes(*old(self), ins(Op::Stx, Mode::ZeroPageY, 4), old(m).ops(), final(m).ops(), *final(self)),
    {
        proof {
            reveal(executes);
        }
        let r = self.zero_page_y(m);
        let new_value = self.stx_common(4);
        m.write8(r.address, new_value);
    }

    fn sax_zero_page_y<M: Memory>(&mut self, m: &mut M)
        requires
            old(self).clock <= CLOCK_LIMIT,
        ensures
            old(m).wf() ==> final(m).wf(),
            executes(*old(self), ins(Op::Sax, Mode::ZeroPageY, 4), old(m).ops(), final(m).ops(), *final(self)),
    {
        proof {
            reveal(executes);
        }
        let r = self.zero_page_y(m);
        let new_value = self.sax_common(4);
        m.write8(r.address, new_value);
    }

    fn sta_absolute_y<M: Memory>(&mut self, m: &mut M)
        requires
            old(self).clock <= CLOCK_LIMIT,
        ensures
            old(m).wf() ==> final(m).wf(),
            executes(*old(self), ins(Op::Sta, Mode::AbsoluteY, 5), old(m).ops(), final(m).ops(), *final(self)),
    {
        proof {
            reveal(executes);
        }
        let r = self.absolute_y(m);
        let new_value = self.sta_common(5);
        m.write8(r.address, new_value);
    }

    fn sta_absolute_x<M: Memory>(&mut self, m: &mut M)
        requires
            old(self).clock <= CLOCK_LIMIT,
        ensures
            old(m).wf() ==> final(m).wf(),
            executes(*old(self), ins(Op::Sta, Mode::AbsoluteX, 5), old(m).ops(), final(m).ops(), *final(self)),
    {
        proof {
            reveal(executes);
        }
        let r = self.absolute_x(m);
        let new_value = self.sta_common(5);
        m.write8(r.address, new_value);
    }

    fn ldy_immediate<M: Memory>(&mut self, m: &mut M)
        requires
            old(self).clock <= CLOCK_LIMIT,
        ensures
            old(m).wf() ==> final(m).wf(),
            executes(*old(self), ins(Op::Ldy, Mode::Immediate, 2), old(m).ops(), final(m).ops(), *final(self)),
    {
        proof {
            reveal(executes);
        }
        let value = self.read_next_u8(m);
        self.ldy_common(value, 2);
    }

    fn lda_zero_page_indirect_x<M: Memory>(&mut self, m: &mut M)
        requires
            old(self).clock <= CLOCK_LIMIT,
        ensures
            old(m).wf() ==> final(m).wf(),
            executes(*old(self), ins(Op::Lda, Mode::IndirectX, 6), old(m).ops(), final(m).ops(), *final(self)),
    {
        proof {
            reveal(executes);
        }
        let r = self.zero_page_indirect_x(m);
        self.lda_common(r.value, 6);
    }

    fn ldx_immediate<M: Memory>(&mut self, m: &mut M)
        requires
            old(self).clock <= CLOCK_LIMIT,
        ensures
            old(m).wf() ==> final(m).wf(),
            executes(*old(self), ins(Op::Ldx, Mode::Immediate, 2), old(m).ops(), final(m).ops(), *final(self)),
    {
        proof {
            reveal(executes);
        }
        let value = self.read_next_u8(m);
        self.ldx_common(value, 2);
    }

    fn lax_zero_page_indirect_x<M: Memory>(&mut self, m: &mut M)
        requires
            old(self).clock <= CLOCK_LIMIT,
        ensures
            old(m).wf() ==> final(m).wf(),
            executes(*old(self), ins(Op::Lax, Mode::IndirectX, 6), old(m).ops(), final(m).ops(), *final(self)),
    {
        proof {
            reveal(executes);
        }
        let r = self.zero_page_indirect_x(m);
        self.lax_common(r.value, 6);
    }

    fn ldy_zero_page<M: Memory>(&mut self, m: &mut M)
        requires
            old(self).clock <= CLOCK_LIMIT,
        ensures
            old(m).wf() ==> final(m).wf(),
            executes(*old(self), ins(Op::Ldy, Mode::ZeroPage, 3), old(m).ops(), final(m).ops(), *final(self)),
    {
        proof {
            reveal(executes);
        }
        let r = self.zero_page_fixed(m);
        self.ldy_common(r.value, 3);
    }

    fn lda_zero_page<M: Memory>(&mut self, m: &mut M)
        requires
            old(self).clock <= CLOCK_LIMIT,
        ensures
            old(m).wf() ==> final(m).wf(),
            executes(*old(self), ins(Op::Lda, Mode::ZeroPage, 3), old(m).ops(), final(m).ops(), *final(self)),
    {
        proof {
            reveal(executes);
        }
        let r = self.zero_page_fixed(m);
        self.lda_common(r.value, 3);
    }

    fn ldx_zero_page<M: Memory>(&mut self, m: &mut M)
        requires
            old(self).clock <= CLOCK_LIMIT,
        ensures
            old(m).wf() ==> final(m).wf(),
            executes(*old(self), ins(Op::Ldx, Mode::ZeroPage, 3), old(m).ops(), final(m).ops(), *final(self)),
    {
        proof {
            reveal(executes);
        }
        let r = self.zero_page_fixed(m);
        self.ldx_common(r.value, 3);
    }

    fn lax_zero_page<M: Memory>(&mut self, m: &mut M)
        requires
            old(self).clock <= CLOCK_LIMIT,
        ensures
            old(m).wf() ==> final(m).wf(),
            executes(*old(self), ins(Op::Lax, Mode::ZeroPage, 3), old(m).ops(), final(m).ops(), *final(self)),
    {
        proof {
            reveal(executes);
        }
        let r = self.zero_page_fixed(m);
        self.lax_common(r.value, 3);
    }

    fn lda_immediate<M: Memory>(&mut self, m: &mut M)
        requires
            old(self).clock <= CLOCK_LIMIT,
        ensures
            old(m).wf() ==> final(m).wf(),
            executes(*old(self), ins(Op::Lda, Mode::Immediate, 2), old(m).ops(), final(m).ops(), *final(self)),
    {
        proof {
            reveal(executes);
        }
        let value = self.read_next_u8(m);
        self.lda_common(value, 2);
    }

    fn ldy_absolute<M: Memory>(&mut self, m: &mut M)
        requires
            old(self).clock <= CLOCK_LIMIT,
        ensures
            old(m).wf() ==> final(m).wf(),
            executes(*old(self), ins(Op::Ldy, Mode::Absolute, 4), old(m).ops(), final(m).ops(), *final(self)),
    {
        proof {
            reveal(executes);
        }
        let r = self.absolute(m);
        self.ldy_common(r.value, 4);
    }

    fn lda_absolute<M: Memory>(&mut self, m: &mut M)
        requires
            old(self).clock <= CLOCK_LIMIT,
        ensures
            old(m).wf() ==> final(m).wf(),
            executes(*old(self), ins(Op::Lda, Mode::Absolute, 4), old(m).ops(), final(m).ops(), *final(self)),
    {
        proof {
            reveal(executes);
        }
        let r = self.absolute(m);
        self.lda_common(r.value, 4);
    }

    fn ldx_absolute<M: Memory>(&mut self, m: &mut M)
        requires
            old(self).clock <= CLOCK_LIMIT,
        ensures
            old(m).wf() ==> final(m).wf(),
            executes(*old(self), ins(Op::Ldx, Mode::Absolute, 4), old(m).ops(), final(m).ops(), *final(self)),
    {
        proof {
            reveal(executes);
        }
        let r = self.absolute(m);
        self.ldx_common(r.value, 4);
    }

    fn lax_absolute<M: Memory>(&mut self, m: &mut M)
        requires
            old(self).clock <= CLOCK_LIMIT,
        ensures
            old(m).wf() ==> final(m).wf(),
            executes(*old(self), ins(Op::Lax, Mode::Absolute, 4), old(m).ops(), final(m).ops(), *final(self)),
    {
        proof {
            reveal(executes);
        }
        let r = self.absolute(m);
        self.lax_common(r.value, 4);
    }

    fn lda_zero_page_indirect_y<M: Memory>(&mut self, m: &mut M)
        requires
            old(self).clock <= CLOCK_LIMIT,
        ensures
            old(m).wf() ==> final(m).wf(),
            executes(*old(self), ins(Op::Lda, Mode::IndirectY, 5), old(m).ops(), final(m).ops(), *final(self)),
    {
        proof {
            reveal(executes);
        }
        let r = self.zero_page_indirect_y(m);
        self.lda_common(r.value, 5 + r.extra_clock);
    }

    fn lax_zero_page_indirect_y<M: Memory>(&mut self, m: &mut M)
        requires
            old(self).clock <= CLOCK_LIMIT,
        ensures
            old(m).wf() ==> final(m).wf(),
            executes(*old(self), ins(Op::Lax, Mode::IndirectY, 5), old(m).ops(), final(m).ops(), *final(self)),
    {
        proof {
            reveal(executes);
        }
        let r = self.zero_page_indirect_y(m);
        self.lax_common(r.value, 5 + r.extra_clock);
    }

    fn ldy_zero_page_x<M: Memory>(&mut self, m: &mut M)
        requires
            old(self).clock <= CLOCK_LIMIT,
        ensures
            old(m).wf() ==> final(m).wf(),
            executes(*old(self), ins(Op::Ldy, Mode::ZeroPageX, 4), old(m).ops(), final(m).ops(), *final(self)),
    {
        proof {
            reveal(executes);
        }
        let r = self.zero_page_x(m);
        self.ldy_common(r.value, 4);
    }

    fn lda_zero_page_x<M: Memory>(&mut self, m: &mut M)
        requires
            old(self).clock <= CLOCK_LIMIT,
        ensures
            old(m).wf() ==> final(m).wf(),
            executes(*old(self), ins(Op::Lda, Mode::ZeroPageX, 4), old(m).ops(), final(m).ops(), *final(self)),
    {
        proof {
            reveal(executes);
        }
        let r = self.zero_page_x(m);
        self.lda_common(r.value, 4);
    }

    fn ldx_zero_page_y<M: Memory>(&mut self, m: &mut M)
        requires
            old(self).clock <= CLOCK_LIMIT,
        ensures
            old(m).wf() ==> final(m).wf(),
            executes(*old(self), ins(Op::Ldx, Mode::ZeroPageY, 4), old(m).ops(), final(m).ops(), *final(self)),
    {
        proof {
            reveal(executes);
        }
        let r = self.zero_page_y(m);
        self.ldx_common(r.value, 4);
    }

    fn lax_zero_page_y<M: Memory>(&mut self, m: &mut M)
        requires
            old(self).clock <= CLOCK_LIMIT,
        ensures
            old(m).wf() ==> final(m).wf(),
            executes(*old(self), ins(Op::Lax, Mode::ZeroPageY, 4), old(m).ops(), final(m).ops(), *final(self)),
    {
        proof {
            reveal(executes);
        }
        let r = self.zero_page_y(m);
        self.lax_common(r.value, 4);
    }

    fn lda_absolute_y<M: Memory>(&mut self, m: &mut M)
        requires
            old(self).clock <= CLOCK_LIMIT,
        ensures
            old(m).wf() ==> final(m).wf(),
            executes(*old(self), ins(Op::Lda, Mode::AbsoluteY, 4), old(m).ops(), final(m).ops(), *final(self)),
    {
        proof {
            reveal(executes);
        }
        let r = self.absolute_y(m);
        self.lda_common(r.value, 4 + r.extra_clock);
    }

    fn ldy_absolute_x<M: Memory>(&mut self, m: &mut M)
        requires
            old(self).clock <= CLOCK_LIMIT,
        ensures
            old(m).wf() ==> final(m).wf(),
            executes(*old(self), ins(Op::Ldy, Mode::AbsoluteX, 4), old(m).ops(), final(m).ops(), *final(self)),
    {
        proof {
            reveal(executes);
        }
        let r = self.absolute_x(m);
        self.ldy_common(r.value, 4 + r.extra_clock);
    }

    fn lda_absolute_x<M: Memory>(&mut self, m: &mut M)
        requires
            old(self).clock <= CLOCK_LIMIT,
        ensures
            old(m).wf() ==> final(m).wf(),
            executes(*old(self), ins(Op::Lda, Mode::AbsoluteX, 4), old(m).ops(), final(m).ops(), *final(self)),
    {
        proof {
            reveal(executes);
        }
        let r = self.absolute_x(m);
        self.lda_common(r.value, 4 + r.extra_clock);
    }

    fn ldx_absolute_y<M: Memory>(&mut self, m: &mut M)
        requires
            old(self).clock <= CLOCK_LIMIT,
        ensures
            old(m).wf() ==> final(m).wf(),
            executes(*old(self), ins(Op::Ldx, Mode::AbsoluteY, 4), old(m).ops(), final(m).ops(), *final(self)),
    {
        proof {
            reveal(executes);
        }
        let r = self.absolute_y(m);
        self.ldx_common(r.value, 4 + r.extra_clock);
    }

    fn lax_absolute_y<M: Memory>(&mut self, m: &mut M)
        requires
            old(self).clock <= CLOCK_LIMIT,
        ensures
            old(m).wf() ==> final(m).wf(),
            executes(*old(self), ins(Op::Lax, Mode::AbsoluteY, 4), old(m).ops(), final(m).ops(), *final(self)),
    {
        proof {
            reveal(executes);
        }
        let r = self.absolute_y(m);
        self.lax_common(r.value, 4 + r.extra_clock);
    }

    fn cpy_immediate<M: Memory>(&mut self, m: &mut M)
        requires
            old(self).clock <= CLOCK_LIMIT,
        ensures
            old(m).wf() ==> final(m).wf(),
            executes(*old(self), ins(Op::Cpy, Mode::Immediate, 2), old(m).ops(), final(m).ops(), *final(self)),
    {
        proof {
            reveal(executes);
        }
        let value = self.read_next_u8(m);
        self.cpy_common(value, 2);
    }

    fn cmp_zero_page_indirect_x<M: Memory>(&mut self, m: &mut M)
        requires
            old(self).clock <= CLOCK_LIMIT,
        ensures
            old(m).wf() ==> final(m).wf(),
            executes(*old(self), ins(Op::Cmp, Mode::IndirectX, 6), old(m).ops(), final(m).ops(), *final(self)),
    {
        proof {
            reveal(executes);
        }
        let r = self.zero_page_indirect_x(m);
        self.cmp_common(r.value, 6);
    }

    fn dcp_zero_page_indirect_x<M: Memory>(&mut self, m: &mut M)
        requires
            old(self).clock <= CLOCK_LIMIT,
        ensures
            old(m).wf() ==> final(m).wf(),
            executes(*old(self), ins(Op::Dcp, Mode::IndirectX, 8), old(m).ops(), final(m).ops(), *final(self)),
    {
        proof {
            reveal(executes);
        }
        let r = self.zero_page_indirect_x(m);
        let new_value = self.dcp_common(r.value, 8);
        m.write8(r.address, new_value);
    }

    fn cpy_zero_page<M: Memory>(&mut self, m: &mut M)
        requires
            old(self).clock <= CLOCK_LIMIT,
        ensures
            old(m).wf() ==> final(m).wf(),
            executes(*old(self), ins(Op::Cpy, Mode::ZeroPage, 3), old(m).ops(), final(m).ops(), *final(self)),
    {
        proof {
            reveal(executes);
        }
        let r = self.zero_page_fixed(m);
        self.cpy_common(r.value, 3);
    }

    fn cmp_zero_page<M: Memory>(&mut self, m: &mut M)
        requires
            old(self).clock <= CLOCK_LIMIT,
        ensures
            old(m).wf() ==> final(m).wf(),
            executes(*old(self), ins(Op::Cmp, Mode::ZeroPage, 3), old(m).ops(), final(m).ops(), *final(self)),
    {
        proof {
            reveal(executes);
        }
        let r = self.zero_page_fixed(m);
        self.cmp_common(r.value, 3);
    }

    fn dec_zero_page<M: Memory>(&mut self, m: &mut M)
        requires
            old(self).clock <= CLOCK_LIMIT,
        ensures
            old(m).wf() ==> final(m).wf(),
            executes(*old(self), ins(Op::Dec, Mode::ZeroPage, 5), old(m).ops(), final(m).ops(), *final(self)),
    {
        proof {
            reveal(executes);
        }
        let r = self.zero_page_fixed(m);
        let new_value = self.dec_common(r.value, 5);
        m.write8(r.address, new_value);
    }

    fn dcp_zero_page<M: Memory>(&mut self, m: &mut M)
        requires
            old(self).clock <= CLOCK_LIMIT,
        ensures
            old(m).wf() ==> final(m).wf(),
            executes(*old(self), ins(Op::Dcp, Mode::ZeroPage, 5), old(m).ops(), final(m).ops(), *final(self)),
    {
        proof {
            reveal(executes);
        }
        let r = self.zero_page_fixed(m);
        let new_value = self.dcp_common(r.value, 5);
        m.write8(r.address, new_value);
    }

    fn cmp_immediate<M: Memory>(&mut self, m: &mut M)
        requires
            old(self).clock <= CLOCK_LIMIT,
        ensures
            old(m).wf() ==> final(m).wf(),
            executes(*old(self), ins(Op::Cmp, Mode::Immediate, 2), old(m).ops(), final(m).ops(), *final(self)),
    {
        proof {
            reveal(executes);
        }
        let value = self.read_next_u8(m);
        self.cmp_common(value, 2);
    }

    fn cpy_absolute<M: Memory>(&mut self, m: &mut M)
        requires
            old(self).clock <= CLOCK_LIMIT,
        ensures
            old(m).wf() ==> final(m).wf(),
            executes(*old(self), ins(Op::Cpy, Mode::Absolute, 4), old(m).ops(), final(m).ops(), *final(self)),
    {
        proof {
            reveal(executes);
        }
        let r = self.absolute(m);
        self.cpy_common(r.value, 4);
    }

    fn cmp_absolute<M: Memory>(&mut self, m: &mut M)
        requires
            old(self).clock <= CLOCK_LIMIT,
        ensures
            old(m).wf() ==> final(m).wf(),
            executes(*old(self), ins(Op::Cmp, Mode::Absolute, 4), old(m).ops(), final(m).ops(), *final(self)),
    {
        proof {
            reveal(executes);
        }
        let r = self.absolute(m);
        self.cmp_common(r.value, 4);
    }

    fn dec_absolute<M: Memory>(&mut self, m: &mut M)
        requires
            old(self).clock <= CLOCK_LIMIT,
        ensures
            old(m).wf() ==> final(m).wf(),
            executes(*old(self), ins(Op::Dec, Mode::Absolute, 6), old(m).ops(), final(m).ops(), *final(self)),
    {
        proof {
            reveal(executes);
        }
        let r = self.absolute(m);
        let new_value = self.dec_common(r.value, 6);
        m.write8(r.address, new_value);
    }

    fn dcp_absolute<M: Memory>(&mut self, m: &mut M)
        requires
            old(self).clock <= CLOCK_LIMIT,
        ensures
            old(m).wf() ==> final(m).wf(),
            executes(*old(self), ins(Op::Dcp, Mode::Absolute, 6), old(m).ops(), final(m).ops(), *final(self)),
    {
        proof {
            reveal(executes);
        }
        let r = self.absolute(m);
        let new_value = self.dcp_common(r.value, 6);
        m.write8(r.address, new_value);
    }

    fn cmp_zero_page_indirect_y<M: Memory>(&mut self, m: &mut M)
        requires
            old(self).clock <= CLOCK_LIMIT,
        ensures
            old(m).wf() ==> final(m).wf(),
            executes(*old(self), ins(Op::Cmp, Mode::IndirectY, 5), old(m).ops(), final(m).ops(), *final(self)),
    {
        proof {
            reveal(executes);
        }
        let r = self.zero_page_indirect_y(m);
        self.cmp_common(r.value, 5 + r.extra_clock);
    }

    fn dcp_zero_page_indirect_y<M: Memory>(&mut self, m: &mut M)
        requires
            old(self).clock <= CLOCK_LIMIT,
        ensures
            old(m).wf() ==> final(m).wf(),
            executes(*old(self), ins(Op::Dcp, Mode::IndirectY, 8), old(m).ops(), final(m).ops(), *final(self)),
    {
        proof {
            reveal(executes);
        }
        let r = self.zero_page_indirect_y(m);
        let new_value = self.dcp_common(r.value, 8);
        m.write8(r.address, new_value);
    }

    fn cmp_zero_page_x<M: Memory>(&mut self, m: &mut M)
        requires
            old(self).clock <= CLOCK_LIMIT,
        ensures
            old(m).wf() ==> final(m).wf(),
            executes(*old(self), ins(Op::Cmp, Mode::ZeroPageX, 4), old(m).ops(), final(m).ops(), *final(self)),
    {
        proof {
            reveal(executes);
        }
        let r = self.zero_page_x(m);
        self.cmp_common(r.value, 4);
    }

    fn dec_zero_page_x<M: Memory>(&mut self, m: &mut M)
        requires
            old(self).clock <= CLOCK_LIMIT,
        ensures
            old(m).wf() ==> final(m).wf(),
            executes(*old(self), ins(Op::Dec, Mode::ZeroPageX, 6), old(m).ops(), final(m).ops(), *final(self)),
    {
        proof {
            reveal(executes);
        }
        let r = self.zero_page_x(m);
        let new_value = self.dec_common(r.value, 6);
        m.write8(r.address, new_value);
    }

    fn dcp_zero_page_x<M: Memory>(&mut self, m: &mut M)
        requires
            old(self).clock <= CLOCK_LIMIT,
        ensures
            old(m).wf() ==> final(m).wf(),
            executes(*old(self), ins(Op::Dcp, Mode::ZeroPageX, 6), old(m).ops(), final(m).ops(), *final(self)),
    {
        proof {
            reveal(executes);
        }
        let r = self.zero_page_x(m);
        let new_value = self.dcp_common(r.value, 6);
        m.write8(r.address, new_value);
    }

    fn cmp_absolute_y<M: Memory>(&mut self, m: &mut M)
        requires
            old(self).clock <= CLOCK_LIMIT,
        ensures
            old(m).wf() ==> final(m).wf(),
            executes(*old(self), ins(Op::Cmp, Mode::AbsoluteY, 4), old(m).ops(), final(m).ops(), *final(self)),
    {
        proof {
            reveal(executes);
        }
        let r = self.absolute_y(m);
        self.cmp_common(r.value, 4 + r.extra_clock);
    }

    fn dcp_absolute_y<M: Memory>(&mut self, m: &mut M)
        requires
            old(self).clock <= CLOCK_LIMIT,
        ensures
            old(m).wf() ==> final(m).wf(),
            executes(*old(self), ins(Op::Dcp, Mode::AbsoluteY, 7), old(m).ops(), final(m).ops(), *final(self)),
    {
        proof {
            reveal(executes);
        }
        let r = self.absolute_y(m);
        let new_value = self.dcp_common(r.value, 7);
        m.write8(r.address, new_value);
    }

    fn cmp_absolute_x<M: Memory>(&mut self, m: &mut M)
        requires
            old(self).clock <= CLOCK_LIMIT,
        ensures
            old(m).wf() ==> final(m).wf(),
            executes(*old(self), ins(Op::Cmp, Mode::AbsoluteX, 4), old(m).ops(), final(m).ops(), *final(self)),
    {
        proof {
            reveal(executes);
        }
        let r = self.absolute_x(m);
        self.cmp_common(r.value, 4 + r.extra_clock);
    }

    fn dec_absolute_x<M: Memory>(&mut self, m: &mut M)
        requires
            old(self).clock <= CLOCK_LIMIT,
        ensures
            old(m).wf() ==> final(m).wf(),
            executes(*old(self), ins(Op::Dec, Mode::AbsoluteX, 7), old(m).ops(), final(m).ops(), *final(self)),
    {
        proof {
            reveal(executes);
        }
        let r = self.absolute_x(m);
        let new_value = self.dec_common(r.value, 7);
        m.write8(r.address, new_value);
    }

    fn dcp_absolute_x<M: Memory>(&mut self, m: &mut M)
        requires
            old(self).clock <= CLOCK_LIMIT,
        ensures
            old(m).wf() ==> final(m).wf(),
            executes(*old(self), ins(Op::Dcp, Mode::AbsoluteX, 7), old(m).ops(), final(m).ops(), *final(self)),
    {
        proof {
            reveal(executes);
        }
        let r = self.absolute_x(m);
        let new_value = self.dcp_common(r.value, 7);
        m.write8(r.address, new_value);
    }

    fn cpx_immediate<M: Memory>(&mut self, m: &mut M)
        requires
            old(self).clock <= CLOCK_LIMIT,
        ensures
            old(m).wf() ==> final(m).wf(),
            executes(*old(self), ins(Op::Cpx, Mode::Immediate, 2), old(m).ops(), final(m).ops(), *final(self)),
    {
        proof {
            reveal(executes);
        }
        let value = self.read_next_u8(m);
        self.cpx_common(value, 2);
    }

    fn sbc_zero_page_indirect_x<M: Memory>(&mut self, m: &mut M)
        requires
            old(self).clock <= CLOCK_LIMIT,
        ensures
            old(m).wf() ==> final(m).wf(),
            executes(*old(self), ins(Op::Sbc, Mode::IndirectX, 6), old(m).ops(), final(m).ops(), *final(self)),
    {
        proof {
            reveal(executes);
        }
        let r = self.zero_page_indirect_x(m);
        self.sbc_common(r.value, 6);
    }

    fn isc_zero_page_indirect_x<M: Memory>(&mut self, m: &mut M)
        requires
            old(self).clock <= CLOCK_LIMIT,
        ensures
            old(m).wf() ==> final(m).wf(),
            executes(*old(self), ins(Op::Isc, Mode::IndirectX, 8), old(m).ops(), final(m).ops(), *final(self)),
    {
        proof {
            reveal(executes);
        }
        let r = self.zero_page_indirect_x(m);
        let new_value = self.isc_common(r.value, 8);
        m.write8(r.address, new_value);
    }

    fn cpx_zerp_page<M: Memory>(&mut self, m: &mut M)
        requires
            old(self).clock <= CLOCK_LIMIT,
        ensures
            old(m).wf() ==> final(m).wf(),
            executes(*old(self), ins(Op::Cpx, Mode::ZeroPage, 3), old(m).ops(), final(m).ops(), *final(self)),
    {
        proof {
            reveal(executes);
        }
        let r = self.zero_page_fixed(m);
        self.cpx_common(r.value, 3);
    }

    fn sbc_zero_page<M: Memory>(&mut self, m: &mut M)
        requires
            old(self).clock <= CLOCK_LIMIT,
        ensures
            old(m).wf() ==> final(m).wf(),
            executes(*old(self), ins(Op::Sbc, Mode::ZeroPage, 3), old(m).ops(), final(m).ops(), *final(self)),
    {
        proof {
            reveal(executes);
        }
        let r = self.zero_page_fixed(m);
        self.sbc_common(r.value, 3);
    }

    fn inc_zero_page<M: Memory>(&mut self, m: &mut M)
        requires
            old(self).clock <= CLOCK_LIMIT,
        ensures
            old(m).wf() ==> final(m).wf(),
            executes(*old(self), ins(Op::Inc, Mode::ZeroPage, 5), old(m).ops(), final(m).ops(), *final(self)),
    {
        proof {
            reveal(executes);
        }
        let r = self.zero_page_fixed(m);
        let new_value = self.inc_common(r.value, 5);
        m.write8(r.address, new_value);
    }

    fn isc_zero_page<M: Memory>(&mut self, m: &mut M)
        requires
            old(self).clock <= CLOCK_LIMIT,
        ensures
            old(m).wf() ==> final(m).wf(),
            executes(*old(self), ins(Op::Isc, Mode::ZeroPage, 5), old(m).ops(), final(m).ops(), *final(self)),
    {
        proof {
            reveal(executes);
        }
        let r = self.zero_page_fixed(m);
        let new_value = self.isc_common(r.value, 5);
        m.write8(r.address, new_value);
    }

    fn sbc_immediate<M: Memory>(&mut self, m: &mut M)
        requires
            old(self).clock <= CLOCK_LIMIT,
        ensures
            old(m).wf() ==> final(m).wf(),
            executes(*old(self), ins(Op::Sbc, Mode::Immediate, 2), old(m).ops(), final(m).ops(), *final(self)),
    {
        proof {
            reveal(executes);
        }
        let value = self.read_next_u8(m);
        self.sbc_common(value, 2);
    }

    fn cpx_absolute<M: Memory>(&mut self, m: &mut M)
        requires
            old(self).clock <= CLOCK_LIMIT,
        ensures
            old(m).wf() ==> final(m).wf(),
            executes(*old(self), ins(Op::Cpx, Mode::Absolute, 4), old(m).ops(), final(m).ops(), *final(self)),
    {
        proof {
            reveal(executes);
        }
        let r = self.absolute(m);
        self.cpx_common(r.value, 4);
    }

    fn sbc_absolute<M: Memory>(&mut self, m: &mut M)
        requires
            old(self).clock <= CLOCK_LIMIT,
        ensures
            old(m).wf() ==> final(m).wf(),
            executes(*old(self), ins(Op::Sbc, Mode::Absolute, 4), old(m).ops(), final(m).ops(), *final(self)),
    {
        proof {
            reveal(executes);
        }
        let r = self.absolute(m);
        self.sbc_common(r.value, 4);
    }

    fn inc_absolute<M: Memory>(&mut self, m: &mut M)
        requires
            old(self).clock <= CLOCK_LIMIT,
        ensures
            old(m).wf() ==> final(m).wf(),
            executes(*old(self), ins(Op::Inc, Mode::Absolute, 6), old(m).ops(), final(m).ops(), *final(self)),
    {
        proof {
            reveal(executes);
        }
        let r = self.absolute(m);
        let new_value = self.inc_common(r.value, 6);
        m.write8(r.address, new_value);
    }

    fn isc_absolute<M: Memory>(&mut self, m: &mut M)
        requires
            old(self).clock <= CLOCK_LIMIT,
        ensures
            old(m).wf() ==> final(m).wf(),
            executes(*old(self), ins(Op::Isc, Mode::Absolute, 6), old(m).ops(), final(m).ops(), *final(self)),
    {
        proof {
            reveal(executes);
        }
        let r = self.absolute(m);
        let new_value = self.isc_common(r.value, 6);
        m.write8(r.address, new_value);
    }

    fn sbc_zero_page_indirect_y<M: Memory>(&mut self, m: &mut M)
        requires
            old(self).clock <= CLOCK_LIMIT,
        ensures
            old(m).wf() ==> final(m).wf(),
            executes(*old(self), ins(Op::Sbc, Mode::IndirectY, 5), old(m).ops(), final(m).ops(), *final(self)),
    {
        proof {
            reveal(executes);
        }
        let r = self.zero_page_indirect_y(m);
        self.sbc_common(r.value, 5 + r.extra_clock);
    }

    fn isc_zero_page_indirect_y<M: Memory>(&mut self, m: &mut M)
        requires
            old(self).clock <= CLOCK_LIMIT,
        ensures
            old(m).wf() ==> final(m).wf(),
            executes(*old(self), ins(Op::Isc, Mode::IndirectY, 8), old(m).ops(), final(m).ops(), *final(self)),
    {
        proof {
            reveal(executes);
        }
        let r = self.zero_page_indirect_y(m);
        let new_value = self.isc_common(r.value, 8);
        m.write8(r.address, new_value);
    }

    fn sbc_zero_page_x<M: Memory>(&mut self, m: &mut M)
        requires
            old(self).clock <= CLOCK_LIMIT,
        ensures
            old(m).wf() ==> final(m).wf(),
            executes(*old(self), ins(Op::Sbc, Mode::ZeroPageX, 4), old(m).ops(), final(m).ops(), *final(self)),
    {
        proof {
            reveal(executes);
        }
        let r = self.zero_page_x(m);
        self.sbc_common(r.value, 4);
    }

    fn inc_zero_page_x<M: Memory>(&mut self, m: &mut M)
        requires
            old(self).clock <= CLOCK_LIMIT,
        ensures
            old(m).wf() ==> final(m).wf(),
            executes(*old(self), ins(Op::Inc, Mode::ZeroPageX, 6), old(m).ops(), final(m).ops(), *final(self)),
    {
        proof {
            reveal(executes);
        }
        let r = self.zero_page_x(m);
        let new_value = self.inc_common(r.value, 6);
        m.write8(r.address, new_value);
    }

    fn isc_zero_page_x<M: Memory>(&mut self, m: &mut M)
        requires
            old(self).clock <= CLOCK_LIMIT,
        ensures
            old(m).wf() ==> final(m).wf(),
            executes(*old(self), ins(Op::Isc, Mode::ZeroPageX, 6), old(m).ops(), final(m).ops(), *final(self)),
    {
        proof {
            reveal(executes);
        }
        let r = self.zero_page_x(m);
        let new_value = self.isc_common(r.value, 6);
        m.write8(r.address, new_value);
    }

    fn sbc_absolute_y<M: Memory>(&mut self, m: &mut M)
        requires
            old(self).clock <= CLOCK_LIMIT,
        ensures
            old(m).wf() ==> final(m).wf(),
            executes(*old(self), ins(Op::Sbc, Mode::AbsoluteY, 4), old(m).ops(), final(m).ops(), *final(self)),
    {
        proof {
            reveal(executes);
        }
        let r = self.absolute_y(m);
        self.sbc_common(r.value, 4 + r.extra_clock);
    }

    fn isc_absolute_y<M: Memory>(&mut self, m: &mut M)
        requires
            old(self).clock <= CLOCK_LIMIT,
        ensures
            old(m).wf() ==> final(m).wf(),
            executes(*old(self), ins(Op::Isc, Mode::AbsoluteY, 7), old(m).ops(), final(m).ops(), *final(self)),
    {
        proof {
            reveal(executes);
        }
        let r = self.absolute_y(m);
        let new_value = self.isc_common(r.value, 7);
        m.write8(r.address, new_value);
    }

    fn sbc_absolute_x<M: Memory>(&mut self, m: &mut M)
        requires
            old(self).clock <= CLOCK_LIMIT,
        ensures
            old(m).wf() ==> final(m).wf(),
            executes(*old(self), ins(Op::Sbc, Mode::AbsoluteX, 4), old(m).ops(), final(m).ops(), *final(self)),
    {
        proof {
            reveal(executes);
        }
        let r = self.absolute_x(m);
        self.sbc_common(r.value, 4 + r.extra_clock);
    }

    fn inc_absolute_x<M: Memory>(&mut self, m: &mut M)
        requires
            old(self).clock <= CLOCK_LIMIT,
        ensures
            old(m).wf() ==> final(m).wf(),
            executes(*old(self), ins(Op::Inc, Mode::AbsoluteX, 7), old(m).ops(), final(m).ops(), *final(self)),
    {
        proof {
            reveal(executes);
        }
        let r = self.absolute_x(m);
        let new_value = self.inc_common(r.value, 7);
        m.write8(r.address, new_value);
    }

    fn isc_absolute_x<M: Memory>(&mut self, m: &mut M)
        requires
            old(self).clock <= CLOCK_LIMIT,
        ensures
            old(m).wf() ==> final(m).wf(),
            executes(*old(self), ins(Op::Isc, Mode::AbsoluteX, 7), old(m).ops(), final(m).ops(), *final(self)),
    {
        proof {
            reveal(executes);
        }
        let r = self.absolute_x(m);
        let new_value = self.isc_common(r.value, 7);
        m.write8(r.address, new_value);
    }

    fn brk<M: Memory>(&mut self, m: &mut M)
        requires
            old(self).clock <= CLOCK_LIMIT,
        ensures
            old(m).wf() ==> final(m).wf(),
            executes(*old(self), ins(Op::Brk, Mode::Implied, 7), old(m).ops(), final(m).ops(), *final(self)),
    {
        proof {
            reveal(executes);
        }
        self.push16(m, self.pc.wrapping_add(1));
        let mut pushed = self.flags;
        pushed.set(BREAK_COMMAND, true);
        pushed.set(UNUSED, true);
        self.push8(m, pushed.bits());
        self.flags.set(INTERRUPT_DISABLE, true);
        self.pc = m.read16(INTERRUPT_REQUEST_INTERRUPT_ADDRESS);
        self.tick(7);
    }

    fn php<M: Memory>(&mut self, m: &mut M)
        requires
            old(self).clock <= CLOCK_LIMIT,
        ensures
            old(m).wf() ==> final(m).wf(),
            executes(*old(self), ins(Op::Php, Mode::Implied, 3), old(m).ops(), final(m).ops(), *final(self)),
    {
        proof {
            reveal(executes);
        }
        let mut pushed = self.flags;
        pushed.set(BREAK_COMMAND, true);
        pushed.set(UNUSED, true);
        self.push8(m, pushed.bits());
        self.tick(3);
    }

    /// The flags restored from a pulled byte: BREAK cleared, UNUSED set.
    fn pulled(value: u8) -> (r: Flags)
        ensures
            r == pulled_flags(value),
    {
        let mut flags = Flags::from_bits_retain(value);
        flags.set(BREAK_COMMAND, false);
        flags.set(UNUSED, true);
        flags
    }

    fn plp<M: Memory>(&mut self, m: &mut M)
        requires
            old(self).clock <= CLOCK_LIMIT,
        ensures
            old(m).wf() ==> final(m).wf(),
            executes(*old(self), ins(Op::Plp, Mode::Implied, 4), old(m).ops(), final(m).ops(), *final(self)),
    {
        proof {
            reveal(executes);
        }
        let value = self.pop8(m);
        self.flags = CPU::pulled(value);
        self.tick(4);
    }

    fn rti<M: Memory>(&mut self, m: &mut M)
        requires
            old(self).clock <= CLOCK_LIMIT,
        ensures
            old(m).wf() ==> final(m).wf(),
            executes(*old(self), ins(Op::Rti, Mode::Implied, 6), old(m).ops(), final(m).ops(), *final(self)),
    {
        proof {
            reveal(executes);
        }
        let value = self.pop8(m);
        self.flags = CPU::pulled(value);
        self.pc = self.pop16(m);
        self.tick(6);
    }

    fn rta<M: Memory>(&mut self, m: &mut M)
        requires
            old(self).clock <= CLOCK_LIMIT,
        ensures
            old(m).wf() ==> final(m).wf(),
            executes(*old(self), ins(Op::Rts, Mode::Implied, 6), old(m).ops(), final(m).ops(), *final(self)),
    {
        proof {
            reveal(executes);
        }
        self.pc = self.pop16(m).wrapping_add(1);
        self.tick(6);
    }

    fn pha<M: Memory>(&mut self, m: &mut M)
        requires
            old(self).clock <= CLOCK_LIMIT,
        ensures
            old(m).wf() ==> final(m).wf(),
            executes(*old(self), ins(Op::Pha, Mode::Implied, 3), old(m).ops(), final(m).ops(), *final(self)),
    {
        proof {
            reveal(executes);
        }
        self.push8(m, self.a);
        self.tick(3);
    }

    fn pla<M: Memory>(&mut self, m: &mut M)
        requires
            old(self).clock <= CLOCK_LIMIT,
        ensures
            old(m).wf() ==> final(m).wf(),
            executes(*old(self), ins(Op::Pla, Mode::Implied, 4), old(m).ops(), final(m).ops(), *final(self)),
    {
        proof {
            reveal(executes);
        }
        self.a = self.pop8(m);
        self.flags.set_nz(self.a);
        self.tick(4);
    }

    fn jsr<M: Memory>(&mut self, m: &mut M)
        requires
            old(self).clock <= CLOCK_LIMIT,
        ensures
            old(m).wf() ==> final(m).wf(),
            executes(*old(self), ins(Op::Jsr, Mode::Absolute, 6), old(m).ops(), final(m).ops(), *final(self)),
    {
        proof {
            reveal(executes);
        }
        let address = self.read_next_u16(m);
        self.push16(m, self.pc.wrapping_sub(1));
        self.pc = address;
        self.tick(6);
    }

    fn jmp_absolute<M: Memory>(&mut self, m: &mut M)
        requires
            old(self).clock <= CLOCK_LIMIT,
        ensures
            old(m).wf() ==> final(m).wf(),
            executes(*old(self), ins(Op::Jmp, Mode::Absolute, 3), old(m).ops(), final(m).ops(), *final(self)),
    {
        proof {
            reveal(executes);
        }
        self.pc = self.read_next_u16(m);
        self.tick(3);
    }

    fn jmp_indirect<M: Memory>(&mut self, m: &mut M)
        requires
            old(self).clock <= CLOCK_LIMIT,
        ensures
            old(m).wf() ==> final(m).wf(),
            executes(*old(self), ins(Op::Jmp, Mode::Indirect, 5), old(m).ops(), final(m).ops(), *final(self)),
    {
        proof {
            reveal(executes);
        }
        let address = self.read_next_u16(m);
        // the high byte comes from the same page as the low byte, even when the pointer
        // sits at the end of a page
        self.pc = if address % 256 == 0xff {
            let low = m.read8(address);
            let high = m.read8(address - 0xff);
            Word { low, high }.to_u16()
        } else {
            m.read16(address)
        };
        self.tick(5);
    }

    fn bpl<M: Memory>(&mut self, m: &mut M)
        requires
            old(self).clock <= CLOCK_LIMIT,
        ensures
            old(m).wf() ==> final(m).wf(),
            executes(*old(self), ins(Op::Bpl, Mode::Relative, 2), old(m).ops(), final(m).ops(), *final(self)),
    {
        proof {
            reveal(executes);
        }
        self.branch_common(m, !self.flags.contains(NEGATIVE));
    }

    fn bmi<M: Memory>(&mut self, m: &mut M)
        requires
            old(self).clock <= CLOCK_LIMIT,
        ensures
            old(m).wf() ==> final(m).wf(),
            executes(*old(self), ins(Op::Bmi, Mode::Relative, 2), old(m).ops(), final(m).ops(), *final(self)),
    {
        proof {
            reveal(executes);
        }
        self.branch_common(m, self.flags.contains(NEGATIVE));
    }

    fn bvc<M: Memory>(&mut self, m: &mut M)
        requires
            old(self).clock <= CLOCK_LIMIT,
        ensures
            old(m).wf() ==> final(m).wf(),
            executes(*old(self), ins(Op::Bvc, Mode::Relative, 2), old(m).ops(), final(m).ops(), *final(self)),
    {
        proof {
            reveal(executes);
        }
        self.branch_common(m, !self.flags.contains(OVERFLOW));
    }

    fn bvs<M: Memory>(&mut self, m: &mut M)
        requires
            old(self).clock <= CLOCK_LIMIT,
        ensures
            old(m).wf() ==> final(m).wf(),
            executes(*old(self), ins(Op::Bvs, Mode::Relative, 2), old(m).ops(), final(m).ops(), *final(self)),
    {
        proof {
            reveal(executes);
        }
        self.branch_common(m, self.flags.contains(OVERFLOW));
    }

    fn bcc<M: Memory>(&mut self, m: &mut M)
        requires
            old(self).clock <= CLOCK_LIMIT,
        ensures
            old(m).wf() ==> final(m).wf(),
            executes(*old(self), ins(Op::Bcc, Mode::Relative, 2), old(m).ops(), final(m).ops(), *final(self)),
    {
        proof {
            reveal(executes);
        }
        self.branch_common(m, !self.flags.contains(CARRY));
    }

    fn bcs<M: Memory>(&mut self, m: &mut M)
        requires
            old(self).clock <= CLOCK_LIMIT,
        ensures
            old(m).wf() ==> final(m).wf(),
            executes(*old(self), ins(Op::Bcs, Mode::Relative, 2), old(m).ops(), final(m).ops(), *final(self)),
    {
        proof {
            reveal(executes);
        }
        self.branch_common(m, self.flags.contains(CARRY));
    }

    fn bne<M: Memory>(&mut self, m: &mut M)
        requires
            old(self).clock <= CLOCK_LIMIT,
        ensures
            old(m).wf() ==> final(m).wf(),
            executes(*old(self), ins(Op::Bne, Mode::Relative, 2), old(m).ops(), final(m).ops(), *final(self)),
    {
        proof {
            reveal(executes);
        }
        self.branch_common(m, !self.flags.contains(ZERO));
    }

    fn beq<M: Memory>(&mut self, m: &mut M)
        requires
            old(self).clock <= CLOCK_LIMIT,
        ensures
            old(m).wf() ==> final(m).wf(),
            executes(*old(self), ins(Op::Beq, Mode::Relative, 2), old(m).ops(), final(m).ops(), *final(self)),
    {
        proof {
            reveal(executes);
        }
        self.branch_common(m, self.flags.contains(ZERO));
    }

    /// A taken branch reads its offset and costs one cycle more, two when it lands on another
    /// page; one not taken skips its offset byte.
    #[verifier::rlimit(50)]
    fn branch_common<M: Memory>(&mut self, m: &mut M, condition: bool)
        requires
            old(self).clock <= CLOCK_LIMIT,
        ensures
            old(m).wf() ==> final(m).wf(),
            condition ==> {
                let t = final(m).ops();
                let n = old(m).ops().len() as int;
                let next = next_address(old(self).pc);
                let target = branch_target(next, t[n].value());
                &&& appended(old(m).ops(), t, 1)
                &&& read_at(t, n, old(self).pc)
                &&& *final(self) == tick(
                    CPU { pc: target, ..*old(self) },
                    3 + if next / 256 != target / 256 { 1int } else { 0 },
                )
            },
            !condition ==> {
                &&& final(m).ops() == old(m).ops()
                &&& *final(self) == tick(advance(*old(self), 1), 2)
            },
    {
        if condition {
            let offset = self.read_next_u8(m);
            // high byte of the address after the branch instruction
            let high1 = self.pc / 256;
            self.pc = if offset < 0x80 {
                self.pc.wrapping_add(offset as u16)
            } else {
                self.pc.wrapping_add(offset as u16).wrapping_sub(0x100)
            };
            // high byte of the branch destination
            let high2 = self.pc / 256;
            self.tick(if high1 == high2 { 3 } else { 4 });
        } else {
            self.pc = self.pc.wrapping_add(1);
            self.tick(2);
        }
    }

    fn clc(&mut self)
        requires
            old(self).clock <= CLOCK_LIMIT,
        ensures
            *final(self) == tick(implied_result(Op::Clc, *old(self)), 2),
    {
        self.flags.set(CARRY, false);
        self.tick(2);
    }

    fn sec(&mut self)
        requires
            old(self).clock <= CLOCK_LIMIT,
        ensures
            *final(self) == tick(implied_result(Op::Sec, *old(self)), 2),
    {
        self.flags.set(CARRY, true);
        self.tick(2);
    }

    fn cli(&mut self)
        requires
            old(self).clock <= CLOCK_LIMIT,
        ensures
            *final(self) == tick(implied_result(Op::Cli, *old(self)), 2),
    {
        self.flags.set(INTERRUPT_DISABLE, false);
        self.tick(2);
    }

    fn sei(&mut self)
        requires
            old(self).clock <= CLOCK_LIMIT,
        ensures
            *final(self) == tick(implied_result(Op::Sei, *old(self)), 2),
    {
        self.flags.set(INTERRUPT_DISABLE, true);
        self.tick(2);
    }

    fn cld(&mut self)
        requires
            old(self).clock <= CLOCK_LIMIT,
        ensures
            *final(self) == tick(implied_result(Op::Cld, *old(self)), 2),
    {
        self.flags.set(DECIMAL_MODE, false);
        self.tick(2);
    }

    fn sed(&mut self)
        requires
            old(self).clock <= CLOCK_LIMIT,
        ensures
            *final(self) == tick(implied_result(Op::Sed, *old(self)), 2),
    {
        self.flags.set(DECIMAL_MODE, true);
        self.tick(2);
    }

    fn clv(&mut self)
        requires
            old(self).clock <= CLOCK_LIMIT,
        ensures
            *final(self) == tick(implied_result(Op::Clv, *old(self)), 2),
    {
        self.flags.set(OVERFLOW, false);
        self.tick(2);
    }

    fn tax(&mut self)
        requires
            old(self).clock <= CLOCK_LIMIT,
        ensures
            *final(self) == tick(implied_result(Op::Tax, *old(self)), 2),
    {
        self.x = self.a;
        self.flags.set_nz(self.a);
        self.tick(2);
    }

    fn tay(&mut self)
        requires
            old(self).clock <= CLOCK_LIMIT,
        ensures
            *final(self) == tick(implied_result(Op::Tay, *old(self)), 2),
    {
        self.y = self.a;
        self.flags.set_nz(self.a);
        self.tick(2);
    }

    fn txa(&mut self)
        requires
            old(self).clock <= CLOCK_LIMIT,
        ensures
            *final(self) == tick(implied_result(Op::Txa, *old(self)), 2),
    {
        self.a = self.x;
        self.flags.set_nz(self.a);
        self.tick(2);
    }

    fn tya(&mut self)
        requires
            old(self).clock <= CLOCK_LIMIT,
        ensures
            *final(self) == tick(implied_result(Op::Tya, *old(self)), 2),
    {
        self.a = self.y;
        self.flags.set_nz(self.a);
        self.tick(2);
    }

    fn tsx(&mut self)
        requires
            old(self).clock <= CLOCK_LIMIT,
        ensures
            *final(self) == tick(implied_result(Op::Tsx, *old(self)), 2),
    {
        self.x = self.sp;
        self.flags.set_nz(self.x);
        self.tick(2);
    }

    fn txs(&mut self)
        requires
            old(self).clock <= CLOCK_LIMIT,
        ensures
            *final(self) == tick(implied_result(Op::Txs, *old(self)), 2),
    {
        self.sp = self.x;
        self.tick(2);
    }

    fn inx(&mut self)
        requires
            old(self).clock <= CLOCK_LIMIT,
        ensures
            *final(self) == tick(implied_result(Op::Inx, *old(self)), 2),
    {
        self.x = self.x.wrapping_add(1);
        self.flags.set_nz(self.x);
        self.tick(2);
    }

    fn iny(&mut self)
        requires
            old(self).clock <= CLOCK_LIMIT,
        ensures
            *final(self) == tick(implied_result(Op::Iny, *old(self)), 2),
    {
        self.y = self.y.wrapping_add(1);
        self.flags.set_nz(self.y);
        self.tick(2);
    }

    fn dex(&mut self)
        requires
            old(self).clock <= CLOCK_LIMIT,
        ensures
            *final(self) == tick(implied_result(Op::Dex, *old(self)), 2),
    {
        self.x = self.x.wrapping_sub(1);
        self.flags.set_nz(self.x);
        self.tick(2);
    }

    fn dey(&mut self)
        requires
            old(self).clock <= CLOCK_LIMIT,
        ensures
            *final(self) == tick(implied_result(Op::Dey, *old(self)), 2),
    {
        self.y = self.y.wrapping_sub(1);
        self.flags.set_nz(self.y);
        self.tick(2);
    }

    fn anc_immediate<M: Memory>(&mut self, m: &mut M)
        requires
            old(self).clock <= CLOCK_LIMIT,
        ensures
            old(m).wf() ==> final(m).wf(),
            executes(*old(self), ins(Op::Anc, Mode::Immediate, 2), old(m).ops(), final(m).ops(), *final(self)),
    {
        proof {
            reveal(executes);
        }
        let value = self.read_next_u8(m);
        let new_value = self.a & value;
        self.a = new_value;
        self.flags.set_nz(new_value);
        self.flags.set(CARRY, new_value >= 0x80);
        self.tick(2);
    }

    fn alr<M: Memory>(&mut self, m: &mut M)
        requires
            old(self).clock <= CLOCK_LIMIT,
        ensures
            old(m).wf() ==> final(m).wf(),
            executes(*old(self), ins(Op::Alr, Mode::Immediate, 2), old(m).ops(), final(m).ops(), *final(self)),
    {
        proof {
            reveal(executes);
        }
        let value = self.a & self.read_next_u8(m);
        self.a = value / 2;
        self.flags.set_nz(self.a);
        self.flags.set(CARRY, value % 2 == 1);
        self.tick(2);
    }

    fn arr_immediate<M: Memory>(&mut self, m: &mut M)
        requires
            old(self).clock <= CLOCK_LIMIT,
        ensures
            old(m).wf() ==> final(m).wf(),
            executes(*old(self), ins(Op::Arr, Mode::Immediate, 2), old(m).ops(), final(m).ops(), *final(self)),
    {
        proof {
            reveal(executes);
        }
        let imm_value = self.read_next_u8(m);
        let and_value = self.a & imm_value;
        let carry = self.carry_bit();
        self.flags.set(OVERFLOW, (and_value ^ (and_value / 2)) & 0x40 != 0);
        let new_value = and_value / 2 + 0x80 * carry;
        self.a = new_value;
        self.flags.set_nz(new_value);
        self.flags.set(CARRY, and_value >= 0x80);
        self.tick(2);
    }

    #[verifier::rlimit(50)]
    fn axs_immediate<M: Memory>(&mut self, m: &mut M)
        requires
            old(self).clock <= CLOCK_LIMIT,
        ensures
            old(m).wf() ==> final(m).wf(),
            executes(*old(self), ins(Op::Axs, Mode::Immediate, 2), old(m).ops(), final(m).ops(), *final(self)),
    {
        proof {
            reveal(executes);
        }
        let left = self.a & self.x;
        let right = self.read_next_u8(m);
        self.x = left.wrapping_sub(right);
        self.flags.set_nz(self.x);
        self.flags.set(CARRY, left >= right);
        self.tick(2);
    }

    fn xaa_immediate<M: Memory>(&mut self, m: &mut M)
        requires
            old(self).clock <= CLOCK_LIMIT,
        ensures
            old(m).wf() ==> final(m).wf(),
            executes(*old(self), ins(Op::Xaa, Mode::Immediate, 2), old(m).ops(), final(m).ops(), *final(self)),
    {
        proof {
            reveal(executes);
        }
        let value = self.read_next_u8(m);
        self.a = self.a | 0xee;
        self.a = self.a & self.x;
        self.a = self.a & value;
        self.flags.set_nz(self.a);
        self.tick(2);
    }

    fn lax_immediate<M: Memory>(&mut self, m: &mut M)
        requires
            old(self).clock <= CLOCK_LIMIT,
        ensures
            old(m).wf() ==> final(m).wf(),
            executes(*old(self), ins(Op::Lxa, Mode::Immediate, 2), old(m).ops(), final(m).ops(), *final(self)),
    {
        proof {
            reveal(executes);
        }
        let value = self.read_next_u8(m);
        let value = (self.a | 0xee) & value;
        self.a = value;
        self.x = value;
        self.flags.set_nz(value);
        self.tick(2);
    }

    fn las_absolute_y<M: Memory>(&mut self, m: &mut M)
        requires
            old(self).clock <= CLOCK_LIMIT,
        ensures
            old(m).wf() ==> final(m).wf(),
            executes(*old(self), ins(Op::Las, Mode::AbsoluteY, 4), old(m).ops(), final(m).ops(), *final(self)),
    {
        proof {
            reveal(executes);
        }
        let r = self.absolute_y(m);
        let value = r.value & self.sp;
        self.a = value;
        self.x = value;
        self.sp = value;
        self.flags.set_nz(value);
        self.tick(4 + r.extra_clock);
    }

    fn nop_absolute_x<M: Memory>(&mut self, m: &mut M)
        requires
            old(self).clock <= CLOCK_LIMIT,
        ensures
            old(m).wf() ==> final(m).wf(),
            executes(*old(self), ins(Op::Nop, Mode::AbsoluteX, 4), old(m).ops(), final(m).ops(), *final(self)),
    {
        proof {
            reveal(executes);
        }
        let r = self.absolute_x(m);
        self.tick(4 + r.extra_clock);
    }

    /// An operation that does nothing but move past its `pc_offset` operand bytes.
    fn nop(&mut self, pc_offset: u16, clock: u64)
        requires
            old(self).clock <= CLOCK_LIMIT,
            clock <= 8,
            pc_offset <= 2,
        ensures
            *final(self) == tick(advance(*old(self), pc_offset as int), clock as int),
    {
        self.pc = self.pc.wrapping_add(pc_offset);
        self.tick(clock);
    }

    /// A jamming opcode: the program counter stays on it.
    fn kil(&mut self)
        requires
            old(self).clock <= CLOCK_LIMIT,
        ensures
            *final(self) == tick(implied_result(Op::Kil, *old(self)), 3),
    {
        self.pc = self.pc.wrapping_sub(1);
        self.tick(3);
    }

    /// The value `register & (high(base) + 1)` and where it goes: on a page cross the high byte of
    /// the address is replaced by that value.
    fn unstable_store(register: u8, input: &AddrValueClock) -> (r: (u16, u8))
        ensures
            r.1 == register & high_plus_one(input.base),
            r.0 == if input.base / 256 != input.address / 256 {
                join((input.address % 256) as u8, r.1)
            } else {
                input.address
            },
    {
        let value = register & ((input.base / 256) as u8).wrapping_add(1);
        let address = if input.base / 256 != input.address / 256 {
            Word { low: (input.address % 256) as u8, high: value }.to_u16()
        } else {
            input.address
        };
        (address, value)
    }

    fn ahx_absolute_y<M: Memory>(&mut self, m: &mut M)
        requires
            old(self).clock <= CLOCK_LIMIT,
        ensures
            old(m).wf() ==> final(m).wf(),
            executes(*old(self), ins(Op::Ahx, Mode::AbsoluteY, 5), old(m).ops(), final(m).ops(), *final(self)),
    {
        proof {
            reveal(executes);
        }
        let input = self.absolute_y(m);
        self.ahx_common(m, input, 5);
    }

    fn ahx_zero_page_indirect_y<M: Memory>(&mut self, m: &mut M)
        requires
            old(self).clock <= CLOCK_LIMIT,
        ensures
            old(m).wf() ==> final(m).wf(),
            executes(*old(self), ins(Op::Ahx, Mode::IndirectY, 6), old(m).ops(), final(m).ops(), *final(self)),
    {
        proof {
            reveal(executes);
        }
        let input = self.zero_page_indirect_y(m);
        self.ahx_common(m, input, 6);
    }

    fn ahx_common<M: Memory>(&mut self, m: &mut M, input: AddrValueClock, clock: u64)
        requires
            old(self).clock <= CLOCK_LIMIT,
            clock <= 8,
        ensures
            old(m).wf() ==> final(m).wf(),
            final(m).ops() == old(m).ops().push(
                BusOp::Write {
                    address: store_address(Op::Ahx, *old(self), input.base, input.address),
                    value: store_value(Op::Ahx, *old(self), input.base),
                },
            ),
            *final(self) == tick(*old(self), clock as int),
    {
        let (address, value) = CPU::unstable_store(self.a & self.x, &input);
        m.write8(address, value);
        self.tick(clock);
    }

    fn tas_absolute_y<M: Memory>(&mut self, m: &mut M)
        requires
            old(self).clock <= CLOCK_LIMIT,
        ensures
            old(m).wf() ==> final(m).wf(),
            executes(*old(self), ins(Op::Tas, Mode::AbsoluteY, 5), old(m).ops(), final(m).ops(), *final(self)),
    {
        proof {
            reveal(executes);
        }
        let input = self.absolute_y(m);
        let (address, value) = CPU::unstable_store(self.a & self.x, &input);
        self.sp = self.a & self.x;
        m.write8(address, value);
        self.tick(5);
    }

    fn shy_absolute_x<M: Memory>(&mut self, m: &mut M)
        requires
            old(self).clock <= CLOCK_LIMIT,
        ensures
            old(m).wf() ==> final(m).wf(),
            executes(*old(self), ins(Op::Shy, Mode::AbsoluteX, 5), old(m).ops(), final(m).ops(), *final(self)),
    {
        proof {
            reveal(executes);
        }
        let input = self.absolute_x(m);
        let (address, value) = CPU::unstable_store(self.y, &input);
        m.write8(address, value);
        self.tick(5);
    }

    fn shx_absolute_y<M: Memory>(&mut self, m: &mut M)
        requires
            old(self).clock <= CLOCK_LIMIT,
        ensures
            old(m).wf() ==> final(m).wf(),
            executes(*old(self), ins(Op::Shx, Mode::AbsoluteY, 5), old(m).ops(), final(m).ops(), *final(self)),
    {
        proof {
            reveal(executes);
        }
        let input = self.absolute_y(m);
        let (address, value) = CPU::unstable_store(self.x, &input);
        m.write8(address, value);
        self.tick(5);
    }
}

} // verus!

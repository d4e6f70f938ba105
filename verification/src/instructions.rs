//! The fetch-decode-execute step: a total dispatcher over the full 256-value
//! opcode space. One step fetches an opcode byte at the program counter,
//! dispatches to its handler, mutates the state in place, and reports the
//! instruction's cycle cost; a halted core makes no progress until an
//! external event resumes it.
//!
//! The meaning of every opcode is pinned down by the specification
//! interpreter `spec_step`: the exec dispatcher is proved to produce exactly
//! the state and cycle cost that `spec_step` assigns to every starting state.

use vstd::prelude::*;
use crate::cpu::{
    CPU, CpuState, flag_bit, half_add, half_borrow, hi8, lo8, pair16, parity8, psw_byte, psw_load,
    sign8, spec_pop_state, spec_pop_value, spec_push, wrap16, wrap8,
};
use crate::machine::{mem_rd, mem_wr};
use vstd::arithmetic::div_mod::lemma_mod_add_multiples_vanish;

verus! {

/// What one step of the dispatcher reports: an instruction executed with its
/// cycle cost, or no progress because the core is halted.
#[derive(Clone, Copy, Debug, PartialEq, Eq, Structural)]
pub enum StepOutcome {
    Executed { cycles: u8 },
    Halted,
}

// ---------------------------------------------------------------------------
// Specification interpreter.
// ---------------------------------------------------------------------------

/// The state with the program counter advanced by `k`, wrapping.
pub open spec fn adv(s: CpuState, k: int) -> CpuState {
    CpuState { pc: wrap16(s.pc + k), ..s }
}

/// The 8-bit immediate operand: the byte at the program counter.
pub open spec fn imm8(s: CpuState) -> u8 {
    mem_rd(s.mem, s.pc)
}

/// The 16-bit immediate operand, combined little-endian: the byte at the
/// program counter is the low half, the next byte the high half.
pub open spec fn imm16(s: CpuState) -> u16 {
    pair16(mem_rd(s.mem, wrap16(s.pc + 1)), mem_rd(s.mem, s.pc))
}

/// The general register selected by a 3-bit operand field (6, which denotes
/// memory at the HL address, is resolved by the handlers before this).
pub open spec fn reg_val(s: CpuState, i: u8) -> u8 {
    if i == 0 {
        s.b
    } else if i == 1 {
        s.c
    } else if i == 2 {
        s.d
    } else if i == 3 {
        s.e
    } else if i == 4 {
        s.h
    } else if i == 5 {
        s.l
    } else {
        s.a
    }
}

/// The state with the register selected by a 3-bit operand field replaced.
pub open spec fn reg_set(s: CpuState, i: u8, v: u8) -> CpuState {
    if i == 0 {
        CpuState { b: v, ..s }
    } else if i == 1 {
        CpuState { c: v, ..s }
    } else if i == 2 {
        CpuState { d: v, ..s }
    } else if i == 3 {
        CpuState { e: v, ..s }
    } else if i == 4 {
        CpuState { h: v, ..s }
    } else if i == 5 {
        CpuState { l: v, ..s }
    } else {
        CpuState { a: v, ..s }
    }
}

/// The register pair selected by a 2-bit pair field: BC, DE, HL or SP.
pub open spec fn rp_val(s: CpuState, p: u8) -> u16 {
    if p == 0 {
        pair16(s.b, s.c)
    } else if p == 1 {
        pair16(s.d, s.e)
    } else if p == 2 {
        pair16(s.h, s.l)
    } else {
        s.sp
    }
}

/// The state with the selected register pair replaced; writing a pair writes
/// the same two byte cells the single-register accessors see.
pub open spec fn rp_set(s: CpuState, p: u8, v: u16) -> CpuState {
    if p == 0 {
        CpuState { b: hi8(v), c: lo8(v), ..s }
    } else if p == 1 {
        CpuState { d: hi8(v), e: lo8(v), ..s }
    } else if p == 2 {
        CpuState { h: hi8(v), l: lo8(v), ..s }
    } else {
        CpuState { sp: v, ..s }
    }
}

/// The sign, zero and parity flags every arithmetic and logical handler
/// derives from its 8-bit result.
pub open spec fn szp(s: CpuState, r: u8) -> CpuState {
    CpuState { sign_flag: sign8(r), zero_flag: r == 0, parity_flag: parity8(r), ..s }
}

/// Flag effect of an 8-bit increment: sign, zero, parity and half-carry;
/// the carry flag is untouched.
pub open spec fn spec_inr(s: CpuState, v: u8) -> CpuState {
    CpuState { half_carry_flag: half_add(v, 1), ..szp(s, wrap8(v + 1)) }
}

/// Flag effect of an 8-bit decrement: sign, zero, parity and half-borrow;
/// the carry flag is untouched.
pub open spec fn spec_dcr(s: CpuState, v: u8) -> CpuState {
    CpuState { half_carry_flag: half_borrow(v, 1), ..szp(s, wrap8(v - 1)) }
}

/// Accumulator addition with an optional carry-in: all five flags.
pub open spec fn spec_add(s: CpuState, v: u8, carry_in: bool) -> CpuState {
    let r = wrap8(s.a + v + flag_bit(carry_in));
    CpuState {
        a: r,
        carry_flag: s.a + v + flag_bit(carry_in) > 0xFF,
        half_carry_flag: s.a % 8 + v % 8 + flag_bit(carry_in) > 7,
        ..szp(s, r)
    }
}

/// Accumulator subtraction with an optional borrow-in: all five flags; with
/// `store` false (the compare instructions) the accumulator keeps its value.
pub open spec fn spec_sub(s: CpuState, v: u8, borrow_in: bool, store: bool) -> CpuState {
    let r = wrap8(s.a - v - flag_bit(borrow_in));
    CpuState {
        a: if store {
            r
        } else {
            s.a
        },
        carry_flag: s.a < v + flag_bit(borrow_in),
        half_carry_flag: half_borrow(s.a, v),
        ..szp(s, r)
    }
}

/// Accumulator AND: sign, zero and parity from the result; carry and
/// half-carry cleared, as for all the logical operations.
pub open spec fn spec_and(s: CpuState, v: u8) -> CpuState {
    CpuState { a: s.a & v, carry_flag: false, half_carry_flag: false, ..szp(s, s.a & v) }
}

/// Accumulator XOR.
pub open spec fn spec_xor(s: CpuState, v: u8) -> CpuState {
    CpuState { a: s.a ^ v, carry_flag: false, half_carry_flag: false, ..szp(s, s.a ^ v) }
}

/// Accumulator OR.
pub open spec fn spec_or(s: CpuState, v: u8) -> CpuState {
    CpuState { a: s.a | v, carry_flag: false, half_carry_flag: false, ..szp(s, s.a | v) }
}

/// The eight accumulator operations selected by the 3-bit operation field:
/// ADD, ADC, SUB, SBB, ANA, XRA, ORA, CMP.
pub open spec fn spec_alu_op(s: CpuState, y: u8, v: u8) -> CpuState {
    if y == 0 {
        spec_add(s, v, false)
    } else if y == 1 {
        spec_add(s, v, s.carry_flag)
    } else if y == 2 {
        spec_sub(s, v, false, true)
    } else if y == 3 {
        spec_sub(s, v, s.carry_flag, true)
    } else if y == 4 {
        spec_and(s, v)
    } else if y == 5 {
        spec_xor(s, v)
    } else if y == 6 {
        spec_or(s, v)
    } else {
        spec_sub(s, v, false, false)
    }
}

/// Rotate the accumulator left; the carry flag receives the former bit 7.
pub open spec fn spec_rlc(s: CpuState) -> CpuState {
    CpuState {
        a: (s.a % 0x80 * 2 + flag_bit(s.a >= 0x80)) as u8,
        carry_flag: s.a >= 0x80,
        ..s
    }
}

/// Rotate the accumulator right; the carry flag receives the former bit 0.
pub open spec fn spec_rrc(s: CpuState) -> CpuState {
    CpuState {
        a: (s.a / 2 + flag_bit(s.a % 2 == 1) * 0x80) as u8,
        carry_flag: s.a % 2 == 1,
        ..s
    }
}

/// Rotate left through the carry flag: the old carry enters at bit 0.
pub open spec fn spec_ral(s: CpuState) -> CpuState {
    CpuState {
        a: (s.a % 0x80 * 2 + flag_bit(s.carry_flag)) as u8,
        carry_flag: s.a >= 0x80,
        ..s
    }
}

/// Rotate right through the carry flag: the old carry enters at bit 7.
pub open spec fn spec_rar(s: CpuState) -> CpuState {
    CpuState {
        a: (s.a / 2 + flag_bit(s.carry_flag) * 0x80) as u8,
        carry_flag: s.a % 2 == 1,
        ..s
    }
}

/// Decimal adjust: each nibble of the accumulator above 9 (or flagged by a
/// half-carry or carry) is pushed into decimal range by adding 6; the carry
/// flag is set by a high-nibble adjustment and never cleared.
pub open spec fn spec_daa(s: CpuState) -> CpuState {
    let low = s.a % 16;
    let a1 = if low > 9 || s.half_carry_flag {
        wrap8(s.a + 6)
    } else {
        s.a
    };
    let a2 = if a1 / 16 > 9 || s.carry_flag {
        wrap8(a1 + 0x60)
    } else {
        a1
    };
    CpuState {
        a: a2,
        carry_flag: s.carry_flag || a1 / 16 > 9,
        half_carry_flag: low > 9,
        ..szp(s, a2)
    }
}

/// The branch condition selected by a 3-bit condition field: not-zero, zero,
/// no-carry, carry, parity-odd, parity-even, plus, minus.
pub open spec fn spec_cond(s: CpuState, y: u8) -> bool {
    if y == 0 {
        !s.zero_flag
    } else if y == 1 {
        s.zero_flag
    } else if y == 2 {
        !s.carry_flag
    } else if y == 3 {
        s.carry_flag
    } else if y == 4 {
        !s.parity_flag
    } else if y == 5 {
        s.parity_flag
    } else if y == 6 {
        !s.sign_flag
    } else {
        s.sign_flag
    }
}

/// The data-transfer, increment and rotate block, opcodes 0x00 through 0x3F,
/// applied to the state after the opcode fetch. Opcode column 0 holds NOP
/// and its undocumented duplicates.
pub open spec fn spec_misc(s: CpuState, op: u8) -> (CpuState, u8) {
    let y = op / 8;
    let z = op % 8;
    let p = op / 16;
    let q = y % 2;
    if z == 0 {
        (s, 4)
    } else if z == 1 {
        if q == 0 {
            (rp_set(adv(s, 2), p, imm16(s)), 10)
        } else {
            let sum = pair16(s.h, s.l) + rp_val(s, p);
            (CpuState { carry_flag: sum > 0xFFFF, ..rp_set(s, 2, wrap16(sum)) }, 10)
        }
    } else if z == 2 {
        if q == 0 {
            if p < 2 {
                (CpuState { mem: mem_wr(s.mem, rp_val(s, p), s.a), ..s }, 7)
            } else if p == 2 {
                let addr = imm16(s);
                (
                    CpuState {
                        mem: mem_wr(mem_wr(s.mem, addr, s.l), wrap16(addr + 1), s.h),
                        ..adv(s, 2)
                    },
                    16,
                )
            } else {
                (CpuState { mem: mem_wr(s.mem, imm16(s), s.a), ..adv(s, 2) }, 13)
            }
        } else {
            if p < 2 {
                (CpuState { a: mem_rd(s.mem, rp_val(s, p)), ..s }, 7)
            } else if p == 2 {
                let addr = imm16(s);
                (
                    CpuState {
                        h: mem_rd(s.mem, wrap16(addr + 1)),
                        l: mem_rd(s.mem, addr),
                        ..adv(s, 2)
                    },
                    16,
                )
            } else {
                (CpuState { a: mem_rd(s.mem, imm16(s)), ..adv(s, 2) }, 13)
            }
        }
    } else if z == 3 {
        if q == 0 {
            (rp_set(s, p, wrap16(rp_val(s, p) + 1)), 5)
        } else {
            (rp_set(s, p, wrap16(rp_val(s, p) - 1)), 5)
        }
    } else if z == 4 {
        if y == 6 {
            let v = mem_rd(s.mem, pair16(s.h, s.l));
            (CpuState { mem: mem_wr(s.mem, pair16(s.h, s.l), wrap8(v + 1)), ..spec_inr(s, v) }, 10)
        } else {
            (reg_set(spec_inr(s, reg_val(s, y)), y, wrap8(reg_val(s, y) + 1)), 5)
        }
    } else if z == 5 {
        if y == 6 {
            let v = mem_rd(s.mem, pair16(s.h, s.l));
            (CpuState { mem: mem_wr(s.mem, pair16(s.h, s.l), wrap8(v - 1)), ..spec_dcr(s, v) }, 10)
        } else {
            (reg_set(spec_dcr(s, reg_val(s, y)), y, wrap8(reg_val(s, y) - 1)), 5)
        }
    } else if z == 6 {
        if y == 6 {
            (CpuState { mem: mem_wr(s.mem, pair16(s.h, s.l), imm8(s)), ..adv(s, 1) }, 10)
        } else {
            (reg_set(adv(s, 1), y, imm8(s)), 7)
        }
    } else {
        if y == 0 {
            (spec_rlc(s), 4)
        } else if y == 1 {
            (spec_rrc(s), 4)
        } else if y == 2 {
            (spec_ral(s), 4)
        } else if y == 3 {
            (spec_rar(s), 4)
        } else if y == 4 {
            (spec_daa(s), 4)
        } else if y == 5 {
            (CpuState { a: (0xFF - s.a) as u8, ..s }, 4)
        } else if y == 6 {
            (CpuState { carry_flag: true, ..s }, 4)
        } else {
            (CpuState { carry_flag: !s.carry_flag, ..s }, 4)
        }
    }
}

/// The move block, opcodes 0x40 through 0x7F: destination field 6 writes
/// memory at HL, source field 6 reads it, and both at once is not a move at
/// all but HALT.
pub open spec fn spec_mov(s: CpuState, op: u8) -> (CpuState, u8) {
    let y = op / 8 % 8;
    let z = op % 8;
    if y == 6 && z == 6 {
        (CpuState { halted: true, ..s }, 7)
    } else if y == 6 {
        (CpuState { mem: mem_wr(s.mem, pair16(s.h, s.l), reg_val(s, z)), ..s }, 7)
    } else if z == 6 {
        (reg_set(s, y, mem_rd(s.mem, pair16(s.h, s.l))), 7)
    } else {
        (reg_set(s, y, reg_val(s, z)), 5)
    }
}

/// The accumulator-arithmetic block, opcodes 0x80 through 0xBF: the source
/// field selects a register or memory at HL, the operation field one of the
/// eight accumulator operations.
pub open spec fn spec_alu(s: CpuState, op: u8) -> (CpuState, u8) {
    let y = op / 8 % 8;
    let z = op % 8;
    if z == 6 {
        (spec_alu_op(s, y, mem_rd(s.mem, pair16(s.h, s.l))), 7)
    } else {
        (spec_alu_op(s, y, reg_val(s, z)), 4)
    }
}

/// The control block, opcodes 0xC0 through 0xFF: jumps, calls, returns,
/// stack, immediates, restarts, and the interrupt-enable latch.
pub open spec fn spec_flow(s: CpuState, op: u8) -> (CpuState, u8) {
    let y = op / 8 % 8;
    let z = op % 8;
    if z == 0 {
        if spec_cond(s, y) {
            (
                CpuState {
                    pc: pair16(spec_pop_value(s).0, spec_pop_value(s).1),
                    ..spec_pop_state(s)
                },
                11,
            )
        } else {
            (s, 5)
        }
    } else if z == 1 {
        if op == 0xC9 || op == 0xD9 {
            (
                CpuState {
                    pc: pair16(spec_pop_value(s).0, spec_pop_value(s).1),
                    ..spec_pop_state(s)
                },
                10,
            )
        } else if op == 0xE9 {
            (CpuState { pc: pair16(s.h, s.l), ..s }, 5)
        } else if op == 0xF9 {
            (CpuState { sp: pair16(s.h, s.l), ..s }, 5)
        } else if op == 0xC1 {
            (CpuState { b: spec_pop_value(s).0, c: spec_pop_value(s).1, ..spec_pop_state(s) }, 10)
        } else if op == 0xD1 {
            (CpuState { d: spec_pop_value(s).0, e: spec_pop_value(s).1, ..spec_pop_state(s) }, 10)
        } else if op == 0xE1 {
            (CpuState { h: spec_pop_value(s).0, l: spec_pop_value(s).1, ..spec_pop_state(s) }, 10)
        } else {
            (
                CpuState {
                    a: spec_pop_value(s).0,
                    ..psw_load(spec_pop_state(s), spec_pop_value(s).1)
                },
                10,
            )
        }
    } else if z == 2 {
        if spec_cond(s, y) {
            (CpuState { pc: imm16(s), ..s }, 10)
        } else {
            (adv(s, 2), 10)
        }
    } else if z == 3 {
        if op == 0xC3 || op == 0xCB {
            (CpuState { pc: imm16(s), ..s }, 10)
        } else if op == 0xD3 {
            (adv(s, 1), 10)
        } else if op == 0xDB {
            (adv(s, 1), 10)
        } else if op == 0xE3 {
            (
                CpuState {
                    h: mem_rd(s.mem, wrap16(s.sp + 1)),
                    l: mem_rd(s.mem, s.sp),
                    mem: mem_wr(mem_wr(s.mem, s.sp, s.l), wrap16(s.sp + 1), s.h),
                    ..s
                },
                18,
            )
        } else if op == 0xEB {
            (CpuState { d: s.h, e: s.l, h: s.d, l: s.e, ..s }, 4)
        } else if op == 0xF3 {
            (CpuState { interrupts_enabled: false, ..s }, 4)
        } else {
            (CpuState { interrupts_enabled: true, ..s }, 4)
        }
    } else if z == 4 {
        if spec_cond(s, y) {
            let t = adv(s, 2);
            (CpuState { pc: imm16(s), ..spec_push(t, hi8(t.pc), lo8(t.pc)) }, 17)
        } else {
            (adv(s, 2), 11)
        }
    } else if z == 5 {
        if op == 0xC5 {
            (spec_push(s, s.b, s.c), 11)
        } else if op == 0xD5 {
            (spec_push(s, s.d, s.e), 11)
        } else if op == 0xE5 {
            (spec_push(s, s.h, s.l), 11)
        } else if op == 0xF5 {
            (spec_push(s, s.a, psw_byte(s)), 11)
        } else {
            let t = adv(s, 2);
            (CpuState { pc: imm16(s), ..spec_push(t, hi8(t.pc), lo8(t.pc)) }, 17)
        }
    } else if z == 6 {
        (spec_alu_op(adv(s, 1), y, imm8(s)), 7)
    } else {
        (CpuState { pc: (y * 8) as u16, ..spec_push(s, hi8(s.pc), lo8(s.pc)) }, 11)
    }
}

/// One step of the dispatcher: a halted core makes no progress; otherwise
/// the opcode byte at the program counter is fetched (advancing the counter)
/// and its handler's effect and cycle cost apply. Every one of the 256 byte
/// values has a handler: the dispatch is a total function.
pub open spec fn spec_step(s: CpuState) -> (CpuState, StepOutcome) {
    if s.halted {
        (s, StepOutcome::Halted)
    } else {
        let op = mem_rd(s.mem, s.pc);
        let t = adv(s, 1);
        let eff = if op < 0x40 {
            spec_misc(t, op)
        } else if op < 0x80 {
            spec_mov(t, op)
        } else if op < 0xC0 {
            spec_alu(t, op)
        } else {
            spec_flow(t, op)
        };
        (eff.0, StepOutcome::Executed { cycles: eff.1 })
    }
}

// ---------------------------------------------------------------------------
// Executable handlers, each proved against the interpreter above.
// ---------------------------------------------------------------------------

impl CPU {
    /// Decomposes an opcode byte into its architectural bit fields: the
    /// 2-bit group selector, the two 3-bit operand selectors, and the pair
    /// index and direction bit carried inside the destination field.
    pub fn decode(&self, opcode: u8) -> (r: (u8, u8, u8, u8, u8))
        ensures
            r.0 == opcode / 64,
            r.1 == opcode / 8 % 8,
            r.2 == opcode % 8,
            r.3 == opcode / 8 % 8 / 2,
            r.4 == opcode / 8 % 8 % 2,
    {
        let x: u8 = opcode / 64;
        let y: u8 = opcode / 8 % 8;
        let z: u8 = opcode % 8;
        let p: u8 = y / 2;
        let q: u8 = y % 2;
        (x, y, z, p, q)
    }

    /// The general register selected by a 3-bit operand field; field 6
    /// denotes memory and is resolved by the callers.
    pub fn get_reg(&self, i: u8) -> (r: u8)
        requires
            i < 8,
            i != 6,
        ensures
            r == reg_val(self@, i),
    {
        if i == 0 {
            self.b
        } else if i == 1 {
            self.c
        } else if i == 2 {
            self.d
        } else if i == 3 {
            self.e
        } else if i == 4 {
            self.h
        } else if i == 5 {
            self.l
        } else {
            self.a
        }
    }

    /// Replaces the general register selected by a 3-bit operand field.
    pub fn set_reg(&mut self, i: u8, v: u8)
        requires
            i < 8,
            i != 6,
        ensures
            final(self)@ == reg_set(old(self)@, i, v),
    {
        if i == 0 {
            self.b = v;
        } else if i == 1 {
            self.c = v;
        } else if i == 2 {
            self.d = v;
        } else if i == 3 {
            self.e = v;
        } else if i == 4 {
            self.h = v;
        } else if i == 5 {
            self.l = v;
        } else {
            self.a = v;
        }
    }

    /// The register pair selected by a 2-bit pair field: BC, DE, HL or SP.
    pub fn get_rp(&self, p: u8) -> (r: u16)
        requires
            p < 4,
        ensures
            r == rp_val(self@, p),
    {
        if p == 0 {
            self.get_bc()
        } else if p == 1 {
            self.get_de()
        } else if p == 2 {
            self.get_hl()
        } else {
            self.sp
        }
    }

    /// Replaces the register pair selected by a 2-bit pair field.
    pub fn set_rp(&mut self, p: u8, v: u16)
        requires
            p < 4,
        ensures
            final(self)@ == rp_set(old(self)@, p, v),
    {
        if p == 0 {
            self.set_bc(v);
        } else if p == 1 {
            self.set_de(v);
        } else if p == 2 {
            self.set_hl(v);
        } else {
            self.sp = v;
        }
    }

    /// Whether the branch condition selected by a 3-bit condition field
    /// holds of the current flags.
    pub fn condition(&self, y: u8) -> (r: bool)
        requires
            y < 8,
        ensures
            r == spec_cond(self@, y),
    {
        if y == 0 {
            !self.zero_flag
        } else if y == 1 {
            self.zero_flag
        } else if y == 2 {
            !self.carry_flag
        } else if y == 3 {
            self.carry_flag
        } else if y == 4 {
            !self.parity_flag
        } else if y == 5 {
            self.parity_flag
        } else if y == 6 {
            !self.sign_flag
        } else {
            self.sign_flag
        }
    }

    /// Adds `operand` (plus an optional carry-in) into the accumulator,
    /// updating all five flags.
    pub fn add_a(&mut self, operand: u8, carry_in: bool)
        ensures
            final(self)@ == spec_add(old(self)@, operand, carry_in),
    {
        let ci: u8 = if carry_in {
            1
        } else {
            0
        };
        let sum: u16 = (self.a as u16) + (operand as u16) + (ci as u16);
        let r: u8 = (sum % 0x100) as u8;
        self.carry_flag = sum > 0xFF;
        self.half_carry_flag = (self.a % 8) + (operand % 8) + ci > 7;
        self.update_sign_flag(r);
        self.update_zero_flag(r);
        self.update_parity_flag(r);
        self.a = r;
    }

    /// Subtracts `operand` (plus an optional borrow-in) from the
    /// accumulator, updating all five flags; the compare instructions pass
    /// `store` false and keep the accumulator.
    pub fn sub_a(&mut self, operand: u8, borrow_in: bool, store: bool)
        ensures
            final(self)@ == spec_sub(old(self)@, operand, borrow_in, store),
    {
        let bi: u8 = if borrow_in {
            1
        } else {
            0
        };
        let lhs: u16 = self.a as u16;
        let rhs: u16 = (operand as u16) + (bi as u16);
        let r: u8 = ((lhs + 0x100 - rhs) % 0x100) as u8;
        proof {
            lemma_mod_add_multiples_vanish(old(self)@.a - operand - bi, 0x100);
        }
        self.carry_flag = lhs < rhs;
        self.update_half_borrow(self.a, operand);
        self.update_sign_flag(r);
        self.update_zero_flag(r);
        self.update_parity_flag(r);
        if store {
            self.a = r;
        }
    }

    /// ANDs `operand` into the accumulator; carry and half-carry clear.
    pub fn and_a(&mut self, operand: u8)
        ensures
            final(self)@ == spec_and(old(self)@, operand),
    {
        let r: u8 = self.a & operand;
        self.carry_flag = false;
        self.half_carry_flag = false;
        self.update_sign_flag(r);
        self.update_zero_flag(r);
        self.update_parity_flag(r);
        self.a = r;
    }

    /// XORs `operand` into the accumulator; carry and half-carry clear.
    pub fn xor_a(&mut self, operand: u8)
        ensures
            final(self)@ == spec_xor(old(self)@, operand),
    {
        let r: u8 = self.a ^ operand;
        self.carry_flag = false;
        self.half_carry_flag = false;
        self.update_sign_flag(r);
        self.update_zero_flag(r);
        self.update_parity_flag(r);
        self.a = r;
    }

    /// ORs `operand` into the accumulator; carry and half-carry clear.
    pub fn or_a(&mut self, operand: u8)
        ensures
            final(self)@ == spec_or(old(self)@, operand),
    {
        let r: u8 = self.a | operand;
        self.carry_flag = false;
        self.half_carry_flag = false;
        self.update_sign_flag(r);
        self.update_zero_flag(r);
        self.update_parity_flag(r);
        self.a = r;
    }

    /// The accumulator operation selected by a 3-bit operation field.
    pub fn alu_op(&mut self, y: u8, operand: u8)
        requires
            y < 8,
        ensures
            final(self)@ == spec_alu_op(old(self)@, y, operand),
    {
        if y == 0 {
            self.add_a(operand, false);
        } else if y == 1 {
            let c: bool = self.carry_flag;
            self.add_a(operand, c);
        } else if y == 2 {
            self.sub_a(operand, false, true);
        } else if y == 3 {
            let c: bool = self.carry_flag;
            self.sub_a(operand, c, true);
        } else if y == 4 {
            self.and_a(operand);
        } else if y == 5 {
            self.xor_a(operand);
        } else if y == 6 {
            self.or_a(operand);
        } else {
            self.sub_a(operand, false, false);
        }
    }

    /// Increments a value by one, updating sign, zero, parity and
    /// half-carry (never the carry flag), and returns the result.
    pub fn inr(&mut self, value: u8) -> (r: u8)
        ensures
            final(self)@ == spec_inr(old(self)@, value),
            r == wrap8(value + 1),
    {
        let result: u8 = if value == 0xFF {
            0
        } else {
            value + 1
        };
        self.update_sign_flag(result);
        self.update_zero_flag(result);
        self.update_parity_flag(result);
        self.update_half_carry(value, 1);
        result
    }

    /// Decrements a value by one, updating sign, zero, parity and
    /// half-borrow (never the carry flag), and returns the result.
    pub fn dcr(&mut self, value: u8) -> (r: u8)
        ensures
            final(self)@ == spec_dcr(old(self)@, value),
            r == wrap8(value - 1),
    {
        let result: u8 = if value == 0 {
            0xFF
        } else {
            value - 1
        };
        proof {
            lemma_mod_add_multiples_vanish(value - 1, 0x100);
        }
        self.update_sign_flag(result);
        self.update_zero_flag(result);
        self.update_parity_flag(result);
        self.update_half_borrow(value, 1);
        result
    }

    /// Rotates the accumulator left into the carry flag.
    pub fn rlc(&mut self)
        ensures
            final(self)@ == spec_rlc(old(self)@),
    {
        let c: bool = self.a >= 0x80;
        self.a = self.a % 0x80 * 2 + if c {
            1u8
        } else {
            0u8
        };
        self.carry_flag = c;
    }

    /// Rotates the accumulator right into the carry flag.
    pub fn rrc(&mut self)
        ensures
            final(self)@ == spec_rrc(old(self)@),
    {
        let c: bool = self.a % 2 == 1;
        self.a = self.a / 2 + if c {
            0x80u8
        } else {
            0u8
        };
        self.carry_flag = c;
    }

    /// Rotates the accumulator left through the carry flag.
    pub fn ral(&mut self)
        ensures
            final(self)@ == spec_ral(old(self)@),
    {
        let c: bool = self.a >= 0x80;
        let ci: u8 = if self.carry_flag {
            1
        } else {
            0
        };
        self.a = self.a % 0x80 * 2 + ci;
        self.carry_flag = c;
    }

    /// Rotates the accumulator right through the carry flag.
    pub fn rar(&mut self)
        ensures
            final(self)@ == spec_rar(old(self)@),
    {
        let c: bool = self.a % 2 == 1;
        let ci: u8 = if self.carry_flag {
            0x80
        } else {
            0
        };
        self.a = self.a / 2 + ci;
        self.carry_flag = c;
    }

    /// Decimal-adjusts the accumulator.
    pub fn daa(&mut self)
        ensures
            final(self)@ == spec_daa(old(self)@),
    {
        let low: u8 = self.a % 16;
        let a1: u8 = if low > 9 || self.half_carry_flag {
            (((self.a as u16) + 6) % 0x100) as u8
        } else {
            self.a
        };
        let carry_out: bool = self.carry_flag || a1 / 16 > 9;
        let a2: u8 = if a1 / 16 > 9 || self.carry_flag {
            (((a1 as u16) + 0x60) % 0x100) as u8
        } else {
            a1
        };
        self.a = a2;
        self.carry_flag = carry_out;
        self.half_carry_flag = low > 9;
        self.update_sign_flag(a2);
        self.update_zero_flag(a2);
        self.update_parity_flag(a2);
    }

    /// The data-transfer, increment and rotate block, opcodes 0x00-0x3F.
    fn op_misc(&mut self, opcode: u8) -> (r: u8)
        requires
            old(self)@.inv(),
            opcode < 0x40,
        ensures
            final(self)@ == spec_misc(old(self)@, opcode).0,
            r == spec_misc(old(self)@, opcode).1,
    {
        if opcode % 8 < 4 {
            self.op_misc_transfer(opcode)
        } else {
            self.op_misc_single(opcode)
        }
    }

    /// Columns 0-3 of the low block: NOP, the 16-bit immediate loads, the
    /// double add, the accumulator and HL stores and loads, and the 16-bit
    /// increments and decrements.
    #[verifier::rlimit(100)]
    #[verifier::spinoff_prover]
    fn op_misc_transfer(&mut self, opcode: u8) -> (r: u8)
        requires
            old(self)@.inv(),
            opcode < 0x40,
            opcode % 8 < 4,
        ensures
            final(self)@ == spec_misc(old(self)@, opcode).0,
            r == spec_misc(old(self)@, opcode).1,
    {
        let z: u8 = opcode % 8;
        let y: u8 = opcode / 8;
        let p: u8 = opcode / 16;
        let q: u8 = y % 2;
        if z == 0 {
            4
        } else if z == 1 {
            if q == 0 {
                let value: u16 = self.fetch_16();
                self.set_rp(p, value);
                10
            } else {
                let hl: u16 = self.get_hl();
                let other: u16 = self.get_rp(p);
                self.update_carry_flag_16(hl, other);
                let sum: u16 = (((hl as u32) + (other as u32)) % 0x10000) as u16;
                self.set_hl(sum);
                10
            }
        } else if z == 2 {
            if q == 0 {
                if p < 2 {
                    let addr: u16 = self.get_rp(p);
                    let av: u8 = self.a;
                    self.write_8(addr, av);
                    7
                } else if p == 2 {
                    let addr: u16 = self.fetch_16();
                    let hv: u8 = self.h;
                    let lv: u8 = self.l;
                    self.write_16(addr, (hv, lv));
                    16
                } else {
                    let addr: u16 = self.fetch_16();
                    let av: u8 = self.a;
                    self.write_8(addr, av);
                    13
                }
            } else {
                if p < 2 {
                    let addr: u16 = self.get_rp(p);
                    self.a = self.read_8(addr);
                    7
                } else if p == 2 {
                    let addr: u16 = self.fetch_16();
                    let pair: (u8, u8) = self.read_16(addr);
                    self.h = pair.0;
                    self.l = pair.1;
                    16
                } else {
                    let addr: u16 = self.fetch_16();
                    self.a = self.read_8(addr);
                    13
                }
            }
        } else if z == 3 {
            let value: u16 = self.get_rp(p);
            if q == 0 {
                let next: u16 = if value == 0xFFFF {
                    0
                } else {
                    value + 1
                };
                self.set_rp(p, next);
                5
            } else {
                let next: u16 = if value == 0 {
                    0xFFFF
                } else {
                    value - 1
                };
                proof {
                    lemma_mod_add_multiples_vanish(value - 1, 0x10000);
                }
                self.set_rp(p, next);
                5
            }
        } else {
            4
        }
    }

    /// Columns 4-7 of the low block: the 8-bit increments, decrements and
    /// immediate moves, the rotates, decimal adjust, complement, and the
    /// carry-flag instructions.
    #[verifier::rlimit(100)]
    #[verifier::spinoff_prover]
    fn op_misc_single(&mut self, opcode: u8) -> (r: u8)
        requires
            old(self)@.inv(),
            opcode < 0x40,
            opcode % 8 >= 4,
        ensures
            final(self)@ == spec_misc(old(self)@, opcode).0,
            r == spec_misc(old(self)@, opcode).1,
    {
        let z: u8 = opcode % 8;
        let y: u8 = opcode / 8;
        if z == 4 {
            if y == 6 {
                let addr: u16 = self.get_hl();
                let v: u8 = self.read_8(addr);
                let result: u8 = self.inr(v);
                self.write_8(addr, result);
                10
            } else {
                let v: u8 = self.get_reg(y);
                let result: u8 = self.inr(v);
                self.set_reg(y, result);
                5
            }
        } else if z == 5 {
            if y == 6 {
                let addr: u16 = self.get_hl();
                let v: u8 = self.read_8(addr);
                let result: u8 = self.dcr(v);
                self.write_8(addr, result);
                10
            } else {
                let v: u8 = self.get_reg(y);
                let result: u8 = self.dcr(v);
                self.set_reg(y, result);
                5
            }
        } else if z == 6 {
            let v: u8 = self.fetch();
            if y == 6 {
                let addr: u16 = self.get_hl();
                self.write_8(addr, v);
                10
            } else {
                self.set_reg(y, v);
                7
            }
        } else {
            if y == 0 {
                self.rlc();
            } else if y == 1 {
                self.rrc();
            } else if y == 2 {
                self.ral();
            } else if y == 3 {
                self.rar();
            } else if y == 4 {
                self.daa();
            } else if y == 5 {
                self.a = 0xFF - self.a;
            } else if y == 6 {
                self.carry_flag = true;
            } else {
                self.carry_flag = !self.carry_flag;
            }
            4
        }
    }

    /// The move block, opcodes 0x40-0x7F, including HALT at 0x76.
    pub fn mov(&mut self, opcode: u8) -> (r: u8)
        requires
            old(self)@.inv(),
            0x40 <= opcode < 0x80,
        ensures
            final(self)@ == spec_mov(old(self)@, opcode).0,
            r == spec_mov(old(self)@, opcode).1,
    {
        let (_x, y, z, _p, _q) = self.decode(opcode);
        if y == 6 && z == 6 {
            self.halted = true;
            7
        } else if y == 6 {
            let source: u8 = self.get_reg(z);
            let addr: u16 = self.get_hl();
            self.write_8(addr, source);
            7
        } else if z == 6 {
            let addr: u16 = self.get_hl();
            let v: u8 = self.read_8(addr);
            self.set_reg(y, v);
            7
        } else {
            let source: u8 = self.get_reg(z);
            self.set_reg(y, source);
            5
        }
    }

    /// The accumulator-arithmetic block, opcodes 0x80-0xBF.
    fn op_alu(&mut self, opcode: u8) -> (r: u8)
        requires
            old(self)@.inv(),
            0x80 <= opcode < 0xC0,
        ensures
            final(self)@ == spec_alu(old(self)@, opcode).0,
            r == spec_alu(old(self)@, opcode).1,
    {
        let (_x, y, z, _p, _q) = self.decode(opcode);
        if z == 6 {
            let addr: u16 = self.get_hl();
            let operand: u8 = self.read_8(addr);
            self.alu_op(y, operand);
            7
        } else {
            let operand: u8 = self.get_reg(z);
            self.alu_op(y, operand);
            4
        }
    }

    /// The control block, opcodes 0xC0-0xFF.
    #[verifier::rlimit(100)]
    #[verifier::spinoff_prover]
    fn op_flow(&mut self, opcode: u8) -> (r: u8)
        requires
            old(self)@.inv(),
            0xC0 <= opcode,
        ensures
            final(self)@ == spec_flow(old(self)@, opcode).0,
            r == spec_flow(old(self)@, opcode).1,
    {
        let (_x, y, z, _p, _q) = self.decode(opcode);
        if z == 0 {
            if self.condition(y) {
                let target: (u8, u8) = self.pop();
                self.pc = (target.0 as u16) * 0x100 + (target.1 as u16);
                11
            } else {
                5
            }
        } else if z == 1 {
            if opcode == 0xC9 || opcode == 0xD9 {
                let target: (u8, u8) = self.pop();
                self.pc = (target.0 as u16) * 0x100 + (target.1 as u16);
                10
            } else if opcode == 0xE9 {
                self.pc = self.get_hl();
                5
            } else if opcode == 0xF9 {
                self.sp = self.get_hl();
                5
            } else if opcode == 0xC1 {
                let pair: (u8, u8) = self.pop();
                self.b = pair.0;
                self.c = pair.1;
                10
            } else if opcode == 0xD1 {
                let pair: (u8, u8) = self.pop();
                self.d = pair.0;
                self.e = pair.1;
                10
            } else if opcode == 0xE1 {
                let pair: (u8, u8) = self.pop();
                self.h = pair.0;
                self.l = pair.1;
                10
            } else {
                let pair: (u8, u8) = self.pop();
                self.a = pair.0;
                self.psw_set_flags(pair.1);
                10
            }
        } else if z == 2 {
            let addr: u16 = self.fetch_16();
            if self.condition(y) {
                self.pc = addr;
            }
            10
        } else if z == 3 {
            if opcode == 0xC3 || opcode == 0xCB {
                let addr: u16 = self.fetch_16();
                self.pc = addr;
                10
            } else if opcode == 0xD3 {
                let _port: u8 = self.fetch();
                10
            } else if opcode == 0xDB {
                let _port: u8 = self.fetch();
                10
            } else if opcode == 0xE3 {
                let sp: u16 = self.sp;
                let top: (u8, u8) = self.read_16(sp);
                let h0: u8 = self.h;
                let l0: u8 = self.l;
                self.h = top.0;
                self.l = top.1;
                self.write_16(sp, (h0, l0));
                18
            } else if opcode == 0xEB {
                let d0: u8 = self.d;
                let e0: u8 = self.e;
                self.d = self.h;
                self.e = self.l;
                self.h = d0;
                self.l = e0;
                4
            } else if opcode == 0xF3 {
                self.interrupts_enabled = false;
                4
            } else {
                self.interrupts_enabled = true;
                4
            }
        } else if z == 4 {
            let addr: u16 = self.fetch_16();
            if self.condition(y) {
                let ph: u8 = (self.pc / 0x100) as u8;
                let pl: u8 = (self.pc % 0x100) as u8;
                self.push((ph, pl));
                self.pc = addr;
                17
            } else {
                11
            }
        } else if z == 5 {
            if opcode == 0xC5 {
                let value: (u8, u8) = (self.b, self.c);
                self.push(value);
                11
            } else if opcode == 0xD5 {
                let value: (u8, u8) = (self.d, self.e);
                self.push(value);
                11
            } else if opcode == 0xE5 {
                let value: (u8, u8) = (self.h, self.l);
                self.push(value);
                11
            } else if opcode == 0xF5 {
                let flags: u8 = self.psw_get_flags();
                let av: u8 = self.a;
                self.push((av, flags));
                11
            } else {
                let addr: u16 = self.fetch_16();
                let ph: u8 = (self.pc / 0x100) as u8;
                let pl: u8 = (self.pc % 0x100) as u8;
                self.push((ph, pl));
                self.pc = addr;
                17
            }
        } else if z == 6 {
            let operand: u8 = self.fetch();
            self.alu_op(y, operand);
            7
        } else {
            let ph: u8 = (self.pc / 0x100) as u8;
            let pl: u8 = (self.pc % 0x100) as u8;
            self.push((ph, pl));
            self.pc = (y as u16) * 8;
            11
        }
    }

    /// One step of the fetch-decode-execute loop: fetches the opcode byte at
    /// the program counter and executes it, reporting its cycle cost, or
    /// reports `Halted` without touching any state while the halted latch is
    /// set. The dispatch is total: every opcode byte has a defined handler.
    pub fn do_instruction(&mut self) -> (r: StepOutcome)
        requires
            old(self)@.inv(),
        ensures
            final(self)@ == spec_step(old(self)@).0,
            r == spec_step(old(self)@).1,
            final(self)@.inv(),
    {
        if self.halted {
            return StepOutcome::Halted;
        }
        let opcode: u8 = self.fetch();
        let cycles: u8 = if opcode < 0x40 {
            self.op_misc(opcode)
        } else if opcode < 0x80 {
            self.mov(opcode)
        } else if opcode < 0xC0 {
            self.op_alu(opcode)
        } else {
            self.op_flow(opcode)
        };
        StepOutcome::Executed { cycles }
    }
}

/// Cycle costs of the low block lie between 4 and 16.
proof fn lemma_cycles_misc(s: CpuState, op: u8)
    requires
        op < 0x40,
    ensures
        4 <= spec_misc(s, op).1 <= 16,
{
}

/// Cycle costs of the move block lie between 5 and 7.
proof fn lemma_cycles_mov(s: CpuState, op: u8)
    ensures
        5 <= spec_mov(s, op).1 <= 7,
{
}

/// Cycle costs of the arithmetic block are 4 or 7.
proof fn lemma_cycles_alu(s: CpuState, op: u8)
    ensures
        4 <= spec_alu(s, op).1 <= 7,
{
}

/// Cycle costs of the control block lie between 4 and 18.
proof fn lemma_cycles_flow(s: CpuState, op: u8)
    ensures
        4 <= spec_flow(s, op).1 <= 18,
{
}

/// The opcode space is fully populated: from any non-halted state, every one
/// of the 256 possible opcode bytes dispatches to a defined handler, and the
/// step reports an executed instruction with a defined cycle cost; there is
/// no fatal path.
pub proof fn lemma_step_total(s: CpuState)
    requires
        !s.halted,
    ensures
        spec_step(s).1 matches StepOutcome::Executed { cycles } && 4 <= cycles <= 18,
{
    let op = mem_rd(s.mem, s.pc);
    let t = adv(s, 1);
    if op < 0x40 {
        lemma_cycles_misc(t, op);
    } else if op < 0x80 {
        lemma_cycles_mov(t, op);
    } else if op < 0xC0 {
        lemma_cycles_alu(t, op);
    } else {
        lemma_cycles_flow(t, op);
    }
}

/// A step from a halted state is a no-op: the state is returned unchanged
/// and the outcome is `Halted`.
pub proof fn lemma_halted_step_no_op(s: CpuState)
    requires
        s.halted,
    ensures
        spec_step(s).0 == s,
        spec_step(s).1 == StepOutcome::Halted,
{
}

/// Executing a NOP leaves every register, flag and memory cell unchanged:
/// only the program counter moves, by one, and the cost is 4 cycles.
pub proof fn lemma_nop_preserves_state(s: CpuState)
    requires
        !s.halted,
        mem_rd(s.mem, s.pc) == 0,
    ensures
        spec_step(s).0 == adv(s, 1),
        spec_step(s).1 == (StepOutcome::Executed { cycles: 4 }),
{
}

} // verus!

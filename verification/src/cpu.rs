//! The register file and flags of the 8080 core, with the helpers every
//! instruction handler composes: register-pair views, flag updates, fetch
//! and raw 16-bit memory access, the stack, and the PSW flag byte.

use vstd::prelude::*;
use vstd::arithmetic::div_mod::{
    lemma_add_mod_noop, lemma_fundamental_div_mod, lemma_mod_equivalence, lemma_mod_mod,
    lemma_mod_twice, lemma_small_mod,
};
use crate::machine::{Machine, MEM_SIZE, mem_rd, mem_wr};

verus! {

/// A 16-bit value reduced modulo 2^16: the wraparound of the program
/// counter, stack pointer and register pairs.
pub open spec fn wrap16(n: int) -> u16 {
    (n % 0x10000) as u16
}

/// An 8-bit value reduced modulo 2^8.
pub open spec fn wrap8(n: int) -> u8 {
    (n % 0x100) as u8
}

/// The low byte of a 16-bit value.
pub open spec fn lo8(v: u16) -> u8 {
    (v % 0x100) as u8
}

/// The high byte of a 16-bit value.
pub open spec fn hi8(v: u16) -> u8 {
    (v / 0x100) as u8
}

/// Big-endian packing of a register pair: high byte first.
pub open spec fn pair16(high: u8, low: u8) -> u16 {
    (high * 0x100 + low) as u16
}

/// How many of the eight bits of `v` are set.
pub open spec fn ones8(v: u8) -> int {
    (v % 2) + (v / 2 % 2) + (v / 4 % 2) + (v / 8 % 2) + (v / 16 % 2) + (v / 32 % 2) + (v / 64 % 2)
        + (v / 128 % 2)
}

/// The parity flag: true iff the number of set bits in `v` is even.
pub open spec fn parity8(v: u8) -> bool {
    ones8(v) % 2 == 0
}

/// The sign flag of an 8-bit result: its most significant bit.
pub open spec fn sign8(v: u8) -> bool {
    v >= 0x80
}

/// Carry out of an 8-bit addition.
pub open spec fn carry8_add(a: u8, b: u8) -> bool {
    a + b > 0xFF
}

/// Carry out of a 16-bit addition.
pub open spec fn carry16_add(a: u16, b: u16) -> bool {
    a + b > 0xFFFF
}

/// Half-carry out of an 8-bit addition: the low-bits test the handlers use.
pub open spec fn half_add(a: u8, b: u8) -> bool {
    (a % 8) + (b % 8) > 7
}

/// Half-borrow of an 8-bit subtraction: bit 3 of the minuend below bit 3 of
/// the subtrahend.
pub open spec fn half_borrow(a: u8, b: u8) -> bool {
    a / 8 % 2 < b / 8 % 2
}

/// 1 for true, 0 for false: the weight a flag contributes to the PSW byte.
pub open spec fn flag_bit(b: bool) -> int {
    if b {
        1
    } else {
        0
    }
}

/// The programmer-visible state of the core: one value for each register,
/// the two 16-bit pointers, the five flags, the interrupt-enable latch, the
/// halted latch, and the memory contents seen through the bus.
pub ghost struct CpuState {
    pub a: u8,
    pub b: u8,
    pub c: u8,
    pub d: u8,
    pub e: u8,
    pub h: u8,
    pub l: u8,
    pub pc: u16,
    pub sp: u16,
    pub sign_flag: bool,
    pub zero_flag: bool,
    pub parity_flag: bool,
    pub carry_flag: bool,
    pub half_carry_flag: bool,
    pub interrupts_enabled: bool,
    pub halted: bool,
    pub mem: Seq<u8>,
}

impl CpuState {
    /// The one structural invariant: the bus holds exactly `MEM_SIZE` cells.
    pub open spec fn inv(self) -> bool {
        self.mem.len() == MEM_SIZE
    }
}

/// The PSW low byte: sign at bit 7, zero at 6, half-carry at 4, parity at 2,
/// carry at 0; bits 5 and 3 always clear, bit 1 always set.
pub open spec fn psw_byte(s: CpuState) -> u8 {
    (flag_bit(s.sign_flag) * 0x80 + flag_bit(s.zero_flag) * 0x40 + flag_bit(s.half_carry_flag)
        * 0x10 + flag_bit(s.parity_flag) * 4 + 2 + flag_bit(s.carry_flag)) as u8
}

/// The state after the five flags are loaded from a PSW low byte; the fixed
/// bits 5, 3 and 1 of `value` are discarded.
pub open spec fn psw_load(s: CpuState, value: u8) -> CpuState {
    CpuState {
        sign_flag: value / 0x80 % 2 == 1,
        zero_flag: value / 0x40 % 2 == 1,
        half_carry_flag: value / 0x10 % 2 == 1,
        parity_flag: value / 4 % 2 == 1,
        carry_flag: value % 2 == 1,
        ..s
    }
}

/// The state after `(high, low)` is pushed: the high byte lands at `sp - 1`,
/// the low byte at `sp - 2`, and the stack pointer drops by 2, wrapping.
pub open spec fn spec_push(s: CpuState, high: u8, low: u8) -> CpuState {
    CpuState {
        sp: wrap16(s.sp - 2),
        mem: mem_wr(mem_wr(s.mem, wrap16(s.sp - 1), high), wrap16(s.sp - 2), low),
        ..s
    }
}

/// The pair a pop returns: the high byte from `sp + 1`, the low from `sp`.
pub open spec fn spec_pop_value(s: CpuState) -> (u8, u8) {
    (mem_rd(s.mem, wrap16(s.sp + 1)), mem_rd(s.mem, s.sp))
}

/// The state after a pop: the stack pointer rises by 2, wrapping.
pub open spec fn spec_pop_state(s: CpuState) -> CpuState {
    CpuState { sp: wrap16(s.sp + 2), ..s }
}

pub struct CPU {
    pub a: u8,
    pub b: u8,
    pub c: u8,
    pub d: u8,
    pub e: u8,
    pub h: u8,
    pub l: u8,
    pub pc: u16,
    pub sp: u16,
    pub sign_flag: bool,
    pub zero_flag: bool,
    pub parity_flag: bool,
    pub carry_flag: bool,
    pub half_carry_flag: bool,
    pub interrupts_enabled: bool,
    pub halted: bool,
    pub bus: Machine,
}

impl View for CPU {
    type V = CpuState;

    open spec fn view(&self) -> CpuState {
        CpuState {
            a: self.a,
            b: self.b,
            c: self.c,
            d: self.d,
            e: self.e,
            h: self.h,
            l: self.l,
            pc: self.pc,
            sp: self.sp,
            sign_flag: self.sign_flag,
            zero_flag: self.zero_flag,
            parity_flag: self.parity_flag,
            carry_flag: self.carry_flag,
            half_carry_flag: self.half_carry_flag,
            interrupts_enabled: self.interrupts_enabled,
            halted: self.halted,
            mem: self.bus@,
        }
    }
}

impl CPU {
    /// The power-on pattern: all registers and flags set, the stack pointer
    /// at the top of the address space, the program counter at zero.
    pub fn build(bus: Machine) -> (r: CPU)
        requires
            bus.wf(),
        ensures
            r@ == (CpuState {
                a: 0xFF,
                b: 0xFF,
                c: 0xFF,
                d: 0xFF,
                e: 0xFF,
                h: 0xFF,
                l: 0xFF,
                pc: 0,
                sp: 0xFFFF,
                sign_flag: true,
                zero_flag: true,
                parity_flag: true,
                carry_flag: true,
                half_carry_flag: true,
                interrupts_enabled: true,
                halted: false,
                mem: bus@,
            }),
    {
        CPU {
            a: 0xFF,
            b: 0xFF,
            c: 0xFF,
            d: 0xFF,
            e: 0xFF,
            h: 0xFF,
            l: 0xFF,
            pc: 0,
            sp: 0xFFFF,
            sign_flag: true,
            zero_flag: true,
            parity_flag: true,
            carry_flag: true,
            half_carry_flag: true,
            interrupts_enabled: true,
            halted: false,
            bus,
        }
    }

    // Register pairs: the pairing is a view over the two byte cells, not a
    // third storage location.

    pub fn get_bc(&self) -> (r: u16)
        ensures
            r == pair16(self.b, self.c),
    {
        (self.b as u16) * 0x100 + (self.c as u16)
    }

    pub fn set_bc(&mut self, value: u16)
        ensures
            final(self)@ == (CpuState { b: hi8(value), c: lo8(value), ..old(self)@ }),
    {
        self.b = (value / 0x100) as u8;
        self.c = (value % 0x100) as u8;
    }

    pub fn get_de(&self) -> (r: u16)
        ensures
            r == pair16(self.d, self.e),
    {
        (self.d as u16) * 0x100 + (self.e as u16)
    }

    pub fn set_de(&mut self, value: u16)
        ensures
            final(self)@ == (CpuState { d: hi8(value), e: lo8(value), ..old(self)@ }),
    {
        self.d = (value / 0x100) as u8;
        self.e = (value % 0x100) as u8;
    }

    pub fn set_hl(&mut self, value: u16)
        ensures
            final(self)@ == (CpuState { h: hi8(value), l: lo8(value), ..old(self)@ }),
    {
        self.h = (value / 0x100) as u8;
        self.l = (value % 0x100) as u8;
    }

    pub fn get_hl(&self) -> (r: u16)
        ensures
            r == pair16(self.h, self.l),
    {
        (self.h as u16) * 0x100 + (self.l as u16)
    }

    // Flag-update helpers: each one sets exactly one flag from the
    // operation's result or operands and touches nothing else.

    pub fn update_sign_flag(&mut self, result: u8)
        ensures
            final(self)@ == (CpuState { sign_flag: sign8(result), ..old(self)@ }),
    {
        self.sign_flag = result >= 0x80;
    }

    pub fn update_zero_flag(&mut self, result: u8)
        ensures
            final(self)@ == (CpuState { zero_flag: result == 0, ..old(self)@ }),
    {
        self.zero_flag = result == 0;
    }

    pub fn update_parity_flag(&mut self, result: u8)
        ensures
            final(self)@ == (CpuState { parity_flag: parity8(result), ..old(self)@ }),
    {
        let count: u8 = (result % 2) + (result / 2 % 2) + (result / 4 % 2) + (result / 8 % 2) + (
        result / 16 % 2) + (result / 32 % 2) + (result / 64 % 2) + (result / 128 % 2);
        self.parity_flag = count % 2 == 0;
    }

    pub fn update_carry_flag_16(&mut self, a: u16, b: u16)
        ensures
            final(self)@ == (CpuState { carry_flag: carry16_add(a, b), ..old(self)@ }),
    {
        self.carry_flag = (a as u32) + (b as u32) > 0xFFFF;
    }

    pub fn update_carry_flag_8(&mut self, a: u8, b: u8)
        ensures
            final(self)@ == (CpuState { carry_flag: carry8_add(a, b), ..old(self)@ }),
    {
        self.carry_flag = (a as u16) + (b as u16) > 0xFF;
    }

    pub fn update_half_carry(&mut self, a: u8, b: u8)
        ensures
            final(self)@ == (CpuState { half_carry_flag: half_add(a, b), ..old(self)@ }),
    {
        self.half_carry_flag = (a % 8) + (b % 8) > 7;
    }

    pub fn update_borrow_16(&mut self, a: u16, b: u16)
        ensures
            final(self)@ == (CpuState { carry_flag: a < b, ..old(self)@ }),
    {
        self.carry_flag = a < b;
    }

    pub fn update_borrow_8(&mut self, a: u8, b: u8)
        ensures
            final(self)@ == (CpuState { carry_flag: a < b, ..old(self)@ }),
    {
        self.carry_flag = a < b;
    }

    pub fn update_half_borrow(&mut self, a: u8, b: u8)
        ensures
            final(self)@ == (CpuState { half_carry_flag: half_borrow(a, b), ..old(self)@ }),
    {
        self.half_carry_flag = a / 8 % 2 < b / 8 % 2;
    }

    // Memory access.

    pub fn read_8(&mut self, address: u16) -> (r: u8)
        requires
            old(self)@.inv(),
        ensures
            *final(self) == *old(self),
            r == mem_rd(old(self)@.mem, address),
    {
        self.bus.read_byte(address)
    }

    pub fn write_8(&mut self, address: u16, value: u8)
        requires
            old(self)@.inv(),
        ensures
            final(self)@ == (CpuState { mem: mem_wr(old(self)@.mem, address, value), ..old(self)@ }),
    {
        self.bus.write_byte(address, value);
    }

    /// Reads the byte at the program counter, then advances the counter by
    /// one, wrapping at 16 bits.
    pub fn fetch(&mut self) -> (r: u8)
        requires
            old(self)@.inv(),
        ensures
            final(self)@ == (CpuState { pc: wrap16(old(self)@.pc + 1), ..old(self)@ }),
            r == mem_rd(old(self)@.mem, old(self)@.pc),
    {
        let value: u8 = self.bus.read_byte(self.pc);
        if self.pc == 0xFFFF {
            self.pc = 0;
        } else {
            self.pc = self.pc + 1;
        }
        value
    }

    /// Two fetches combined little-endian: the first byte is the low half of
    /// the 16-bit immediate, the second the high half.
    pub fn fetch_16(&mut self) -> (r: u16)
        requires
            old(self)@.inv(),
        ensures
            final(self)@ == (CpuState { pc: wrap16(old(self)@.pc + 2), ..old(self)@ }),
            r == pair16(
                mem_rd(old(self)@.mem, wrap16(old(self)@.pc + 1)),
                mem_rd(old(self)@.mem, old(self)@.pc),
            ),
    {
        let low: u8 = self.fetch();
        let high: u8 = self.fetch();
        (high as u16) * 0x100 + (low as u16)
    }

    /// Reads two consecutive bytes at `address`, returned as (high, low):
    /// the byte at `address + 1` is the high half.
    pub fn read_16(&mut self, address: u16) -> (r: (u8, u8))
        requires
            old(self)@.inv(),
        ensures
            *final(self) == *old(self),
            r.0 == mem_rd(old(self)@.mem, wrap16(address + 1)),
            r.1 == mem_rd(old(self)@.mem, address),
    {
        let low: u8 = self.bus.read_byte(address);
        let next: u16 = if address == 0xFFFF {
            0
        } else {
            address + 1
        };
        let high: u8 = self.bus.read_byte(next);
        (high, low)
    }

    /// Writes a (high, low) pair at `address`: the low byte at `address`,
    /// the high byte at `address + 1`.
    pub fn write_16(&mut self, address: u16, value: (u8, u8))
        requires
            old(self)@.inv(),
        ensures
            final(self)@ == (CpuState {
                mem: mem_wr(mem_wr(old(self)@.mem, address, value.1), wrap16(address + 1), value.0),
                ..old(self)@
            }),
    {
        self.bus.write_byte(address, value.1);
        let next: u16 = if address == 0xFFFF {
            0
        } else {
            address + 1
        };
        self.bus.write_byte(next, value.0);
    }

    /// The base of all four PUSH instructions: the high byte lands at
    /// `sp - 1`, the low byte at `sp - 2`, and `sp` drops by 2, wrapping.
    pub fn push(&mut self, value: (u8, u8))
        requires
            old(self)@.inv(),
        ensures
            final(self)@ == spec_push(old(self)@, value.0, value.1),
    {
        let above: u16 = if self.sp == 0 {
            0xFFFF
        } else {
            self.sp - 1
        };
        let below: u16 = if self.sp <= 1 {
            (0xFFFE + self.sp) as u16
        } else {
            self.sp - 2
        };
        self.bus.write_byte(above, value.0);
        self.bus.write_byte(below, value.1);
        self.sp = below;
    }

    /// The base of all four POP instructions: returns (high, low) read from
    /// `sp + 1` and `sp`, then raises `sp` by 2, wrapping.
    pub fn pop(&mut self) -> (r: (u8, u8))
        requires
            old(self)@.inv(),
        ensures
            final(self)@ == spec_pop_state(old(self)@),
            r == spec_pop_value(old(self)@),
    {
        let above: u16 = if self.sp == 0xFFFF {
            0
        } else {
            self.sp + 1
        };
        let high: u8 = self.bus.read_byte(above);
        let low: u8 = self.bus.read_byte(self.sp);
        self.sp = if self.sp >= 0xFFFE {
            (self.sp - 0xFFFE) as u16
        } else {
            self.sp + 2
        };
        (high, low)
    }

    /// The flag byte of the Program Status Word: sign at bit 7, zero at 6,
    /// half-carry at 4, parity at 2, carry at 0; bits 5 and 3 always clear,
    /// bit 1 always set.
    pub fn psw_get_flags(&self) -> (r: u8)
        ensures
            r == psw_byte(self@),
    {
        (if self.sign_flag {
            0x80u8
        } else {
            0
        }) + (if self.zero_flag {
            0x40u8
        } else {
            0
        }) + (if self.half_carry_flag {
            0x10u8
        } else {
            0
        }) + (if self.parity_flag {
            4u8
        } else {
            0
        }) + 2 + (if self.carry_flag {
            1u8
        } else {
            0
        })
    }

    /// Loads the five flags from a PSW low byte; the fixed bits 5, 3 and 1
    /// are discarded, so any input byte is accepted.
    pub fn psw_set_flags(&mut self, value: u8)
        ensures
            final(self)@ == psw_load(old(self)@, value),
    {
        self.sign_flag = value / 0x80 % 2 == 1;
        self.zero_flag = value / 0x40 % 2 == 1;
        self.half_carry_flag = value / 0x10 % 2 == 1;
        self.parity_flag = value / 4 % 2 == 1;
        self.carry_flag = value % 2 == 1;
    }

    /// Hook point for port-based input: peripherals are outside this core.
    pub fn handle_input(&mut self)
        ensures
            *final(self) == *old(self),
    {
    }

    /// Hook point for interrupt delivery: the core only exposes the
    /// interrupt-enable latch; the acknowledge mechanism lives outside.
    pub fn handle_interrupts(&mut self)
        ensures
            *final(self) == *old(self),
    {
    }
}

/// Packing a 16-bit value into a register pair and reading the pair back
/// reproduces the value: the round trip behind the pair accessors.
pub proof fn lemma_pair_round_trip(v: u16)
    ensures
        pair16(hi8(v), lo8(v)) == v,
{
    lemma_fundamental_div_mod(v as int, 0x100);
}

/// Splitting a packed pair yields the two bytes it was packed from.
pub proof fn lemma_pair_split(high: u8, low: u8)
    ensures
        hi8(pair16(high, low)) == high,
        lo8(pair16(high, low)) == low,
{
    let v: int = high * 0x100 + low;
    assert(v / 0x100 == high && v % 0x100 == low) by (nonlinear_arith)
        requires
            0 <= high < 0x100 && 0 <= low < 0x100 && v == high * 0x100 + low,
    ;
}

/// Wraparound commutes with offsetting: adding a small step to an already
/// wrapped value wraps to the same address as offsetting first.
pub proof fn lemma_wrap16_offset(n: int, k: int)
    requires
        0 <= k < 0x10000,
    ensures
        wrap16(wrap16(n) + k) == wrap16(n + k),
{
    lemma_mod_twice(n, 0x10000);
    lemma_small_mod(k as nat, 0x10000);
    lemma_add_mod_noop(n, k, 0x10000);
}

/// Address mirroring commutes with 16-bit wraparound: the physical cell of a
/// wrapped address is the address reduced modulo the capacity directly.
pub proof fn lemma_wrap16_mirror(n: int)
    ensures
        wrap16(n) as int % (MEM_SIZE as int) == n % (MEM_SIZE as int),
{
    lemma_mod_mod(n, MEM_SIZE as int, 4);
}

/// Stack round trip: a pop immediately after a push returns exactly the
/// (high, low) pair that was pushed and restores the original stack pointer,
/// for every byte pair and every initial stack pointer.
pub proof fn lemma_stack_round_trip(s: CpuState, high: u8, low: u8)
    requires
        s.inv(),
    ensures
        spec_pop_value(spec_push(s, high, low)) == (high, low),
        spec_pop_state(spec_push(s, high, low)).sp == s.sp,
{
    let cap = MEM_SIZE as int;
    let t = spec_push(s, high, low);
    lemma_wrap16_offset(s.sp - 2, 2);
    lemma_wrap16_offset(s.sp - 2, 1);
    lemma_small_mod(s.sp as nat, 0x10000);
    assert(wrap16(t.sp + 2) == s.sp);
    assert(wrap16(t.sp + 1) == wrap16(s.sp - 1));
    lemma_wrap16_mirror(s.sp - 1);
    lemma_wrap16_mirror(s.sp - 2);
    lemma_mod_equivalence(s.sp - 1, s.sp - 2, cap);
    lemma_small_mod(1nat, cap as nat);
    assert((s.sp - 1) % cap != (s.sp - 2) % cap);
}

/// PSW round trip: loading the flags back from the PSW byte reproduces all
/// five flags, and the fixed bits of the byte are bit 1 set, bits 5 and 3
/// clear, whatever the flags were.
pub proof fn lemma_psw_round_trip(s: CpuState)
    ensures
        psw_load(s, psw_byte(s)) == s,
        psw_byte(s) / 2 % 2 == 1,
        psw_byte(s) / 0x20 % 2 == 0,
        psw_byte(s) / 8 % 2 == 0,
{
}

} // verus!

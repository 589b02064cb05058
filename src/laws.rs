use vstd::prelude::*;

use crate::chip::{execute_spec, fetch_spec, step_spec, MachineView};
use crate::instruction::{decode_spec, Instruction};
use crate::memory::{font, loaded, FONT_LEN, MEM_SIZE, PROGRAM_START};

verus! {

/// Loading a program that fits puts its bytes unchanged from address 0x200 on,
/// and the font unchanged at the bottom of memory.
pub proof fn lemma_load_layout(program: Seq<u8>)
    requires
        program.len() <= MEM_SIZE - PROGRAM_START,
    ensures
        loaded(program).len() == MEM_SIZE,
        forall|k: int| 0 <= k < program.len() ==> loaded(program)[PROGRAM_START + k] == program[k],
        forall|k: int| 0 <= k < FONT_LEN ==> loaded(program)[k] == font()[k],
{
    assert(font().len() == FONT_LEN);
}

/// Register add sets VF to the carry and Vx to the sum modulo 256; register
/// subtract sets VF to "no borrow" (a > b) and Vx to the difference modulo 256.
/// Vx is written after VF, so the law is stated for x other than VF.
pub proof fn lemma_add_sub_flags(s: MachineView, x: u8, y: u8, rnd: u8)
    requires
        s.wf(),
        x < 15,
        y < 16,
    ensures
        ({
            let (a, b) = (s.v[x as int], s.v[y as int]);
            let added = execute_spec(s, Instruction::AddReg { x, y }, rnd).0;
            let subbed = execute_spec(s, Instruction::SubReg { x, y }, rnd).0;
            &&& (added.v[15] == 1) == (a + b > 255)
            &&& added.v[15] == 0 || added.v[15] == 1
            &&& added.v[x as int] == (a + b) % 256
            &&& (subbed.v[15] == 1) == (a > b)
            &&& subbed.v[15] == 0 || subbed.v[15] == 1
            &&& subbed.v[x as int] == (a - b) % 256
        }),
{
}

/// A call immediately followed by a return restores the program counter and the
/// stack pointer held before the call.
pub proof fn lemma_call_return(s: MachineView, addr: u16, rnd: u8)
    requires
        s.wf(),
        s.sp < 15,
    ensures
        ({
            let (called, c) = execute_spec(s, Instruction::Call { addr }, rnd);
            let (back, r) = execute_spec(called, Instruction::Return, rnd);
            &&& c is Ok && r is Ok
            &&& back.pc == s.pc
            &&& back.sp == s.sp
        }),
{
}

/// Storing V0..Vx at I and then loading V0..Vx from I gives back the registers
/// held before the store.
pub proof fn lemma_store_load_round_trip(s: MachineView, x: u8, rnd: u8)
    requires
        s.wf(),
        x < 16,
    ensures
        ({
            let stored = execute_spec(s, Instruction::StoreRegs { x }, rnd).0;
            execute_spec(stored, Instruction::LoadRegs { x }, rnd).0.v == s.v
        }),
{
    let stored = execute_spec(s, Instruction::StoreRegs { x }, rnd).0;
    let back = execute_spec(stored, Instruction::LoadRegs { x }, rnd).0;
    assert(back.v =~= s.v);
}

} // verus!

verus! {

/// Stepping over `call nnn` and then over the `return` stored at `nnn` leaves the
/// program counter just past the call opcode, and the stack pointer as it was.
pub proof fn lemma_call_return_steps(s: MachineView, nnn: u16, rnd: u8)
    requires
        s.wf(),
        s.waiting is None,
        s.sp < 15,
        s.pc + 1 < MEM_SIZE,
        nnn + 1 < MEM_SIZE,
        fetch_spec(s) == 0x2000 + nnn,
        s.mem[nnn as int] == 0x00,
        s.mem[nnn + 1] == 0xee,
    ensures
        ({
            let (first, r1) = step_spec(s, rnd);
            let (second, r2) = step_spec(first, rnd);
            &&& r1 is Ok && r2 is Ok
            &&& second.pc == s.pc + 2
            &&& second.sp == s.sp
        }),
{
    let op = fetch_spec(s);
    assert(op >> 12u16 == 2 && (op & 0xfff) == nnn) by (bit_vector)
        requires
            op == 0x2000 + nnn,
            nnn < 0x1000,
    ;
    assert(decode_spec(op) == Some(Instruction::Call { addr: nnn }));
    let first = step_spec(s, rnd).0;
    assert(first.pc == nnn);
    assert(first.mem == s.mem);
    assert(first.sp == s.sp + 1);
    assert(first.stack[first.sp as int] == s.pc + 2);
    let (hi, lo) = (first.mem[nnn as int], first.mem[nnn + 1]);
    let op2 = fetch_spec(first);
    assert(op2 == ((hi as u16) << 8u16) | (lo as u16));
    assert(op2 == 0x00ee && op2 >> 12u16 == 0) by (bit_vector)
        requires
            op2 == ((hi as u16) << 8u16) | (lo as u16),
            hi == 0,
            lo == 0xee,
    ;
    assert(decode_spec(op2) == Some(Instruction::Return));
}

} // verus!

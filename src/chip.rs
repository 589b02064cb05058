use vstd::prelude::*;
use vstd::wrapping::u16_specs;
use vstd::wrapping::u8_specs;

use crate::display::{collides, drawn, Display, ROWS};
use crate::instruction::{decode, decode_spec, Instruction};
use crate::memory::{loaded, LoadError, Memory, Registers, MEM_SIZE, STACK_SIZE};

verus! {

/// A run-time fault reported by one step; execution can go on after it.
#[derive(Clone, Copy, Debug, PartialEq, Eq, Structural)]
pub enum Fault {
    /// The fetched opcode is not part of the instruction set.
    UnknownOpcode(u16),
    /// A call with all stack slots in use.
    StackOverflow,
    /// A return with an empty stack.
    StackUnderflow,
    /// A memory access past the end of the address space.
    AddressOutOfRange,
    /// The program counter leaves no room for a two-byte fetch.
    PcOutOfRange,
}

/// The whole machine state as mathematical values.
#[verifier::ext_equal]
pub struct MachineView {
    /// Registers V0 to VF.
    pub v: Seq<u8>,
    /// The address register I.
    pub i: u16,
    /// Delay timer.
    pub dt: u8,
    /// Sound timer.
    pub st: u8,
    /// Program counter.
    pub pc: u16,
    /// Index of the top of the call stack; -1 when it is empty.
    pub sp: i8,
    /// The call stack's slots.
    pub stack: Seq<u16>,
    /// The byte address space.
    pub mem: Seq<u8>,
    /// Framebuffer rows.
    pub pixels: Seq<u64>,
    /// The register that waits for a key press, if any.
    pub waiting: Option<u8>,
}

impl MachineView {
    pub open spec fn wf(self) -> bool {
        &&& self.v.len() == 16
        &&& -1 <= self.sp < STACK_SIZE
        &&& self.stack.len() == STACK_SIZE
        &&& self.mem.len() == MEM_SIZE
        &&& self.pixels.len() == ROWS
        &&& self.waiting matches Some(x) ==> x < 16
    }

    /// The state with register `x` set to `b`.
    pub open spec fn set_v(self, x: int, b: u8) -> MachineView {
        MachineView { v: self.v.update(x, b), ..self }
    }

    /// The state with the program counter moved past the next instruction.
    pub open spec fn skip(self) -> MachineView {
        MachineView { pc: u16_specs::wrapping_add(self.pc, 2), ..self }
    }

    /// Sets VF to `flag`, then `x` to `b`.
    pub open spec fn set_flag_then(self, flag: bool, x: int, b: u8) -> MachineView {
        self.set_v(15, if flag { 1u8 } else { 0u8 }).set_v(x, b)
    }
}

/// The state right after loading `program`.
pub open spec fn initial(program: Seq<u8>) -> MachineView {
    MachineView {
        v: Seq::new(16, |r: int| 0u8),
        i: 0,
        dt: 0,
        st: 0,
        pc: 0x200,
        sp: -1i8,
        stack: Seq::new(16, |k: int| 0u16),
        mem: loaded(program),
        pixels: Seq::new(32, |r: int| 0u64),
        waiting: None,
    }
}

/// The three decimal digits of `b`, most significant first.
pub open spec fn bcd_digits(b: u8) -> Seq<u8> {
    seq![(b / 100) as u8, ((b / 10) % 10) as u8, (b % 10) as u8]
}

/// The effect of executing `ins` on `s`, with `rnd` as the random byte that the
/// random instruction draws: the next state and the fault reported, if any.
pub open spec fn execute_spec(s: MachineView, ins: Instruction, rnd: u8) -> (MachineView, Result<
    (),
    Fault,
>) {
    match ins {
        Instruction::Clear => (MachineView { pixels: Seq::new(32, |r: int| 0u64), ..s }, Ok(())),
        Instruction::Return => if s.sp < 0 {
            (s, Err(Fault::StackUnderflow))
        } else {
            (MachineView { pc: s.stack[s.sp as int], sp: (s.sp - 1) as i8, ..s }, Ok(()))
        },
        Instruction::Jump { addr } => (MachineView { pc: addr, ..s }, Ok(())),
        Instruction::Call { addr } => if s.sp >= STACK_SIZE - 1 {
            (s, Err(Fault::StackOverflow))
        } else {
            (
                MachineView {
                    sp: (s.sp + 1) as i8,
                    stack: s.stack.update(s.sp + 1, s.pc),
                    pc: addr,
                    ..s
                },
                Ok(()),
            )
        },
        Instruction::SkipEqImm { x, k } => (if s.v[x as int] == k { s.skip() } else { s }, Ok(())),
        Instruction::SkipNeImm { x, k } => (if s.v[x as int] != k { s.skip() } else { s }, Ok(())),
        Instruction::SkipEqReg { x, y } => (
            if s.v[x as int] == s.v[y as int] { s.skip() } else { s },
            Ok(()),
        ),
        Instruction::SkipNeReg { x, y } => (
            if s.v[x as int] != s.v[y as int] { s.skip() } else { s },
            Ok(()),
        ),
        Instruction::LoadImm { x, k } => (s.set_v(x as int, k), Ok(())),
        Instruction::AddImm { x, k } => (
            s.set_v(x as int, u8_specs::wrapping_add(s.v[x as int], k)),
            Ok(()),
        ),
        Instruction::Move { x, y } => (s.set_v(x as int, s.v[y as int]), Ok(())),
        Instruction::Or { x, y } => (s.set_v(x as int, s.v[x as int] | s.v[y as int]), Ok(())),
        Instruction::And { x, y } => (s.set_v(x as int, s.v[x as int] & s.v[y as int]), Ok(())),
        Instruction::Xor { x, y } => (s.set_v(x as int, s.v[x as int] ^ s.v[y as int]), Ok(())),
        Instruction::AddReg { x, y } => {
            let (a, b) = (s.v[x as int], s.v[y as int]);
            (s.set_flag_then(a + b > 255, x as int, u8_specs::wrapping_add(a, b)), Ok(()))
        },
        Instruction::SubReg { x, y } => {
            let (a, b) = (s.v[x as int], s.v[y as int]);
            (s.set_flag_then(a > b, x as int, u8_specs::wrapping_sub(a, b)), Ok(()))
        },
        Instruction::SubN { x, y } => {
            let (a, b) = (s.v[x as int], s.v[y as int]);
            (s.set_flag_then(b > a, x as int, u8_specs::wrapping_sub(b, a)), Ok(()))
        },
        Instruction::ShiftRight { x } => {
            let a = s.v[x as int];
            (s.set_flag_then(a % 2 == 1, x as int, a / 2), Ok(()))
        },
        Instruction::ShiftLeft { x } => {
            let a = s.v[x as int];
            (s.set_flag_then(a >= 0x80, x as int, ((2 * a) % 256) as u8), Ok(()))
        },
        Instruction::LoadI { addr } => (MachineView { i: addr, ..s }, Ok(())),
        Instruction::JumpV0 { addr } => (
            MachineView { pc: u16_specs::wrapping_add(addr, s.v[0] as u16), ..s },
            Ok(()),
        ),
        Instruction::Random { x, k } => (s.set_v(x as int, rnd & k), Ok(())),
        Instruction::Draw { x, y, n } => if s.i + n > MEM_SIZE {
            (s, Err(Fault::AddressOutOfRange))
        } else {
            let sprite = s.mem.subrange(s.i as int, s.i + n);
            let (cx, cy) = (s.v[x as int], s.v[y as int]);
            let hit = collides(s.pixels, sprite, n as int, cx, cy);
            (
                MachineView {
                    pixels: drawn(s.pixels, sprite, n as int, cx, cy),
                    ..s.set_v(15, if hit { 1u8 } else { 0u8 })
                },
                Ok(()),
            )
        },
        Instruction::ReadDelay { x } => (s.set_v(x as int, s.dt), Ok(())),
        Instruction::WaitKey { x } => (MachineView { waiting: Some(x), ..s }, Ok(())),
        Instruction::SetDelay { x } => (MachineView { dt: s.v[x as int], ..s }, Ok(())),
        Instruction::SetSound { x } => (MachineView { st: s.v[x as int], ..s }, Ok(())),
        Instruction::AddI { x } => (
            MachineView { i: u16_specs::wrapping_add(s.i, s.v[x as int] as u16), ..s },
            Ok(()),
        ),
        Instruction::FontChar { x } => (MachineView { i: (s.v[x as int] * 5) as u16, ..s }, Ok(())),
        Instruction::Bcd { x } => if s.i + 3 > MEM_SIZE {
            (s, Err(Fault::AddressOutOfRange))
        } else {
            let d = bcd_digits(s.v[x as int]);
            (
                MachineView {
                    mem: s.mem.update(s.i as int, d[0]).update(s.i + 1, d[1]).update(s.i + 2, d[2]),
                    ..s
                },
                Ok(()),
            )
        },
        Instruction::StoreRegs { x } => if s.i + x + 1 > MEM_SIZE {
            (s, Err(Fault::AddressOutOfRange))
        } else {
            (
                MachineView {
                    mem: Seq::new(
                        s.mem.len(),
                        |a: int|
                            if s.i <= a <= s.i + x {
                                s.v[a - s.i]
                            } else {
                                s.mem[a]
                            },
                    ),
                    ..s
                },
                Ok(()),
            )
        },
        Instruction::LoadRegs { x } => if s.i + x + 1 > MEM_SIZE {
            (s, Err(Fault::AddressOutOfRange))
        } else {
            (
                MachineView {
                    v: Seq::new(
                        s.v.len(),
                        |r: int|
                            if r <= x {
                                s.mem[s.i + r]
                            } else {
                                s.v[r]
                            },
                    ),
                    ..s
                },
                Ok(()),
            )
        },
    }
}

/// The opcode at the program counter, most significant byte first.
pub open spec fn fetch_spec(s: MachineView) -> u16 {
    ((s.mem[s.pc as int] as u16) << 8u16) | (s.mem[s.pc + 1] as u16)
}

/// One fetch-decode-execute step: nothing happens while a key is awaited; the
/// program counter moves past the opcode before it is executed.
pub open spec fn step_spec(s: MachineView, rnd: u8) -> (MachineView, Result<(), Fault>) {
    if s.waiting is Some {
        (s, Ok(()))
    } else if s.pc + 1 >= MEM_SIZE {
        (s, Err(Fault::PcOutOfRange))
    } else {
        let op = fetch_spec(s);
        let s1 = MachineView { pc: (s.pc + 2) as u16, ..s };
        match decode_spec(op) {
            None => (s1, Err(Fault::UnknownOpcode(op))),
            Some(ins) => execute_spec(s1, ins, rnd),
        }
    }
}

/// The interpreter: registers, memory with the call stack, and the framebuffer.
pub struct Chip {
    regs: Registers,
    mem: Memory,
    display: Display,
    waiting: Option<u8>,
}

impl Chip {
    pub closed spec fn view(&self) -> MachineView {
        MachineView {
            v: self.regs.gpr@,
            i: self.regs.i,
            dt: self.regs.dt,
            st: self.regs.st,
            pc: self.regs.pc,
            sp: self.regs.sp,
            stack: self.mem.stack@,
            mem: self.mem.data@,
            pixels: self.display@,
            waiting: self.waiting,
        }
    }

    pub open spec fn wf(&self) -> bool {
        self@.wf()
    }

    /// A machine with `program` loaded; fails when the program does not fit.
    pub fn new(program: &Vec<u8>) -> (r: Result<Chip, LoadError>)
        ensures
            program@.len() > MEM_SIZE - 0x200 <==> r is Err,
            r matches Ok(c) ==> c.wf() && c@ == initial(program@),
    {
        match Memory::new(program) {
            Err(e) => Err(e),
            Ok(mem) => {
                let c = Chip { regs: Registers::new(), mem, display: Display::new(), waiting: None };
                assert(c@ =~= initial(program@));
                Ok(c)
            },
        }
    }

    fn set_v(&mut self, x: u8, b: u8)
        requires
            old(self).wf(),
            x < 16,
        ensures
            final(self)@ == old(self)@.set_v(x as int, b),
            final(self).wf(),
    {
        self.regs.gpr.set(x as usize, b);
        assert(self@ =~= old(self)@.set_v(x as int, b));
    }

    fn skip(&mut self)
        requires
            old(self).wf(),
        ensures
            final(self)@ == old(self)@.skip(),
            final(self).wf(),
    {
        self.regs.pc = self.regs.pc.wrapping_add(2);
        assert(self@ =~= old(self)@.skip());
    }

    fn set_flag_then(&mut self, flag: bool, x: u8, b: u8)
        requires
            old(self).wf(),
            x < 16,
        ensures
            final(self)@ == old(self)@.set_flag_then(flag, x as int, b),
            final(self).wf(),
    {
        self.set_v(15, if flag { 1 } else { 0 });
        self.set_v(x, b);
    }

    fn drw(&mut self, x: u8, y: u8, n: u8) -> (r: Result<(), Fault>)
        requires
            old(self).wf(),
            x < 16,
            y < 16,
            n < 16,
        ensures
            (final(self)@, r) == execute_spec(old(self)@, Instruction::Draw { x, y, n }, 0),
            final(self).wf(),
    {
        if self.regs.i as usize + n as usize > MEM_SIZE {
            return Err(Fault::AddressOutOfRange);
        }
        let base = self.regs.i as usize;
        let mut sprite: Vec<u8> = Vec::new();
        let mut k: usize = 0;
        while k < n as usize
            invariant
                k <= n,
                base + n <= MEM_SIZE,
                self.mem.data@.len() == MEM_SIZE,
                sprite@ == self.mem.data@.subrange(base as int, base + k),
            decreases n - k,
        {
            sprite.push(self.mem.data[base + k]);
            k = k + 1;
            assert(sprite@ =~= self.mem.data@.subrange(base as int, base + k));
        }
        let cx = self.regs.gpr[x as usize];
        let cy = self.regs.gpr[y as usize];
        let hit = self.display.draw_sprite(&sprite, n as usize, cx, cy);
        self.set_v(15, if hit { 1 } else { 0 });
        assert(self@ =~= execute_spec(old(self)@, Instruction::Draw { x, y, n }, 0).0);
        Ok(())
    }

    fn bcd(&mut self, x: u8) -> (r: Result<(), Fault>)
        requires
            old(self).wf(),
            x < 16,
        ensures
            (final(self)@, r) == execute_spec(old(self)@, Instruction::Bcd { x }, 0),
            final(self).wf(),
    {
        let a = self.regs.i as usize;
        if a + 3 > MEM_SIZE {
            return Err(Fault::AddressOutOfRange);
        }
        let value = self.regs.gpr[x as usize];
        self.mem.data.set(a, value / 100);
        self.mem.data.set(a + 1, (value / 10) % 10);
        self.mem.data.set(a + 2, value % 10);
        assert(self@ =~= execute_spec(old(self)@, Instruction::Bcd { x }, 0).0);
        Ok(())
    }

    fn st(&mut self, x: u8) -> (r: Result<(), Fault>)
        requires
            old(self).wf(),
            x < 16,
        ensures
            (final(self)@, r) == execute_spec(old(self)@, Instruction::StoreRegs { x }, 0),
            final(self).wf(),
    {
        let base = self.regs.i as usize;
        if base + x as usize + 1 > MEM_SIZE {
            return Err(Fault::AddressOutOfRange);
        }
        let ghost pre = self.mem.data@;
        let ghost whole = self@;
        let mut k: usize = 0;
        while k <= x as usize
            invariant
                self@ == (MachineView { mem: self.mem.data@, ..whole }),
                whole.wf(),
                pre == whole.mem,
                k <= x + 1,
                x < 16,
                base == self.regs.i,
                base + x + 1 <= MEM_SIZE,
                self.regs.gpr@.len() == 16,
                self.mem.data@.len() == MEM_SIZE,
                forall|a: int|
                    0 <= a < MEM_SIZE ==> self.mem.data@[a] == if base <= a < base + k {
                        self.regs.gpr@[a - base]
                    } else {
                        pre[a]
                    },
            decreases x + 1 - k,
        {
            let b = self.regs.gpr[k];
            self.mem.data.set(base + k, b);
            k = k + 1;
        }
        assert(self@ =~= execute_spec(old(self)@, Instruction::StoreRegs { x }, 0).0);
        Ok(())
    }

    fn load(&mut self, x: u8) -> (r: Result<(), Fault>)
        requires
            old(self).wf(),
            x < 16,
        ensures
            (final(self)@, r) == execute_spec(old(self)@, Instruction::LoadRegs { x }, 0),
            final(self).wf(),
    {
        let base = self.regs.i as usize;
        if base + x as usize + 1 > MEM_SIZE {
            return Err(Fault::AddressOutOfRange);
        }
        let ghost pre = self.regs.gpr@;
        let ghost whole = self@;
        let mut k: usize = 0;
        while k <= x as usize
            invariant
                self@ == (MachineView { v: self.regs.gpr@, ..whole }),
                whole.wf(),
                pre == whole.v,
                k <= x + 1,
                x < 16,
                base == self.regs.i,
                base + x + 1 <= MEM_SIZE,
                self.regs.gpr@.len() == 16,
                self.mem.data@.len() == MEM_SIZE,
                forall|r: int|
                    0 <= r < 16 ==> self.regs.gpr@[r] == if r < k {
                        self.mem.data@[base + r]
                    } else {
                        pre[r]
                    },
            decreases x + 1 - k,
        {
            let b = self.mem.data[base + k];
            self.regs.gpr.set(k, b);
            k = k + 1;
        }
        assert(self@ =~= execute_spec(old(self)@, Instruction::LoadRegs { x }, 0).0);
        Ok(())
    }

    /// Executes one decoded instruction; `rnd` is the byte the random
    /// instruction draws.
    pub fn execute(&mut self, ins: Instruction, rnd: u8) -> (r: Result<(), Fault>)
        requires
            old(self).wf(),
            ins.wf(),
        ensures
            (final(self)@, r) == execute_spec(old(self)@, ins, rnd),
            final(self).wf(),
    {
        let ghost pre = self@;
        match ins {
            Instruction::Clear => {
                self.display.clear();
                assert(self@ =~= execute_spec(pre, ins, rnd).0);
                Ok(())
            },
            Instruction::Return => {
                if self.regs.sp < 0 {
                    return Err(Fault::StackUnderflow);
                }
                self.regs.pc = self.mem.stack[self.regs.sp as usize];
                self.regs.sp = self.regs.sp - 1;
                assert(self@ =~= execute_spec(pre, ins, rnd).0);
                Ok(())
            },
            Instruction::Jump { addr } => {
                self.regs.pc = addr;
                assert(self@ =~= execute_spec(pre, ins, rnd).0);
                Ok(())
            },
            Instruction::Call { addr } => {
                if self.regs.sp >= STACK_SIZE as i8 - 1 {
                    return Err(Fault::StackOverflow);
                }
                self.regs.sp = self.regs.sp + 1;
                self.mem.stack.set(self.regs.sp as usize, self.regs.pc);
                self.regs.pc = addr;
                assert(self@ =~= execute_spec(pre, ins, rnd).0);
                Ok(())
            },
            Instruction::SkipEqImm { x, k } => {
                if self.regs.gpr[x as usize] == k {
                    self.skip();
                }
                Ok(())
            },
            Instruction::SkipNeImm { x, k } => {
                if self.regs.gpr[x as usize] != k {
                    self.skip();
                }
                Ok(())
            },
            Instruction::SkipEqReg { x, y } => {
                if self.regs.gpr[x as usize] == self.regs.gpr[y as usize] {
                    self.skip();
                }
                Ok(())
            },
            Instruction::SkipNeReg { x, y } => {
                if self.regs.gpr[x as usize] != self.regs.gpr[y as usize] {
                    self.skip();
                }
                Ok(())
            },
            Instruction::LoadImm { x, k } => {
                self.set_v(x, k);
                Ok(())
            },
            Instruction::AddImm { x, k } => {
                let a = self.regs.gpr[x as usize];
                self.set_v(x, a.wrapping_add(k));
                Ok(())
            },
            Instruction::Move { x, y } => {
                let b = self.regs.gpr[y as usize];
                self.set_v(x, b);
                Ok(())
            },
            Instruction::Or { x, y } => {
                let (a, b) = (self.regs.gpr[x as usize], self.regs.gpr[y as usize]);
                self.set_v(x, a | b);
                Ok(())
            },
            Instruction::And { x, y } => {
                let (a, b) = (self.regs.gpr[x as usize], self.regs.gpr[y as usize]);
                self.set_v(x, a & b);
                Ok(())
            },
            Instruction::Xor { x, y } => {
                let (a, b) = (self.regs.gpr[x as usize], self.regs.gpr[y as usize]);
                self.set_v(x, a ^ b);
                Ok(())
            },
            Instruction::AddReg { x, y } => {
                let (a, b) = (self.regs.gpr[x as usize], self.regs.gpr[y as usize]);
                let sum: u16 = a as u16 + b as u16;
                self.set_flag_then(sum > 255, x, a.wrapping_add(b));
                Ok(())
            },
            Instruction::SubReg { x, y } => {
                let (a, b) = (self.regs.gpr[x as usize], self.regs.gpr[y as usize]);
                self.set_flag_then(a > b, x, a.wrapping_sub(b));
                Ok(())
            },
            Instruction::SubN { x, y } => {
                let (a, b) = (self.regs.gpr[x as usize], self.regs.gpr[y as usize]);
                self.set_flag_then(b > a, x, b.wrapping_sub(a));
                Ok(())
            },
            Instruction::ShiftRight { x } => {
                let a = self.regs.gpr[x as usize];
                self.set_flag_then(a % 2 == 1, x, a / 2);
                Ok(())
            },
            Instruction::ShiftLeft { x } => {
                let a = self.regs.gpr[x as usize];
                self.set_flag_then(a >= 0x80, x, ((2 * a as u16) % 256) as u8);
                Ok(())
            },
            Instruction::LoadI { addr } => {
                self.regs.i = addr;
                assert(self@ =~= execute_spec(pre, ins, rnd).0);
                Ok(())
            },
            Instruction::JumpV0 { addr } => {
                self.regs.pc = addr.wrapping_add(self.regs.gpr[0] as u16);
                assert(self@ =~= execute_spec(pre, ins, rnd).0);
                Ok(())
            },
            Instruction::Random { x, k } => {
                self.set_v(x, rnd & k);
                Ok(())
            },
            Instruction::Draw { x, y, n } => self.drw(x, y, n),
            Instruction::ReadDelay { x } => {
                let t = self.regs.dt;
                self.set_v(x, t);
                Ok(())
            },
            Instruction::WaitKey { x } => {
                self.waiting = Some(x);
                assert(self@ =~= execute_spec(pre, ins, rnd).0);
                Ok(())
            },
            Instruction::SetDelay { x } => {
                self.regs.dt = self.regs.gpr[x as usize];
                assert(self@ =~= execute_spec(pre, ins, rnd).0);
                Ok(())
            },
            Instruction::SetSound { x } => {
                self.regs.st = self.regs.gpr[x as usize];
                assert(self@ =~= execute_spec(pre, ins, rnd).0);
                Ok(())
            },
            Instruction::AddI { x } => {
                self.regs.i = self.regs.i.wrapping_add(self.regs.gpr[x as usize] as u16);
                assert(self@ =~= execute_spec(pre, ins, rnd).0);
                Ok(())
            },
            Instruction::FontChar { x } => {
                self.regs.i = self.regs.gpr[x as usize] as u16 * 5;
                assert(self@ =~= execute_spec(pre, ins, rnd).0);
                Ok(())
            },
            Instruction::Bcd { x } => self.bcd(x),
            Instruction::StoreRegs { x } => self.st(x),
            Instruction::LoadRegs { x } => self.load(x),
        }
    }

    /// Runs one fetch-decode-execute step with `rnd` as the byte that a random
    /// instruction draws. Does nothing while a key press is awaited.
    pub fn step(&mut self, rnd: u8) -> (r: Result<(), Fault>)
        requires
            old(self).wf(),
        ensures
            (final(self)@, r) == step_spec(old(self)@, rnd),
            final(self).wf(),
    {
        if self.waiting.is_some() {
            return Ok(());
        }
        let pc = self.regs.pc as usize;
        if pc + 1 >= MEM_SIZE {
            return Err(Fault::PcOutOfRange);
        }
        let opcode: u16 = ((self.mem.data[pc] as u16) << 8) | (self.mem.data[pc + 1] as u16);
        self.regs.pc = self.regs.pc + 2;
        match decode(opcode) {
            None => Err(Fault::UnknownOpcode(opcode)),
            Some(ins) => self.execute(ins, rnd),
        }
    }

    /// Runs one step, drawing the random byte from the thread-local generator.
    pub fn new_cycle(&mut self) -> (r: Result<(), Fault>)
        requires
            old(self).wf(),
        ensures
            exists|rnd: u8| (final(self)@, r) == step_spec(old(self)@, rnd),
            final(self).wf(),
    {
        let rnd = random_byte();
        self.step(rnd)
    }

    /// Whether the machine is stopped until a key is pressed.
    pub fn awaiting_key(&self) -> (b: bool)
        ensures
            b == self@.waiting is Some,
    {
        self.waiting.is_some()
    }

    /// Hands a key code to a machine that awaits one: the waiting register gets
    /// it and execution resumes. Codes of 16 and above, and presses while no key
    /// is awaited, change nothing.
    pub fn press_key(&mut self, key: u8)
        requires
            old(self).wf(),
        ensures
            final(self).wf(),
            final(self)@ == match old(self)@.waiting {
                Some(x) if key < 16 => (MachineView {
                    waiting: None,
                    ..old(self)@.set_v(x as int, key)
                }),
                _ => old(self)@,
            },
    {
        if key < 16 {
            if let Some(x) = self.waiting {
                self.set_v(x, key);
                self.waiting = None;
                assert(self@ =~= (MachineView { waiting: None, ..old(self)@.set_v(x as int, key) }));
            }
        }
    }

    /// One tick of the 60 Hz clock: each timer above zero goes down by one.
    pub fn tick_timers(&mut self)
        requires
            old(self).wf(),
        ensures
            final(self).wf(),
            final(self)@ == (MachineView {
                dt: if old(self)@.dt > 0 { (old(self)@.dt - 1) as u8 } else { 0 },
                st: if old(self)@.st > 0 { (old(self)@.st - 1) as u8 } else { 0 },
                ..old(self)@
            }),
    {
        if self.regs.dt > 0 {
            self.regs.dt = self.regs.dt - 1;
        }
        if self.regs.st > 0 {
            self.regs.st = self.regs.st - 1;
        }
        assert(self@ =~= (MachineView {
            dt: if old(self)@.dt > 0 { (old(self)@.dt - 1) as u8 } else { 0 },
            st: if old(self)@.st > 0 { (old(self)@.st - 1) as u8 } else { 0 },
            ..old(self)@
        }));
    }

    /// The framebuffer.
    pub fn display(&self) -> (d: &Display)
        requires
            self.wf(),
        ensures
            d.wf(),
            d@ == self@.pixels,
    {
        &self.display
    }

    /// The value of register `x`.
    pub fn register(&self, x: usize) -> (b: u8)
        requires
            self.wf(),
            x < 16,
        ensures
            b == self@.v[x as int],
    {
        self.regs.gpr[x]
    }

    /// The byte at `addr`, or `None` past the end of memory.
    pub fn read_memory(&self, addr: usize) -> (b: Option<u8>)
        requires
            self.wf(),
        ensures
            addr < MEM_SIZE ==> b == Some(self@.mem[addr as int]),
            addr >= MEM_SIZE ==> b is None,
    {
        self.mem.read(addr)
    }

    /// The program counter.
    pub fn pc(&self) -> (p: u16)
        ensures
            p == self@.pc,
    {
        self.regs.pc
    }

    /// The address register I.
    pub fn address(&self) -> (a: u16)
        ensures
            a == self@.i,
    {
        self.regs.i
    }

    /// The delay timer.
    pub fn delay_timer(&self) -> (t: u8)
        ensures
            t == self@.dt,
    {
        self.regs.dt
    }

    /// The sound timer.
    pub fn sound_timer(&self) -> (t: u8)
        ensures
            t == self@.st,
    {
        self.regs.st
    }
}

/// Relies on rand::random: a byte from the thread-local generator, any value possible.
#[verifier::external_body]
fn random_byte() -> (r: u8) {
    rand::random::<u8>()
}

} // verus!

use vstd::prelude::*;

verus! {

/// Size of the byte address space.
pub const MEM_SIZE: usize = 4096;

/// Address at which a program image is loaded.
pub const PROGRAM_START: usize = 0x200;

/// Number of return addresses the call stack holds.
pub const STACK_SIZE: usize = 16;

/// Number of bytes of the built-in hexadecimal font (16 glyphs of 5 rows).
pub const FONT_LEN: usize = 80;

/// The built-in glyphs for the hexadecimal digits 0 to F, five rows each,
/// most significant bit leftmost.
pub open spec fn font() -> Seq<u8> {
    seq![
        0xf0u8, 0x90, 0x90, 0x90, 0xf0,
        0x20, 0x60, 0x20, 0x20, 0x70,
        0xf0, 0x10, 0xf0, 0x80, 0xf0,
        0xf0, 0x10, 0xf0, 0x10, 0xf0,
        0x90, 0x90, 0xf0, 0x10, 0x10,
        0xf0, 0x80, 0xf0, 0x10, 0xf0,
        0xf0, 0x80, 0xf0, 0x90, 0xf0,
        0xf0, 0x10, 0x20, 0x40, 0x40,
        0xf0, 0x90, 0xf0, 0x90, 0xf0,
        0xf0, 0x90, 0xf0, 0x10, 0xf0,
        0xf0, 0x90, 0xf0, 0x90, 0x90,
        0xe0, 0x90, 0xe0, 0x90, 0xe0,
        0xf0, 0x80, 0x80, 0x80, 0xf0,
        0xe0, 0x90, 0x90, 0x90, 0xe0,
        0xf0, 0x80, 0xf0, 0x80, 0xf0,
        0xf0, 0x80, 0xf0, 0x80, 0x80,
    ]
}

fn font_bytes() -> (r: Vec<u8>)
    ensures
        r@ == font(),
{
    let r: Vec<u8> = vec![
        0xf0u8, 0x90, 0x90, 0x90, 0xf0,
        0x20, 0x60, 0x20, 0x20, 0x70,
        0xf0, 0x10, 0xf0, 0x80, 0xf0,
        0xf0, 0x10, 0xf0, 0x10, 0xf0,
        0x90, 0x90, 0xf0, 0x10, 0x10,
        0xf0, 0x80, 0xf0, 0x10, 0xf0,
        0xf0, 0x80, 0xf0, 0x90, 0xf0,
        0xf0, 0x10, 0x20, 0x40, 0x40,
        0xf0, 0x90, 0xf0, 0x90, 0xf0,
        0xf0, 0x90, 0xf0, 0x10, 0xf0,
        0xf0, 0x90, 0xf0, 0x90, 0x90,
        0xe0, 0x90, 0xe0, 0x90, 0xe0,
        0xf0, 0x80, 0x80, 0x80, 0xf0,
        0xe0, 0x90, 0x90, 0x90, 0xe0,
        0xf0, 0x80, 0xf0, 0x80, 0xf0,
        0xf0, 0x80, 0xf0, 0x80, 0x80,
    ];
    assert(r@ =~= font());
    r
}


/// The address space right after loading `program`: the font at the bottom, the
/// program from `PROGRAM_START` on, zero everywhere else.
pub open spec fn loaded(program: Seq<u8>) -> Seq<u8> {
    Seq::new(
        MEM_SIZE as nat,
        |a: int|
            if a < FONT_LEN {
                font()[a]
            } else if PROGRAM_START <= a < PROGRAM_START + program.len() {
                program[a - PROGRAM_START]
            } else {
                0u8
            },
    )
}

/// Why a program image could not be loaded.
#[derive(Clone, Copy, Debug, PartialEq, Eq, Structural)]
pub enum LoadError {
    /// The image does not fit between `PROGRAM_START` and the end of memory.
    TooLarge,
}

/// The register file.
pub struct Registers {
    /// General purpose registers V0 to VF; VF doubles as the flag register.
    pub gpr: Vec<u8>,
    /// The address register I.
    pub i: u16,
    /// Delay timer.
    pub dt: u8,
    /// Sound timer.
    pub st: u8,
    /// Program counter.
    pub pc: u16,
    /// Index of the top of the call stack; -1 when it is empty.
    pub sp: i8,
}

impl Registers {
    pub open spec fn wf(&self) -> bool {
        &&& self.gpr@.len() == 16
        &&& -1 <= self.sp < STACK_SIZE
    }

    /// All registers zero, the program counter at `PROGRAM_START`, the stack empty.
    pub fn new() -> (r: Registers)
        ensures
            r.wf(),
            r.gpr@ == Seq::new(16, |k: int| 0u8),
            r.i == 0,
            r.dt == 0,
            r.st == 0,
            r.pc == PROGRAM_START,
            r.sp == -1,
    {
        let mut gpr: Vec<u8> = Vec::new();
        let mut k: usize = 0;
        while k < 16
            invariant
                k <= 16,
                gpr@ == Seq::new(k as nat, |j: int| 0u8),
            decreases 16 - k,
        {
            gpr.push(0);
            k = k + 1;
        }
        proof {
            assert(gpr@ =~= Seq::new(16, |j: int| 0u8));
        }
        Registers { gpr, i: 0, dt: 0, st: 0, pc: PROGRAM_START as u16, sp: -1 }
    }
}

/// The byte address space and the call stack.
pub struct Memory {
    /// The 4096-byte address space.
    pub data: Vec<u8>,
    /// Return addresses, indexed by the stack pointer.
    pub stack: Vec<u16>,
}

impl Memory {
    pub open spec fn wf(&self) -> bool {
        &&& self.data@.len() == MEM_SIZE
        &&& self.stack@.len() == STACK_SIZE
    }

    /// Memory holding the font and `program`; fails when the program is longer
    /// than the space from `PROGRAM_START` to the end of memory.
    pub fn new(program: &Vec<u8>) -> (r: Result<Memory, LoadError>)
        ensures
            program@.len() > MEM_SIZE - PROGRAM_START <==> r is Err,
            r matches Ok(m) ==> m.wf() && m.data@ == loaded(program@) && m.stack@ == Seq::new(
                16,
                |k: int| 0u16,
            ),
    {
        if program.len() > MEM_SIZE - PROGRAM_START {
            return Err(LoadError::TooLarge);
        }
        let glyphs = font_bytes();
        let mut data: Vec<u8> = Vec::new();
        let mut a: usize = 0;
        while a < MEM_SIZE
            invariant
                a <= MEM_SIZE,
                glyphs@ == font(),
                program@.len() <= MEM_SIZE - PROGRAM_START,
                data@ == loaded(program@).take(a as int),
            decreases MEM_SIZE - a,
        {
            let b: u8 = if a < FONT_LEN {
                glyphs[a]
            } else if PROGRAM_START <= a && a < PROGRAM_START + program.len() {
                program[a - PROGRAM_START]
            } else {
                0
            };
            proof {
                assert(loaded(program@).take(a as int).push(b) =~= loaded(program@).take(a + 1));
            }
            data.push(b);
            a = a + 1;
        }
        let mut stack: Vec<u16> = Vec::new();
        let mut k: usize = 0;
        while k < STACK_SIZE
            invariant
                k <= STACK_SIZE,
                stack@ == Seq::new(k as nat, |j: int| 0u16),
            decreases STACK_SIZE - k,
        {
            stack.push(0);
            k = k + 1;
        }
        proof {
            assert(data@ =~= loaded(program@));
            assert(stack@ =~= Seq::new(16, |j: int| 0u16));
        }
        Ok(Memory { data, stack })
    }

    /// The byte at `addr`, or `None` past the end of the address space.
    pub fn read(&self, addr: usize) -> (r: Option<u8>)
        requires
            self.wf(),
        ensures
            addr < MEM_SIZE ==> r == Some(self.data@[addr as int]),
            addr >= MEM_SIZE ==> r is None,
    {
        if addr < MEM_SIZE {
            Some(self.data[addr])
        } else {
            None
        }
    }

    /// Writes `b` at `addr`; returns `false`, changing nothing, past the end of
    /// the address space.
    pub fn write(&mut self, addr: usize, b: u8) -> (ok: bool)
        requires
            old(self).wf(),
        ensures
            final(self).wf(),
            ok == (addr < MEM_SIZE),
            final(self).stack@ == old(self).stack@,
            ok ==> final(self).data@ == old(self).data@.update(addr as int, b),
            !ok ==> final(self).data@ == old(self).data@,
    {
        if addr < MEM_SIZE {
            self.data.set(addr, b);
            true
        } else {
            false
        }
    }
}

} // verus!

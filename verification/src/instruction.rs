//! The opcode table: a mapping from opcode byte to an immutable
//! descriptor holding the issue cost in clock cycles and a pure execution
//! routine that computes the next register state and a sparse set of
//! memory writes from the current committed state. Looking up a byte
//! with no table entry is a reported, recoverable condition, never a
//! fault.

use vstd::prelude::*;

use crate::CoreError;
use crate::endian::combine_u16_le;
use crate::garntboy_state::MEM_SIZE;
use crate::register_state::CPUFlags;
use crate::register_state::RegModel;
use crate::register_state::RegisterState;
use crate::register_state::flags_of_byte;

verus! {

/// The execution routine of an implemented opcode, by name.
#[derive(Clone, Copy, Debug, PartialEq, Eq, Structural)]
pub enum OpKind {
    /// 0x00 — no operation.
    Nop,
    /// 0x3C — increment `A`; sets Zero and Half-carry, clears Subtract.
    IncA,
    /// 0x3D — decrement `A`; sets Zero, Subtract and Half-carry.
    DecA,
    /// 0x3E — load the immediate byte after the opcode into `A`.
    LdAImm,
    /// 0x77 — store `A` into the memory cell addressed by `HL`.
    LdHlA,
    /// 0xC3 — jump to the 16-bit little-endian immediate address.
    JpImm,
}

/// An immutable per-opcode descriptor: the opcode byte, its issue cost
/// in clock cycles (always positive), and its execution routine.
#[derive(Clone, Copy, Debug, PartialEq, Eq, Structural)]
pub struct Instruction {
    pub opcode: u8,
    pub cycles: u8,
    pub op: OpKind,
}

/// The table entry for an opcode byte, or `None` where the byte has no
/// entry.
pub open spec fn spec_lookup(opcode: u8) -> Option<OpKind> {
    if opcode == 0x00 {
        Some(OpKind::Nop)
    } else if opcode == 0x3C {
        Some(OpKind::IncA)
    } else if opcode == 0x3D {
        Some(OpKind::DecA)
    } else if opcode == 0x3E {
        Some(OpKind::LdAImm)
    } else if opcode == 0x77 {
        Some(OpKind::LdHlA)
    } else if opcode == 0xC3 {
        Some(OpKind::JpImm)
    } else {
        None
    }
}

/// The issue cost of each routine, in clock cycles; always positive.
pub open spec fn spec_cycles(k: OpKind) -> u8 {
    match k {
        OpKind::Nop => 4,
        OpKind::IncA => 4,
        OpKind::DecA => 4,
        OpKind::LdAImm => 8,
        OpKind::LdHlA => 8,
        OpKind::JpImm => 16,
    }
}

/// A 16-bit program-counter sum, wrapping around the address space.
pub open spec fn wrap16(x: int) -> u16 {
    (x % 0x10000) as u16
}

/// The register state and sparse memory writes an opcode's routine
/// computes from the committed register state and memory view.
pub open spec fn spec_execute(k: OpKind, r: RegModel, mem: Seq<u8>) -> (RegModel, Seq<(u16, u8)>) {
    match k {
        OpKind::Nop => (RegModel { pc: wrap16(r.pc + 1), ..r }, Seq::empty()),
        OpKind::IncA => {
            let a2 = ((r.a + 1) % 256) as u8;
            let fl = CPUFlags {
                zero: a2 == 0,
                subtract: false,
                half_carry: r.a as int % 16 == 15,
                carry: flags_of_byte(r.f).carry,
            };
            (RegModel { a: a2, f: fl.as_byte(), pc: wrap16(r.pc + 1), ..r }, Seq::empty())
        },
        OpKind::DecA => {
            let a2 = ((r.a + 255) % 256) as u8;
            let fl = CPUFlags {
                zero: a2 == 0,
                subtract: true,
                half_carry: r.a as int % 16 == 0,
                carry: flags_of_byte(r.f).carry,
            };
            (RegModel { a: a2, f: fl.as_byte(), pc: wrap16(r.pc + 1), ..r }, Seq::empty())
        },
        OpKind::LdAImm => (
            RegModel { a: mem[wrap16(r.pc + 1) as int], pc: wrap16(r.pc + 2), ..r },
            Seq::empty(),
        ),
        OpKind::LdHlA => (RegModel { pc: wrap16(r.pc + 1), ..r }, seq![(r.hl(), r.a)]),
        OpKind::JpImm => (
            RegModel {
                pc: (mem[wrap16(r.pc + 1) as int] + 256 * mem[wrap16(r.pc + 2) as int]) as u16,
                ..r
            },
            Seq::empty(),
        ),
    }
}

/// Looks up the table entry for an opcode byte. Exactly the bytes with
/// a table entry succeed; any other byte is reported as
/// `UnimplementedOpcode`, never a fault.
pub fn lookup(opcode: u8) -> (r: Result<Instruction, CoreError>)
    ensures
        r is Ok <==> spec_lookup(opcode) is Some,
        r is Ok ==> r->Ok_0 == (Instruction {
            opcode,
            cycles: spec_cycles(spec_lookup(opcode)->Some_0),
            op: spec_lookup(opcode)->Some_0,
        }),
        r is Err ==> r == Err::<Instruction, CoreError>(CoreError::UnimplementedOpcode(opcode)),
{
    let op = if opcode == 0x00 {
        OpKind::Nop
    } else if opcode == 0x3C {
        OpKind::IncA
    } else if opcode == 0x3D {
        OpKind::DecA
    } else if opcode == 0x3E {
        OpKind::LdAImm
    } else if opcode == 0x77 {
        OpKind::LdHlA
    } else if opcode == 0xC3 {
        OpKind::JpImm
    } else {
        return Err(CoreError::UnimplementedOpcode(opcode));
    };
    let cycles = match op {
        OpKind::Nop => 4,
        OpKind::IncA => 4,
        OpKind::DecA => 4,
        OpKind::LdAImm => 8,
        OpKind::LdHlA => 8,
        OpKind::JpImm => 16,
    };
    Ok(Instruction { opcode, cycles, op })
}

/// A program-counter offset, wrapping around the 16-bit address space.
fn wrap_add(x: u16, d: u16) -> (r: u16)
    ensures
        r == wrap16(x + d),
{
    (((x as u32) + (d as u32)) % 0x10000) as u16
}

/// Runs an instruction's execution routine against the committed
/// register state and memory view. Pure with respect to its inputs: the
/// returned register state and memory deltas are a function of the
/// arguments alone, and nothing is mutated.
pub fn execute(instr: &Instruction, regs: RegisterState, mem: &Vec<u8>) -> (r: (
    RegisterState,
    Vec<(u16, u8)>,
))
    requires
        mem@.len() == MEM_SIZE,
    ensures
        (r.0@, r.1@) == spec_execute(instr.op, regs@, mem@),
{
    let mut rr = regs;
    let pc = rr.pc();
    match instr.op {
        OpKind::Nop => {
            rr.set_pc(wrap_add(pc, 1));
            (rr, Vec::new())
        },
        OpKind::IncA => {
            let a = rr.a();
            let a2: u8 = if a == 255 {
                0
            } else {
                a + 1
            };
            let mut fl = rr.cpu_flags();
            fl.zero = a2 == 0;
            fl.subtract = false;
            fl.half_carry = a % 16 == 15;
            rr.set_cpu_flags(fl);
            rr.set_a(a2);
            rr.set_pc(wrap_add(pc, 1));
            (rr, Vec::new())
        },
        OpKind::DecA => {
            let a = rr.a();
            let a2: u8 = if a == 0 {
                255
            } else {
                a - 1
            };
            let mut fl = rr.cpu_flags();
            fl.zero = a2 == 0;
            fl.subtract = true;
            fl.half_carry = a % 16 == 0;
            rr.set_cpu_flags(fl);
            rr.set_a(a2);
            rr.set_pc(wrap_add(pc, 1));
            (rr, Vec::new())
        },
        OpKind::LdAImm => {
            let imm = mem[wrap_add(pc, 1) as usize];
            rr.set_a(imm);
            rr.set_pc(wrap_add(pc, 2));
            (rr, Vec::new())
        },
        OpKind::LdHlA => {
            let target = rr.hl();
            let a = rr.a();
            rr.set_pc(wrap_add(pc, 1));
            let mut writes: Vec<(u16, u8)> = Vec::new();
            writes.push((target, a));
            proof {
                assert(writes@ =~= seq![(regs@.hl(), regs@.a)]);
            }
            (rr, writes)
        },
        OpKind::JpImm => {
            let lo = mem[wrap_add(pc, 1) as usize];
            let hi = mem[wrap_add(pc, 2) as usize];
            rr.set_pc(combine_u16_le(lo, hi));
            (rr, Vec::new())
        },
    }
}

} // verus!

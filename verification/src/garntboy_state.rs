//! The aggregate state of one running emulation instance: the committed
//! register file and memory space, the staged-mutation buffer (a pending
//! register snapshot plus sparse pending memory writes), and the
//! remaining-cycle counter of the instruction in flight.

use vstd::prelude::*;

use crate::CoreError;
use crate::register_state::RegModel;
use crate::register_state::RegisterState;

verus! {

/// The size of the flat memory space: the full 16-bit address bus.
pub const MEM_SIZE: usize = 65536;

/// The entry point by hardware convention: the address right after the
/// fixed-layout cartridge header, where execution starts once an image
/// is loaded.
pub const ENTRY_POINT: u16 = 0x100;

/// The mathematical model of an emulation instance.
pub ghost struct StateModel {
    /// The committed register file.
    pub regs: RegModel,
    /// The committed memory space, one byte per address.
    pub mem: Seq<u8>,
    /// Cycles still to pay for the instruction in flight.
    pub cycles_to_sleep: u8,
    /// Whether a staged register/memory mutation awaits commit.
    pub has_queued_changes: bool,
    /// The pending register snapshot, committed on the next cycle boundary.
    pub reg_changes: RegModel,
    /// The pending sparse memory writes, committed in order.
    pub mem_changes: Seq<(u16, u8)>,
}

/// `mem` with `bytes` overwriting the cells starting at `addr`; every
/// other cell keeps its value.
pub open spec fn write_block(mem: Seq<u8>, addr: int, bytes: Seq<u8>) -> Seq<u8> {
    Seq::new(
        mem.len(),
        |i: int|
            if addr <= i < addr + bytes.len() {
                bytes[i - addr]
            } else {
                mem[i]
            },
    )
}

/// The state of a single running emulation instance.
pub struct GarntboyState {
    /// The committed register file.
    pub registers: RegisterState,
    /// The committed memory space; always exactly `MEM_SIZE` bytes.
    pub memory: Vec<u8>,
    /// Cycles still to pay for the instruction in flight.
    pub cycles_to_sleep: u8,
    /// Whether a staged register/memory mutation awaits commit.
    pub has_queued_changes: bool,
    /// The pending register snapshot.
    pub register_changes: RegisterState,
    /// The pending sparse memory writes, applied in order at commit.
    pub memory_changes: Vec<(u16, u8)>,
}

impl View for GarntboyState {
    type V = StateModel;

    open spec fn view(&self) -> StateModel {
        StateModel {
            regs: self.registers@,
            mem: self.memory@,
            cycles_to_sleep: self.cycles_to_sleep,
            has_queued_changes: self.has_queued_changes,
            reg_changes: self.register_changes@,
            mem_changes: self.memory_changes@,
        }
    }
}

impl GarntboyState {
    /// Well-formedness: the memory space covers the whole 16-bit address
    /// bus, so reads and writes at any address cannot fail.
    pub open spec fn wf(&self) -> bool {
        self@.mem.len() == MEM_SIZE
    }

    /// A fresh instance: zeroed registers, zero-filled memory, no
    /// instruction in flight and nothing staged.
    pub fn new() -> (r: GarntboyState)
        ensures
            r.wf(),
            r@.regs == RegModel::zeroed(),
            r@.mem == Seq::new(MEM_SIZE as nat, |i: int| 0u8),
            r@.cycles_to_sleep == 0,
            !r@.has_queued_changes,
            r@.reg_changes == RegModel::zeroed(),
            r@.mem_changes == Seq::<(u16, u8)>::empty(),
    {
        let mut memory: Vec<u8> = Vec::new();
        while memory.len() < MEM_SIZE
            invariant
                memory@.len() <= MEM_SIZE,
                forall|i: int| 0 <= i < memory@.len() ==> memory@[i] == 0u8,
            decreases MEM_SIZE - memory.len(),
        {
            memory.push(0u8);
        }
        proof {
            assert(memory@ =~= Seq::new(MEM_SIZE as nat, |i: int| 0u8));
        }
        GarntboyState {
            registers: RegisterState::new(),
            memory,
            cycles_to_sleep: 0,
            has_queued_changes: false,
            register_changes: RegisterState::new(),
            memory_changes: Vec::new(),
        }
    }

    /// Reads the committed memory cell at `addr`; total over the full
    /// 16-bit address domain.
    pub fn read_mem(&self, addr: u16) -> (r: u8)
        requires
            self.wf(),
        ensures
            r == self@.mem[addr as int],
    {
        self.memory[addr as usize]
    }

    /// Writes one byte into committed memory at `addr`; total over the
    /// full 16-bit address domain, every other cell untouched.
    pub fn write_mem(&mut self, addr: u16, val: u8)
        requires
            old(self).wf(),
        ensures
            final(self).wf(),
            final(self)@ == (StateModel { mem: old(self)@.mem.update(addr as int, val), ..old(self)@ }),
    {
        self.memory[addr as usize] = val;
    }

    /// Overwrites `bytes.len()` contiguous committed-memory cells
    /// starting at `addr`; the caller has checked that the block fits.
    pub(crate) fn write_mem_block(&mut self, addr: u16, bytes: &Vec<u8>)
        requires
            old(self).wf(),
            addr + bytes@.len() <= MEM_SIZE,
        ensures
            final(self).wf(),
            final(self)@ == (StateModel {
                mem: write_block(old(self)@.mem, addr as int, bytes@),
                ..old(self)@
            }),
    {
        let mut j: usize = 0;
        proof {
            assert(write_block(old(self)@.mem, addr as int, bytes@.take(0)) =~= old(self)@.mem);
        }
        while j < bytes.len()
            invariant
                self.wf(),
                j <= bytes@.len(),
                addr + bytes@.len() <= MEM_SIZE,
                self@ == (StateModel {
                    mem: write_block(old(self)@.mem, addr as int, bytes@.take(j as int)),
                    ..old(self)@
                }),
            decreases bytes@.len() - j,
        {
            self.memory[addr as usize + j] = bytes[j];
            proof {
                assert(self@.mem =~= write_block(old(self)@.mem, addr as int, bytes@.take(j + 1)));
            }
            j = j + 1;
        }
        proof {
            assert(bytes@.take(bytes@.len() as int) =~= bytes@);
        }
    }

    /// Copies a binary image into memory starting at address 0 and sets
    /// the program counter to the conventional entry point; an image
    /// longer than the memory space is rejected untouched.
    pub fn load_image(&mut self, image: &Vec<u8>) -> (r: Result<(), CoreError>)
        requires
            old(self).wf(),
        ensures
            final(self).wf(),
            image@.len() <= MEM_SIZE ==> {
                &&& r is Ok
                &&& final(self)@ == (StateModel {
                    regs: (RegModel { pc: ENTRY_POINT, ..old(self)@.regs }),
                    mem: write_block(old(self)@.mem, 0, image@),
                    ..old(self)@
                })
            },
            image@.len() > MEM_SIZE ==> r == Err::<(), CoreError>(CoreError::ImageTooLarge)
                && final(self)@ == old(self)@,
    {
        if image.len() > MEM_SIZE {
            return Err(CoreError::ImageTooLarge);
        }
        self.write_mem_block(0, image);
        self.registers.set_pc(ENTRY_POINT);
        Ok(())
    }
}

} // verus!

//! The cheat-patch entry points: applying a patch overwrites contiguous
//! committed-memory cells after caching the original bytes, and a revert
//! writes every cached block back, newest first, leaving memory exactly
//! as it was before the patches. Both act on committed memory only,
//! bypassing the staged-mutation path.

use vstd::prelude::*;

use crate::CoreError;
use crate::garntboy_state::GarntboyState;
use crate::garntboy_state::MEM_SIZE;
use crate::garntboy_state::StateModel;
use crate::garntboy_state::write_block;

verus! {

/// `mem` after every cached block in `entries` is written back, newest
/// (last-applied) first.
pub open spec fn revert_all(mem: Seq<u8>, entries: Seq<(u16, Seq<u8>)>) -> Seq<u8>
    decreases entries.len(),
{
    if entries.len() == 0 {
        mem
    } else {
        revert_all(
            write_block(mem, entries.last().0 as int, entries.last().1),
            entries.drop_last(),
        )
    }
}

/// The cache of original memory contents overwritten by cheat patches,
/// in order of application.
pub struct CheatCache {
    entries: Vec<(u16, Vec<u8>)>,
}

impl View for CheatCache {
    type V = Seq<(u16, Seq<u8>)>;

    closed spec fn view(&self) -> Seq<(u16, Seq<u8>)> {
        self.entries@.map(|i: int, e: (u16, Vec<u8>)| (e.0, e.1@))
    }
}

impl CheatCache {
    /// Well-formedness: every cached block lies inside the memory space.
    pub open spec fn wf(&self) -> bool {
        forall|i: int|
            0 <= i < self@.len() ==> #[trigger] self@[i].0 + self@[i].1.len() <= MEM_SIZE
    }

    /// An empty cache: no cheat patch is in effect.
    pub fn new() -> (r: CheatCache)
        ensures
            r.wf(),
            r@ == Seq::<(u16, Seq<u8>)>::empty(),
    {
        let r = CheatCache { entries: Vec::new() };
        proof {
            assert(r@ =~= Seq::<(u16, Seq<u8>)>::empty());
        }
        r
    }

    /// Applies a cheat patch: caches the original bytes of the target
    /// range, then overwrites them in committed memory. A patch that
    /// would run past the end of the memory space is rejected with both
    /// the cache and the state untouched.
    pub fn apply(&mut self, state: &mut GarntboyState, addr: u16, bytes: &Vec<u8>) -> (r: Result<
        (),
        CoreError,
    >)
        requires
            old(self).wf(),
            old(state).wf(),
        ensures
            final(self).wf(),
            final(state).wf(),
            addr + bytes@.len() <= MEM_SIZE ==> {
                &&& r is Ok
                &&& final(state)@ == (StateModel {
                    mem: write_block(old(state)@.mem, addr as int, bytes@),
                    ..old(state)@
                })
                &&& final(self)@ == old(self)@.push(
                    (addr, old(state)@.mem.subrange(addr as int, addr + bytes@.len())),
                )
            },
            addr + bytes@.len() > MEM_SIZE ==> r == Err::<(), CoreError>(CoreError::CheatOutOfRange)
                && final(self)@ == old(self)@ && final(state)@ == old(state)@,
    {
        if bytes.len() > MEM_SIZE - addr as usize {
            return Err(CoreError::CheatOutOfRange);
        }
        let mut original: Vec<u8> = Vec::new();
        let mut j: usize = 0;
        while j < bytes.len()
            invariant
                j <= bytes@.len(),
                addr + bytes@.len() <= MEM_SIZE,
                state.wf(),
                state == old(state),
                original@ == old(state)@.mem.subrange(addr as int, addr + j),
            decreases bytes@.len() - j,
        {
            original.push(state.read_mem((addr as usize + j) as u16));
            proof {
                assert(original@ =~= old(state)@.mem.subrange(addr as int, addr + j + 1));
            }
            j = j + 1;
        }
        self.entries.push((addr, original));
        state.write_mem_block(addr, bytes);
        proof {
            assert(self@ =~= old(self)@.push(
                (addr, old(state)@.mem.subrange(addr as int, addr + bytes@.len())),
            ));
        }
        Ok(())
    }

    /// Reverts every applied cheat patch: writes each cached block back,
    /// newest first, and clears the cache. Memory holds its pre-patch
    /// contents again wherever the patches were the only writers.
    pub fn revert(&mut self, state: &mut GarntboyState)
        requires
            old(self).wf(),
            old(state).wf(),
        ensures
            final(self).wf(),
            final(state).wf(),
            final(self)@ == Seq::<(u16, Seq<u8>)>::empty(),
            final(state)@ == (StateModel {
                mem: revert_all(old(state)@.mem, old(self)@),
                ..old(state)@
            }),
    {
        while self.entries.len() > 0
            invariant
                self.wf(),
                state.wf(),
                state@.regs == old(state)@.regs,
                state@.cycles_to_sleep == old(state)@.cycles_to_sleep,
                state@.has_queued_changes == old(state)@.has_queued_changes,
                state@.reg_changes == old(state)@.reg_changes,
                state@.mem_changes == old(state)@.mem_changes,
                revert_all(state@.mem, self@) == revert_all(old(state)@.mem, old(self)@),
            decreases self.entries.len(),
        {
            let ghost pre_entries = self@;
            let ghost pre_mem = state@.mem;
            let entry = self.entries.pop().unwrap();
            proof {
                assert(pre_entries.last() == (entry.0, entry.1@));
                assert(self@ =~= pre_entries.drop_last());
            }
            state.write_mem_block(entry.0, &entry.1);
            proof {
                assert(revert_all(pre_mem, pre_entries) == revert_all(state@.mem, self@));
            }
        }
        proof {
            assert(self@ =~= Seq::<(u16, Seq<u8>)>::empty());
        }
    }
}

/// Cheat apply/revert round-trip: overwriting a block whose original
/// bytes were cached on top of the cache, then reverting, yields the
/// same memory as reverting the prior cache alone — so with no earlier
/// patches outstanding, apply followed by revert restores memory
/// bit-for-bit.
pub proof fn lemma_cheat_round_trip(
    mem: Seq<u8>,
    entries: Seq<(u16, Seq<u8>)>,
    addr: u16,
    bytes: Seq<u8>,
)
    requires
        addr + bytes.len() <= MEM_SIZE,
        mem.len() == MEM_SIZE,
    ensures
        revert_all(
            write_block(mem, addr as int, bytes),
            entries.push((addr, mem.subrange(addr as int, addr + bytes.len()))),
        ) == revert_all(mem, entries),
{
    let original = mem.subrange(addr as int, addr + bytes.len());
    let patched = write_block(mem, addr as int, bytes);
    let pushed = entries.push((addr, original));
    assert(pushed.last() == (addr, original));
    assert(pushed.drop_last() =~= entries);
    assert(write_block(patched, addr as int, original) =~= mem);
}

} // verus!

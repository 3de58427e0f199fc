//! One clock tick of the execution loop: either count down the cycle
//! cost of the instruction in flight, or commit the staged mutations,
//! fetch the opcode at the committed program counter, and issue the next
//! instruction, staging its results. Real hardware retires an
//! instruction's effects only after its full cycle count, so the commit
//! is deferred to the cycle boundary that starts the next fetch.
//!
//! Wall-clock pacing — sleeping out the remainder of each tick period —
//! is the host's concern; it drives this tick once per emulated clock
//! cycle.

use vstd::prelude::*;

use crate::garntboy_state::GarntboyState;
use crate::garntboy_state::StateModel;
use crate::instruction::spec_cycles;
use crate::instruction::spec_execute;
use crate::instruction::spec_lookup;
use crate::instruction::execute;
use crate::instruction::lookup;

verus! {

/// What one clock tick did.
#[derive(Clone, Copy, Debug, PartialEq, Eq, Structural)]
pub enum TickOutcome {
    /// The instruction in flight still owes cycles; one was paid.
    Slept,
    /// Staged changes (if any) were committed and the next instruction
    /// was issued; its results are now staged.
    Issued,
    /// Staged changes (if any) were committed, but the fetched opcode
    /// byte has no table entry; the loop must halt and report it.
    Halted(u8),
}

/// `mem` after the pending writes in `ws` are applied in order.
pub open spec fn apply_writes(mem: Seq<u8>, ws: Seq<(u16, u8)>) -> Seq<u8>
    decreases ws.len(),
{
    if ws.len() == 0 {
        mem
    } else {
        apply_writes(mem.update(ws[0].0 as int, ws[0].1), ws.drop_first())
    }
}

/// Appending one more pending write applies it last.
proof fn lemma_apply_writes_push(mem: Seq<u8>, ws: Seq<(u16, u8)>, w: (u16, u8))
    ensures
        apply_writes(mem, ws.push(w)) == apply_writes(mem, ws).update(w.0 as int, w.1),
    decreases ws.len(),
{
    if ws.len() == 0 {
        assert(ws.push(w).drop_first() =~= Seq::<(u16, u8)>::empty());
        assert(apply_writes(mem.update(w.0 as int, w.1), Seq::<(u16, u8)>::empty())
            == mem.update(w.0 as int, w.1));
    } else {
        assert(ws.push(w).drop_first() =~= ws.drop_first().push(w));
        lemma_apply_writes_push(mem.update(ws[0].0 as int, ws[0].1), ws.drop_first(), w);
    }
}

/// The state after the commit phase of a cycle boundary: the pending
/// register snapshot becomes the committed register file, every pending
/// memory write lands in committed memory, and the staged set is
/// cleared. A state with nothing staged is left as it is.
pub open spec fn spec_commit(s: StateModel) -> StateModel {
    if s.has_queued_changes {
        StateModel {
            regs: s.reg_changes,
            mem: apply_writes(s.mem, s.mem_changes),
            has_queued_changes: false,
            mem_changes: Seq::empty(),
            ..s
        }
    } else {
        s
    }
}

/// One clock tick of the execution loop, as a transition on the model:
/// a state still owing cycles only pays one; otherwise staged changes
/// are committed, the opcode at the committed program counter is fetched
/// and looked up, and on success the instruction's computed results are
/// staged with its remaining cycle cost.
pub open spec fn spec_tick(s: StateModel) -> (StateModel, TickOutcome) {
    if s.cycles_to_sleep > 0 {
        (StateModel { cycles_to_sleep: (s.cycles_to_sleep - 1) as u8, ..s }, TickOutcome::Slept)
    } else {
        let c = spec_commit(s);
        let opcode = c.mem[c.regs.pc as int];
        match spec_lookup(opcode) {
            None => (c, TickOutcome::Halted(opcode)),
            Some(k) => {
                let next = spec_execute(k, c.regs, c.mem);
                (
                    StateModel {
                        reg_changes: next.0,
                        mem_changes: next.1,
                        has_queued_changes: true,
                        cycles_to_sleep: (spec_cycles(k) - 1) as u8,
                        ..c
                    },
                    TickOutcome::Issued,
                )
            },
        }
    }
}

/// The model after `n` clock ticks.
pub open spec fn spec_ticks(s: StateModel, n: nat) -> StateModel
    decreases n,
{
    if n == 0 {
        s
    } else {
        spec_tick(spec_ticks(s, (n - 1) as nat)).0
    }
}

/// While a state still owes cycles, ticks only pay them down: after `k`
/// ticks, `k` at most the cycles owed, nothing has changed but the
/// counter.
proof fn lemma_sleep_ticks(s: StateModel, k: nat)
    requires
        k <= s.cycles_to_sleep,
    ensures
        spec_ticks(s, k) == (StateModel {
            cycles_to_sleep: (s.cycles_to_sleep - k) as u8,
            ..s
        }),
    decreases k,
{
    if k > 0 {
        lemma_sleep_ticks(s, (k - 1) as nat);
    }
}

/// Staged-commit ordering: after an instruction with cycle cost `C` is
/// issued, the state owes `C - 1` further cycles and holds the
/// instruction's computed results staged. For the next `C - 1` ticks the
/// committed register file and memory still equal their pre-instruction
/// values; the tick after that — the `C`-th counting the issue itself —
/// commits them, so the committed state then equals the instruction's
/// computed result.
pub proof fn lemma_staged_commit_ordering(s: StateModel, k: nat)
    requires
        s.has_queued_changes,
        k <= s.cycles_to_sleep,
    ensures
        spec_ticks(s, k).regs == s.regs,
        spec_ticks(s, k).mem == s.mem,
        spec_ticks(s, (s.cycles_to_sleep + 1) as nat).regs == s.reg_changes,
        spec_ticks(s, (s.cycles_to_sleep + 1) as nat).mem == apply_writes(s.mem, s.mem_changes),
{
    lemma_sleep_ticks(s, k);
    let c = s.cycles_to_sleep as nat;
    lemma_sleep_ticks(s, c);
    let rested = spec_ticks(s, c);
    assert(rested.cycles_to_sleep == 0);
    assert(spec_ticks(s, c + 1) == spec_tick(rested).0);
    let committed = spec_commit(rested);
    assert(committed.regs == s.reg_changes);
    assert(committed.mem == apply_writes(s.mem, s.mem_changes));
}

/// One clock tick of the execution loop. Either pays one cycle of the
/// instruction in flight, or commits the staged mutations, fetches the
/// opcode at the committed program counter and issues it; an opcode
/// with no table entry halts the loop with a reported outcome, after
/// the commit but with nothing new staged.
pub fn tick(state: &mut GarntboyState) -> (r: TickOutcome)
    requires
        old(state).wf(),
    ensures
        final(state).wf(),
        (final(state)@, r) == spec_tick(old(state)@),
{
    if state.cycles_to_sleep > 0 {
        state.cycles_to_sleep = state.cycles_to_sleep - 1;
        return TickOutcome::Slept;
    }
    if state.has_queued_changes {
        state.registers = state.register_changes;
        let ghost pre = state@;
        let ghost pre_mem = state.memory@;
        let ghost ws = state.memory_changes@;
        let n = state.memory_changes.len();
        let mut i: usize = 0;
        while i < n
            invariant
                i <= n,
                n == ws.len(),
                state.memory_changes@ == ws,
                state.registers@ == pre.regs,
                state.register_changes@ == pre.reg_changes,
                state.cycles_to_sleep == pre.cycles_to_sleep,
                state.has_queued_changes == pre.has_queued_changes,
                state.memory@.len() == crate::garntboy_state::MEM_SIZE,
                state.memory@ == apply_writes(pre_mem, ws.take(i as int)),
            decreases n - i,
        {
            let (addr, val) = state.memory_changes[i];
            proof {
                lemma_apply_writes_push(pre_mem, ws.take(i as int), ws[i as int]);
                assert(ws.take(i + 1) =~= ws.take(i as int).push(ws[i as int]));
            }
            state.memory[addr as usize] = val;
            i = i + 1;
        }
        proof {
            assert(ws.take(n as int) =~= ws);
        }
        state.memory_changes = Vec::new();
        state.has_queued_changes = false;
    }
    let pc = state.registers.pc();
    let opcode = state.memory[pc as usize];
    match lookup(opcode) {
        Err(_) => TickOutcome::Halted(opcode),
        Ok(instr) => {
            let next = execute(&instr, state.registers, &state.memory);
            state.register_changes = next.0;
            state.memory_changes = next.1;
            state.has_queued_changes = true;
            state.cycles_to_sleep = instr.cycles - 1;
            TickOutcome::Issued
        },
    }
}

} // verus!

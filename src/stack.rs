use vstd::prelude::*;

use crate::bus::{lemma_ram_read, lemma_ram_write, spec_bus_read, spec_bus_write, BusState};
use crate::cpu::{pop, push, CpuState, Register};

verus! {

/// The machine after pushing `vals` in order.
pub open spec fn push_all(s: CpuState, vals: Seq<u8>) -> CpuState
    decreases vals.len(),
{
    if vals.len() == 0 {
        s
    } else {
        push(push_all(s, vals.drop_last()), vals.last())
    }
}

/// The bytes of `n` pops, first popped first, and the machine after them.
pub open spec fn pop_n(s: CpuState, n: nat) -> (Seq<u8>, CpuState)
    decreases n,
{
    if n == 0 {
        (Seq::empty(), s)
    } else {
        let (v, s1) = pop(s);
        let (rest, s2) = pop_n(s1, (n - 1) as nat);
        (seq![v] + rest, s2)
    }
}

/// The RAM index of the slot that push number `i` writes, from stack pointer `sp`.
pub open spec fn slot(sp: u8, i: int) -> int {
    0x100 + (sp - i) % 256
}

proof fn lemma_stack_write(b: BusState, k: int, v: u8)
    requires
        0 <= k < 256,
        b.ram.len() == 0x800,
    ensures
        spec_bus_write(b, (0x100 + k) as u16, v) == (BusState { ram: b.ram.update(0x100 + k, v), ..b }),
{
    lemma_ram_write(b, (0x100 + k) as u16, v);
}

proof fn lemma_stack_read(b: BusState, k: int)
    requires
        0 <= k < 256,
        b.ram.len() == 0x800,
    ensures
        spec_bus_read(b, (0x100 + k) as u16) == (b.ram[0x100 + k], b),
{
    lemma_ram_read(b, (0x100 + k) as u16);
}

proof fn lemma_slots_distinct(sp: int, i: int, n: int)
    requires
        0 <= i < n <= 255,
    ensures
        (sp - i) % 256 != (sp - n) % 256,
{
}

proof fn lemma_sp_down(sp: int, n: int)
    requires
        0 <= n,
    ensures
        (((sp - n) % 256) - 1 + 0x100) % 0x100 == (sp - (n + 1)) % 256,
{
}

proof fn lemma_sp_back(sp: int, n: int, j: int)
    ensures
        ((sp - n) % 256 + 1 + j) % 256 == (sp - (n - 1 - j)) % 256,
        ((sp - n) % 256 + n) % 256 == sp % 256,
{
}

#[verifier::rlimit(50)]
proof fn lemma_push_all(s: CpuState, vals: Seq<u8>)
    requires
        s.bus.ram.len() == 0x800,
        vals.len() <= 256,
    ensures
        ({
            let t = push_all(s, vals);
            &&& t.reg == (Register { sp: ((s.reg.sp - vals.len()) % 256) as u8, ..s.reg })
            &&& t.bus == (BusState { ram: t.bus.ram, ..s.bus })
            &&& t.bus.ram.len() == 0x800
            &&& forall|i: int| 0 <= i < vals.len() ==> t.bus.ram[slot(s.reg.sp, i)] == vals[i]
        }),
    decreases vals.len(),
{
    if vals.len() > 0 {
        let n = vals.len() - 1;
        let init = vals.drop_last();
        lemma_push_all(s, init);
        let t0 = push_all(s, init);
        lemma_stack_write(t0.bus, t0.reg.sp as int, vals.last());
        lemma_sp_down(s.reg.sp as int, n);
        let t = push_all(s, vals);
        assert(t == push(t0, vals.last()));
        assert(t.bus.ram == t0.bus.ram.update(slot(s.reg.sp, n), vals.last()));
        assert forall|i: int| 0 <= i < vals.len() implies t.bus.ram[slot(s.reg.sp, i)] == vals[i] by {
            if i < n {
                lemma_slots_distinct(s.reg.sp as int, i, n);
                assert(init[i] == vals[i]);
            }
        }
    }
}

proof fn lemma_pop_n(t: CpuState, m: nat)
    requires
        t.bus.ram.len() == 0x800,
    ensures
        ({
            let (out, u) = pop_n(t, m);
            &&& out.len() == m
            &&& u.reg == (Register { sp: ((t.reg.sp + m) % 256) as u8, ..t.reg })
            &&& u.bus == t.bus
            &&& forall|j: int| 0 <= j < m ==> out[j] == t.bus.ram[0x100 + (t.reg.sp + 1 + j) % 256]
        }),
    decreases m,
{
    if m > 0 {
        let sp1 = ((t.reg.sp + 1) % 256) as u8;
        lemma_stack_read(t.bus, sp1 as int);
        let (v, t1) = pop(t);
        lemma_pop_n(t1, (m - 1) as nat);
        let (rest, t2) = pop_n(t1, (m - 1) as nat);
        let (out, u) = pop_n(t, m);
        assert forall|j: int| 0 <= j < m implies out[j] == t.bus.ram[0x100 + (t.reg.sp + 1 + j) % 256] by {
            if j > 0 {
                assert(out[j] == rest[j - 1]);
                assert((sp1 + 1 + (j - 1)) % 256 == (t.reg.sp + 1 + j) % 256);
            }
        }
    }
}

/// After pushing up to 256 bytes, the first `k` pops return the last `k` bytes pushed,
/// last first (the `k`-th pop returns the byte pushed `k`-th from the end), and leave the
/// stack pointer `k` slots above where the pushes left it, every other register as before.
pub proof fn stack_pop_prefix(s: CpuState, vals: Seq<u8>, k: nat)
    requires
        s.bus.ram.len() == 0x800,
        vals.len() <= 256,
        k <= vals.len(),
    ensures
        ({
            let (out, u) = pop_n(push_all(s, vals), k);
            &&& out == vals.reverse().subrange(0, k as int)
            &&& k > 0 ==> out[k - 1] == vals[vals.len() - k]
            &&& u.reg == (Register { sp: ((s.reg.sp - vals.len() + k) % 256) as u8, ..s.reg })
        }),
{
    let n = vals.len();
    lemma_push_all(s, vals);
    let t = push_all(s, vals);
    lemma_pop_n(t, k);
    let (out, u) = pop_n(t, k);
    assert forall|j: int| 0 <= j < k implies out[j] == vals.reverse()[j] by {
        lemma_sp_back(s.reg.sp as int, n as int, j);
    }
    assert(out =~= vals.reverse().subrange(0, k as int));
    assert(((s.reg.sp - n) % 256 + k) % 256 == (s.reg.sp - n + k) % 256);
}

/// Pushing up to 256 bytes and popping as many gives them back last-in first-out and
/// restores the stack pointer and every other register. More than 256 pushes wrap the
/// stack onto itself.
pub proof fn stack_lifo(s: CpuState, vals: Seq<u8>)
    requires
        s.bus.ram.len() == 0x800,
        vals.len() <= 256,
    ensures
        ({
            let (out, u) = pop_n(push_all(s, vals), vals.len());
            &&& out == vals.reverse()
            &&& u.reg == s.reg
        }),
{
    let n = vals.len();
    lemma_push_all(s, vals);
    let t = push_all(s, vals);
    lemma_pop_n(t, n);
    let (out, u) = pop_n(t, n);
    assert forall|j: int| 0 <= j < n implies out[j] == vals.reverse()[j] by {
        lemma_sp_back(s.reg.sp as int, n as int, j);
    }
    lemma_sp_back(s.reg.sp as int, n as int, 0);
    assert(out =~= vals.reverse());
}

} // verus!

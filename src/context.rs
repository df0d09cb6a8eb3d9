//! The execution context a precompile runs in: registers, word memory, the clock,
//! the shard id and the per-shard event log, with every memory access recorded.
use vstd::prelude::*;
use std::collections::HashMap;
use crate::fri_fold::FriFoldEvent;

verus! {

broadcast use vstd::std_specs::hash::group_hash_axioms;

/// The number of general-purpose registers.
pub const NUM_REGISTERS: usize = 32;

/// The size of the 32-bit address space, in bytes.
pub open spec fn address_space() -> int {
    0x1_0000_0000
}

/// One memory access: the word's address, its value before and after, and the
/// clock value at which it happened. A read leaves the value as it was.
#[derive(Clone, Copy, Debug, PartialEq, Eq)]
pub struct MemoryRecord {
    pub addr: u32,
    pub prev_value: u32,
    pub value: u32,
    pub timestamp: u32,
}

/// Registers, memory, clock, shard id and event log of one execution shard.
#[derive(Debug)]
pub struct SyscallContext {
    pub clk: u32,
    pub shard: u32,
    pub registers: [u32; 32],
    pub memory: HashMap<u32, u32>,
    pub fri_fold_events: Vec<FriFoldEvent>,
}

/// The word stored at `a`; a word never written reads as zero.
pub open spec fn word_at(mem: Map<u32, u32>, a: int) -> u32 {
    if mem.contains_key(a as u32) {
        mem[a as u32]
    } else {
        0
    }
}

/// `len` consecutive words from `base` lie inside the address space.
pub open spec fn slice_fits(base: u32, len: nat) -> bool {
    base + 4 * len <= address_space()
}

/// The values of `len` consecutive words from `base`.
pub open spec fn slice_values(mem: Map<u32, u32>, base: u32, len: nat) -> Seq<u32> {
    Seq::new(len, |i: int| word_at(mem, base + 4 * i))
}

/// The records of reading `len` consecutive words from `base` at clock `clk`.
pub open spec fn read_records(mem: Map<u32, u32>, base: u32, len: nat, clk: u32) -> Seq<
    MemoryRecord,
> {
    Seq::new(
        len,
        |i: int|
            MemoryRecord {
                addr: (base + 4 * i) as u32,
                prev_value: word_at(mem, base + 4 * i),
                value: word_at(mem, base + 4 * i),
                timestamp: clk,
            },
    )
}

/// Memory after writing `vals` to consecutive words from `base`, in order.
pub open spec fn written(mem: Map<u32, u32>, base: u32, vals: Seq<u32>) -> Map<u32, u32>
    decreases vals.len(),
{
    if vals.len() == 0 {
        mem
    } else {
        written(mem, base, vals.drop_last()).insert(
            (base + 4 * (vals.len() - 1)) as u32,
            vals.last(),
        )
    }
}

/// The records of writing `vals` to consecutive words from `base` at clock `clk`:
/// each holds the value its word had just before that write.
pub open spec fn write_records(mem: Map<u32, u32>, base: u32, vals: Seq<u32>, clk: u32) -> Seq<
    MemoryRecord,
> {
    Seq::new(
        vals.len(),
        |i: int|
            MemoryRecord {
                addr: (base + 4 * i) as u32,
                prev_value: word_at(written(mem, base, vals.take(i)), base + 4 * i),
                value: vals[i],
                timestamp: clk,
            },
    )
}

impl SyscallContext {
    /// A context at clock `clk` in shard `shard`, with the given registers, empty
    /// memory and no events.
    pub fn new(clk: u32, shard: u32, registers: [u32; 32]) -> (r: SyscallContext)
        ensures
            r.clk == clk,
            r.shard == shard,
            r.registers == registers,
            r.memory@ == Map::<u32, u32>::empty(),
            r.fri_fold_events@ == Seq::<FriFoldEvent>::empty(),
    {
        SyscallContext {
            clk,
            shard,
            registers,
            memory: HashMap::new(),
            fri_fold_events: Vec::new(),
        }
    }

    /// Reads a register without the permission checks of an ordinary register read.
    pub fn register_unsafe(&self, index: usize) -> (r: u32)
        requires
            index < NUM_REGISTERS,
        ensures
            r == self.registers@[index as int],
    {
        self.registers[index]
    }

    /// The shard this context executes.
    pub fn current_shard(&self) -> (r: u32)
        ensures
            r == self.shard,
    {
        self.shard
    }

    /// The word at `addr`, without recording the access.
    pub fn word(&self, addr: u32) -> (r: u32)
        ensures
            r == word_at(self.memory@, addr as int),
    {
        match self.memory.get(&addr) {
            Some(v) => *v,
            None => 0,
        }
    }

    /// Stores a word at `addr`, without recording the access.
    pub fn set_word(&mut self, addr: u32, value: u32)
        ensures
            final(self).memory@ == old(self).memory@.insert(addr, value),
            final(self).clk == old(self).clk,
            final(self).shard == old(self).shard,
            final(self).registers == old(self).registers,
            final(self).fri_fold_events@ == old(self).fri_fold_events@,
    {
        self.memory.insert(addr, value);
    }

    /// Reads `len` consecutive words from `base`, recording each read at the
    /// current clock.
    pub fn mr_slice(&self, base: u32, len: u32) -> (r: (Vec<MemoryRecord>, Vec<u32>))
        requires
            slice_fits(base, len as nat),
        ensures
            r.0@ == read_records(self.memory@, base, len as nat, self.clk),
            r.1@ == slice_values(self.memory@, base, len as nat),
    {
        let mut records: Vec<MemoryRecord> = Vec::new();
        let mut values: Vec<u32> = Vec::new();
        let mut i: u32 = 0;
        while i < len
            invariant
                i <= len,
                slice_fits(base, len as nat),
                records@ == read_records(self.memory@, base, i as nat, self.clk),
                values@ == slice_values(self.memory@, base, i as nat),
            decreases len - i,
        {
            let addr = base + 4 * i;
            let v = self.word(addr);
            records.push(MemoryRecord { addr, prev_value: v, value: v, timestamp: self.clk });
            values.push(v);
            i = i + 1;
            assert(records@ =~= read_records(self.memory@, base, i as nat, self.clk));
            assert(values@ =~= slice_values(self.memory@, base, i as nat));
        }
        (records, values)
    }

    /// Writes `vals` to consecutive words from `base`, recording each write at the
    /// current clock.
    pub fn mw_slice(&mut self, base: u32, vals: &[u32]) -> (r: Vec<MemoryRecord>)
        requires
            slice_fits(base, vals@.len()),
        ensures
            r@ == write_records(old(self).memory@, base, vals@, old(self).clk),
            final(self).memory@ == written(old(self).memory@, base, vals@),
            final(self).clk == old(self).clk,
            final(self).shard == old(self).shard,
            final(self).registers == old(self).registers,
            final(self).fri_fold_events@ == old(self).fri_fold_events@,
    {
        let ghost mem0 = self.memory@;
        let mut records: Vec<MemoryRecord> = Vec::new();
        let mut i: usize = 0;
        while i < vals.len()
            invariant
                i <= vals@.len(),
                slice_fits(base, vals@.len()),
                self.memory@ == written(mem0, base, vals@.take(i as int)),
                forall|j: int|
                    0 <= j < i ==> #[trigger] records@[j] == write_records(
                        mem0,
                        base,
                        vals@,
                        old(self).clk,
                    )[j],
                records@.len() == i,
                self.clk == old(self).clk,
                self.shard == old(self).shard,
                self.registers == old(self).registers,
                self.fri_fold_events@ == old(self).fri_fold_events@,
            decreases vals@.len() - i,
        {
            let addr = base + 4 * (i as u32);
            let prev = self.word(addr);
            let v = vals[i];
            records.push(MemoryRecord { addr, prev_value: prev, value: v, timestamp: self.clk });
            self.set_word(addr, v);
            proof {
                assert(vals@.take(i as int + 1).drop_last() =~= vals@.take(i as int));
            }
            i = i + 1;
        }
        proof {
            assert(vals@.take(i as int) =~= vals@);
            assert(records@ =~= write_records(mem0, base, vals@, old(self).clk));
        }
        records
    }
}

} // verus!

//! The FRI-fold precompile: one step of the FRI folding recurrence, read from and
//! written back to memory, with every access recorded in one event.
use vstd::prelude::*;
use crate::context::{
    read_records, slice_fits, slice_values, write_records, written, MemoryRecord,
    SyscallContext,
};
use crate::field::{
    canonical, ext, ext_add, ext_add_words, ext_canonical, ext_div_words, ext_is_zero,
    ext_mul, ext_mul_words, ext_sub, ext_sub_words, ext_zero, promote, promote_word, P,
};

verus! {

/// The register holding the input slice pointer (`a0`).
pub const INPUT_PTR_REGISTER: usize = 10;

/// The register holding the output slice pointer (`a1`).
pub const OUTPUT_PTR_REGISTER: usize = 11;

/// Words in the input slice: `[x, alpha(4), z(4), p_at_z(4), p_at_x]`.
pub const INPUT_SLICE_WORDS: u32 = 14;

/// Words in the output slice: `[ro_addr, alpha_pow_addr]`.
pub const OUTPUT_SLICE_WORDS: u32 = 2;

/// Cycles a fold costs beyond the base instruction.
pub const FRI_FOLD_EXTRA_CYCLES: u32 = 8;

/// Fatal conditions of the precompile: the guest program is malformed and the
/// execution cannot go on.
#[derive(Clone, Copy, Debug, PartialEq, Eq)]
pub enum FriFoldError {
    /// The input or output slice pointer is not a multiple of 4.
    MisalignedPointer,
    /// A slice runs past the end of the 32-bit address space.
    AddressOverflow,
    /// A word that should hold a field element is not below the field's prime.
    NonCanonicalWord,
    /// `x - z` is zero, so the fold's quotient does not exist.
    ZeroDenominator,
}

/// What one fold computes, as extension elements.
#[derive(Clone, Copy, Debug, PartialEq, Eq)]
pub struct FoldOutput {
    pub num: [u32; 4],
    pub denom: [u32; 4],
    pub quotient: [u32; 4],
    pub ro_output: [u32; 4],
    pub alpha_pow_output: [u32; 4],
}

/// The fold recurrence, with `num = p_at_x - p_at_z`, `denom = x - z` and
/// `quotient = num / denom`:
/// `ro_out = ro_in + alpha_pow_in * quotient` and `alpha_pow_out = alpha_pow_in * alpha`.
pub open spec fn fold_holds(
    x: int,
    alpha: Seq<int>,
    z: Seq<int>,
    p_at_z: Seq<int>,
    p_at_x: int,
    ro_in: Seq<int>,
    alpha_pow_in: Seq<int>,
    num: Seq<int>,
    denom: Seq<int>,
    quotient: Seq<int>,
    ro_out: Seq<int>,
    alpha_pow_out: Seq<int>,
) -> bool {
    &&& num == ext_sub(promote(p_at_x), p_at_z)
    &&& denom == ext_sub(promote(x), z)
    &&& ext_mul(quotient, denom) == num
    &&& ro_out == ext_add(ro_in, ext_mul(alpha_pow_in, quotient))
    &&& alpha_pow_out == ext_mul(alpha_pow_in, alpha)
}

/// One FRI fold step on field elements. It fails exactly when `x - z` is zero.
pub fn fold(
    x: u32,
    alpha: [u32; 4],
    z: [u32; 4],
    p_at_z: [u32; 4],
    p_at_x: u32,
    ro_input: [u32; 4],
    alpha_pow_input: [u32; 4],
) -> (r: Result<FoldOutput, FriFoldError>)
    requires
        canonical(x),
        canonical(p_at_x),
        ext_canonical(alpha),
        ext_canonical(z),
        ext_canonical(p_at_z),
        ext_canonical(ro_input),
        ext_canonical(alpha_pow_input),
    ensures
        r is Err <==> ext_sub(promote(x as int), ext(z)) == ext_zero(),
        r is Err ==> r == Err::<FoldOutput, FriFoldError>(FriFoldError::ZeroDenominator),
        r matches Ok(o) ==> {
            &&& ext_canonical(o.num)
            &&& ext_canonical(o.denom)
            &&& ext_canonical(o.quotient)
            &&& ext_canonical(o.ro_output)
            &&& ext_canonical(o.alpha_pow_output)
            &&& fold_holds(
                x as int,
                ext(alpha),
                ext(z),
                ext(p_at_z),
                p_at_x as int,
                ext(ro_input),
                ext(alpha_pow_input),
                ext(o.num),
                ext(o.denom),
                ext(o.quotient),
                ext(o.ro_output),
                ext(o.alpha_pow_output),
            )
        },
{
    let num = ext_sub_words(promote_word(p_at_x), p_at_z);
    let denom = ext_sub_words(promote_word(x), z);
    if ext_is_zero(denom) {
        return Err(FriFoldError::ZeroDenominator);
    }
    let quotient = ext_div_words(num, denom);
    let ro_output = ext_add_words(ro_input, ext_mul_words(alpha_pow_input, quotient));
    let alpha_pow_output = ext_mul_words(alpha_pow_input, alpha);
    Ok(FoldOutput { num, denom, quotient, ro_output, alpha_pow_output })
}

/// The trace of one fold: the clock at its start, the shard, `num` and `denom`, the
/// two pointers, and a record of every memory access it made.
#[derive(Debug)]
pub struct FriFoldEvent {
    pub clk: u32,
    pub shard: u32,
    pub num: [u32; 4],
    pub denom: [u32; 4],
    pub input_slice_ptr: u32,
    pub input_slice_read_records: Vec<MemoryRecord>,
    pub output_slice_ptr: u32,
    pub output_slice_read_records: Vec<MemoryRecord>,
    pub ro_read_records: Vec<MemoryRecord>,
    pub ro_write_records: Vec<MemoryRecord>,
    pub alpha_pow_read_records: Vec<MemoryRecord>,
    pub alpha_pow_write_records: Vec<MemoryRecord>,
}


/// Four consecutive words from position `k`, as an extension element.
pub open spec fn quad(s: Seq<u32>, k: int) -> Seq<int> {
    seq![s[k] as int, s[k + 1] as int, s[k + 2] as int, s[k + 3] as int]
}

/// The values a sequence of records leaves in memory.
pub open spec fn record_values(recs: Seq<MemoryRecord>) -> Seq<u32> {
    recs.map_values(|r: MemoryRecord| r.value)
}

/// Every word of `s` is a canonical field element.
pub open spec fn all_canonical(s: Seq<u32>) -> bool {
    forall|i: int| 0 <= i < s.len() ==> canonical(#[trigger] s[i])
}

/// The input slice pointer, from register `a0`.
pub open spec fn input_ptr(rt: SyscallContext) -> u32 {
    rt.registers@[INPUT_PTR_REGISTER as int]
}

/// The output slice pointer, from register `a1`.
pub open spec fn output_ptr(rt: SyscallContext) -> u32 {
    rt.registers@[OUTPUT_PTR_REGISTER as int]
}

/// The words of the input slice.
pub open spec fn input_words(rt: SyscallContext) -> Seq<u32> {
    slice_values(rt.memory@, input_ptr(rt), INPUT_SLICE_WORDS as nat)
}

/// The address of `ro`, the first word of the output slice.
pub open spec fn ro_addr(rt: SyscallContext) -> u32 {
    slice_values(rt.memory@, output_ptr(rt), OUTPUT_SLICE_WORDS as nat)[0]
}

/// The address of `alpha_pow`, the second word of the output slice.
pub open spec fn alpha_pow_addr(rt: SyscallContext) -> u32 {
    slice_values(rt.memory@, output_ptr(rt), OUTPUT_SLICE_WORDS as nat)[1]
}

/// The fatal condition a fold meets on context `rt`, checked in this order, if any.
pub open spec fn fold_error(rt: SyscallContext) -> Option<FriFoldError> {
    let iw = input_words(rt);
    if input_ptr(rt) % 4 != 0 || output_ptr(rt) % 4 != 0 {
        Some(FriFoldError::MisalignedPointer)
    } else if !slice_fits(input_ptr(rt), INPUT_SLICE_WORDS as nat) || !slice_fits(
        output_ptr(rt),
        OUTPUT_SLICE_WORDS as nat,
    ) || !slice_fits(ro_addr(rt), 4) || !slice_fits(alpha_pow_addr(rt), 4) {
        Some(FriFoldError::AddressOverflow)
    } else if !all_canonical(iw) || !all_canonical(slice_values(rt.memory@, ro_addr(rt), 4))
        || !all_canonical(slice_values(rt.memory@, alpha_pow_addr(rt), 4)) {
        Some(FriFoldError::NonCanonicalWord)
    } else if ext_sub(promote(iw[0] as int), quad(iw, 5)) == ext_zero() {
        Some(FriFoldError::ZeroDenominator)
    } else {
        None
    }
}

/// A successful fold takes context `pre` to context `post`: it reads the input
/// slice, the output slice and the four words at `ro_addr` and at
/// `alpha_pow_addr` at the starting clock, writes the new `ro` and then the new
/// `alpha_pow` four clock steps later, advances the clock by eight and appends
/// one event holding every record.
pub open spec fn fold_step(pre: SyscallContext, post: SyscallContext) -> bool {
    let mem = pre.memory@;
    let iw = input_words(pre);
    let ro = ro_addr(pre);
    let ap = alpha_pow_addr(pre);
    let ev = post.fri_fold_events@.last();
    let ro_out = record_values(ev.ro_write_records@);
    let ap_out = record_values(ev.alpha_pow_write_records@);
    let mem_ro = written(mem, ro, ro_out);
    &&& post.fri_fold_events@.len() == pre.fri_fold_events@.len() + 1
    &&& post.fri_fold_events@.drop_last() == pre.fri_fold_events@
    &&& post.clk == pre.clk + 8
    &&& post.shard == pre.shard
    &&& post.registers == pre.registers
    &&& post.memory@ == written(mem_ro, ap, ap_out)
    &&& ev.clk == pre.clk
    &&& ev.shard == pre.shard
    &&& ev.input_slice_ptr == input_ptr(pre)
    &&& ev.output_slice_ptr == output_ptr(pre)
    &&& ev.input_slice_read_records@ == read_records(mem, input_ptr(pre), 14, pre.clk)
    &&& ev.output_slice_read_records@ == read_records(mem, output_ptr(pre), 2, pre.clk)
    &&& ev.ro_read_records@ == read_records(mem, ro, 4, pre.clk)
    &&& ev.alpha_pow_read_records@ == read_records(mem, ap, 4, pre.clk)
    &&& ro_out.len() == 4
    &&& ap_out.len() == 4
    &&& ev.ro_write_records@ == write_records(mem, ro, ro_out, (pre.clk + 4) as u32)
    &&& ev.alpha_pow_write_records@ == write_records(mem_ro, ap, ap_out, (pre.clk + 4) as u32)
    &&& exists|q: Seq<int>|
        fold_holds(
            iw[0] as int,
            quad(iw, 1),
            quad(iw, 5),
            quad(iw, 9),
            iw[13] as int,
            quad(slice_values(mem, ro, 4), 0),
            quad(slice_values(mem, ap, 4), 0),
            ext(ev.num),
            ext(ev.denom),
            q,
            quad(ro_out, 0),
            quad(ap_out, 0),
        )
}

/// Whether every word of `v` is a canonical field element.
fn words_canonical(v: &Vec<u32>) -> (r: bool)
    ensures
        r == all_canonical(v@),
{
    let mut i: usize = 0;
    while i < v.len()
        invariant
            i <= v@.len(),
            forall|j: int| 0 <= j < i ==> canonical(#[trigger] v@[j]),
        decreases v@.len() - i,
    {
        if v[i] >= P {
            return false;
        }
        i = i + 1;
    }
    true
}

/// The precompile that performs one FRI fold step.
#[derive(Clone, Copy, Debug)]
pub struct FriFoldChip;

impl FriFoldChip {
    /// Cycles a fold costs beyond the base instruction.
    pub fn num_extra_cycles(&self) -> (r: u32)
        ensures
            r == FRI_FOLD_EXTRA_CYCLES,
    {
        FRI_FOLD_EXTRA_CYCLES
    }

    /// Runs one fold on `rt`. The pointers come from registers `a0` (input slice)
    /// and `a1` (output slice). On success the result is the input slice pointer;
    /// on a fatal condition nothing in `rt` changes.
    pub fn execute(&self, rt: &mut SyscallContext) -> (r: Result<u32, FriFoldError>)
        requires
            old(rt).clk <= u32::MAX - 8,
        ensures
            match r {
                Ok(v) => {
                    &&& fold_error(*old(rt)) is None
                    &&& v == input_ptr(*old(rt))
                    &&& fold_step(*old(rt), *final(rt))
                },
                Err(e) => fold_error(*old(rt)) == Some(e) && *final(rt) == *old(rt),
            },
    {
        let ghost pre = *rt;
        let input_slice_ptr = rt.register_unsafe(INPUT_PTR_REGISTER);
        let output_slice_ptr = rt.register_unsafe(OUTPUT_PTR_REGISTER);
        if input_slice_ptr % 4 != 0 || output_slice_ptr % 4 != 0 {
            return Err(FriFoldError::MisalignedPointer);
        }
        if input_slice_ptr > u32::MAX - 55 || output_slice_ptr > u32::MAX - 7 {
            return Err(FriFoldError::AddressOverflow);
        }
        let saved_clk = rt.clk;
        let (input_slice_read_records, input_values) = rt.mr_slice(
            input_slice_ptr,
            INPUT_SLICE_WORDS,
        );
        let (output_slice_read_records, output_addresses) = rt.mr_slice(
            output_slice_ptr,
            OUTPUT_SLICE_WORDS,
        );
        let ro_addr = output_addresses[0];
        let alpha_pow_addr = output_addresses[1];
        if ro_addr > u32::MAX - 15 || alpha_pow_addr > u32::MAX - 15 {
            return Err(FriFoldError::AddressOverflow);
        }
        let (ro_read_records, ro_values) = rt.mr_slice(ro_addr, 4);
        let (alpha_pow_read_records, alpha_pow_values) = rt.mr_slice(alpha_pow_addr, 4);
        if !words_canonical(&input_values) || !words_canonical(&ro_values) || !words_canonical(
            &alpha_pow_values,
        ) {
            return Err(FriFoldError::NonCanonicalWord);
        }
        let x = input_values[0];
        let alpha = [input_values[1], input_values[2], input_values[3], input_values[4]];
        let z = [input_values[5], input_values[6], input_values[7], input_values[8]];
        let p_at_z = [input_values[9], input_values[10], input_values[11], input_values[12]];
        let p_at_x = input_values[13];
        let ro_input = [ro_values[0], ro_values[1], ro_values[2], ro_values[3]];
        let alpha_pow_input = [
            alpha_pow_values[0],
            alpha_pow_values[1],
            alpha_pow_values[2],
            alpha_pow_values[3],
        ];
        proof {
            let iw = input_values@;
            assert(all_canonical(iw));
            assert(canonical(iw[0]) && canonical(iw[13]));
            assert(ext_canonical(alpha)) by {
                assert(canonical(iw[1]) && canonical(iw[2]) && canonical(iw[3]) && canonical(iw[4]));
            }
            assert(ext_canonical(z)) by {
                assert(canonical(iw[5]) && canonical(iw[6]) && canonical(iw[7]) && canonical(iw[8]));
            }
            assert(ext_canonical(p_at_z)) by {
                assert(canonical(iw[9]) && canonical(iw[10]) && canonical(iw[11]) && canonical(iw[12]));
            }
            assert(ext_canonical(ro_input)) by {
                assert(canonical(ro_values@[0]) && canonical(ro_values@[1]) && canonical(ro_values@[2]) && canonical(ro_values@[3]));
            }
            assert(ext_canonical(alpha_pow_input)) by {
                assert(canonical(alpha_pow_values@[0]) && canonical(alpha_pow_values@[1]) && canonical(alpha_pow_values@[2]) && canonical(alpha_pow_values@[3]));
            }
            assert(ext(alpha) =~= quad(iw, 1));
            assert(ext(z) =~= quad(iw, 5));
            assert(ext(p_at_z) =~= quad(iw, 9));
            assert(ext(ro_input) =~= quad(ro_values@, 0));
            assert(ext(alpha_pow_input) =~= quad(alpha_pow_values@, 0));
        }
        let out = match fold(x, alpha, z, p_at_z, p_at_x, ro_input, alpha_pow_input) {
            Ok(o) => o,
            Err(e) => {
                return Err(e);
            },
        };
        rt.clk = rt.clk + 4;
        let ro_write_records = rt.mw_slice(ro_addr, &out.ro_output);
        let alpha_pow_write_records = rt.mw_slice(alpha_pow_addr, &out.alpha_pow_output);
        rt.clk = rt.clk + 4;
        let shard = rt.current_shard();
        let event = FriFoldEvent {
            clk: saved_clk,
            shard,
            num: out.num,
            denom: out.denom,
            input_slice_ptr,
            input_slice_read_records,
            output_slice_ptr,
            output_slice_read_records,
            ro_read_records,
            ro_write_records,
            alpha_pow_read_records,
            alpha_pow_write_records,
        };
        rt.fri_fold_events.push(event);
        proof {
            assert(record_values(event.ro_write_records@) =~= out.ro_output@);
            assert(record_values(event.alpha_pow_write_records@) =~= out.alpha_pow_output@);
            assert(ext(out.ro_output) =~= quad(out.ro_output@, 0));
            assert(ext(out.alpha_pow_output) =~= quad(out.alpha_pow_output@, 0));
            assert(rt.fri_fold_events@.drop_last() =~= pre.fri_fold_events@);
            assert(fold_holds(
                input_values@[0] as int,
                quad(input_values@, 1),
                quad(input_values@, 5),
                quad(input_values@, 9),
                input_values@[13] as int,
                quad(ro_values@, 0),
                quad(alpha_pow_values@, 0),
                ext(event.num),
                ext(event.denom),
                ext(out.quotient),
                quad(record_values(event.ro_write_records@), 0),
                quad(record_values(event.alpha_pow_write_records@), 0),
            ));
        }
        Ok(input_slice_ptr)
    }
}

/// Every successful fold advances the clock by exactly the cycles it reports.
pub proof fn lemma_fold_advances_clock(pre: SyscallContext, post: SyscallContext)
    requires
        fold_step(pre, post),
    ensures
        post.clk == pre.clk + FRI_FOLD_EXTRA_CYCLES,
{
}

/// Every successful fold appends exactly one event, which holds 14 + 2 + 4 + 4 read
/// records and 4 + 4 write records.
pub proof fn lemma_fold_event_shape(pre: SyscallContext, post: SyscallContext)
    requires
        fold_step(pre, post),
    ensures
        post.fri_fold_events@.len() == pre.fri_fold_events@.len() + 1,
        post.fri_fold_events@.last().input_slice_read_records@.len() == 14,
        post.fri_fold_events@.last().output_slice_read_records@.len() == 2,
        post.fri_fold_events@.last().ro_read_records@.len() == 4,
        post.fri_fold_events@.last().alpha_pow_read_records@.len() == 4,
        post.fri_fold_events@.last().ro_write_records@.len() == 4,
        post.fri_fold_events@.last().alpha_pow_write_records@.len() == 4,
{
}

/// A pointer that is not a multiple of 4 is the first fatal condition checked: the
/// fold fails on it before reading any memory.
pub proof fn lemma_misaligned_pointer_rejected(rt: SyscallContext)
    requires
        input_ptr(rt) % 4 != 0 || output_ptr(rt) % 4 != 0,
    ensures
        fold_error(rt) == Some(FriFoldError::MisalignedPointer),
{
}

} // verus!

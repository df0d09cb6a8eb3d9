use fri_plonk::context::SyscallContext;
use fri_plonk::field::P;
use fri_plonk::fri_fold::{fold, FriFoldChip, FriFoldError};

const INV_11: u32 = 549072524;

fn context_with(words: &[(u32, u32)], input_ptr: u32, output_ptr: u32) -> SyscallContext {
    let mut regs = [0u32; 32];
    regs[10] = input_ptr;
    regs[11] = output_ptr;
    let mut rt = SyscallContext::new(100, 7, regs);
    for &(addr, value) in words {
        rt.set_word(addr, value);
    }
    rt
}

fn slice_words(base: u32, values: &[u32]) -> Vec<(u32, u32)> {
    values.iter().enumerate().map(|(i, &v)| (base + 4 * i as u32, v)).collect()
}

fn standard_context(x: u32, z0: u32) -> SyscallContext {
    let mut words = slice_words(0x1000, &[x, 0, 1, 0, 0, z0, 0, 0, 0, 4, 0, 0, 0, 10]);
    words.extend(slice_words(0x2000, &[0x3000, 0x4000]));
    words.extend(slice_words(0x3000, &[1, 2, 3, 4]));
    words.extend(slice_words(0x4000, &[1, 0, 0, 0]));
    context_with(&words, 0x1000, 0x2000)
}

/// Extension product, computed directly: schoolbook with `X^4 = 11`.
fn model_mul(a: [u32; 4], b: [u32; 4]) -> [u32; 4] {
    let p = P as u128;
    let mut acc = [0u128; 4];
    for i in 0..4 {
        for j in 0..4 {
            let t = a[i] as u128 * b[j] as u128 % p;
            if i + j >= 4 {
                acc[i + j - 4] = (acc[i + j - 4] + 11 * t) % p;
            } else {
                acc[i + j] = (acc[i + j] + t) % p;
            }
        }
    }
    acc.map(|v| v as u32)
}

fn model_add(a: [u32; 4], b: [u32; 4]) -> [u32; 4] {
    [0, 1, 2, 3].map(|i| ((a[i] as u64 + b[i] as u64) % P as u64) as u32)
}

fn model_sub(a: [u32; 4], b: [u32; 4]) -> [u32; 4] {
    [0, 1, 2, 3].map(|i| ((a[i] as u64 + P as u64 - b[i] as u64) % P as u64) as u32)
}

#[test]
fn fold_addition_reduces_modulo_p() {
    let o = fold(5, [0, 1, 0, 0], [2, 0, 0, 0], [4, 0, 0, 0], 10, [P - 1, 1, 2, 3], [1, 0, 0, 0]).unwrap();
    assert_eq!(o.ro_output, [1, 1, 2, 3]);
}

#[test]
fn fold_subtraction_wraps_below_zero() {
    let o = fold(0, [1, 0, 0, 0], [1, 0, 0, 0], [3, 0, 0, 0], 1, [0, 0, 0, 0], [1, 0, 0, 0]).unwrap();
    assert_eq!(o.denom, [P - 1, 0, 0, 0]);
    assert_eq!(o.num, [P - 2, 0, 0, 0]);
    assert_eq!(o.quotient, [2, 0, 0, 0]);
}

#[test]
fn fold_product_reduces_x_to_the_fourth() {
    let o = fold(5, [0, 0, 0, 1], [2, 0, 0, 0], [4, 0, 0, 0], 10, [0, 0, 0, 0], [0, 1, 0, 0]).unwrap();
    assert_eq!(o.alpha_pow_output, [11, 0, 0, 0]);
    let o = fold(5, [4, 5, 0, 0], [2, 0, 0, 0], [4, 0, 0, 0], 10, [0, 0, 0, 0], [2, 3, 0, 0]).unwrap();
    assert_eq!(o.alpha_pow_output, [8, 22, 15, 0]);
}

#[test]
fn fold_on_base_values() {
    let o = fold(5, [0, 1, 0, 0], [2, 0, 0, 0], [4, 0, 0, 0], 10, [1, 2, 3, 4], [1, 0, 0, 0]).unwrap();
    assert_eq!(o.num, [6, 0, 0, 0]);
    assert_eq!(o.denom, [3, 0, 0, 0]);
    assert_eq!(o.quotient, [2, 0, 0, 0]);
    assert_eq!(o.ro_output, [3, 2, 3, 4]);
    assert_eq!(o.alpha_pow_output, [0, 1, 0, 0]);
}

#[test]
fn fold_with_extension_point() {
    let o = fold(0, [3, 0, 0, 0], [0, 1, 0, 0], [0, 0, 0, 0], 1, [0, 0, 0, 0], [2, 0, 0, 0]).unwrap();
    assert_eq!(o.num, [1, 0, 0, 0]);
    assert_eq!(o.denom, [0, P - 1, 0, 0]);
    assert_eq!(model_mul(o.quotient, o.denom), o.num);
    assert_eq!(o.quotient, [0, 0, 0, P - INV_11]);
    assert_eq!(o.ro_output, [0, 0, 0, ((2 * (P - INV_11) as u64) % P as u64) as u32]);
    assert_eq!(o.alpha_pow_output, [6, 0, 0, 0]);
}

#[test]
fn fold_matches_recurrence() {
    let (x, alpha, z, p_at_z, p_at_x) = (17, [5, 6, 7, 8], [1, 2, 3, 4], [9, 10, 11, 12], 13);
    let (ro_in, ap_in) = ([21, 22, 23, 24], [31, 32, 33, 34]);
    let o = fold(x, alpha, z, p_at_z, p_at_x, ro_in, ap_in).unwrap();
    let num = model_sub([p_at_x, 0, 0, 0], p_at_z);
    let denom = model_sub([x, 0, 0, 0], z);
    assert_eq!(o.num, num);
    assert_eq!(o.denom, denom);
    assert_eq!(model_mul(o.quotient, denom), num);
    assert_eq!(o.ro_output, model_add(ro_in, model_mul(ap_in, o.quotient)));
    assert_eq!(o.alpha_pow_output, model_mul(ap_in, alpha));
}

#[test]
fn fold_rejects_zero_denominator() {
    let r = fold(7, [1, 0, 0, 0], [7, 0, 0, 0], [0, 0, 0, 0], 0, [0, 0, 0, 0], [0, 0, 0, 0]);
    assert_eq!(r.unwrap_err(), FriFoldError::ZeroDenominator);
}

#[test]
fn extra_cycles_are_eight() {
    assert_eq!(FriFoldChip.num_extra_cycles(), 8);
}

#[test]
fn execute_writes_results_and_records_event() {
    let mut rt = standard_context(5, 2);
    let r = FriFoldChip.execute(&mut rt);
    assert_eq!(r, Ok(0x1000));
    assert_eq!(rt.clk, 108);
    assert_eq!((0..4).map(|i| rt.word(0x3000 + 4 * i)).collect::<Vec<_>>(), vec![3, 2, 3, 4]);
    assert_eq!((0..4).map(|i| rt.word(0x4000 + 4 * i)).collect::<Vec<_>>(), vec![0, 1, 0, 0]);
    assert_eq!(rt.fri_fold_events.len(), 1);
    let ev = &rt.fri_fold_events[0];
    assert_eq!((ev.clk, ev.shard, ev.input_slice_ptr, ev.output_slice_ptr), (100, 7, 0x1000, 0x2000));
    assert_eq!(ev.num, [6, 0, 0, 0]);
    assert_eq!(ev.denom, [3, 0, 0, 0]);
    let reads = ev.input_slice_read_records.len()
        + ev.output_slice_read_records.len()
        + ev.ro_read_records.len()
        + ev.alpha_pow_read_records.len();
    assert_eq!(reads, 24);
    assert_eq!(ev.ro_write_records.len() + ev.alpha_pow_write_records.len(), 8);
    assert!(ev.input_slice_read_records.iter().all(|r| r.timestamp == 100 && r.prev_value == r.value));
    assert_eq!(ev.input_slice_read_records[13].addr, 0x1000 + 52);
    assert_eq!(ev.input_slice_read_records[13].value, 10);
    assert_eq!(ev.output_slice_read_records[1].value, 0x4000);
    let w = ev.ro_write_records[0];
    assert_eq!((w.addr, w.prev_value, w.value, w.timestamp), (0x3000, 1, 3, 104));
    let w = ev.alpha_pow_write_records[1];
    assert_eq!((w.addr, w.prev_value, w.value, w.timestamp), (0x4004, 0, 1, 104));
}

#[test]
fn execute_twice_appends_two_events() {
    let mut rt = standard_context(5, 2);
    assert!(FriFoldChip.execute(&mut rt).is_ok());
    assert!(FriFoldChip.execute(&mut rt).is_ok());
    assert_eq!(rt.clk, 116);
    assert_eq!(rt.fri_fold_events.len(), 2);
    assert_eq!(rt.fri_fold_events[1].clk, 108);
}

#[test]
fn execute_rejects_misaligned_input_pointer() {
    let mut rt = standard_context(5, 2);
    rt.registers[10] = 0x1002;
    assert_eq!(FriFoldChip.execute(&mut rt), Err(FriFoldError::MisalignedPointer));
    assert_eq!(rt.clk, 100);
    assert!(rt.fri_fold_events.is_empty());
    assert_eq!(rt.word(0x3000), 1);
}

#[test]
fn execute_rejects_misaligned_output_pointer() {
    let mut rt = standard_context(5, 2);
    rt.registers[11] = 0x2001;
    assert_eq!(FriFoldChip.execute(&mut rt), Err(FriFoldError::MisalignedPointer));
    assert_eq!(rt.clk, 100);
    assert!(rt.fri_fold_events.is_empty());
}

#[test]
fn execute_rejects_slice_past_address_space() {
    let mut rt = standard_context(5, 2);
    rt.registers[10] = 0xFFFF_FFF0;
    assert_eq!(FriFoldChip.execute(&mut rt), Err(FriFoldError::AddressOverflow));
    assert_eq!(rt.clk, 100);
}

#[test]
fn execute_rejects_non_canonical_word() {
    let mut rt = standard_context(P, 2);
    assert_eq!(FriFoldChip.execute(&mut rt), Err(FriFoldError::NonCanonicalWord));
    assert!(rt.fri_fold_events.is_empty());
}

#[test]
fn execute_rejects_zero_denominator() {
    let mut rt = standard_context(5, 5);
    assert_eq!(FriFoldChip.execute(&mut rt), Err(FriFoldError::ZeroDenominator));
    assert_eq!(rt.clk, 100);
    assert_eq!(rt.word(0x3000), 1);
    assert!(rt.fri_fold_events.is_empty());
}

#[test]
fn execute_with_aliased_outputs_writes_in_order() {
    let mut rt = standard_context(5, 2);
    rt.set_word(0x2004, 0x3000);
    assert!(FriFoldChip.execute(&mut rt).is_ok());
    let ev = &rt.fri_fold_events[0];
    assert_eq!(ev.ro_write_records.iter().map(|r| r.value).collect::<Vec<_>>(), vec![3, 6, 9, 12]);
    assert_eq!(ev.alpha_pow_write_records[0].prev_value, 3);
    assert_eq!((0..4).map(|i| rt.word(0x3000 + 4 * i)).collect::<Vec<_>>(), vec![44, 1, 2, 3]);
}

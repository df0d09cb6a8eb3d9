//! A FRI-fold precompile over the BabyBear field with an auditable memory trace,
//! and the binding checks of a PLONK proof verifier.

pub mod context;
pub mod field;
pub mod fri_fold;
pub mod plonk;

//! BabyBear base field and its degree-4 binomial extension, computed by Plonky3.
//!
//! An extension element is held as its four canonical base coordinates
//! `[c0, c1, c2, c3]`, standing for `c0 + c1*X + c2*X^2 + c3*X^3` with `X^4 = W`.
use vstd::prelude::*;
use p3_baby_bear::BabyBear;
use p3_field::extension::BinomialExtensionField;
use p3_field::{AbstractExtensionField, AbstractField, PrimeField32};

verus! {

/// The BabyBear prime `2^31 - 2^27 + 1`.
pub const P: u32 = 2013265921;

/// The non-residue of the binomial extension: `X^4 = W`.
pub const W: u32 = 11;

/// A word is a canonical base field element.
pub open spec fn canonical(v: u32) -> bool {
    v < P
}

/// All four coordinates of an extension element are canonical.
pub open spec fn ext_canonical(a: [u32; 4]) -> bool {
    forall|i: int| 0 <= i < 4 ==> canonical(#[trigger] a@[i])
}

/// The coordinates of an extension element, as integers.
pub open spec fn ext(a: [u32; 4]) -> Seq<int> {
    seq![a@[0] as int, a@[1] as int, a@[2] as int, a@[3] as int]
}

/// A base element seen in the extension field.
pub open spec fn promote(x: int) -> Seq<int> {
    seq![x, 0, 0, 0]
}

/// Extension addition: coordinatewise modulo `P`.
pub open spec fn ext_add(a: Seq<int>, b: Seq<int>) -> Seq<int> {
    seq![
        (a[0] + b[0]) % (P as int),
        (a[1] + b[1]) % (P as int),
        (a[2] + b[2]) % (P as int),
        (a[3] + b[3]) % (P as int),
    ]
}

/// Extension subtraction: coordinatewise modulo `P`.
pub open spec fn ext_sub(a: Seq<int>, b: Seq<int>) -> Seq<int> {
    seq![
        (a[0] - b[0]) % (P as int),
        (a[1] - b[1]) % (P as int),
        (a[2] - b[2]) % (P as int),
        (a[3] - b[3]) % (P as int),
    ]
}

/// Extension multiplication: the product of the two polynomials, with `X^4`
/// replaced by `W`, modulo `P`.
pub open spec fn ext_mul(a: Seq<int>, b: Seq<int>) -> Seq<int> {
    let w = W as int;
    seq![
        (a[0] * b[0] + w * (a[1] * b[3] + a[2] * b[2] + a[3] * b[1])) % (P as int),
        (a[0] * b[1] + a[1] * b[0] + w * (a[2] * b[3] + a[3] * b[2])) % (P as int),
        (a[0] * b[2] + a[1] * b[1] + a[2] * b[0] + w * (a[3] * b[3])) % (P as int),
        (a[0] * b[3] + a[1] * b[2] + a[2] * b[1] + a[3] * b[0]) % (P as int),
    ]
}

/// The additive identity of the extension field.
pub open spec fn ext_zero() -> Seq<int> {
    seq![0, 0, 0, 0]
}

/// Relies on Plonky3's `Add` for `BinomialExtensionField<BabyBear, 4>`, with
/// `from_canonical_u32` and `as_canonical_u32` to move between words and elements.
#[verifier::external_body]
pub(crate) fn ext_add_words(a: [u32; 4], b: [u32; 4]) -> (r: [u32; 4])
    requires
        ext_canonical(a),
        ext_canonical(b),
    ensures
        ext_canonical(r),
        ext(r) == ext_add(ext(a), ext(b)),
{
    let ea = BinomialExtensionField::<BabyBear, 4>::from_base_slice(&a.map(BabyBear::from_canonical_u32));
    let eb = BinomialExtensionField::<BabyBear, 4>::from_base_slice(&b.map(BabyBear::from_canonical_u32));
    let r = ea + eb;
    let s: &[BabyBear] = r.as_base_slice();
    [s[0], s[1], s[2], s[3]].map(|v: BabyBear| v.as_canonical_u32())
}

/// Relies on Plonky3's `Sub` for `BinomialExtensionField<BabyBear, 4>`, with
/// `from_canonical_u32` and `as_canonical_u32` to move between words and elements.
#[verifier::external_body]
pub(crate) fn ext_sub_words(a: [u32; 4], b: [u32; 4]) -> (r: [u32; 4])
    requires
        ext_canonical(a),
        ext_canonical(b),
    ensures
        ext_canonical(r),
        ext(r) == ext_sub(ext(a), ext(b)),
{
    let ea = BinomialExtensionField::<BabyBear, 4>::from_base_slice(&a.map(BabyBear::from_canonical_u32));
    let eb = BinomialExtensionField::<BabyBear, 4>::from_base_slice(&b.map(BabyBear::from_canonical_u32));
    let r = ea - eb;
    let s: &[BabyBear] = r.as_base_slice();
    [s[0], s[1], s[2], s[3]].map(|v: BabyBear| v.as_canonical_u32())
}

/// Relies on Plonky3's `Mul` for `BinomialExtensionField<BabyBear, 4>` (schoolbook
/// product with `X^4 = 11`), with `from_canonical_u32` and `as_canonical_u32` to move
/// between words and elements.
#[verifier::external_body]
pub(crate) fn ext_mul_words(a: [u32; 4], b: [u32; 4]) -> (r: [u32; 4])
    requires
        ext_canonical(a),
        ext_canonical(b),
    ensures
        ext_canonical(r),
        ext(r) == ext_mul(ext(a), ext(b)),
{
    let ea = BinomialExtensionField::<BabyBear, 4>::from_base_slice(&a.map(BabyBear::from_canonical_u32));
    let eb = BinomialExtensionField::<BabyBear, 4>::from_base_slice(&b.map(BabyBear::from_canonical_u32));
    let r = ea * eb;
    let s: &[BabyBear] = r.as_base_slice();
    [s[0], s[1], s[2], s[3]].map(|v: BabyBear| v.as_canonical_u32())
}

/// Relies on Plonky3's `Div` for `BinomialExtensionField<BabyBear, 4>`, which
/// multiplies by the inverse of the divisor and panics on a zero divisor: the
/// quotient times the divisor is the dividend.
#[verifier::external_body]
pub(crate) fn ext_div_words(a: [u32; 4], b: [u32; 4]) -> (r: [u32; 4])
    requires
        ext_canonical(a),
        ext_canonical(b),
        ext(b) != ext_zero(),
    ensures
        ext_canonical(r),
        ext_mul(ext(r), ext(b)) == ext(a),
{
    let ea = BinomialExtensionField::<BabyBear, 4>::from_base_slice(&a.map(BabyBear::from_canonical_u32));
    let eb = BinomialExtensionField::<BabyBear, 4>::from_base_slice(&b.map(BabyBear::from_canonical_u32));
    let r = ea / eb;
    let s: &[BabyBear] = r.as_base_slice();
    [s[0], s[1], s[2], s[3]].map(|v: BabyBear| v.as_canonical_u32())
}

/// Whether an extension element is the additive identity.
pub fn ext_is_zero(a: [u32; 4]) -> (r: bool)
    ensures
        r == (ext(a) == ext_zero()),
{
    let r = a[0] == 0 && a[1] == 0 && a[2] == 0 && a[3] == 0;
    proof {
        if r {
            assert(ext(a) =~= ext_zero());
        } else {
            assert(ext(a) != ext_zero()) by {
                if ext(a) == ext_zero() {
                    assert(ext(a)[0] == 0 && ext(a)[1] == 0 && ext(a)[2] == 0 && ext(a)[3] == 0);
                }
            }
        }
    }
    r
}

/// The base element `x` as an extension element.
pub fn promote_word(x: u32) -> (r: [u32; 4])
    ensures
        ext(r) == promote(x as int),
        canonical(x) ==> ext_canonical(r),
{
    let r = [x, 0, 0, 0];
    assert(ext(r) =~= promote(x as int));
    r
}

} // verus!

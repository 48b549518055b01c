//! The mathematical model of the key agreement.
//!
//! Ristretto is a cyclic group of prime order, so every group element is a
//! scalar multiple of the table's base point and is modelled here by that
//! scalar: a natural number below the group order (its discrete logarithm).
//! Group addition is then addition of exponents and scalar multiplication is
//! multiplication of exponents, both modulo the group order. On this model
//! the protocol's central cancellation `y·R − c·(y·S) == x·S` is a statement
//! of modular arithmetic and is proved below.
use vstd::prelude::*;

use vstd::arithmetic::div_mod::{
    lemma_add_mod_noop, lemma_mul_mod_noop_right, lemma_sub_mod_noop,
};

verus! {

/// The order of the Ristretto group: the prime 2^252 + 27742317777372353535851937790883648493.
pub open spec fn group_order() -> nat {
    0x1000000000000000000000000000000014def9dea2f79cd65812631a5cf5d3ednat
}

/// Product of two exponents, reduced modulo the group order.
pub open spec fn mul_mod(a: nat, b: nat) -> nat {
    (a * b) % group_order()
}

/// Sum of two exponents, reduced modulo the group order.
pub open spec fn add_mod(a: nat, b: nat) -> nat {
    (a + b) % group_order()
}

/// Difference of two exponents, reduced modulo the group order.
/// Verus's `%` is Euclidean, so the result is in `[0, group_order())`.
pub open spec fn sub_mod(a: nat, b: nat) -> nat {
    ((a - b) % (group_order() as int)) as nat
}

/// The point the sender announces after sampling `y`: `S = y·B`,
/// where `g` is the exponent of the base point `B`.
pub open spec fn setup_val(y: nat, g: nat) -> nat {
    mul_mod(y, g)
}

/// The point the receiver answers with after sampling `x` for chosen index
/// `c`: `R = c·S + x·B`.
pub open spec fn choose_val(c: nat, x: nat, g: nat, s: nat) -> nat {
    add_mod(mul_mod(c, s), mul_mod(x, g))
}

/// The receiver's own key point: `Q = x·S`.
pub open spec fn receiver_exp(x: nat, s: nat) -> nat {
    mul_mod(x, s)
}

/// The sender's candidate key point at index `idx`: `y·R − idx·(y·S)`.
pub open spec fn sender_exp(y: nat, r: nat, s: nat, idx: nat) -> nat {
    sub_mod(mul_mod(y, r), mul_mod(idx, mul_mod(y, s)))
}

/// The algebraic heart of the protocol: when both parties use a base point
/// with exponent `g`, the sender announces `S = y·B`, and the receiver
/// answers `R = c·S + x·B`, the sender's candidate point at the chosen index
/// `c` is exactly the receiver's key point `x·S`:
/// `y·R − c·(y·S) == y·(c·S + x·B) − c·(y·S) == x·(y·B) == x·S`.
pub proof fn lemma_chosen_exponent_matches(y: nat, x: nat, g: nat, c: nat)
    ensures
        sender_exp(y, choose_val(c, x, g, setup_val(y, g)), setup_val(y, g), c)
            == receiver_exp(x, setup_val(y, g)),
{
    let l = group_order() as int;
    let y = y as int;
    let x = x as int;
    let g = g as int;
    let c = c as int;
    let s = (y * g) % l;
    let r = ((c * s) % l + (x * g) % l) % l;

    // r == (c·s + x·g) % l
    lemma_add_mod_noop(c * s, x * g, l);

    // (y · r) % l == (y·c·y·g + y·x·g) % l
    lemma_mul_mod_noop_right(y as int, c * s + x * g, l);
    assert(y * (c * s + x * g) == y * c * s + y * x * g) by (nonlinear_arith);
    lemma_add_mod_noop(y * c * s, y * x * g, l);
    assert(y * c * s == (y * c) * s) by (nonlinear_arith);
    lemma_mul_mod_noop_right(y * c, y * g, l);
    assert((y * c) * (y * g) == y * c * y * g) by (nonlinear_arith);
    lemma_add_mod_noop(y * c * y * g, y * x * g, l);
    assert((y * r) % l == (y * c * y * g + y * x * g) % l);

    // (c · ((y·s) % l)) % l == (y·c·y·g) % l
    lemma_mul_mod_noop_right(c as int, y * s, l);
    assert(c * (y * s) == (c * y) * s) by (nonlinear_arith);
    lemma_mul_mod_noop_right(c * y, y * g, l);
    assert((c * y) * (y * g) == y * c * y * g) by (nonlinear_arith);
    assert((c * ((y * s) % l)) % l == (y * c * y * g) % l);

    // the difference cancels down to (y·x·g) % l
    lemma_sub_mod_noop(y * c * y * g + y * x * g, y * c * y * g, l);
    assert((y * c * y * g + y * x * g) - (y * c * y * g) == y * x * g);

    // the receiver's exponent is the same value
    lemma_mul_mod_noop_right(x as int, y * g, l);
    assert(x * (y * g) == y * x * g) by (nonlinear_arith);
}

} // verus!

//! The protocol's laws, stated over the session models and proved once for
//! every session.
use vstd::prelude::*;

use crate::algebra::{
    choose_val, lemma_chosen_exponent_matches, receiver_exp, sender_exp, setup_val,
};
use crate::kdf::key_of_exp;

verus! {

/// For every session and every chosen index, the two parties agree on the
/// chosen key: when the parties share a base point with exponent `g`, the
/// sender samples `y` and announces `S = y·B`, and the receiver samples `x`
/// and answers `R = c·S + x·B` for chosen index `c`, then the key the sender
/// derives at index `c` equals the key the receiver derives independently
/// from `x·S`. Deterministic and exact, for all scalars and all indices.
pub proof fn lemma_chosen_key_matches(y: nat, x: nat, g: nat, c: nat)
    ensures
        key_of_exp(sender_exp(y, choose_val(c, x, g, setup_val(y, g)), setup_val(y, g), c))
            == key_of_exp(receiver_exp(x, setup_val(y, g))),
{
    lemma_chosen_exponent_matches(y, x, g, c);
}

} // verus!

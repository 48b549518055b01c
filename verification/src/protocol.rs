//! The orchestrator: sequences one session of the four-phase handshake,
//! Setup → Choose → DeriveKeys → Transfer, between a sender and a receiver
//! that share a base point.
//!
//! Its contract carries the protocol's correctness end to end: whenever the
//! session completes, the output at the chosen index is exactly the chosen
//! message.
use vstd::prelude::*;

use curve25519_dalek::ristretto::RistrettoBasepointTable;

use crate::aead::{seal_of, MAX_MSG_LEN};
use crate::algebra::{choose_val, group_order, lemma_chosen_exponent_matches, receiver_exp};
use crate::errors::OtError;
use crate::group::{clone_table, point_val, table_val};
use crate::kdf::key_of_exp;
use crate::nonce::nonce_spec;
use crate::receiver::Receiver;
use crate::sender::Sender;

verus! {

/// Runs one full session over the group of the given base point table: the
/// sender takes the messages, the receiver the chosen index, and the result
/// is the receiver's view of the transfer: one opened plaintext per index.
///
/// The session count is the number of messages, so a chosen index at or
/// above it is rejected as `InvalidIndex` before anything else happens;
/// after that only a failed random draw can abort. On success the chosen
/// index holds exactly the chosen message.
pub fn run_session(b: RistrettoBasepointTable, messages: Vec<Vec<u8>>, c_index: u32) -> (r: Result<
    Vec<Option<Vec<u8>>>,
    OtError,
>)
    requires
        messages@.len() <= 0xffff_ffff,
        forall|i: int| 0 <= i < messages@.len() ==> (#[trigger] messages@[i])@.len() <= MAX_MSG_LEN,
    ensures
        r matches Err(e) && e == OtError::InvalidIndex <==> c_index as nat >= messages@.len(),
        r matches Err(e) ==> e == OtError::InvalidIndex || e == OtError::RandomGenerationFailure,
        r matches Ok(outs) ==> outs@.len() == messages@.len() && (outs@[c_index as int]
            matches Some(m) && m@ == messages@[c_index as int]@),
{
    let n = messages.len() as u32;
    if c_index >= n {
        return Err(OtError::InvalidIndex);
    }
    let mut sender = Sender::new(n, clone_table(&b));
    let mut receiver = Receiver::new(n, b);

    // Setup: the sender samples y and announces S = y·B.
    let s_point = match sender.setup() {
        Ok(p) => p,
        Err(e) => {
            return Err(e);
        },
    };

    // Choose: the receiver samples x, derives its key, and answers R.
    let r_point = match receiver.choose_index(c_index, s_point) {
        Ok(p) => p,
        Err(e) => {
            return Err(e);
        },
    };

    // DeriveKeys: the sender computes the n candidate keys.
    let keys = sender.derive_keys(s_point, r_point);
    let ghost keys_view = keys@;

    // Transfer: the sender seals each message; the receiver opens what it
    // can, which is exactly the chosen index.
    let ciphertexts = match sender.encrypt(keys, messages) {
        Ok(cts) => cts,
        Err(e) => {
            // Unreachable: the counts match and every derived key is one
            // cipher key long, so sealing is owed to succeed.
            return Err(e);
        },
    };

    proof {
        let ci = c_index as int;
        let xv = choose|x: nat|
            x < group_order() && point_val(r_point)
                == choose_val(
                c_index as nat,
                x,
                table_val(b),
                point_val(s_point),
            ) && receiver.key_view() == key_of_exp(
                receiver_exp(x, point_val(s_point)),
            );
        lemma_chosen_exponent_matches(
            sender.secret_val(),
            xv,
            table_val(b),
            c_index as nat,
        );
        // the chosen candidate key is the receiver's key ...
        assert(keys_view[ci]@ == receiver.key_view());
        // ... so the chosen ciphertext is a sealing of the chosen message
        // under the receiver's key, with the chosen index's nonce
        assert(ciphertexts@[ci]@ == seal_of(
            keys_view[ci]@,
            nonce_spec(ci as u32),
            messages@[ci]@,
        ));
        assert(ciphertexts@[ci]@ == seal_of(
            receiver.key_view(),
            nonce_spec(ci as u32),
            messages@[ci]@,
        ));
    }

    let outs = match receiver.decrypt(ciphertexts) {
        Ok(o) => o,
        Err(e) => {
            // Unreachable: the receiver holds one opening key per message.
            return Err(e);
        },
    };
    Ok(outs)
}

} // verus!

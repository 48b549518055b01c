//! The sender's half of the protocol: owns the secret scalar `y`, announces
//! `S = y·B`, derives the n candidate keys, and seals the n messages.
use vstd::prelude::*;

use curve25519_dalek::ristretto::{RistrettoBasepointTable, RistrettoPoint};
use curve25519_dalek::scalar::Scalar;
use ring::rand::SystemRandom;

use crate::aead::{aead_seal, seal_of, KEY_LEN, MAX_MSG_LEN, TAG_LEN};
use crate::algebra::{group_order, sender_exp, setup_val};
use crate::errors::OtError;
use crate::group::{
    new_system_random, point_minus, point_val, random_bytes_32, scalar_from_bytes,
    scalar_from_u32, scalar_mul_point, scalar_mul_table, scalar_val, table_val,
};
use crate::kdf::{derive_from_point, key_of_exp};
use crate::nonce::{nonce_for, nonce_spec};

verus! {

/// The sender: message count `n`, base point table, random source, and the
/// session's secret scalar `y`.
pub struct Sender {
    n: u32,
    b: RistrettoBasepointTable,
    rng: SystemRandom,
    y: Scalar,
}

impl Sender {
    /// The number of messages of the session.
    pub closed spec fn count(&self) -> nat {
        self.n as nat
    }

    /// The exponent of the base point of the session.
    pub closed spec fn base_val(&self) -> nat {
        table_val(self.b)
    }

    /// The residue of the secret scalar `y`.
    pub closed spec fn secret_val(&self) -> nat {
        scalar_val(self.y)
    }

    /// Constructs a sender for `n` messages over the group of the given base
    /// point table. The secret scalar is a placeholder until `setup` samples
    /// it.
    pub fn new(n: u32, b: RistrettoBasepointTable) -> (r: Sender)
        ensures
            r.count() == n as nat,
            r.base_val() == table_val(b),
    {
        let rng = new_system_random();
        Sender { n, b, rng, y: scalar_from_u32(1) }
    }

    /// Samples the session's secret scalar `y` and announces the public
    /// point `S = y·B`. A failed random draw is propagated, never replaced
    /// by a fixed value.
    pub fn setup(&mut self) -> (r: Result<RistrettoPoint, OtError>)
        ensures
            final(self).count() == old(self).count(),
            final(self).base_val() == old(self).base_val(),
            r matches Ok(s) ==> point_val(s) == setup_val(
                final(self).secret_val(),
                old(self).base_val(),
            ) && final(self).secret_val() < group_order(),
            r matches Err(e) ==> e == OtError::RandomGenerationFailure && *final(self) == *old(
                self,
            ),
    {
        let bytes = match random_bytes_32(&self.rng) {
            Ok(b) => b,
            Err(e) => {
                return Err(e);
            },
        };
        self.y = scalar_from_bytes(bytes);
        Ok(scalar_mul_table(&self.y, &self.b))
    }

    /// Derives the n candidate keys in index order: the key at `idx` hashes
    /// the compressed point `y·R − idx·(y·S)`. Exactly the chosen index
    /// yields the receiver's key, by the cancellation proved in `algebra`.
    pub fn derive_keys(&mut self, s_point: RistrettoPoint, r_point: RistrettoPoint) -> (keys: Vec<
        Vec<u8>,
    >)
        ensures
            *final(self) == *old(self),
            keys@.len() == old(self).count(),
            forall|i: int|
                0 <= i < keys@.len() ==> (#[trigger] keys@[i])@ == key_of_exp(
                    sender_exp(
                        old(self).secret_val(),
                        point_val(r_point),
                        point_val(s_point),
                        i as nat,
                    ),
                ) && keys@[i]@.len() == 32,
    {
        let t = scalar_mul_point(&self.y, &s_point);
        let mut keys: Vec<Vec<u8>> = Vec::new();
        let mut idx: u32 = 0;
        while idx < self.n
            invariant
                *self == *old(self),
                idx <= self.n,
                keys@.len() == idx as nat,
                forall|i: int|
                    0 <= i < keys@.len() ==> (#[trigger] keys@[i])@ == key_of_exp(
                        sender_exp(
                            self.secret_val(),
                            point_val(r_point),
                            point_val(s_point),
                            i as nat,
                        ),
                    ) && keys@[i]@.len() == 32,
                point_val(t) == crate::algebra::mul_mod(self.secret_val(), point_val(s_point)),
            decreases self.n - idx,
        {
            let j = scalar_from_u32(idx);
            let jt = scalar_mul_point(&j, &t);
            let yr = scalar_mul_point(&self.y, &r_point);
            let candidate = point_minus(&yr, &jt);
            let key = derive_from_point(&candidate);
            keys.push(key);
            idx = idx + 1;
        }
        keys
    }

    /// Seals each message under its own key, each key bound to a counter
    /// nonce used exactly once. Counts that disagree with the session's `n`
    /// are a length mismatch; a key that is not 32 bytes is a key
    /// construction failure.
    pub fn encrypt(&self, k_s: Vec<Vec<u8>>, messages: Vec<Vec<u8>>) -> (r: Result<
        Vec<Vec<u8>>,
        OtError,
    >)
        requires
            forall|i: int|
                0 <= i < messages@.len() ==> (#[trigger] messages@[i])@.len() <= MAX_MSG_LEN,
        ensures
            r matches Ok(cts) ==> k_s@.len() == self.count() && messages@.len() == self.count()
                && cts@.len() == messages@.len() && forall|i: int|
                0 <= i < cts@.len() ==> (#[trigger] cts@[i])@ == seal_of(
                    k_s@[i]@,
                    nonce_spec(i as u32),
                    messages@[i]@,
                ) && cts@[i]@.len() == messages@[i]@.len() + TAG_LEN,
            r matches Err(e) && e == OtError::LengthMismatch <==> !(k_s@.len() == self.count()
                && messages@.len() == self.count()),
            r matches Err(e) ==> e == OtError::LengthMismatch
                || e == OtError::KeyConstructionFailure,
            r matches Err(e) && e == OtError::KeyConstructionFailure <==> k_s@.len()
                == self.count() && messages@.len() == self.count() && (exists|i: int|
                0 <= i < k_s@.len() && (#[trigger] k_s@[i])@.len() != KEY_LEN),
            k_s@.len() == self.count() && messages@.len() == self.count() && (forall|i: int|
                0 <= i < k_s@.len() ==> (#[trigger] k_s@[i])@.len() == KEY_LEN) ==> r is Ok,
    {
        if k_s.len() != self.n as usize || messages.len() != self.n as usize {
            return Err(OtError::LengthMismatch);
        }
        let mut out: Vec<Vec<u8>> = Vec::new();
        let mut i: usize = 0;
        while i < k_s.len()
            invariant
                i <= k_s@.len(),
                k_s@.len() == self.count(),
                messages@.len() == self.count(),
                self.count() <= 0xffff_ffff,
                forall|p: int|
                    0 <= p < messages@.len() ==> (#[trigger] messages@[p])@.len() <= MAX_MSG_LEN,
                out@.len() == i as nat,
                forall|p: int| 0 <= p < i ==> (#[trigger] k_s@[p])@.len() == KEY_LEN,
                forall|p: int|
                    0 <= p < out@.len() ==> (#[trigger] out@[p])@ == seal_of(
                        k_s@[p]@,
                        nonce_spec(p as u32),
                        messages@[p]@,
                    ) && out@[p]@.len() == messages@[p]@.len() + TAG_LEN,
            decreases k_s@.len() - i,
        {
            let nonce = nonce_for(i as u32);
            match aead_seal(&k_s[i], &nonce, &messages[i]) {
                Ok(c) => {
                    out.push(c);
                },
                Err(e) => {
                    return Err(e);
                },
            }
            i = i + 1;
        }
        Ok(out)
    }
}

} // verus!

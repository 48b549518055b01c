//! The receiver's half of the protocol: validates the chosen index, owns the
//! secret scalar `x`, blinds the choice into `R = c·S + x·B`, derives its one
//! key, and opens the n ciphertexts, of which only the chosen one
//! authenticates.
use vstd::prelude::*;

use curve25519_dalek::ristretto::{RistrettoBasepointTable, RistrettoPoint};
use ring::rand::SystemRandom;

use crate::aead::{aead_open, seal_of, KEY_LEN, MAX_MSG_LEN};
use crate::algebra::{choose_val, group_order, receiver_exp};
use crate::errors::OtError;
use crate::group::{
    new_system_random, point_plus, point_val, random_bytes_32, scalar_from_bytes,
    scalar_from_u32, scalar_mul_point, scalar_mul_table, scalar_val, table_val,
};
use crate::kdf::{derive_from_point, key_of_exp, sha256};
use crate::nonce::{nonce_for, nonce_spec};

verus! {

/// The receiver: message count `n`, base point table, random source, the
/// derived key, and the per-index opening keys, one counter-bound instance
/// per index.
pub struct Receiver {
    n: u32,
    b: RistrettoBasepointTable,
    rng: SystemRandom,
    k: Vec<u8>,
    keys: Vec<Vec<u8>>,
}

impl Receiver {
    /// The number of messages of the session.
    pub closed spec fn count(&self) -> nat {
        self.n as nat
    }

    /// The exponent of the base point of the session.
    pub closed spec fn base_val(&self) -> nat {
        table_val(self.b)
    }

    /// The receiver's derived key material.
    pub closed spec fn key_view(&self) -> Seq<u8> {
        self.k@
    }

    /// How many per-index opening keys stand ready.
    pub closed spec fn opening_count(&self) -> nat {
        self.keys@.len()
    }

    /// Well-formedness: the derived key is one cipher key long, and every
    /// opening-key instance carries exactly that key material (each bound to
    /// its own nonce counter).
    pub closed spec fn wf(&self) -> bool {
        &&& self.k@.len() == KEY_LEN
        &&& self.keys@.len() <= 0xffff_ffff
        &&& forall|i: int| 0 <= i < self.keys@.len() ==> (#[trigger] self.keys@[i])@ == self.k@
    }

    /// Constructs a receiver for `n` messages over the group of the given
    /// base point table. The key is a placeholder digest until `choose_index`
    /// derives the real one; no opening keys exist yet.
    pub fn new(n: u32, b: RistrettoBasepointTable) -> (r: Receiver)
        ensures
            r.count() == n as nat,
            r.base_val() == table_val(b),
            r.wf(),
            r.opening_count() == 0,
    {
        let rng = new_system_random();
        let empty: Vec<u8> = Vec::new();
        let k = sha256(&empty);
        Receiver { n, b, rng, k, keys: Vec::new() }
    }

    /// Validates the chosen index, samples the session's secret scalar `x`,
    /// answers the blinded point `R = c·S + x·B`, derives the receiver's key
    /// from `Q = x·S`, and builds one counter-bound opening key per index.
    /// An index at or above `n` is rejected before any secret is sampled.
    pub fn choose_index(&mut self, c_index: u32, s: RistrettoPoint) -> (r: Result<
        RistrettoPoint,
        OtError,
    >)
        ensures
            final(self).count() == old(self).count(),
            final(self).base_val() == old(self).base_val(),
            r matches Err(e) ==> (e == OtError::InvalidIndex
                || e == OtError::RandomGenerationFailure) && *final(self) == *old(self),
            r matches Err(e) && e == OtError::InvalidIndex <==> c_index as nat >= old(self).count(),
            r matches Ok(rp) ==> (exists|x: nat|
                x < group_order() && point_val(rp) == choose_val(
                    c_index as nat,
                    x,
                    old(self).base_val(),
                    point_val(s),
                ) && final(self).key_view() == key_of_exp(receiver_exp(x, point_val(s))))
                && final(self).wf() && final(self).opening_count() == old(self).count(),
    {
        if c_index >= self.n {
            return Err(OtError::InvalidIndex);
        }
        let c = scalar_from_u32(c_index);
        let bytes = match random_bytes_32(&self.rng) {
            Ok(b) => b,
            Err(e) => {
                return Err(e);
            },
        };
        let x = scalar_from_bytes(bytes);
        let cs = scalar_mul_point(&c, &s);
        let xb = scalar_mul_table(&x, &self.b);
        let r_point = point_plus(&cs, &xb);
        let q = scalar_mul_point(&x, &s);
        self.k = derive_from_point(&q);
        let mut keys: Vec<Vec<u8>> = Vec::new();
        let mut p: u32 = 0;
        while p < self.n
            invariant
                p <= self.n,
                keys@.len() == p as nat,
                self.k@.len() == KEY_LEN,
                forall|i: int| 0 <= i < keys@.len() ==> (#[trigger] keys@[i])@ == self.k@,
            decreases self.n - p,
        {
            keys.push(self.k.clone());
            p = p + 1;
        }
        self.keys = keys;
        proof {
            let xv = scalar_val(x);
            assert(xv < group_order() && point_val(r_point) == choose_val(
                c_index as nat,
                xv,
                old(self).base_val(),
                point_val(s),
            ) && self.key_view() == key_of_exp(receiver_exp(xv, point_val(s))));
        }
        Ok(r_point)
    }

    /// The key material derived during `choose_index` (a placeholder digest
    /// before that).
    pub fn derived_key(&self) -> (r: &Vec<u8>)
        ensures
            r@ == self.key_view(),
    {
        &self.k
    }

    /// Attempts an authenticated opening of every ciphertext with the
    /// matching counter-bound key. An authentication failure is the expected
    /// outcome at every index but the chosen one and is reported as an
    /// absent result, never as an error: only a count that disagrees with
    /// the opening keys aborts. Whatever opens is a genuine sealing under
    /// the receiver's key — never a wrong plaintext.
    pub fn decrypt(&mut self, in_out: Vec<Vec<u8>>) -> (r: Result<Vec<Option<Vec<u8>>>, OtError>)
        requires
            old(self).wf(),
        ensures
            *final(self) == *old(self),
            r matches Err(e) ==> e == OtError::LengthMismatch,
            r matches Err(e) && e == OtError::LengthMismatch <==> in_out@.len() != old(
                self,
            ).opening_count(),
            r matches Ok(outs) ==> outs@.len() == in_out@.len() && (forall|p: int|
                0 <= p < outs@.len() ==> ((#[trigger] outs@[p]) matches Some(m) ==> in_out@[p]@
                    == seal_of(old(self).key_view(), nonce_spec(p as u32), m@))) && (forall|
                p: int,
                m: Seq<u8>,
            |
                0 <= p < outs@.len() && m.len() <= MAX_MSG_LEN && in_out@[p]@ == #[trigger] seal_of(
                    old(self).key_view(),
                    nonce_spec(p as u32),
                    m,
                ) ==> (outs@[p] matches Some(q) && q@ == m)),
    {
        if in_out.len() != self.keys.len() {
            return Err(OtError::LengthMismatch);
        }
        let mut outs: Vec<Option<Vec<u8>>> = Vec::new();
        let mut p: usize = 0;
        while p < in_out.len()
            invariant
                *self == *old(self),
                self.wf(),
                in_out@.len() == self.keys@.len(),
                p <= in_out@.len(),
                outs@.len() == p as nat,
                forall|i: int|
                    0 <= i < outs@.len() ==> ((#[trigger] outs@[i]) matches Some(m) ==> in_out@[i]@
                        == seal_of(self.key_view(), nonce_spec(i as u32), m@)),
                forall|i: int, m: Seq<u8>|
                    0 <= i < outs@.len() && m.len() <= MAX_MSG_LEN && in_out@[i]@
                        == #[trigger] seal_of(self.key_view(), nonce_spec(i as u32), m)
                        ==> (outs@[i] matches Some(q) && q@ == m),
            decreases in_out@.len() - p,
        {
            let nonce = nonce_for(p as u32);
            let opened = aead_open(&self.keys[p], &nonce, &in_out[p]);
            outs.push(opened);
            p = p + 1;
        }
        Ok(outs)
    }
}

} // verus!

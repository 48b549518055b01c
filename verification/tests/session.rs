use curve25519_dalek::constants::{RISTRETTO_BASEPOINT_POINT, RISTRETTO_BASEPOINT_TABLE};
use curve25519_dalek::ristretto::RistrettoPoint;
use rand::rngs::OsRng;

use oblivious_transfer::errors::OtError;
use oblivious_transfer::kdf::derive_from_point;
use oblivious_transfer::nonce::nonce_for;
use oblivious_transfer::protocol::run_session;
use oblivious_transfer::receiver::Receiver;
use oblivious_transfer::sender::Sender;

#[test]
fn receiver_receiver_can_choose() {
    let mut receiver = Receiver::new(2, RISTRETTO_BASEPOINT_TABLE.clone());
    let mut rng = OsRng;
    let s = RistrettoPoint::random(&mut rng);
    let _ = receiver.choose_index(1, s);
}

#[test]
fn sender_receiver_can_choose() {
    let mut sender = Sender::new(2, RISTRETTO_BASEPOINT_TABLE.clone());
    let _ = sender.setup();
}

#[test]
fn index_boundary() {
    let mut sender = Sender::new(3, RISTRETTO_BASEPOINT_TABLE.clone());
    let mut receiver = Receiver::new(3, RISTRETTO_BASEPOINT_TABLE.clone());
    let s = sender.setup().unwrap();
    assert_eq!(receiver.choose_index(3, s), Err(OtError::InvalidIndex));
    assert_eq!(receiver.choose_index(4, s), Err(OtError::InvalidIndex));
    assert!(receiver.choose_index(2, s).is_ok());
}

#[test]
fn chosen_key_matches() {
    for c in 0..4u32 {
        let mut sender = Sender::new(4, RISTRETTO_BASEPOINT_TABLE.clone());
        let mut receiver = Receiver::new(4, RISTRETTO_BASEPOINT_TABLE.clone());
        let s = sender.setup().unwrap();
        let r = receiver.choose_index(c, s).unwrap();
        let keys = sender.derive_keys(s, r);
        assert_eq!(keys.len(), 4);
        assert_eq!(&keys[c as usize], receiver.derived_key());
    }
}

#[test]
fn decoy_keys_differ() {
    for _trial in 0..10 {
        let mut sender = Sender::new(4, RISTRETTO_BASEPOINT_TABLE.clone());
        let mut receiver = Receiver::new(4, RISTRETTO_BASEPOINT_TABLE.clone());
        let s = sender.setup().unwrap();
        let r = receiver.choose_index(2, s).unwrap();
        let keys = sender.derive_keys(s, r);
        for idx in 0..4usize {
            if idx != 2 {
                assert_ne!(&keys[idx], receiver.derived_key());
            }
        }
    }
}

#[test]
fn round_trip_recovers_only_chosen() {
    let messages: Vec<Vec<u8>> = vec![Vec::new(), vec![0u8, 255, 7, 0], b"hello world".to_vec()];
    for c in 0..3u32 {
        let mut sender = Sender::new(3, RISTRETTO_BASEPOINT_TABLE.clone());
        let mut receiver = Receiver::new(3, RISTRETTO_BASEPOINT_TABLE.clone());
        let s = sender.setup().unwrap();
        let r = receiver.choose_index(c, s).unwrap();
        let keys = sender.derive_keys(s, r);
        let ciphertexts = sender.encrypt(keys, messages.clone()).unwrap();
        for idx in 0..3usize {
            assert_eq!(ciphertexts[idx].len(), messages[idx].len() + 16);
            assert_ne!(ciphertexts[idx], messages[idx]);
        }
        let outs = receiver.decrypt(ciphertexts).unwrap();
        assert_eq!(outs.len(), 3);
        for idx in 0..3usize {
            if idx == c as usize {
                assert_eq!(outs[idx], Some(messages[idx].clone()));
            } else {
                assert_eq!(outs[idx], None);
            }
        }
    }
}

#[test]
fn round_trip_all_counts() {
    for n in 1..6u32 {
        let messages: Vec<Vec<u8>> = (0..n).map(|i| vec![i as u8; i as usize]).collect();
        let c = n - 1;
        let outs = run_session(RISTRETTO_BASEPOINT_TABLE.clone(), messages.clone(), c).unwrap();
        assert_eq!(outs.len(), n as usize);
        for idx in 0..n as usize {
            if idx == c as usize {
                assert_eq!(outs[idx], Some(messages[idx].clone()));
            } else {
                assert_eq!(outs[idx], None);
            }
        }
    }
}

#[test]
fn two_messages_chosen_second() {
    let messages = vec![b"one".to_vec(), b"two".to_vec()];
    let outs = run_session(RISTRETTO_BASEPOINT_TABLE.clone(), messages, 1).unwrap();
    assert_eq!(outs[1], Some(b"two".to_vec()));
    assert_eq!(outs[0], None);
}

#[test]
fn single_message_degenerate() {
    let messages = vec![b"solo".to_vec()];
    assert_eq!(
        run_session(RISTRETTO_BASEPOINT_TABLE.clone(), messages.clone(), 1),
        Err(OtError::InvalidIndex)
    );
    let outs = run_session(RISTRETTO_BASEPOINT_TABLE.clone(), messages, 0).unwrap();
    assert_eq!(outs.len(), 1);
    assert_eq!(outs[0], Some(b"solo".to_vec()));
}

#[test]
fn nonce_counter_values_distinct() {
    let nonces: Vec<Vec<u8>> = (0..16u32).map(nonce_for).collect();
    for i in 0..16usize {
        assert_eq!(nonces[i].len(), 12);
        for j in 0..16usize {
            if i != j {
                assert_ne!(nonces[i], nonces[j]);
            }
        }
    }
    assert_eq!(nonce_for(0x01020304), vec![0, 0, 0, 0, 0, 0, 0, 0, 1, 2, 3, 4]);
}

#[test]
fn encrypt_count_mismatch() {
    let sender = Sender::new(2, RISTRETTO_BASEPOINT_TABLE.clone());
    let keys = vec![vec![0u8; 32], vec![1u8; 32]];
    let messages = vec![b"a".to_vec()];
    assert_eq!(sender.encrypt(keys, messages), Err(OtError::LengthMismatch));
}

#[test]
fn encrypt_rejects_short_key() {
    let sender = Sender::new(1, RISTRETTO_BASEPOINT_TABLE.clone());
    let keys = vec![vec![0u8; 16]];
    let messages = vec![b"a".to_vec()];
    assert_eq!(sender.encrypt(keys, messages), Err(OtError::KeyConstructionFailure));
}

#[test]
fn decrypt_count_mismatch() {
    let mut receiver = Receiver::new(2, RISTRETTO_BASEPOINT_TABLE.clone());
    assert_eq!(
        receiver.decrypt(vec![b"x".to_vec()]),
        Err(OtError::LengthMismatch)
    );
}

#[test]
fn derive_matches_digest_of_compression() {
    let p = RISTRETTO_BASEPOINT_POINT;
    let key = derive_from_point(&p);
    let expected = ring::digest::digest(&ring::digest::SHA256, p.compress().as_bytes());
    assert_eq!(key.as_slice(), expected.as_ref());
    assert_ne!(key.as_slice(), p.compress().as_bytes());
}

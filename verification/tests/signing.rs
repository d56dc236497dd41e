use ocs_client::builder::prepare_transaction;
use ocs_client::signer::{Signer, TxFields};

fn sample_tx() -> TxFields {
    TxFields {
        from: "alice".to_string(),
        to: "contract7".to_string(),
        amount: "0".to_string(),
        nonce: 5,
        ou: "1".to_string(),
        timestamp: "1712345678.25".to_string(),
    }
}

#[test]
fn canonical_blob_exact_form() {
    let blob = sample_tx().canonical_blob();
    assert_eq!(
        blob,
        "{\"from\":\"alice\",\"to_\":\"contract7\",\"amount\":\"0\",\"nonce\":5,\"ou\":\"1\",\"timestamp\":1712345678.25}"
    );
}

#[test]
fn sign_is_deterministic() {
    let signer = Signer::new(vec![7u8; 32]).unwrap();
    let a = signer.sign_tx(&sample_tx());
    let b = signer.sign_tx(&sample_tx());
    assert_eq!(a, b);
}

#[test]
fn single_field_change_changes_signature() {
    let signer = Signer::new(vec![7u8; 32]).unwrap();
    let base = signer.sign_tx(&sample_tx());

    let mut t = sample_tx();
    t.from = "alicf".to_string();
    assert_ne!(signer.sign_tx(&t), base);

    let mut t = sample_tx();
    t.to = "contract8".to_string();
    assert_ne!(signer.sign_tx(&t), base);

    let mut t = sample_tx();
    t.amount = "00".to_string();
    assert_ne!(signer.sign_tx(&t), base);

    let mut t = sample_tx();
    t.nonce = 6;
    assert_ne!(signer.sign_tx(&t), base);

    let mut t = sample_tx();
    t.timestamp = "1712345678.26".to_string();
    assert_ne!(signer.sign_tx(&t), base);
}

#[test]
fn signature_matches_reference_scheme() {
    let key = [9u8; 32];
    let signer = Signer::new(key.to_vec()).unwrap();
    let tx = sample_tx();
    let blob = tx.canonical_blob();

    let sk = ed25519_dalek::SigningKey::from_bytes(&key);
    let sig = ed25519_dalek::Signer::sign(&sk, blob.as_bytes());
    let expected =
        base64::Engine::encode(&base64::engine::general_purpose::STANDARD, sig.to_bytes());
    assert_eq!(signer.sign_tx(&tx), expected);

    let expected_pk = base64::Engine::encode(
        &base64::engine::general_purpose::STANDARD,
        sk.verifying_key().to_bytes(),
    );
    assert_eq!(signer.public_key_b64(), expected_pk);
}

#[test]
fn signer_rejects_bad_key_material() {
    assert!(Signer::new(vec![1u8; 31]).is_none());
    assert!(Signer::new(vec![1u8; 33]).is_none());
    assert!(Signer::new(Vec::new()).is_none());
    assert!(Signer::new(vec![0u8; 32]).is_some());
}

#[test]
fn build_uses_fetched_nonce_plus_one() {
    let signer = Signer::new(vec![3u8; 32]).unwrap();
    let stx = prepare_transaction(&signer, "alice", "ct", 7, "12.5".to_string());
    assert_eq!(stx.tx.nonce, 8);
    assert_eq!(stx.tx.amount, "0");
    assert_eq!(stx.tx.ou, "1");
    assert_eq!(stx.tx.timestamp, "12.5");
    assert_eq!(stx.tx.from, "alice");
    assert_eq!(stx.tx.to, "ct");
}

#[test]
fn sequential_builds_use_increasing_nonces() {
    let signer = Signer::new(vec![3u8; 32]).unwrap();
    let first = prepare_transaction(&signer, "alice", "ct", 7, "12.5".to_string());
    // After the first transaction confirms, the account nonce has advanced.
    let second = prepare_transaction(&signer, "alice", "ct", 8, "17.5".to_string());
    assert_eq!(first.tx.nonce, 8);
    assert_eq!(second.tx.nonce, 9);
    assert!(second.tx.nonce > first.tx.nonce);
}

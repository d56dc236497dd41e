//! The transaction builder: assembles the canonical six-field
//! transaction from a freshly fetched nonce and one timestamp sample,
//! and obtains its signature and verification key.

use vstd::prelude::*;
use crate::signer::{Signer, TxFields, canon_of, sig_of, pub_of, b64_of};

verus! {

/// The nonce a new transaction must carry, given the account's current
/// nonce: the next sequence number.
pub open spec fn next_nonce(fetched: nat) -> nat {
    fetched + 1
}

/// A transaction ready for submission: the six signed fields, the
/// signature over their canonical encoding, and the encoded
/// verification key.
pub struct SignedTx {
    pub tx: TxFields,
    pub signature: String,
    pub public_key: String,
}

/// Assembles and signs a contract-invocation transaction: nonce
/// `fetched + 1`, a fixed zero transfer amount, the fixed
/// operation-unit tag `1`, and the caller's single timestamp sample,
/// which is embedded unchanged so the signature stays valid for the
/// submitted payload.
pub fn prepare_transaction(
    signer: &Signer,
    from: &str,
    contract: &str,
    fetched_nonce: u64,
    timestamp: String,
) -> (r: SignedTx)
    requires
        signer.wf(),
        fetched_nonce < u64::MAX,
    ensures
        r.tx.from@ == from@,
        r.tx.to@ == contract@,
        r.tx.amount@ == "0"@,
        r.tx.nonce as nat == next_nonce(fetched_nonce as nat),
        r.tx.ou@ == "1"@,
        r.tx.timestamp@ == timestamp@,
        r.signature@ == b64_of(sig_of(signer.key_bytes(), canon_of(r.tx))),
        r.public_key@ == b64_of(pub_of(signer.key_bytes())),
{
    let tx = TxFields {
        from: from.to_owned(),
        to: contract.to_owned(),
        amount: "0".to_owned(),
        nonce: fetched_nonce + 1,
        ou: "1".to_owned(),
        timestamp,
    };
    let signature = signer.sign_tx(&tx);
    let public_key = signer.public_key_b64();
    SignedTx { tx, signature, public_key }
}

/// Nonce monotonicity: a transaction built after the account's nonce
/// has advanced carries a strictly larger nonce than one built before.
pub proof fn lemma_nonce_monotonic(n1: nat, n2: nat)
    requires
        n1 < n2,
    ensures
        next_nonce(n1) < next_nonce(n2),
{
}

} // verus!

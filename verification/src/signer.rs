//! Canonical transaction encoding and signing.
//!
//! A transaction is signed over one canonical byte string: the six
//! pre-signature fields in a fixed order and a fixed textual encoding.
//! The encoding is proved collision-free for well-formed field values,
//! so any single-field change invalidates the signature.

use vstd::prelude::*;
use crate::text::{dec_of, is_dec_digit, lemma_dec_of_digits, lemma_dec_of_injective};
use vstd::string::StringExecFns;

verus! {

/// The signature that the ed25519 scheme produces for a key and a
/// message; deterministic, so a function of the two alone.
pub uninterp spec fn sig_of(key: Seq<u8>, msg: Seq<char>) -> Seq<u8>;

/// The verification key that belongs to an ed25519 secret key.
pub uninterp spec fn pub_of(key: Seq<u8>) -> Seq<u8>;

/// The standard, padded base64 rendering of a byte string.
pub uninterp spec fn b64_of(bytes: Seq<u8>) -> Seq<char>;

/// Whether a field value is free of double quotes, so that it cannot
/// escape its quoted position in the canonical encoding.
pub open spec fn quote_free(s: Seq<char>) -> bool {
    forall|i: int| 0 <= i < s.len() ==> #[trigger] s[i] != '"'
}

/// Whether `s` is timestamp text: decimal digits and dots only.
pub open spec fn timestamp_text(s: Seq<char>) -> bool {
    forall|i: int| 0 <= i < s.len() ==> is_dec_digit(#[trigger] s[i]) || s[i] == '.'
}

/// The canonical encoding of the six pre-signature fields, in the
/// fixed order `from, to, amount, nonce, ou, timestamp`; `from`, `to`,
/// `amount` and `ou` are quoted, `nonce` and `timestamp` are embedded
/// bare.
pub open spec fn canonical_fields(
    from: Seq<char>,
    to: Seq<char>,
    amount: Seq<char>,
    nonce: nat,
    ou: Seq<char>,
    timestamp: Seq<char>,
) -> Seq<char> {
    "{\"from\":\""@ + (from + ("\",\"to_\":\""@ + (to + ("\",\"amount\":\""@ + (amount
        + ("\",\"nonce\":"@ + (dec_of(nonce) + (",\"ou\":\""@ + (ou + ("\",\"timestamp\":"@
        + (timestamp + "}"@)))))))))))
}

/// The six fields of a transaction that the signature covers.
pub struct TxFields {
    pub from: String,
    pub to: String,
    pub amount: String,
    pub nonce: u64,
    pub ou: String,
    pub timestamp: String,
}

/// The canonical encoding of a transaction's six fields.
pub open spec fn canon_of(tx: TxFields) -> Seq<char> {
    canonical_fields(tx.from@, tx.to@, tx.amount@, tx.nonce as nat, tx.ou@, tx.timestamp@)
}

impl TxFields {
    /// Serializes the six fields into the canonical byte string that
    /// is signed and that the remote side verifies against.
    pub fn canonical_blob(&self) -> (r: String)
        ensures
            r@ == canon_of(*self),
    {
        let nd = crate::text::u64_to_string(self.nonce);
        let mut s = String::new();
        s.append("{\"from\":\"");
        s.append(self.from.as_str());
        s.append("\",\"to_\":\"");
        s.append(self.to.as_str());
        s.append("\",\"amount\":\"");
        s.append(self.amount.as_str());
        s.append("\",\"nonce\":");
        s.append(nd.as_str());
        s.append(",\"ou\":\"");
        s.append(self.ou.as_str());
        s.append("\",\"timestamp\":");
        s.append(self.timestamp.as_str());
        s.append("}");
        proof {
            assert(s@ =~= canon_of(*self));
        }
        s
    }
}

/// Whether a transaction's field values are well formed for the
/// canonical encoding: the quoted fields hold no double quote, and the
/// timestamp is digits-and-dots text.
pub open spec fn tx_wf(tx: TxFields) -> bool {
    &&& quote_free(tx.from@)
    &&& quote_free(tx.to@)
    &&& quote_free(tx.amount@)
    &&& quote_free(tx.ou@)
    &&& timestamp_text(tx.timestamp@)
}

/// Two well-formed transactions with the same canonical encoding agree
/// on all six fields: the signed byte string determines the
/// transaction.
pub proof fn lemma_canon_of_injective(t1: TxFields, t2: TxFields)
    requires
        tx_wf(t1),
        tx_wf(t2),
        canon_of(t1) == canon_of(t2),
    ensures
        t1.from@ == t2.from@,
        t1.to@ == t2.to@,
        t1.amount@ == t2.amount@,
        t1.nonce == t2.nonce,
        t1.ou@ == t2.ou@,
        t1.timestamp@ == t2.timestamp@,
{
    lemma_canonical_injective(
        t1.from@, t1.to@, t1.amount@, t1.nonce as nat, t1.ou@, t1.timestamp@,
        t2.from@, t2.to@, t2.amount@, t2.nonce as nat, t2.ou@, t2.timestamp@,
    );
}

/// Signing is deterministic: the signature depends on the key and the
/// six field values alone, so transactions that agree on every field
/// are signed identically.
pub proof fn lemma_sign_deterministic(k: Seq<u8>, t1: TxFields, t2: TxFields)
    requires
        t1.from@ == t2.from@,
        t1.to@ == t2.to@,
        t1.amount@ == t2.amount@,
        t1.nonce == t2.nonce,
        t1.ou@ == t2.ou@,
        t1.timestamp@ == t2.timestamp@,
    ensures
        sig_of(k, canon_of(t1)) == sig_of(k, canon_of(t2)),
{
}

/// Relies on ed25519-dalek's `SigningKey::from_bytes` and the
/// `Signer::sign` it implements: signing is deterministic (RFC 8032),
/// so the 64-byte signature is a function of the 32 key bytes and the
/// message bytes alone.
#[verifier::external_body]
fn ed25519_sign(key: &Vec<u8>, msg: &str) -> (r: Vec<u8>)
    requires
        key@.len() == 32,
    ensures
        r@ == sig_of(key@, msg@),
        r@.len() == 64,
{
    let sk = ed25519_dalek::SigningKey::from_bytes(key.as_slice().try_into().unwrap());
    let sig = ed25519_dalek::Signer::sign(&sk, msg.as_bytes());
    sig.to_bytes().to_vec()
}

/// Relies on ed25519-dalek's `SigningKey::verifying_key`: the 32-byte
/// verification key is derived from the secret key alone.
#[verifier::external_body]
fn ed25519_public(key: &Vec<u8>) -> (r: Vec<u8>)
    requires
        key@.len() == 32,
    ensures
        r@ == pub_of(key@),
        r@.len() == 32,
{
    let sk = ed25519_dalek::SigningKey::from_bytes(key.as_slice().try_into().unwrap());
    sk.verifying_key().to_bytes().to_vec()
}

/// Relies on base64's `general_purpose::STANDARD` engine: standard
/// alphabet with padding, a function of the input bytes alone, four
/// output characters for every three-byte block begun.
#[verifier::external_body]
fn b64_encode(bytes: &Vec<u8>) -> (r: String)
    ensures
        r@ == b64_of(bytes@),
        r@.len() == 4 * ((bytes@.len() + 2) / 3),
{
    base64::Engine::encode(&base64::engine::general_purpose::STANDARD, bytes.as_slice())
}

/// Holds the ed25519 key material for the process lifetime and signs
/// canonical transaction encodings with it.
pub struct Signer {
    key: Vec<u8>,
}

impl Signer {
    /// Well-formed: exactly 32 bytes of key material.
    pub closed spec fn wf(&self) -> bool {
        self.key@.len() == 32
    }

    /// The key bytes this signer holds.
    pub closed spec fn key_bytes(&self) -> Seq<u8> {
        self.key@
    }

    /// Accepts exactly 32 bytes of key material; anything else is the
    /// fatal startup-time key-corruption case.
    pub fn new(key: Vec<u8>) -> (r: Option<Signer>)
        ensures
            r is Some <==> key@.len() == 32,
            r matches Some(s) ==> s.wf() && s.key_bytes() == key@,
    {
        if key.len() == 32 {
            Some(Signer { key })
        } else {
            None
        }
    }

    /// Signs the canonical encoding of the six transaction fields and
    /// returns the signature in base64.
    pub fn sign_tx(&self, tx: &TxFields) -> (r: String)
        requires
            self.wf(),
        ensures
            r@ == b64_of(sig_of(self.key_bytes(), canon_of(*tx))),
    {
        let blob = tx.canonical_blob();
        let sig = ed25519_sign(&self.key, blob.as_str());
        b64_encode(&sig)
    }

    /// The base64 rendering of the verification key, as transmitted
    /// beside a submitted transaction.
    pub fn public_key_b64(&self) -> (r: String)
        requires
            self.wf(),
        ensures
            r@ == b64_of(pub_of(self.key_bytes())),
    {
        let pk = ed25519_public(&self.key);
        b64_encode(&pk)
    }
}

/// Equal concatenations with the same prefix have equal remainders.
proof fn lemma_concat_peel(p: Seq<char>, r1: Seq<char>, r2: Seq<char>)
    requires
        p + r1 == p + r2,
    ensures
        r1 == r2,
{
    broadcast use vstd::seq::group_seq_axioms;

    assert((p + r1).len() == p.len() + r1.len());
    assert((p + r2).len() == p.len() + r2.len());
    assert((p + r1).len() == (p + r2).len());
    assert(r1.len() == r2.len());
    assert forall|i: int| 0 <= i < r1.len() implies r1[i] == r2[i] by {
        assert((p + r1)[p.len() + i] == r1[i]);
        assert((p + r2)[p.len() + i] == r2[i]);
    }
    assert(r1 =~= r2);
}

/// If two equal concatenations each split at the first occurrence of a
/// marker character, the split is at the same place on both sides.
proof fn lemma_split_on_char(a1: Seq<char>, t1: Seq<char>, a2: Seq<char>, t2: Seq<char>, c: char)
    requires
        a1 + t1 == a2 + t2,
        forall|i: int| 0 <= i < a1.len() ==> #[trigger] a1[i] != c,
        forall|i: int| 0 <= i < a2.len() ==> #[trigger] a2[i] != c,
        t1.len() > 0,
        t2.len() > 0,
        t1[0] == c,
        t2[0] == c,
    ensures
        a1 == a2,
        t1 == t2,
{
    if a1.len() < a2.len() {
        assert((a1 + t1)[a1.len() as int] == t1[0]);
        assert((a2 + t2)[a1.len() as int] == a2[a1.len() as int]);
        assert(false);
    }
    if a2.len() < a1.len() {
        assert((a2 + t2)[a2.len() as int] == t2[0]);
        assert((a1 + t1)[a2.len() as int] == a1[a2.len() as int]);
        assert(false);
    }
    assert forall|i: int| 0 <= i < a1.len() implies a1[i] == a2[i] by {
        assert((a1 + t1)[i] == a1[i]);
        assert((a2 + t2)[i] == a2[i]);
    }
    assert(a1 =~= a2);
    lemma_concat_peel(a1, t1, t2);
}

/// The canonical encoding has no collisions: two well-formed six-field
/// transactions with the same encoding agree on every field, so any
/// single-field change yields a different signed byte string.
pub proof fn lemma_canonical_injective(
    f1: Seq<char>, t1: Seq<char>, a1: Seq<char>, n1: nat, o1: Seq<char>, s1: Seq<char>,
    f2: Seq<char>, t2: Seq<char>, a2: Seq<char>, n2: nat, o2: Seq<char>, s2: Seq<char>,
)
    requires
        quote_free(f1), quote_free(t1), quote_free(a1), quote_free(o1),
        quote_free(f2), quote_free(t2), quote_free(a2), quote_free(o2),
        timestamp_text(s1), timestamp_text(s2),
        canonical_fields(f1, t1, a1, n1, o1, s1) == canonical_fields(f2, t2, a2, n2, o2, s2),
    ensures
        f1 == f2, t1 == t2, a1 == a2, n1 == n2, o1 == o2, s1 == s2,
{
    reveal_strlit("{\"from\":\"");
    reveal_strlit("\",\"to_\":\"");
    reveal_strlit("\",\"amount\":\"");
    reveal_strlit("\",\"nonce\":");
    reveal_strlit(",\"ou\":\"");
    reveal_strlit("\",\"timestamp\":");
    reveal_strlit("}");
    let l2 = "\",\"to_\":\""@;
    let l3 = "\",\"amount\":\""@;
    let l4 = "\",\"nonce\":"@;
    let l5 = ",\"ou\":\""@;
    let l6 = "\",\"timestamp\":"@;
    let l7 = "}"@;
    let nd1 = dec_of(n1);
    let nd2 = dec_of(n2);
    lemma_dec_of_digits(n1);
    lemma_dec_of_digits(n2);

    let x1 = l2 + (t1 + (l3 + (a1 + (l4 + (nd1 + (l5 + (o1 + (l6 + (s1 + l7)))))))));
    let x2 = l2 + (t2 + (l3 + (a2 + (l4 + (nd2 + (l5 + (o2 + (l6 + (s2 + l7)))))))));
    lemma_concat_peel("{\"from\":\""@, f1 + x1, f2 + x2);
    assert(x1[0] == '"');
    assert(x2[0] == '"');
    lemma_split_on_char(f1, x1, f2, x2, '"');

    let y1 = l3 + (a1 + (l4 + (nd1 + (l5 + (o1 + (l6 + (s1 + l7)))))));
    let y2 = l3 + (a2 + (l4 + (nd2 + (l5 + (o2 + (l6 + (s2 + l7)))))));
    lemma_concat_peel(l2, t1 + y1, t2 + y2);
    assert(y1[0] == '"');
    assert(y2[0] == '"');
    lemma_split_on_char(t1, y1, t2, y2, '"');

    let z1 = l4 + (nd1 + (l5 + (o1 + (l6 + (s1 + l7)))));
    let z2 = l4 + (nd2 + (l5 + (o2 + (l6 + (s2 + l7)))));
    lemma_concat_peel(l3, a1 + z1, a2 + z2);
    assert(z1[0] == '"');
    assert(z2[0] == '"');
    lemma_split_on_char(a1, z1, a2, z2, '"');

    let w1 = l5 + (o1 + (l6 + (s1 + l7)));
    let w2 = l5 + (o2 + (l6 + (s2 + l7)));
    lemma_concat_peel(l4, nd1 + w1, nd2 + w2);
    assert(w1[0] == ',');
    assert(w2[0] == ',');
    assert(forall|i: int| 0 <= i < nd1.len() ==> #[trigger] nd1[i] != ',') by {
        assert(forall|i: int| 0 <= i < nd1.len() ==> is_dec_digit(#[trigger] nd1[i]));
    }
    assert(forall|i: int| 0 <= i < nd2.len() ==> #[trigger] nd2[i] != ',') by {
        assert(forall|i: int| 0 <= i < nd2.len() ==> is_dec_digit(#[trigger] nd2[i]));
    }
    lemma_split_on_char(nd1, w1, nd2, w2, ',');
    lemma_dec_of_injective(n1, n2);

    let v1 = l6 + (s1 + l7);
    let v2 = l6 + (s2 + l7);
    lemma_concat_peel(l5, o1 + v1, o2 + v2);
    assert(v1[0] == '"');
    assert(v2[0] == '"');
    lemma_split_on_char(o1, v1, o2, v2, '"');

    lemma_concat_peel(l6, s1 + l7, s2 + l7);
    assert(l7[0] == '}');
    assert(forall|i: int| 0 <= i < s1.len() ==> #[trigger] s1[i] != '}');
    assert(forall|i: int| 0 <= i < s2.len() ==> #[trigger] s2[i] != '}');
    lemma_split_on_char(s1, l7, s2, l7, '}');
}

} // verus!

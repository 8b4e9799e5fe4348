//! Transactions posted to `/broadcast_tx_commit`: the body is a raw
//! transaction in protobuf, which is decoded before it is broadcast.

use vstd::prelude::*;

verus! {

/// The three fields of a raw transaction.
#[derive(Clone, Debug)]
pub struct TxRawParts {
    /// The protobuf serialization of the transaction body.
    pub body_bytes: Vec<u8>,
    /// The protobuf serialization of the signers' information.
    pub auth_info_bytes: Vec<u8>,
    /// One signature per signer, in order.
    pub signatures: Vec<Vec<u8>>,
}

impl View for TxRawParts {
    type V = (Seq<u8>, Seq<u8>, Seq<Seq<u8>>);

    open spec fn view(&self) -> (Seq<u8>, Seq<u8>, Seq<Seq<u8>>) {
        (self.body_bytes@, self.auth_info_bytes@, self.signatures.deep_view())
    }
}

/// What decoding `bytes` as a protobuf `TxRaw` yields: `None` when the
/// bytes are no such message, else its body bytes, auth info bytes and
/// signatures. Protobuf decoding takes pages to state; this names it.
pub uninterp spec fn tx_raw_of(bytes: Seq<u8>) -> Option<(Seq<u8>, Seq<u8>, Seq<Seq<u8>>)>;

/// The spec view of optional transaction parts.
pub open spec fn parts_view(parts: Option<TxRawParts>) -> Option<(Seq<u8>, Seq<u8>, Seq<Seq<u8>>)> {
    match parts {
        Some(p) => Some(p@),
        None => None,
    }
}

/// Calls `cosmrs::tx::Raw::from_bytes` (a protobuf decode of `TxRaw`) on
/// `bytes` and moves the decoded message's fields out. The contract claims
/// only that the result is the one `tx_raw_of` names for the bytes.
#[verifier::external_body]
fn decode_tx_raw(bytes: &[u8]) -> (res: Option<TxRawParts>)
    ensures
        parts_view(res) == tx_raw_of(bytes@),
{
    match cosmrs::tx::Raw::from_bytes(bytes) {
        Ok(raw) => {
            let tx: cosmrs::proto::cosmos::tx::v1beta1::TxRaw = raw.into();
            Some(TxRawParts {
                body_bytes: tx.body_bytes,
                auth_info_bytes: tx.auth_info_bytes,
                signatures: tx.signatures,
            })
        },
        Err(_) => None,
    }
}

/// The transaction that a `/broadcast_tx_commit` body carries, or `None`
/// when the body is no raw transaction.
pub fn transaction_of_body(body: &[u8]) -> (tx: Option<TxRawParts>)
    ensures
        parts_view(tx) == tx_raw_of(body@),
{
    decode_tx_raw(body)
}

/// The decoded parts read back as what their fields hold, and an absent
/// transaction as none.
pub proof fn lemma_parts_view_keeps_every_field(parts: Option<TxRawParts>)
    ensures
        parts is None ==> parts_view(parts) is None,
        parts matches Some(p) ==> parts_view(parts) == Some((
            p.body_bytes@,
            p.auth_info_bytes@,
            p.signatures@.map_values(|s: Vec<u8>| s@),
        )),
{
    if let Some(p) = parts {
        assert forall|i: int| 0 <= i < p.signatures@.len() implies (#[trigger] p.signatures@[i]).deep_view() == p.signatures@[i]@ by {
            assert(p.signatures@[i].deep_view() =~= p.signatures@[i]@);
        }
        assert(p.signatures.deep_view() =~= p.signatures@.map_values(|s: Vec<u8>| s@));
    }
}

} // verus!

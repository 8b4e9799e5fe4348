use cosmin::tx::transaction_of_body;
use cosmrs::proto::cosmos::tx::v1beta1::TxRaw;
use cosmrs::tx::Raw;

#[test]
fn raw_transaction_is_decoded() {
    let tx = TxRaw {
        body_bytes: vec![1, 2, 3],
        auth_info_bytes: vec![4, 5],
        signatures: vec![vec![6], vec![7, 8, 9]],
    };
    let bytes = Raw::from(tx).to_bytes().unwrap();
    let parts = transaction_of_body(&bytes).unwrap();
    assert_eq!(parts.body_bytes, vec![1, 2, 3]);
    assert_eq!(parts.auth_info_bytes, vec![4, 5]);
    assert_eq!(parts.signatures, vec![vec![6], vec![7, 8, 9]]);
}

#[test]
fn empty_body_is_the_empty_transaction() {
    let parts = transaction_of_body(&[]).unwrap();
    assert!(parts.body_bytes.is_empty());
    assert!(parts.auth_info_bytes.is_empty());
    assert!(parts.signatures.is_empty());
}

#[test]
fn malformed_body_is_no_transaction() {
    assert!(transaction_of_body(&[0xff, 0xff, 0xff]).is_none());
    assert!(transaction_of_body(b"{\"jsonrpc\":\"2.0\"}").is_none());
}

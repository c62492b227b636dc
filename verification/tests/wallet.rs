use openlv::error::OpenLvError;
use alloy::eips::eip2930::{AccessList, AccessListItem};
use alloy::eips::eip4844::BlobTransactionSidecar;
use alloy::eips::eip7702::{Authorization, SignedAuthorization};
use alloy::primitives::{Bytes, TxKind, U256};
use alloy::rpc::types::TransactionRequest;
use openlv::wallet::{signed, Address, SignError, Wallet, WalletError};
use serde_json::Value;

fn value(text: &str) -> Value {
    serde_json::from_str(text).unwrap()
}

fn first() -> Address {
    Address {
        bytes: [
            0xd8, 0xda, 0x6b, 0xf2, 0x69, 0x64, 0xaf, 0x9d, 0x7e, 0xed, 0x9e, 0x03, 0xe5, 0x34,
            0x15, 0xd3, 0x7a, 0xa9, 0x60, 0x45,
        ],
    }
}

fn ones() -> Address {
    Address { bytes: [0x11; 20] }
}

fn accounts() -> Value {
    value(
        r#"["0xd8dA6BF26964aF9D7eEd9e03E53415D37aA96045",
            "0x1111111111111111111111111111111111111111"]"#,
    )
}

#[test]
fn accounts_are_asked_for_first() {
    let request = Wallet::accounts_request();
    assert_eq!(
        request.to_value(),
        value(r#"{"jsonrpc":"2.0","method":"eth_requestAccounts","params":null,"id":1}"#)
    );
}

#[test]
fn wallet_has_the_accounts_of_the_reply() {
    let wallet = Wallet::new(Ok(accounts())).unwrap();
    assert_eq!(wallet.default_signer_address(), first());
    assert_eq!(wallet.signer_addresses(), vec![first(), ones()]);
    assert!(wallet.has_signer_for(&first()));
    assert!(wallet.has_signer_for(&ones()));
    assert!(!wallet.has_signer_for(&Address { bytes: [0x22; 20] }));
}

#[test]
fn replies_without_accounts_are_refused() {
    assert!(matches!(Wallet::new(Ok(value("[]"))), Err(WalletError::NoAddresses)));
    assert!(matches!(Wallet::of_accounts(vec![]), Err(WalletError::NoAddresses)));
    assert!(matches!(Wallet::new(Ok(value(r#"["0x12"]"#))), Err(WalletError::Serialization(_))));
    assert!(matches!(Wallet::new(Ok(Value::Null)), Err(WalletError::Serialization(_))));
    let failed = Wallet::new(Err(OpenLvError::RequestTimeout("late".to_string())));
    assert!(matches!(
        failed,
        Err(WalletError::OpenLV(OpenLvError::RequestTimeout(text))) if text == "late"
    ));
}

#[test]
fn transactions_are_numbered_and_name_their_sender() {
    let mut wallet = Wallet::new(Ok(accounts())).unwrap();
    let request = wallet.sign_transaction_from(first(), TransactionRequest::default()).unwrap();
    assert_eq!(
        request,
        value(
            r#"{"jsonrpc":"2.0","method":"eth_signTransaction","id":2,
                "params":[{"from":"0xd8da6bf26964af9d7eed9e03e53415d37aa96045"}]}"#
        )
    );

    let stranger = Address { bytes: [0x22; 20] };
    let refused = wallet.sign_transaction_from(stranger, TransactionRequest::default());
    assert!(matches!(refused, Err(SignError::NoSigner(address)) if address == stranger));

    let mut tx = TransactionRequest::default();
    tx.nonce = Some(7);
    tx.from = Some(alloy::primitives::Address::from(stranger.bytes));
    let request = wallet.sign_transaction_from(ones(), tx).unwrap();
    assert_eq!(
        request,
        value(
            r#"{"jsonrpc":"2.0","method":"eth_signTransaction","id":3,
                "params":[{"from":"0x1111111111111111111111111111111111111111","nonce":"0x7"}]}"#
        )
    );
}

#[test]
fn every_part_of_a_transaction_is_written() {
    let authorization = Authorization {
        chain_id: U256::from(1),
        address: alloy::primitives::Address::from(ones().bytes),
        nonce: 4,
    };
    let mut tx = TransactionRequest::default();
    tx.to = Some(TxKind::Create);
    tx.gas_price = Some(u128::MAX);
    tx.gas = Some(21_000);
    tx.value = Some(U256::MAX);
    tx.input.data = Some(Bytes::from(vec![0xab; 300]));
    tx.chain_id = Some(1);
    tx.transaction_type = Some(3);
    tx.access_list = Some(AccessList(vec![AccessListItem::default()]));
    tx.blob_versioned_hashes = Some(vec![Default::default()]);
    tx.sidecar = Some(BlobTransactionSidecar::default().into());
    tx.authorization_list = Some(vec![SignedAuthorization::new_unchecked(
        authorization,
        1,
        U256::from(5),
        U256::from(6),
    )]);
    let mut wallet = Wallet::new(Ok(accounts())).unwrap();
    let request = wallet.sign_transaction_from(ones(), tx).unwrap();
    let written = &request["params"][0];
    assert_eq!(written["from"], "0x1111111111111111111111111111111111111111");
    assert_eq!(written["to"], Value::Null);
    assert_eq!(written["gas"], "0x5208");
    assert_eq!(written["type"], "0x3");
    assert_eq!(written["blobs"], value("[]"));
    assert_eq!(written["authorizationList"][0]["nonce"], "0x4");
    assert_eq!(written["data"].as_str().unwrap().len(), 602);
}

#[test]
fn numbers_are_used_once() {
    let mut wallet = Wallet::new(Ok(accounts())).unwrap();
    let stranger = Address { bytes: [0x22; 20] };
    let mut numbers = Vec::new();
    for sender in [first(), stranger, ones(), first(), stranger, first()] {
        if let Ok(request) = wallet.sign_transaction_from(sender, TransactionRequest::default()) {
            numbers.push(request["id"].as_u64().unwrap());
        }
    }
    assert_eq!(numbers, vec![2, 3, 4, 5]);
}

#[test]
fn requests_that_cannot_be_written_take_a_number() {
    let broken = || serde_json::from_str::<Value>("{").unwrap_err();
    let mut wallet = Wallet::new(Ok(accounts())).unwrap();
    let failed = wallet.request_signature(Err(broken()), Ok(Value::Null));
    assert!(matches!(failed, Err(SignError::Serialize(text)) if text == broken().to_string()));
    let failed = wallet.request_signature(Ok(Value::Null), Err(broken()));
    assert!(matches!(failed, Err(SignError::Serialize(text)) if text == broken().to_string()));
    let request = wallet.request_signature(Ok(value(r#"{"from":"a","to":"b"}"#)), Ok(value("1")));
    assert_eq!(
        request.unwrap(),
        value(
            r#"{"jsonrpc":"2.0","method":"eth_signTransaction","id":4,
                "params":[{"from":1,"to":"b"}]}"#
        )
    );
}

#[test]
fn each_stage_of_signing_fails_in_its_way() {
    let text = || "x".to_string();
    assert_eq!(signed(Ok(Ok(Ok(7)))).unwrap(), 7);
    assert!(matches!(signed::<u8>(Err(text())), Err(SignError::Send(t)) if t == "x"));
    assert!(matches!(signed::<u8>(Ok(Err(text()))), Err(SignError::Deserialize(t)) if t == "x"));
    assert!(matches!(signed::<u8>(Ok(Ok(Err(text())))), Err(SignError::Decode(t)) if t == "x"));
}

#[test]
fn sign_errors_in_words() {
    assert_eq!(
        SignError::NoSigner(first()).message(),
        "no signer for address 0xd8dA6BF26964aF9D7eEd9e03E53415D37aA96045"
    );
    assert_eq!(
        SignError::Serialize("x".to_string()).message(),
        "failed to serialize request to OpenLV: x"
    );
    assert_eq!(
        SignError::Send("x".to_string()).message(),
        "failed to send request to OpenLV: x"
    );
    assert_eq!(
        SignError::Deserialize("x".to_string()).message(),
        "failed to deserialize response from OpenLV: x"
    );
    assert_eq!(SignError::Decode("x".to_string()).message(), "failed to decode raw tx: x");
}

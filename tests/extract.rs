use std::str::FromStr;

use kromer2_api::model::internal::{
    AddressTransactionsRes, ExtractJson, GetAddressRes, ListAddressesRes,
};
use kromer2_api::model::krist::{Address, Timestamp, Transaction, TransactionType};
use kromer2_api::KromerError;
use rust_decimal::Decimal;

fn dec(s: &str) -> Decimal {
    Decimal::from_str(s).unwrap()
}

fn sample_address() -> Address {
    Address {
        address: "a1".to_string(),
        balance: dec("10.5"),
        total_in: dec("20"),
        total_out: dec("9.5"),
        first_seen: Timestamp { secs: 1_704_067_200, nanos: 0 },
        names: None,
    }
}

fn transaction(id: u32, to: &str, value: &str, kind: TransactionType) -> Transaction {
    Transaction {
        id,
        from: Some("serverwelf".to_string()),
        to: to.to_string(),
        value: dec(value),
        time: Timestamp { secs: 1_754_103_599, nanos: 823_081_000 },
        name: None,
        metadata: Some(String::new()),
        sent_metaname: None,
        sent_name: None,
        transaction_type: kind,
    }
}

#[test]
fn address_success_is_extracted() {
    let a = GetAddressRes::Address { address: sample_address() }.extract().unwrap();
    assert_eq!(a.address, "a1");
    assert_eq!(a.balance, dec("10.5"));
    assert_eq!(a.total_in, dec("20"));
    assert_eq!(a.total_out, dec("9.5"));
    assert_eq!(a.first_seen, Timestamp { secs: 1_704_067_200, nanos: 0 });
    assert_eq!(a.names, None);
}

#[test]
fn address_error_is_server_reported() {
    let r = GetAddressRes::KristError {
        error: "address_not_found".to_string(),
        message: "No such address".to_string(),
    }
    .extract();
    match r {
        Err(KromerError::Krist { error, message }) => {
            assert_eq!(error, "address_not_found");
            assert_eq!(message, "No such address");
        }
        other => panic!("unexpected {other:?}"),
    }
}

#[test]
fn address_list_is_extracted_in_order() {
    let mut second = sample_address();
    second.address = "a2".to_string();
    second.names = Some(3);
    let list = ListAddressesRes::Addresses { addresses: vec![sample_address(), second] }
        .extract()
        .unwrap();
    assert_eq!(list.len(), 2);
    assert_eq!(list[0].address, "a1");
    assert_eq!(list[1].address, "a2");
    assert_eq!(list[1].names, Some(3));
}

#[test]
fn empty_address_list_is_extracted() {
    let list = ListAddressesRes::Addresses { addresses: Vec::new() }.extract().unwrap();
    assert!(list.is_empty());
}

#[test]
fn address_list_error_is_server_reported() {
    let r = ListAddressesRes::KristError {
        error: "invalid_parameter".to_string(),
        message: "limit".to_string(),
    }
    .extract();
    assert!(matches!(r, Err(KromerError::Krist { ref error, .. }) if error == "invalid_parameter"));
}

#[test]
fn transactions_keep_types_and_order() {
    let kinds = [
        TransactionType::Mined,
        TransactionType::Unknown,
        TransactionType::NamePurchase,
        TransactionType::NameARecord,
        TransactionType::Transfer,
    ];
    let ids = [1413, 1412, 1410, 1409, 1408];
    let txs: Vec<Transaction> =
        ids.iter().zip(kinds).map(|(id, k)| transaction(*id, "ks0d5iqb6p", "1.5", k)).collect();
    let out = AddressTransactionsRes::Transaction { transactions: txs }.extract().unwrap();
    assert_eq!(out.len(), 5);
    for (i, t) in out.iter().enumerate() {
        assert_eq!(t.id, ids[i]);
        assert_eq!(t.transaction_type, kinds[i]);
        assert_eq!(t.value, dec("1.5"));
    }
}

#[test]
fn transactions_error_is_server_reported() {
    let r = AddressTransactionsRes::KristError {
        error: "address_not_found".to_string(),
        message: "No such address".to_string(),
    }
    .extract();
    assert!(matches!(r, Err(KromerError::Krist { ref message, .. }) if message == "No such address"));
}

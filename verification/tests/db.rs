use router::db::{
    ConnectorResponse, ConnectorResponseInterface, ConnectorResponseNew, ConnectorResponseUpdate,
    MerchantStorageScheme, MockDb,
};
use router::errors::StorageError;

fn new_record(payment_id: &str, txn_id: &str) -> ConnectorResponseNew {
    ConnectorResponseNew {
        payment_id: payment_id.to_string(),
        merchant_id: "merchant_1".to_string(),
        txn_id: txn_id.to_string(),
        created_at: 1_700_000_000,
        modified_at: 1_700_000_000,
        connector_name: "adyen".to_string(),
        connector_transaction_id: None,
        authentication_data: None,
        encoded_data: None,
    }
}

#[test]
fn insert_gives_each_record_the_next_id() {
    let mut db = MockDb::new();
    let first = db
        .insert_connector_response(new_record("pay_1", "txn_1"), MerchantStorageScheme::PostgresOnly)
        .unwrap();
    let second = db
        .insert_connector_response(new_record("pay_2", "txn_2"), MerchantStorageScheme::PostgresOnly)
        .unwrap();
    assert_eq!(first.id, 0);
    assert_eq!(second.id, 1);
    assert_eq!(first.payment_id, "pay_1");
    assert_eq!(first.connector_name, "adyen");
    assert_eq!(db.connector_response, vec![first, second]);
}

#[test]
fn find_gives_the_first_record_about_a_transaction() {
    let mut db = MockDb::new();
    db.insert_connector_response(new_record("pay_1", "txn_1"), MerchantStorageScheme::PostgresOnly)
        .unwrap();
    db.insert_connector_response(new_record("pay_2", "txn_2"), MerchantStorageScheme::PostgresOnly)
        .unwrap();
    db.insert_connector_response(new_record("pay_2", "txn_2"), MerchantStorageScheme::PostgresOnly)
        .unwrap();
    let found = db
        .find_connector_response_by_payment_id_merchant_id_txn_id(
            "pay_2",
            "merchant_1",
            "txn_2",
            MerchantStorageScheme::PostgresOnly,
        )
        .unwrap();
    assert_eq!(found.id, 1);
    assert_eq!(
        db.find_connector_response_by_payment_id_merchant_id_txn_id(
            "pay_2",
            "merchant_2",
            "txn_2",
            MerchantStorageScheme::PostgresOnly,
        ),
        Err(StorageError::ValueNotFound)
    );
}

#[test]
fn update_changes_what_the_connector_answered_and_nothing_else() {
    let mut db = MockDb::new();
    db.insert_connector_response(new_record("pay_1", "txn_1"), MerchantStorageScheme::PostgresOnly)
        .unwrap();
    let stored = db
        .insert_connector_response(new_record("pay_2", "txn_2"), MerchantStorageScheme::PostgresOnly)
        .unwrap();
    let changed = db
        .update_connector_response(
            stored,
            ConnectorResponseUpdate::ResponseUpdate {
                connector_transaction_id: Some("psp_9".to_string()),
                authentication_data: Some("{\"k\":1}".to_string()),
                encoded_data: Some("abc".to_string()),
                modified_at: 1_700_000_500,
            },
            MerchantStorageScheme::PostgresOnly,
        )
        .unwrap();
    let expected = ConnectorResponse {
        id: 1,
        payment_id: "pay_2".to_string(),
        merchant_id: "merchant_1".to_string(),
        txn_id: "txn_2".to_string(),
        created_at: 1_700_000_000,
        modified_at: 1_700_000_500,
        connector_name: "adyen".to_string(),
        connector_transaction_id: Some("psp_9".to_string()),
        authentication_data: Some("{\"k\":1}".to_string()),
        encoded_data: Some("abc".to_string()),
    };
    assert_eq!(changed, expected);
    assert_eq!(db.connector_response[1], expected);
    assert_eq!(db.connector_response[0].connector_transaction_id, None);
    assert_eq!(db.connector_response.len(), 2);
}

#[test]
fn update_of_an_unknown_record_finds_nothing() {
    let mut db = MockDb::new();
    let stored = db
        .insert_connector_response(new_record("pay_1", "txn_1"), MerchantStorageScheme::PostgresOnly)
        .unwrap();
    let stranger = ConnectorResponse { id: 41, ..stored.clone() };
    let result = db.update_connector_response(
        stranger,
        ConnectorResponseUpdate::ResponseUpdate {
            connector_transaction_id: None,
            authentication_data: None,
            encoded_data: None,
            modified_at: 1,
        },
        MerchantStorageScheme::PostgresOnly,
    );
    assert_eq!(result, Err(StorageError::ValueNotFound));
    assert_eq!(db.connector_response, vec![stored]);
}

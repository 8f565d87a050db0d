//! The log of connector responses, and a store that keeps it in memory.

use crate::errors::StorageError;
use crate::types::clone_text;
use vstd::prelude::*;

verus! {

/// How a merchant's records are kept.
#[derive(Clone, Copy, Debug, PartialEq, Eq, Structural)]
pub enum MerchantStorageScheme {
    PostgresOnly,
    RedisKv,
}

/// A connector response that is not logged yet.
#[derive(Debug, PartialEq, Eq)]
pub struct ConnectorResponseNew {
    pub payment_id: String,
    pub merchant_id: String,
    pub txn_id: String,
    /// Seconds since the epoch.
    pub created_at: i64,
    /// Seconds since the epoch.
    pub modified_at: i64,
    pub connector_name: String,
    pub connector_transaction_id: Option<String>,
    /// What the connector sent to authenticate the payment, as JSON text.
    pub authentication_data: Option<String>,
    pub encoded_data: Option<String>,
}

/// A logged connector response.
#[derive(Debug, PartialEq, Eq)]
pub struct ConnectorResponse {
    pub id: i32,
    pub payment_id: String,
    pub merchant_id: String,
    pub txn_id: String,
    pub created_at: i64,
    pub modified_at: i64,
    pub connector_name: String,
    pub connector_transaction_id: Option<String>,
    pub authentication_data: Option<String>,
    pub encoded_data: Option<String>,
}

impl Clone for ConnectorResponse {
    fn clone(&self) -> (r: Self)
        ensures
            r == *self,
    {
        ConnectorResponse {
            id: self.id,
            payment_id: self.payment_id.clone(),
            merchant_id: self.merchant_id.clone(),
            txn_id: self.txn_id.clone(),
            created_at: self.created_at,
            modified_at: self.modified_at,
            connector_name: self.connector_name.clone(),
            connector_transaction_id: clone_text(&self.connector_transaction_id),
            authentication_data: clone_text(&self.authentication_data),
            encoded_data: clone_text(&self.encoded_data),
        }
    }
}

/// A change to a logged connector response.
#[derive(Debug, PartialEq, Eq)]
pub enum ConnectorResponseUpdate {
    ResponseUpdate {
        connector_transaction_id: Option<String>,
        authentication_data: Option<String>,
        encoded_data: Option<String>,
        /// When the change is made, in seconds since the epoch.
        modified_at: i64,
    },
}

impl ConnectorResponseNew {
    /// The record that logging this response under `id` makes.
    pub open spec fn logged(self, id: i32) -> ConnectorResponse {
        ConnectorResponse {
            id,
            payment_id: self.payment_id,
            merchant_id: self.merchant_id,
            txn_id: self.txn_id,
            created_at: self.created_at,
            modified_at: self.modified_at,
            connector_name: self.connector_name,
            connector_transaction_id: self.connector_transaction_id,
            authentication_data: self.authentication_data,
            encoded_data: self.encoded_data,
        }
    }
}

impl ConnectorResponseUpdate {
    /// The record after the change: what the connector answered and the
    /// time of the change are replaced, everything else is kept.
    pub open spec fn spec_apply_changeset(self, source: ConnectorResponse) -> ConnectorResponse {
        match self {
            ConnectorResponseUpdate::ResponseUpdate {
                connector_transaction_id,
                authentication_data,
                encoded_data,
                modified_at,
            } => ConnectorResponse {
                modified_at,
                connector_transaction_id,
                authentication_data,
                encoded_data,
                ..source
            },
        }
    }

    pub fn apply_changeset(self, source: ConnectorResponse) -> (r: ConnectorResponse)
        ensures
            r == self.spec_apply_changeset(source),
    {
        match self {
            ConnectorResponseUpdate::ResponseUpdate {
                connector_transaction_id,
                authentication_data,
                encoded_data,
                modified_at,
            } => ConnectorResponse {
                id: source.id,
                payment_id: source.payment_id,
                merchant_id: source.merchant_id,
                txn_id: source.txn_id,
                created_at: source.created_at,
                modified_at,
                connector_name: source.connector_name,
                connector_transaction_id,
                authentication_data,
                encoded_data,
            },
        }
    }
}

/// Whether a record is about the given payment of the given merchant, for
/// the given transaction.
pub open spec fn is_about(
    record: ConnectorResponse,
    payment_id: Seq<char>,
    merchant_id: Seq<char>,
    txn_id: Seq<char>,
) -> bool {
    record.payment_id@ == payment_id && record.merchant_id@ == merchant_id && record.txn_id@
        == txn_id
}

/// Whether `i` is the place of the first record with the id `id`.
pub open spec fn is_first_with_id(records: Seq<ConnectorResponse>, id: i32, i: int) -> bool {
    &&& 0 <= i < records.len()
    &&& records[i].id == id
    &&& forall|j: int| 0 <= j < i ==> records[j].id != id
}

/// Whether `i` is the place of the first record about the given payment,
/// merchant and transaction.
pub open spec fn is_first_about(
    records: Seq<ConnectorResponse>,
    payment_id: Seq<char>,
    merchant_id: Seq<char>,
    txn_id: Seq<char>,
    i: int,
) -> bool {
    &&& 0 <= i < records.len()
    &&& is_about(records[i], payment_id, merchant_id, txn_id)
    &&& forall|j: int| 0 <= j < i ==> !is_about(#[trigger] records[j], payment_id, merchant_id, txn_id)
}

/// The log of connector responses.
pub trait ConnectorResponseInterface {
    fn insert_connector_response(
        &mut self,
        connector_response: ConnectorResponseNew,
        storage_scheme: MerchantStorageScheme,
    ) -> (r: Result<ConnectorResponse, StorageError>);

    fn find_connector_response_by_payment_id_merchant_id_txn_id(
        &self,
        payment_id: &str,
        merchant_id: &str,
        txn_id: &str,
        storage_scheme: MerchantStorageScheme,
    ) -> (r: Result<ConnectorResponse, StorageError>);

    fn update_connector_response(
        &mut self,
        this: ConnectorResponse,
        connector_response_update: ConnectorResponseUpdate,
        storage_scheme: MerchantStorageScheme,
    ) -> (r: Result<ConnectorResponse, StorageError>);
}

/// A log of connector responses that is kept in memory.
#[derive(Debug, PartialEq, Eq)]
pub struct MockDb {
    pub connector_response: Vec<ConnectorResponse>,
}

impl View for MockDb {
    type V = Seq<ConnectorResponse>;

    open spec fn view(&self) -> Seq<ConnectorResponse> {
        self.connector_response@
    }
}

impl MockDb {
    /// An empty log.
    pub fn new() -> (r: Self)
        ensures
            r@ == Seq::<ConnectorResponse>::empty(),
    {
        MockDb { connector_response: Vec::new() }
    }
}

impl ConnectorResponseInterface for MockDb {
    /// Logs a response under the next id, which is the number of records
    /// logged so far. A log that has run out of ids takes no more.
    fn insert_connector_response(
        &mut self,
        connector_response: ConnectorResponseNew,
        storage_scheme: MerchantStorageScheme,
    ) -> (r: Result<ConnectorResponse, StorageError>)
        ensures
            old(self)@.len() <= i32::MAX ==> {
                &&& r == Ok::<ConnectorResponse, StorageError>(
                    connector_response.logged(old(self)@.len() as i32),
                )
                &&& final(self)@ == old(self)@.push(
                    connector_response.logged(old(self)@.len() as i32),
                )
            },
            old(self)@.len() > i32::MAX ==> {
                &&& r == Err::<ConnectorResponse, StorageError>(StorageError::MockDbError)
                &&& final(self)@ == old(self)@
            },
    {
        let count = self.connector_response.len();
        if count > i32::MAX as usize {
            return Err(StorageError::MockDbError);
        }
        let new = connector_response;
        let response = ConnectorResponse {
            id: count as i32,
            payment_id: new.payment_id,
            merchant_id: new.merchant_id,
            txn_id: new.txn_id,
            created_at: new.created_at,
            modified_at: new.modified_at,
            connector_name: new.connector_name,
            connector_transaction_id: new.connector_transaction_id,
            authentication_data: new.authentication_data,
            encoded_data: new.encoded_data,
        };
        self.connector_response.push(response.clone());
        Ok(response)
    }

    /// The first record about the given payment, merchant and transaction.
    fn find_connector_response_by_payment_id_merchant_id_txn_id(
        &self,
        payment_id: &str,
        merchant_id: &str,
        txn_id: &str,
        storage_scheme: MerchantStorageScheme,
    ) -> (r: Result<ConnectorResponse, StorageError>)
        ensures
            match r {
                Ok(record) => exists|i: int|
                    is_first_about(self@, payment_id@, merchant_id@, txn_id@, i) && record
                        == self@[i],
                Err(error) => error == StorageError::ValueNotFound && forall|i: int|
                    0 <= i < self@.len() ==> !is_about(
                        #[trigger] self@[i],
                        payment_id@,
                        merchant_id@,
                        txn_id@,
                    ),
            },
    {
        let payment = crate::json::text(payment_id);
        let merchant = crate::json::text(merchant_id);
        let txn = crate::json::text(txn_id);
        let mut i: usize = 0;
        while i < self.connector_response.len()
            invariant
                i <= self@.len(),
                payment@ == payment_id@,
                merchant@ == merchant_id@,
                txn@ == txn_id@,
                forall|j: int|
                    0 <= j < i ==> !is_about(#[trigger] self@[j], payment_id@, merchant_id@, txn_id@),
            decreases self@.len() - i,
        {
            let record = &self.connector_response[i];
            if record.payment_id == payment && record.merchant_id == merchant && record.txn_id
                == txn {
                assert(is_first_about(self@, payment_id@, merchant_id@, txn_id@, i as int));
                return Ok(record.clone());
            }
            i = i + 1;
        }
        Err(StorageError::ValueNotFound)
    }

    /// Applies a change to the first record with the id of `this`, and
    /// hands back the record as it is then.
    fn update_connector_response(
        &mut self,
        this: ConnectorResponse,
        connector_response_update: ConnectorResponseUpdate,
        storage_scheme: MerchantStorageScheme,
    ) -> (r: Result<ConnectorResponse, StorageError>)
        ensures
            match r {
                Ok(record) => exists|i: int|
                    is_first_with_id(old(self)@, this.id, i) && record
                        == connector_response_update.spec_apply_changeset(old(self)@[i])
                        && final(self)@ == old(self)@.update(i, record),
                Err(error) => error == StorageError::ValueNotFound && final(self)@ == old(self)@
                    && forall|i: int|
                    0 <= i < old(self)@.len() ==> (#[trigger] old(self)@[i]).id != this.id,
            },
    {
        let mut i: usize = 0;
        while i < self.connector_response.len()
            invariant
                i <= self@.len(),
                self@ == old(self)@,
                forall|j: int| 0 <= j < i ==> (#[trigger] self@[j]).id != this.id,
            decreases self@.len() - i,
        {
            if self.connector_response[i].id == this.id {
                assert(is_first_with_id(old(self)@, this.id, i as int));
                let stored = self.connector_response[i].clone();
                let changed = connector_response_update.apply_changeset(stored);
                let answer = changed.clone();
                self.connector_response.set(i, changed);
                return Ok(answer);
            }
            i = i + 1;
        }
        Err(StorageError::ValueNotFound)
    }
}

} // verus!

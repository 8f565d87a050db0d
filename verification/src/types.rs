//! The unified operation model that every connector maps onto.

use std::marker::PhantomData;
use vstd::prelude::*;

verus! {

/// Marker of the authorize operation.
#[derive(Clone, Copy, Debug, PartialEq, Eq, Structural)]
pub struct Authorize;

/// Marker of the payment sync operation.
#[derive(Clone, Copy, Debug, PartialEq, Eq, Structural)]
pub struct PSync;

/// Marker of the void operation.
#[derive(Clone, Copy, Debug, PartialEq, Eq, Structural)]
pub struct Void;

/// Marker of the capture operation.
#[derive(Clone, Copy, Debug, PartialEq, Eq, Structural)]
pub struct PCapture;

/// Marker of the refund execute operation.
#[derive(Clone, Copy, Debug, PartialEq, Eq, Structural)]
pub struct Execute;

/// Marker of the refund sync operation.
#[derive(Clone, Copy, Debug, PartialEq, Eq, Structural)]
pub struct RSync;

/// The states of one payment attempt.
#[derive(Clone, Copy, Debug, PartialEq, Eq, Structural)]
pub enum AttemptStatus {
    Started,
    AuthenticationPending,
    Authorizing,
    Pending,
    Charged,
    Failure,
    Voided,
    VoidFailed,
}

/// The states of one refund.
#[derive(Clone, Copy, Debug, PartialEq, Eq, Structural)]
pub enum RefundStatus {
    Pending,
    Success,
    Failure,
}

/// The kind of payment method that an attempt uses.
#[derive(Clone, Copy, Debug, PartialEq, Eq, Structural)]
pub enum PaymentMethodType {
    Card,
    BankTransfer,
    Wallet,
    PayLater,
    Paypal,
}

/// The issuers of wallets.
#[derive(Clone, Copy, Debug, PartialEq, Eq, Structural)]
pub enum WalletIssuer {
    GooglePay,
    ApplePay,
    Paypal,
}

/// The HTTP methods of an outgoing request.
#[derive(Clone, Copy, Debug, PartialEq, Eq, Structural)]
pub enum Method {
    Get,
    Post,
    Put,
    Delete,
}

/// The generic events that an inbound webhook can report.
#[derive(Clone, Copy, Debug, PartialEq, Eq, Structural)]
pub enum IncomingWebhookEvent {
    PaymentIntentSuccess,
}

/// What the router does after the customer comes back from a redirect.
#[derive(Clone, Copy, Debug, PartialEq, Eq, Structural)]
pub enum CallConnectorAction {
    Trigger,
    Avoid,
    StatusUpdate(AttemptStatus),
}

/// The scheme by which a webhook's signature is checked.
#[derive(Clone, Copy, Debug, PartialEq, Eq, Structural)]
pub enum VerificationAlgorithm {
    HmacSha256,
}

/// The credential shapes that a connector may ask for.
#[derive(Debug, PartialEq, Eq)]
pub enum ConnectorAuthType {
    HeaderKey { api_key: String },
    BodyKey { api_key: String, key1: String },
    SignatureKey { api_key: String, key1: String, api_secret: String },
}

impl Clone for ConnectorAuthType {
    fn clone(&self) -> (r: Self)
        ensures
            r == *self,
    {
        match self {
            ConnectorAuthType::HeaderKey { api_key } => ConnectorAuthType::HeaderKey {
                api_key: api_key.clone(),
            },
            ConnectorAuthType::BodyKey { api_key, key1 } => ConnectorAuthType::BodyKey {
                api_key: api_key.clone(),
                key1: key1.clone(),
            },
            ConnectorAuthType::SignatureKey { api_key, key1, api_secret } => {
                ConnectorAuthType::SignatureKey {
                    api_key: api_key.clone(),
                    key1: key1.clone(),
                    api_secret: api_secret.clone(),
                }
            },
        }
    }
}

/// A card as the customer entered it.
#[derive(Debug, PartialEq, Eq)]
pub struct CCard {
    pub card_number: String,
    pub card_exp_month: String,
    pub card_exp_year: String,
    pub card_holder_name: String,
    pub card_cvc: String,
}

impl Clone for CCard {
    fn clone(&self) -> (r: Self)
        ensures
            r == *self,
    {
        CCard {
            card_number: self.card_number.clone(),
            card_exp_month: self.card_exp_month.clone(),
            card_exp_year: self.card_exp_year.clone(),
            card_holder_name: self.card_holder_name.clone(),
            card_cvc: self.card_cvc.clone(),
        }
    }
}

/// A wallet payment: who issued the wallet, and its token.
#[derive(Debug, PartialEq, Eq)]
pub struct WalletData {
    pub issuer_name: WalletIssuer,
    pub token: String,
}

impl Clone for WalletData {
    fn clone(&self) -> (r: Self)
        ensures
            r == *self,
    {
        WalletData { issuer_name: self.issuer_name, token: self.token.clone() }
    }
}

/// The payment method data of an attempt.
#[derive(Debug, PartialEq, Eq)]
pub enum PaymentMethod {
    Card(CCard),
    BankTransfer,
    Wallet(WalletData),
    PayLater,
    Paypal,
}

impl Clone for PaymentMethod {
    fn clone(&self) -> (r: Self)
        ensures
            r == *self,
    {
        match self {
            PaymentMethod::Card(card) => PaymentMethod::Card(card.clone()),
            PaymentMethod::BankTransfer => PaymentMethod::BankTransfer,
            PaymentMethod::Wallet(wallet) => PaymentMethod::Wallet(wallet.clone()),
            PaymentMethod::PayLater => PaymentMethod::PayLater,
            PaymentMethod::Paypal => PaymentMethod::Paypal,
        }
    }
}

/// The normalized error that every vendor error body reduces to.
#[derive(Debug, PartialEq, Eq)]
pub struct ErrorResponse {
    pub code: String,
    pub message: String,
    pub reason: Option<String>,
}

/// A clone of an optional text.
pub fn clone_text(text: &Option<String>) -> (r: Option<String>)
    ensures
        r == *text,
{
    match text {
        Some(t) => Some(t.clone()),
        None => None,
    }
}

impl Clone for ErrorResponse {
    fn clone(&self) -> (r: Self)
        ensures
            r == *self,
    {
        ErrorResponse {
            code: self.code.clone(),
            message: self.message.clone(),
            reason: clone_text(&self.reason),
        }
    }
}

/// The id under which the connector knows a payment.
#[derive(Debug, PartialEq, Eq)]
pub enum ResponseId {
    ConnectorTransactionId(String),
    EncodedData(String),
    NoResponseId,
}

impl Clone for ResponseId {
    fn clone(&self) -> (r: Self)
        ensures
            r == *self,
    {
        match self {
            ResponseId::ConnectorTransactionId(id) => ResponseId::ConnectorTransactionId(
                id.clone(),
            ),
            ResponseId::EncodedData(data) => ResponseId::EncodedData(data.clone()),
            ResponseId::NoResponseId => ResponseId::NoResponseId,
        }
    }
}

/// Where the customer is sent to complete a payment.
#[derive(Debug, PartialEq, Eq)]
pub struct RedirectForm {
    pub url: String,
    pub method: Method,
}

impl Clone for RedirectForm {
    fn clone(&self) -> (r: Self)
        ensures
            r == *self,
    {
        RedirectForm { url: self.url.clone(), method: self.method }
    }
}

/// What a payment operation hands back.
#[derive(Debug, PartialEq, Eq)]
pub enum PaymentsResponseData {
    TransactionResponse {
        resource_id: ResponseId,
        redirection_data: Option<RedirectForm>,
        redirect: bool,
    },
}

impl Clone for PaymentsResponseData {
    fn clone(&self) -> (r: Self)
        ensures
            r == *self,
    {
        match self {
            PaymentsResponseData::TransactionResponse {
                resource_id,
                redirection_data,
                redirect,
            } => PaymentsResponseData::TransactionResponse {
                resource_id: resource_id.clone(),
                redirection_data: match redirection_data {
                    Some(form) => Some(form.clone()),
                    None => None,
                },
                redirect: *redirect,
            },
        }
    }
}

/// What a refund operation hands back.
#[derive(Debug, PartialEq, Eq)]
pub struct RefundsResponseData {
    pub connector_refund_id: String,
    pub refund_status: RefundStatus,
}

impl Clone for RefundsResponseData {
    fn clone(&self) -> (r: Self)
        ensures
            r == *self,
    {
        RefundsResponseData {
            connector_refund_id: self.connector_refund_id.clone(),
            refund_status: self.refund_status,
        }
    }
}

/// The request payload of the authorize operation.
#[derive(Debug, PartialEq, Eq)]
pub struct PaymentsRequestData {
    pub payment_method_data: PaymentMethod,
    pub amount: i64,
    pub currency: String,
    pub off_session: Option<bool>,
}

impl Clone for PaymentsRequestData {
    fn clone(&self) -> (r: Self)
        ensures
            r == *self,
    {
        PaymentsRequestData {
            payment_method_data: self.payment_method_data.clone(),
            amount: self.amount,
            currency: self.currency.clone(),
            off_session: self.off_session,
        }
    }
}

/// The request payload of the payment sync operation.
#[derive(Debug, PartialEq, Eq)]
pub struct PaymentsRequestSyncData {
    pub connector_transaction_id: String,
    pub encoded_data: Option<String>,
}

impl Clone for PaymentsRequestSyncData {
    fn clone(&self) -> (r: Self)
        ensures
            r == *self,
    {
        PaymentsRequestSyncData {
            connector_transaction_id: self.connector_transaction_id.clone(),
            encoded_data: clone_text(&self.encoded_data),
        }
    }
}

/// The request payload of the void operation.
#[derive(Debug, PartialEq, Eq)]
pub struct PaymentRequestCancelData {
    pub connector_transaction_id: String,
    pub cancellation_reason: Option<String>,
}

impl Clone for PaymentRequestCancelData {
    fn clone(&self) -> (r: Self)
        ensures
            r == *self,
    {
        PaymentRequestCancelData {
            connector_transaction_id: self.connector_transaction_id.clone(),
            cancellation_reason: clone_text(&self.cancellation_reason),
        }
    }
}

/// The request payload of the capture operation.
#[derive(Debug, PartialEq, Eq)]
pub struct PaymentsRequestCaptureData {
    pub amount_to_capture: Option<i64>,
    pub connector_transaction_id: String,
}

impl Clone for PaymentsRequestCaptureData {
    fn clone(&self) -> (r: Self)
        ensures
            r == *self,
    {
        PaymentsRequestCaptureData {
            amount_to_capture: self.amount_to_capture,
            connector_transaction_id: self.connector_transaction_id.clone(),
        }
    }
}

/// The request payload of both refund operations.
#[derive(Debug, PartialEq, Eq)]
pub struct RefundsRequestData {
    pub refund_id: String,
    pub connector_transaction_id: String,
    pub refund_amount: i64,
    pub currency: String,
}

impl Clone for RefundsRequestData {
    fn clone(&self) -> (r: Self)
        ensures
            r == *self,
    {
        RefundsRequestData {
            refund_id: self.refund_id.clone(),
            connector_transaction_id: self.connector_transaction_id.clone(),
            refund_amount: self.refund_amount,
            currency: self.currency.clone(),
        }
    }
}

/// The response slot of an envelope: pending until the one external call of
/// the operation has been read, then filled with its payload or its error.
#[derive(Debug, PartialEq, Eq)]
pub enum ResponseSlot<Resp> {
    Pending,
    Filled(Resp),
    Failed(ErrorResponse),
}

/// The envelope that carries one operation's request and response.
#[derive(Debug, PartialEq, Eq)]
pub struct RouterData<Flow, Req, Resp> {
    pub flow: PhantomData<Flow>,
    pub merchant_id: String,
    pub connector: String,
    pub payment_id: String,
    pub status: AttemptStatus,
    pub payment_method: PaymentMethodType,
    pub connector_auth_type: ConnectorAuthType,
    pub return_url: Option<String>,
    pub request: Req,
    pub response: ResponseSlot<Resp>,
}

impl<Resp> ResponseSlot<Resp> {
    /// Whether the one external call of the operation has been read.
    pub open spec fn is_filled(self) -> bool {
        !(self is Pending)
    }
}

impl<Resp: Clone> Clone for ResponseSlot<Resp> {
    fn clone(&self) -> (r: Self)
        ensures
            match *self {
                ResponseSlot::Pending => r is Pending,
                ResponseSlot::Filled(payload) => r is Filled && cloned::<Resp>(
                    payload,
                    r->Filled_0,
                ),
                ResponseSlot::Failed(error) => r == ResponseSlot::<Resp>::Failed(error),
            },
    {
        match self {
            ResponseSlot::Pending => ResponseSlot::Pending,
            ResponseSlot::Filled(payload) => ResponseSlot::Filled(payload.clone()),
            ResponseSlot::Failed(error) => ResponseSlot::Failed(error.clone()),
        }
    }
}

impl<Flow, Req, Resp> RouterData<Flow, Req, Resp> {
    /// This envelope after its external call: the same request under a new
    /// status, with the response slot filled.
    pub open spec fn answered(self, status: AttemptStatus, response: ResponseSlot<Resp>) -> Self {
        RouterData { status, response, ..self }
    }

    pub fn with_answer(self, status: AttemptStatus, response: ResponseSlot<Resp>) -> (r: Self)
        ensures
            r == self.answered(status, response),
    {
        RouterData {
            flow: self.flow,
            merchant_id: self.merchant_id,
            connector: self.connector,
            payment_id: self.payment_id,
            status,
            payment_method: self.payment_method,
            connector_auth_type: self.connector_auth_type,
            return_url: self.return_url,
            request: self.request,
            response,
        }
    }
}

impl<Flow, Req: Clone, Resp: Clone> Clone for RouterData<Flow, Req, Resp> {
    fn clone(&self) -> (r: Self)
        ensures
            r.flow == self.flow,
            r.merchant_id == self.merchant_id,
            r.connector == self.connector,
            r.payment_id == self.payment_id,
            r.status == self.status,
            r.payment_method == self.payment_method,
            r.connector_auth_type == self.connector_auth_type,
            r.return_url == self.return_url,
            cloned::<Req>(self.request, r.request),
            cloned::<ResponseSlot<Resp>>(self.response, r.response),
    {
        RouterData {
            flow: self.flow,
            merchant_id: self.merchant_id.clone(),
            connector: self.connector.clone(),
            payment_id: self.payment_id.clone(),
            status: self.status,
            payment_method: self.payment_method,
            connector_auth_type: self.connector_auth_type.clone(),
            return_url: clone_text(&self.return_url),
            request: self.request.clone(),
            response: self.response.clone(),
        }
    }
}

/// A parsed vendor response beside the envelope it answers and the HTTP
/// status it came with.
pub struct ResponseRouterData<Flow, R, Req, Resp> {
    pub response: R,
    pub data: RouterData<Flow, Req, Resp>,
    pub http_code: u16,
}

pub type PaymentsRouterData = RouterData<Authorize, PaymentsRequestData, PaymentsResponseData>;

pub type PaymentsRouterSyncData = RouterData<PSync, PaymentsRequestSyncData, PaymentsResponseData>;

pub type PaymentRouterCancelData = RouterData<Void, PaymentRequestCancelData, PaymentsResponseData>;

pub type RefundsRouterData<Flow> = RouterData<Flow, RefundsRequestData, RefundsResponseData>;

/// The raw answer of the request executor.
#[derive(Debug, PartialEq, Eq)]
pub struct Response {
    pub response: Vec<u8>,
    pub status_code: u16,
}

/// The endpoint root of one connector.
#[derive(Debug, PartialEq, Eq)]
pub struct ConnectorParams {
    pub base_url: String,
}

/// The endpoint roots of all connectors.
#[derive(Debug, PartialEq, Eq)]
pub struct Connectors {
    pub adyen: ConnectorParams,
    pub bambora: ConnectorParams,
}

/// Where the card vault lives.
#[derive(Debug, PartialEq, Eq)]
pub struct Locker {
    pub host: String,
}

} // verus!

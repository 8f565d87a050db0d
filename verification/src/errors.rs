//! The closed taxonomy of structural failures.

use vstd::prelude::*;

verus! {

/// Why a connector could not build a request, read a response or check a
/// webhook. A declined payment is not among these: it is a normal response
/// that carries a failure status.
#[derive(Debug, PartialEq, Eq)]
pub enum ConnectorError {
    FailedToObtainAuthType,
    RequestEncodingFailed,
    ResponseDeserializationFailed,
    ResponseHandlingFailed,
    /// The operation or payment method that the connector does not offer.
    NotImplemented(String),
    WebhookSourceVerificationFailed,
    WebhookVerificationSecretNotFound,
    WebhookReferenceIdNotFound,
    WebhookEventTypeNotFound,
    WebhookResourceObjectNotFound,
}

/// A connector error with the text it carries as characters.
pub enum ConnectorErrorView {
    FailedToObtainAuthType,
    RequestEncodingFailed,
    ResponseDeserializationFailed,
    ResponseHandlingFailed,
    NotImplemented(Seq<char>),
    WebhookSourceVerificationFailed,
    WebhookVerificationSecretNotFound,
    WebhookReferenceIdNotFound,
    WebhookEventTypeNotFound,
    WebhookResourceObjectNotFound,
}

impl View for ConnectorError {
    type V = ConnectorErrorView;

    open spec fn view(&self) -> ConnectorErrorView {
        match self {
            ConnectorError::FailedToObtainAuthType => ConnectorErrorView::FailedToObtainAuthType,
            ConnectorError::RequestEncodingFailed => ConnectorErrorView::RequestEncodingFailed,
            ConnectorError::ResponseDeserializationFailed => {
                ConnectorErrorView::ResponseDeserializationFailed
            },
            ConnectorError::ResponseHandlingFailed => ConnectorErrorView::ResponseHandlingFailed,
            ConnectorError::NotImplemented(what) => ConnectorErrorView::NotImplemented(what@),
            ConnectorError::WebhookSourceVerificationFailed => {
                ConnectorErrorView::WebhookSourceVerificationFailed
            },
            ConnectorError::WebhookVerificationSecretNotFound => {
                ConnectorErrorView::WebhookVerificationSecretNotFound
            },
            ConnectorError::WebhookReferenceIdNotFound => {
                ConnectorErrorView::WebhookReferenceIdNotFound
            },
            ConnectorError::WebhookEventTypeNotFound => ConnectorErrorView::WebhookEventTypeNotFound,
            ConnectorError::WebhookResourceObjectNotFound => {
                ConnectorErrorView::WebhookResourceObjectNotFound
            },
        }
    }
}

/// A vendor document that does not have the shape it should.
#[derive(Clone, Copy, Debug, PartialEq, Eq, Structural)]
pub struct ParsingError;

/// Why a card vault call could not be prepared or read.
#[derive(Clone, Copy, Debug, PartialEq, Eq, Structural)]
pub enum CardVaultError {
    RequestEncodingFailed,
    FetchCardFailed,
}

/// Why the connector response log could not answer.
#[derive(Clone, Copy, Debug, PartialEq, Eq, Structural)]
pub enum StorageError {
    ValueNotFound,
    /// The in-memory log cannot take the record.
    MockDbError,
}

} // verus!

//! The capabilities that every connector offers.

use crate::errors::ConnectorError;
use crate::json::Json;
use crate::services::Request;
use crate::types::{
    CallConnectorAction, ConnectorAuthType, Connectors, ErrorResponse, IncomingWebhookEvent,
    Response, ResponseSlot, RouterData, VerificationAlgorithm,
};
use vstd::prelude::*;

verus! {

pub const APPLICATION_JSON: &'static str = "application/json";

/// The body with which an inbound call is answered.
#[derive(Debug, PartialEq, Eq)]
pub enum ApiResponse {
    Json(Json),
    TextPlain(String),
    StatusOk,
}

/// Who a connector is, how it authenticates and where it lives.
pub trait ConnectorCommon {
    /// The name of the connector.
    fn id(&self) -> (r: &'static str);

    /// The headers that carry the merchant's credentials.
    fn get_auth_header(&self, auth_type: &ConnectorAuthType) -> (r: Result<
        Vec<(String, String)>,
        ConnectorError,
    >);

    /// The endpoint root that is configured for the connector.
    fn base_url(&self, connectors: Connectors) -> (r: String);

    /// What an error body of the connector reduces to.
    spec fn error_response(&self, res: Seq<u8>) -> Result<ErrorResponse, ConnectorError>;

    /// The normalized error that an error body of the connector reduces
    /// to.
    fn build_error_response(&self, res: &[u8]) -> (r: Result<ErrorResponse, ConnectorError>)
        ensures
            r == self.error_response(res@),
    ;
}

/// One operation of one connector: how its request is built and how its
/// response is read. What a connector does not offer keeps the methods
/// given here: they build no request and leave the envelope as it is.
pub trait ConnectorIntegration<T, Req: Clone, Resp: Clone>: ConnectorCommon {
    fn get_headers(&self, req: &RouterData<T, Req, Resp>) -> (r: Result<
        Vec<(String, String)>,
        ConnectorError,
    >)
        default_ensures
            r matches Ok(headers) && headers@.len() == 0,
    {
        Ok(Vec::new())
    }

    fn get_content_type(&self) -> (r: &'static str)
        default_ensures
            r@ == APPLICATION_JSON@,
    {
        APPLICATION_JSON
    }

    fn get_url(&self, req: &RouterData<T, Req, Resp>, connectors: Connectors) -> (r: Result<
        String,
        ConnectorError,
    >)
        default_ensures
            r matches Ok(url) && url@.len() == 0,
    {
        Ok(String::new())
    }

    fn get_request_body(&self, req: &RouterData<T, Req, Resp>) -> (r: Result<
        Option<String>,
        ConnectorError,
    >)
        default_ensures
            r == Ok::<Option<String>, ConnectorError>(None),
    {
        Ok(None)
    }

    fn build_request(&self, req: &RouterData<T, Req, Resp>, connectors: Connectors) -> (r: Result<
        Option<Request>,
        ConnectorError,
    >)
        default_ensures
            r == Ok::<Option<Request>, ConnectorError>(None),
    {
        Ok(None)
    }

    /// The normalized error of an error body that answers this operation:
    /// the connector's own reading of its error bodies, unless the
    /// operation has an error shape to itself.
    fn get_error_response(&self, res: &[u8]) -> (r: Result<ErrorResponse, ConnectorError>)
        default_ensures
            r == self.error_response(res@),
    {
        self.build_error_response(res)
    }

    fn handle_response(&self, data: &RouterData<T, Req, Resp>, res: Response) -> (r: Result<
        RouterData<T, Req, Resp>,
        ConnectorError,
    >)
        default_ensures
            r matches Ok(same) && {
                &&& same.flow == data.flow
                &&& same.merchant_id == data.merchant_id
                &&& same.connector == data.connector
                &&& same.payment_id == data.payment_id
                &&& same.status == data.status
                &&& same.payment_method == data.payment_method
                &&& same.connector_auth_type == data.connector_auth_type
                &&& same.return_url == data.return_url
                &&& cloned::<Req>(data.request, same.request)
                &&& cloned::<ResponseSlot<Resp>>(data.response, same.response)
            },
    {
        Ok(data.clone())
    }
}

/// What a connector makes of an inbound webhook.
pub trait IncomingWebhook: ConnectorCommon {
    /// The scheme by which the connector's webhooks are signed.
    fn get_webhook_source_verification_algorithm(
        &self,
        headers: &Vec<(String, String)>,
        body: &[u8],
    ) -> (r: Result<VerificationAlgorithm, ConnectorError>);

    /// The signature that came with the webhook.
    fn get_webhook_source_verification_signature(
        &self,
        headers: &Vec<(String, String)>,
        body: &[u8],
    ) -> (r: Result<Vec<u8>, ConnectorError>);

    /// The message that the connector signed.
    fn get_webhook_source_verification_message(
        &self,
        headers: &Vec<(String, String)>,
        body: &[u8],
    ) -> (r: Result<Vec<u8>, ConnectorError>);

    /// The key under which the secret store keeps the merchant's secret for
    /// this connector.
    fn get_webhook_source_verification_secret_key(&self, merchant_id: &str) -> (r: String);

    /// The merchant's secret, out of what the secret store answered for its
    /// key.
    fn get_webhook_source_verification_merchant_secret(
        &self,
        merchant_id: &str,
        found: Option<Vec<u8>>,
    ) -> (r: Result<Vec<u8>, ConnectorError>);

    /// The id under which the connector knows what the webhook is about.
    fn get_webhook_object_reference_id(&self, body: &[u8]) -> (r: Result<String, ConnectorError>);

    /// The generic event that the webhook reports.
    fn get_webhook_event_type(&self, body: &[u8]) -> (r: Result<
        IncomingWebhookEvent,
        ConnectorError,
    >);

    /// What the webhook reports, in the shape of the answer to a payment
    /// sync.
    fn get_webhook_resource_object(&self, body: &[u8]) -> (r: Result<Json, ConnectorError>);

    /// The body that tells the connector not to send the webhook again.
    fn get_webhook_api_response(&self) -> (r: Result<ApiResponse, ConnectorError>);
}

/// What happens after the customer comes back from a redirect.
pub trait ConnectorRedirectResponse {
    fn get_flow_type(&self, query_params: &str) -> (r: Result<CallConnectorAction, ConnectorError>);
}

} // verus!

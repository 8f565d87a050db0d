//! The Adyen connector: its operations and its webhooks.

pub mod transformers;

use self::transformers as adyen;
use crate::api::{
    ApiResponse, ConnectorCommon, ConnectorIntegration, ConnectorRedirectResponse,
    IncomingWebhook, APPLICATION_JSON,
};
use crate::errors::{ConnectorError, ConnectorErrorView, ParsingError};
use crate::form::{form_pairs, parse_form};
use crate::json::{json_document, json_text, parse_json, render_json, text, Json, JsonValue};
use crate::services::{Request, CONTENT_TYPE, X_API_KEY, X_ROUTER};
use crate::types::{
    Authorize, CallConnectorAction, ConnectorAuthType, Connectors, ErrorResponse, Execute,
    IncomingWebhookEvent, Method, PCapture, PSync, PaymentMethodType, PaymentRequestCancelData,
    PaymentRouterCancelData, PaymentsRequestCaptureData, PaymentsRequestData,
    PaymentsRequestSyncData, PaymentsResponseData, PaymentsRouterData, PaymentsRouterSyncData,
    RSync, RefundsRequestData, RefundsResponseData, RefundsRouterData, Response,
    ResponseRouterData, RouterData, VerificationAlgorithm, Void,
};
use crate::crypto::{hmac_sha256_tag, verify_hmac_sha256};
use crate::utils::{
    base64_decode, base64_decoded, colon_free, decimal, lemma_colon_free_bytes,
    lemma_decimal_has_no_colon, lemma_decimal_injective, lemma_split_at_last_colon,
    lemma_utf8_injective, push_decimal,
};
use std::convert::TryFrom;
use vstd::prelude::*;
use vstd::string::StringExecFns;
use vstd::utf8::encode_utf8;

verus! {

/// The Adyen connector.
#[derive(Clone, Copy, Debug)]
pub struct Adyen;

/// The header that carries Adyen's API key, if the credentials have the
/// shape that Adyen takes.
pub open spec fn auth_header(auth_type: ConnectorAuthType) -> Option<Seq<(Seq<char>, Seq<char>)>> {
    match adyen::AdyenAuthType::spec_try_from(auth_type) {
        Ok(auth) => Some(seq![(X_API_KEY@, auth.api_key@)]),
        Err(_) => None,
    }
}

/// The headers of every request to Adyen: the content type, the router's
/// own header, and the API key.
pub open spec fn request_headers(auth_type: ConnectorAuthType) -> Option<
    Seq<(Seq<char>, Seq<char>)>,
> {
    match auth_header(auth_type) {
        Some(key) => Some(seq![(CONTENT_TYPE@, APPLICATION_JSON@), (X_ROUTER@, "test"@)] + key),
        None => None,
    }
}

/// Whether `r` is what building a request comes to, given what is known of
/// its parts: the failure of the credentials where there is one, else the
/// failure of the body where there is one, else a POST to `url` with
/// `headers` and the body.
pub open spec fn is_built(
    r: Result<Option<Request>, ConnectorError>,
    url: Seq<char>,
    headers: Option<Seq<(Seq<char>, Seq<char>)>>,
    body: Result<Seq<char>, ConnectorErrorView>,
) -> bool {
    match headers {
        None => r == Err::<Option<Request>, ConnectorError>(
            ConnectorError::FailedToObtainAuthType,
        ),
        Some(sent_headers) => match body {
            Err(error) => r matches Err(given) && given@ == error,
            Ok(sent_body) => r matches Ok(Some(request)) && {
                &&& request.method == Method::Post
                &&& request.url@ == url
                &&& request.headers.deep_view() == sent_headers
                &&& request.body matches Some(sent) && sent@ == sent_body
            },
        },
    }
}

/// Whether `r` is what getting a request body comes to, given `body`.
pub open spec fn is_body(
    r: Result<Option<String>, ConnectorError>,
    body: Result<Seq<char>, ConnectorErrorView>,
) -> bool {
    match body {
        Ok(sent_body) => r matches Ok(Some(sent)) && sent@ == sent_body,
        Err(error) => r matches Err(given) && given@ == error,
    }
}

/// The text of a request document, or the failure to encode it.
pub open spec fn encoded(doc: JsonValue) -> Result<Seq<char>, ConnectorErrorView> {
    match json_text(doc) {
        Some(written) => Ok(written),
        None => Err(ConnectorErrorView::RequestEncodingFailed),
    }
}

fn encode(doc: &Json) -> (r: Result<Option<String>, ConnectorError>)
    ensures
        is_body(r, encoded(doc@)),
{
    match render_json(doc) {
        Some(written) => Ok(Some(written)),
        None => Err(ConnectorError::RequestEncodingFailed),
    }
}

impl Adyen {
    fn standard_headers(&self, auth_type: &ConnectorAuthType) -> (r: Result<
        Vec<(String, String)>,
        ConnectorError,
    >)
        ensures
            match request_headers(*auth_type) {
                Some(headers) => r matches Ok(sent) && sent.deep_view() == headers,
                None => r == Err::<Vec<(String, String)>, ConnectorError>(
                    ConnectorError::FailedToObtainAuthType,
                ),
            },
    {
        let mut header: Vec<(String, String)> = Vec::new();
        header.push((text(CONTENT_TYPE), text(APPLICATION_JSON)));
        header.push((text(X_ROUTER), text("test")));
        let mut api_key = match self.get_auth_header(auth_type) {
            Ok(api_key) => api_key,
            Err(error) => { return Err(error); },
        };
        let ghost key = api_key.deep_view();
        let ghost first = header.deep_view();
        assert(first =~= seq![(CONTENT_TYPE@, APPLICATION_JSON@), (X_ROUTER@, "test"@)]);
        header.append(&mut api_key);
        assert(header.deep_view() =~= first + key);
        Ok(header)
    }

    fn post(url: String, headers: Vec<(String, String)>, body: Option<String>) -> (r: Request)
        ensures
            r.method == Method::Post,
            r.url == url,
            r.headers == headers,
            r.body == body,
    {
        Request { method: Method::Post, url, headers, body }
    }
}

impl ConnectorCommon for Adyen {
    fn id(&self) -> (r: &'static str)
        ensures
            r@ == "adyen"@,
    {
        "adyen"
    }

    fn get_auth_header(&self, auth_type: &ConnectorAuthType) -> (r: Result<
        Vec<(String, String)>,
        ConnectorError,
    >)
        ensures
            match auth_header(*auth_type) {
                Some(headers) => r matches Ok(sent) && sent.deep_view() == headers,
                None => r == Err::<Vec<(String, String)>, ConnectorError>(
                    ConnectorError::FailedToObtainAuthType,
                ),
            },
    {
        match adyen::AdyenAuthType::try_from(auth_type) {
            Ok(auth) => {
                let mut headers: Vec<(String, String)> = Vec::new();
                headers.push((text(X_API_KEY), auth.api_key));
                assert(headers.deep_view() =~= seq![(X_API_KEY@, auth.api_key@)]);
                Ok(headers)
            },
            Err(_) => Err(ConnectorError::FailedToObtainAuthType),
        }
    }

    fn base_url(&self, connectors: Connectors) -> (r: String)
        ensures
            r == connectors.adyen.base_url,
    {
        connectors.adyen.base_url
    }

    open spec fn error_response(&self, res: Seq<u8>) -> Result<ErrorResponse, ConnectorError> {
        error_outcome(json_document(res))
    }

    fn build_error_response(&self, res: &[u8]) -> (r: Result<ErrorResponse, ConnectorError>) {
        error_response_of(parse_json(res))
    }
}

/// The body of an authorize request: the document of the payment request,
/// encoded. A payment method that Adyen is not asked to charge is not
/// implemented, and says so; credentials that give no merchant account
/// leave the request without a field it needs.
pub open spec fn authorize_body(req: PaymentsRouterData) -> Result<
    Seq<char>,
    ConnectorErrorView,
> {
    match adyen::AdyenPaymentRequest::spec_try_from(req) {
        Ok(request) => encoded(request.json()),
        Err(adyen::RequestRefusal::PaymentMethod) => Err(
            ConnectorErrorView::NotImplemented("Payment methods"@),
        ),
        Err(adyen::RequestRefusal::Credentials) => Err(ConnectorErrorView::RequestEncodingFailed),
    }
}

/// An authorize request for a supported payment method under credentials
/// of Adyen's shape has a body whenever the encoder writes one: the text of
/// the payment request's document, which holds all of the request. Nothing
/// but the encoder can keep the body from being made, and no body is ever
/// left out.
pub proof fn lemma_authorize_body_of_a_supported_method(
    req: PaymentsRouterData,
    r: Result<Option<String>, ConnectorError>,
)
    requires
        !(req.request.payment_method_data is BankTransfer),
        !(req.request.payment_method_data is PayLater),
        req.connector_auth_type is BodyKey,
        is_body(r, authorize_body(req)),
    ensures
        r != Ok::<Option<String>, ConnectorError>(None),
        adyen::AdyenPaymentRequest::spec_try_from(req) matches Ok(request) && match json_text(
            request.json(),
        ) {
            Some(written) => r matches Ok(Some(sent)) && sent@ == written,
            None => r == Err::<Option<String>, ConnectorError>(
                ConnectorError::RequestEncodingFailed,
            ),
        },
{
}

/// An authorize request for a card under credentials of Adyen's shape is,
/// whenever the encoder writes its body, a POST to the authorize path below
/// the configured root, with the content type first and the API key as it
/// was given, and with the body of `get_request_body`: the text of a
/// document that holds the card's number, expiry and security code. Nothing
/// but the encoder can keep the request from being made, and the request is
/// never left out.
pub proof fn lemma_authorize_request_for_a_card(
    req: PaymentsRouterData,
    connectors: Connectors,
    r: Result<Option<Request>, ConnectorError>,
)
    requires
        req.request.payment_method_data is Card,
        req.connector_auth_type is BodyKey,
        is_built(
            r,
            connectors.adyen.base_url@ + "v68/payments"@,
            request_headers(req.connector_auth_type),
            authorize_body(req),
        ),
    ensures
        r != Ok::<Option<Request>, ConnectorError>(None),
        adyen::AdyenPaymentRequest::spec_try_from(req) matches Ok(request) && {
            &&& request.payment_method == adyen::AdyenPaymentMethod::AdyenCard(
                adyen::AdyenCard {
                    number: req.request.payment_method_data->Card_0.card_number,
                    expiry_month: req.request.payment_method_data->Card_0.card_exp_month,
                    expiry_year: req.request.payment_method_data->Card_0.card_exp_year,
                    cvc: req.request.payment_method_data->Card_0.card_cvc,
                },
            )
            &&& request.json()->Object_0[2] == ("paymentMethod"@, request.payment_method.json())
            &&& match json_text(request.json()) {
                Some(written) => r matches Ok(Some(built)) && {
                    &&& built.method == Method::Post
                    &&& built.url@ == connectors.adyen.base_url@ + "v68/payments"@
                    &&& built.headers.deep_view() == seq![
                        (CONTENT_TYPE@, APPLICATION_JSON@),
                        (X_ROUTER@, "test"@),
                        (X_API_KEY@, req.connector_auth_type->BodyKey_api_key@),
                    ]
                    &&& built.body matches Some(sent) && sent@ == written
                },
                None => r == Err::<Option<Request>, ConnectorError>(
                    ConnectorError::RequestEncodingFailed,
                ),
            }
        },
{
    let request = adyen::AdyenPaymentRequest::spec_try_from(req)->Ok_0;
    if json_text(request.json()) is Some {
        let built = r->Ok_0->Some_0;
        assert(built.headers.deep_view() =~= seq![
            (CONTENT_TYPE@, APPLICATION_JSON@),
            (X_ROUTER@, "test"@),
            (X_API_KEY@, req.connector_auth_type->BodyKey_api_key@),
        ]);
    }
}

/// What reading a payment answer comes to: an answer that has none of the
/// shapes that Adyen gives it cannot be read, and one whose result code is
/// none of Adyen's cannot be handled.
pub open spec fn payment_result<F, Req>(
    data: RouterData<F, Req, PaymentsResponseData>,
    response: Option<adyen::AdyenPaymentResponse>,
) -> Result<RouterData<F, Req, PaymentsResponseData>, ConnectorError> {
    match response {
        None => Err(ConnectorError::ResponseDeserializationFailed),
        Some(response) => match adyen::payment_answer(data, response) {
            Ok(answered) => Ok(answered),
            Err(_) => Err(ConnectorError::ResponseHandlingFailed),
        },
    }
}

/// Puts a payment answer into the envelope it answers.
pub fn answer_payment<F, Req>(
    data: RouterData<F, Req, PaymentsResponseData>,
    response: Option<adyen::AdyenPaymentResponse>,
    http_code: u16,
) -> (r: Result<RouterData<F, Req, PaymentsResponseData>, ConnectorError>)
    ensures
        r == payment_result(data, response),
{
    match response {
        None => Err(ConnectorError::ResponseDeserializationFailed),
        Some(response) => match RouterData::try_from(
            ResponseRouterData { response, data, http_code },
        ) {
            Ok(answered) => Ok(answered),
            Err(_) => Err(ConnectorError::ResponseHandlingFailed),
        },
    }
}

/// What reading the answer to an authorize request comes to, given the
/// document that the answer holds: the wallet shape is looked for where the
/// attempt pays by wallet, the plain shape everywhere else.
pub open spec fn authorize_outcome(data: PaymentsRouterData, doc: Option<Json>) -> Result<
    PaymentsRouterData,
    ConnectorError,
> {
    match doc {
        None => Err(ConnectorError::ResponseDeserializationFailed),
        Some(doc) => {
            let response = if data.payment_method == PaymentMethodType::Wallet {
                match adyen::AdyenWalletResponse::spec_from_json(doc) {
                    Some(wallet) => Some(adyen::AdyenPaymentResponse::AdyenWalletResponse(wallet)),
                    None => None,
                }
            } else {
                match adyen::AdyenResponse::spec_from_json(doc) {
                    Some(plain) => Some(adyen::AdyenPaymentResponse::AdyenResponse(plain)),
                    None => None,
                }
            };
            payment_result(data, response)
        },
    }
}

/// The normalized error that a document of Adyen's error shape holds.
pub open spec fn error_outcome(doc: Option<Json>) -> Result<ErrorResponse, ConnectorError> {
    match doc {
        None => Err(ConnectorError::ResponseDeserializationFailed),
        Some(doc) => match adyen::ErrorResponse::spec_from_json(doc) {
            None => Err(ConnectorError::ResponseDeserializationFailed),
            Some(error) => Ok(
                ErrorResponse { code: error.error_code, message: error.message, reason: None },
            ),
        },
    }
}

/// Reads the normalized error out of a document of Adyen's error shape.
pub fn error_response_of(doc: Option<Json>) -> (r: Result<ErrorResponse, ConnectorError>)
    ensures
        r == error_outcome(doc),
{
    match doc {
        None => Err(ConnectorError::ResponseDeserializationFailed),
        Some(doc) => match adyen::ErrorResponse::from_json(&doc) {
            None => Err(ConnectorError::ResponseDeserializationFailed),
            Some(error) => Ok(
                ErrorResponse { code: error.error_code, message: error.message, reason: None },
            ),
        },
    }
}

/// Reads the answer to an authorize request out of the document that the
/// answer holds.
pub fn read_authorize_answer(data: &PaymentsRouterData, doc: Option<Json>, http_code: u16) -> (r:
    Result<PaymentsRouterData, ConnectorError>)
    ensures
        r == authorize_outcome(*data, doc),
{
    let doc = match doc {
        Some(doc) => doc,
        None => { return Err(ConnectorError::ResponseDeserializationFailed); },
    };
    let response = match data.payment_method {
        PaymentMethodType::Wallet => match adyen::AdyenWalletResponse::from_json(&doc) {
            Some(wallet) => Some(adyen::AdyenPaymentResponse::AdyenWalletResponse(wallet)),
            None => None,
        },
        _ => match adyen::AdyenResponse::from_json(&doc) {
            Some(plain) => Some(adyen::AdyenPaymentResponse::AdyenResponse(plain)),
            None => None,
        },
    };
    let copy = data.clone();
    assert(copy == *data);
    answer_payment(copy, response, http_code)
}

impl ConnectorIntegration<Authorize, PaymentsRequestData, PaymentsResponseData> for Adyen {
    fn get_headers(&self, req: &PaymentsRouterData) -> (r: Result<
        Vec<(String, String)>,
        ConnectorError,
    >)
        ensures
            match request_headers(req.connector_auth_type) {
                Some(headers) => r matches Ok(sent) && sent.deep_view() == headers,
                None => r == Err::<Vec<(String, String)>, ConnectorError>(
                    ConnectorError::FailedToObtainAuthType,
                ),
            },
    {
        self.standard_headers(&req.connector_auth_type)
    }

    fn get_url(&self, req: &PaymentsRouterData, connectors: Connectors) -> (r: Result<
        String,
        ConnectorError,
    >)
        ensures
            r matches Ok(url) && url@ == connectors.adyen.base_url@ + "v68/payments"@,
    {
        Ok(self.base_url(connectors).concat("v68/payments"))
    }

    fn get_request_body(&self, req: &PaymentsRouterData) -> (r: Result<
        Option<String>,
        ConnectorError,
    >)
        ensures
            is_body(r, authorize_body(*req)),
    {
        match adyen::AdyenPaymentRequest::try_from(req) {
            Ok(request) => encode(&request.to_json()),
            Err(ConnectorError::NotImplemented(what)) => Err(ConnectorError::NotImplemented(what)),
            Err(_) => Err(ConnectorError::RequestEncodingFailed),
        }
    }

    fn build_request(&self, req: &PaymentsRouterData, connectors: Connectors) -> (r: Result<
        Option<Request>,
        ConnectorError,
    >)
        ensures
            is_built(
                r,
                connectors.adyen.base_url@ + "v68/payments"@,
                request_headers(req.connector_auth_type),
                authorize_body(*req),
            ),
    {
        let url = <Adyen as ConnectorIntegration<
            Authorize,
            PaymentsRequestData,
            PaymentsResponseData,
        >>::get_url(self, req, connectors)?;
        let headers = <Adyen as ConnectorIntegration<
            Authorize,
            PaymentsRequestData,
            PaymentsResponseData,
        >>::get_headers(self, req)?;
        let body = <Adyen as ConnectorIntegration<
            Authorize,
            PaymentsRequestData,
            PaymentsResponseData,
        >>::get_request_body(self, req)?;
        Ok(Some(Adyen::post(url, headers, body)))
    }

    fn handle_response(&self, data: &PaymentsRouterData, res: Response) -> (r: Result<
        PaymentsRouterData,
        ConnectorError,
    >)
        ensures
            r == authorize_outcome(*data, json_document(res.response@)),
    {
        read_authorize_answer(data, parse_json(res.response.as_slice()), res.status_code)
    }
}

/// The body of a payment sync request: what came back with the shopper,
/// read as a form, reduced to its result and encoded. An envelope without
/// that text, a text that is no form and a form that holds no result all
/// leave the request without what it needs: none of them can be encoded.
pub open spec fn sync_body(req: PaymentsRouterSyncData) -> Result<
    Seq<char>,
    ConnectorErrorView,
> {
    match req.request.encoded_data {
        None => Err(ConnectorErrorView::RequestEncodingFailed),
        Some(encoded_data) => match form_pairs(encoded_data@) {
            None => Err(ConnectorErrorView::RequestEncodingFailed),
            Some(pairs) => match adyen::AdyenRedirectRequestTypes::spec_from_pairs(pairs@) {
                None => Err(ConnectorErrorView::RequestEncodingFailed),
                Some(details) => encoded(
                    (adyen::AdyenRedirectRequest { details: details.result_only() }).json(),
                ),
            },
        },
    }
}

/// What reading the answer to a payment sync request comes to, given the
/// document that the answer holds.
pub open spec fn sync_outcome(data: PaymentsRouterSyncData, doc: Option<Json>) -> Result<
    PaymentsRouterSyncData,
    ConnectorError,
> {
    match doc {
        None => Err(ConnectorError::ResponseDeserializationFailed),
        Some(doc) => payment_result(data, adyen::AdyenPaymentResponse::spec_from_json(doc)),
    }
}

/// Reads the answer to a payment sync request out of the document that the
/// answer holds.
pub fn read_sync_answer(data: &PaymentsRouterSyncData, doc: Option<Json>, http_code: u16) -> (r:
    Result<PaymentsRouterSyncData, ConnectorError>)
    ensures
        r == sync_outcome(*data, doc),
{
    let doc = match doc {
        Some(doc) => doc,
        None => { return Err(ConnectorError::ResponseDeserializationFailed); },
    };
    let response = adyen::AdyenPaymentResponse::from_json(&doc);
    let copy = data.clone();
    assert(copy == *data);
    answer_payment(copy, response, http_code)
}

impl ConnectorIntegration<PSync, PaymentsRequestSyncData, PaymentsResponseData> for Adyen {
    fn get_headers(&self, req: &PaymentsRouterSyncData) -> (r: Result<
        Vec<(String, String)>,
        ConnectorError,
    >)
        ensures
            match request_headers(req.connector_auth_type) {
                Some(headers) => r matches Ok(sent) && sent.deep_view() == headers,
                None => r == Err::<Vec<(String, String)>, ConnectorError>(
                    ConnectorError::FailedToObtainAuthType,
                ),
            },
    {
        self.standard_headers(&req.connector_auth_type)
    }

    fn get_request_body(&self, req: &PaymentsRouterSyncData) -> (r: Result<
        Option<String>,
        ConnectorError,
    >)
        ensures
            is_body(r, sync_body(*req)),
    {
        let encoded_data = match &req.request.encoded_data {
            Some(encoded_data) => encoded_data,
            None => { return Err(ConnectorError::RequestEncodingFailed); },
        };
        let pairs = match parse_form(encoded_data.as_str()) {
            Some(pairs) => pairs,
            None => { return Err(ConnectorError::RequestEncodingFailed); },
        };
        let adyen_redirection_type = match adyen::AdyenRedirectRequestTypes::from_pairs(&pairs) {
            Some(details) => details,
            None => { return Err(ConnectorError::RequestEncodingFailed); },
        };
        let redirection_request = adyen::AdyenRedirectRequest {
            details: adyen_redirection_type.into_result_only(),
        };
        encode(&redirection_request.to_json())
    }

    fn get_url(&self, req: &PaymentsRouterSyncData, connectors: Connectors) -> (r: Result<
        String,
        ConnectorError,
    >)
        ensures
            r matches Ok(url) && url@ == connectors.adyen.base_url@ + "v68/payments/details"@,
    {
        Ok(self.base_url(connectors).concat("v68/payments/details"))
    }

    fn build_request(&self, req: &PaymentsRouterSyncData, connectors: Connectors) -> (r: Result<
        Option<Request>,
        ConnectorError,
    >)
        ensures
            is_built(
                r,
                connectors.adyen.base_url@ + "v68/payments/details"@,
                request_headers(req.connector_auth_type),
                sync_body(*req),
            ),
    {
        let url = <Adyen as ConnectorIntegration<
            PSync,
            PaymentsRequestSyncData,
            PaymentsResponseData,
        >>::get_url(self, req, connectors)?;
        let headers = <Adyen as ConnectorIntegration<
            PSync,
            PaymentsRequestSyncData,
            PaymentsResponseData,
        >>::get_headers(self, req)?;
        let body = <Adyen as ConnectorIntegration<
            PSync,
            PaymentsRequestSyncData,
            PaymentsResponseData,
        >>::get_request_body(self, req)?;
        Ok(Some(Adyen::post(url, headers, body)))
    }

    fn handle_response(&self, data: &PaymentsRouterSyncData, res: Response) -> (r: Result<
        PaymentsRouterSyncData,
        ConnectorError,
    >)
        ensures
            r == sync_outcome(*data, json_document(res.response@)),
    {
        read_sync_answer(data, parse_json(res.response.as_slice()), res.status_code)
    }
}

/// The body of a void request: the document of the cancel request, encoded.
pub open spec fn void_body(req: PaymentRouterCancelData) -> Result<
    Seq<char>,
    ConnectorErrorView,
> {
    match adyen::AdyenCancelRequest::spec_try_from(req) {
        Ok(request) => encoded(request.json()),
        Err(_) => Err(ConnectorErrorView::RequestEncodingFailed),
    }
}

/// The URL of a void request: the cancels of the payment that is voided,
/// by its id at Adyen.
pub open spec fn void_url(base: Seq<char>, connector_transaction_id: Seq<char>) -> Seq<char> {
    base + "v68/payments/"@ + connector_transaction_id + "/cancels"@
}

/// What reading the answer to a void request comes to, given the document
/// that the answer holds.
pub open spec fn void_outcome(data: PaymentRouterCancelData, doc: Option<Json>) -> Result<
    PaymentRouterCancelData,
    ConnectorError,
> {
    match doc {
        None => Err(ConnectorError::ResponseDeserializationFailed),
        Some(doc) => match adyen::AdyenCancelResponse::spec_from_json(doc) {
            None => Err(ConnectorError::ResponseDeserializationFailed),
            Some(response) => match adyen::void_answer(data, response) {
                Ok(answered) => Ok(answered),
                Err(_) => Err(ConnectorError::ResponseHandlingFailed),
            },
        },
    }
}

/// Reads the answer to a void request out of the document that the answer
/// holds.
pub fn read_void_answer(data: &PaymentRouterCancelData, doc: Option<Json>, http_code: u16) -> (r:
    Result<PaymentRouterCancelData, ConnectorError>)
    ensures
        r == void_outcome(*data, doc),
{
    let doc = match doc {
        Some(doc) => doc,
        None => { return Err(ConnectorError::ResponseDeserializationFailed); },
    };
    let response = match adyen::AdyenCancelResponse::from_json(&doc) {
        Some(response) => response,
        None => { return Err(ConnectorError::ResponseDeserializationFailed); },
    };
    let copy = data.clone();
    assert(copy == *data);
    match RouterData::try_from(ResponseRouterData { response, data: copy, http_code }) {
        Ok(answered) => Ok(answered),
        Err(_) => Err(ConnectorError::ResponseHandlingFailed),
    }
}

impl ConnectorIntegration<Void, PaymentRequestCancelData, PaymentsResponseData> for Adyen {
    fn get_headers(&self, req: &PaymentRouterCancelData) -> (r: Result<
        Vec<(String, String)>,
        ConnectorError,
    >)
        ensures
            match request_headers(req.connector_auth_type) {
                Some(headers) => r matches Ok(sent) && sent.deep_view() == headers,
                None => r == Err::<Vec<(String, String)>, ConnectorError>(
                    ConnectorError::FailedToObtainAuthType,
                ),
            },
    {
        self.standard_headers(&req.connector_auth_type)
    }

    fn get_url(&self, req: &PaymentRouterCancelData, connectors: Connectors) -> (r: Result<
        String,
        ConnectorError,
    >)
        ensures
            r matches Ok(url) && url@ == void_url(
                connectors.adyen.base_url@,
                req.request.connector_transaction_id@,
            ),
    {
        Ok(
            self.base_url(connectors).concat("v68/payments/").concat(
                req.request.connector_transaction_id.as_str(),
            ).concat("/cancels"),
        )
    }

    fn get_request_body(&self, req: &PaymentRouterCancelData) -> (r: Result<
        Option<String>,
        ConnectorError,
    >)
        ensures
            is_body(r, void_body(*req)),
    {
        match adyen::AdyenCancelRequest::try_from(req) {
            Ok(request) => encode(&request.to_json()),
            Err(_) => Err(ConnectorError::RequestEncodingFailed),
        }
    }

    fn build_request(&self, req: &PaymentRouterCancelData, connectors: Connectors) -> (r: Result<
        Option<Request>,
        ConnectorError,
    >)
        ensures
            is_built(
                r,
                void_url(connectors.adyen.base_url@, req.request.connector_transaction_id@),
                request_headers(req.connector_auth_type),
                void_body(*req),
            ),
    {
        let url = <Adyen as ConnectorIntegration<
            Void,
            PaymentRequestCancelData,
            PaymentsResponseData,
        >>::get_url(self, req, connectors)?;
        let headers = <Adyen as ConnectorIntegration<
            Void,
            PaymentRequestCancelData,
            PaymentsResponseData,
        >>::get_headers(self, req)?;
        let body = <Adyen as ConnectorIntegration<
            Void,
            PaymentRequestCancelData,
            PaymentsResponseData,
        >>::get_request_body(self, req)?;
        Ok(Some(Adyen::post(url, headers, body)))
    }

    fn handle_response(&self, data: &PaymentRouterCancelData, res: Response) -> (r: Result<
        PaymentRouterCancelData,
        ConnectorError,
    >)
        ensures
            r == void_outcome(*data, json_document(res.response@)),
    {
        read_void_answer(data, parse_json(res.response.as_slice()), res.status_code)
    }
}

/// The body of a refund request: the document of the refund request,
/// encoded.
pub open spec fn refund_body(req: RefundsRouterData<Execute>) -> Result<
    Seq<char>,
    ConnectorErrorView,
> {
    match adyen::AdyenRefundRequest::spec_try_from(req) {
        Ok(request) => encoded(request.json()),
        Err(_) => Err(ConnectorErrorView::RequestEncodingFailed),
    }
}

/// The URL of a refund request: the reversals of the payment that is
/// refunded, by its id at Adyen.
pub open spec fn refund_url(base: Seq<char>, connector_transaction_id: Seq<char>) -> Seq<char> {
    base + "v68/payments/"@ + connector_transaction_id + "/reversals"@
}

/// What reading the answer to a refund request comes to, given the document
/// that the answer holds.
pub open spec fn refund_outcome(data: RefundsRouterData<Execute>, doc: Option<Json>) -> Result<
    RefundsRouterData<Execute>,
    ConnectorError,
> {
    match doc {
        None => Err(ConnectorError::ResponseDeserializationFailed),
        Some(doc) => match adyen::AdyenRefundResponse::spec_from_json(doc) {
            None => Err(ConnectorError::ResponseDeserializationFailed),
            Some(response) => match adyen::refund_answer(data, response) {
                Ok(answered) => Ok(answered),
                Err(_) => Err(ConnectorError::ResponseHandlingFailed),
            },
        },
    }
}

/// Reads the answer to a refund request out of the document that the answer
/// holds.
pub fn read_refund_answer(
    data: &RefundsRouterData<Execute>,
    doc: Option<Json>,
    http_code: u16,
) -> (r: Result<RefundsRouterData<Execute>, ConnectorError>)
    ensures
        r == refund_outcome(*data, doc),
{
    let doc = match doc {
        Some(doc) => doc,
        None => { return Err(ConnectorError::ResponseDeserializationFailed); },
    };
    let response = match adyen::AdyenRefundResponse::from_json(&doc) {
        Some(response) => response,
        None => { return Err(ConnectorError::ResponseDeserializationFailed); },
    };
    let copy = data.clone();
    assert(copy == *data);
    match RouterData::try_from(ResponseRouterData { response, data: copy, http_code }) {
        Ok(answered) => Ok(answered),
        Err(_) => Err(ConnectorError::ResponseHandlingFailed),
    }
}

impl ConnectorIntegration<Execute, RefundsRequestData, RefundsResponseData> for Adyen {
    fn get_headers(&self, req: &RefundsRouterData<Execute>) -> (r: Result<
        Vec<(String, String)>,
        ConnectorError,
    >)
        ensures
            match request_headers(req.connector_auth_type) {
                Some(headers) => r matches Ok(sent) && sent.deep_view() == headers,
                None => r == Err::<Vec<(String, String)>, ConnectorError>(
                    ConnectorError::FailedToObtainAuthType,
                ),
            },
    {
        self.standard_headers(&req.connector_auth_type)
    }

    fn get_url(&self, req: &RefundsRouterData<Execute>, connectors: Connectors) -> (r: Result<
        String,
        ConnectorError,
    >)
        ensures
            r matches Ok(url) && url@ == refund_url(
                connectors.adyen.base_url@,
                req.request.connector_transaction_id@,
            ),
    {
        Ok(
            self.base_url(connectors).concat("v68/payments/").concat(
                req.request.connector_transaction_id.as_str(),
            ).concat("/reversals"),
        )
    }

    fn get_request_body(&self, req: &RefundsRouterData<Execute>) -> (r: Result<
        Option<String>,
        ConnectorError,
    >)
        ensures
            is_body(r, refund_body(*req)),
    {
        match adyen::AdyenRefundRequest::try_from(req) {
            Ok(request) => encode(&request.to_json()),
            Err(_) => Err(ConnectorError::RequestEncodingFailed),
        }
    }

    fn build_request(&self, req: &RefundsRouterData<Execute>, connectors: Connectors) -> (r: Result<
        Option<Request>,
        ConnectorError,
    >)
        ensures
            is_built(
                r,
                refund_url(connectors.adyen.base_url@, req.request.connector_transaction_id@),
                request_headers(req.connector_auth_type),
                refund_body(*req),
            ),
    {
        let url = <Adyen as ConnectorIntegration<
            Execute,
            RefundsRequestData,
            RefundsResponseData,
        >>::get_url(self, req, connectors)?;
        let headers = <Adyen as ConnectorIntegration<
            Execute,
            RefundsRequestData,
            RefundsResponseData,
        >>::get_headers(self, req)?;
        let body = <Adyen as ConnectorIntegration<
            Execute,
            RefundsRequestData,
            RefundsResponseData,
        >>::get_request_body(self, req)?;
        Ok(Some(Adyen::post(url, headers, body)))
    }

    fn handle_response(&self, data: &RefundsRouterData<Execute>, res: Response) -> (r: Result<
        RefundsRouterData<Execute>,
        ConnectorError,
    >)
        ensures
            r == refund_outcome(*data, json_document(res.response@)),
    {
        read_refund_answer(data, parse_json(res.response.as_slice()), res.status_code)
    }
}

/// Adyen captures are not offered through this connector.
impl ConnectorIntegration<PCapture, PaymentsRequestCaptureData, PaymentsResponseData> for Adyen {

}

/// Adyen reports the outcome of a refund by webhook: there is no refund
/// sync.
impl ConnectorIntegration<RSync, RefundsRequestData, RefundsResponseData> for Adyen {

}

impl ConnectorRedirectResponse for Adyen {
    /// After a redirect the router always asks Adyen again.
    fn get_flow_type(&self, query_params: &str) -> (r: Result<CallConnectorAction, ConnectorError>)
        ensures
            r == Ok::<CallConnectorAction, ConnectorError>(CallConnectorAction::Trigger),
    {
        Ok(CallConnectorAction::Trigger)
    }
}

/// The byte that parts the fields of the signed message: a colon.
pub const FIELD_SEPARATOR: u8 = 58;

/// The text of a field that may be absent: empty where it is.
pub open spec fn text_or_empty(field: Option<String>) -> Seq<char> {
    match field {
        Some(t) => t@,
        None => Seq::empty(),
    }
}

/// The message that Adyen signs for a notification: eight fields in a fixed
/// order, parted by colons. An absent original reference is an empty field.
pub open spec fn canonical_message(notif: adyen::AdyenNotificationRequestItemWH) -> Seq<u8> {
    encode_utf8(notif.psp_reference@) + seq![FIELD_SEPARATOR] + encode_utf8(
        text_or_empty(notif.original_reference),
    ) + seq![FIELD_SEPARATOR] + encode_utf8(notif.merchant_account_code@) + seq![FIELD_SEPARATOR]
        + encode_utf8(notif.merchant_reference@) + seq![FIELD_SEPARATOR] + decimal(
        notif.amount.value as int,
    ) + seq![FIELD_SEPARATOR] + encode_utf8(notif.amount.currency@) + seq![FIELD_SEPARATOR]
        + encode_utf8(notif.event_code@) + seq![FIELD_SEPARATOR] + encode_utf8(notif.success@)
}

/// Whether two notifications hold the same texts and the same amount.
pub open spec fn same_notification(
    a: adyen::AdyenNotificationRequestItemWH,
    b: adyen::AdyenNotificationRequestItemWH,
) -> bool {
    &&& a.psp_reference@ == b.psp_reference@
    &&& text_or_empty(a.original_reference) == text_or_empty(b.original_reference)
    &&& a.merchant_account_code@ == b.merchant_account_code@
    &&& a.merchant_reference@ == b.merchant_reference@
    &&& a.amount.value == b.amount.value
    &&& a.amount.currency@ == b.amount.currency@
    &&& a.event_code@ == b.event_code@
    &&& a.success@ == b.success@
}

/// The signed message is a matter of the signed fields alone: two
/// notifications that agree on them have the same message, byte for byte.
/// Whether the original reference is absent or empty makes no difference.
pub proof fn lemma_canonical_message_stable(
    a: adyen::AdyenNotificationRequestItemWH,
    b: adyen::AdyenNotificationRequestItemWH,
)
    requires
        same_notification(a, b),
    ensures
        canonical_message(a) == canonical_message(b),
{
}

/// Whether none of the signed texts of a notification holds a colon.
pub open spec fn colon_free_notification(notif: adyen::AdyenNotificationRequestItemWH) -> bool {
    &&& colon_free(notif.psp_reference@)
    &&& colon_free(text_or_empty(notif.original_reference))
    &&& colon_free(notif.merchant_account_code@)
    &&& colon_free(notif.merchant_reference@)
    &&& colon_free(notif.amount.currency@)
    &&& colon_free(notif.event_code@)
    &&& colon_free(notif.success@)
}

/// A change to any signed field changes the signed message: two
/// notifications whose signed texts hold no colon have the same message
/// only if they agree on every signed field. A signature is accepted only as
/// the tag of the message, so a notification that was changed after signing
/// is checked against the tag of another message.
pub proof fn lemma_canonical_message_tells_fields_apart(
    a: adyen::AdyenNotificationRequestItemWH,
    b: adyen::AdyenNotificationRequestItemWH,
)
    requires
        colon_free_notification(a),
        colon_free_notification(b),
        canonical_message(a) == canonical_message(b),
    ensures
        same_notification(a, b),
{
    let a1 = encode_utf8(a.psp_reference@);
    let a2 = a1 + seq![58u8] + encode_utf8(text_or_empty(a.original_reference));
    let a3 = a2 + seq![58u8] + encode_utf8(a.merchant_account_code@);
    let a4 = a3 + seq![58u8] + encode_utf8(a.merchant_reference@);
    let a5 = a4 + seq![58u8] + decimal(a.amount.value as int);
    let a6 = a5 + seq![58u8] + encode_utf8(a.amount.currency@);
    let a7 = a6 + seq![58u8] + encode_utf8(a.event_code@);
    let b1 = encode_utf8(b.psp_reference@);
    let b2 = b1 + seq![58u8] + encode_utf8(text_or_empty(b.original_reference));
    let b3 = b2 + seq![58u8] + encode_utf8(b.merchant_account_code@);
    let b4 = b3 + seq![58u8] + encode_utf8(b.merchant_reference@);
    let b5 = b4 + seq![58u8] + decimal(b.amount.value as int);
    let b6 = b5 + seq![58u8] + encode_utf8(b.amount.currency@);
    let b7 = b6 + seq![58u8] + encode_utf8(b.event_code@);
    assert(canonical_message(a) == a7 + seq![58u8] + encode_utf8(a.success@));
    assert(canonical_message(b) == b7 + seq![58u8] + encode_utf8(b.success@));
    lemma_colon_free_bytes(a.psp_reference@);
    lemma_colon_free_bytes(text_or_empty(a.original_reference));
    lemma_colon_free_bytes(a.merchant_account_code@);
    lemma_colon_free_bytes(a.merchant_reference@);
    lemma_colon_free_bytes(a.amount.currency@);
    lemma_colon_free_bytes(a.event_code@);
    lemma_colon_free_bytes(a.success@);
    lemma_colon_free_bytes(b.psp_reference@);
    lemma_colon_free_bytes(text_or_empty(b.original_reference));
    lemma_colon_free_bytes(b.merchant_account_code@);
    lemma_colon_free_bytes(b.merchant_reference@);
    lemma_colon_free_bytes(b.amount.currency@);
    lemma_colon_free_bytes(b.event_code@);
    lemma_colon_free_bytes(b.success@);
    lemma_decimal_has_no_colon(a.amount.value as int);
    lemma_decimal_has_no_colon(b.amount.value as int);
    lemma_split_at_last_colon(a7, encode_utf8(a.success@), b7, encode_utf8(b.success@));
    lemma_split_at_last_colon(a6, encode_utf8(a.event_code@), b6, encode_utf8(b.event_code@));
    lemma_split_at_last_colon(
        a5,
        encode_utf8(a.amount.currency@),
        b5,
        encode_utf8(b.amount.currency@),
    );
    lemma_split_at_last_colon(
        a4,
        decimal(a.amount.value as int),
        b4,
        decimal(b.amount.value as int),
    );
    lemma_split_at_last_colon(
        a3,
        encode_utf8(a.merchant_reference@),
        b3,
        encode_utf8(b.merchant_reference@),
    );
    lemma_split_at_last_colon(
        a2,
        encode_utf8(a.merchant_account_code@),
        b2,
        encode_utf8(b.merchant_account_code@),
    );
    lemma_split_at_last_colon(
        a1,
        encode_utf8(text_or_empty(a.original_reference)),
        b1,
        encode_utf8(text_or_empty(b.original_reference)),
    );
    lemma_utf8_injective(a.psp_reference@, b.psp_reference@);
    lemma_utf8_injective(
        text_or_empty(a.original_reference),
        text_or_empty(b.original_reference),
    );
    lemma_utf8_injective(a.merchant_account_code@, b.merchant_account_code@);
    lemma_utf8_injective(a.merchant_reference@, b.merchant_reference@);
    lemma_utf8_injective(a.amount.currency@, b.amount.currency@);
    lemma_utf8_injective(a.event_code@, b.event_code@);
    lemma_utf8_injective(a.success@, b.success@);
    lemma_decimal_injective(a.amount.value as int, b.amount.value as int);
}

fn push_field(out: &mut Vec<u8>, field: &str)
    ensures
        final(out)@ == old(out)@ + encode_utf8(field@),
{
    out.extend_from_slice(field.as_bytes());
    assert(out@ =~= old(out)@ + encode_utf8(field@));
}

fn push_separator(out: &mut Vec<u8>)
    ensures
        final(out)@ == old(out)@ + seq![FIELD_SEPARATOR],
{
    out.push(FIELD_SEPARATOR);
    assert(out@ =~= old(out)@ + seq![FIELD_SEPARATOR]);
}

/// Builds the message that Adyen signs for a notification.
pub fn webhook_message(notif: &adyen::AdyenNotificationRequestItemWH) -> (r: Vec<u8>)
    ensures
        r@ == canonical_message(*notif),
{
    let mut out: Vec<u8> = Vec::new();
    push_field(&mut out, notif.psp_reference.as_str());
    push_separator(&mut out);
    match &notif.original_reference {
        Some(reference) => {
            push_field(&mut out, reference.as_str());
        },
        None => {
            assert(encode_utf8(Seq::<char>::empty()) =~= Seq::<u8>::empty()) by {
                reveal_with_fuel(encode_utf8, 1);
            }
            assert(out@ =~= out@ + encode_utf8(text_or_empty(notif.original_reference)));
        },
    }
    push_separator(&mut out);
    push_field(&mut out, notif.merchant_account_code.as_str());
    push_separator(&mut out);
    push_field(&mut out, notif.merchant_reference.as_str());
    push_separator(&mut out);
    push_decimal(&mut out, notif.amount.value);
    push_separator(&mut out);
    push_field(&mut out, notif.amount.currency.as_str());
    push_separator(&mut out);
    push_field(&mut out, notif.event_code.as_str());
    push_separator(&mut out);
    push_field(&mut out, notif.success.as_str());
    assert(out@ =~= canonical_message(*notif));
    out
}

/// The first notification of the webhook that a document holds. A body
/// that is no document, a document that is no webhook, and a webhook
/// without notifications all fail alike.
pub open spec fn webhook_object(doc: Option<Json>) -> Result<
    adyen::AdyenNotificationRequestItemWH,
    ParsingError,
> {
    match doc {
        None => Err(ParsingError),
        Some(doc) => match adyen::AdyenIncomingWebhook::spec_items(doc) {
            None => Err(ParsingError),
            Some(items) => if items.len() == 0 {
                Err(ParsingError)
            } else {
                Ok(items[0].notification_request_item)
            },
        },
    }
}

/// Finds the first notification of the webhook that a document holds.
pub fn webhook_object_of(doc: Option<Json>) -> (r: Result<
    adyen::AdyenNotificationRequestItemWH,
    ParsingError,
>)
    ensures
        r == webhook_object(doc),
{
    let doc = match doc {
        Some(doc) => doc,
        None => { return Err(ParsingError); },
    };
    let webhook = match adyen::AdyenIncomingWebhook::from_json(&doc) {
        Some(webhook) => webhook,
        None => { return Err(ParsingError); },
    };
    let mut items = webhook.notification_items;
    if items.len() == 0 {
        return Err(ParsingError);
    }
    let item_object = items.remove(0);
    Ok(item_object.notification_request_item)
}

/// Reads the first notification out of the body of a webhook.
pub fn get_webhook_object_from_body(body: &[u8]) -> (r: Result<
    adyen::AdyenNotificationRequestItemWH,
    ParsingError,
>)
    ensures
        r == webhook_object(json_document(body@)),
{
    webhook_object_of(parse_json(body))
}

/// The signature that a notification carries: its base64 text, decoded.
pub open spec fn carried_signature(notif: adyen::AdyenNotificationRequestItemWH) -> Option<
    Seq<u8>,
> {
    let encoded = encode_utf8(notif.additional_data.hmac_signature@);
    if encoded.len() + 3 > usize::MAX {
        None
    } else {
        base64_decoded(encoded)
    }
}

/// Decodes the signature that a notification carries.
pub fn webhook_signature(notif: &adyen::AdyenNotificationRequestItemWH) -> (r: Option<Vec<u8>>)
    ensures
        match r {
            Some(signature) => carried_signature(*notif) == Some(signature@),
            None => carried_signature(*notif) is None,
        },
{
    let encoded = notif.additional_data.hmac_signature.as_str().as_bytes();
    if encoded.len() > usize::MAX - 3 {
        return None;
    }
    base64_decode(encoded)
}

/// The generic event that an event code of Adyen stands for.
pub open spec fn event_of(event_code: Seq<char>) -> Option<IncomingWebhookEvent> {
    if event_code == "AUTHORISATION"@ {
        Some(IncomingWebhookEvent::PaymentIntentSuccess)
    } else {
        None
    }
}

/// Finds the generic event that a notification reports.
pub fn webhook_event(notif: &adyen::AdyenNotificationRequestItemWH) -> (r: Option<
    IncomingWebhookEvent,
>)
    ensures
        r == event_of(notif.event_code@),
{
    if notif.event_code == text("AUTHORISATION") {
        Some(IncomingWebhookEvent::PaymentIntentSuccess)
    } else {
        None
    }
}

/// The key under which the secret store keeps a merchant's webhook secret
/// for the connector `connector_id`.
pub open spec fn secret_key(connector_id: Seq<char>, merchant_id: Seq<char>) -> Seq<char> {
    "whsec_verification_"@ + connector_id + "_"@ + merchant_id
}

/// What checking the source of a webhook comes to, given the notification
/// it holds and what the secret store answered: a malformed body or
/// signature fails first, then a missing secret; with both at hand the
/// webhook is accepted exactly if the signature it carries is the
/// HMAC-SHA256 tag of its canonical message under the secret.
pub open spec fn source_verification(
    notif: Result<adyen::AdyenNotificationRequestItemWH, ParsingError>,
    found: Option<Vec<u8>>,
) -> Result<bool, ConnectorError> {
    match notif {
        Err(_) => Err(ConnectorError::WebhookSourceVerificationFailed),
        Ok(notif) => match carried_signature(notif) {
            None => Err(ConnectorError::WebhookSourceVerificationFailed),
            Some(signature) => match found {
                None => Err(ConnectorError::WebhookVerificationSecretNotFound),
                Some(secret) => Ok(
                    signature == hmac_sha256_tag(secret@, canonical_message(notif)),
                ),
            },
        },
    }
}

/// What is known of a webhook once its body is read and before its secret
/// is fetched: the signature it carries, the message that was signed, and
/// the key under which the secret is kept.
#[derive(Debug, PartialEq, Eq)]
pub struct PendingVerification {
    pub algorithm: VerificationAlgorithm,
    pub signature: Vec<u8>,
    pub message: Vec<u8>,
    pub secret_key: String,
}

/// Whether `r` is what reading a webhook for verification comes to: the
/// failure of a malformed body or signature, else the signature, the
/// canonical message and the key of the merchant's secret.
pub open spec fn is_pending_verification(
    r: Result<PendingVerification, ConnectorError>,
    notif: Result<adyen::AdyenNotificationRequestItemWH, ParsingError>,
    merchant_id: Seq<char>,
) -> bool {
    match notif {
        Err(_) => r == Err::<PendingVerification, ConnectorError>(
            ConnectorError::WebhookSourceVerificationFailed,
        ),
        Ok(notif) => match carried_signature(notif) {
            None => r == Err::<PendingVerification, ConnectorError>(
                ConnectorError::WebhookSourceVerificationFailed,
            ),
            Some(signature) => r matches Ok(pending) && {
                &&& pending.algorithm == VerificationAlgorithm::HmacSha256
                &&& pending.signature@ == signature
                &&& pending.message@ == canonical_message(notif)
                &&& pending.secret_key@ == secret_key("adyen"@, merchant_id)
            },
        },
    }
}

/// What checking a signature against the merchant's secret comes to:
/// without a secret nothing is compared; with one, the webhook is accepted
/// exactly if the signature is the HMAC-SHA256 tag of the message under
/// the secret.
pub open spec fn verification_outcome(
    pending: PendingVerification,
    found: Option<Vec<u8>>,
) -> Result<bool, ConnectorError> {
    match found {
        None => Err(ConnectorError::WebhookVerificationSecretNotFound),
        Some(secret) => Ok(pending.signature@ == hmac_sha256_tag(secret@, pending.message@)),
    }
}

impl Adyen {
    /// The first half of checking that a webhook comes from Adyen: reads
    /// the body and says under which key the merchant's secret is kept. The
    /// secret store is asked only after this has succeeded.
    pub fn begin_webhook_verification(
        &self,
        headers: &Vec<(String, String)>,
        body: &[u8],
        merchant_id: &str,
    ) -> (r: Result<PendingVerification, ConnectorError>)
        ensures
            is_pending_verification(r, webhook_object(json_document(body@)), merchant_id@),
    {
        let algorithm = self.get_webhook_source_verification_algorithm(headers, body)?;
        let notif = match get_webhook_object_from_body(body) {
            Ok(notif) => notif,
            Err(_) => { return Err(ConnectorError::WebhookSourceVerificationFailed); },
        };
        let signature = match webhook_signature(&notif) {
            Some(signature) => signature,
            None => { return Err(ConnectorError::WebhookSourceVerificationFailed); },
        };
        let message = webhook_message(&notif);
        let secret_key = self.get_webhook_source_verification_secret_key(merchant_id);
        Ok(PendingVerification { algorithm, signature, message, secret_key })
    }

    /// The second half: `found` is what the secret store answered for the
    /// key that the first half named.
    pub fn finish_webhook_verification(
        &self,
        pending: &PendingVerification,
        merchant_id: &str,
        found: Option<Vec<u8>>,
    ) -> (r: Result<bool, ConnectorError>)
        ensures
            r == verification_outcome(*pending, found),
    {
        let secret = self.get_webhook_source_verification_merchant_secret(merchant_id, found)?;
        match pending.algorithm {
            VerificationAlgorithm::HmacSha256 => Ok(
                verify_hmac_sha256(
                    secret.as_slice(),
                    pending.signature.as_slice(),
                    pending.message.as_slice(),
                ),
            ),
        }
    }

    /// Checks that a webhook comes from Adyen, for a caller that has the
    /// answer of the secret store at hand. Without a secret nothing is
    /// compared.
    pub fn verify_webhook_source(
        &self,
        headers: &Vec<(String, String)>,
        body: &[u8],
        merchant_id: &str,
        found: Option<Vec<u8>>,
    ) -> (r: Result<bool, ConnectorError>)
        ensures
            r == source_verification(webhook_object(json_document(body@)), found),
    {
        let pending = self.begin_webhook_verification(headers, body, merchant_id)?;
        self.finish_webhook_verification(&pending, merchant_id, found)
    }
}

impl IncomingWebhook for Adyen {
    fn get_webhook_source_verification_algorithm(
        &self,
        headers: &Vec<(String, String)>,
        body: &[u8],
    ) -> (r: Result<VerificationAlgorithm, ConnectorError>)
        ensures
            r == Ok::<VerificationAlgorithm, ConnectorError>(VerificationAlgorithm::HmacSha256),
    {
        Ok(VerificationAlgorithm::HmacSha256)
    }

    fn get_webhook_source_verification_signature(
        &self,
        headers: &Vec<(String, String)>,
        body: &[u8],
    ) -> (r: Result<Vec<u8>, ConnectorError>)
        ensures
            match webhook_object(json_document(body@)) {
                Ok(notif) => match carried_signature(notif) {
                    Some(signature) => r matches Ok(found) && found@ == signature,
                    None => r == Err::<Vec<u8>, ConnectorError>(
                        ConnectorError::WebhookSourceVerificationFailed,
                    ),
                },
                Err(_) => r == Err::<Vec<u8>, ConnectorError>(
                    ConnectorError::WebhookSourceVerificationFailed,
                ),
            },
    {
        let notif_item = match get_webhook_object_from_body(body) {
            Ok(notif) => notif,
            Err(_) => { return Err(ConnectorError::WebhookSourceVerificationFailed); },
        };
        match webhook_signature(&notif_item) {
            Some(signature) => Ok(signature),
            None => Err(ConnectorError::WebhookSourceVerificationFailed),
        }
    }

    fn get_webhook_source_verification_message(
        &self,
        headers: &Vec<(String, String)>,
        body: &[u8],
    ) -> (r: Result<Vec<u8>, ConnectorError>)
        ensures
            match webhook_object(json_document(body@)) {
                Ok(notif) => r matches Ok(message) && message@ == canonical_message(notif),
                Err(_) => r == Err::<Vec<u8>, ConnectorError>(
                    ConnectorError::WebhookSourceVerificationFailed,
                ),
            },
    {
        match get_webhook_object_from_body(body) {
            Ok(notif) => Ok(webhook_message(&notif)),
            Err(_) => Err(ConnectorError::WebhookSourceVerificationFailed),
        }
    }

    fn get_webhook_source_verification_secret_key(&self, merchant_id: &str) -> (r: String)
        ensures
            r@ == secret_key("adyen"@, merchant_id@),
    {
        text("whsec_verification_").concat(self.id()).concat("_").concat(merchant_id)
    }

    fn get_webhook_source_verification_merchant_secret(
        &self,
        merchant_id: &str,
        found: Option<Vec<u8>>,
    ) -> (r: Result<Vec<u8>, ConnectorError>)
        ensures
            match found {
                Some(secret) => r == Ok::<Vec<u8>, ConnectorError>(secret),
                None => r == Err::<Vec<u8>, ConnectorError>(
                    ConnectorError::WebhookVerificationSecretNotFound,
                ),
            },
    {
        match found {
            Some(secret) => Ok(secret),
            None => Err(ConnectorError::WebhookVerificationSecretNotFound),
        }
    }

    fn get_webhook_object_reference_id(&self, body: &[u8]) -> (r: Result<String, ConnectorError>)
        ensures
            match webhook_object(json_document(body@)) {
                Ok(notif) => r == Ok::<String, ConnectorError>(notif.psp_reference),
                Err(_) => r == Err::<String, ConnectorError>(
                    ConnectorError::WebhookReferenceIdNotFound,
                ),
            },
    {
        match get_webhook_object_from_body(body) {
            Ok(notif) => Ok(notif.psp_reference),
            Err(_) => Err(ConnectorError::WebhookReferenceIdNotFound),
        }
    }

    fn get_webhook_event_type(&self, body: &[u8]) -> (r: Result<
        IncomingWebhookEvent,
        ConnectorError,
    >)
        ensures
            match webhook_object(json_document(body@)) {
                Ok(notif) => match event_of(notif.event_code@) {
                    Some(event) => r == Ok::<IncomingWebhookEvent, ConnectorError>(event),
                    None => r == Err::<IncomingWebhookEvent, ConnectorError>(
                        ConnectorError::WebhookEventTypeNotFound,
                    ),
                },
                Err(_) => r == Err::<IncomingWebhookEvent, ConnectorError>(
                    ConnectorError::WebhookEventTypeNotFound,
                ),
            },
    {
        let notif = match get_webhook_object_from_body(body) {
            Ok(notif) => notif,
            Err(_) => { return Err(ConnectorError::WebhookEventTypeNotFound); },
        };
        match webhook_event(&notif) {
            Some(event) => Ok(event),
            None => Err(ConnectorError::WebhookEventTypeNotFound),
        }
    }

    fn get_webhook_resource_object(&self, body: &[u8]) -> (r: Result<Json, ConnectorError>)
        ensures
            match webhook_object(json_document(body@)) {
                Ok(notif) => r matches Ok(doc) && doc@ == adyen::notification_document(notif),
                Err(_) => r == Err::<Json, ConnectorError>(
                    ConnectorError::WebhookResourceObjectNotFound,
                ),
            },
    {
        let notif = match get_webhook_object_from_body(body) {
            Ok(notif) => notif,
            Err(_) => { return Err(ConnectorError::WebhookResourceObjectNotFound); },
        };
        let response = adyen::AdyenResponse::from_notification(notif);
        Ok(response.to_json())
    }

    fn get_webhook_api_response(&self) -> (r: Result<ApiResponse, ConnectorError>)
        ensures
            r matches Ok(ApiResponse::TextPlain(token)) && token@ == "[accepted]"@,
    {
        Ok(ApiResponse::TextPlain(text("[accepted]")))
    }
}

} // verus!

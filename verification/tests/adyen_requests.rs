use router::api::{ConnectorCommon, ConnectorIntegration, ConnectorRedirectResponse};
use router::connector::adyen::transformers::{
    AdyenAuthType, AdyenCancelRequest, AdyenCard, AdyenPaymentMethod, AdyenPaymentRequest,
    AdyenRedirectRequest, AdyenRedirectRequestTypes, AdyenRedirection, AdyenRefundRequest,
    AdyenShopperInteraction, AdyenThreeDS, Amount,
};
use router::connector::adyen::Adyen;
use router::errors::ConnectorError;
use router::json::{parse_json, render_json};
use router::types::{
    AttemptStatus, Authorize, CCard, CallConnectorAction, ConnectorAuthType, ConnectorParams,
    Connectors, Execute, Method, PCapture, PSync, PaymentMethod, PaymentMethodType,
    PaymentRequestCancelData, PaymentRouterCancelData, PaymentsRequestCaptureData,
    PaymentsRequestData, PaymentsRequestSyncData, PaymentsResponseData, PaymentsRouterData,
    PaymentsRouterSyncData, RSync, RefundsRequestData, RefundsResponseData, RefundsRouterData,
    Response, ResponseSlot, RouterData, Void, WalletData, WalletIssuer,
};
use std::marker::PhantomData;

fn request_connectors() -> Connectors {
    Connectors {
        adyen: ConnectorParams { base_url: "https://checkout-test.adyen.com/".to_string() },
        bambora: ConnectorParams { base_url: "https://api.na.bambora.com/".to_string() },
    }
}

fn request_auth() -> ConnectorAuthType {
    ConnectorAuthType::BodyKey { api_key: "AQEyhmfx".to_string(), key1: "TestMerchant".to_string() }
}

fn request_card() -> PaymentMethod {
    PaymentMethod::Card(CCard {
        card_number: "4111111111111111".to_string(),
        card_exp_month: "03".to_string(),
        card_exp_year: "2030".to_string(),
        card_holder_name: "John Smith".to_string(),
        card_cvc: "737".to_string(),
    })
}

fn authorize_envelope(auth: ConnectorAuthType, method: PaymentMethod) -> PaymentsRouterData {
    RouterData {
        flow: PhantomData,
        merchant_id: "merchant_1".to_string(),
        connector: "adyen".to_string(),
        payment_id: "pay_1".to_string(),
        status: AttemptStatus::Started,
        payment_method: PaymentMethodType::Card,
        connector_auth_type: auth,
        return_url: Some("https://example.com/return".to_string()),
        request: PaymentsRequestData {
            payment_method_data: method,
            amount: 1000,
            currency: "USD".to_string(),
            off_session: None,
        },
        response: ResponseSlot::Pending,
    }
}

fn sync_envelope(encoded_data: Option<&str>) -> PaymentsRouterSyncData {
    RouterData {
        flow: PhantomData,
        merchant_id: "merchant_1".to_string(),
        connector: "adyen".to_string(),
        payment_id: "pay_1".to_string(),
        status: AttemptStatus::AuthenticationPending,
        payment_method: PaymentMethodType::Card,
        connector_auth_type: request_auth(),
        return_url: None,
        request: PaymentsRequestSyncData {
            connector_transaction_id: "psp_1".to_string(),
            encoded_data: encoded_data.map(|s| s.to_string()),
        },
        response: ResponseSlot::Pending,
    }
}

fn void_envelope(auth: ConnectorAuthType) -> PaymentRouterCancelData {
    RouterData {
        flow: PhantomData,
        merchant_id: "merchant_1".to_string(),
        connector: "adyen".to_string(),
        payment_id: "pay_1".to_string(),
        status: AttemptStatus::Charged,
        payment_method: PaymentMethodType::Card,
        connector_auth_type: auth,
        return_url: None,
        request: PaymentRequestCancelData {
            connector_transaction_id: "psp_1".to_string(),
            cancellation_reason: None,
        },
        response: ResponseSlot::Pending,
    }
}

fn refund_envelope(auth: ConnectorAuthType) -> RefundsRouterData<Execute> {
    RouterData {
        flow: PhantomData,
        merchant_id: "merchant_1".to_string(),
        connector: "adyen".to_string(),
        payment_id: "pay_1".to_string(),
        status: AttemptStatus::Charged,
        payment_method: PaymentMethodType::Card,
        connector_auth_type: auth,
        return_url: None,
        request: RefundsRequestData {
            refund_id: "ref_1".to_string(),
            connector_transaction_id: "psp_1".to_string(),
            refund_amount: 400,
            currency: "USD".to_string(),
        },
        response: ResponseSlot::Pending,
    }
}

fn standard_headers() -> Vec<(String, String)> {
    vec![
        ("Content-Type".to_string(), "application/json".to_string()),
        ("X-Router".to_string(), "test".to_string()),
        ("X-Api-Key".to_string(), "AQEyhmfx".to_string()),
    ]
}

const AUTHORIZE_BODY: &str = "{\"amount\":{\"currency\":\"USD\",\"value\":1000},\
    \"merchantAccount\":\"TestMerchant\",\"paymentMethod\":{\"type\":\"scheme\",\
    \"number\":\"4111111111111111\",\"expiryMonth\":\"03\",\"expiryYear\":\"2030\",\
    \"cvc\":\"737\"},\"reference\":\"pay_1\",\"returnUrl\":\"https://example.com/return\",\
    \"shopperInteraction\":\"Ecommerce\"}";

#[test]
fn adyen_names_itself_and_its_endpoint_root() {
    assert_eq!(Adyen.id(), "adyen");
    assert_eq!(Adyen.base_url(request_connectors()), "https://checkout-test.adyen.com/");
}

#[test]
fn adyen_auth_header_carries_the_api_key() {
    assert_eq!(
        Adyen.get_auth_header(&request_auth()),
        Ok(vec![("X-Api-Key".to_string(), "AQEyhmfx".to_string())])
    );
    assert_eq!(
        Adyen.get_auth_header(&ConnectorAuthType::HeaderKey { api_key: "k".to_string() }),
        Err(ConnectorError::FailedToObtainAuthType)
    );
    assert_eq!(
        AdyenAuthType::try_from(&request_auth()),
        Ok(AdyenAuthType {
            api_key: "AQEyhmfx".to_string(),
            merchant_account: "TestMerchant".to_string(),
        })
    );
}

#[test]
fn authorize_request_for_a_card_is_a_post_with_key_and_card() {
    let req = authorize_envelope(request_auth(), request_card());
    let request = <Adyen as ConnectorIntegration<
        Authorize,
        PaymentsRequestData,
        PaymentsResponseData,
    >>::build_request(&Adyen, &req, request_connectors())
    .unwrap()
    .unwrap();
    assert_eq!(request.method, Method::Post);
    assert_eq!(request.url, "https://checkout-test.adyen.com/v68/payments");
    assert!(request.url.ends_with("v68/payments"));
    assert!(request.headers.contains(&("X-Api-Key".to_string(), "AQEyhmfx".to_string())));
    assert_eq!(request.headers, standard_headers());
    let body = request.body.unwrap();
    assert!(!body.is_empty());
    assert!(body.contains("\"number\":\"4111111111111111\""));
    assert!(body.contains("\"cvc\":\"737\""));
    assert_eq!(body, AUTHORIZE_BODY);
}

#[test]
fn authorize_accessors_agree_with_the_built_request() {
    let req = authorize_envelope(request_auth(), request_card());
    assert_eq!(
        <Adyen as ConnectorIntegration<Authorize, PaymentsRequestData, PaymentsResponseData>>::get_url(
            &Adyen,
            &req,
            request_connectors()
        ),
        Ok("https://checkout-test.adyen.com/v68/payments".to_string())
    );
    assert_eq!(
        <Adyen as ConnectorIntegration<
            Authorize,
            PaymentsRequestData,
            PaymentsResponseData,
        >>::get_headers(&Adyen, &req),
        Ok(standard_headers())
    );
    assert_eq!(
        <Adyen as ConnectorIntegration<
            Authorize,
            PaymentsRequestData,
            PaymentsResponseData,
        >>::get_request_body(&Adyen, &req),
        Ok(Some(AUTHORIZE_BODY.to_string()))
    );
    assert_eq!(
        <Adyen as ConnectorIntegration<
            Authorize,
            PaymentsRequestData,
            PaymentsResponseData,
        >>::get_content_type(&Adyen),
        "application/json"
    );
}

#[test]
fn authorize_request_fails_on_credentials_of_another_shape() {
    let req = authorize_envelope(
        ConnectorAuthType::HeaderKey { api_key: "k".to_string() },
        request_card(),
    );
    assert_eq!(
        <Adyen as ConnectorIntegration<
            Authorize,
            PaymentsRequestData,
            PaymentsResponseData,
        >>::build_request(&Adyen, &req, request_connectors()),
        Err(ConnectorError::FailedToObtainAuthType)
    );
    assert_eq!(
        <Adyen as ConnectorIntegration<
            Authorize,
            PaymentsRequestData,
            PaymentsResponseData,
        >>::get_headers(&Adyen, &req),
        Err(ConnectorError::FailedToObtainAuthType)
    );
    assert_eq!(AdyenPaymentRequest::try_from(&req), Err(ConnectorError::FailedToObtainAuthType));
}

#[test]
fn payment_request_is_made_for_cards_and_wallets() {
    let card = AdyenPaymentRequest::try_from(&authorize_envelope(request_auth(), request_card()));
    assert_eq!(
        card,
        Ok(AdyenPaymentRequest {
            amount: Amount { currency: "USD".to_string(), value: 1000 },
            merchant_account: "TestMerchant".to_string(),
            payment_method: AdyenPaymentMethod::AdyenCard(AdyenCard {
                number: "4111111111111111".to_string(),
                expiry_month: "03".to_string(),
                expiry_year: "2030".to_string(),
                cvc: "737".to_string(),
            }),
            reference: "pay_1".to_string(),
            return_url: Some("https://example.com/return".to_string()),
            shopper_interaction: AdyenShopperInteraction::Ecommerce,
        })
    );
    let wallet = |issuer| {
        PaymentMethod::Wallet(WalletData { issuer_name: issuer, token: "tok_1".to_string() })
    };
    let method_of = |method| {
        AdyenPaymentRequest::try_from(&authorize_envelope(request_auth(), method))
            .unwrap()
            .payment_method
    };
    assert_eq!(
        method_of(wallet(WalletIssuer::GooglePay)),
        AdyenPaymentMethod::Gpay { google_pay_token: "tok_1".to_string() }
    );
    assert_eq!(
        method_of(wallet(WalletIssuer::ApplePay)),
        AdyenPaymentMethod::ApplePay { apple_pay_token: "tok_1".to_string() }
    );
    assert_eq!(method_of(wallet(WalletIssuer::Paypal)), AdyenPaymentMethod::AdyenPaypal);
    assert_eq!(method_of(PaymentMethod::Paypal), AdyenPaymentMethod::AdyenPaypal);
}

#[test]
fn payment_request_off_session_is_continued_authentication() {
    let mut req = authorize_envelope(request_auth(), request_card());
    req.request.off_session = Some(true);
    assert_eq!(
        AdyenPaymentRequest::try_from(&req).unwrap().shopper_interaction,
        AdyenShopperInteraction::ContinuedAuthentication
    );
    req.request.off_session = Some(false);
    assert_eq!(
        AdyenPaymentRequest::try_from(&req).unwrap().shopper_interaction,
        AdyenShopperInteraction::Ecommerce
    );
}

#[test]
fn unsupported_payment_methods_are_not_implemented() {
    for method in [PaymentMethod::BankTransfer, PaymentMethod::PayLater] {
        let req = authorize_envelope(request_auth(), method);
        assert_eq!(
            AdyenPaymentRequest::try_from(&req),
            Err(ConnectorError::NotImplemented("Payment methods".to_string()))
        );
        assert_eq!(
            <Adyen as ConnectorIntegration<
                Authorize,
                PaymentsRequestData,
                PaymentsResponseData,
            >>::get_request_body(&Adyen, &req),
            Err(ConnectorError::NotImplemented("Payment methods".to_string()))
        );
        assert_eq!(
            <Adyen as ConnectorIntegration<
                Authorize,
                PaymentsRequestData,
                PaymentsResponseData,
            >>::build_request(&Adyen, &req, request_connectors()),
            Err(ConnectorError::NotImplemented("Payment methods".to_string()))
        );
    }
}

#[test]
fn unsupported_payment_methods_are_refused_before_the_credentials_are_read() {
    let req = authorize_envelope(
        ConnectorAuthType::HeaderKey { api_key: "k".to_string() },
        PaymentMethod::BankTransfer,
    );
    assert_eq!(
        AdyenPaymentRequest::try_from(&req),
        Err(ConnectorError::NotImplemented("Payment methods".to_string()))
    );
}

#[test]
fn payment_request_without_a_return_url_names_none() {
    let mut req = authorize_envelope(request_auth(), request_card());
    req.return_url = None;
    let request = AdyenPaymentRequest::try_from(&req).unwrap();
    assert_eq!(request.return_url, None);
    let built = <Adyen as ConnectorIntegration<
        Authorize,
        PaymentsRequestData,
        PaymentsResponseData,
    >>::build_request(&Adyen, &req, request_connectors())
    .unwrap()
    .unwrap();
    let body = built.body.unwrap();
    assert_eq!(body, AUTHORIZE_BODY.replace("\"https://example.com/return\"", "null"));
    assert_eq!(
        AdyenPaymentRequest::from_json(&parse_json(body.as_bytes()).unwrap()),
        Some(request)
    );
}

#[test]
fn a_built_request_is_made_of_what_the_accessors_give() {
    let req = authorize_envelope(request_auth(), request_card());
    let built = <Adyen as ConnectorIntegration<
        Authorize,
        PaymentsRequestData,
        PaymentsResponseData,
    >>::build_request(&Adyen, &req, request_connectors())
    .unwrap()
    .unwrap();
    let url = <Adyen as ConnectorIntegration<
        Authorize,
        PaymentsRequestData,
        PaymentsResponseData,
    >>::get_url(&Adyen, &req, request_connectors())
    .unwrap();
    let headers = <Adyen as ConnectorIntegration<
        Authorize,
        PaymentsRequestData,
        PaymentsResponseData,
    >>::get_headers(&Adyen, &req)
    .unwrap();
    let body = <Adyen as ConnectorIntegration<
        Authorize,
        PaymentsRequestData,
        PaymentsResponseData,
    >>::get_request_body(&Adyen, &req)
    .unwrap();
    assert_eq!(built.method, Method::Post);
    assert_eq!(built.url, url);
    assert_eq!(built.headers, headers);
    assert_eq!(built.body, body);
}

#[test]
fn payment_request_bodies_round_trip_for_every_supported_method() {
    let methods = vec![
        request_card(),
        PaymentMethod::Wallet(WalletData {
            issuer_name: WalletIssuer::GooglePay,
            token: "g_tok".to_string(),
        }),
        PaymentMethod::Wallet(WalletData {
            issuer_name: WalletIssuer::ApplePay,
            token: "a_tok".to_string(),
        }),
        PaymentMethod::Paypal,
    ];
    for method in methods {
        let request =
            AdyenPaymentRequest::try_from(&authorize_envelope(request_auth(), method)).unwrap();
        let body = render_json(&request.to_json()).unwrap();
        let read_back = AdyenPaymentRequest::from_json(&parse_json(body.as_bytes()).unwrap());
        assert_eq!(read_back, Some(request));
    }
}

#[test]
fn sync_request_sends_the_redirect_result_alone() {
    let req = sync_envelope(Some("redirectResult=X6XtfGC3%21Y&type=complete&resultCode=authorised"));
    let request = <Adyen as ConnectorIntegration<
        PSync,
        PaymentsRequestSyncData,
        PaymentsResponseData,
    >>::build_request(&Adyen, &req, request_connectors())
    .unwrap()
    .unwrap();
    assert_eq!(request.method, Method::Post);
    assert_eq!(request.url, "https://checkout-test.adyen.com/v68/payments/details");
    assert_eq!(request.headers, standard_headers());
    assert_eq!(
        request.body.unwrap(),
        "{\"details\":{\"redirectResult\":\"X6XtfGC3!Y\",\"type\":null,\"resultCode\":null}}"
    );
}

#[test]
fn sync_request_sends_a_three_ds_result_alone() {
    let req = sync_envelope(Some("threeDSResult=eyJ0cmFucyI6IjEifQ%3D%3D"));
    assert_eq!(
        <Adyen as ConnectorIntegration<
            PSync,
            PaymentsRequestSyncData,
            PaymentsResponseData,
        >>::get_request_body(&Adyen, &req),
        Ok(Some(
            "{\"details\":{\"threeDSResult\":\"eyJ0cmFucyI6IjEifQ==\",\"type\":null,\
             \"resultCode\":null}}"
                .to_string()
        ))
    );
}

#[test]
fn sync_request_without_encoded_data_cannot_be_encoded() {
    assert_eq!(
        <Adyen as ConnectorIntegration<
            PSync,
            PaymentsRequestSyncData,
            PaymentsResponseData,
        >>::get_request_body(&Adyen, &sync_envelope(None)),
        Err(ConnectorError::RequestEncodingFailed)
    );
}

#[test]
fn sync_request_without_a_result_cannot_be_encoded() {
    assert_eq!(
        <Adyen as ConnectorIntegration<
            PSync,
            PaymentsRequestSyncData,
            PaymentsResponseData,
        >>::get_request_body(&Adyen, &sync_envelope(Some("type=complete"))),
        Err(ConnectorError::RequestEncodingFailed)
    );
    assert_eq!(
        <Adyen as ConnectorIntegration<
            PSync,
            PaymentsRequestSyncData,
            PaymentsResponseData,
        >>::build_request(&Adyen, &sync_envelope(Some("")), request_connectors()),
        Err(ConnectorError::RequestEncodingFailed)
    );
}

#[test]
fn redirect_results_are_read_from_pairs_and_round_trip() {
    let pairs = vec![
        ("type".to_string(), "complete".to_string()),
        ("redirectResult".to_string(), "abc".to_string()),
        ("threeDSResult".to_string(), "def".to_string()),
    ];
    let details = AdyenRedirectRequestTypes::from_pairs(&pairs).unwrap();
    assert_eq!(
        details,
        AdyenRedirectRequestTypes::AdyenRedirection(AdyenRedirection {
            redirect_result: "abc".to_string(),
            type_of_redirection_result: Some("complete".to_string()),
            result_code: None,
        })
    );
    let request = AdyenRedirectRequest { details };
    let body = render_json(&request.to_json()).unwrap();
    assert_eq!(
        body,
        "{\"details\":{\"redirectResult\":\"abc\",\"type\":\"complete\",\"resultCode\":null}}"
    );
    assert_eq!(
        AdyenRedirectRequest::from_json(&parse_json(body.as_bytes()).unwrap()),
        Some(request)
    );
    let three_ds = AdyenRedirectRequest {
        details: AdyenRedirectRequestTypes::AdyenThreeDS(AdyenThreeDS {
            three_ds_result: "def".to_string(),
            type_of_redirection_result: None,
            result_code: Some("ok".to_string()),
        }),
    };
    let body = render_json(&three_ds.to_json()).unwrap();
    assert_eq!(
        AdyenRedirectRequest::from_json(&parse_json(body.as_bytes()).unwrap()),
        Some(three_ds)
    );
}

#[test]
fn void_request_addresses_the_payment_in_its_url() {
    let req = void_envelope(request_auth());
    let request = <Adyen as ConnectorIntegration<
        Void,
        PaymentRequestCancelData,
        PaymentsResponseData,
    >>::build_request(&Adyen, &req, request_connectors())
    .unwrap()
    .unwrap();
    assert_eq!(request.method, Method::Post);
    assert_eq!(request.url, "https://checkout-test.adyen.com/v68/payments/psp_1/cancels");
    assert_eq!(request.headers, standard_headers());
    let body = request.body.unwrap();
    assert_eq!(
        body,
        "{\"merchantAccount\":\"TestMerchant\",\"originalReference\":\"psp_1\",\
         \"reference\":\"pay_1\"}"
    );
    assert_eq!(
        AdyenCancelRequest::from_json(&parse_json(body.as_bytes()).unwrap()),
        Some(AdyenCancelRequest::try_from(&req).unwrap())
    );
}

#[test]
fn void_request_fails_on_credentials_of_another_shape() {
    let req = void_envelope(ConnectorAuthType::HeaderKey { api_key: "k".to_string() });
    assert_eq!(AdyenCancelRequest::try_from(&req), Err(ConnectorError::FailedToObtainAuthType));
    assert_eq!(
        <Adyen as ConnectorIntegration<
            Void,
            PaymentRequestCancelData,
            PaymentsResponseData,
        >>::get_request_body(&Adyen, &req),
        Err(ConnectorError::RequestEncodingFailed)
    );
}

#[test]
fn refund_request_addresses_the_payment_in_its_url() {
    let req = refund_envelope(request_auth());
    let request = <Adyen as ConnectorIntegration<
        Execute,
        RefundsRequestData,
        RefundsResponseData,
    >>::build_request(&Adyen, &req, request_connectors())
    .unwrap()
    .unwrap();
    assert_eq!(request.method, Method::Post);
    assert_eq!(request.url, "https://checkout-test.adyen.com/v68/payments/psp_1/reversals");
    assert_eq!(request.headers, standard_headers());
    let body = request.body.unwrap();
    assert_eq!(body, "{\"merchantAccount\":\"TestMerchant\",\"reference\":\"ref_1\"}");
    assert_eq!(
        AdyenRefundRequest::from_json(&parse_json(body.as_bytes()).unwrap()),
        Some(AdyenRefundRequest::try_from(&req).unwrap())
    );
}

#[test]
fn operations_that_adyen_does_not_offer_build_no_request() {
    let capture: RouterData<PCapture, PaymentsRequestCaptureData, PaymentsResponseData> =
        RouterData {
            flow: PhantomData,
            merchant_id: "merchant_1".to_string(),
            connector: "adyen".to_string(),
            payment_id: "pay_1".to_string(),
            status: AttemptStatus::Charged,
            payment_method: PaymentMethodType::Card,
            connector_auth_type: request_auth(),
            return_url: None,
            request: PaymentsRequestCaptureData {
                amount_to_capture: Some(100),
                connector_transaction_id: "psp_1".to_string(),
            },
            response: ResponseSlot::Pending,
        };
    assert_eq!(
        <Adyen as ConnectorIntegration<
            PCapture,
            PaymentsRequestCaptureData,
            PaymentsResponseData,
        >>::build_request(&Adyen, &capture, request_connectors()),
        Ok(None)
    );
    assert_eq!(
        <Adyen as ConnectorIntegration<
            PCapture,
            PaymentsRequestCaptureData,
            PaymentsResponseData,
        >>::get_request_body(&Adyen, &capture),
        Ok(None)
    );
    assert_eq!(
        <Adyen as ConnectorIntegration<
            PCapture,
            PaymentsRequestCaptureData,
            PaymentsResponseData,
        >>::get_headers(&Adyen, &capture),
        Ok(vec![])
    );
    let unchanged = <Adyen as ConnectorIntegration<
        PCapture,
        PaymentsRequestCaptureData,
        PaymentsResponseData,
    >>::handle_response(
        &Adyen,
        &capture,
        Response { response: b"{}".to_vec(), status_code: 200 },
    );
    assert_eq!(unchanged, Ok(capture));

    let sync: RefundsRouterData<RSync> = RouterData {
        flow: PhantomData,
        merchant_id: "merchant_1".to_string(),
        connector: "adyen".to_string(),
        payment_id: "pay_1".to_string(),
        status: AttemptStatus::Charged,
        payment_method: PaymentMethodType::Card,
        connector_auth_type: request_auth(),
        return_url: None,
        request: RefundsRequestData {
            refund_id: "ref_1".to_string(),
            connector_transaction_id: "psp_1".to_string(),
            refund_amount: 400,
            currency: "USD".to_string(),
        },
        response: ResponseSlot::Pending,
    };
    assert_eq!(
        <Adyen as ConnectorIntegration<RSync, RefundsRequestData, RefundsResponseData>>::build_request(
            &Adyen,
            &sync,
            request_connectors()
        ),
        Ok(None)
    );
    assert_eq!(
        <Adyen as ConnectorIntegration<RSync, RefundsRequestData, RefundsResponseData>>::get_url(
            &Adyen,
            &sync,
            request_connectors()
        ),
        Ok(String::new())
    );
}

#[test]
fn after_a_redirect_the_connector_is_asked_again() {
    assert_eq!(Adyen.get_flow_type("redirectResult=abc"), Ok(CallConnectorAction::Trigger));
    assert_eq!(Adyen.get_flow_type(""), Ok(CallConnectorAction::Trigger));
}

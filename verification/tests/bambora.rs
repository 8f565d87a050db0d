use router::connector::bambora::transformers::{
    attempt_status_of_approval, BamboraAuthType, BamboraCard, BamboraPaymentsRequest,
    BamboraPaymentsResponse, RefundStatus,
};
use router::errors::{ConnectorError, ParsingError};
use router::json::{parse_json, render_json};
use router::types;
use router::types::{
    AttemptStatus, CCard, ConnectorAuthType, PaymentMethod, PaymentMethodType,
    PaymentsRequestData, PaymentsResponseData, PaymentsRouterData, ResponseId,
    ResponseRouterData, ResponseSlot, RouterData, WalletData, WalletIssuer,
};
use std::convert::TryFrom;
use std::marker::PhantomData;

fn bambora_envelope(method: PaymentMethod) -> PaymentsRouterData {
    RouterData {
        flow: PhantomData,
        merchant_id: "merchant_1".to_string(),
        connector: "bambora".to_string(),
        payment_id: "pay_1".to_string(),
        status: AttemptStatus::Started,
        payment_method: PaymentMethodType::Card,
        connector_auth_type: ConnectorAuthType::HeaderKey { api_key: "key".to_string() },
        return_url: None,
        request: PaymentsRequestData {
            payment_method_data: method,
            amount: 2500,
            currency: "CAD".to_string(),
            off_session: None,
        },
        response: ResponseSlot::Pending,
    }
}

fn bambora_card_data() -> PaymentMethod {
    PaymentMethod::Card(CCard {
        card_number: "4030000010001234".to_string(),
        card_exp_month: "02".to_string(),
        card_exp_year: "27".to_string(),
        card_holder_name: "Jane Doe".to_string(),
        card_cvc: "123".to_string(),
    })
}

fn bambora_response(approved: &str) -> BamboraPaymentsResponse {
    BamboraPaymentsResponse {
        id: "10000001".to_string(),
        approved: approved.to_string(),
        ..BamboraPaymentsResponse::default()
    }
}

#[test]
fn bambora_request_takes_the_card_and_the_amount() {
    let request = BamboraPaymentsRequest::try_from(&bambora_envelope(bambora_card_data())).unwrap();
    assert_eq!(
        request,
        BamboraPaymentsRequest {
            amount: 2500,
            payment_method: "card".to_string(),
            card: BamboraCard {
                name: "Jane Doe".to_string(),
                number: "4030000010001234".to_string(),
                expiry_month: "02".to_string(),
                expiry_year: "27".to_string(),
                cvd: "123".to_string(),
            },
        }
    );
}

#[test]
fn bambora_request_refuses_every_method_but_cards() {
    let wallet = PaymentMethod::Wallet(WalletData {
        issuer_name: WalletIssuer::GooglePay,
        token: "tok".to_string(),
    });
    for method in [wallet, PaymentMethod::BankTransfer, PaymentMethod::PayLater, PaymentMethod::Paypal]
    {
        assert_eq!(
            BamboraPaymentsRequest::try_from(&bambora_envelope(method)),
            Err(ConnectorError::NotImplemented("Payment methods".to_string()))
        );
    }
}

#[test]
fn bambora_request_body_round_trips() {
    let request = BamboraPaymentsRequest::try_from(&bambora_envelope(bambora_card_data())).unwrap();
    let body = render_json(&request.to_json()).unwrap();
    assert_eq!(
        body,
        "{\"amount\":2500,\"payment_method\":\"card\",\"card\":{\"name\":\"Jane Doe\",\
         \"number\":\"4030000010001234\",\"expiry_month\":\"02\",\"expiry_year\":\"27\",\
         \"cvd\":\"123\"}}"
    );
    let read_back = BamboraPaymentsRequest::from_json(&parse_json(body.as_bytes()).unwrap());
    assert_eq!(read_back, Some(request));
}

#[test]
fn bambora_auth_takes_a_header_key_only() {
    assert_eq!(
        BamboraAuthType::try_from(&ConnectorAuthType::HeaderKey { api_key: "k".to_string() }),
        Ok(BamboraAuthType { api_key: "k".to_string() })
    );
    assert_eq!(
        BamboraAuthType::try_from(&ConnectorAuthType::BodyKey {
            api_key: "k".to_string(),
            key1: "m".to_string(),
        }),
        Err(ConnectorError::FailedToObtainAuthType)
    );
    assert_eq!(
        BamboraAuthType::try_from(&ConnectorAuthType::SignatureKey {
            api_key: "k".to_string(),
            key1: "m".to_string(),
            api_secret: "s".to_string(),
        }),
        Err(ConnectorError::FailedToObtainAuthType)
    );
}

#[test]
fn bambora_approval_codes_have_explicit_entries_only() {
    assert_eq!(attempt_status_of_approval(&"0".to_string()), Some(AttemptStatus::Failure));
    assert_eq!(attempt_status_of_approval(&"1".to_string()), Some(AttemptStatus::Pending));
    assert_eq!(attempt_status_of_approval(&"2".to_string()), None);
    assert_eq!(attempt_status_of_approval(&"".to_string()), None);
    assert_eq!(attempt_status_of_approval(&"01".to_string()), None);
}

#[test]
fn bambora_response_fills_the_envelope() {
    let data = bambora_envelope(bambora_card_data());
    let answered = RouterData::try_from(ResponseRouterData {
        response: bambora_response("1"),
        data,
        http_code: 200,
    })
    .unwrap();
    let expected = RouterData {
        status: AttemptStatus::Pending,
        response: ResponseSlot::Filled(PaymentsResponseData::TransactionResponse {
            resource_id: ResponseId::ConnectorTransactionId("10000001".to_string()),
            redirection_data: None,
            redirect: false,
        }),
        ..bambora_envelope(bambora_card_data())
    };
    assert_eq!(answered, expected);

    let declined = RouterData::try_from(ResponseRouterData {
        response: bambora_response("0"),
        data: bambora_envelope(bambora_card_data()),
        http_code: 200,
    })
    .unwrap();
    assert_eq!(declined.status, AttemptStatus::Failure);
}

#[test]
fn bambora_response_with_an_unknown_approval_code_is_refused() {
    let result: Result<PaymentsRouterData, ParsingError> = RouterData::try_from(ResponseRouterData {
        response: bambora_response("7"),
        data: bambora_envelope(bambora_card_data()),
        http_code: 200,
    });
    assert_eq!(result, Err(ParsingError));
}

#[test]
fn bambora_refund_states_map_onto_the_unified_ones() {
    assert_eq!(types::RefundStatus::from(RefundStatus::Succeeded), types::RefundStatus::Success);
    assert_eq!(types::RefundStatus::from(RefundStatus::Failed), types::RefundStatus::Failure);
    assert_eq!(types::RefundStatus::from(RefundStatus::Processing), types::RefundStatus::Pending);
    assert_eq!(RefundStatus::default(), RefundStatus::Processing);
}

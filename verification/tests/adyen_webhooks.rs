use hmac::Mac;
use router::api::{ApiResponse, IncomingWebhook};
use router::connector::adyen::transformers::{
    AdyenAdditionalDataWH, AdyenAmountWH, AdyenIncomingWebhook, AdyenNotificationRequestItemWH,
    AdyenResponse, Amount,
};
use router::connector::adyen::{
    get_webhook_object_from_body, webhook_event, webhook_message, webhook_object_of,
    webhook_signature, Adyen,
};
use router::errors::{ConnectorError, ParsingError};
use router::json::{parse_json, render_json};
use router::types::{IncomingWebhookEvent, VerificationAlgorithm};

const SECRET: &[u8] = b"44782DEF547AAA06C910C43932B1EB0C71FC68D9D0C057550C48EC2ACF6BA056";

fn sign(message: &str) -> String {
    let mut mac = hmac::Hmac::<sha2::Sha256>::new_from_slice(SECRET).unwrap();
    mac.update(message.as_bytes());
    base64::encode(mac.finalize().into_bytes())
}

fn webhook_body(event_code: &str, signature: &str, items: usize) -> Vec<u8> {
    let item = format!(
        "{{\"NotificationRequestItem\":{{\"additionalData\":{{\"hmacSignature\":\"{}\"}},\
         \"amount\":{{\"currency\":\"EUR\",\"value\":1130}},\"eventCode\":\"{}\",\
         \"eventDate\":\"2022-12-01T01:00:00+01:00\",\"merchantAccountCode\":\"TestMerchant\",\
         \"merchantReference\":\"ref-1\",\"originalReference\":\"orig-9\",\
         \"pspReference\":\"7914073381342284\",\"success\":\"true\"}}}}",
        signature, event_code
    );
    let list = vec![item; items].join(",");
    format!("{{\"live\":\"false\",\"notificationItems\":[{}]}}", list).into_bytes()
}

const MESSAGE: &str = "7914073381342284:orig-9:TestMerchant:ref-1:1130:EUR:AUTHORISATION:true";

fn signed_body() -> Vec<u8> {
    webhook_body("AUTHORISATION", &sign(MESSAGE), 1)
}

fn notification() -> AdyenNotificationRequestItemWH {
    AdyenNotificationRequestItemWH {
        additional_data: AdyenAdditionalDataWH { hmac_signature: sign(MESSAGE) },
        amount: AdyenAmountWH { value: 1130, currency: "EUR".to_string() },
        original_reference: Some("orig-9".to_string()),
        psp_reference: "7914073381342284".to_string(),
        event_code: "AUTHORISATION".to_string(),
        merchant_account_code: "TestMerchant".to_string(),
        merchant_reference: "ref-1".to_string(),
        success: "true".to_string(),
    }
}

fn no_headers() -> Vec<(String, String)> {
    Vec::new()
}

#[test]
fn the_first_notification_is_read_from_the_body() {
    assert_eq!(get_webhook_object_from_body(&signed_body()), Ok(notification()));
    let two = webhook_body("AUTHORISATION", &sign(MESSAGE), 2);
    assert_eq!(get_webhook_object_from_body(&two), Ok(notification()));
}

#[test]
fn a_body_without_a_notification_is_a_parsing_error() {
    assert_eq!(
        get_webhook_object_from_body(&webhook_body("AUTHORISATION", "x", 0)),
        Err(ParsingError)
    );
    assert_eq!(get_webhook_object_from_body(b"{\"live\":\"false\"}"), Err(ParsingError));
    assert_eq!(get_webhook_object_from_body(b"{\"notificationItems\":{}}"), Err(ParsingError));
    assert_eq!(get_webhook_object_from_body(b"no json"), Err(ParsingError));
    assert_eq!(webhook_object_of(None), Err(ParsingError));
}

#[test]
fn one_malformed_notification_spoils_the_list() {
    let mut body = String::from_utf8(signed_body()).unwrap();
    body.truncate(body.len() - 2);
    body.push_str(",{\"NotificationRequestItem\":{\"pspReference\":\"only\"}}]}");
    assert_eq!(get_webhook_object_from_body(body.as_bytes()), Err(ParsingError));
    assert_eq!(AdyenIncomingWebhook::from_json(&parse_json(body.as_bytes()).unwrap()), None);
}

#[test]
fn the_original_reference_may_be_left_out() {
    let body = String::from_utf8(signed_body())
        .unwrap()
        .replace("\"originalReference\":\"orig-9\",", "");
    let notif = get_webhook_object_from_body(body.as_bytes()).unwrap();
    assert_eq!(notif.original_reference, None);
    assert_eq!(
        webhook_message(&notif),
        b"7914073381342284::TestMerchant:ref-1:1130:EUR:AUTHORISATION:true".to_vec()
    );
}

#[test]
fn the_canonical_message_joins_eight_fields_with_colons() {
    assert_eq!(webhook_message(&notification()), MESSAGE.as_bytes().to_vec());
    assert_eq!(
        Adyen.get_webhook_source_verification_message(&no_headers(), &signed_body()),
        Ok(MESSAGE.as_bytes().to_vec())
    );
    let mut negative = notification();
    negative.amount.value = -5;
    negative.success = "false".to_string();
    assert_eq!(
        webhook_message(&negative),
        b"7914073381342284:orig-9:TestMerchant:ref-1:-5:EUR:AUTHORISATION:false".to_vec()
    );
}

#[test]
fn the_canonical_message_is_the_same_on_every_call() {
    let first = webhook_message(&notification());
    let second = webhook_message(&notification());
    assert_eq!(first, second);
    let mut empty_reference = notification();
    empty_reference.original_reference = Some(String::new());
    let mut no_reference = notification();
    no_reference.original_reference = None;
    assert_eq!(webhook_message(&empty_reference), webhook_message(&no_reference));
    assert_eq!(
        Adyen.get_webhook_source_verification_message(&no_headers(), &signed_body()),
        Adyen.get_webhook_source_verification_message(&no_headers(), &signed_body())
    );
}

#[test]
fn a_malformed_body_has_no_message_and_no_signature() {
    assert_eq!(
        Adyen.get_webhook_source_verification_message(&no_headers(), b"{}"),
        Err(ConnectorError::WebhookSourceVerificationFailed)
    );
    assert_eq!(
        Adyen.get_webhook_source_verification_signature(&no_headers(), b"{}"),
        Err(ConnectorError::WebhookSourceVerificationFailed)
    );
}

#[test]
fn the_signature_is_decoded_from_base64() {
    let body = webhook_body("AUTHORISATION", "aGVsbG8gd29ybGQ=", 1);
    assert_eq!(
        Adyen.get_webhook_source_verification_signature(&no_headers(), &body),
        Ok(b"hello world".to_vec())
    );
    let mut notif = notification();
    notif.additional_data.hmac_signature = "AAEC/w==".to_string();
    assert_eq!(webhook_signature(&notif), Some(vec![0, 1, 2, 255]));
}

#[test]
fn a_signature_that_is_no_base64_fails_verification() {
    let body = webhook_body("AUTHORISATION", "not base64!", 1);
    assert_eq!(
        Adyen.get_webhook_source_verification_signature(&no_headers(), &body),
        Err(ConnectorError::WebhookSourceVerificationFailed)
    );
    assert_eq!(
        Adyen.verify_webhook_source(&no_headers(), &body, "merchant_1", Some(SECRET.to_vec())),
        Err(ConnectorError::WebhookSourceVerificationFailed)
    );
    let mut notif = notification();
    notif.additional_data.hmac_signature = "aGVsbG8$".to_string();
    assert_eq!(webhook_signature(&notif), None);
    notif.additional_data.hmac_signature = "a".to_string();
    assert_eq!(webhook_signature(&notif), None);
}

#[test]
fn the_algorithm_is_hmac_sha256() {
    assert_eq!(
        Adyen.get_webhook_source_verification_algorithm(&no_headers(), b""),
        Ok(VerificationAlgorithm::HmacSha256)
    );
}

#[test]
fn the_secret_is_kept_under_a_key_made_of_connector_and_merchant() {
    assert_eq!(
        Adyen.get_webhook_source_verification_secret_key("merchant_1"),
        "whsec_verification_adyen_merchant_1"
    );
    assert_eq!(
        Adyen.get_webhook_source_verification_merchant_secret("merchant_1", Some(vec![1, 2])),
        Ok(vec![1, 2])
    );
    assert_eq!(
        Adyen.get_webhook_source_verification_merchant_secret("merchant_1", None),
        Err(ConnectorError::WebhookVerificationSecretNotFound)
    );
}

#[test]
fn a_webhook_is_accepted_exactly_if_its_signature_matches() {
    assert_eq!(
        Adyen.verify_webhook_source(
            &no_headers(),
            &signed_body(),
            "merchant_1",
            Some(SECRET.to_vec())
        ),
        Ok(true)
    );
    assert_eq!(
        Adyen.verify_webhook_source(
            &no_headers(),
            &signed_body(),
            "merchant_1",
            Some(b"another secret".to_vec())
        ),
        Ok(false)
    );
    let tampered =
        String::from_utf8(signed_body()).unwrap().replace("\"value\":1130", "\"value\":1131");
    assert_eq!(
        Adyen.verify_webhook_source(
            &no_headers(),
            tampered.as_bytes(),
            "merchant_1",
            Some(SECRET.to_vec())
        ),
        Ok(false)
    );
    let other_signature = webhook_body("AUTHORISATION", &sign("something else"), 1);
    assert_eq!(
        Adyen.verify_webhook_source(
            &no_headers(),
            &other_signature,
            "merchant_1",
            Some(SECRET.to_vec())
        ),
        Ok(false)
    );
}

#[test]
fn without_a_secret_the_verification_fails_before_any_comparison() {
    assert_eq!(
        Adyen.verify_webhook_source(&no_headers(), &signed_body(), "merchant_1", None),
        Err(ConnectorError::WebhookVerificationSecretNotFound)
    );
    let unsigned = webhook_body("AUTHORISATION", "", 1);
    assert_eq!(
        Adyen.verify_webhook_source(&no_headers(), &unsigned, "merchant_1", None),
        Err(ConnectorError::WebhookVerificationSecretNotFound)
    );
}

#[test]
fn a_malformed_body_fails_verification_whatever_the_secret() {
    assert_eq!(
        Adyen.verify_webhook_source(&no_headers(), b"{}", "merchant_1", None),
        Err(ConnectorError::WebhookSourceVerificationFailed)
    );
    assert_eq!(
        Adyen.verify_webhook_source(&no_headers(), b"{}", "merchant_1", Some(SECRET.to_vec())),
        Err(ConnectorError::WebhookSourceVerificationFailed)
    );
}

#[test]
fn authorisation_is_the_one_event_that_is_known() {
    assert_eq!(
        Adyen.get_webhook_event_type(&signed_body()),
        Ok(IncomingWebhookEvent::PaymentIntentSuccess)
    );
    for code in ["CAPTURE", "REFUND", "authorisation", "AUTHORISATION ", ""] {
        assert_eq!(
            Adyen.get_webhook_event_type(&webhook_body(code, "x", 1)),
            Err(ConnectorError::WebhookEventTypeNotFound)
        );
    }
    assert_eq!(
        Adyen.get_webhook_event_type(b"{}"),
        Err(ConnectorError::WebhookEventTypeNotFound)
    );
    assert_eq!(webhook_event(&notification()), Some(IncomingWebhookEvent::PaymentIntentSuccess));
    let mut capture = notification();
    capture.event_code = "CAPTURE".to_string();
    assert_eq!(webhook_event(&capture), None);
}

#[test]
fn the_reference_id_is_the_psp_reference() {
    assert_eq!(
        Adyen.get_webhook_object_reference_id(&signed_body()),
        Ok("7914073381342284".to_string())
    );
    assert_eq!(
        Adyen.get_webhook_object_reference_id(b"[]"),
        Err(ConnectorError::WebhookReferenceIdNotFound)
    );
}

#[test]
fn the_resource_object_has_the_shape_of_a_payment_answer() {
    let doc = Adyen.get_webhook_resource_object(&signed_body()).unwrap();
    assert_eq!(
        render_json(&doc).unwrap(),
        "{\"pspReference\":\"7914073381342284\",\"resultCode\":\"Authorised\",\
         \"amount\":{\"currency\":\"EUR\",\"value\":1130},\"merchantReference\":\"ref-1\",\
         \"refusalReason\":null,\"refusalReasonCode\":null}"
    );
    assert_eq!(
        AdyenResponse::from_json(&doc),
        Some(AdyenResponse {
            psp_reference: "7914073381342284".to_string(),
            result_code: "Authorised".to_string(),
            amount: Some(Amount { currency: "EUR".to_string(), value: 1130 }),
            merchant_reference: "ref-1".to_string(),
            refusal_reason: None,
            refusal_reason_code: None,
        })
    );
    let failed = String::from_utf8(signed_body())
        .unwrap()
        .replace("\"success\":\"true\"", "\"success\":\"false\"");
    let doc = Adyen.get_webhook_resource_object(failed.as_bytes()).unwrap();
    assert_eq!(doc.text_at("resultCode"), Some("Refused".to_string()));
    assert_eq!(
        Adyen.get_webhook_resource_object(b"{}"),
        Err(ConnectorError::WebhookResourceObjectNotFound)
    );
    assert_eq!(
        Adyen.get_webhook_resource_object(b"{\"notificationItems\":[]}"),
        Err(ConnectorError::WebhookResourceObjectNotFound)
    );
    assert_eq!(
        Adyen.get_webhook_resource_object(b"not json"),
        Err(ConnectorError::WebhookResourceObjectNotFound)
    );
    assert_eq!(
        AdyenResponse::from_notification(notification()).result_code,
        "Authorised".to_string()
    );
}

#[test]
fn the_acknowledgement_is_the_accept_token() {
    assert_eq!(
        Adyen.get_webhook_api_response(),
        Ok(ApiResponse::TextPlain("[accepted]".to_string()))
    );
}

#[test]
fn verification_begins_with_the_body_and_ends_with_the_secret() {
    let pending =
        Adyen.begin_webhook_verification(&no_headers(), &signed_body(), "merchant_1").unwrap();
    assert_eq!(pending.algorithm, VerificationAlgorithm::HmacSha256);
    assert_eq!(pending.message, MESSAGE.as_bytes().to_vec());
    assert_eq!(pending.signature, base64::decode(sign(MESSAGE)).unwrap());
    assert_eq!(pending.secret_key, "whsec_verification_adyen_merchant_1");
    assert_eq!(
        Adyen.finish_webhook_verification(&pending, "merchant_1", Some(SECRET.to_vec())),
        Ok(true)
    );
    assert_eq!(
        Adyen.finish_webhook_verification(&pending, "merchant_1", Some(b"other".to_vec())),
        Ok(false)
    );
    assert_eq!(
        Adyen.finish_webhook_verification(&pending, "merchant_1", None),
        Err(ConnectorError::WebhookVerificationSecretNotFound)
    );
    assert_eq!(
        Adyen.begin_webhook_verification(&no_headers(), b"{}", "merchant_1"),
        Err(ConnectorError::WebhookSourceVerificationFailed)
    );
    assert_eq!(
        Adyen.begin_webhook_verification(
            &no_headers(),
            &webhook_body("AUTHORISATION", "$$$", 1),
            "merchant_1"
        ),
        Err(ConnectorError::WebhookSourceVerificationFailed)
    );
}

#[test]
fn a_change_to_any_signed_field_changes_the_message() {
    let original = webhook_message(&notification());
    let mut changed = Vec::new();
    let mut n = notification();
    n.psp_reference = "7914073381342285".to_string();
    changed.push(n);
    let mut n = notification();
    n.original_reference = None;
    changed.push(n);
    let mut n = notification();
    n.merchant_account_code = "OtherMerchant".to_string();
    changed.push(n);
    let mut n = notification();
    n.merchant_reference = "ref-2".to_string();
    changed.push(n);
    let mut n = notification();
    n.amount.value = 11300;
    changed.push(n);
    let mut n = notification();
    n.amount.currency = "USD".to_string();
    changed.push(n);
    let mut n = notification();
    n.event_code = "REFUND".to_string();
    changed.push(n);
    let mut n = notification();
    n.success = "false".to_string();
    changed.push(n);
    for n in changed {
        assert_ne!(webhook_message(&n), original);
    }
    let mut unsigned_change = notification();
    unsigned_change.additional_data.hmac_signature = "AAAA".to_string();
    assert_eq!(webhook_message(&unsigned_change), original);
}

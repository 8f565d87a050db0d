//! Adyen's wire shapes and the mappings between them and the unified model.

use crate::errors::{ConnectorError, ParsingError};
use crate::form::{find_pair, pair_value};
use crate::json::{
    json_int, json_null, json_object, json_str, lemma_absent_text_at, lemma_int_at,
    lemma_member_absent, lemma_member_at, lemma_text_at, members_view, push_member, text,
    Json, JsonValue,
};
use crate::types::{
    AttemptStatus, ConnectorAuthType, Method, PaymentMethod,
    PaymentRouterCancelData, PaymentsResponseData, PaymentsRouterData, RedirectForm,
    RefundStatus, RefundsResponseData, RefundsRouterData, ResponseId, ResponseRouterData,
    ResponseSlot, RouterData, WalletIssuer,
};
use std::convert::TryFrom;
use vstd::prelude::*;
use vstd::std_specs::convert::FromSpecImpl;
use vstd::std_specs::convert::TryFromSpecImpl;

verus! {

/// The credentials that Adyen asks for: the API key, and the merchant
/// account that every request body names.
#[derive(Debug, PartialEq, Eq)]
pub struct AdyenAuthType {
    pub api_key: String,
    pub merchant_account: String,
}

impl AdyenAuthType {
    /// What Adyen's credentials are, if the merchant's have the one shape
    /// that Adyen takes: a body key.
    pub open spec fn spec_try_from(auth_type: ConnectorAuthType) -> Result<Self, ConnectorError> {
        match auth_type {
            ConnectorAuthType::BodyKey { api_key, key1 } => Ok(
                AdyenAuthType { api_key, merchant_account: key1 },
            ),
            _ => Err(ConnectorError::FailedToObtainAuthType),
        }
    }

    pub fn try_from(auth_type: &ConnectorAuthType) -> (r: Result<Self, ConnectorError>)
        ensures
            r == Self::spec_try_from(*auth_type),
    {
        match auth_type {
            ConnectorAuthType::BodyKey { api_key, key1 } => Ok(
                AdyenAuthType { api_key: api_key.clone(), merchant_account: key1.clone() },
            ),
            _ => Err(ConnectorError::FailedToObtainAuthType),
        }
    }
}

/// An amount in minor units of its currency.
#[derive(Debug, PartialEq, Eq)]
pub struct Amount {
    pub currency: String,
    pub value: i64,
}

impl Amount {
    /// The document of an amount.
    pub open spec fn json(self) -> JsonValue {
        JsonValue::Object(
            seq![
                ("currency"@, JsonValue::Str(self.currency@)),
                ("value"@, JsonValue::Int(self.value as int)),
            ],
        )
    }

    pub fn to_json(&self) -> (r: Json)
        ensures
            r@ == self.json(),
    {
        let mut members: Vec<(String, Json)> = Vec::new();
        assert(members_view(members@) =~= Seq::empty());
        push_member(&mut members, "currency", json_str(self.currency.as_str()));
        push_member(&mut members, "value", json_int(self.value));
        assert(members_view(members@) =~= self.json()->Object_0);
        json_object(members)
    }

    /// The amount that a document holds, if it holds one.
    pub open spec fn spec_from_json(doc: Json) -> Option<Amount> {
        match (doc.spec_text_at("currency"@), doc.spec_int_at("value"@)) {
            (Some(currency), Some(value)) => Some(Amount { currency, value }),
            _ => None,
        }
    }

    pub fn from_json(doc: &Json) -> (r: Option<Amount>)
        ensures
            r == Self::spec_from_json(*doc),
    {
        let currency = doc.text_at("currency");
        let value = doc.int_at("value");
        match (currency, value) {
            (Some(currency), Some(value)) => Some(Amount { currency, value }),
            _ => None,
        }
    }
}

/// How the shopper takes part in a payment.
#[derive(Clone, Copy, Debug, PartialEq, Eq, Structural)]
pub enum AdyenShopperInteraction {
    Ecommerce,
    ContinuedAuthentication,
}

impl AdyenShopperInteraction {
    /// The name of the interaction on the wire.
    pub open spec fn wire_name(self) -> Seq<char> {
        match self {
            AdyenShopperInteraction::Ecommerce => "Ecommerce"@,
            AdyenShopperInteraction::ContinuedAuthentication => "ContAuth"@,
        }
    }

    pub fn name(self) -> (r: &'static str)
        ensures
            r@ == self.wire_name(),
    {
        match self {
            AdyenShopperInteraction::Ecommerce => "Ecommerce",
            AdyenShopperInteraction::ContinuedAuthentication => "ContAuth",
        }
    }
}

/// A card as Adyen takes it.
#[derive(Debug, PartialEq, Eq)]
pub struct AdyenCard {
    pub number: String,
    pub expiry_month: String,
    pub expiry_year: String,
    pub cvc: String,
}

/// The payment methods that Adyen is asked to charge.
#[derive(Debug, PartialEq, Eq)]
pub enum AdyenPaymentMethod {
    AdyenCard(AdyenCard),
    AdyenPaypal,
    Gpay { google_pay_token: String },
    ApplePay { apple_pay_token: String },
}

impl AdyenPaymentMethod {
    /// The document of a payment method: its type by Adyen's name, and what
    /// that type needs.
    pub open spec fn json(self) -> JsonValue {
        match self {
            AdyenPaymentMethod::AdyenCard(card) => JsonValue::Object(
                seq![
                    ("type"@, JsonValue::Str("scheme"@)),
                    ("number"@, JsonValue::Str(card.number@)),
                    ("expiryMonth"@, JsonValue::Str(card.expiry_month@)),
                    ("expiryYear"@, JsonValue::Str(card.expiry_year@)),
                    ("cvc"@, JsonValue::Str(card.cvc@)),
                ],
            ),
            AdyenPaymentMethod::AdyenPaypal => JsonValue::Object(
                seq![("type"@, JsonValue::Str("paypal"@))],
            ),
            AdyenPaymentMethod::Gpay { google_pay_token } => JsonValue::Object(
                seq![
                    ("type"@, JsonValue::Str("googlepay"@)),
                    ("googlePayToken"@, JsonValue::Str(google_pay_token@)),
                ],
            ),
            AdyenPaymentMethod::ApplePay { apple_pay_token } => JsonValue::Object(
                seq![
                    ("type"@, JsonValue::Str("applepay"@)),
                    ("applePayToken"@, JsonValue::Str(apple_pay_token@)),
                ],
            ),
        }
    }

    pub fn to_json(&self) -> (r: Json)
        ensures
            r@ == self.json(),
    {
        let mut members: Vec<(String, Json)> = Vec::new();
        assert(members_view(members@) =~= Seq::empty());
        match self {
            AdyenPaymentMethod::AdyenCard(card) => {
                push_member(&mut members, "type", json_str("scheme"));
                push_member(&mut members, "number", json_str(card.number.as_str()));
                push_member(&mut members, "expiryMonth", json_str(card.expiry_month.as_str()));
                push_member(&mut members, "expiryYear", json_str(card.expiry_year.as_str()));
                push_member(&mut members, "cvc", json_str(card.cvc.as_str()));
            },
            AdyenPaymentMethod::AdyenPaypal => {
                push_member(&mut members, "type", json_str("paypal"));
            },
            AdyenPaymentMethod::Gpay { google_pay_token } => {
                push_member(&mut members, "type", json_str("googlepay"));
                push_member(&mut members, "googlePayToken", json_str(google_pay_token.as_str()));
            },
            AdyenPaymentMethod::ApplePay { apple_pay_token } => {
                push_member(&mut members, "type", json_str("applepay"));
                push_member(&mut members, "applePayToken", json_str(apple_pay_token.as_str()));
            },
        }
        assert(members_view(members@) =~= self.json()->Object_0);
        json_object(members)
    }
}

/// The body of a payment request to Adyen.
#[derive(Debug, PartialEq, Eq)]
pub struct AdyenPaymentRequest {
    pub amount: Amount,
    pub merchant_account: String,
    pub payment_method: AdyenPaymentMethod,
    pub reference: String,
    /// Where Adyen sends the shopper back to, if the envelope names a place.
    pub return_url: Option<String>,
    pub shopper_interaction: AdyenShopperInteraction,
}

/// Why no payment request can be made of an envelope.
pub enum RequestRefusal {
    /// The credentials do not have the shape that Adyen takes.
    Credentials,
    /// Adyen is not asked to charge this payment method.
    PaymentMethod,
}

/// The payment method that Adyen is asked to charge for the unified one;
/// none for a method that this connector does not offer.
pub open spec fn adyen_payment_method(method: PaymentMethod) -> Option<AdyenPaymentMethod> {
    match method {
        PaymentMethod::Card(card) => Some(
            AdyenPaymentMethod::AdyenCard(
                AdyenCard {
                    number: card.card_number,
                    expiry_month: card.card_exp_month,
                    expiry_year: card.card_exp_year,
                    cvc: card.card_cvc,
                },
            ),
        ),
        PaymentMethod::Wallet(wallet) => Some(
            match wallet.issuer_name {
                WalletIssuer::GooglePay => AdyenPaymentMethod::Gpay {
                    google_pay_token: wallet.token,
                },
                WalletIssuer::ApplePay => AdyenPaymentMethod::ApplePay {
                    apple_pay_token: wallet.token,
                },
                WalletIssuer::Paypal => AdyenPaymentMethod::AdyenPaypal,
            },
        ),
        PaymentMethod::Paypal => Some(AdyenPaymentMethod::AdyenPaypal),
        PaymentMethod::BankTransfer => None,
        PaymentMethod::PayLater => None,
    }
}

impl AdyenPaymentRequest {
    /// The payment request for an authorize envelope, or why there is none.
    /// The payment method is looked at first, then the credentials.
    pub open spec fn spec_try_from(item: PaymentsRouterData) -> Result<Self, RequestRefusal> {
        match adyen_payment_method(item.request.payment_method_data) {
            None => Err(RequestRefusal::PaymentMethod),
            Some(payment_method) => match AdyenAuthType::spec_try_from(item.connector_auth_type) {
                Err(_) => Err(RequestRefusal::Credentials),
                Ok(auth) => Ok(
                    AdyenPaymentRequest {
                        amount: Amount {
                            currency: item.request.currency,
                            value: item.request.amount,
                        },
                        merchant_account: auth.merchant_account,
                        payment_method,
                        reference: item.payment_id,
                        return_url: item.return_url,
                        shopper_interaction: if item.request.off_session == Some(true) {
                            AdyenShopperInteraction::ContinuedAuthentication
                        } else {
                            AdyenShopperInteraction::Ecommerce
                        },
                    },
                ),
            },
        }
    }

    /// The payment request for an authorize envelope. A payment method that
    /// Adyen is not asked to charge gives `NotImplemented` with the words
    /// "Payment methods", and credentials of another shape give
    /// `FailedToObtainAuthType`.
    pub fn try_from(item: &PaymentsRouterData) -> (r: Result<Self, ConnectorError>)
        ensures
            match Self::spec_try_from(*item) {
                Ok(request) => r == Ok::<Self, ConnectorError>(request),
                Err(RequestRefusal::Credentials) => r == Err::<Self, ConnectorError>(
                    ConnectorError::FailedToObtainAuthType,
                ),
                Err(RequestRefusal::PaymentMethod) => r matches Err(
                    ConnectorError::NotImplemented(what),
                ) && what@ == "Payment methods"@,
            },
    {
        let payment_method = match &item.request.payment_method_data {
            PaymentMethod::Card(card) => AdyenPaymentMethod::AdyenCard(
                AdyenCard {
                    number: card.card_number.clone(),
                    expiry_month: card.card_exp_month.clone(),
                    expiry_year: card.card_exp_year.clone(),
                    cvc: card.card_cvc.clone(),
                },
            ),
            PaymentMethod::Wallet(wallet) => match wallet.issuer_name {
                WalletIssuer::GooglePay => AdyenPaymentMethod::Gpay {
                    google_pay_token: wallet.token.clone(),
                },
                WalletIssuer::ApplePay => AdyenPaymentMethod::ApplePay {
                    apple_pay_token: wallet.token.clone(),
                },
                WalletIssuer::Paypal => AdyenPaymentMethod::AdyenPaypal,
            },
            PaymentMethod::Paypal => AdyenPaymentMethod::AdyenPaypal,
            PaymentMethod::BankTransfer => {
                return Err(ConnectorError::NotImplemented(text("Payment methods")));
            },
            PaymentMethod::PayLater => {
                return Err(ConnectorError::NotImplemented(text("Payment methods")));
            },
        };
        let auth = match AdyenAuthType::try_from(&item.connector_auth_type) {
            Ok(auth) => auth,
            Err(error) => { return Err(error); },
        };
        let return_url = crate::types::clone_text(&item.return_url);
        let shopper_interaction = match item.request.off_session {
            Some(true) => AdyenShopperInteraction::ContinuedAuthentication,
            _ => AdyenShopperInteraction::Ecommerce,
        };
        Ok(
            AdyenPaymentRequest {
                amount: Amount {
                    currency: item.request.currency.clone(),
                    value: item.request.amount,
                },
                merchant_account: auth.merchant_account,
                payment_method,
                reference: item.payment_id.clone(),
                return_url,
                shopper_interaction,
            },
        )
    }

    /// The document of a payment request.
    pub open spec fn json(self) -> JsonValue {
        JsonValue::Object(
            seq![
                ("amount"@, self.amount.json()),
                ("merchantAccount"@, JsonValue::Str(self.merchant_account@)),
                ("paymentMethod"@, self.payment_method.json()),
                ("reference"@, JsonValue::Str(self.reference@)),
                ("returnUrl"@, optional_text_json(self.return_url)),
                ("shopperInteraction"@, JsonValue::Str(self.shopper_interaction.wire_name())),
            ],
        )
    }

    pub fn to_json(&self) -> (r: Json)
        ensures
            r@ == self.json(),
    {
        let mut members: Vec<(String, Json)> = Vec::new();
        assert(members_view(members@) =~= Seq::empty());
        push_member(&mut members, "amount", self.amount.to_json());
        push_member(&mut members, "merchantAccount", json_str(self.merchant_account.as_str()));
        push_member(&mut members, "paymentMethod", self.payment_method.to_json());
        push_member(&mut members, "reference", json_str(self.reference.as_str()));
        push_member(&mut members, "returnUrl", optional_text_to_json(&self.return_url));
        push_member(&mut members, "shopperInteraction", json_str(self.shopper_interaction.name()));
        assert(members_view(members@) =~= self.json()->Object_0);
        json_object(members)
    }
}

/// What comes back from a plain redirect.
#[derive(Debug, PartialEq, Eq)]
pub struct AdyenRedirection {
    pub redirect_result: String,
    pub type_of_redirection_result: Option<String>,
    pub result_code: Option<String>,
}

/// What comes back from a 3-D Secure challenge.
#[derive(Debug, PartialEq, Eq)]
pub struct AdyenThreeDS {
    pub three_ds_result: String,
    pub type_of_redirection_result: Option<String>,
    pub result_code: Option<String>,
}

/// The two shapes of what comes back with the shopper.
#[derive(Debug, PartialEq, Eq)]
pub enum AdyenRedirectRequestTypes {
    AdyenRedirection(AdyenRedirection),
    AdyenThreeDS(AdyenThreeDS),
}

/// The document of a text that may be absent: null where it is.
pub open spec fn optional_text_json(value: Option<String>) -> JsonValue {
    match value {
        Some(t) => JsonValue::Str(t@),
        None => JsonValue::Null,
    }
}

fn optional_text_to_json(value: &Option<String>) -> (r: Json)
    ensures
        r@ == optional_text_json(*value),
{
    match value {
        Some(t) => json_str(t.as_str()),
        None => json_null(),
    }
}

impl AdyenRedirectRequestTypes {
    /// What the pairs that came back with the shopper say: a redirect
    /// result if they hold one, else a 3-D Secure result if they hold one,
    /// else nothing.
    pub open spec fn spec_from_pairs(pairs: Seq<(String, String)>) -> Option<Self> {
        match find_pair(pairs, "redirectResult"@) {
            Some(redirect_result) => Some(
                AdyenRedirectRequestTypes::AdyenRedirection(
                    AdyenRedirection {
                        redirect_result,
                        type_of_redirection_result: find_pair(pairs, "type"@),
                        result_code: find_pair(pairs, "resultCode"@),
                    },
                ),
            ),
            None => match find_pair(pairs, "threeDSResult"@) {
                Some(three_ds_result) => Some(
                    AdyenRedirectRequestTypes::AdyenThreeDS(
                        AdyenThreeDS {
                            three_ds_result,
                            type_of_redirection_result: find_pair(pairs, "type"@),
                            result_code: find_pair(pairs, "resultCode"@),
                        },
                    ),
                ),
                None => None,
            },
        }
    }

    pub fn from_pairs(pairs: &Vec<(String, String)>) -> (r: Option<Self>)
        ensures
            r == Self::spec_from_pairs(pairs@),
    {
        match pair_value(pairs, "redirectResult") {
            Some(redirect_result) => Some(
                AdyenRedirectRequestTypes::AdyenRedirection(
                    AdyenRedirection {
                        redirect_result,
                        type_of_redirection_result: pair_value(pairs, "type"),
                        result_code: pair_value(pairs, "resultCode"),
                    },
                ),
            ),
            None => match pair_value(pairs, "threeDSResult") {
                Some(three_ds_result) => Some(
                    AdyenRedirectRequestTypes::AdyenThreeDS(
                        AdyenThreeDS {
                            three_ds_result,
                            type_of_redirection_result: pair_value(pairs, "type"),
                            result_code: pair_value(pairs, "resultCode"),
                        },
                    ),
                ),
                None => None,
            },
        }
    }

    /// The same result without its type and result code, as it is sent on
    /// to Adyen.
    pub open spec fn result_only(self) -> Self {
        match self {
            AdyenRedirectRequestTypes::AdyenRedirection(redirection) => {
                AdyenRedirectRequestTypes::AdyenRedirection(
                    AdyenRedirection {
                        redirect_result: redirection.redirect_result,
                        type_of_redirection_result: None,
                        result_code: None,
                    },
                )
            },
            AdyenRedirectRequestTypes::AdyenThreeDS(three_ds) => {
                AdyenRedirectRequestTypes::AdyenThreeDS(
                    AdyenThreeDS {
                        three_ds_result: three_ds.three_ds_result,
                        type_of_redirection_result: None,
                        result_code: None,
                    },
                )
            },
        }
    }

    pub fn into_result_only(self) -> (r: Self)
        ensures
            r == self.result_only(),
    {
        match self {
            AdyenRedirectRequestTypes::AdyenRedirection(redirection) => {
                AdyenRedirectRequestTypes::AdyenRedirection(
                    AdyenRedirection {
                        redirect_result: redirection.redirect_result,
                        type_of_redirection_result: None,
                        result_code: None,
                    },
                )
            },
            AdyenRedirectRequestTypes::AdyenThreeDS(three_ds) => {
                AdyenRedirectRequestTypes::AdyenThreeDS(
                    AdyenThreeDS {
                        three_ds_result: three_ds.three_ds_result,
                        type_of_redirection_result: None,
                        result_code: None,
                    },
                )
            },
        }
    }

    /// The document of a result.
    pub open spec fn json(self) -> JsonValue {
        match self {
            AdyenRedirectRequestTypes::AdyenRedirection(redirection) => JsonValue::Object(
                seq![
                    ("redirectResult"@, JsonValue::Str(redirection.redirect_result@)),
                    ("type"@, optional_text_json(redirection.type_of_redirection_result)),
                    ("resultCode"@, optional_text_json(redirection.result_code)),
                ],
            ),
            AdyenRedirectRequestTypes::AdyenThreeDS(three_ds) => JsonValue::Object(
                seq![
                    ("threeDSResult"@, JsonValue::Str(three_ds.three_ds_result@)),
                    ("type"@, optional_text_json(three_ds.type_of_redirection_result)),
                    ("resultCode"@, optional_text_json(three_ds.result_code)),
                ],
            ),
        }
    }

    pub fn to_json(&self) -> (r: Json)
        ensures
            r@ == self.json(),
    {
        let mut members: Vec<(String, Json)> = Vec::new();
        assert(members_view(members@) =~= Seq::empty());
        match self {
            AdyenRedirectRequestTypes::AdyenRedirection(redirection) => {
                push_member(
                    &mut members,
                    "redirectResult",
                    json_str(redirection.redirect_result.as_str()),
                );
                push_member(
                    &mut members,
                    "type",
                    optional_text_to_json(&redirection.type_of_redirection_result),
                );
                push_member(
                    &mut members,
                    "resultCode",
                    optional_text_to_json(&redirection.result_code),
                );
            },
            AdyenRedirectRequestTypes::AdyenThreeDS(three_ds) => {
                push_member(
                    &mut members,
                    "threeDSResult",
                    json_str(three_ds.three_ds_result.as_str()),
                );
                push_member(
                    &mut members,
                    "type",
                    optional_text_to_json(&three_ds.type_of_redirection_result),
                );
                push_member(
                    &mut members,
                    "resultCode",
                    optional_text_to_json(&three_ds.result_code),
                );
            },
        }
        assert(members_view(members@) =~= self.json()->Object_0);
        json_object(members)
    }
}

/// The body of a payment details request to Adyen.
#[derive(Debug, PartialEq, Eq)]
pub struct AdyenRedirectRequest {
    pub details: AdyenRedirectRequestTypes,
}

impl AdyenRedirectRequest {
    /// The document of a payment details request.
    pub open spec fn json(self) -> JsonValue {
        JsonValue::Object(seq![("details"@, self.details.json())])
    }

    pub fn to_json(&self) -> (r: Json)
        ensures
            r@ == self.json(),
    {
        let mut members: Vec<(String, Json)> = Vec::new();
        assert(members_view(members@) =~= Seq::empty());
        push_member(&mut members, "details", self.details.to_json());
        assert(members_view(members@) =~= self.json()->Object_0);
        json_object(members)
    }
}

/// The body of a cancel request to Adyen.
#[derive(Debug, PartialEq, Eq)]
pub struct AdyenCancelRequest {
    pub merchant_account: String,
    pub original_reference: String,
    pub reference: String,
}

impl AdyenCancelRequest {
    /// The cancel request for a void envelope, if the credentials have the
    /// shape that Adyen takes.
    pub open spec fn spec_try_from(item: PaymentRouterCancelData) -> Result<Self, ConnectorError> {
        match AdyenAuthType::spec_try_from(item.connector_auth_type) {
            Ok(auth) => Ok(
                AdyenCancelRequest {
                    merchant_account: auth.merchant_account,
                    original_reference: item.request.connector_transaction_id,
                    reference: item.payment_id,
                },
            ),
            Err(error) => Err(error),
        }
    }

    pub fn try_from(item: &PaymentRouterCancelData) -> (r: Result<Self, ConnectorError>)
        ensures
            r == Self::spec_try_from(*item),
    {
        match AdyenAuthType::try_from(&item.connector_auth_type) {
            Ok(auth) => Ok(
                AdyenCancelRequest {
                    merchant_account: auth.merchant_account,
                    original_reference: item.request.connector_transaction_id.clone(),
                    reference: item.payment_id.clone(),
                },
            ),
            Err(error) => Err(error),
        }
    }

    /// The document of a cancel request.
    pub open spec fn json(self) -> JsonValue {
        JsonValue::Object(
            seq![
                ("merchantAccount"@, JsonValue::Str(self.merchant_account@)),
                ("originalReference"@, JsonValue::Str(self.original_reference@)),
                ("reference"@, JsonValue::Str(self.reference@)),
            ],
        )
    }

    pub fn to_json(&self) -> (r: Json)
        ensures
            r@ == self.json(),
    {
        let mut members: Vec<(String, Json)> = Vec::new();
        assert(members_view(members@) =~= Seq::empty());
        push_member(&mut members, "merchantAccount", json_str(self.merchant_account.as_str()));
        push_member(
            &mut members,
            "originalReference",
            json_str(self.original_reference.as_str()),
        );
        push_member(&mut members, "reference", json_str(self.reference.as_str()));
        assert(members_view(members@) =~= self.json()->Object_0);
        json_object(members)
    }
}

/// The body of a refund request to Adyen.
#[derive(Debug, PartialEq, Eq)]
pub struct AdyenRefundRequest {
    pub merchant_account: String,
    pub reference: String,
}

impl AdyenRefundRequest {
    /// The refund request for a refund envelope, if the credentials have
    /// the shape that Adyen takes.
    pub open spec fn spec_try_from<F>(item: RefundsRouterData<F>) -> Result<Self, ConnectorError> {
        match AdyenAuthType::spec_try_from(item.connector_auth_type) {
            Ok(auth) => Ok(
                AdyenRefundRequest {
                    merchant_account: auth.merchant_account,
                    reference: item.request.refund_id,
                },
            ),
            Err(error) => Err(error),
        }
    }

    pub fn try_from<F>(item: &RefundsRouterData<F>) -> (r: Result<Self, ConnectorError>)
        ensures
            r == Self::spec_try_from(*item),
    {
        match AdyenAuthType::try_from(&item.connector_auth_type) {
            Ok(auth) => Ok(
                AdyenRefundRequest {
                    merchant_account: auth.merchant_account,
                    reference: item.request.refund_id.clone(),
                },
            ),
            Err(error) => Err(error),
        }
    }

    /// The document of a refund request.
    pub open spec fn json(self) -> JsonValue {
        JsonValue::Object(
            seq![
                ("merchantAccount"@, JsonValue::Str(self.merchant_account@)),
                ("reference"@, JsonValue::Str(self.reference@)),
            ],
        )
    }

    pub fn to_json(&self) -> (r: Json)
        ensures
            r@ == self.json(),
    {
        let mut members: Vec<(String, Json)> = Vec::new();
        assert(members_view(members@) =~= Seq::empty());
        push_member(&mut members, "merchantAccount", json_str(self.merchant_account.as_str()));
        push_member(&mut members, "reference", json_str(self.reference.as_str()));
        assert(members_view(members@) =~= self.json()->Object_0);
        json_object(members)
    }
}

/// The result codes that Adyen gives a payment.
#[derive(Clone, Copy, Debug, PartialEq, Eq, Structural)]
pub enum AdyenStatus {
    Authorised,
    Refused,
    Cancelled,
    Error,
    Pending,
    Received,
    RedirectShopper,
}

impl AdyenStatus {
    /// The name of the result code on the wire.
    pub open spec fn wire_name(self) -> Seq<char> {
        match self {
            AdyenStatus::Authorised => "Authorised"@,
            AdyenStatus::Refused => "Refused"@,
            AdyenStatus::Cancelled => "Cancelled"@,
            AdyenStatus::Error => "Error"@,
            AdyenStatus::Pending => "Pending"@,
            AdyenStatus::Received => "Received"@,
            AdyenStatus::RedirectShopper => "RedirectShopper"@,
        }
    }

    pub fn name(self) -> (r: &'static str)
        ensures
            r@ == self.wire_name(),
    {
        match self {
            AdyenStatus::Authorised => "Authorised",
            AdyenStatus::Refused => "Refused",
            AdyenStatus::Cancelled => "Cancelled",
            AdyenStatus::Error => "Error",
            AdyenStatus::Pending => "Pending",
            AdyenStatus::Received => "Received",
            AdyenStatus::RedirectShopper => "RedirectShopper",
        }
    }

    /// The result code that a name on the wire stands for; none for a name
    /// that is no result code.
    pub open spec fn spec_from_name(name: Seq<char>) -> Option<AdyenStatus> {
        if name == "Authorised"@ {
            Some(AdyenStatus::Authorised)
        } else if name == "Refused"@ {
            Some(AdyenStatus::Refused)
        } else if name == "Cancelled"@ {
            Some(AdyenStatus::Cancelled)
        } else if name == "Error"@ {
            Some(AdyenStatus::Error)
        } else if name == "Pending"@ {
            Some(AdyenStatus::Pending)
        } else if name == "Received"@ {
            Some(AdyenStatus::Received)
        } else if name == "RedirectShopper"@ {
            Some(AdyenStatus::RedirectShopper)
        } else {
            None
        }
    }

    pub fn from_name(name: &String) -> (r: Option<AdyenStatus>)
        ensures
            r == Self::spec_from_name(name@),
    {
        if *name == text("Authorised") {
            Some(AdyenStatus::Authorised)
        } else if *name == text("Refused") {
            Some(AdyenStatus::Refused)
        } else if *name == text("Cancelled") {
            Some(AdyenStatus::Cancelled)
        } else if *name == text("Error") {
            Some(AdyenStatus::Error)
        } else if *name == text("Pending") {
            Some(AdyenStatus::Pending)
        } else if *name == text("Received") {
            Some(AdyenStatus::Received)
        } else if *name == text("RedirectShopper") {
            Some(AdyenStatus::RedirectShopper)
        } else {
            None
        }
    }
}

/// The unified attempt state that a result code of Adyen stands for. Every
/// result code has its own entry.
pub open spec fn attempt_status(status: AdyenStatus) -> AttemptStatus {
    match status {
        AdyenStatus::Authorised => AttemptStatus::Charged,
        AdyenStatus::Refused => AttemptStatus::Failure,
        AdyenStatus::Cancelled => AttemptStatus::Voided,
        AdyenStatus::Error => AttemptStatus::Failure,
        AdyenStatus::Pending => AttemptStatus::Pending,
        AdyenStatus::Received => AttemptStatus::Started,
        AdyenStatus::RedirectShopper => AttemptStatus::AuthenticationPending,
    }
}

impl From<AdyenStatus> for AttemptStatus {
    fn from(status: AdyenStatus) -> (r: Self) {
        match status {
            AdyenStatus::Authorised => AttemptStatus::Charged,
            AdyenStatus::Refused => AttemptStatus::Failure,
            AdyenStatus::Cancelled => AttemptStatus::Voided,
            AdyenStatus::Error => AttemptStatus::Failure,
            AdyenStatus::Pending => AttemptStatus::Pending,
            AdyenStatus::Received => AttemptStatus::Started,
            AdyenStatus::RedirectShopper => AttemptStatus::AuthenticationPending,
        }
    }
}

impl FromSpecImpl<AdyenStatus> for AttemptStatus {
    open spec fn obeys_from_spec() -> bool {
        true
    }

    open spec fn from_spec(status: AdyenStatus) -> Self {
        attempt_status(status)
    }
}

/// The amount under `key` in a document: absent where there is no such
/// member or it is null, refused where it is anything but an amount.
pub open spec fn spec_optional_amount_at(doc: Json, key: Seq<char>) -> Option<Option<Amount>> {
    match doc.spec_member(key) {
        None => Some(None),
        Some(Json::Null) => Some(None),
        Some(member) => match Amount::spec_from_json(member) {
            Some(amount) => Some(Some(amount)),
            None => None,
        },
    }
}

fn optional_amount_at(doc: &Json, key: &str) -> (r: Option<Option<Amount>>)
    ensures
        r == spec_optional_amount_at(*doc, key@),
{
    match doc.member(key) {
        None => Some(None),
        Some(Json::Null) => Some(None),
        Some(member) => match Amount::from_json(member) {
            Some(amount) => Some(Some(amount)),
            None => None,
        },
    }
}

/// The body of Adyen's answer to a payment that needs no redirect.
#[derive(Debug, PartialEq, Eq)]
pub struct AdyenResponse {
    pub psp_reference: String,
    /// The result code by its name on the wire.
    pub result_code: String,
    pub amount: Option<Amount>,
    pub merchant_reference: String,
    pub refusal_reason: Option<String>,
    pub refusal_reason_code: Option<String>,
}

impl AdyenResponse {
    /// The answer that a document holds, if it holds one: the references
    /// and a result code, with the amount and the refusal left out or
    /// well-formed. What the result code means is not looked at here.
    pub open spec fn spec_from_json(doc: Json) -> Option<AdyenResponse> {
        match (
            doc.spec_text_at("pspReference"@),
            doc.spec_text_at("resultCode"@),
            spec_optional_amount_at(doc, "amount"@),
            doc.spec_text_at("merchantReference"@),
            doc.spec_optional_text_at("refusalReason"@),
            doc.spec_optional_text_at("refusalReasonCode"@),
        ) {
            (
                Some(psp_reference),
                Some(result_code),
                Some(amount),
                Some(merchant_reference),
                Some(refusal_reason),
                Some(refusal_reason_code),
            ) => Some(
                AdyenResponse {
                    psp_reference,
                    result_code,
                    amount,
                    merchant_reference,
                    refusal_reason,
                    refusal_reason_code,
                },
            ),
            _ => None,
        }
    }

    pub fn from_json(doc: &Json) -> (r: Option<AdyenResponse>)
        ensures
            r == Self::spec_from_json(*doc),
    {
        let psp_reference = doc.text_at("pspReference");
        let result_code = doc.text_at("resultCode");
        let amount = optional_amount_at(doc, "amount");
        let merchant_reference = doc.text_at("merchantReference");
        let refusal_reason = doc.optional_text_at("refusalReason");
        let refusal_reason_code = doc.optional_text_at("refusalReasonCode");
        match (
            psp_reference,
            result_code,
            amount,
            merchant_reference,
            refusal_reason,
            refusal_reason_code,
        ) {
            (
                Some(psp_reference),
                Some(result_code),
                Some(amount),
                Some(merchant_reference),
                Some(refusal_reason),
                Some(refusal_reason_code),
            ) => Some(
                AdyenResponse {
                    psp_reference,
                    result_code,
                    amount,
                    merchant_reference,
                    refusal_reason,
                    refusal_reason_code,
                },
            ),
            _ => None,
        }
    }

    /// The document of an answer.
    pub open spec fn json(self) -> JsonValue {
        JsonValue::Object(
            seq![
                ("pspReference"@, JsonValue::Str(self.psp_reference@)),
                ("resultCode"@, JsonValue::Str(self.result_code@)),
                (
                    "amount"@,
                    match self.amount {
                        Some(amount) => amount.json(),
                        None => JsonValue::Null,
                    },
                ),
                ("merchantReference"@, JsonValue::Str(self.merchant_reference@)),
                ("refusalReason"@, optional_text_json(self.refusal_reason)),
                ("refusalReasonCode"@, optional_text_json(self.refusal_reason_code)),
            ],
        )
    }

    pub fn to_json(&self) -> (r: Json)
        ensures
            r@ == self.json(),
    {
        let mut members: Vec<(String, Json)> = Vec::new();
        assert(members_view(members@) =~= Seq::empty());
        push_member(&mut members, "pspReference", json_str(self.psp_reference.as_str()));
        push_member(&mut members, "resultCode", json_str(self.result_code.as_str()));
        let amount = match &self.amount {
            Some(amount) => amount.to_json(),
            None => json_null(),
        };
        push_member(&mut members, "amount", amount);
        push_member(
            &mut members,
            "merchantReference",
            json_str(self.merchant_reference.as_str()),
        );
        push_member(&mut members, "refusalReason", optional_text_to_json(&self.refusal_reason));
        push_member(
            &mut members,
            "refusalReasonCode",
            optional_text_to_json(&self.refusal_reason_code),
        );
        assert(members_view(members@) =~= self.json()->Object_0);
        json_object(members)
    }
}

/// The HTTP method that a name stands for.
pub open spec fn spec_method_of(name: Seq<char>) -> Option<Method> {
    if name == "GET"@ {
        Some(Method::Get)
    } else if name == "POST"@ {
        Some(Method::Post)
    } else if name == "PUT"@ {
        Some(Method::Put)
    } else if name == "DELETE"@ {
        Some(Method::Delete)
    } else {
        None
    }
}

fn method_of(name: &String) -> (r: Option<Method>)
    ensures
        r == spec_method_of(name@),
{
    if *name == text("GET") {
        Some(Method::Get)
    } else if *name == text("POST") {
        Some(Method::Post)
    } else if *name == text("PUT") {
        Some(Method::Put)
    } else if *name == text("DELETE") {
        Some(Method::Delete)
    } else {
        None
    }
}

/// Where Adyen sends the shopper of a wallet payment.
#[derive(Debug, PartialEq, Eq)]
pub struct AdyenWalletAction {
    pub payment_method_type: String,
    pub url: String,
    pub method: Method,
    pub type_of_response: String,
}

impl AdyenWalletAction {
    /// The action that a document holds, if it holds one.
    pub open spec fn spec_from_json(doc: Json) -> Option<AdyenWalletAction> {
        match (
            doc.spec_text_at("paymentMethodType"@),
            doc.spec_text_at("url"@),
            doc.spec_text_at("method"@),
            doc.spec_text_at("type"@),
        ) {
            (Some(payment_method_type), Some(url), Some(method_name), Some(type_of_response)) => {
                match spec_method_of(method_name@) {
                    Some(method) => Some(
                        AdyenWalletAction { payment_method_type, url, method, type_of_response },
                    ),
                    None => None,
                }
            },
            _ => None,
        }
    }

    pub fn from_json(doc: &Json) -> (r: Option<AdyenWalletAction>)
        ensures
            r == Self::spec_from_json(*doc),
    {
        let payment_method_type = doc.text_at("paymentMethodType");
        let url = doc.text_at("url");
        let method_name = doc.text_at("method");
        let type_of_response = doc.text_at("type");
        match (payment_method_type, url, method_name, type_of_response) {
            (Some(payment_method_type), Some(url), Some(method_name), Some(type_of_response)) => {
                match method_of(&method_name) {
                    Some(method) => Some(
                        AdyenWalletAction { payment_method_type, url, method, type_of_response },
                    ),
                    None => None,
                }
            },
            _ => None,
        }
    }
}

/// The body of Adyen's answer to a wallet payment.
#[derive(Debug, PartialEq, Eq)]
pub struct AdyenWalletResponse {
    /// The result code by its name on the wire.
    pub result_code: String,
    pub action: AdyenWalletAction,
    pub refusal_reason: Option<String>,
    pub refusal_reason_code: Option<String>,
}

impl AdyenWalletResponse {
    /// The answer that a document holds, if it holds one.
    pub open spec fn spec_from_json(doc: Json) -> Option<AdyenWalletResponse> {
        match (
            doc.spec_text_at("resultCode"@),
            doc.spec_member("action"@),
            doc.spec_optional_text_at("refusalReason"@),
            doc.spec_optional_text_at("refusalReasonCode"@),
        ) {
            (
                Some(result_code),
                Some(action_doc),
                Some(refusal_reason),
                Some(refusal_reason_code),
            ) => match AdyenWalletAction::spec_from_json(action_doc) {
                Some(action) => Some(
                    AdyenWalletResponse {
                        result_code,
                        action,
                        refusal_reason,
                        refusal_reason_code,
                    },
                ),
                None => None,
            },
            _ => None,
        }
    }

    pub fn from_json(doc: &Json) -> (r: Option<AdyenWalletResponse>)
        ensures
            r == Self::spec_from_json(*doc),
    {
        let result_code = doc.text_at("resultCode");
        let action_doc = doc.member("action");
        let refusal_reason = doc.optional_text_at("refusalReason");
        let refusal_reason_code = doc.optional_text_at("refusalReasonCode");
        match (result_code, action_doc, refusal_reason, refusal_reason_code) {
            (
                Some(result_code),
                Some(action_doc),
                Some(refusal_reason),
                Some(refusal_reason_code),
            ) => match AdyenWalletAction::from_json(action_doc) {
                Some(action) => Some(
                    AdyenWalletResponse {
                        result_code,
                        action,
                        refusal_reason,
                        refusal_reason_code,
                    },
                ),
                None => None,
            },
            _ => None,
        }
    }
}

/// The two shapes of Adyen's answer to a payment.
#[derive(Debug, PartialEq, Eq)]
pub enum AdyenPaymentResponse {
    AdyenResponse(AdyenResponse),
    AdyenWalletResponse(AdyenWalletResponse),
}

impl AdyenPaymentResponse {
    /// The answer that a document holds: the plain shape if it has it, else
    /// the wallet shape if it has that.
    pub open spec fn spec_from_json(doc: Json) -> Option<AdyenPaymentResponse> {
        match AdyenResponse::spec_from_json(doc) {
            Some(response) => Some(AdyenPaymentResponse::AdyenResponse(response)),
            None => match AdyenWalletResponse::spec_from_json(doc) {
                Some(response) => Some(AdyenPaymentResponse::AdyenWalletResponse(response)),
                None => None,
            },
        }
    }

    pub fn from_json(doc: &Json) -> (r: Option<AdyenPaymentResponse>)
        ensures
            r == Self::spec_from_json(*doc),
    {
        match AdyenResponse::from_json(doc) {
            Some(response) => Some(AdyenPaymentResponse::AdyenResponse(response)),
            None => match AdyenWalletResponse::from_json(doc) {
                Some(response) => Some(AdyenPaymentResponse::AdyenWalletResponse(response)),
                None => None,
            },
        }
    }
}

/// The normalized error of a refusal: code and reason as Adyen gave them,
/// each standing in for the other where only one was given; none where
/// Adyen gave neither.
pub open spec fn refusal_error(reason: Option<String>, code: Option<String>) -> Option<
    crate::types::ErrorResponse,
> {
    match (code, reason) {
        (Some(code), Some(reason)) => Some(
            crate::types::ErrorResponse { code, message: reason, reason: None },
        ),
        (Some(code), None) => Some(
            crate::types::ErrorResponse { code, message: code, reason: None },
        ),
        (None, Some(reason)) => Some(
            crate::types::ErrorResponse { code: reason, message: reason, reason: None },
        ),
        (None, None) => None,
    }
}

fn refusal_error_of(reason: Option<String>, code: Option<String>) -> (r: Option<
    crate::types::ErrorResponse,
>)
    ensures
        r == refusal_error(reason, code),
{
    match (code, reason) {
        (Some(code), Some(reason)) => Some(
            crate::types::ErrorResponse { code, message: reason, reason: None },
        ),
        (Some(code), None) => {
            let message = code.clone();
            Some(crate::types::ErrorResponse { code, message, reason: None })
        },
        (None, Some(reason)) => {
            let code = reason.clone();
            Some(crate::types::ErrorResponse { code, message: reason, reason: None })
        },
        (None, None) => None,
    }
}

/// What a payment answer puts into the response slot: the refusal if
/// Adyen gave one, else the payment's id at Adyen or, for a wallet, the
/// place to send the shopper to.
pub open spec fn payment_slot(response: AdyenPaymentResponse) -> ResponseSlot<
    PaymentsResponseData,
> {
    match response {
        AdyenPaymentResponse::AdyenResponse(plain) => match refusal_error(
            plain.refusal_reason,
            plain.refusal_reason_code,
        ) {
            Some(error) => ResponseSlot::Failed(error),
            None => ResponseSlot::Filled(
                PaymentsResponseData::TransactionResponse {
                    resource_id: ResponseId::ConnectorTransactionId(plain.psp_reference),
                    redirection_data: None,
                    redirect: false,
                },
            ),
        },
        AdyenPaymentResponse::AdyenWalletResponse(wallet) => match refusal_error(
            wallet.refusal_reason,
            wallet.refusal_reason_code,
        ) {
            Some(error) => ResponseSlot::Failed(error),
            None => ResponseSlot::Filled(
                PaymentsResponseData::TransactionResponse {
                    resource_id: ResponseId::NoResponseId,
                    redirection_data: Some(
                        RedirectForm { url: wallet.action.url, method: wallet.action.method },
                    ),
                    redirect: true,
                },
            ),
        },
    }
}

impl AdyenPaymentResponse {
    /// The result code of the answer, by its name on the wire.
    pub open spec fn result_code(self) -> Seq<char> {
        match self {
            AdyenPaymentResponse::AdyenResponse(plain) => plain.result_code@,
            AdyenPaymentResponse::AdyenWalletResponse(wallet) => wallet.result_code@,
        }
    }
}

/// The envelope after a payment answer: the attempt state that the result
/// code stands for, and the response slot filled. A result code that is
/// none of Adyen's has no attempt state, and the answer is refused.
pub open spec fn payment_answer<F, Req>(
    data: RouterData<F, Req, PaymentsResponseData>,
    response: AdyenPaymentResponse,
) -> Result<RouterData<F, Req, PaymentsResponseData>, ParsingError> {
    match AdyenStatus::spec_from_name(response.result_code()) {
        Some(status) => Ok(data.answered(attempt_status(status), payment_slot(response))),
        None => Err(ParsingError),
    }
}

impl<F, Req> TryFrom<
    ResponseRouterData<F, AdyenPaymentResponse, Req, PaymentsResponseData>,
> for RouterData<F, Req, PaymentsResponseData> {
    type Error = ParsingError;

    /// The envelope after a payment answer.
    fn try_from(
        item: ResponseRouterData<F, AdyenPaymentResponse, Req, PaymentsResponseData>,
    ) -> (r: Result<Self, ParsingError>) {
        match item.response {
            AdyenPaymentResponse::AdyenResponse(plain) => {
                let status = match AdyenStatus::from_name(&plain.result_code) {
                    Some(status) => AttemptStatus::from(status),
                    None => { return Err(ParsingError); },
                };
                let slot = match refusal_error_of(plain.refusal_reason, plain.refusal_reason_code) {
                    Some(error) => ResponseSlot::Failed(error),
                    None => ResponseSlot::Filled(
                        PaymentsResponseData::TransactionResponse {
                            resource_id: ResponseId::ConnectorTransactionId(plain.psp_reference),
                            redirection_data: None,
                            redirect: false,
                        },
                    ),
                };
                Ok(item.data.with_answer(status, slot))
            },
            AdyenPaymentResponse::AdyenWalletResponse(wallet) => {
                let status = match AdyenStatus::from_name(&wallet.result_code) {
                    Some(status) => AttemptStatus::from(status),
                    None => { return Err(ParsingError); },
                };
                let slot = match refusal_error_of(
                    wallet.refusal_reason,
                    wallet.refusal_reason_code,
                ) {
                    Some(error) => ResponseSlot::Failed(error),
                    None => ResponseSlot::Filled(
                        PaymentsResponseData::TransactionResponse {
                            resource_id: ResponseId::NoResponseId,
                            redirection_data: Some(
                                RedirectForm {
                                    url: wallet.action.url,
                                    method: wallet.action.method,
                                },
                            ),
                            redirect: true,
                        },
                    ),
                };
                Ok(item.data.with_answer(status, slot))
            },
        }
    }
}

impl<F, Req> TryFromSpecImpl<
    ResponseRouterData<F, AdyenPaymentResponse, Req, PaymentsResponseData>,
> for RouterData<F, Req, PaymentsResponseData> {
    open spec fn obeys_try_from_spec() -> bool {
        true
    }

    open spec fn try_from_spec(
        item: ResponseRouterData<F, AdyenPaymentResponse, Req, PaymentsResponseData>,
    ) -> Result<Self, ParsingError> {
        payment_answer(item.data, item.response)
    }
}

/// What Adyen says of a request to change a payment: that it has it. The
/// outcome comes later, by webhook.
#[derive(Clone, Copy, Debug, PartialEq, Eq, Structural)]
pub enum AdyenModificationStatus {
    Received,
}

impl AdyenModificationStatus {
    /// The status that a name on the wire stands for; none for a name that
    /// is no status.
    pub open spec fn spec_from_name(name: Seq<char>) -> Option<AdyenModificationStatus> {
        if name == "received"@ {
            Some(AdyenModificationStatus::Received)
        } else {
            None
        }
    }

    pub fn from_name(name: &String) -> (r: Option<AdyenModificationStatus>)
        ensures
            r == Self::spec_from_name(name@),
    {
        if *name == text("received") {
            Some(AdyenModificationStatus::Received)
        } else {
            None
        }
    }
}

/// The unified refund state of a refund that Adyen has answered: pending,
/// since Adyen says only that it has the request.
pub open spec fn refund_status(status: AdyenModificationStatus) -> RefundStatus {
    match status {
        AdyenModificationStatus::Received => RefundStatus::Pending,
    }
}

impl From<AdyenModificationStatus> for RefundStatus {
    fn from(status: AdyenModificationStatus) -> (r: Self) {
        match status {
            AdyenModificationStatus::Received => RefundStatus::Pending,
        }
    }
}

impl FromSpecImpl<AdyenModificationStatus> for RefundStatus {
    open spec fn obeys_from_spec() -> bool {
        true
    }

    open spec fn from_spec(status: AdyenModificationStatus) -> Self {
        refund_status(status)
    }
}

/// The attempt status of a void that Adyen has answered.
pub open spec fn void_status(status: AdyenModificationStatus) -> AttemptStatus {
    match status {
        AdyenModificationStatus::Received => AttemptStatus::Voided,
    }
}

/// The body of Adyen's answer to a cancel request.
#[derive(Debug, PartialEq, Eq)]
pub struct AdyenCancelResponse {
    pub psp_reference: String,
    /// The status by its name on the wire.
    pub status: String,
}

impl AdyenCancelResponse {
    /// The answer that a document holds, if it holds one.
    pub open spec fn spec_from_json(doc: Json) -> Option<AdyenCancelResponse> {
        match (doc.spec_text_at("pspReference"@), doc.spec_text_at("status"@)) {
            (Some(psp_reference), Some(status)) => Some(
                AdyenCancelResponse { psp_reference, status },
            ),
            _ => None,
        }
    }

    pub fn from_json(doc: &Json) -> (r: Option<AdyenCancelResponse>)
        ensures
            r == Self::spec_from_json(*doc),
    {
        let psp_reference = doc.text_at("pspReference");
        let status = doc.text_at("status");
        match (psp_reference, status) {
            (Some(psp_reference), Some(status)) => Some(
                AdyenCancelResponse { psp_reference, status },
            ),
            _ => None,
        }
    }
}

impl TryFrom<
    ResponseRouterData<
        crate::types::Void,
        AdyenCancelResponse,
        crate::types::PaymentRequestCancelData,
        PaymentsResponseData,
    >,
> for PaymentRouterCancelData {
    type Error = ParsingError;

    /// The envelope after a cancel answer.
    fn try_from(
        item: ResponseRouterData<
            crate::types::Void,
            AdyenCancelResponse,
            crate::types::PaymentRequestCancelData,
            PaymentsResponseData,
        >,
    ) -> (r: Result<Self, ParsingError>) {
        let status = match AdyenModificationStatus::from_name(&item.response.status) {
            Some(AdyenModificationStatus::Received) => AttemptStatus::Voided,
            None => { return Err(ParsingError); },
        };
        Ok(
            item.data.with_answer(
                status,
                ResponseSlot::Filled(
                    PaymentsResponseData::TransactionResponse {
                        resource_id: ResponseId::ConnectorTransactionId(
                            item.response.psp_reference,
                        ),
                        redirection_data: None,
                        redirect: false,
                    },
                ),
            ),
        )
    }
}

impl TryFromSpecImpl<
    ResponseRouterData<
        crate::types::Void,
        AdyenCancelResponse,
        crate::types::PaymentRequestCancelData,
        PaymentsResponseData,
    >,
> for PaymentRouterCancelData {
    open spec fn obeys_try_from_spec() -> bool {
        true
    }

    open spec fn try_from_spec(
        item: ResponseRouterData<
            crate::types::Void,
            AdyenCancelResponse,
            crate::types::PaymentRequestCancelData,
            PaymentsResponseData,
        >,
    ) -> Result<Self, ParsingError> {
        void_answer(item.data, item.response)
    }
}

/// The envelope after a cancel answer: voided, with the id that Adyen gave
/// the cancellation. A status that is none of Adyen's is refused.
pub open spec fn void_answer(
    data: PaymentRouterCancelData,
    response: AdyenCancelResponse,
) -> Result<PaymentRouterCancelData, ParsingError> {
    match AdyenModificationStatus::spec_from_name(response.status@) {
        Some(status) => Ok(
            data.answered(
                void_status(status),
                ResponseSlot::Filled(
                    PaymentsResponseData::TransactionResponse {
                        resource_id: ResponseId::ConnectorTransactionId(response.psp_reference),
                        redirection_data: None,
                        redirect: false,
                    },
                ),
            ),
        ),
        None => Err(ParsingError),
    }
}

/// The body of Adyen's answer to a refund request.
#[derive(Debug, PartialEq, Eq)]
pub struct AdyenRefundResponse {
    pub merchant_account: String,
    pub psp_reference: String,
    pub payment_psp_reference: String,
    pub reference: String,
    /// The status by its name on the wire.
    pub status: String,
}

impl AdyenRefundResponse {
    /// The answer that a document holds, if it holds one.
    pub open spec fn spec_from_json(doc: Json) -> Option<AdyenRefundResponse> {
        match (
            doc.spec_text_at("merchantAccount"@),
            doc.spec_text_at("pspReference"@),
            doc.spec_text_at("paymentPspReference"@),
            doc.spec_text_at("reference"@),
            doc.spec_text_at("status"@),
        ) {
            (
                Some(merchant_account),
                Some(psp_reference),
                Some(payment_psp_reference),
                Some(reference),
                Some(status),
            ) => Some(
                AdyenRefundResponse {
                    merchant_account,
                    psp_reference,
                    payment_psp_reference,
                    reference,
                    status,
                },
            ),
            _ => None,
        }
    }

    pub fn from_json(doc: &Json) -> (r: Option<AdyenRefundResponse>)
        ensures
            r == Self::spec_from_json(*doc),
    {
        let merchant_account = doc.text_at("merchantAccount");
        let psp_reference = doc.text_at("pspReference");
        let payment_psp_reference = doc.text_at("paymentPspReference");
        let reference = doc.text_at("reference");
        let status = doc.text_at("status");
        match (merchant_account, psp_reference, payment_psp_reference, reference, status) {
            (
                Some(merchant_account),
                Some(psp_reference),
                Some(payment_psp_reference),
                Some(reference),
                Some(status),
            ) => Some(
                AdyenRefundResponse {
                    merchant_account,
                    psp_reference,
                    payment_psp_reference,
                    reference,
                    status,
                },
            ),
            _ => None,
        }
    }
}

impl<F> TryFrom<
    ResponseRouterData<
        F,
        AdyenRefundResponse,
        crate::types::RefundsRequestData,
        RefundsResponseData,
    >,
> for RefundsRouterData<F> {
    type Error = ParsingError;

    /// The envelope after a refund answer: the refund under the reference
    /// that Adyen repeats, in the state that Adyen's status stands for.
    fn try_from(
        item: ResponseRouterData<
            F,
            AdyenRefundResponse,
            crate::types::RefundsRequestData,
            RefundsResponseData,
        >,
    ) -> (r: Result<Self, ParsingError>) {
        let state = match AdyenModificationStatus::from_name(&item.response.status) {
            Some(status) => RefundStatus::from(status),
            None => { return Err(ParsingError); },
        };
        let status = item.data.status;
        Ok(
            item.data.with_answer(
                status,
                ResponseSlot::Filled(
                    RefundsResponseData {
                        connector_refund_id: item.response.reference,
                        refund_status: state,
                    },
                ),
            ),
        )
    }
}

impl<F> TryFromSpecImpl<
    ResponseRouterData<
        F,
        AdyenRefundResponse,
        crate::types::RefundsRequestData,
        RefundsResponseData,
    >,
> for RefundsRouterData<F> {
    open spec fn obeys_try_from_spec() -> bool {
        true
    }

    open spec fn try_from_spec(
        item: ResponseRouterData<
            F,
            AdyenRefundResponse,
            crate::types::RefundsRequestData,
            RefundsResponseData,
        >,
    ) -> Result<Self, ParsingError> {
        refund_answer(item.data, item.response)
    }
}

/// The envelope after a refund answer: the attempt as it was, with the
/// refund under the reference that Adyen repeats, in the state that Adyen's
/// status stands for. A status that is none of Adyen's is refused.
pub open spec fn refund_answer<F>(
    data: RefundsRouterData<F>,
    response: AdyenRefundResponse,
) -> Result<RefundsRouterData<F>, ParsingError> {
    match AdyenModificationStatus::spec_from_name(response.status@) {
        Some(status) => Ok(
            data.answered(
                data.status,
                ResponseSlot::Filled(
                    RefundsResponseData {
                        connector_refund_id: response.reference,
                        refund_status: refund_status(status),
                    },
                ),
            ),
        ),
        None => Err(ParsingError),
    }
}

/// The error body of Adyen.
#[derive(Debug, PartialEq, Eq)]
pub struct ErrorResponse {
    pub status: i64,
    pub error_code: String,
    pub message: String,
    pub error_type: String,
    pub psp_reference: Option<String>,
}

impl ErrorResponse {
    /// The error that a document holds, if it holds one.
    pub open spec fn spec_from_json(doc: Json) -> Option<ErrorResponse> {
        match (
            doc.spec_int_at("status"@),
            doc.spec_text_at("errorCode"@),
            doc.spec_text_at("message"@),
            doc.spec_text_at("errorType"@),
            doc.spec_optional_text_at("pspReference"@),
        ) {
            (
                Some(status),
                Some(error_code),
                Some(message),
                Some(error_type),
                Some(psp_reference),
            ) => Some(ErrorResponse { status, error_code, message, error_type, psp_reference }),
            _ => None,
        }
    }

    pub fn from_json(doc: &Json) -> (r: Option<ErrorResponse>)
        ensures
            r == Self::spec_from_json(*doc),
    {
        let status = doc.int_at("status");
        let error_code = doc.text_at("errorCode");
        let message = doc.text_at("message");
        let error_type = doc.text_at("errorType");
        let psp_reference = doc.optional_text_at("pspReference");
        match (status, error_code, message, error_type, psp_reference) {
            (
                Some(status),
                Some(error_code),
                Some(message),
                Some(error_type),
                Some(psp_reference),
            ) => Some(ErrorResponse { status, error_code, message, error_type, psp_reference }),
            _ => None,
        }
    }
}

/// The signature material of a notification.
#[derive(Debug, PartialEq, Eq)]
pub struct AdyenAdditionalDataWH {
    pub hmac_signature: String,
}

/// The amount of a notification.
#[derive(Debug, PartialEq, Eq)]
pub struct AdyenAmountWH {
    pub value: i64,
    pub currency: String,
}

/// One notification of Adyen.
#[derive(Debug, PartialEq, Eq)]
pub struct AdyenNotificationRequestItemWH {
    pub additional_data: AdyenAdditionalDataWH,
    pub amount: AdyenAmountWH,
    pub original_reference: Option<String>,
    pub psp_reference: String,
    pub event_code: String,
    pub merchant_account_code: String,
    pub merchant_reference: String,
    pub success: String,
}

impl AdyenNotificationRequestItemWH {
    /// The notification that a document holds, if it holds one.
    pub open spec fn spec_from_json(doc: Json) -> Option<AdyenNotificationRequestItemWH> {
        match (doc.spec_member("additionalData"@), doc.spec_member("amount"@)) {
            (Some(additional), Some(amount)) => match (
                additional.spec_text_at("hmacSignature"@),
                amount.spec_int_at("value"@),
                amount.spec_text_at("currency"@),
                doc.spec_optional_text_at("originalReference"@),
                doc.spec_text_at("pspReference"@),
                doc.spec_text_at("eventCode"@),
                doc.spec_text_at("merchantAccountCode"@),
                doc.spec_text_at("merchantReference"@),
                doc.spec_text_at("success"@),
            ) {
                (
                    Some(hmac_signature),
                    Some(value),
                    Some(currency),
                    Some(original_reference),
                    Some(psp_reference),
                    Some(event_code),
                    Some(merchant_account_code),
                    Some(merchant_reference),
                    Some(success),
                ) => Some(
                    AdyenNotificationRequestItemWH {
                        additional_data: AdyenAdditionalDataWH { hmac_signature },
                        amount: AdyenAmountWH { value, currency },
                        original_reference,
                        psp_reference,
                        event_code,
                        merchant_account_code,
                        merchant_reference,
                        success,
                    },
                ),
                _ => None,
            },
            _ => None,
        }
    }

    pub fn from_json(doc: &Json) -> (r: Option<AdyenNotificationRequestItemWH>)
        ensures
            r == Self::spec_from_json(*doc),
    {
        match (doc.member("additionalData"), doc.member("amount")) {
            (Some(additional), Some(amount)) => {
                let hmac_signature = additional.text_at("hmacSignature");
                let value = amount.int_at("value");
                let currency = amount.text_at("currency");
                let original_reference = doc.optional_text_at("originalReference");
                let psp_reference = doc.text_at("pspReference");
                let event_code = doc.text_at("eventCode");
                let merchant_account_code = doc.text_at("merchantAccountCode");
                let merchant_reference = doc.text_at("merchantReference");
                let success = doc.text_at("success");
                match (
                    hmac_signature,
                    value,
                    currency,
                    original_reference,
                    psp_reference,
                    event_code,
                    merchant_account_code,
                    merchant_reference,
                    success,
                ) {
                    (
                        Some(hmac_signature),
                        Some(value),
                        Some(currency),
                        Some(original_reference),
                        Some(psp_reference),
                        Some(event_code),
                        Some(merchant_account_code),
                        Some(merchant_reference),
                        Some(success),
                    ) => Some(
                        AdyenNotificationRequestItemWH {
                            additional_data: AdyenAdditionalDataWH { hmac_signature },
                            amount: AdyenAmountWH { value, currency },
                            original_reference,
                            psp_reference,
                            event_code,
                            merchant_account_code,
                            merchant_reference,
                            success,
                        },
                    ),
                    _ => None,
                }
            },
            _ => None,
        }
    }
}

/// One entry of the notification list.
#[derive(Debug, PartialEq, Eq)]
pub struct AdyenItemObjectWH {
    pub notification_request_item: AdyenNotificationRequestItemWH,
}

impl AdyenItemObjectWH {
    /// The entry that a document holds, if it holds one.
    pub open spec fn spec_from_json(doc: Json) -> Option<AdyenItemObjectWH> {
        match doc.spec_member("NotificationRequestItem"@) {
            Some(inner) => match AdyenNotificationRequestItemWH::spec_from_json(inner) {
                Some(notification_request_item) => Some(
                    AdyenItemObjectWH { notification_request_item },
                ),
                None => None,
            },
            None => None,
        }
    }

    pub fn from_json(doc: &Json) -> (r: Option<AdyenItemObjectWH>)
        ensures
            r == Self::spec_from_json(*doc),
    {
        match doc.member("NotificationRequestItem") {
            Some(inner) => match AdyenNotificationRequestItemWH::from_json(inner) {
                Some(notification_request_item) => Some(
                    AdyenItemObjectWH { notification_request_item },
                ),
                None => None,
            },
            None => None,
        }
    }
}

/// The entries that a list of documents holds, if each of them holds one.
pub open spec fn spec_items_from_json(docs: Seq<Json>) -> Option<Seq<AdyenItemObjectWH>>
    decreases docs.len(),
{
    if docs.len() == 0 {
        Some(Seq::empty())
    } else {
        match (
            spec_items_from_json(docs.drop_last()),
            AdyenItemObjectWH::spec_from_json(docs.last()),
        ) {
            (Some(before), Some(item)) => Some(before.push(item)),
            _ => None,
        }
    }
}

/// The body of an inbound webhook of Adyen.
#[derive(Debug, PartialEq, Eq)]
pub struct AdyenIncomingWebhook {
    pub notification_items: Vec<AdyenItemObjectWH>,
}

impl AdyenIncomingWebhook {
    /// The entries of the webhook that a document holds, if it holds one: a
    /// list of notifications, every one of them well-formed.
    pub open spec fn spec_items(doc: Json) -> Option<Seq<AdyenItemObjectWH>> {
        match doc.spec_member("notificationItems"@) {
            Some(Json::Array(docs)) => spec_items_from_json(docs@),
            _ => None,
        }
    }

    pub fn from_json(doc: &Json) -> (r: Option<AdyenIncomingWebhook>)
        ensures
            match r {
                Some(webhook) => Self::spec_items(*doc) == Some(webhook.notification_items@),
                None => Self::spec_items(*doc) is None,
            },
    {
        match doc.member("notificationItems") {
            Some(Json::Array(docs)) => {
                let mut items: Vec<AdyenItemObjectWH> = Vec::new();
                let mut i: usize = 0;
                assert(docs@.take(0) =~= Seq::empty());
                while i < docs.len()
                    invariant
                        i <= docs@.len(),
                        Self::spec_items(*doc) == spec_items_from_json(docs@),
                        spec_items_from_json(docs@.take(i as int)) == Some(items@),
                    decreases docs@.len() - i,
                {
                    assert(docs@.take(i + 1).drop_last() =~= docs@.take(i as int));
                    assert(docs@.take(i + 1).last() == docs@[i as int]);
                    match AdyenItemObjectWH::from_json(&docs[i]) {
                        Some(item) => {
                            items.push(item);
                        },
                        None => {
                            proof {
                                lemma_items_prefix_refused(docs@, i + 1);
                            }
                            return None;
                        },
                    }
                    i = i + 1;
                }
                assert(docs@.take(i as int) =~= docs@);
                Some(AdyenIncomingWebhook { notification_items: items })
            },
            _ => None,
        }
    }
}

/// A list of documents whose beginning holds a malformed entry holds no
/// list of entries.
proof fn lemma_items_prefix_refused(docs: Seq<Json>, n: int)
    requires
        0 <= n <= docs.len(),
        spec_items_from_json(docs.take(n)) is None,
    ensures
        spec_items_from_json(docs) is None,
    decreases docs.len() - n,
{
    if n < docs.len() {
        assert(docs.take(n + 1).drop_last() =~= docs.take(n));
        lemma_items_prefix_refused(docs, n + 1);
    } else {
        assert(docs.take(n) =~= docs);
    }
}

/// The result code that a notification amounts to: authorised where it
/// reports success, refused where it does not.
pub open spec fn notification_status(success: Seq<char>) -> AdyenStatus {
    if success == "true"@ {
        AdyenStatus::Authorised
    } else {
        AdyenStatus::Refused
    }
}

/// The document of the payment answer that a notification amounts to: the
/// notification's references and amount under its result code, and no
/// refusal.
pub open spec fn notification_document(notif: AdyenNotificationRequestItemWH) -> JsonValue {
    JsonValue::Object(
        seq![
            ("pspReference"@, JsonValue::Str(notif.psp_reference@)),
            ("resultCode"@, JsonValue::Str(notification_status(notif.success@).wire_name())),
            (
                "amount"@,
                JsonValue::Object(
                    seq![
                        ("currency"@, JsonValue::Str(notif.amount.currency@)),
                        ("value"@, JsonValue::Int(notif.amount.value as int)),
                    ],
                ),
            ),
            ("merchantReference"@, JsonValue::Str(notif.merchant_reference@)),
            ("refusalReason"@, JsonValue::Null),
            ("refusalReasonCode"@, JsonValue::Null),
        ],
    )
}

impl AdyenResponse {
    /// The payment answer that a notification amounts to.
    pub fn from_notification(notif: AdyenNotificationRequestItemWH) -> (r: AdyenResponse)
        ensures
            r.json() == notification_document(notif),
            r.psp_reference == notif.psp_reference,
            r.merchant_reference == notif.merchant_reference,
            r.result_code@ == notification_status(notif.success@).wire_name(),
            r.amount == Some(
                Amount { currency: notif.amount.currency, value: notif.amount.value },
            ),
            r.refusal_reason is None,
            r.refusal_reason_code is None,
    {
        let status = if notif.success == text("true") {
            AdyenStatus::Authorised
        } else {
            AdyenStatus::Refused
        };
        let answer = AdyenResponse {
            psp_reference: notif.psp_reference,
            merchant_reference: notif.merchant_reference,
            result_code: text(status.name()),
            amount: Some(Amount { value: notif.amount.value, currency: notif.amount.currency }),
            refusal_reason: None,
            refusal_reason_code: None,
        };
        assert(answer.json()->Object_0 =~= notification_document(notif)->Object_0);
        answer
    }
}

impl AdyenCancelRequest {
    /// The cancel request that a document holds, if it holds one.
    pub open spec fn spec_from_json(doc: Json) -> Option<AdyenCancelRequest> {
        match (
            doc.spec_text_at("merchantAccount"@),
            doc.spec_text_at("originalReference"@),
            doc.spec_text_at("reference"@),
        ) {
            (Some(merchant_account), Some(original_reference), Some(reference)) => Some(
                AdyenCancelRequest { merchant_account, original_reference, reference },
            ),
            _ => None,
        }
    }

    pub fn from_json(doc: &Json) -> (r: Option<AdyenCancelRequest>)
        ensures
            r == Self::spec_from_json(*doc),
    {
        let merchant_account = doc.text_at("merchantAccount");
        let original_reference = doc.text_at("originalReference");
        let reference = doc.text_at("reference");
        match (merchant_account, original_reference, reference) {
            (Some(merchant_account), Some(original_reference), Some(reference)) => Some(
                AdyenCancelRequest { merchant_account, original_reference, reference },
            ),
            _ => None,
        }
    }
}

/// Reading a cancel request back from a document of it gives a request
/// with that very document.
pub proof fn lemma_cancel_request_round_trip(request: AdyenCancelRequest, doc: Json)
    requires
        doc@ == request.json(),
    ensures
        AdyenCancelRequest::spec_from_json(doc) matches Some(back) && back.json()
            == request.json(),
{
    reveal_strlit("merchantAccount");
    reveal_strlit("originalReference");
    reveal_strlit("reference");
    assert("merchantAccount"@.len() == 15);
    assert("originalReference"@.len() == 17);
    assert("reference"@.len() == 9);
    lemma_text_at(doc, "merchantAccount"@, 0);
    lemma_text_at(doc, "originalReference"@, 1);
    lemma_text_at(doc, "reference"@, 2);
    let back = AdyenCancelRequest::spec_from_json(doc)->Some_0;
    assert(back.json()->Object_0 =~= request.json()->Object_0);
}

impl AdyenRefundRequest {
    /// The refund request that a document holds, if it holds one.
    pub open spec fn spec_from_json(doc: Json) -> Option<AdyenRefundRequest> {
        match (doc.spec_text_at("merchantAccount"@), doc.spec_text_at("reference"@)) {
            (Some(merchant_account), Some(reference)) => Some(
                AdyenRefundRequest { merchant_account, reference },
            ),
            _ => None,
        }
    }

    pub fn from_json(doc: &Json) -> (r: Option<AdyenRefundRequest>)
        ensures
            r == Self::spec_from_json(*doc),
    {
        let merchant_account = doc.text_at("merchantAccount");
        let reference = doc.text_at("reference");
        match (merchant_account, reference) {
            (Some(merchant_account), Some(reference)) => Some(
                AdyenRefundRequest { merchant_account, reference },
            ),
            _ => None,
        }
    }
}

/// Reading a refund request back from a document of it gives a request
/// with that very document.
pub proof fn lemma_refund_request_round_trip(request: AdyenRefundRequest, doc: Json)
    requires
        doc@ == request.json(),
    ensures
        AdyenRefundRequest::spec_from_json(doc) matches Some(back) && back.json()
            == request.json(),
{
    reveal_strlit("merchantAccount");
    reveal_strlit("reference");
    assert("merchantAccount"@.len() == 15);
    assert("reference"@.len() == 9);
    lemma_text_at(doc, "merchantAccount"@, 0);
    lemma_text_at(doc, "reference"@, 1);
    let back = AdyenRefundRequest::spec_from_json(doc)->Some_0;
    assert(back.json()->Object_0 =~= request.json()->Object_0);
}

/// Reading an amount back from a document of it gives an amount with that
/// very document.
pub proof fn lemma_amount_round_trip(amount: Amount, doc: Json)
    requires
        doc@ == amount.json(),
    ensures
        Amount::spec_from_json(doc) matches Some(back) && back.json() == amount.json(),
{
    reveal_strlit("currency");
    reveal_strlit("value");
    assert("currency"@.len() == 8);
    assert("value"@.len() == 5);
    lemma_text_at(doc, "currency"@, 0);
    lemma_int_at(doc, "value"@, 1);
    let back = Amount::spec_from_json(doc)->Some_0;
    assert(back.json()->Object_0 =~= amount.json()->Object_0);
}

impl AdyenShopperInteraction {
    /// The interaction that a name on the wire stands for.
    pub open spec fn spec_from_name(name: Seq<char>) -> Option<AdyenShopperInteraction> {
        if name == "Ecommerce"@ {
            Some(AdyenShopperInteraction::Ecommerce)
        } else if name == "ContAuth"@ {
            Some(AdyenShopperInteraction::ContinuedAuthentication)
        } else {
            None
        }
    }

    pub fn from_name(name: &String) -> (r: Option<AdyenShopperInteraction>)
        ensures
            r == Self::spec_from_name(name@),
    {
        if *name == text("Ecommerce") {
            Some(AdyenShopperInteraction::Ecommerce)
        } else if *name == text("ContAuth") {
            Some(AdyenShopperInteraction::ContinuedAuthentication)
        } else {
            None
        }
    }
}

impl AdyenPaymentMethod {
    /// The payment method that a document holds, if it holds one: the type
    /// says which, and what that type needs must be there.
    pub open spec fn spec_from_json(doc: Json) -> Option<AdyenPaymentMethod> {
        match doc.spec_text_at("type"@) {
            None => None,
            Some(kind) => if kind@ == "scheme"@ {
                match (
                    doc.spec_text_at("number"@),
                    doc.spec_text_at("expiryMonth"@),
                    doc.spec_text_at("expiryYear"@),
                    doc.spec_text_at("cvc"@),
                ) {
                    (Some(number), Some(expiry_month), Some(expiry_year), Some(cvc)) => Some(
                        AdyenPaymentMethod::AdyenCard(
                            AdyenCard { number, expiry_month, expiry_year, cvc },
                        ),
                    ),
                    _ => None,
                }
            } else if kind@ == "paypal"@ {
                Some(AdyenPaymentMethod::AdyenPaypal)
            } else if kind@ == "googlepay"@ {
                match doc.spec_text_at("googlePayToken"@) {
                    Some(google_pay_token) => Some(AdyenPaymentMethod::Gpay { google_pay_token }),
                    None => None,
                }
            } else if kind@ == "applepay"@ {
                match doc.spec_text_at("applePayToken"@) {
                    Some(apple_pay_token) => Some(AdyenPaymentMethod::ApplePay { apple_pay_token }),
                    None => None,
                }
            } else {
                None
            },
        }
    }

    pub fn from_json(doc: &Json) -> (r: Option<AdyenPaymentMethod>)
        ensures
            r == Self::spec_from_json(*doc),
    {
        let kind = match doc.text_at("type") {
            Some(kind) => kind,
            None => { return None; },
        };
        if kind == text("scheme") {
            let number = doc.text_at("number");
            let expiry_month = doc.text_at("expiryMonth");
            let expiry_year = doc.text_at("expiryYear");
            let cvc = doc.text_at("cvc");
            match (number, expiry_month, expiry_year, cvc) {
                (Some(number), Some(expiry_month), Some(expiry_year), Some(cvc)) => Some(
                    AdyenPaymentMethod::AdyenCard(
                        AdyenCard { number, expiry_month, expiry_year, cvc },
                    ),
                ),
                _ => None,
            }
        } else if kind == text("paypal") {
            Some(AdyenPaymentMethod::AdyenPaypal)
        } else if kind == text("googlepay") {
            match doc.text_at("googlePayToken") {
                Some(google_pay_token) => Some(AdyenPaymentMethod::Gpay { google_pay_token }),
                None => None,
            }
        } else if kind == text("applepay") {
            match doc.text_at("applePayToken") {
                Some(apple_pay_token) => Some(AdyenPaymentMethod::ApplePay { apple_pay_token }),
                None => None,
            }
        } else {
            None
        }
    }
}

/// Reading a payment method back from a document of it gives a payment
/// method with that very document.
pub proof fn lemma_payment_method_round_trip(method: AdyenPaymentMethod, doc: Json)
    requires
        doc@ == method.json(),
    ensures
        AdyenPaymentMethod::spec_from_json(doc) matches Some(back) && back.json()
            == method.json(),
{
    reveal_strlit("type");
    reveal_strlit("scheme");
    reveal_strlit("paypal");
    reveal_strlit("googlepay");
    reveal_strlit("applepay");
    assert("type"@.len() == 4);
    assert("scheme"@.len() == 6 && "scheme"@[0] == 's');
    assert("paypal"@.len() == 6 && "paypal"@[0] == 'p');
    assert("googlepay"@.len() == 9);
    assert("applepay"@.len() == 8);
    lemma_text_at(doc, "type"@, 0);
    match method {
        AdyenPaymentMethod::AdyenCard(card) => {
            reveal_strlit("number");
            reveal_strlit("expiryMonth");
            reveal_strlit("expiryYear");
            reveal_strlit("cvc");
            assert("number"@.len() == 6);
            assert("expiryMonth"@.len() == 11);
            assert("expiryYear"@.len() == 10);
            assert("cvc"@.len() == 3);
            lemma_text_at(doc, "number"@, 1);
            lemma_text_at(doc, "expiryMonth"@, 2);
            lemma_text_at(doc, "expiryYear"@, 3);
            lemma_text_at(doc, "cvc"@, 4);
        },
        AdyenPaymentMethod::AdyenPaypal => {},
        AdyenPaymentMethod::Gpay { google_pay_token } => {
            reveal_strlit("googlePayToken");
            assert("googlePayToken"@.len() == 14);
            lemma_text_at(doc, "googlePayToken"@, 1);
        },
        AdyenPaymentMethod::ApplePay { apple_pay_token } => {
            reveal_strlit("applePayToken");
            assert("applePayToken"@.len() == 13);
            lemma_text_at(doc, "applePayToken"@, 1);
        },
    }
    let back = AdyenPaymentMethod::spec_from_json(doc)->Some_0;
    assert(back.json()->Object_0 =~= method.json()->Object_0);
}

impl AdyenPaymentRequest {
    /// The payment request that a document holds, if it holds one.
    pub open spec fn spec_from_json(doc: Json) -> Option<AdyenPaymentRequest> {
        match (
            doc.spec_member("amount"@),
            doc.spec_text_at("merchantAccount"@),
            doc.spec_member("paymentMethod"@),
            doc.spec_text_at("reference"@),
            doc.spec_optional_text_at("returnUrl"@),
            doc.spec_text_at("shopperInteraction"@),
        ) {
            (
                Some(amount_doc),
                Some(merchant_account),
                Some(method_doc),
                Some(reference),
                Some(return_url),
                Some(interaction),
            ) => match (
                Amount::spec_from_json(amount_doc),
                AdyenPaymentMethod::spec_from_json(method_doc),
                AdyenShopperInteraction::spec_from_name(interaction@),
            ) {
                (Some(amount), Some(payment_method), Some(shopper_interaction)) => Some(
                    AdyenPaymentRequest {
                        amount,
                        merchant_account,
                        payment_method,
                        reference,
                        return_url,
                        shopper_interaction,
                    },
                ),
                _ => None,
            },
            _ => None,
        }
    }

    pub fn from_json(doc: &Json) -> (r: Option<AdyenPaymentRequest>)
        ensures
            r == Self::spec_from_json(*doc),
    {
        let amount_doc = doc.member("amount");
        let merchant_account = doc.text_at("merchantAccount");
        let method_doc = doc.member("paymentMethod");
        let reference = doc.text_at("reference");
        let return_url = doc.optional_text_at("returnUrl");
        let interaction = doc.text_at("shopperInteraction");
        match (amount_doc, merchant_account, method_doc, reference, return_url, interaction) {
            (
                Some(amount_doc),
                Some(merchant_account),
                Some(method_doc),
                Some(reference),
                Some(return_url),
                Some(interaction),
            ) => {
                let amount = Amount::from_json(amount_doc);
                let payment_method = AdyenPaymentMethod::from_json(method_doc);
                let shopper_interaction = AdyenShopperInteraction::from_name(&interaction);
                match (amount, payment_method, shopper_interaction) {
                    (Some(amount), Some(payment_method), Some(shopper_interaction)) => Some(
                        AdyenPaymentRequest {
                            amount,
                            merchant_account,
                            payment_method,
                            reference,
                            return_url,
                            shopper_interaction,
                        },
                    ),
                    _ => None,
                }
            },
            _ => None,
        }
    }
}

/// Reading a payment request back from a document of it gives a request
/// with that very document: the body that is built for Adyen holds all of
/// the request, in the shape in which Adyen reads it.
pub proof fn lemma_payment_request_round_trip(request: AdyenPaymentRequest, doc: Json)
    requires
        doc@ == request.json(),
    ensures
        AdyenPaymentRequest::spec_from_json(doc) matches Some(back) && back.json()
            == request.json(),
{
    reveal_strlit("amount");
    reveal_strlit("merchantAccount");
    reveal_strlit("paymentMethod");
    reveal_strlit("reference");
    reveal_strlit("returnUrl");
    reveal_strlit("shopperInteraction");
    reveal_strlit("Ecommerce");
    reveal_strlit("ContAuth");
    assert("amount"@.len() == 6);
    assert("merchantAccount"@.len() == 15);
    assert("paymentMethod"@.len() == 13);
    assert("reference"@.len() == 9 && "reference"@[2] == 'f');
    assert("returnUrl"@.len() == 9 && "returnUrl"@[2] == 't');
    assert("shopperInteraction"@.len() == 18);
    assert("Ecommerce"@.len() == 9);
    assert("ContAuth"@.len() == 8);
    lemma_member_at(doc, "amount"@, 0);
    lemma_text_at(doc, "merchantAccount"@, 1);
    lemma_member_at(doc, "paymentMethod"@, 2);
    lemma_text_at(doc, "reference"@, 3);
    lemma_optional_text_at(doc, "returnUrl"@, 4, request.return_url);
    lemma_text_at(doc, "shopperInteraction"@, 5);
    lemma_amount_round_trip(request.amount, doc.spec_member("amount"@)->Some_0);
    lemma_payment_method_round_trip(
        request.payment_method,
        doc.spec_member("paymentMethod"@)->Some_0,
    );
    let back = AdyenPaymentRequest::spec_from_json(doc)->Some_0;
    assert(back.json()->Object_0 =~= request.json()->Object_0);
}

impl AdyenRedirectRequestTypes {
    /// The result that a document holds: a redirect result if it has one,
    /// else a 3-D Secure result if it has one.
    pub open spec fn spec_from_json(doc: Json) -> Option<AdyenRedirectRequestTypes> {
        match (
            doc.spec_optional_text_at("type"@),
            doc.spec_optional_text_at("resultCode"@),
        ) {
            (Some(type_of_redirection_result), Some(result_code)) => match doc.spec_text_at(
                "redirectResult"@,
            ) {
                Some(redirect_result) => Some(
                    AdyenRedirectRequestTypes::AdyenRedirection(
                        AdyenRedirection {
                            redirect_result,
                            type_of_redirection_result,
                            result_code,
                        },
                    ),
                ),
                None => match doc.spec_text_at("threeDSResult"@) {
                    Some(three_ds_result) => Some(
                        AdyenRedirectRequestTypes::AdyenThreeDS(
                            AdyenThreeDS {
                                three_ds_result,
                                type_of_redirection_result,
                                result_code,
                            },
                        ),
                    ),
                    None => None,
                },
            },
            _ => None,
        }
    }

    pub fn from_json(doc: &Json) -> (r: Option<AdyenRedirectRequestTypes>)
        ensures
            r == Self::spec_from_json(*doc),
    {
        let kind = doc.optional_text_at("type");
        let code = doc.optional_text_at("resultCode");
        match (kind, code) {
            (Some(type_of_redirection_result), Some(result_code)) => match doc.text_at(
                "redirectResult",
            ) {
                Some(redirect_result) => Some(
                    AdyenRedirectRequestTypes::AdyenRedirection(
                        AdyenRedirection {
                            redirect_result,
                            type_of_redirection_result,
                            result_code,
                        },
                    ),
                ),
                None => match doc.text_at("threeDSResult") {
                    Some(three_ds_result) => Some(
                        AdyenRedirectRequestTypes::AdyenThreeDS(
                            AdyenThreeDS {
                                three_ds_result,
                                type_of_redirection_result,
                                result_code,
                            },
                        ),
                    ),
                    None => None,
                },
            },
            _ => None,
        }
    }
}

proof fn lemma_optional_text_at(doc: Json, key: Seq<char>, i: int, value: Option<String>)
    requires
        doc@ is Object,
        0 <= i < doc@->Object_0.len(),
        doc@->Object_0[i].0 == key,
        forall|j: int| 0 <= j < i ==> doc@->Object_0[j].0 != key,
        doc@->Object_0[i].1 == optional_text_json(value),
    ensures
        doc.spec_optional_text_at(key) matches Some(found) && optional_text_json(found)
            == optional_text_json(value),
{
    match value {
        Some(_) => {
            lemma_text_at(doc, key, i);
        },
        None => {
            lemma_absent_text_at(doc, key, i);
        },
    }
}

/// Reading what came back with the shopper from a document of it gives a
/// result with that very document.
pub proof fn lemma_redirect_result_round_trip(details: AdyenRedirectRequestTypes, doc: Json)
    requires
        doc@ == details.json(),
    ensures
        AdyenRedirectRequestTypes::spec_from_json(doc) matches Some(back) && back.json()
            == details.json(),
{
    reveal_strlit("redirectResult");
    reveal_strlit("threeDSResult");
    reveal_strlit("type");
    reveal_strlit("resultCode");
    assert("redirectResult"@.len() == 14);
    assert("threeDSResult"@.len() == 13);
    assert("type"@.len() == 4);
    assert("resultCode"@.len() == 10);
    match details {
        AdyenRedirectRequestTypes::AdyenRedirection(redirection) => {
            lemma_text_at(doc, "redirectResult"@, 0);
            lemma_optional_text_at(doc, "type"@, 1, redirection.type_of_redirection_result);
            lemma_optional_text_at(doc, "resultCode"@, 2, redirection.result_code);
        },
        AdyenRedirectRequestTypes::AdyenThreeDS(three_ds) => {
            lemma_member_absent(doc, "redirectResult"@);
            lemma_text_at(doc, "threeDSResult"@, 0);
            lemma_optional_text_at(doc, "type"@, 1, three_ds.type_of_redirection_result);
            lemma_optional_text_at(doc, "resultCode"@, 2, three_ds.result_code);
        },
    }
    let back = AdyenRedirectRequestTypes::spec_from_json(doc)->Some_0;
    assert(back.json()->Object_0 =~= details.json()->Object_0);
}

impl AdyenRedirectRequest {
    /// The payment details request that a document holds, if it holds one.
    pub open spec fn spec_from_json(doc: Json) -> Option<AdyenRedirectRequest> {
        match doc.spec_member("details"@) {
            Some(details_doc) => match AdyenRedirectRequestTypes::spec_from_json(details_doc) {
                Some(details) => Some(AdyenRedirectRequest { details }),
                None => None,
            },
            None => None,
        }
    }

    pub fn from_json(doc: &Json) -> (r: Option<AdyenRedirectRequest>)
        ensures
            r == Self::spec_from_json(*doc),
    {
        match doc.member("details") {
            Some(details_doc) => match AdyenRedirectRequestTypes::from_json(details_doc) {
                Some(details) => Some(AdyenRedirectRequest { details }),
                None => None,
            },
            None => None,
        }
    }
}

/// Reading a payment details request back from a document of it gives a
/// request with that very document.
pub proof fn lemma_redirect_request_round_trip(request: AdyenRedirectRequest, doc: Json)
    requires
        doc@ == request.json(),
    ensures
        AdyenRedirectRequest::spec_from_json(doc) matches Some(back) && back.json()
            == request.json(),
{
    lemma_member_at(doc, "details"@, 0);
    lemma_redirect_result_round_trip(request.details, doc.spec_member("details"@)->Some_0);
    let back = AdyenRedirectRequest::spec_from_json(doc)->Some_0;
    assert(back.json()->Object_0 =~= request.json()->Object_0);
}

/// Every result code of Adyen is read back from its name on the wire, and
/// so has a unified attempt state.
pub proof fn lemma_every_result_code_is_read(status: AdyenStatus)
    ensures
        AdyenStatus::spec_from_name(status.wire_name()) == Some(status),
{
    reveal_strlit("Authorised");
    reveal_strlit("Refused");
    reveal_strlit("Cancelled");
    reveal_strlit("Error");
    reveal_strlit("Pending");
    reveal_strlit("Received");
    reveal_strlit("RedirectShopper");
    assert("Authorised"@.len() == 10);
    assert("Refused"@.len() == 7 && "Refused"@[0] == 'R');
    assert("Cancelled"@.len() == 9);
    assert("Error"@.len() == 5);
    assert("Pending"@.len() == 7 && "Pending"@[0] == 'P');
    assert("Received"@.len() == 8);
    assert("RedirectShopper"@.len() == 15);
}

/// A payment answer that is taken fills the response slot of the envelope
/// and changes nothing of it but the status and that slot.
pub proof fn lemma_payment_answer_fills_the_slot<F, Req>(
    data: RouterData<F, Req, PaymentsResponseData>,
    response: AdyenPaymentResponse,
)
    ensures
        payment_answer(data, response) matches Ok(answered) ==> {
            &&& answered.response.is_filled()
            &&& answered == data.answered(answered.status, answered.response)
        },
{
}

/// A cancel answer that is taken fills the response slot of the envelope
/// and changes nothing of it but the status and that slot.
pub proof fn lemma_void_answer_fills_the_slot(
    data: PaymentRouterCancelData,
    response: AdyenCancelResponse,
)
    ensures
        void_answer(data, response) matches Ok(answered) ==> {
            &&& answered.response.is_filled()
            &&& answered == data.answered(answered.status, answered.response)
        },
{
}

/// A refund answer that is taken fills the response slot of the envelope
/// and changes nothing else of it.
pub proof fn lemma_refund_answer_fills_the_slot<F>(
    data: RefundsRouterData<F>,
    response: AdyenRefundResponse,
)
    ensures
        refund_answer(data, response) matches Ok(answered) ==> {
            &&& answered.response.is_filled()
            &&& answered == data.answered(data.status, answered.response)
        },
{
}

/// A payment method that Adyen is not asked to charge is refused by name,
/// whatever else the envelope holds: no request is made of it.
pub proof fn lemma_unsupported_methods_are_refused(item: PaymentsRouterData)
    requires
        item.request.payment_method_data is BankTransfer
            || item.request.payment_method_data is PayLater,
    ensures
        AdyenPaymentRequest::spec_try_from(item) == Err::<AdyenPaymentRequest, RequestRefusal>(
            RequestRefusal::PaymentMethod,
        ),
{
}

/// Every payment method that Adyen is asked to charge gives a payment
/// request, once the credentials have Adyen's shape.
pub proof fn lemma_supported_methods_give_a_request(item: PaymentsRouterData)
    requires
        !(item.request.payment_method_data is BankTransfer),
        !(item.request.payment_method_data is PayLater),
        item.connector_auth_type is BodyKey,
    ensures
        AdyenPaymentRequest::spec_try_from(item) is Ok,
{
}

/// What a webhook reports has the shape of the answer to a payment sync:
/// the document made of a notification is read as a payment answer, and
/// that answer has this very document.
pub proof fn lemma_notification_document_is_an_answer(
    notif: AdyenNotificationRequestItemWH,
    doc: Json,
)
    requires
        doc@ == notification_document(notif),
    ensures
        AdyenResponse::spec_from_json(doc) matches Some(answer) && answer.json()
            == notification_document(notif),
{
    reveal_strlit("pspReference");
    reveal_strlit("resultCode");
    reveal_strlit("amount");
    reveal_strlit("merchantReference");
    reveal_strlit("refusalReason");
    reveal_strlit("refusalReasonCode");
    assert("pspReference"@.len() == 12);
    assert("resultCode"@.len() == 10);
    assert("amount"@.len() == 6);
    assert("merchantReference"@.len() == 17 && "merchantReference"@[0] == 'm');
    assert("refusalReason"@.len() == 13);
    assert("refusalReasonCode"@.len() == 17 && "refusalReasonCode"@[0] == 'r');
    lemma_text_at(doc, "pspReference"@, 0);
    lemma_text_at(doc, "resultCode"@, 1);
    lemma_member_at(doc, "amount"@, 2);
    lemma_text_at(doc, "merchantReference"@, 3);
    lemma_absent_text_at(doc, "refusalReason"@, 4);
    lemma_absent_text_at(doc, "refusalReasonCode"@, 5);
    let amount = Amount { currency: notif.amount.currency, value: notif.amount.value };
    let amount_doc = doc.spec_member("amount"@)->Some_0;
    assert(amount_doc@->Object_0 =~= amount.json()->Object_0);
    lemma_amount_round_trip(amount, amount_doc);
    let answer = AdyenResponse::spec_from_json(doc)->Some_0;
    assert(answer.json()->Object_0 =~= notification_document(notif)->Object_0);
}

} // verus!

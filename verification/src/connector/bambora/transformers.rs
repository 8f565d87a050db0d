//! Bambora's wire shapes and the mappings between them and the unified
//! model.

use crate::errors::{ConnectorError, ParsingError};
use crate::json::{
    json_int, json_object, json_str, lemma_int_at, lemma_member_at, lemma_text_at, members_view,
    push_member, text, Json, JsonValue,
};
use crate::types;
use crate::types::{
    AttemptStatus, ConnectorAuthType, PaymentMethod, PaymentsResponseData, PaymentsRouterData,
    ResponseId, ResponseRouterData, ResponseSlot, RouterData,
};
use std::convert::TryFrom;
use vstd::prelude::*;
use vstd::std_specs::convert::FromSpecImpl;
use vstd::std_specs::convert::TryFromSpecImpl;

verus! {

/// The card of a Bambora payment request.
#[derive(Default, Debug, PartialEq, Eq)]
pub struct BamboraCard {
    pub name: String,
    pub number: String,
    pub expiry_month: String,
    pub expiry_year: String,
    pub cvd: String,
}

/// The body of a Bambora payment request.
#[derive(Default, Debug, PartialEq, Eq)]
pub struct BamboraPaymentsRequest {
    pub amount: i64,
    pub payment_method: String,
    pub card: BamboraCard,
}

impl BamboraPaymentsRequest {
    /// The payment request for an authorize envelope. Bambora takes cards
    /// only: every other payment method is refused by name.
    pub fn try_from(item: &PaymentsRouterData) -> (r: Result<Self, ConnectorError>)
        ensures
            match item.request.payment_method_data {
                PaymentMethod::Card(card) => r matches Ok(request) && {
                    &&& request.amount == item.request.amount
                    &&& request.payment_method@ == "card"@
                    &&& request.card.name == card.card_holder_name
                    &&& request.card.number == card.card_number
                    &&& request.card.expiry_month == card.card_exp_month
                    &&& request.card.expiry_year == card.card_exp_year
                    &&& request.card.cvd == card.card_cvc
                },
                _ => r matches Err(ConnectorError::NotImplemented(what)) && what@
                    == "Payment methods"@,
            },
    {
        match &item.request.payment_method_data {
            PaymentMethod::Card(req_card) => {
                let bambora_card = BamboraCard {
                    name: req_card.card_holder_name.clone(),
                    number: req_card.card_number.clone(),
                    expiry_month: req_card.card_exp_month.clone(),
                    expiry_year: req_card.card_exp_year.clone(),
                    cvd: req_card.card_cvc.clone(),
                };
                Ok(
                    BamboraPaymentsRequest {
                        amount: item.request.amount,
                        payment_method: text("card"),
                        card: bambora_card,
                    },
                )
            },
            _ => Err(ConnectorError::NotImplemented(text("Payment methods"))),
        }
    }
}

/// The credentials that Bambora asks for.
#[derive(Debug, PartialEq, Eq)]
pub struct BamboraAuthType {
    pub api_key: String,
}

impl BamboraAuthType {
    /// Bambora's credentials from the merchant's: a header key and nothing
    /// else.
    pub fn try_from(auth_type: &ConnectorAuthType) -> (r: Result<Self, ConnectorError>)
        ensures
            match *auth_type {
                ConnectorAuthType::HeaderKey { api_key } => r == Ok::<Self, ConnectorError>(
                    BamboraAuthType { api_key },
                ),
                _ => r == Err::<Self, ConnectorError>(ConnectorError::FailedToObtainAuthType),
            },
    {
        match auth_type {
            ConnectorAuthType::HeaderKey { api_key } => Ok(
                BamboraAuthType { api_key: api_key.clone() },
            ),
            _ => Err(ConnectorError::FailedToObtainAuthType),
        }
    }
}

/// One complaint of Bambora about a field of a request.
#[derive(Default, Debug, PartialEq, Eq)]
pub struct ErrorDetail {
    pub field: String,
    pub message: String,
}

/// The error body of a Bambora payment.
#[derive(Default, Debug, PartialEq, Eq)]
pub struct BamboraPaymentsErrorResponse {
    pub code: i32,
    pub category: i32,
    pub message: String,
    pub reference: String,
    pub details: Vec<ErrorDetail>,
}

/// What Bambora found when it checked the address.
#[derive(Default, Debug, PartialEq, Eq)]
pub struct AvsObject {
    pub id: String,
    pub message: String,
    pub processed: bool,
}

/// The card as a Bambora payment response shows it.
#[derive(Default, Debug, PartialEq, Eq)]
pub struct CardData {
    pub name: Option<String>,
    pub expiry_month: Option<String>,
    pub expiry_year: Option<String>,
    pub card_type: String,
    pub last_four: String,
    pub card_bin: String,
    pub avs_result: String,
    pub cvd_result: String,
    pub cavv_result: Option<String>,
    pub address_match: i32,
    pub postal_result: i32,
    pub avs: AvsObject,
}

/// A billing or shipping address.
#[derive(Default, Debug, PartialEq, Eq)]
pub struct AddressData {
    pub name: String,
    pub address_line1: String,
    pub address_line2: String,
    pub city: String,
    pub province: String,
    pub country: String,
    pub postal_code: String,
    pub phone_number: String,
    pub email_address: String,
}

/// The merchant's own references on a payment.
#[derive(Default, Debug, PartialEq, Eq)]
pub struct CustomData {
    pub ref1: String,
    pub ref2: String,
    pub ref3: String,
    pub ref4: String,
    pub ref5: String,
}

/// A follow-up call that Bambora offers on a payment.
#[derive(Default, Debug, PartialEq, Eq)]
pub struct Links {
    pub rel: String,
    pub href: String,
    pub method: String,
}

/// The body of a Bambora payment response, without its amounts.
#[derive(Default, Debug, PartialEq, Eq)]
pub struct BamboraPaymentsResponse {
    pub id: String,
    pub authorizing_merchant_id: i32,
    pub approved: String,
    pub message_id: String,
    pub message: String,
    pub auth_code: String,
    pub created: String,
    pub order_number: String,
    pub payment_type: String,
    pub comments: Option<String>,
    pub batch_number: Option<String>,
    pub payment_method: String,
    pub card: CardData,
    pub billing: Option<AddressData>,
    pub shipping: Option<AddressData>,
    pub custom: CustomData,
    pub links: Vec<Links>,
    pub risk_score: String,
}

/// The attempt status that an approval code of Bambora stands for: `0` is a
/// failure, `1` is pending, and no other code has a meaning.
pub open spec fn approval_status(approved: Seq<char>) -> Option<AttemptStatus> {
    if approved == "0"@ {
        Some(AttemptStatus::Failure)
    } else if approved == "1"@ {
        Some(AttemptStatus::Pending)
    } else {
        None
    }
}

/// The attempt status of an approval code.
pub fn attempt_status_of_approval(approved: &String) -> (r: Option<AttemptStatus>)
    ensures
        r == approval_status(approved@),
{
    if *approved == text("0") {
        Some(AttemptStatus::Failure)
    } else if *approved == text("1") {
        Some(AttemptStatus::Pending)
    } else {
        None
    }
}

impl<F, T> TryFrom<
    ResponseRouterData<F, BamboraPaymentsResponse, T, PaymentsResponseData>,
> for RouterData<F, T, PaymentsResponseData> {
    type Error = ParsingError;

    /// The envelope after a payment response: the status that the approval
    /// code stands for, and the payment's id at Bambora in the response
    /// slot. An approval code without a meaning is refused.
    fn try_from(
        item: ResponseRouterData<F, BamboraPaymentsResponse, T, PaymentsResponseData>,
    ) -> (r: Result<Self, ParsingError>) {
        let pg_response = item.response;
        match attempt_status_of_approval(&pg_response.approved) {
            Some(status) => Ok(
                item.data.with_answer(
                    status,
                    ResponseSlot::Filled(
                        PaymentsResponseData::TransactionResponse {
                            resource_id: ResponseId::ConnectorTransactionId(pg_response.id),
                            redirection_data: None,
                            redirect: false,
                        },
                    ),
                ),
            ),
            None => Err(ParsingError),
        }
    }
}

impl<F, T> TryFromSpecImpl<
    ResponseRouterData<F, BamboraPaymentsResponse, T, PaymentsResponseData>,
> for RouterData<F, T, PaymentsResponseData> {
    open spec fn obeys_try_from_spec() -> bool {
        true
    }

    open spec fn try_from_spec(
        item: ResponseRouterData<F, BamboraPaymentsResponse, T, PaymentsResponseData>,
    ) -> Result<Self, ParsingError> {
        match approval_status(item.response.approved@) {
            Some(status) => Ok(
                item.data.answered(
                    status,
                    ResponseSlot::Filled(
                        PaymentsResponseData::TransactionResponse {
                            resource_id: ResponseId::ConnectorTransactionId(item.response.id),
                            redirection_data: None,
                            redirect: false,
                        },
                    ),
                ),
            ),
            None => Err(ParsingError),
        }
    }
}

/// The body of a Bambora refund request.
#[derive(Default, Debug, PartialEq, Eq)]
pub struct BamboraRefundRequest {}

/// The states of a refund at Bambora.
#[derive(Clone, Copy, Debug, Default, PartialEq, Eq, Structural)]
pub enum RefundStatus {
    Succeeded,
    Failed,
    #[default]
    Processing,
}

impl From<RefundStatus> for types::RefundStatus {
    fn from(item: RefundStatus) -> (r: Self) {
        match item {
            RefundStatus::Succeeded => types::RefundStatus::Success,
            RefundStatus::Failed => types::RefundStatus::Failure,
            RefundStatus::Processing => types::RefundStatus::Pending,
        }
    }
}

impl FromSpecImpl<RefundStatus> for types::RefundStatus {
    open spec fn obeys_from_spec() -> bool {
        true
    }

    /// Every refund state of Bambora has its own entry in the unified
    /// refund states.
    open spec fn from_spec(item: RefundStatus) -> Self {
        match item {
            RefundStatus::Succeeded => types::RefundStatus::Success,
            RefundStatus::Failed => types::RefundStatus::Failure,
            RefundStatus::Processing => types::RefundStatus::Pending,
        }
    }
}

/// The body of a Bambora refund response.
#[derive(Default, Debug, PartialEq, Eq)]
pub struct RefundResponse {}

/// The error body of Bambora.
#[derive(Default, Debug, PartialEq, Eq)]
pub struct BamboraErrorResponse {}

impl BamboraCard {
    /// The document of a card.
    pub open spec fn json(self) -> JsonValue {
        JsonValue::Object(
            seq![
                ("name"@, JsonValue::Str(self.name@)),
                ("number"@, JsonValue::Str(self.number@)),
                ("expiry_month"@, JsonValue::Str(self.expiry_month@)),
                ("expiry_year"@, JsonValue::Str(self.expiry_year@)),
                ("cvd"@, JsonValue::Str(self.cvd@)),
            ],
        )
    }

    pub fn to_json(&self) -> (r: Json)
        ensures
            r@ == self.json(),
    {
        let mut members: Vec<(String, Json)> = Vec::new();
        assert(members_view(members@) =~= Seq::empty());
        push_member(&mut members, "name", json_str(self.name.as_str()));
        push_member(&mut members, "number", json_str(self.number.as_str()));
        push_member(&mut members, "expiry_month", json_str(self.expiry_month.as_str()));
        push_member(&mut members, "expiry_year", json_str(self.expiry_year.as_str()));
        push_member(&mut members, "cvd", json_str(self.cvd.as_str()));
        assert(members_view(members@) =~= self.json()->Object_0);
        json_object(members)
    }

    /// The card that a document holds, if it holds one.
    pub open spec fn spec_from_json(doc: Json) -> Option<BamboraCard> {
        match (
            doc.spec_text_at("name"@),
            doc.spec_text_at("number"@),
            doc.spec_text_at("expiry_month"@),
            doc.spec_text_at("expiry_year"@),
            doc.spec_text_at("cvd"@),
        ) {
            (Some(name), Some(number), Some(expiry_month), Some(expiry_year), Some(cvd)) => Some(
                BamboraCard { name, number, expiry_month, expiry_year, cvd },
            ),
            _ => None,
        }
    }

    pub fn from_json(doc: &Json) -> (r: Option<BamboraCard>)
        ensures
            r == Self::spec_from_json(*doc),
    {
        let name = doc.text_at("name");
        let number = doc.text_at("number");
        let expiry_month = doc.text_at("expiry_month");
        let expiry_year = doc.text_at("expiry_year");
        let cvd = doc.text_at("cvd");
        match (name, number, expiry_month, expiry_year, cvd) {
            (Some(name), Some(number), Some(expiry_month), Some(expiry_year), Some(cvd)) => Some(
                BamboraCard { name, number, expiry_month, expiry_year, cvd },
            ),
            _ => None,
        }
    }
}

/// Reading a card back from a document of it gives a card with that very
/// document.
pub proof fn lemma_card_round_trip(card: BamboraCard, doc: Json)
    requires
        doc@ == card.json(),
    ensures
        BamboraCard::spec_from_json(doc) matches Some(back) && back.json() == card.json(),
{
    reveal_strlit("name");
    reveal_strlit("number");
    reveal_strlit("expiry_month");
    reveal_strlit("expiry_year");
    reveal_strlit("cvd");
    assert("name"@.len() == 4);
    assert("number"@.len() == 6);
    assert("expiry_month"@.len() == 12);
    assert("expiry_year"@.len() == 11);
    assert("cvd"@.len() == 3);
    lemma_text_at(doc, "name"@, 0);
    lemma_text_at(doc, "number"@, 1);
    lemma_text_at(doc, "expiry_month"@, 2);
    lemma_text_at(doc, "expiry_year"@, 3);
    lemma_text_at(doc, "cvd"@, 4);
    let back = BamboraCard::spec_from_json(doc)->Some_0;
    assert(back.json()->Object_0 =~= card.json()->Object_0);
}

impl BamboraPaymentsRequest {
    /// The document of a payment request.
    pub open spec fn json(self) -> JsonValue {
        JsonValue::Object(
            seq![
                ("amount"@, JsonValue::Int(self.amount as int)),
                ("payment_method"@, JsonValue::Str(self.payment_method@)),
                ("card"@, self.card.json()),
            ],
        )
    }

    pub fn to_json(&self) -> (r: Json)
        ensures
            r@ == self.json(),
    {
        let mut members: Vec<(String, Json)> = Vec::new();
        assert(members_view(members@) =~= Seq::empty());
        push_member(&mut members, "amount", json_int(self.amount));
        push_member(&mut members, "payment_method", json_str(self.payment_method.as_str()));
        push_member(&mut members, "card", self.card.to_json());
        assert(members_view(members@) =~= self.json()->Object_0);
        json_object(members)
    }

    /// The payment request that a document holds, if it holds one.
    pub open spec fn spec_from_json(doc: Json) -> Option<BamboraPaymentsRequest> {
        match (
            doc.spec_int_at("amount"@),
            doc.spec_text_at("payment_method"@),
            doc.spec_member("card"@),
        ) {
            (Some(amount), Some(payment_method), Some(card_doc)) => match BamboraCard::spec_from_json(
                card_doc,
            ) {
                Some(card) => Some(BamboraPaymentsRequest { amount, payment_method, card }),
                None => None,
            },
            _ => None,
        }
    }

    pub fn from_json(doc: &Json) -> (r: Option<BamboraPaymentsRequest>)
        ensures
            r == Self::spec_from_json(*doc),
    {
        let amount = doc.int_at("amount");
        let payment_method = doc.text_at("payment_method");
        let card_doc = doc.member("card");
        match (amount, payment_method, card_doc) {
            (Some(amount), Some(payment_method), Some(card_doc)) => match BamboraCard::from_json(
                card_doc,
            ) {
                Some(card) => Some(BamboraPaymentsRequest { amount, payment_method, card }),
                None => None,
            },
            _ => None,
        }
    }
}

/// Reading a payment request back from a document of it gives a request
/// with that very document: the body that is built for Bambora holds all of
/// the request, in the shape in which Bambora reads it.
pub proof fn lemma_payments_request_round_trip(request: BamboraPaymentsRequest, doc: Json)
    requires
        doc@ == request.json(),
    ensures
        BamboraPaymentsRequest::spec_from_json(doc) matches Some(back) && back.json()
            == request.json(),
{
    reveal_strlit("amount");
    reveal_strlit("payment_method");
    reveal_strlit("card");
    assert("amount"@.len() == 6);
    assert("payment_method"@.len() == 14);
    assert("card"@.len() == 4);
    lemma_int_at(doc, "amount"@, 0);
    lemma_text_at(doc, "payment_method"@, 1);
    lemma_member_at(doc, "card"@, 2);
    lemma_card_round_trip(request.card, doc.spec_member("card"@)->Some_0);
    let back = BamboraPaymentsRequest::spec_from_json(doc)->Some_0;
    assert(back.json()->Object_0 =~= request.json()->Object_0);
}

} // verus!

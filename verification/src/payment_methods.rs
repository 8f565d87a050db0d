//! Requests to the card vault and what is made of its answers.

use crate::errors::CardVaultError;
use crate::form::{encode_form, form_text};
use crate::json::{text, Json};
use crate::services::{Request, CONTENT_TYPE, X_ROUTER};
use crate::types::{clone_text, Locker, Method, PaymentMethodType};
use vstd::prelude::*;
use vstd::string::StringExecFns;
use vstd::utf8::{encode_utf8, is_char_boundary};

verus! {

/// The card that a customer asks to have stored.
#[derive(Debug, PartialEq, Eq)]
pub struct CardDetail {
    pub card_number: String,
    pub card_exp_month: String,
    pub card_exp_year: String,
    pub card_holder_name: Option<String>,
}

/// The request to store a payment method.
#[derive(Debug, PartialEq, Eq)]
pub struct CreatePaymentMethod {
    pub payment_method: PaymentMethodType,
    pub payment_method_type: Option<String>,
    pub payment_method_issuer: Option<String>,
    pub payment_method_issuer_code: Option<String>,
    pub card: Option<CardDetail>,
    pub metadata: Option<Json>,
    pub customer_id: Option<String>,
}

/// A stored card as it is shown to the merchant.
#[derive(Debug, PartialEq, Eq)]
pub struct CardDetailFromLocker {
    pub scheme: Option<String>,
    pub issuer_country: Option<String>,
    pub last4_digits: Option<String>,
    pub card_number: Option<String>,
    pub expiry_month: Option<String>,
    pub expiry_year: Option<String>,
    pub card_token: Option<String>,
    pub card_fingerprint: Option<String>,
    pub card_holder_name: Option<String>,
}

/// The answer to a request to store a payment method.
#[derive(Debug, PartialEq, Eq)]
pub struct PaymentMethodResponse {
    pub payment_method_id: String,
    pub payment_method: PaymentMethodType,
    pub payment_method_type: Option<String>,
    pub payment_method_issuer: Option<String>,
    pub card: Option<CardDetailFromLocker>,
    pub metadata: Option<Json>,
    /// Seconds since the epoch at which the method was stored.
    pub created: Option<i64>,
    pub payment_method_issuer_code: Option<String>,
    pub recurring_enabled: bool,
    pub installment_payment_enabled: bool,
    pub payment_experience: Option<Vec<String>>,
}

/// What the router keeps of a stored payment method.
#[derive(Debug, PartialEq, Eq)]
pub struct StoredPaymentMethod {
    pub customer_id: String,
    pub merchant_id: String,
    pub payment_method_id: String,
    pub scheme: Option<String>,
    pub issuer_country: Option<String>,
}

/// The form that asks the vault to store a card.
#[derive(Debug, PartialEq, Eq)]
pub struct AddCardRequest<'a> {
    pub card_number: String,
    pub customer_id: &'a str,
    pub card_exp_month: String,
    pub card_exp_year: String,
    pub merchant_id: &'a str,
    pub email_address: Option<String>,
    pub name_on_card: Option<String>,
    pub nickname: Option<String>,
}

/// The form that names one stored card.
#[derive(Debug, PartialEq, Eq)]
pub struct GetCard<'a> {
    pub merchant_id: &'a str,
    pub card_id: &'a str,
}

/// What the vault says of a card it stores.
#[derive(Debug, PartialEq, Eq)]
pub struct AddCardResponse {
    pub card_id: String,
    pub external_id: String,
    pub card_fingerprint: String,
    pub card_global_fingerprint: String,
    pub merchant_id: Option<String>,
    pub card_number: Option<String>,
    pub card_exp_year: Option<String>,
    pub card_exp_month: Option<String>,
    pub name_on_card: Option<String>,
    pub nickname: Option<String>,
    pub customer_id: Option<String>,
    pub duplicate: Option<bool>,
}

/// The vault's answer to a request for one card.
#[derive(Debug, PartialEq, Eq)]
pub struct GetCardResponse {
    pub card: AddCardResponse,
}

/// The vault's answer to a request to delete one card.
#[derive(Debug, PartialEq, Eq)]
pub struct DeleteCardResponse {
    pub card_id: String,
    pub external_id: String,
    pub card_isin: Option<String>,
    pub status: String,
}

pub const FORM_CONTENT_TYPE: &'static str = "application/x-www-form-urlencoded";

/// The merchant id under which the vault files every card.
pub const LOCKER_MERCHANT_ID: &'static str = "m0010";

/// The pair of a form field that may be left out: nothing where it is.
pub open spec fn optional_pair(key: Seq<char>, value: Option<String>) -> Seq<
    (Seq<char>, Seq<char>),
> {
    match value {
        Some(v) => seq![(key, v@)],
        None => Seq::empty(),
    }
}

fn push_optional_pair(pairs: &mut Vec<(String, String)>, key: &str, value: &Option<String>)
    ensures
        final(pairs).deep_view() == old(pairs).deep_view() + optional_pair(key@, *value),
{
    match value {
        Some(v) => {
            pairs.push((text(key), v.clone()));
            assert(pairs.deep_view() =~= old(pairs).deep_view() + optional_pair(key@, *value));
        },
        None => {
            assert(pairs.deep_view() =~= old(pairs).deep_view() + optional_pair(key@, *value));
        },
    }
}

fn push_pair(pairs: &mut Vec<(String, String)>, key: &str, value: &str)
    ensures
        final(pairs).deep_view() == old(pairs).deep_view().push((key@, value@)),
{
    pairs.push((text(key), text(value)));
    assert(pairs.deep_view() =~= old(pairs).deep_view().push((key@, value@)));
}

impl<'a> AddCardRequest<'a> {
    /// The fields of the form in the order in which they are sent.
    pub open spec fn spec_pairs(self) -> Seq<(Seq<char>, Seq<char>)> {
        seq![
            ("cardNumber"@, self.card_number@),
            ("customerId"@, self.customer_id@),
            ("cardExpMonth"@, self.card_exp_month@),
            ("cardExpYear"@, self.card_exp_year@),
            ("merchantId"@, self.merchant_id@),
        ] + optional_pair("emailAddress"@, self.email_address) + optional_pair(
            "nameOnCard"@,
            self.name_on_card,
        ) + optional_pair("nickname"@, self.nickname)
    }

    pub fn pairs(&self) -> (r: Vec<(String, String)>)
        ensures
            r.deep_view() == self.spec_pairs(),
    {
        let mut pairs: Vec<(String, String)> = Vec::new();
        assert(pairs.deep_view() =~= Seq::empty());
        push_pair(&mut pairs, "cardNumber", self.card_number.as_str());
        push_pair(&mut pairs, "customerId", self.customer_id);
        push_pair(&mut pairs, "cardExpMonth", self.card_exp_month.as_str());
        push_pair(&mut pairs, "cardExpYear", self.card_exp_year.as_str());
        push_pair(&mut pairs, "merchantId", self.merchant_id);
        assert(pairs.deep_view() =~= seq![
            ("cardNumber"@, self.card_number@),
            ("customerId"@, self.customer_id@),
            ("cardExpMonth"@, self.card_exp_month@),
            ("cardExpYear"@, self.card_exp_year@),
            ("merchantId"@, self.merchant_id@),
        ]);
        push_optional_pair(&mut pairs, "emailAddress", &self.email_address);
        push_optional_pair(&mut pairs, "nameOnCard", &self.name_on_card);
        push_optional_pair(&mut pairs, "nickname", &self.nickname);
        pairs
    }
}

impl<'a> GetCard<'a> {
    /// The fields of the form in the order in which they are sent.
    pub open spec fn spec_pairs(self) -> Seq<(Seq<char>, Seq<char>)> {
        seq![("merchantId"@, self.merchant_id@), ("cardId"@, self.card_id@)]
    }

    pub fn pairs(&self) -> (r: Vec<(String, String)>)
        ensures
            r.deep_view() == self.spec_pairs(),
    {
        let mut pairs: Vec<(String, String)> = Vec::new();
        assert(pairs.deep_view() =~= Seq::empty());
        push_pair(&mut pairs, "merchantId", self.merchant_id);
        push_pair(&mut pairs, "cardId", self.card_id);
        assert(pairs.deep_view() =~= self.spec_pairs());
        pairs
    }
}

/// The fields with which the vault is asked to store `card` for a customer.
pub open spec fn add_card_pairs(card: CardDetail, customer_id: Seq<char>) -> Seq<
    (Seq<char>, Seq<char>),
> {
    seq![
        ("cardNumber"@, card.card_number@),
        ("customerId"@, customer_id),
        ("cardExpMonth"@, card.card_exp_month@),
        ("cardExpYear"@, card.card_exp_year@),
        ("merchantId"@, LOCKER_MERCHANT_ID@),
        ("emailAddress"@, "dummy@gmail.com"@),
        ("nameOnCard"@, "juspay"@),
        ("nickname"@, "orca"@),
    ]
}

/// Whether `request` is the form post to `path` below the vault's host,
/// with the given extra headers before the content type, and `body`.
pub open spec fn is_vault_post(
    request: Request,
    locker: Locker,
    path: Seq<char>,
    leading_headers: Seq<(Seq<char>, Seq<char>)>,
    body: Seq<char>,
) -> bool {
    &&& request.method == Method::Post
    &&& request.url@ == locker.host@ + path
    &&& request.headers.deep_view() == leading_headers.push((CONTENT_TYPE@, FORM_CONTENT_TYPE@))
    &&& request.body matches Some(sent) && sent@ == body
}

/// The request that asks the vault to store `card` for `customer_id`.
pub fn mk_add_card_request(
    locker: &Locker,
    card: &CardDetail,
    customer_id: &str,
    _req: &CreatePaymentMethod,
) -> (r: Result<Request, CardVaultError>)
    ensures
        match form_text(add_card_pairs(*card, customer_id@)) {
            Some(body) => r matches Ok(request) && is_vault_post(
                request,
                *locker,
                "/card/addCard"@,
                Seq::empty(),
                body,
            ),
            None => r == Err::<Request, CardVaultError>(CardVaultError::RequestEncodingFailed),
        },
{
    let add_card_req = AddCardRequest {
        card_number: card.card_number.clone(),
        customer_id,
        card_exp_month: card.card_exp_month.clone(),
        card_exp_year: card.card_exp_year.clone(),
        merchant_id: LOCKER_MERCHANT_ID,
        email_address: Some(text("dummy@gmail.com")),
        name_on_card: Some(text("juspay")),
        nickname: Some(text("orca")),
    };
    let pairs = add_card_req.pairs();
    assert(pairs.deep_view() =~= add_card_pairs(*card, customer_id@));
    let body = match encode_form(&pairs) {
        Some(body) => body,
        None => { return Err(CardVaultError::RequestEncodingFailed); },
    };
    let url = locker.host.clone().concat("/card/addCard");
    let mut request = Request::new(Method::Post, url.as_str());
    assert(request.headers.deep_view() =~= Seq::empty());
    request.add_header(CONTENT_TYPE, FORM_CONTENT_TYPE);
    assert(request.headers.deep_view() =~= Seq::empty().push((CONTENT_TYPE@, FORM_CONTENT_TYPE@)));
    request.set_body(body);
    Ok(request)
}

/// The request that asks the vault for the card `card_id`.
pub fn mk_get_card_request<'a>(locker: &Locker, _mid: &'a str, card_id: &'a str) -> (r: Result<
    Request,
    CardVaultError,
>)
    ensures
        match form_text((GetCard { merchant_id: LOCKER_MERCHANT_ID, card_id }).spec_pairs()) {
            Some(body) => r matches Ok(request) && is_vault_post(
                request,
                *locker,
                "/card/getCard"@,
                Seq::empty(),
                body,
            ),
            None => r == Err::<Request, CardVaultError>(CardVaultError::RequestEncodingFailed),
        },
{
    let get_card_req = GetCard { merchant_id: LOCKER_MERCHANT_ID, card_id };
    let pairs = get_card_req.pairs();
    let body = match encode_form(&pairs) {
        Some(body) => body,
        None => { return Err(CardVaultError::RequestEncodingFailed); },
    };
    let url = locker.host.clone().concat("/card/getCard");
    let mut request = Request::new(Method::Post, url.as_str());
    assert(request.headers.deep_view() =~= Seq::empty());
    request.add_header(CONTENT_TYPE, FORM_CONTENT_TYPE);
    assert(request.headers.deep_view() =~= Seq::empty().push((CONTENT_TYPE@, FORM_CONTENT_TYPE@)));
    request.set_body(body);
    Ok(request)
}

/// The request that asks the vault to delete the card `card_id` of
/// `merchant_id`.
pub fn mk_delete_card_request<'a>(locker: &Locker, merchant_id: &'a str, card_id: &'a str) -> (r:
    Result<Request, CardVaultError>)
    ensures
        match form_text((GetCard { merchant_id, card_id }).spec_pairs()) {
            Some(body) => r matches Ok(request) && is_vault_post(
                request,
                *locker,
                "/card/deleteCard"@,
                seq![(X_ROUTER@, "test"@)],
                body,
            ),
            None => r == Err::<Request, CardVaultError>(CardVaultError::RequestEncodingFailed),
        },
{
    let delete_card_req = GetCard { merchant_id, card_id };
    let pairs = delete_card_req.pairs();
    let body = match encode_form(&pairs) {
        Some(body) => body,
        None => { return Err(CardVaultError::RequestEncodingFailed); },
    };
    let url = locker.host.clone().concat("/card/deleteCard");
    let mut request = Request::new(Method::Post, url.as_str());
    assert(request.headers.deep_view() =~= Seq::empty());
    request.add_header(X_ROUTER, "test");
    assert(request.headers.deep_view() =~= seq![(X_ROUTER@, "test"@)]);
    request.add_header(CONTENT_TYPE, FORM_CONTENT_TYPE);
    assert(request.headers.deep_view() =~= seq![(X_ROUTER@, "test"@)].push(
        (CONTENT_TYPE@, FORM_CONTENT_TYPE@),
    ));
    request.set_body(body);
    Ok(request)
}

/// The number of bytes of a card number that come before its last digits.
pub const CARD_NUMBER_PREFIX: usize = 12;

/// What the merchant is told of a card that the vault has just stored. The
/// last digits are what follows the first twelve bytes of the card number.
pub fn mk_add_card_response(
    card: CardDetail,
    response: AddCardResponse,
    req: CreatePaymentMethod,
    created: i64,
) -> (r: PaymentMethodResponse)
    requires
        is_char_boundary(encode_utf8(card.card_number@), CARD_NUMBER_PREFIX as int),
    ensures
        r.payment_method_id == response.card_id,
        r.payment_method == req.payment_method,
        r.payment_method_type == req.payment_method_type,
        r.payment_method_issuer == req.payment_method_issuer,
        r.metadata == req.metadata,
        r.created == Some(created),
        r.payment_method_issuer_code == req.payment_method_issuer_code,
        !r.recurring_enabled,
        !r.installment_payment_enabled,
        r.payment_experience matches Some(ways) && ways@.len() == 1 && ways@[0]@
            == "redirect_to_url"@,
        r.card matches Some(shown) && {
            &&& shown.scheme is None
            &&& shown.issuer_country is None
            &&& shown.card_number is None
            &&& shown.card_holder_name is None
            &&& shown.expiry_month == Some(card.card_exp_month)
            &&& shown.expiry_year == Some(card.card_exp_year)
            &&& shown.card_token == Some(response.external_id)
            &&& shown.card_fingerprint == Some(response.card_fingerprint)
            &&& shown.last4_digits matches Some(digits) && encode_utf8(digits@) == encode_utf8(
                card.card_number@,
            ).skip(CARD_NUMBER_PREFIX as int)
        },
{
    let parts = card.card_number.as_str().split_at(CARD_NUMBER_PREFIX);
    let last4_digits = parts.1.to_owned();
    let ghost number = encode_utf8(card.card_number@);
    assert(number.subrange(CARD_NUMBER_PREFIX as int, number.len() as int) =~= number.skip(
        CARD_NUMBER_PREFIX as int,
    ));
    let shown = CardDetailFromLocker {
        scheme: None,
        last4_digits: Some(last4_digits),
        issuer_country: None,
        card_number: None,
        expiry_month: Some(card.card_exp_month),
        expiry_year: Some(card.card_exp_year),
        card_token: Some(response.external_id),
        card_fingerprint: Some(response.card_fingerprint),
        card_holder_name: None,
    };
    let mut ways: Vec<String> = Vec::new();
    ways.push(text("redirect_to_url"));
    PaymentMethodResponse {
        payment_method_id: response.card_id,
        payment_method: req.payment_method,
        payment_method_type: req.payment_method_type,
        payment_method_issuer: req.payment_method_issuer,
        card: Some(shown),
        metadata: req.metadata,
        created: Some(created),
        payment_method_issuer_code: req.payment_method_issuer_code,
        recurring_enabled: false,
        installment_payment_enabled: false,
        payment_experience: Some(ways),
    }
}

/// Whether the first twelve bytes of a card number can be cut off, so that
/// `mk_add_card_response` can show what follows them.
pub fn has_last_digits(card_number: &str) -> (r: bool)
    ensures
        r == is_char_boundary(encode_utf8(card_number@), CARD_NUMBER_PREFIX as int),
{
    card_number.is_char_boundary(CARD_NUMBER_PREFIX)
}

/// The card as the vault holds it, shown with what the router knows of the
/// stored payment method. The vault must have sent the card number.
pub fn get_card_detail(pm: &StoredPaymentMethod, response: AddCardResponse) -> (r: Result<
    CardDetailFromLocker,
    CardVaultError,
>)
    ensures
        match response.card_number {
            Some(number) => r == Ok::<CardDetailFromLocker, CardVaultError>(
                CardDetailFromLocker {
                    scheme: pm.scheme,
                    issuer_country: pm.issuer_country,
                    last4_digits: None,
                    card_number: Some(number),
                    expiry_month: response.card_exp_month,
                    expiry_year: response.card_exp_year,
                    card_token: Some(response.external_id),
                    card_fingerprint: Some(response.card_fingerprint),
                    card_holder_name: None,
                },
            ),
            None => r == Err::<CardDetailFromLocker, CardVaultError>(
                CardVaultError::FetchCardFailed,
            ),
        },
{
    let card_number = match response.card_number {
        Some(number) => number,
        None => { return Err(CardVaultError::FetchCardFailed); },
    };
    Ok(
        CardDetailFromLocker {
            scheme: clone_text(&pm.scheme),
            issuer_country: clone_text(&pm.issuer_country),
            last4_digits: None,
            card_number: Some(card_number),
            expiry_month: response.card_exp_month,
            expiry_year: response.card_exp_year,
            card_token: Some(response.external_id),
            card_fingerprint: Some(response.card_fingerprint),
            card_holder_name: None,
        },
    )
}

} // verus!

use std::marker::PhantomData;

use bluesnap::enums::{AttemptStatus, Currency};
use bluesnap::errors::ConnectorError;
use bluesnap::transformers::{
    owned_or_empty, BluesnapPaymentsRequest, CardHolderInfo, CreditCard, CARD_TRANSACTION_TYPE,
};
use bluesnap::types::{
    Address, AddressDetails, Card, ConnectorAuthType, ErrorResponse, PaymentAddress, PaymentMethod,
    PaymentsAuthorizeData, PaymentsAuthorizeRouterData, RouterData,
};

fn card() -> Card {
    Card {
        card_number: "4111111111111111".to_string(),
        card_exp_month: "09".to_string(),
        card_exp_year: "2031".to_string(),
        card_holder_name: "Ada Lovelace".to_string(),
        card_cvc: "737".to_string(),
    }
}

fn details(first: Option<&str>, last: Option<&str>, zip: Option<&str>) -> AddressDetails {
    AddressDetails {
        first_name: first.map(|t| t.to_string()),
        last_name: last.map(|t| t.to_string()),
        zip: zip.map(|t| t.to_string()),
    }
}

fn billed(inner: Option<AddressDetails>) -> PaymentAddress {
    PaymentAddress { shipping: None, billing: Some(Address { address: inner }) }
}

fn unbilled() -> PaymentAddress {
    PaymentAddress { shipping: None, billing: None }
}

fn authorization(
    method: PaymentMethod,
    address: PaymentAddress,
    description: Option<&str>,
) -> PaymentsAuthorizeRouterData {
    RouterData {
        flow: PhantomData,
        merchant_id: "merchant_1".to_string(),
        connector: "bluesnap".to_string(),
        payment_id: "pay_1".to_string(),
        status: AttemptStatus::Started,
        connector_auth_type: ConnectorAuthType::BodyKey { api_key: "abc".to_string(), key1: "def".to_string() },
        description: description.map(|t| t.to_string()),
        return_url: None,
        address,
        amount_captured: None,
        request: PaymentsAuthorizeData { payment_method_data: method, amount: 6540, currency: Currency::USD },
        response: Err(ErrorResponse { code: "".to_string(), message: "".to_string(), reason: None }),
        payment_method_id: None,
    }
}

#[test]
fn card_payment_builds_the_whole_request() {
    let item = authorization(
        PaymentMethod::Card(card()),
        billed(Some(details(Some("Ada"), Some("Lovelace"), Some("94107")))),
        Some("Two books"),
    );
    let request = BluesnapPaymentsRequest::try_from(&item).unwrap();
    assert_eq!(
        request,
        BluesnapPaymentsRequest {
            soft_descriptor: "Two books".to_string(),
            amount: 6540,
            currency: "USD".to_string(),
            card_holder_info: CardHolderInfo {
                first_name: "Ada".to_string(),
                last_name: "Lovelace".to_string(),
                zip: "94107".to_string(),
            },
            credit_card: CreditCard {
                expiration_year: "2031".to_string(),
                security_code: "737".to_string(),
                expiration_month: "09".to_string(),
                card_number: "4111111111111111".to_string(),
            },
            card_transaction_type: "AUTH_CAPTURE".to_string(),
        }
    );
}

#[test]
fn transaction_type_is_always_auth_capture() {
    assert_eq!(CARD_TRANSACTION_TYPE, "AUTH_CAPTURE");
    let item = authorization(PaymentMethod::Card(card()), unbilled(), None);
    let request = BluesnapPaymentsRequest::try_from(&item).unwrap();
    assert_eq!(request.card_transaction_type, "AUTH_CAPTURE");
}

#[test]
fn missing_description_gives_empty_soft_descriptor() {
    let item = authorization(PaymentMethod::Card(card()), unbilled(), None);
    let request = BluesnapPaymentsRequest::try_from(&item).unwrap();
    assert_eq!(request.soft_descriptor, "");
}

#[test]
fn amount_and_currency_pass_through() {
    let mut item = authorization(PaymentMethod::Card(card()), unbilled(), None);
    item.request.amount = -25;
    item.request.currency = Currency::JPY;
    let request = BluesnapPaymentsRequest::try_from(&item).unwrap();
    assert_eq!(request.amount, -25);
    assert_eq!(request.currency, "JPY");
    item.request.amount = i64::MAX;
    item.request.currency = Currency::EUR;
    let request = BluesnapPaymentsRequest::try_from(&item).unwrap();
    assert_eq!(request.amount, i64::MAX);
    assert_eq!(request.currency, "EUR");
}

#[test]
fn card_fields_do_not_depend_on_the_address() {
    let expected = CreditCard {
        expiration_year: "2031".to_string(),
        security_code: "737".to_string(),
        expiration_month: "09".to_string(),
        card_number: "4111111111111111".to_string(),
    };
    let addresses = vec![
        unbilled(),
        billed(None),
        billed(Some(details(None, None, None))),
        billed(Some(details(Some("Ada"), Some("Lovelace"), Some("94107")))),
    ];
    for address in addresses {
        let item = authorization(PaymentMethod::Card(card()), address, None);
        let request = BluesnapPaymentsRequest::try_from(&item).unwrap();
        assert_eq!(request.credit_card, expected);
    }
}

#[test]
fn card_holder_without_billing_address_is_empty() {
    let info = CardHolderInfo::from_address(&unbilled());
    assert_eq!(
        info,
        CardHolderInfo { first_name: "".to_string(), last_name: "".to_string(), zip: "".to_string() }
    );
}

#[test]
fn card_holder_without_address_details_is_empty() {
    let info = CardHolderInfo::from_address(&billed(None));
    assert_eq!(
        info,
        CardHolderInfo { first_name: "".to_string(), last_name: "".to_string(), zip: "".to_string() }
    );
}

#[test]
fn card_holder_ignores_the_shipping_address() {
    let address = PaymentAddress {
        shipping: Some(Address { address: Some(details(Some("Grace"), Some("Hopper"), Some("10001"))) }),
        billing: None,
    };
    let info = CardHolderInfo::from_address(&address);
    assert_eq!(
        info,
        CardHolderInfo { first_name: "".to_string(), last_name: "".to_string(), zip: "".to_string() }
    );
}

#[test]
fn card_holder_fields_default_independently() {
    let info = CardHolderInfo::from_address(&billed(Some(details(Some("Ada"), None, None))));
    assert_eq!(
        info,
        CardHolderInfo { first_name: "Ada".to_string(), last_name: "".to_string(), zip: "".to_string() }
    );
    let info = CardHolderInfo::from_address(&billed(Some(details(None, Some("Lovelace"), None))));
    assert_eq!(
        info,
        CardHolderInfo { first_name: "".to_string(), last_name: "Lovelace".to_string(), zip: "".to_string() }
    );
    let info = CardHolderInfo::from_address(&billed(Some(details(None, None, Some("94107")))));
    assert_eq!(
        info,
        CardHolderInfo { first_name: "".to_string(), last_name: "".to_string(), zip: "94107".to_string() }
    );
    let info = CardHolderInfo::from_address(&billed(Some(details(Some("Ada"), None, Some("94107")))));
    assert_eq!(
        info,
        CardHolderInfo { first_name: "Ada".to_string(), last_name: "".to_string(), zip: "94107".to_string() }
    );
}

#[test]
fn all_four_address_shapes_build_a_request() {
    let shapes = vec![
        (unbilled(), ""),
        (billed(None), ""),
        (billed(Some(details(None, None, None))), ""),
        (billed(Some(details(Some("Ada"), None, None))), "Ada"),
    ];
    for (address, first_name) in shapes {
        let item = authorization(PaymentMethod::Card(card()), address, None);
        let outcome = BluesnapPaymentsRequest::try_from(&item);
        assert!(outcome.is_ok());
        assert_eq!(outcome.unwrap().card_holder_info.first_name, first_name);
    }
}

#[test]
fn other_payment_methods_are_rejected() {
    let cases = vec![
        (PaymentMethod::BankTransfer, "Current Payment Method - BankTransfer"),
        (PaymentMethod::Wallet, "Current Payment Method - Wallet"),
        (PaymentMethod::PayLater, "Current Payment Method - PayLater"),
        (PaymentMethod::Paypal, "Current Payment Method - Paypal"),
    ];
    for (method, message) in cases {
        let item = authorization(
            method,
            billed(Some(details(Some("Ada"), Some("Lovelace"), Some("94107")))),
            Some("Two books"),
        );
        let outcome = BluesnapPaymentsRequest::try_from(&item);
        assert_eq!(outcome, Err(ConnectorError::UnsupportedPaymentMethod(message.to_string())));
    }
}

#[test]
fn credit_card_is_taken_from_the_card_only() {
    let outcome = CreditCard::from_payment_method(&PaymentMethod::Card(card()));
    assert_eq!(
        outcome,
        Ok(CreditCard {
            expiration_year: "2031".to_string(),
            security_code: "737".to_string(),
            expiration_month: "09".to_string(),
            card_number: "4111111111111111".to_string(),
        })
    );
    let outcome = CreditCard::from_payment_method(&PaymentMethod::Wallet);
    assert_eq!(
        outcome,
        Err(ConnectorError::UnsupportedPaymentMethod("Current Payment Method - Wallet".to_string()))
    );
}

#[test]
fn payment_method_describes_itself_by_name() {
    assert_eq!(PaymentMethod::Card(card()).describe(), "Card");
    assert_eq!(PaymentMethod::BankTransfer.describe(), "BankTransfer");
    assert_eq!(PaymentMethod::Wallet.describe(), "Wallet");
    assert_eq!(PaymentMethod::PayLater.describe(), "PayLater");
    assert_eq!(PaymentMethod::Paypal.describe(), "Paypal");
}

#[test]
fn optional_text_is_copied_or_empty() {
    assert_eq!(owned_or_empty(&Some("snow".to_string())), "snow");
    assert_eq!(owned_or_empty(&Some("".to_string())), "");
    assert_eq!(owned_or_empty(&None), "");
}

#[test]
fn building_twice_gives_the_same_request() {
    let item = authorization(
        PaymentMethod::Card(card()),
        billed(Some(details(Some("Ada"), None, Some("94107")))),
        Some("Two books"),
    );
    let first = BluesnapPaymentsRequest::try_from(&item);
    let second = BluesnapPaymentsRequest::try_from(&item);
    assert_eq!(first, second);
    let rejected = authorization(PaymentMethod::Paypal, unbilled(), None);
    assert_eq!(BluesnapPaymentsRequest::try_from(&rejected), BluesnapPaymentsRequest::try_from(&rejected));
}

#[test]
fn building_leaves_the_authorization_untouched() {
    let item = authorization(PaymentMethod::Card(card()), unbilled(), Some("Two books"));
    let copy = authorization(PaymentMethod::Card(card()), unbilled(), Some("Two books"));
    let _ = BluesnapPaymentsRequest::try_from(&item);
    assert_eq!(item, copy);
}

#[test]
fn non_ascii_texts_pass_through_unchanged() {
    let mut customer = card();
    customer.card_number = "４１１１".to_string();
    let item = authorization(
        PaymentMethod::Card(customer),
        billed(Some(details(Some("Zoë"), Some("Müller"), Some("〒100")))),
        Some("кофе"),
    );
    let request = BluesnapPaymentsRequest::try_from(&item).unwrap();
    assert_eq!(request.credit_card.card_number, "４１１１");
    assert_eq!(request.card_holder_info.first_name, "Zoë");
    assert_eq!(request.card_holder_info.last_name, "Müller");
    assert_eq!(request.card_holder_info.zip, "〒100");
    assert_eq!(request.soft_descriptor, "кофе");
}

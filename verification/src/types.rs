//! The router's own model of a payment: what it hands to a connector and
//! what it expects back. Connectors read these values and never keep them.

use std::marker::PhantomData;
use vstd::prelude::*;

use crate::enums::{AttemptStatus, Currency, RefundStatus};

verus! {

/// Marks an envelope that authorizes a payment.
#[derive(Debug, Clone, Copy, PartialEq, Eq)]
pub struct Authorize;

/// Marks an envelope that executes a refund.
#[derive(Debug, Clone, Copy, PartialEq, Eq)]
pub struct Execute;

/// Marks an envelope that asks for the state of a refund.
#[derive(Debug, Clone, Copy, PartialEq, Eq)]
pub struct RSync;

/// The card a customer pays with.
#[derive(Debug, Clone, PartialEq, Eq)]
pub struct Card {
    pub card_number: String,
    pub card_exp_month: String,
    pub card_exp_year: String,
    pub card_holder_name: String,
    pub card_cvc: String,
}

/// The means of payment a customer chose.
#[derive(Debug, Clone, PartialEq, Eq)]
pub enum PaymentMethod {
    Card(Card),
    BankTransfer,
    Wallet,
    PayLater,
    Paypal,
}

impl PaymentMethod {
    /// The name of the chosen means of payment, as diagnostics show it.
    pub open spec fn description(self) -> Seq<char> {
        match self {
            PaymentMethod::Card(_) => "Card"@,
            PaymentMethod::BankTransfer => "BankTransfer"@,
            PaymentMethod::Wallet => "Wallet"@,
            PaymentMethod::PayLater => "PayLater"@,
            PaymentMethod::Paypal => "Paypal"@,
        }
    }

    /// Names the chosen means of payment without disclosing what it holds.
    pub fn describe(&self) -> (text: &'static str)
        ensures
            text@ == self.description(),
    {
        match self {
            PaymentMethod::Card(_) => "Card",
            PaymentMethod::BankTransfer => "BankTransfer",
            PaymentMethod::Wallet => "Wallet",
            PaymentMethod::PayLater => "PayLater",
            PaymentMethod::Paypal => "Paypal",
        }
    }
}

/// The named parts of an address that a connector may ask for.
#[derive(Debug, Clone, PartialEq, Eq)]
pub struct AddressDetails {
    pub first_name: Option<String>,
    pub last_name: Option<String>,
    pub zip: Option<String>,
}

/// An address, whose details may be missing.
#[derive(Debug, Clone, PartialEq, Eq)]
pub struct Address {
    pub address: Option<AddressDetails>,
}

/// The addresses that come with a payment.
#[derive(Debug, Clone, PartialEq, Eq)]
pub struct PaymentAddress {
    pub shipping: Option<Address>,
    pub billing: Option<Address>,
}

/// The credentials a merchant configured for a connector.
#[derive(Debug, Clone, PartialEq, Eq)]
pub enum ConnectorAuthType {
    HeaderKey { api_key: String },
    BodyKey { api_key: String, key1: String },
    SignatureKey { api_key: String, key1: String, api_secret: String },
    NoKey,
}

/// What the router asks for when it authorizes a payment.
#[derive(Debug, Clone, PartialEq, Eq)]
pub struct PaymentsAuthorizeData {
    pub payment_method_data: PaymentMethod,
    /// The amount in minor units of the currency.
    pub amount: i64,
    pub currency: Currency,
}

/// How a connector names the transaction it created.
#[derive(Debug, Clone, PartialEq, Eq)]
pub enum ResponseId {
    ConnectorTransactionId(String),
    EncodedData(String),
    NoResponseId,
}

/// Where the customer has to be sent to complete a payment.
#[derive(Debug, Clone, PartialEq, Eq)]
pub struct RedirectForm {
    pub url: String,
    pub method: String,
}

/// What a connector answered to a payment request.
#[derive(Debug, Clone, PartialEq, Eq)]
pub enum PaymentsResponseData {
    TransactionResponse {
        resource_id: ResponseId,
        redirection_data: Option<RedirectForm>,
        redirect: bool,
        mandate_reference: Option<String>,
        connector_metadata: Option<String>,
    },
    SessionResponse { session_token: String },
}

/// A failure that the provider itself reported.
#[derive(Debug, Clone, PartialEq, Eq)]
pub struct ErrorResponse {
    pub code: String,
    pub message: String,
    pub reason: Option<String>,
}

/// What the router asks for when it refunds a payment.
#[derive(Debug, Clone, PartialEq, Eq)]
pub struct RefundsData {
    pub refund_id: String,
    pub connector_transaction_id: String,
    /// The amount to give back, in minor units of the currency.
    pub refund_amount: i64,
    pub currency: Currency,
}

/// What a connector answered to a refund request.
#[derive(Debug, Clone, PartialEq, Eq)]
pub struct RefundsResponseData {
    pub connector_refund_id: String,
    pub refund_status: RefundStatus,
}

/// The envelope in which the router carries one request through a
/// connector and its answer back.
#[derive(Debug, PartialEq, Eq)]
pub struct RouterData<Flow, Request, Response> {
    pub flow: PhantomData<Flow>,
    pub merchant_id: String,
    pub connector: String,
    pub payment_id: String,
    pub status: AttemptStatus,
    pub connector_auth_type: ConnectorAuthType,
    pub description: Option<String>,
    pub return_url: Option<String>,
    pub address: PaymentAddress,
    pub amount_captured: Option<i64>,
    pub request: Request,
    pub response: Result<Response, ErrorResponse>,
    pub payment_method_id: Option<String>,
}

/// A provider's answer together with the envelope it answers.
#[derive(Debug, PartialEq, Eq)]
pub struct ResponseRouterData<Flow, R, Request, Response> {
    pub response: R,
    pub data: RouterData<Flow, Request, Response>,
    pub http_code: u16,
}

pub type PaymentsAuthorizeRouterData = RouterData<Authorize, PaymentsAuthorizeData, PaymentsResponseData>;

pub type RefundsRouterData<F> = RouterData<F, RefundsData, RefundsResponseData>;

pub type RefundsResponseRouterData<F, R> = ResponseRouterData<F, R, RefundsData, RefundsResponseData>;

} // verus!

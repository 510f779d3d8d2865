//! Translation between the router's payment model and the requests and
//! responses that Bluesnap exchanges.

use vstd::prelude::*;
use vstd::std_specs::convert::{FromSpecImpl, TryFromSpecImpl};

use crate::enums;
use crate::enums::AttemptStatus;
use crate::errors::{ConnectorError, ConnectorErrorView};
use crate::types::{
    AddressDetails, ConnectorAuthType, Execute, PaymentAddress, PaymentMethod, PaymentsAuthorizeRouterData,
    PaymentsResponseData, RSync, RefundsResponseRouterData, RefundsRouterData, ResponseId, ResponseRouterData,
    RouterData,
};
use crate::wire::{eq_ignoring_ascii_case, same_ignoring_ascii_case};

verus! {

/// The only way Bluesnap is asked to process a card: authorize and capture
/// in one step.
pub const CARD_TRANSACTION_TYPE: &'static str = "AUTH_CAPTURE";

/// How the description of a rejected means of payment begins.
pub const REJECTED_METHOD_PREFIX: &'static str = "Current Payment Method - ";

/// What an optional text says: its characters, or nothing where it is
/// missing.
pub open spec fn text_or_empty(field: Option<String>) -> Seq<char> {
    match field {
        Some(text) => text@,
        None => Seq::empty(),
    }
}

/// The details of the billing address, present only where the billing
/// address and its details both are.
pub open spec fn billing_details(address: PaymentAddress) -> Option<AddressDetails> {
    match address.billing {
        Some(billing) => billing.address,
        None => None,
    }
}

/// The outcome of a conversion with both of its sides taken by their view.
pub open spec fn outcome_view<T: View, E: View>(outcome: Result<T, E>) -> Result<T::V, E::V> {
    match outcome {
        Ok(value) => Ok(value@),
        Err(error) => Err(error@),
    }
}

/// Who holds the card, as Bluesnap wants to be told.
#[derive(Debug, Clone, PartialEq, Eq)]
pub struct CardHolderInfo {
    pub first_name: String,
    pub last_name: String,
    pub zip: String,
}

/// A [`CardHolderInfo`] with its texts as sequences of characters.
pub struct CardHolderInfoView {
    pub first_name: Seq<char>,
    pub last_name: Seq<char>,
    pub zip: Seq<char>,
}

impl View for CardHolderInfo {
    type V = CardHolderInfoView;

    open spec fn view(&self) -> CardHolderInfoView {
        CardHolderInfoView { first_name: self.first_name@, last_name: self.last_name@, zip: self.zip@ }
    }
}

impl CardHolderInfo {
    /// The card holder that a payment's addresses name. Each of the three
    /// texts is looked up on its own along the chain from the billing
    /// address to the field, and is empty as soon as one link is missing.
    pub open spec fn of_address(address: PaymentAddress) -> CardHolderInfoView {
        CardHolderInfoView {
            first_name: match billing_details(address) {
                Some(details) => text_or_empty(details.first_name),
                None => Seq::empty(),
            },
            last_name: match billing_details(address) {
                Some(details) => text_or_empty(details.last_name),
                None => Seq::empty(),
            },
            zip: match billing_details(address) {
                Some(details) => text_or_empty(details.zip),
                None => Seq::empty(),
            },
        }
    }

    /// Names the card holder from a payment's addresses. Never fails: what
    /// the addresses do not say is left empty.
    pub fn from_address(address: &PaymentAddress) -> (info: Self)
        ensures
            info@ == Self::of_address(*address),
    {
        match &address.billing {
            Some(billing) => match &billing.address {
                Some(details) => CardHolderInfo {
                    first_name: owned_or_empty(&details.first_name),
                    last_name: owned_or_empty(&details.last_name),
                    zip: owned_or_empty(&details.zip),
                },
                None => CardHolderInfo { first_name: String::new(), last_name: String::new(), zip: String::new() },
            },
            None => CardHolderInfo { first_name: String::new(), last_name: String::new(), zip: String::new() },
        }
    }
}

/// Copies an optional text, giving the empty text where it is missing.
pub fn owned_or_empty(field: &Option<String>) -> (text: String)
    ensures
        text@ == text_or_empty(*field),
{
    match field {
        Some(present) => present.clone(),
        None => String::new(),
    }
}

/// The card to charge, as Bluesnap wants to be told.
#[derive(Debug, Clone, PartialEq, Eq)]
pub struct CreditCard {
    pub expiration_year: String,
    pub security_code: String,
    pub expiration_month: String,
    pub card_number: String,
}

/// A [`CreditCard`] with its texts as sequences of characters.
pub struct CreditCardView {
    pub expiration_year: Seq<char>,
    pub security_code: Seq<char>,
    pub expiration_month: Seq<char>,
    pub card_number: Seq<char>,
}

impl View for CreditCard {
    type V = CreditCardView;

    open spec fn view(&self) -> CreditCardView {
        CreditCardView {
            expiration_year: self.expiration_year@,
            security_code: self.security_code@,
            expiration_month: self.expiration_month@,
            card_number: self.card_number@,
        }
    }
}

impl CreditCard {
    /// The card that a means of payment holds: the customer's card, text for
    /// text, where the means is a card, and a rejection that names the means
    /// where it is anything else.
    pub open spec fn of_payment_method(method: PaymentMethod) -> Result<CreditCardView, ConnectorErrorView> {
        match method {
            PaymentMethod::Card(card) => Ok(
                CreditCardView {
                    expiration_year: card.card_exp_year@,
                    security_code: card.card_cvc@,
                    expiration_month: card.card_exp_month@,
                    card_number: card.card_number@,
                },
            ),
            _ => Err(ConnectorErrorView::UnsupportedPaymentMethod(REJECTED_METHOD_PREFIX@ + method.description())),
        }
    }

    /// Takes the card out of a means of payment, or rejects the means.
    pub fn from_payment_method(method: &PaymentMethod) -> (outcome: Result<Self, ConnectorError>)
        ensures
            outcome_view(outcome) == Self::of_payment_method(*method),
    {
        match method {
            PaymentMethod::Card(card) => Ok(
                CreditCard {
                    expiration_year: card.card_exp_year.clone(),
                    security_code: card.card_cvc.clone(),
                    expiration_month: card.card_exp_month.clone(),
                    card_number: card.card_number.clone(),
                },
            ),
            _ => {
                let text = String::from_str(REJECTED_METHOD_PREFIX).concat(method.describe());
                Err(ConnectorError::UnsupportedPaymentMethod(text))
            },
        }
    }
}

/// The request that asks Bluesnap to authorize and capture a card payment.
#[derive(Debug, Clone, PartialEq, Eq)]
pub struct BluesnapPaymentsRequest {
    pub soft_descriptor: String,
    pub amount: i64,
    pub currency: String,
    pub card_holder_info: CardHolderInfo,
    pub credit_card: CreditCard,
    pub card_transaction_type: String,
}

/// A [`BluesnapPaymentsRequest`] with its texts as sequences of characters.
pub struct BluesnapPaymentsRequestView {
    pub soft_descriptor: Seq<char>,
    pub amount: i64,
    pub currency: Seq<char>,
    pub card_holder_info: CardHolderInfoView,
    pub credit_card: CreditCardView,
    pub card_transaction_type: Seq<char>,
}

impl View for BluesnapPaymentsRequest {
    type V = BluesnapPaymentsRequestView;

    open spec fn view(&self) -> BluesnapPaymentsRequestView {
        BluesnapPaymentsRequestView {
            soft_descriptor: self.soft_descriptor@,
            amount: self.amount,
            currency: self.currency@,
            card_holder_info: self.card_holder_info@,
            credit_card: self.credit_card@,
            card_transaction_type: self.card_transaction_type@,
        }
    }
}

impl BluesnapPaymentsRequest {
    /// The request that an authorization stands for. There is one exactly
    /// where the means of payment is a card; then amount and currency pass
    /// through, the description becomes the soft descriptor, and the
    /// transaction type is the fixed one.
    pub open spec fn of_authorization(item: PaymentsAuthorizeRouterData) -> Result<
        BluesnapPaymentsRequestView,
        ConnectorErrorView,
    > {
        match CreditCard::of_payment_method(item.request.payment_method_data) {
            Ok(credit_card) => Ok(
                BluesnapPaymentsRequestView {
                    soft_descriptor: text_or_empty(item.description),
                    amount: item.request.amount,
                    currency: item.request.currency.code(),
                    card_holder_info: CardHolderInfo::of_address(item.address),
                    credit_card,
                    card_transaction_type: CARD_TRANSACTION_TYPE@,
                },
            ),
            Err(rejection) => Err(rejection),
        }
    }
}

/// The request is specified by its view, [`BluesnapPaymentsRequest::of_authorization`]:
/// it holds texts of its own making, which no specification value can name.
impl TryFromSpecImpl<&PaymentsAuthorizeRouterData> for BluesnapPaymentsRequest {
    open spec fn obeys_try_from_spec() -> bool {
        false
    }

    open spec fn try_from_spec(item: &PaymentsAuthorizeRouterData) -> Result<Self, ConnectorError> {
        arbitrary()
    }
}

impl TryFrom<&PaymentsAuthorizeRouterData> for BluesnapPaymentsRequest {
    type Error = ConnectorError;

    /// Builds the request for an authorization. A means of payment other
    /// than a card is rejected before anything is built.
    fn try_from(item: &PaymentsAuthorizeRouterData) -> (outcome: Result<Self, ConnectorError>)
        ensures
            outcome_view(outcome) == Self::of_authorization(*item),
    {
        let credit_card = match CreditCard::from_payment_method(&item.request.payment_method_data) {
            Ok(card) => card,
            Err(rejection) => {
                return Err(rejection);
            },
        };
        Ok(
            BluesnapPaymentsRequest {
                soft_descriptor: owned_or_empty(&item.description),
                amount: item.request.amount,
                currency: item.request.currency.as_code().to_owned(),
                card_holder_info: CardHolderInfo::from_address(&item.address),
                credit_card,
                card_transaction_type: CARD_TRANSACTION_TYPE.to_owned(),
            },
        )
    }
}

/// The credentials Bluesnap is called with.
#[derive(Debug, Clone, PartialEq, Eq)]
pub struct BluesnapAuthType {
    pub api_key: String,
}

impl BluesnapAuthType {
    /// The credentials that a merchant's configuration gives. Only a
    /// configuration made of a key and a second key is taken: the key becomes
    /// the API key, and Bluesnap has no use for the second. Every other
    /// configuration is invalid.
    pub open spec fn of_auth_type(auth_type: ConnectorAuthType) -> Result<Self, ConnectorError> {
        match auth_type {
            ConnectorAuthType::BodyKey { api_key, key1 } => Ok(BluesnapAuthType { api_key }),
            _ => Err(ConnectorError::InvalidAuthConfiguration),
        }
    }
}

impl TryFromSpecImpl<&ConnectorAuthType> for BluesnapAuthType {
    open spec fn obeys_try_from_spec() -> bool {
        true
    }

    open spec fn try_from_spec(auth_type: &ConnectorAuthType) -> Result<Self, ConnectorError> {
        Self::of_auth_type(*auth_type)
    }
}

impl TryFrom<&ConnectorAuthType> for BluesnapAuthType {
    type Error = ConnectorError;

    /// Takes the API key out of a merchant's credentials.
    fn try_from(auth_type: &ConnectorAuthType) -> (outcome: Result<Self, ConnectorError>)
        ensures
            outcome == Self::of_auth_type(*auth_type),
    {
        match auth_type {
            ConnectorAuthType::BodyKey { api_key, key1: _ } => Ok(BluesnapAuthType { api_key: api_key.clone() }),
            _ => Err(ConnectorError::InvalidAuthConfiguration),
        }
    }
}

/// How Bluesnap says "succeeded" on the wire.
pub const WIRE_SUCCEEDED: &'static str = "succeeded";

/// How Bluesnap says "failed" on the wire.
pub const WIRE_FAILED: &'static str = "failed";

/// How Bluesnap says "processing" on the wire.
pub const WIRE_PROCESSING: &'static str = "processing";

/// What Bluesnap says of a transaction.
#[derive(Debug, Clone, Copy, PartialEq, Eq, Structural)]
pub enum BluesnapPaymentStatus {
    Succeeded,
    Failed,
    Processing,
}

impl BluesnapPaymentStatus {
    /// The status that a word on the wire stands for. The case of the
    /// letters does not count, and a word outside the vocabulary stands for
    /// a transaction that is still processing.
    pub open spec fn of_wire(text: Seq<char>) -> Self {
        if same_ignoring_ascii_case(text, WIRE_SUCCEEDED@) {
            BluesnapPaymentStatus::Succeeded
        } else if same_ignoring_ascii_case(text, WIRE_FAILED@) {
            BluesnapPaymentStatus::Failed
        } else {
            BluesnapPaymentStatus::Processing
        }
    }

    /// The word that stands for a status on the wire.
    pub open spec fn wire_name(self) -> Seq<char> {
        match self {
            BluesnapPaymentStatus::Succeeded => WIRE_SUCCEEDED@,
            BluesnapPaymentStatus::Failed => WIRE_FAILED@,
            BluesnapPaymentStatus::Processing => WIRE_PROCESSING@,
        }
    }

    /// The router's word for a transaction: one that succeeded is charged,
    /// one that failed is a failure, and one that is processing is being
    /// authorized.
    pub open spec fn attempt_status(self) -> AttemptStatus {
        match self {
            BluesnapPaymentStatus::Succeeded => AttemptStatus::Charged,
            BluesnapPaymentStatus::Failed => AttemptStatus::Failure,
            BluesnapPaymentStatus::Processing => AttemptStatus::Authorizing,
        }
    }

    /// Reads a status off the wire.
    pub fn from_wire(text: &str) -> (status: Self)
        ensures
            status == Self::of_wire(text@),
    {
        if eq_ignoring_ascii_case(text, WIRE_SUCCEEDED) {
            BluesnapPaymentStatus::Succeeded
        } else if eq_ignoring_ascii_case(text, WIRE_FAILED) {
            BluesnapPaymentStatus::Failed
        } else {
            BluesnapPaymentStatus::Processing
        }
    }

    /// Writes a status as its word on the wire.
    pub fn as_wire(&self) -> (text: &'static str)
        ensures
            text@ == self.wire_name(),
    {
        match self {
            BluesnapPaymentStatus::Succeeded => WIRE_SUCCEEDED,
            BluesnapPaymentStatus::Failed => WIRE_FAILED,
            BluesnapPaymentStatus::Processing => WIRE_PROCESSING,
        }
    }
}

impl Default for BluesnapPaymentStatus {
    /// A transaction of which nothing is said is still processing.
    fn default() -> (status: Self)
        ensures
            status == BluesnapPaymentStatus::Processing,
    {
        BluesnapPaymentStatus::Processing
    }
}

impl FromSpecImpl<BluesnapPaymentStatus> for AttemptStatus {
    open spec fn obeys_from_spec() -> bool {
        true
    }

    open spec fn from_spec(item: BluesnapPaymentStatus) -> Self {
        item.attempt_status()
    }
}

impl From<BluesnapPaymentStatus> for AttemptStatus {
    /// Translates Bluesnap's word for a transaction into the router's.
    fn from(item: BluesnapPaymentStatus) -> (status: Self)
        ensures
            status == item.attempt_status(),
    {
        match item {
            BluesnapPaymentStatus::Succeeded => AttemptStatus::Charged,
            BluesnapPaymentStatus::Failed => AttemptStatus::Failure,
            BluesnapPaymentStatus::Processing => AttemptStatus::Authorizing,
        }
    }
}

/// What Bluesnap answers to an authorization.
#[derive(Debug, Clone, PartialEq, Eq)]
pub struct BluesnapPaymentsResponse {
    pub status: BluesnapPaymentStatus,
    pub amount: i64,
    pub id: String,
}

impl Default for BluesnapPaymentsResponse {
    /// The answer that says nothing: still processing, no amount, no name.
    fn default() -> (response: Self)
        ensures
            response.status == BluesnapPaymentStatus::Processing,
            response.amount == 0,
            response.id@ == Seq::<char>::empty(),
    {
        BluesnapPaymentsResponse { status: BluesnapPaymentStatus::Processing, amount: 0, id: String::new() }
    }
}

/// The envelope after Bluesnap answered: its status is the translated one,
/// the captured amount is the answered one, and the response names the
/// transaction and nothing else: no redirection, no mandate, no metadata.
/// Whatever else the envelope held, it still holds.
pub open spec fn answered<F, T>(
    item: ResponseRouterData<F, BluesnapPaymentsResponse, T, PaymentsResponseData>,
) -> RouterData<F, T, PaymentsResponseData> {
    RouterData {
        status: item.response.status.attempt_status(),
        amount_captured: Some(item.response.amount),
        response: Ok(
            PaymentsResponseData::TransactionResponse {
                resource_id: ResponseId::ConnectorTransactionId(item.response.id),
                redirection_data: None,
                redirect: false,
                mandate_reference: None,
                connector_metadata: None,
            },
        ),
        ..item.data
    }
}

impl<F, T> TryFromSpecImpl<
    ResponseRouterData<F, BluesnapPaymentsResponse, T, PaymentsResponseData>,
> for RouterData<F, T, PaymentsResponseData> {
    open spec fn obeys_try_from_spec() -> bool {
        true
    }

    open spec fn try_from_spec(
        item: ResponseRouterData<F, BluesnapPaymentsResponse, T, PaymentsResponseData>,
    ) -> Result<Self, ConnectorError> {
        Ok(answered(item))
    }
}

impl<F, T> TryFrom<
    ResponseRouterData<F, BluesnapPaymentsResponse, T, PaymentsResponseData>,
> for RouterData<F, T, PaymentsResponseData> {
    type Error = ConnectorError;

    /// Records Bluesnap's answer in the envelope it answers. Never fails.
    fn try_from(item: ResponseRouterData<F, BluesnapPaymentsResponse, T, PaymentsResponseData>) -> (outcome: Result<
        Self,
        ConnectorError,
    >)
        ensures
            outcome == Ok::<Self, ConnectorError>(answered(item)),
    {
        Ok(
            RouterData {
                status: AttemptStatus::from(item.response.status),
                amount_captured: Some(item.response.amount),
                response: Ok(
                    PaymentsResponseData::TransactionResponse {
                        resource_id: ResponseId::ConnectorTransactionId(item.response.id),
                        redirection_data: None,
                        redirect: false,
                        mandate_reference: None,
                        connector_metadata: None,
                    },
                ),
                ..item.data
            },
        )
    }
}

/// The request that would ask Bluesnap for a refund. It has no fields yet:
/// the empty shape holds the place of the real one.
#[derive(Debug, Clone, Copy, PartialEq, Eq)]
pub struct BluesnapRefundRequest {}

impl Default for BluesnapRefundRequest {
    fn default() -> (request: Self)
        ensures
            request == (BluesnapRefundRequest {  }),
    {
        BluesnapRefundRequest {  }
    }
}

impl<F> TryFromSpecImpl<&RefundsRouterData<F>> for BluesnapRefundRequest {
    open spec fn obeys_try_from_spec() -> bool {
        true
    }

    /// No refund request can be built yet, whatever is asked.
    open spec fn try_from_spec(item: &RefundsRouterData<F>) -> Result<Self, ConnectorError> {
        Err(ConnectorError::OperationNotImplemented)
    }
}

impl<F> TryFrom<&RefundsRouterData<F>> for BluesnapRefundRequest {
    type Error = ConnectorError;

    /// Reports that refunds are not available, instead of building a request.
    fn try_from(item: &RefundsRouterData<F>) -> (outcome: Result<Self, ConnectorError>)
        ensures
            outcome == Err::<Self, ConnectorError>(ConnectorError::OperationNotImplemented),
    {
        Err(ConnectorError::OperationNotImplemented)
    }
}

/// What Bluesnap says of a refund.
#[derive(Debug, Clone, Copy, PartialEq, Eq, Structural)]
pub enum RefundStatus {
    Succeeded,
    Failed,
    Processing,
}

impl RefundStatus {
    /// The status that a word on the wire stands for: the vocabulary is that
    /// of transactions.
    pub open spec fn of_wire(text: Seq<char>) -> Self {
        match BluesnapPaymentStatus::of_wire(text) {
            BluesnapPaymentStatus::Succeeded => RefundStatus::Succeeded,
            BluesnapPaymentStatus::Failed => RefundStatus::Failed,
            BluesnapPaymentStatus::Processing => RefundStatus::Processing,
        }
    }

    /// The router's word for a refund: one that succeeded is a success, one
    /// that failed is a failure, and one that is processing is pending.
    pub open spec fn refund_status(self) -> enums::RefundStatus {
        match self {
            RefundStatus::Succeeded => enums::RefundStatus::Success,
            RefundStatus::Failed => enums::RefundStatus::Failure,
            RefundStatus::Processing => enums::RefundStatus::Pending,
        }
    }

    /// Reads a refund's status off the wire.
    pub fn from_wire(text: &str) -> (status: Self)
        ensures
            status == Self::of_wire(text@),
    {
        match BluesnapPaymentStatus::from_wire(text) {
            BluesnapPaymentStatus::Succeeded => RefundStatus::Succeeded,
            BluesnapPaymentStatus::Failed => RefundStatus::Failed,
            BluesnapPaymentStatus::Processing => RefundStatus::Processing,
        }
    }
}

impl Default for RefundStatus {
    /// A refund of which nothing is said is still processing.
    fn default() -> (status: Self)
        ensures
            status == RefundStatus::Processing,
    {
        RefundStatus::Processing
    }
}

impl FromSpecImpl<RefundStatus> for enums::RefundStatus {
    open spec fn obeys_from_spec() -> bool {
        true
    }

    open spec fn from_spec(item: RefundStatus) -> Self {
        item.refund_status()
    }
}

impl From<RefundStatus> for enums::RefundStatus {
    /// Translates Bluesnap's word for a refund into the router's.
    fn from(item: RefundStatus) -> (status: Self)
        ensures
            status == item.refund_status(),
    {
        match item {
            RefundStatus::Succeeded => enums::RefundStatus::Success,
            RefundStatus::Failed => enums::RefundStatus::Failure,
            RefundStatus::Processing => enums::RefundStatus::Pending,
        }
    }
}

/// What Bluesnap would answer to a refund. It has no fields yet: the empty
/// shape holds the place of the real one.
#[derive(Debug, Clone, Copy, PartialEq, Eq)]
pub struct RefundResponse {}

impl Default for RefundResponse {
    fn default() -> (response: Self)
        ensures
            response == (RefundResponse {  }),
    {
        RefundResponse {  }
    }
}

impl TryFromSpecImpl<RefundsResponseRouterData<Execute, RefundResponse>> for RefundsRouterData<Execute> {
    open spec fn obeys_try_from_spec() -> bool {
        true
    }

    /// No answer to a refund can be read yet, whatever it holds.
    open spec fn try_from_spec(item: RefundsResponseRouterData<Execute, RefundResponse>) -> Result<
        Self,
        ConnectorError,
    > {
        Err(ConnectorError::OperationNotImplemented)
    }
}

impl TryFrom<RefundsResponseRouterData<Execute, RefundResponse>> for RefundsRouterData<Execute> {
    type Error = ConnectorError;

    /// Reports that refunds are not available, instead of reading the answer
    /// to one.
    fn try_from(item: RefundsResponseRouterData<Execute, RefundResponse>) -> (outcome: Result<Self, ConnectorError>)
        ensures
            outcome == Err::<Self, ConnectorError>(ConnectorError::OperationNotImplemented),
    {
        Err(ConnectorError::OperationNotImplemented)
    }
}

impl TryFromSpecImpl<RefundsResponseRouterData<RSync, RefundResponse>> for RefundsRouterData<RSync> {
    open spec fn obeys_try_from_spec() -> bool {
        true
    }

    /// No state of a refund can be read yet, whatever the answer holds.
    open spec fn try_from_spec(item: RefundsResponseRouterData<RSync, RefundResponse>) -> Result<
        Self,
        ConnectorError,
    > {
        Err(ConnectorError::OperationNotImplemented)
    }
}

impl TryFrom<RefundsResponseRouterData<RSync, RefundResponse>> for RefundsRouterData<RSync> {
    type Error = ConnectorError;

    /// Reports that refunds are not available, instead of reading the state
    /// of one.
    fn try_from(item: RefundsResponseRouterData<RSync, RefundResponse>) -> (outcome: Result<Self, ConnectorError>)
        ensures
            outcome == Err::<Self, ConnectorError>(ConnectorError::OperationNotImplemented),
    {
        Err(ConnectorError::OperationNotImplemented)
    }
}

/// What Bluesnap answers when it refuses a request. It has no fields yet.
#[derive(Debug, Clone, Copy, PartialEq, Eq)]
pub struct BluesnapErrorResponse {}

impl Default for BluesnapErrorResponse {
    fn default() -> (response: Self)
        ensures
            response == (BluesnapErrorResponse {  }),
    {
        BluesnapErrorResponse {  }
    }
}

} // verus!

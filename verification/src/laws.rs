//! What holds of the transformations whatever they are given.

use vstd::prelude::*;

use crate::enums;
use crate::enums::AttemptStatus;
use crate::errors::{ConnectorError, ConnectorErrorView};
use crate::transformers::{
    answered, outcome_view, text_or_empty, BluesnapAuthType, BluesnapPaymentStatus,
    BluesnapPaymentsRequest, BluesnapPaymentsRequestView, BluesnapPaymentsResponse, CardHolderInfo,
    CardHolderInfoView, RefundStatus, CARD_TRANSACTION_TYPE, REJECTED_METHOD_PREFIX, WIRE_FAILED, WIRE_PROCESSING,
    WIRE_SUCCEEDED,
};
use crate::types::{
    AddressDetails, Card, ConnectorAuthType, PaymentAddress, PaymentMethod, PaymentsAuthorizeRouterData,
    PaymentsResponseData, ResponseId, ResponseRouterData, RouterData,
};
use crate::wire::same_ignoring_ascii_case;

verus! {

/// An authorization that pays by anything but a card gets no request: the
/// outcome is the rejection that names the means of payment.
pub proof fn lemma_other_means_are_rejected(item: PaymentsAuthorizeRouterData)
    requires
        !(item.request.payment_method_data is Card),
    ensures
        BluesnapPaymentsRequest::of_authorization(item) == Err::<BluesnapPaymentsRequestView, ConnectorErrorView>(
            ConnectorErrorView::UnsupportedPaymentMethod(
                REJECTED_METHOD_PREFIX@ + item.request.payment_method_data.description(),
            ),
        ),
{
}

/// An authorization that pays by card always gets a request, and the card in
/// it is the customer's, text for text. The addresses of the payment have no
/// part in that: with any other addresses the card in the request is the same.
pub proof fn lemma_card_passes_through(item: PaymentsAuthorizeRouterData, card: Card, address: PaymentAddress)
    requires
        item.request.payment_method_data == PaymentMethod::Card(card),
    ensures
        BluesnapPaymentsRequest::of_authorization(item) is Ok,
        BluesnapPaymentsRequest::of_authorization(item)->Ok_0.credit_card.card_number == card.card_number@,
        BluesnapPaymentsRequest::of_authorization(item)->Ok_0.credit_card.expiration_month == card.card_exp_month@,
        BluesnapPaymentsRequest::of_authorization(item)->Ok_0.credit_card.expiration_year == card.card_exp_year@,
        BluesnapPaymentsRequest::of_authorization(item)->Ok_0.credit_card.security_code == card.card_cvc@,
        BluesnapPaymentsRequest::of_authorization(RouterData { address, ..item }) is Ok,
        BluesnapPaymentsRequest::of_authorization(RouterData { address, ..item })->Ok_0.credit_card
            == BluesnapPaymentsRequest::of_authorization(item)->Ok_0.credit_card,
{
}

/// What a request carries beside the card: the amount as given, the currency
/// as its code, the description or nothing, and the one transaction type.
pub proof fn lemma_request_carries_the_payment(item: PaymentsAuthorizeRouterData)
    requires
        item.request.payment_method_data is Card,
    ensures
        BluesnapPaymentsRequest::of_authorization(item) is Ok,
        BluesnapPaymentsRequest::of_authorization(item)->Ok_0.amount == item.request.amount,
        BluesnapPaymentsRequest::of_authorization(item)->Ok_0.currency == item.request.currency.code(),
        BluesnapPaymentsRequest::of_authorization(item)->Ok_0.soft_descriptor == text_or_empty(item.description),
        BluesnapPaymentsRequest::of_authorization(item)->Ok_0.card_transaction_type == CARD_TRANSACTION_TYPE@,
        BluesnapPaymentsRequest::of_authorization(item)->Ok_0.card_holder_info == CardHolderInfo::of_address(
            item.address,
        ),
{
}

/// Without a billing address, or with one that has no details, the card
/// holder's three texts are empty.
pub proof fn lemma_card_holder_without_details(address: PaymentAddress)
    requires
        address.billing is None || address.billing->Some_0.address is None,
    ensures
        CardHolderInfo::of_address(address) == (CardHolderInfoView {
            first_name: Seq::empty(),
            last_name: Seq::empty(),
            zip: Seq::empty(),
        }),
{
}

/// With a billing address that has details, each of the card holder's three
/// texts is what the details say of it, or empty where they say nothing,
/// whatever they say of the other two.
pub proof fn lemma_card_holder_with_details(address: PaymentAddress, details: AddressDetails)
    requires
        address.billing is Some,
        address.billing->Some_0.address == Some(details),
    ensures
        CardHolderInfo::of_address(address).first_name == text_or_empty(details.first_name),
        CardHolderInfo::of_address(address).last_name == text_or_empty(details.last_name),
        CardHolderInfo::of_address(address).zip == text_or_empty(details.zip),
        details.first_name is None ==> CardHolderInfo::of_address(address).first_name == Seq::<char>::empty(),
        details.last_name is None ==> CardHolderInfo::of_address(address).last_name == Seq::<char>::empty(),
        details.zip is None ==> CardHolderInfo::of_address(address).zip == Seq::<char>::empty(),
{
}

/// The two tables of the status translation. Each of Bluesnap's three words
/// has one word of the router's, and no two of them share it.
pub proof fn lemma_status_tables(first: BluesnapPaymentStatus, second: BluesnapPaymentStatus)
    ensures
        BluesnapPaymentStatus::Succeeded.attempt_status() == AttemptStatus::Charged,
        BluesnapPaymentStatus::Failed.attempt_status() == AttemptStatus::Failure,
        BluesnapPaymentStatus::Processing.attempt_status() == AttemptStatus::Authorizing,
        RefundStatus::Succeeded.refund_status() == enums::RefundStatus::Success,
        RefundStatus::Failed.refund_status() == enums::RefundStatus::Failure,
        RefundStatus::Processing.refund_status() == enums::RefundStatus::Pending,
        first.attempt_status() == second.attempt_status() ==> first == second,
{
}

/// A word on the wire that is neither "succeeded" nor "failed", whatever the
/// case of its letters, stands for a transaction or a refund in progress:
/// the router is told that the payment is being authorized, the refund
/// pending.
pub proof fn lemma_unknown_word_is_in_progress(text: Seq<char>)
    requires
        !same_ignoring_ascii_case(text, WIRE_SUCCEEDED@),
        !same_ignoring_ascii_case(text, WIRE_FAILED@),
    ensures
        BluesnapPaymentStatus::of_wire(text) == BluesnapPaymentStatus::Processing,
        BluesnapPaymentStatus::of_wire(text).attempt_status() == AttemptStatus::Authorizing,
        RefundStatus::of_wire(text) == RefundStatus::Processing,
        RefundStatus::of_wire(text).refund_status() == enums::RefundStatus::Pending,
{
}

/// Reading the word that a status is written as gives the status back.
pub proof fn lemma_wire_name_reads_back(status: BluesnapPaymentStatus)
    ensures
        BluesnapPaymentStatus::of_wire(status.wire_name()) == status,
{
    reveal_strlit("succeeded");
    reveal_strlit("failed");
    reveal_strlit("processing");
    match status {
        BluesnapPaymentStatus::Succeeded => {
            assert(same_ignoring_ascii_case(WIRE_SUCCEEDED@, WIRE_SUCCEEDED@));
        },
        BluesnapPaymentStatus::Failed => {
            assert(WIRE_FAILED@.len() != WIRE_SUCCEEDED@.len());
            assert(same_ignoring_ascii_case(WIRE_FAILED@, WIRE_FAILED@));
        },
        BluesnapPaymentStatus::Processing => {
            assert(WIRE_PROCESSING@.len() != WIRE_SUCCEEDED@.len());
            assert(WIRE_PROCESSING@.len() != WIRE_FAILED@.len());
        },
    }
}

/// What Bluesnap's answer changes in an envelope, and what it leaves: the
/// status, the captured amount and the response are set from the answer, and
/// every other part of the envelope is as it was.
pub proof fn lemma_answer_keeps_the_rest<F, T>(
    item: ResponseRouterData<F, BluesnapPaymentsResponse, T, PaymentsResponseData>,
)
    ensures
        answered(item).status == item.response.status.attempt_status(),
        answered(item).amount_captured == Some(item.response.amount),
        answered(item).response == Ok::<PaymentsResponseData, crate::types::ErrorResponse>(
            PaymentsResponseData::TransactionResponse {
                resource_id: ResponseId::ConnectorTransactionId(item.response.id),
                redirection_data: None,
                redirect: false,
                mandate_reference: None,
                connector_metadata: None,
            },
        ),
        answered(item).flow == item.data.flow,
        answered(item).merchant_id == item.data.merchant_id,
        answered(item).connector == item.data.connector,
        answered(item).payment_id == item.data.payment_id,
        answered(item).connector_auth_type == item.data.connector_auth_type,
        answered(item).description == item.data.description,
        answered(item).return_url == item.data.return_url,
        answered(item).address == item.data.address,
        answered(item).request == item.data.request,
        answered(item).payment_method_id == item.data.payment_method_id,
{
}

/// Credentials are taken exactly from a configuration of a key and a second
/// key, and then the API key is that key. Every other configuration is
/// invalid.
pub proof fn lemma_only_body_key_is_taken(auth_type: ConnectorAuthType)
    ensures
        BluesnapAuthType::of_auth_type(auth_type) is Ok <==> auth_type is BodyKey,
        auth_type is BodyKey ==> BluesnapAuthType::of_auth_type(auth_type)->Ok_0.api_key
            == auth_type->BodyKey_api_key,
        !(auth_type is BodyKey) ==> BluesnapAuthType::of_auth_type(auth_type) == Err::<
            BluesnapAuthType,
            ConnectorError,
        >(ConnectorError::InvalidAuthConfiguration),
{
}

/// Two runs of the request builder on one authorization cannot be told
/// apart: both succeed or both fail, and what they return reads the same,
/// character for character.
pub proof fn lemma_same_authorization_same_request(
    item: PaymentsAuthorizeRouterData,
    first: Result<BluesnapPaymentsRequest, ConnectorError>,
    second: Result<BluesnapPaymentsRequest, ConnectorError>,
)
    requires
        outcome_view(first) == BluesnapPaymentsRequest::of_authorization(item),
        outcome_view(second) == BluesnapPaymentsRequest::of_authorization(item),
    ensures
        first is Ok <==> second is Ok,
        outcome_view(first) == outcome_view(second),
        first is Ok ==> first->Ok_0@ == second->Ok_0@,
        first is Err ==> first->Err_0@ == second->Err_0@,
{
}

/// Two runs of the response mapper on one answer and one envelope return the
/// same envelope.
pub proof fn lemma_same_answer_same_envelope<F, T>(
    item: ResponseRouterData<F, BluesnapPaymentsResponse, T, PaymentsResponseData>,
    first: Result<RouterData<F, T, PaymentsResponseData>, ConnectorError>,
    second: Result<RouterData<F, T, PaymentsResponseData>, ConnectorError>,
)
    requires
        first == Ok::<RouterData<F, T, PaymentsResponseData>, ConnectorError>(answered(item)),
        second == Ok::<RouterData<F, T, PaymentsResponseData>, ConnectorError>(answered(item)),
    ensures
        first == second,
{
}

/// Two readings of one configuration return the same credentials, or the
/// same refusal.
pub proof fn lemma_same_configuration_same_credentials(
    auth_type: ConnectorAuthType,
    first: Result<BluesnapAuthType, ConnectorError>,
    second: Result<BluesnapAuthType, ConnectorError>,
)
    requires
        first == BluesnapAuthType::of_auth_type(auth_type),
        second == BluesnapAuthType::of_auth_type(auth_type),
    ensures
        first == second,
{
}

} // verus!

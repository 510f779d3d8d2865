//! The failures a connector reports to the router.

use vstd::prelude::*;

verus! {

/// A failure of one of the connector's transformations.
///
/// Every failure is returned to the caller; none aborts the process.
#[derive(Debug, Clone, PartialEq, Eq)]
pub enum ConnectorError {
    /// The payment method of the request is one this connector cannot
    /// process. The text describes the offending method.
    UnsupportedPaymentMethod(String),
    /// The configured credentials are not of the shape this connector uses.
    InvalidAuthConfiguration,
    /// The operation is not available for this connector yet.
    OperationNotImplemented,
    /// The provider's response could not be understood. No transformation
    /// reports it yet: it is kept for responses that arrive damaged.
    ResponseParsingFailure,
}

/// What a [`ConnectorError`] says, with its text as a sequence of characters.
pub enum ConnectorErrorView {
    UnsupportedPaymentMethod(Seq<char>),
    InvalidAuthConfiguration,
    OperationNotImplemented,
    ResponseParsingFailure,
}

impl View for ConnectorError {
    type V = ConnectorErrorView;

    open spec fn view(&self) -> ConnectorErrorView {
        match self {
            ConnectorError::UnsupportedPaymentMethod(text) => ConnectorErrorView::UnsupportedPaymentMethod(text@),
            ConnectorError::InvalidAuthConfiguration => ConnectorErrorView::InvalidAuthConfiguration,
            ConnectorError::OperationNotImplemented => ConnectorErrorView::OperationNotImplemented,
            ConnectorError::ResponseParsingFailure => ConnectorErrorView::ResponseParsingFailure,
        }
    }
}

} // verus!

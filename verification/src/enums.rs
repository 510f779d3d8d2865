//! Platform-wide vocabularies that every connector maps into.

use vstd::prelude::*;

verus! {

/// The state of a payment attempt as the router tracks it.
#[derive(Debug, Clone, Copy, PartialEq, Eq, Structural)]
pub enum AttemptStatus {
    Started,
    AuthenticationFailed,
    RouterDeclined,
    AuthenticationPending,
    AuthenticationSuccessful,
    Authorized,
    AuthorizationFailed,
    Charged,
    Authorizing,
    CodInitiated,
    Voided,
    VoidInitiated,
    CaptureInitiated,
    CaptureFailed,
    VoidFailed,
    AutoRefunded,
    PartialCharged,
    Pending,
    Failure,
    PaymentMethodAwaited,
    ConfirmationAwaited,
}

/// The state of a refund as the router tracks it.
#[derive(Debug, Clone, Copy, PartialEq, Eq, Structural)]
pub enum RefundStatus {
    Failure,
    ManualReview,
    Pending,
    Success,
    TransactionFailure,
}

/// The currencies the router can settle in, named by their ISO 4217 code.
#[derive(Debug, Clone, Copy, PartialEq, Eq, Structural)]
pub enum Currency {
    AED,
    ALL,
    AMD,
    ARS,
    AUD,
    AWG,
    AZN,
    BBD,
    BDT,
    BHD,
    BMD,
    BND,
    BOB,
    BRL,
    BSD,
    BWP,
    BZD,
    CAD,
    CHF,
    CNY,
    COP,
    CRC,
    CUP,
    CZK,
    DKK,
    DOP,
    DZD,
    EGP,
    ETB,
    EUR,
    FJD,
    GBP,
    GHS,
    GIP,
    GMD,
    GTQ,
    GYD,
    HKD,
    HNL,
    HRK,
    HTG,
    HUF,
    IDR,
    ILS,
    INR,
    JMD,
    JOD,
    JPY,
    KES,
    KGS,
    KHR,
    KRW,
    KWD,
    KYD,
    KZT,
    LAK,
    LBP,
    LKR,
    LRD,
    LSL,
    MAD,
    MDL,
    MKD,
    MMK,
    MNT,
    MOP,
    MUR,
    MVR,
    MWK,
    MXN,
    MYR,
    NAD,
    NGN,
    NIO,
    NOK,
    NPR,
    NZD,
    OMR,
    PEN,
    PGK,
    PHP,
    PKR,
    PLN,
    QAR,
    RUB,
    SAR,
    SCR,
    SEK,
    SGD,
    SLL,
    SOS,
    SSP,
    SVC,
    SZL,
    THB,
    TTD,
    TWD,
    TZS,
    USD,
    UYU,
    UZS,
    YER,
    ZAR,
}

impl Currency {
    /// The three-letter code of the currency.
    pub open spec fn code(self) -> Seq<char> {
        match self {
            Currency::AED => "AED"@,
            Currency::ALL => "ALL"@,
            Currency::AMD => "AMD"@,
            Currency::ARS => "ARS"@,
            Currency::AUD => "AUD"@,
            Currency::AWG => "AWG"@,
            Currency::AZN => "AZN"@,
            Currency::BBD => "BBD"@,
            Currency::BDT => "BDT"@,
            Currency::BHD => "BHD"@,
            Currency::BMD => "BMD"@,
            Currency::BND => "BND"@,
            Currency::BOB => "BOB"@,
            Currency::BRL => "BRL"@,
            Currency::BSD => "BSD"@,
            Currency::BWP => "BWP"@,
            Currency::BZD => "BZD"@,
            Currency::CAD => "CAD"@,
            Currency::CHF => "CHF"@,
            Currency::CNY => "CNY"@,
            Currency::COP => "COP"@,
            Currency::CRC => "CRC"@,
            Currency::CUP => "CUP"@,
            Currency::CZK => "CZK"@,
            Currency::DKK => "DKK"@,
            Currency::DOP => "DOP"@,
            Currency::DZD => "DZD"@,
            Currency::EGP => "EGP"@,
            Currency::ETB => "ETB"@,
            Currency::EUR => "EUR"@,
            Currency::FJD => "FJD"@,
            Currency::GBP => "GBP"@,
            Currency::GHS => "GHS"@,
            Currency::GIP => "GIP"@,
            Currency::GMD => "GMD"@,
            Currency::GTQ => "GTQ"@,
            Currency::GYD => "GYD"@,
            Currency::HKD => "HKD"@,
            Currency::HNL => "HNL"@,
            Currency::HRK => "HRK"@,
            Currency::HTG => "HTG"@,
            Currency::HUF => "HUF"@,
            Currency::IDR => "IDR"@,
            Currency::ILS => "ILS"@,
            Currency::INR => "INR"@,
            Currency::JMD => "JMD"@,
            Currency::JOD => "JOD"@,
            Currency::JPY => "JPY"@,
            Currency::KES => "KES"@,
            Currency::KGS => "KGS"@,
            Currency::KHR => "KHR"@,
            Currency::KRW => "KRW"@,
            Currency::KWD => "KWD"@,
            Currency::KYD => "KYD"@,
            Currency::KZT => "KZT"@,
            Currency::LAK => "LAK"@,
            Currency::LBP => "LBP"@,
            Currency::LKR => "LKR"@,
            Currency::LRD => "LRD"@,
            Currency::LSL => "LSL"@,
            Currency::MAD => "MAD"@,
            Currency::MDL => "MDL"@,
            Currency::MKD => "MKD"@,
            Currency::MMK => "MMK"@,
            Currency::MNT => "MNT"@,
            Currency::MOP => "MOP"@,
            Currency::MUR => "MUR"@,
            Currency::MVR => "MVR"@,
            Currency::MWK => "MWK"@,
            Currency::MXN => "MXN"@,
            Currency::MYR => "MYR"@,
            Currency::NAD => "NAD"@,
            Currency::NGN => "NGN"@,
            Currency::NIO => "NIO"@,
            Currency::NOK => "NOK"@,
            Currency::NPR => "NPR"@,
            Currency::NZD => "NZD"@,
            Currency::OMR => "OMR"@,
            Currency::PEN => "PEN"@,
            Currency::PGK => "PGK"@,
            Currency::PHP => "PHP"@,
            Currency::PKR => "PKR"@,
            Currency::PLN => "PLN"@,
            Currency::QAR => "QAR"@,
            Currency::RUB => "RUB"@,
            Currency::SAR => "SAR"@,
            Currency::SCR => "SCR"@,
            Currency::SEK => "SEK"@,
            Currency::SGD => "SGD"@,
            Currency::SLL => "SLL"@,
            Currency::SOS => "SOS"@,
            Currency::SSP => "SSP"@,
            Currency::SVC => "SVC"@,
            Currency::SZL => "SZL"@,
            Currency::THB => "THB"@,
            Currency::TTD => "TTD"@,
            Currency::TWD => "TWD"@,
            Currency::TZS => "TZS"@,
            Currency::USD => "USD"@,
            Currency::UYU => "UYU"@,
            Currency::UZS => "UZS"@,
            Currency::YER => "YER"@,
            Currency::ZAR => "ZAR"@,
        }
    }

    /// Renders the currency as its three-letter code.
    pub fn as_code(&self) -> (text: &'static str)
        ensures
            text@ == self.code(),
    {
        match self {
            Currency::AED => "AED",
            Currency::ALL => "ALL",
            Currency::AMD => "AMD",
            Currency::ARS => "ARS",
            Currency::AUD => "AUD",
            Currency::AWG => "AWG",
            Currency::AZN => "AZN",
            Currency::BBD => "BBD",
            Currency::BDT => "BDT",
            Currency::BHD => "BHD",
            Currency::BMD => "BMD",
            Currency::BND => "BND",
            Currency::BOB => "BOB",
            Currency::BRL => "BRL",
            Currency::BSD => "BSD",
            Currency::BWP => "BWP",
            Currency::BZD => "BZD",
            Currency::CAD => "CAD",
            Currency::CHF => "CHF",
            Currency::CNY => "CNY",
            Currency::COP => "COP",
            Currency::CRC => "CRC",
            Currency::CUP => "CUP",
            Currency::CZK => "CZK",
            Currency::DKK => "DKK",
            Currency::DOP => "DOP",
            Currency::DZD => "DZD",
            Currency::EGP => "EGP",
            Currency::ETB => "ETB",
            Currency::EUR => "EUR",
            Currency::FJD => "FJD",
            Currency::GBP => "GBP",
            Currency::GHS => "GHS",
            Currency::GIP => "GIP",
            Currency::GMD => "GMD",
            Currency::GTQ => "GTQ",
            Currency::GYD => "GYD",
            Currency::HKD => "HKD",
            Currency::HNL => "HNL",
            Currency::HRK => "HRK",
            Currency::HTG => "HTG",
            Currency::HUF => "HUF",
            Currency::IDR => "IDR",
            Currency::ILS => "ILS",
            Currency::INR => "INR",
            Currency::JMD => "JMD",
            Currency::JOD => "JOD",
            Currency::JPY => "JPY",
            Currency::KES => "KES",
            Currency::KGS => "KGS",
            Currency::KHR => "KHR",
            Currency::KRW => "KRW",
            Currency::KWD => "KWD",
            Currency::KYD => "KYD",
            Currency::KZT => "KZT",
            Currency::LAK => "LAK",
            Currency::LBP => "LBP",
            Currency::LKR => "LKR",
            Currency::LRD => "LRD",
            Currency::LSL => "LSL",
            Currency::MAD => "MAD",
            Currency::MDL => "MDL",
            Currency::MKD => "MKD",
            Currency::MMK => "MMK",
            Currency::MNT => "MNT",
            Currency::MOP => "MOP",
            Currency::MUR => "MUR",
            Currency::MVR => "MVR",
            Currency::MWK => "MWK",
            Currency::MXN => "MXN",
            Currency::MYR => "MYR",
            Currency::NAD => "NAD",
            Currency::NGN => "NGN",
            Currency::NIO => "NIO",
            Currency::NOK => "NOK",
            Currency::NPR => "NPR",
            Currency::NZD => "NZD",
            Currency::OMR => "OMR",
            Currency::PEN => "PEN",
            Currency::PGK => "PGK",
            Currency::PHP => "PHP",
            Currency::PKR => "PKR",
            Currency::PLN => "PLN",
            Currency::QAR => "QAR",
            Currency::RUB => "RUB",
            Currency::SAR => "SAR",
            Currency::SCR => "SCR",
            Currency::SEK => "SEK",
            Currency::SGD => "SGD",
            Currency::SLL => "SLL",
            Currency::SOS => "SOS",
            Currency::SSP => "SSP",
            Currency::SVC => "SVC",
            Currency::SZL => "SZL",
            Currency::THB => "THB",
            Currency::TTD => "TTD",
            Currency::TWD => "TWD",
            Currency::TZS => "TZS",
            Currency::USD => "USD",
            Currency::UYU => "UYU",
            Currency::UZS => "UZS",
            Currency::YER => "YER",
            Currency::ZAR => "ZAR",
        }
    }
}

} // verus!

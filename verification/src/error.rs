//! Exchange error codes and rejection reasons.

use vstd::prelude::*;

verus! {

/// A one-line description for each HTTP status code the exchange
/// answers with; codes outside the documented set read "unknown".
pub fn error_code_reason(ec: u16) -> (r: &'static str)
    ensures
        ec == 200 ==> r@ == "Request was successful"@,
        300 <= ec <= 399 ==> r@
            == "API entry point has moved, see Location: header. Most likely an http: to https: redirect."@,
        ec == 400 ==> r@
            == "Auction not open or paused, ineligible timing, market not open, or the request was malformed; in the case of a private API request, missing or malformed Gemini private API authentication headers"@,
        ec == 403 ==> r@
            == "The API key is missing the role necessary to access this private API endpoint"@,
        ec == 404 ==> r@ == "Unknown API entry point or Order not found"@,
        ec == 406 ==> r@ == "Insufficient Funds"@,
        ec == 429 ==> r@ == "Rate Limiting was applied"@,
        ec == 500 ==> r@ == "The server encountered an error"@,
        ec == 502 ==> r@
            == "Technical issues are preventing the request from being satisfied"@,
        ec == 503 ==> r@ == "The exchange is down for maintenance"@,
        !(ec == 200 || (300 <= ec <= 399) || ec == 400 || ec == 403 || ec == 404 || ec == 406
            || ec == 429 || ec == 500 || ec == 502 || ec == 503) ==> r@ == "unknown"@,
{
    if ec == 200 {
        "Request was successful"
    } else if 300 <= ec && ec <= 399 {
        "API entry point has moved, see Location: header. Most likely an http: to https: redirect."
    } else if ec == 400 {
        "Auction not open or paused, ineligible timing, market not open, or the request was malformed; in the case of a private API request, missing or malformed Gemini private API authentication headers"
    } else if ec == 403 {
        "The API key is missing the role necessary to access this private API endpoint"
    } else if ec == 404 {
        "Unknown API entry point or Order not found"
    } else if ec == 406 {
        "Insufficient Funds"
    } else if ec == 429 {
        "Rate Limiting was applied"
    } else if ec == 500 {
        "The server encountered an error"
    } else if ec == 502 {
        "Technical issues are preventing the request from being satisfied"
    } else if ec == 503 {
        "The exchange is down for maintenance"
    } else {
        "unknown"
    }
}

/// Why the exchange rejected a request.
#[derive(Clone, Copy, Debug, PartialEq, Eq, Structural)]
pub enum ErrorReason {
    AuctionNotOpen,
    ClientOrderIdTooLong,
    ClientOrderIdMustBeString,
    ConflictingOptions,
    ConflictingAccountName,
    EndpointMismatch,
    EndpointNotFound,
    GTSTradeIDMustBeString,
    IneligibleTiming,
    InsufficientFunds,
    InvalidJson,
    InvalidNonce,
    InvalidOrderType,
    InvalidParameterValue,
    InvalidPrice,
    InvalidStopPrice,
    InvalidStopPriceSell,
    InvalidStopPriceBuy,
    InvalidStopPriceRatio,
    InvalidQuantity,
    InvalidSide,
    InvalidSignature,
    InvalidSymbol,
    InvalidTimestampInPayload,
    InvalidAccountName,
    InvalidAccountType,
    InvalidFundTransfer,
    Maintenance,
    MarketNotOpen,
    MissingAccountName,
    MissingAccounts,
    MissingApikeyHeader,
    MissingOrderField,
    MissingRole,
    MissingPayloadHeader,
    MissingPayloadKey,
    MissingSignatureHeader,
    MissingName,
    MissingNonce,
    MoreThanOneAccount,
    AccountsOnGroupOnlyApi,
    AccountLimitExceeded,
    NoAccountOfTypeRequired,
    AccountNotOfTypeRequired,
    NotGroupApiCompatible,
    ExceededMaxAccountsInGroup,
    NoSSL,
    OptionsMustBeArray,
    OrderNotFound,
    RateLimit,
    System,
    UnsupportedOption,
    HasNotAgreedToCustodyTerms,
    BadAccountType,
}

} // verus!

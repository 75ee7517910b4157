//! The remote quota endpoint, without the network: the request to send for
//! a token, and what an exchange with the endpoint came to.

use vstd::prelude::*;
use vstd::string::StringExecFns;
use crate::text::decimal;
use crate::text::decimal_text;

verus! {

/// Where the usage windows are fetched from.
pub const USAGE_URL: &'static str = "https://api.anthropic.com/api/oauth/usage";

/// The header that carries the credential.
pub const AUTHORIZATION_HEADER: &'static str = "Authorization";

/// What stands before the token in the credential header.
pub const BEARER_PREFIX: &'static str = "Bearer ";

/// The header that names the API version.
pub const VERSION_HEADER: &'static str = "anthropic-beta";

/// The API version that the usage windows are asked of.
pub const API_VERSION: &'static str = "oauth-2025-04-20";

pub const TRANSPORT_PREFIX: &'static str = "API request failed: ";

pub const STATUS_PREFIX: &'static str = "API error ";

pub const STATUS_SEPARATOR: &'static str = ": ";

pub const DECODE_PREFIX: &'static str = "Failed to parse API response: ";

/// One rolling quota window as the provider reports it.
///
/// `U` is the provider's utilization reading. The library never looks into
/// it: a reading is carried to the response as it came.
#[derive(Debug, Clone)]
pub struct UsageWindow<U> {
    pub utilization: U,
    /// When the window resets, as the provider's timestamp.
    pub resets_at: String,
}

/// The quota windows of one response. The provider leaves out what it does
/// not report.
#[derive(Debug, Clone)]
pub struct UsageApiResponse<U> {
    pub five_hour: Option<UsageWindow<U>>,
    pub seven_day: Option<UsageWindow<U>>,
    pub seven_day_sonnet: Option<UsageWindow<U>>,
    pub seven_day_opus: Option<UsageWindow<U>>,
}

/// The one request that fetches the usage windows: a GET of `url` with the
/// two headers `AUTHORIZATION_HEADER` and `VERSION_HEADER`.
///
/// The request holds the bearer token in the clear, so it can be neither
/// printed nor copied: send it and drop it.
pub struct QuotaRequest {
    pub url: String,
    /// The value of the credential header.
    pub authorization: String,
    /// The value of the version header.
    pub api_version: String,
}

/// The request for a bearer token.
pub fn quota_request(token: &str) -> (request: QuotaRequest)
    ensures
        request.url@ == USAGE_URL@,
        request.authorization@ == BEARER_PREFIX@ + token@,
        request.api_version@ == API_VERSION@,
{
    let mut authorization = String::from_str(BEARER_PREFIX);
    authorization.append(token);
    QuotaRequest {
        url: String::from_str(USAGE_URL),
        authorization,
        api_version: String::from_str(API_VERSION),
    }
}

/// Why no usage windows could be had from the endpoint.
#[derive(Debug, Clone)]
pub enum QuotaError {
    /// The request brought no response; `cause` says why.
    Transport { cause: String },
    /// The endpoint answered with a status that is no success.
    HttpStatus { code: u16, body: String },
    /// The endpoint answered with success, but not with usage windows.
    DecodeError { detail: String },
}

/// What a `QuotaError` holds.
pub enum QuotaErrorView {
    Transport { cause: Seq<char> },
    HttpStatus { code: int, body: Seq<char> },
    DecodeError { detail: Seq<char> },
}

impl View for QuotaError {
    type V = QuotaErrorView;

    open spec fn view(&self) -> QuotaErrorView {
        match self {
            QuotaError::Transport { cause } => QuotaErrorView::Transport { cause: cause@ },
            QuotaError::HttpStatus { code, body } => QuotaErrorView::HttpStatus {
                code: *code as int,
                body: body@,
            },
            QuotaError::DecodeError { detail } => QuotaErrorView::DecodeError { detail: detail@ },
        }
    }
}

/// The line that the HTTP client prints for a status, the code followed by
/// its reason phrase; `None` where the client knows no status of that code.
pub uninterp spec fn status_line(code: int) -> Option<Seq<char>>;

/// Calls http's `StatusCode::from_u16` and the `Display` of `StatusCode`,
/// both through reqwest, which hands the type on.
///
/// Trusted: the line is a function of the code alone, and there is none
/// exactly where `from_u16` refuses the code.
#[verifier::external_body]
fn status_text(code: u16) -> (text: Option<String>)
    ensures
        match text {
            Some(line) => status_line(code as int) == Some(line@),
            None => status_line(code as int) is None,
        },
{
    let status = reqwest::StatusCode::from_u16(code).ok()?;
    Some(status.to_string())
}

/// How a status is shown: by the client's line for it, or by the bare code
/// where the client has none.
pub open spec fn status_shown(code: int) -> Seq<char> {
    match status_line(code) {
        Some(line) => line,
        None => decimal_text(code),
    }
}

impl QuotaErrorView {
    /// The text that shows the error.
    pub open spec fn message(self) -> Seq<char> {
        match self {
            QuotaErrorView::Transport { cause } => TRANSPORT_PREFIX@ + cause,
            QuotaErrorView::HttpStatus { code, body } => STATUS_PREFIX@ + status_shown(code)
                + STATUS_SEPARATOR@ + body,
            QuotaErrorView::DecodeError { detail } => DECODE_PREFIX@ + detail,
        }
    }

    /// Whether the endpoint refused the credential: status 401 or 403. No
    /// other failure says anything about the credential.
    pub open spec fn is_auth_failure(self) -> bool {
        self matches QuotaErrorView::HttpStatus { code, .. } && (code == 401 || code == 403)
    }
}

impl QuotaError {
    /// The text that shows the error.
    pub fn message(&self) -> (text: String)
        ensures
            text@ == self@.message(),
    {
        match self {
            QuotaError::Transport { cause } => {
                let mut text = String::from_str(TRANSPORT_PREFIX);
                text.append(cause.as_str());
                text
            },
            QuotaError::HttpStatus { code, body } => {
                let mut text = String::from_str(STATUS_PREFIX);
                let shown = match status_text(*code) {
                    Some(line) => line,
                    None => decimal(*code as i64),
                };
                text.append(shown.as_str());
                text.append(STATUS_SEPARATOR);
                text.append(body.as_str());
                text
            },
            QuotaError::DecodeError { detail } => {
                let mut text = String::from_str(DECODE_PREFIX);
                text.append(detail.as_str());
                text
            },
        }
    }

    /// Whether the endpoint refused the credential.
    pub fn is_auth_failure(&self) -> (refused: bool)
        ensures
            refused == self@.is_auth_failure(),
    {
        match self {
            QuotaError::HttpStatus { code, .. } => *code == 401 || *code == 403,
            _ => false,
        }
    }
}

/// Whether a status is one of success: 200 to 299.
pub open spec fn success_status(status: int) -> bool {
    200 <= status <= 299
}

/// Whether a status is one of success.
pub fn is_success(status: u16) -> (success: bool)
    ensures
        success == success_status(status as int),
{
    200 <= status && status <= 299
}

/// What to do with the body of a response.
#[derive(Debug, Clone, Copy, PartialEq, Eq)]
pub enum BodyPlan {
    /// Decode the body as usage windows.
    DecodeUsage,
    /// Read the body as the text that explains the refusal.
    ReadText,
}

/// What to do with the body of a response of the given status.
pub fn body_plan(status: u16) -> (plan: BodyPlan)
    ensures
        plan == if success_status(status as int) {
            BodyPlan::DecodeUsage
        } else {
            BodyPlan::ReadText
        },
{
    if is_success(status) {
        BodyPlan::DecodeUsage
    } else {
        BodyPlan::ReadText
    }
}

/// What one exchange with the endpoint came to.
#[derive(Debug, Clone)]
pub enum HttpReply<U> {
    /// The request brought no response.
    NoResponse { cause: String },
    /// A response whose body was read as text; `body` is `None` where it
    /// could not be read.
    Refused { status: u16, body: Option<String> },
    /// A response whose body did not decode as usage windows.
    Undecodable { detail: String },
    /// A response whose body decoded as usage windows.
    Usage(UsageApiResponse<U>),
}

/// The result of one attempt to fetch the usage windows: the windows, or
/// the error for the way in which the exchange failed. A refusal whose body
/// could not be read has the empty body.
pub fn fetch_usage_from_api<U>(reply: HttpReply<U>) -> (r: Result<UsageApiResponse<U>, QuotaError>)
    ensures
        match reply {
            HttpReply::NoResponse { cause } => r matches Err(e) && e@ == (QuotaErrorView::Transport {
                cause: cause@,
            }),
            HttpReply::Refused { status, body } => r matches Err(e) && e@
                == (QuotaErrorView::HttpStatus {
                code: status as int,
                body: match body {
                    Some(text) => text@,
                    None => Seq::<char>::empty(),
                },
            }),
            HttpReply::Undecodable { detail } => r matches Err(e) && e@
                == (QuotaErrorView::DecodeError { detail: detail@ }),
            HttpReply::Usage(usage) => r == Ok::<UsageApiResponse<U>, QuotaError>(usage),
        },
{
    match reply {
        HttpReply::NoResponse { cause } => Err(QuotaError::Transport { cause }),
        HttpReply::Refused { status, body } => {
            let body = match body {
                Some(text) => text,
                None => String::new(),
            };
            Err(QuotaError::HttpStatus { code: status, body })
        },
        HttpReply::Undecodable { detail } => Err(QuotaError::DecodeError { detail }),
        HttpReply::Usage(usage) => Ok(usage),
    }
}

} // verus!

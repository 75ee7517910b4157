//! Usage reporting for a desktop quota widget.
//!
//! The widget shows how much of a provider's rolling quota windows is used
//! up, beside token and message totals from a local activity log. This
//! library holds what is decided on the way: which credential a request
//! uses and when a cached one is dropped, what an exchange with the quota
//! endpoint came to, which entries of the log count for today and for the
//! trailing week, and what the widget is given when one half or the other
//! fails. Reading the credential store, the log file and the network is left
//! to the caller, who hands over what was read.
//!
//! A request runs in two steps around the caller's exchange with the
//! endpoint: `begin_request` yields the request to send or the reason why
//! there is none, and `get_usage_data` turns the outcome into the response.

pub mod activity;
pub mod aggregate;
pub mod calendar;
pub mod credential;
pub mod json;
pub mod quota;
pub mod session;
pub mod text;
pub mod widget;

pub use activity::DailyActivity;
pub use activity::DailyTokens;
pub use activity::LogRead;
pub use activity::ModelTokens;
pub use activity::StatsCache;
pub use aggregate::aggregate;
pub use aggregate::calculate_token_stats;
pub use aggregate::TokenStats;
pub use calendar::CalendarDate;
pub use credential::get_oauth_token_from_keychain;
pub use credential::CredentialError;
pub use credential::KeychainLookup;
pub use quota::fetch_usage_from_api;
pub use quota::HttpReply;
pub use quota::QuotaError;
pub use quota::QuotaRequest;
pub use quota::UsageApiResponse;
pub use quota::UsageWindow;
pub use session::SessionCache;
pub use widget::begin_request;
pub use widget::get_usage_data;
pub use widget::RemoteOutcome;
pub use widget::UsageMetric;
pub use widget::WidgetData;

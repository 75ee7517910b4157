//! Resolution of the bearer token from what the platform's credential store
//! handed out: the store's failures sorted by kind, the stored payload
//! decoded and the token found in it.

use vstd::prelude::*;
use vstd::string::StringExecFns;
use vstd::utf8::decode_utf8;
use vstd::utf8::valid_utf8;
use crate::json::json_document;
use crate::json::member_of;
use crate::json::parse_json;
use crate::json::text_of;
use crate::json::Json;
use crate::json::JsonView;
use crate::text::decimal;
use crate::text::decimal_text;
use crate::text::text_from_utf8;
use crate::text::utf8_error_text;

verus! {

/// The member of the stored document that holds the OAuth details.
pub const OAUTH_SECTION: &'static str = "claudeAiOauth";

/// The member of the OAuth details that holds the bearer token.
pub const ACCESS_TOKEN_FIELD: &'static str = "accessToken";

/// The store's status for an entry that does not exist.
pub const ITEM_NOT_FOUND: i32 = -25300;

/// The store's status where the user dismissed its prompt.
pub const USER_CANCELED: i32 = -128;

/// The store's status where it may not prompt for permission.
pub const INTERACTION_NOT_ALLOWED: i32 = -25308;

/// What stands before the product's name in the hint for a missing entry.
pub const NOT_FOUND_START: &'static str = "No credentials found in Keychain. Please sign in to ";

/// What stands after the product's name in the hint for a missing entry.
pub const NOT_FOUND_END: &'static str = " first.";

pub const CANCELLED_HINT: &'static str = "User cancelled Keychain access.";

pub const PERMISSION_HINT: &'static str = "Keychain item access requires permission.";

pub const STORE_FAILURE_PREFIX: &'static str = "Failed to access Keychain: ";

pub const STORE_FAILURE_CODE: &'static str = " (error code: ";

pub const STORE_FAILURE_END: &'static str = ")";

pub const INVALID_UTF8_PREFIX: &'static str = "Invalid UTF-8 in keychain data: ";

pub const PARSE_FAILURE_PREFIX: &'static str = "Failed to parse credentials JSON: ";

pub const NO_TOKEN_HINT: &'static str = "No OAuth token found in credentials";

pub const UNSUPPORTED_HINT: &'static str = "Keychain access is only supported on macOS";

/// Why no token could be had. Each kind carries a hint for the user.
#[derive(Debug, Clone)]
pub enum CredentialError {
    /// The store holds no credential.
    NotFound(String),
    /// The store did not hand the credential out.
    AccessDenied(String),
    /// The stored payload is not a document with a token in its place.
    Malformed(String),
    /// The platform has no credential store that this library reads.
    Unsupported(String),
}

/// What a `CredentialError` holds.
pub enum CredentialErrorView {
    NotFound(Seq<char>),
    AccessDenied(Seq<char>),
    Malformed(Seq<char>),
    Unsupported(Seq<char>),
}

impl View for CredentialError {
    type V = CredentialErrorView;

    open spec fn view(&self) -> CredentialErrorView {
        match self {
            CredentialError::NotFound(hint) => CredentialErrorView::NotFound(hint@),
            CredentialError::AccessDenied(hint) => CredentialErrorView::AccessDenied(hint@),
            CredentialError::Malformed(hint) => CredentialErrorView::Malformed(hint@),
            CredentialError::Unsupported(hint) => CredentialErrorView::Unsupported(hint@),
        }
    }
}

impl CredentialErrorView {
    /// The hint that the error carries.
    pub open spec fn hint(self) -> Seq<char> {
        match self {
            CredentialErrorView::NotFound(hint) => hint,
            CredentialErrorView::AccessDenied(hint) => hint,
            CredentialErrorView::Malformed(hint) => hint,
            CredentialErrorView::Unsupported(hint) => hint,
        }
    }
}

impl CredentialError {
    /// The hint that the error carries, as the text to show.
    pub fn message(&self) -> (text: String)
        ensures
            text@ == self@.hint(),
    {
        match self {
            CredentialError::NotFound(hint) => hint.clone(),
            CredentialError::AccessDenied(hint) => hint.clone(),
            CredentialError::Malformed(hint) => hint.clone(),
            CredentialError::Unsupported(hint) => hint.clone(),
        }
    }
}

/// What a lookup in the credential store came to.
#[derive(Debug, Clone)]
pub enum KeychainLookup {
    /// The entry's payload.
    Found(Vec<u8>),
    /// The store's status code and its own words for it.
    Failed { code: i32, message: String },
    /// The platform has no such store.
    Unsupported,
}

/// What a `KeychainLookup` holds.
pub enum KeychainLookupView {
    Found(Seq<u8>),
    Failed { code: int, message: Seq<char> },
    Unsupported,
}

impl View for KeychainLookup {
    type V = KeychainLookupView;

    open spec fn view(&self) -> KeychainLookupView {
        match self {
            KeychainLookup::Found(bytes) => KeychainLookupView::Found(bytes@),
            KeychainLookup::Failed { code, message } => KeychainLookupView::Failed {
                code: *code as int,
                message: message@,
            },
            KeychainLookup::Unsupported => KeychainLookupView::Unsupported,
        }
    }
}

/// The outcome of a resolution, by what it holds.
pub open spec fn resolution_view(r: Result<String, CredentialError>) -> Result<
    Seq<char>,
    CredentialErrorView,
> {
    match r {
        Ok(token) => Ok(token@),
        Err(error) => Err(error@),
    }
}

/// The error for a status of the store: a missing entry is `NotFound`, with
/// a hint that names `product`, the product to sign in to; every other
/// status is `AccessDenied`, with the store's own words and the code where
/// the status is none of the three that have a hint of their own.
pub open spec fn store_failure(
    code: int,
    message: Seq<char>,
    product: Seq<char>,
) -> CredentialErrorView {
    if code == ITEM_NOT_FOUND {
        CredentialErrorView::NotFound(NOT_FOUND_START@ + product + NOT_FOUND_END@)
    } else if code == USER_CANCELED {
        CredentialErrorView::AccessDenied(CANCELLED_HINT@)
    } else if code == INTERACTION_NOT_ALLOWED {
        CredentialErrorView::AccessDenied(PERMISSION_HINT@)
    } else {
        CredentialErrorView::AccessDenied(
            STORE_FAILURE_PREFIX@ + message + STORE_FAILURE_CODE@ + decimal_text(code)
                + STORE_FAILURE_END@,
        )
    }
}

/// The token of a stored document: the text at `claudeAiOauth.accessToken`.
/// A document without a text in that place is `Malformed`.
pub open spec fn token_in_document(doc: JsonView) -> Result<Seq<char>, CredentialErrorView> {
    match member_of(doc, OAUTH_SECTION@) {
        Some(section) => match member_of(section, ACCESS_TOKEN_FIELD@) {
            Some(field) => match text_of(field) {
                Some(token) => Ok(token),
                None => Err(CredentialErrorView::Malformed(NO_TOKEN_HINT@)),
            },
            None => Err(CredentialErrorView::Malformed(NO_TOKEN_HINT@)),
        },
        None => Err(CredentialErrorView::Malformed(NO_TOKEN_HINT@)),
    }
}

/// The token of a stored text: that of the document which the text stands
/// for. A text that stands for no document is `Malformed`, with the
/// reader's message.
pub open spec fn token_in_text(text: Seq<char>) -> Result<Seq<char>, CredentialErrorView> {
    match json_document(text) {
        Ok(doc) => token_in_document(doc),
        Err(detail) => Err(CredentialErrorView::Malformed(PARSE_FAILURE_PREFIX@ + detail)),
    }
}

/// The token that a lookup gives, or why it gives none. A payload that is
/// not valid UTF-8 is `Malformed`, with the decoder's reason.
pub open spec fn resolved_token(lookup: KeychainLookupView, product: Seq<char>) -> Result<
    Seq<char>,
    CredentialErrorView,
> {
    match lookup {
        KeychainLookupView::Found(bytes) => if valid_utf8(bytes) {
            token_in_text(decode_utf8(bytes))
        } else {
            Err(CredentialErrorView::Malformed(INVALID_UTF8_PREFIX@ + utf8_error_text(bytes)))
        },
        KeychainLookupView::Failed { code, message } => Err(
            store_failure(code, message, product),
        ),
        KeychainLookupView::Unsupported => Err(
            CredentialErrorView::Unsupported(UNSUPPORTED_HINT@),
        ),
    }
}

/// The error for a status code of the store and the store's words for it.
/// `product` is the name of the product that the user signs in to.
pub fn store_error(code: i32, message: &str, product: &str) -> (error: CredentialError)
    ensures
        error@ == store_failure(code as int, message@, product@),
{
    if code == ITEM_NOT_FOUND {
        let mut hint = String::from_str(NOT_FOUND_START);
        hint.append(product);
        hint.append(NOT_FOUND_END);
        CredentialError::NotFound(hint)
    } else if code == USER_CANCELED {
        CredentialError::AccessDenied(String::from_str(CANCELLED_HINT))
    } else if code == INTERACTION_NOT_ALLOWED {
        CredentialError::AccessDenied(String::from_str(PERMISSION_HINT))
    } else {
        let mut text = String::from_str(STORE_FAILURE_PREFIX);
        text.append(message);
        text.append(STORE_FAILURE_CODE);
        let digits = decimal(code as i64);
        text.append(digits.as_str());
        text.append(STORE_FAILURE_END);
        CredentialError::AccessDenied(text)
    }
}

/// Finds the token in a stored document.
pub fn token_from_document(doc: &Json) -> (r: Result<String, CredentialError>)
    ensures
        resolution_view(r) == token_in_document(doc@),
{
    let found = match doc.member(OAUTH_SECTION) {
        Some(section) => match section.member(ACCESS_TOKEN_FIELD) {
            Some(field) => field.as_text(),
            None => None,
        },
        None => None,
    };
    match found {
        Some(token) => Ok(token.clone()),
        None => Err(CredentialError::Malformed(String::from_str(NO_TOKEN_HINT))),
    }
}

/// Finds the token in a stored text.
pub fn token_from_text(text: &str) -> (r: Result<String, CredentialError>)
    ensures
        resolution_view(r) == token_in_text(text@),
{
    match parse_json(text) {
        Ok(doc) => token_from_document(&doc),
        Err(detail) => {
            let mut hint = String::from_str(PARSE_FAILURE_PREFIX);
            hint.append(detail.as_str());
            Err(CredentialError::Malformed(hint))
        },
    }
}

/// Resolves the bearer token from what the lookup of the credential entry
/// in the platform's store came to. `product` is the name of the product
/// that the user signs in to; the hint for a missing entry names it.
pub fn get_oauth_token_from_keychain(lookup: KeychainLookup, product: &str) -> (r: Result<
    String,
    CredentialError,
>)
    ensures
        resolution_view(r) == resolved_token(lookup@, product@),
{
    match lookup {
        KeychainLookup::Found(bytes) => match text_from_utf8(bytes) {
            Ok(text) => token_from_text(text.as_str()),
            Err(reason) => {
                let mut hint = String::from_str(INVALID_UTF8_PREFIX);
                hint.append(reason.as_str());
                Err(CredentialError::Malformed(hint))
            },
        },
        KeychainLookup::Failed { code, message } => Err(
            store_error(code, message.as_str(), product),
        ),
        KeychainLookup::Unsupported => Err(
            CredentialError::Unsupported(String::from_str(UNSUPPORTED_HINT)),
        ),
    }
}

/// The account under which the entry is kept: the user's name, from the
/// first of the two sources that has one, else the empty name.
pub fn keychain_account(user: Option<String>, logname: Option<String>) -> (account: String)
    ensures
        account@ == match (user, logname) {
            (Some(name), _) => name@,
            (None, Some(name)) => name@,
            (None, None) => Seq::<char>::empty(),
        },
{
    match user {
        Some(name) => name,
        None => match logname {
            Some(name) => name,
            None => String::new(),
        },
    }
}

} // verus!

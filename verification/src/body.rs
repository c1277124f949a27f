//! The body of a provider response: a JSON document of which a handful of
//! members are read, each of them optional.

use vstd::prelude::*;

verus! {

/// Trusted: `serde_json::Value`, any JSON value. Opaque here; it is read
/// through `member`, `as_text` and `as_number` alone.
#[verifier::external_type_specification]
#[verifier::external_body]
pub struct ExJsonValue(serde_json::Value);

/// The JSON value that a text is, or nothing where the text is not one JSON
/// value: what `serde_json::from_str` makes of it.
pub uninterp spec fn json_document(text: Seq<char>) -> Option<serde_json::Value>;

/// The member `name` of a JSON object; JSON null where the value is no object
/// or has no such member: what indexing a `serde_json::Value` by a string gives.
pub uninterp spec fn json_member(value: serde_json::Value, name: Seq<char>) -> serde_json::Value;

/// The text of a JSON string, nothing for any other value: `Value::as_str`.
pub uninterp spec fn json_text(value: serde_json::Value) -> Option<Seq<char>>;

/// The number that a JSON value is where it is an integer from 0 to
/// `u64::MAX`, nothing for any other value: `Value::as_u64`.
pub uninterp spec fn json_number(value: serde_json::Value) -> Option<u64>;

/// Trusted: `serde_json::from_str` at `serde_json::Value`. The result is
/// decided by the text alone; a text that is not JSON gives nothing (the
/// parser returns an error for it and does not panic).
#[verifier::external_body]
fn parse_document(text: &str) -> (document: Option<serde_json::Value>)
    ensures
        document == json_document(text@),
{
    serde_json::from_str::<serde_json::Value>(text).ok()
}

/// Trusted: `Index<&str>` of `serde_json::Value`, which never panics on a
/// shared value: it yields a reference to JSON null where there is nothing
/// under that name.
#[verifier::external_body]
fn member<'a>(value: &'a serde_json::Value, name: &str) -> (found: &'a serde_json::Value)
    ensures
        *found == json_member(*value, name@),
{
    &value[name]
}

/// Trusted: `serde_json::Value::as_str`, with the slice copied into a `String`.
#[verifier::external_body]
fn as_text(value: &serde_json::Value) -> (text: Option<String>)
    ensures
        text.deep_view() == json_text(*value),
{
    value.as_str().map(String::from)
}

/// Trusted: `serde_json::Value::as_u64`.
#[verifier::external_body]
fn as_number(value: &serde_json::Value) -> (number: Option<u64>)
    ensures
        number == json_number(*value),
{
    value.as_u64()
}

/// The members of a response body that this crate reads. A member that the
/// document does not have, or has with a value of another type, is `None`.
#[derive(Clone, Debug, PartialEq, Eq)]
pub struct ProviderBody {
    pub error: Option<String>,
    pub error_description: Option<String>,
    pub mfa_token: Option<String>,
    pub oob_code: Option<String>,
    pub binding_code: Option<String>,
    pub expires_in: Option<u64>,
    pub interval: Option<u64>,
}

pub ghost struct BodyView {
    pub error: Option<Seq<char>>,
    pub error_description: Option<Seq<char>>,
    pub mfa_token: Option<Seq<char>>,
    pub oob_code: Option<Seq<char>>,
    pub binding_code: Option<Seq<char>>,
    pub expires_in: Option<u64>,
    pub interval: Option<u64>,
}

/// The text, or the empty text where there is none.
pub open spec fn text_or_empty(text: Option<Seq<char>>) -> Seq<char> {
    match text {
        Some(t) => t,
        None => Seq::empty(),
    }
}

impl BodyView {
    /// What is read of a JSON document.
    pub open spec fn of(document: serde_json::Value) -> BodyView {
        BodyView {
            error: json_text(json_member(document, "error"@)),
            error_description: json_text(json_member(document, "error_description"@)),
            mfa_token: json_text(json_member(document, "mfa_token"@)),
            oob_code: json_text(json_member(document, "oob_code"@)),
            binding_code: json_text(json_member(document, "binding_code"@)),
            expires_in: json_number(json_member(document, "expires_in"@)),
            interval: json_number(json_member(document, "interval"@)),
        }
    }

    /// The error code; empty where the body names none.
    pub open spec fn error_code(self) -> Seq<char> {
        text_or_empty(self.error)
    }

    /// The provider's explanation of the error; empty where it gives none.
    pub open spec fn explanation(self) -> Seq<char> {
        text_or_empty(self.error_description)
    }

    /// The step-up token; empty where the body holds none.
    pub open spec fn step_up_token(self) -> Seq<char> {
        text_or_empty(self.mfa_token)
    }

    /// The out-of-band code; empty where the body holds none.
    pub open spec fn out_of_band_code(self) -> Seq<char> {
        text_or_empty(self.oob_code)
    }

    /// For how many seconds a push may be waited for; 0 where the body does
    /// not say.
    pub open spec fn lifetime(self) -> u64 {
        match self.expires_in {
            Some(seconds) => seconds,
            None => 0,
        }
    }

    /// How many seconds lie between two polls; 10 where the body does not say.
    pub open spec fn pause(self) -> u64 {
        match self.interval {
            Some(seconds) => seconds,
            None => 10,
        }
    }
}

impl View for ProviderBody {
    type V = BodyView;

    open spec fn view(&self) -> BodyView {
        BodyView {
            error: self.error.deep_view(),
            error_description: self.error_description.deep_view(),
            mfa_token: self.mfa_token.deep_view(),
            oob_code: self.oob_code.deep_view(),
            binding_code: self.binding_code.deep_view(),
            expires_in: self.expires_in,
            interval: self.interval,
        }
    }
}

/// A copy of an optional text, empty where there is none.
fn copy_or_empty(text: &Option<String>) -> (copy: String)
    ensures
        copy@ == text_or_empty(text.deep_view()),
{
    match text {
        Some(t) => t.clone(),
        None => String::new(),
    }
}

impl ProviderBody {
    /// A body none of whose members is present.
    pub fn empty() -> (body: ProviderBody)
        ensures
            body@ == (BodyView {
                error: None,
                error_description: None,
                mfa_token: None,
                oob_code: None,
                binding_code: None,
                expires_in: None,
                interval: None,
            }),
    {
        ProviderBody {
            error: None,
            error_description: None,
            mfa_token: None,
            oob_code: None,
            binding_code: None,
            expires_in: None,
            interval: None,
        }
    }

    /// Reads the members out of a parsed document. A document that is no
    /// object has none of them.
    pub fn from_document(document: &serde_json::Value) -> (body: ProviderBody)
        ensures
            body@ == BodyView::of(*document),
    {
        ProviderBody {
            error: as_text(member(document, "error")),
            error_description: as_text(member(document, "error_description")),
            mfa_token: as_text(member(document, "mfa_token")),
            oob_code: as_text(member(document, "oob_code")),
            binding_code: as_text(member(document, "binding_code")),
            expires_in: as_number(member(document, "expires_in")),
            interval: as_number(member(document, "interval")),
        }
    }

    /// Reads a response body. A text that is not JSON gives no body at all;
    /// any JSON value gives one.
    pub fn decode(text: &str) -> (body: Option<ProviderBody>)
        ensures
            body is Some <==> json_document(text@) is Some,
            body matches Some(b) ==> b@ == BodyView::of(json_document(text@)->0),
    {
        match parse_document(text) {
            Some(document) => Some(ProviderBody::from_document(&document)),
            None => None,
        }
    }

    pub fn error_code(&self) -> (code: String)
        ensures
            code@ == self@.error_code(),
    {
        copy_or_empty(&self.error)
    }

    pub fn explanation(&self) -> (text: String)
        ensures
            text@ == self@.explanation(),
    {
        copy_or_empty(&self.error_description)
    }

    pub fn step_up_token(&self) -> (token: String)
        ensures
            token@ == self@.step_up_token(),
    {
        copy_or_empty(&self.mfa_token)
    }

    pub fn out_of_band_code(&self) -> (code: String)
        ensures
            code@ == self@.out_of_band_code(),
    {
        copy_or_empty(&self.oob_code)
    }

    pub fn lifetime(&self) -> (seconds: u64)
        ensures
            seconds == self@.lifetime(),
    {
        match self.expires_in {
            Some(seconds) => seconds,
            None => 0,
        }
    }

    pub fn pause(&self) -> (seconds: u64)
        ensures
            seconds == self@.pause(),
    {
        match self.interval {
            Some(seconds) => seconds,
            None => 10,
        }
    }
}

} // verus!

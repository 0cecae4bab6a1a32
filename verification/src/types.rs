//! The request description and its parts.

use vstd::prelude::*;

verus! {

/// The method of a request.
#[derive(Debug, Clone, Copy, PartialEq, Eq, Structural)]
pub enum HttpMethod {
    GET,
    POST,
    PUT,
    DELETE,
    HEAD,
    OPTIONS,
    PATCH,
}

/// What the caller says the body is. `Unset` asks for no `Content-Type` header.
#[derive(Debug, Clone, Copy, PartialEq, Eq, Structural)]
pub enum ContentType {
    FormData,
    Text,
    JavaScript,
    Json,
    Html,
    Xml,
    Unset,
}

/// A key, a value and a switch: a request header, a query parameter, a
/// response header or a line of the debug list.
#[derive(Debug, Clone)]
pub struct KeyValue {
    pub key: String,
    pub value: String,
    pub enabled: bool,
}

/// A `KeyValue` as mathematics sees it.
pub struct KeyValueView {
    pub key: Seq<char>,
    pub value: Seq<char>,
    pub enabled: bool,
}

impl View for KeyValue {
    type V = KeyValueView;

    open spec fn view(&self) -> KeyValueView {
        KeyValueView { key: self.key@, value: self.value@, enabled: self.enabled }
    }
}

/// The views of a sequence of entries, in order.
pub open spec fn views_of(entries: Seq<KeyValue>) -> Seq<KeyValueView> {
    entries.map_values(|e: KeyValue| e@)
}

/// The views of an optional list of entries.
pub open spec fn optional_views(entries: Option<Vec<KeyValue>>) -> Option<Seq<KeyValueView>> {
    match entries {
        Some(v) => Some(views_of(v@)),
        None => None,
    }
}

impl KeyValue {
    /// An enabled entry.
    pub fn enabled(key: String, value: String) -> (e: KeyValue)
        ensures
            e@ == (KeyValueView { key: key@, value: value@, enabled: true }),
    {
        KeyValue { key, value, enabled: true }
    }
}

/// Who sent the request.
#[derive(Debug, Clone)]
pub struct IdentityData {
    pub tab_id: String,
}

/// One request as the caller describes it. The executor reads
/// `composed_url`, never `url`.
#[derive(Debug, Clone)]
pub struct RequestData {
    pub id: String,
    pub timestamp: u64,
    pub url: String,
    pub composed_url: String,
    pub method: HttpMethod,
    pub headers: Option<Vec<KeyValue>>,
    pub query: Option<Vec<KeyValue>>,
    pub content_type: Option<ContentType>,
    pub body: Option<String>,
    pub identity: Option<IdentityData>,
}

} // verus!

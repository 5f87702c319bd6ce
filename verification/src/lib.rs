//! Provider matching and response resolution for oEmbed 1.0.
//!
//! A catalog of providers is searched for the first endpoint whose URL
//! scheme accepts a resource URL; the endpoint is then asked, through a
//! transport that the caller supplies, for the metadata that describes how
//! the resource is embedded.

use vstd::prelude::*;
use crate::json::SyntaxReport;

pub mod catalog;
pub mod client;
pub mod json;
pub mod response;
pub mod scheme;
pub mod wire;

verus! {

/// What a transport reports when it cannot do its part.
#[derive(Clone, PartialEq, Eq, Hash, Debug)]
pub struct HttpError {
    pub message: String,
}

/// A member of a catalog entry or of a response, named as on the wire.
#[derive(Clone, Copy, PartialEq, Eq, Hash, Debug)]
pub enum Field {
    Type,
    Version,
    Title,
    AuthorName,
    AuthorUrl,
    ProviderName,
    ProviderUrl,
    CacheAge,
    ThumbnailUrl,
    ThumbnailWidth,
    ThumbnailHeight,
    Url,
    Html,
    Width,
    Height,
    Endpoints,
    Schemes,
    Formats,
    Discovery,
}

/// Why a JSON value is no catalog or no response.
#[derive(Clone, Copy, PartialEq, Eq, Hash, Debug)]
pub enum Flaw {
    /// A catalog that is not an array.
    NotAnArray,
    /// A response, a provider or an endpoint that is not an object.
    NotAnObject,
    /// A member that must be there is not.
    MissingField(Field),
    /// A member holds a value of the wrong kind, or a number out of range.
    InvalidField(Field),
    /// The `type` of a response is none of `photo`, `video`, `rich`, `link`.
    UnknownType,
}

/// Why a body could not be read.
#[derive(Clone, PartialEq, Eq, Hash, Debug)]
pub enum ParseDiagnostic {
    /// The body is not JSON: what the parser said, and where it stopped.
    Syntax(SyntaxReport),
    /// The body is JSON, but of the wrong shape.
    Shape(Flaw),
}

/// What went wrong while a resource was resolved.
#[derive(Clone, PartialEq, Eq, Hash, Debug)]
pub enum Error {
    /// The transport could not encode the resource URL.
    HttpUrlEncode(HttpError),
    /// The transport could not retrieve the request URL.
    HttpGet(HttpError),
    /// The body that came back could not be read.
    ParseError(ParseDiagnostic),
}

/// A site that offers embedding metadata.
#[derive(Clone, PartialEq, PartialOrd, Hash, Debug, Default)]
pub struct Provider {
    pub name: String,
    pub url: String,
    pub endpoints: Vec<Endpoint>,
}

/// One address of a provider, with the URL schemes it answers for.
#[derive(Clone, PartialEq, PartialOrd, Hash, Debug, Default)]
pub struct Endpoint {
    pub url: String,
    pub schemes: Option<Vec<String>>,
    pub formats: Option<Vec<String>>,
    /// Reserved.
    pub discovery: Option<bool>,
}

/// What an endpoint answers.
#[derive(Clone, PartialEq, PartialOrd, Hash, Debug)]
pub struct Response {
    pub response_type: ResponseType,
    pub version: String,
    pub title: Option<String>,
    pub author_name: Option<String>,
    pub author_url: Option<String>,
    pub provider_name: Option<String>,
    pub provider_url: Option<String>,
    pub cache_age: Option<String>,
    pub thumbnail_url: Option<String>,
    pub thumbnail_width: Option<i32>,
    pub thumbnail_height: Option<i32>,
}

/// The part of a response that depends on its `type`.
#[derive(Clone, Eq, PartialEq, Ord, PartialOrd, Hash, Debug)]
pub enum ResponseType {
    Photo { url: String, width: Option<i32>, height: Option<i32> },
    Video { html: String, width: Option<i32>, height: Option<i32> },
    Rich { html: String, width: Option<i32>, height: Option<i32> },
    Link,
}

/// The characters of an optional text.
pub open spec fn text_of(s: Option<String>) -> Option<Seq<char>> {
    match s {
        Some(t) => Some(t@),
        None => None,
    }
}

/// The characters of each text of a list.
pub open spec fn texts_of(list: Seq<String>) -> Seq<Seq<char>> {
    list.map_values(|t: String| t@)
}

/// The characters of each text of an optional list.
pub open spec fn text_list_of(list: Option<Vec<String>>) -> Option<Seq<Seq<char>>> {
    match list {
        Some(l) => Some(texts_of(l@)),
        None => None,
    }
}

/// An endpoint as plain values.
pub struct EndpointView {
    pub url: Seq<char>,
    pub schemes: Option<Seq<Seq<char>>>,
    pub formats: Option<Seq<Seq<char>>>,
    pub discovery: Option<bool>,
}

impl View for Endpoint {
    type V = EndpointView;

    open spec fn view(&self) -> EndpointView {
        EndpointView {
            url: self.url@,
            schemes: text_list_of(self.schemes),
            formats: text_list_of(self.formats),
            discovery: self.discovery,
        }
    }
}

/// The plain values of each endpoint of a list.
pub open spec fn endpoints_of(list: Seq<Endpoint>) -> Seq<EndpointView> {
    list.map_values(|e: Endpoint| e@)
}

/// A provider as plain values.
pub struct ProviderView {
    pub name: Seq<char>,
    pub url: Seq<char>,
    pub endpoints: Seq<EndpointView>,
}

impl View for Provider {
    type V = ProviderView;

    open spec fn view(&self) -> ProviderView {
        ProviderView {
            name: self.name@,
            url: self.url@,
            endpoints: endpoints_of(self.endpoints@),
        }
    }
}

/// The plain values of each provider of a list.
pub open spec fn providers_of(list: Seq<Provider>) -> Seq<ProviderView> {
    list.map_values(|p: Provider| p@)
}

/// The type-dependent part of a response as plain values.
pub enum ResponseTypeView {
    Photo { url: Seq<char>, width: Option<i32>, height: Option<i32> },
    Video { html: Seq<char>, width: Option<i32>, height: Option<i32> },
    Rich { html: Seq<char>, width: Option<i32>, height: Option<i32> },
    Link,
}

impl View for ResponseType {
    type V = ResponseTypeView;

    open spec fn view(&self) -> ResponseTypeView {
        match *self {
            ResponseType::Photo { url, width, height } => ResponseTypeView::Photo {
                url: url@,
                width,
                height,
            },
            ResponseType::Video { html, width, height } => ResponseTypeView::Video {
                html: html@,
                width,
                height,
            },
            ResponseType::Rich { html, width, height } => ResponseTypeView::Rich {
                html: html@,
                width,
                height,
            },
            ResponseType::Link => ResponseTypeView::Link,
        }
    }
}

/// A response as plain values.
pub struct ResponseView {
    pub response_type: ResponseTypeView,
    pub version: Seq<char>,
    pub title: Option<Seq<char>>,
    pub author_name: Option<Seq<char>>,
    pub author_url: Option<Seq<char>>,
    pub provider_name: Option<Seq<char>>,
    pub provider_url: Option<Seq<char>>,
    pub cache_age: Option<Seq<char>>,
    pub thumbnail_url: Option<Seq<char>>,
    pub thumbnail_width: Option<i32>,
    pub thumbnail_height: Option<i32>,
}

impl View for Response {
    type V = ResponseView;

    open spec fn view(&self) -> ResponseView {
        ResponseView {
            response_type: self.response_type@,
            version: self.version@,
            title: text_of(self.title),
            author_name: text_of(self.author_name),
            author_url: text_of(self.author_url),
            provider_name: text_of(self.provider_name),
            provider_url: text_of(self.provider_url),
            cache_age: text_of(self.cache_age),
            thumbnail_url: text_of(self.thumbnail_url),
            thumbnail_width: self.thumbnail_width,
            thumbnail_height: self.thumbnail_height,
        }
    }
}

} // verus!

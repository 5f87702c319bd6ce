//! The catalog of providers, and the lookup and fetch that run on it.

use vstd::prelude::*;
pub use crate::scheme::url_matches_scheme;
use crate::scheme::scheme_matches;
use crate::catalog::{decode_catalog, encode_catalog};
use crate::response::decode_response;
use crate::json::{text_tree, Json};
use crate::{
    providers_of, Endpoint, Error, HttpError, ParseDiagnostic, Provider, ProviderView, Response,
};

verus! {

/// What a transport hands back.
pub type HttpResult<T> = Result<T, HttpError>;

/// The transport that the caller supplies.
pub trait Http {
    /// Encodes a text so that it can stand as a value in a query.
    fn url_encode(&mut self, s: &str) -> HttpResult<String>;

    /// Retrieves the body of what is found at `url`.
    fn get(&mut self, url: &str) -> HttpResult<String>;
}

/// The providers that are known, in the order in which they are searched.
#[derive(Clone, PartialEq, PartialOrd, Hash, Debug, Default)]
pub struct Schema {
    providers: Vec<Provider>,
}

/// The endpoint that was found for a URL.
#[derive(Clone, PartialEq, PartialOrd, Hash, Debug)]
pub struct MatchedEndpoint<'a> {
    /// The provider that the endpoint belongs to.
    pub provider: &'a Provider,
    /// The endpoint.
    pub endpoint: &'a Endpoint,
    /// The scheme of the endpoint that accepted the URL.
    pub matched_scheme: &'a str,
}

/// Where a scheme stands in a catalog.
pub struct Place {
    pub provider: int,
    pub endpoint: int,
    pub scheme: int,
}

/// Whether `a` comes before `b` when the catalog is read provider by
/// provider, endpoint by endpoint and scheme by scheme.
pub open spec fn comes_before(a: Place, b: Place) -> bool {
    ||| a.provider < b.provider
    ||| a.provider == b.provider && a.endpoint < b.endpoint
    ||| a.provider == b.provider && a.endpoint == b.endpoint && a.scheme < b.scheme
}

/// Whether a scheme stands at `place`.
pub open spec fn in_catalog(catalog: Seq<ProviderView>, place: Place) -> bool {
    &&& 0 <= place.provider < catalog.len()
    &&& 0 <= place.endpoint < catalog[place.provider].endpoints.len()
    &&& catalog[place.provider].endpoints[place.endpoint].schemes is Some
    &&& 0 <= place.scheme < catalog[place.provider].endpoints[place.endpoint].schemes->Some_0.len()
}

/// The scheme that stands at `place`.
pub open spec fn scheme_at(catalog: Seq<ProviderView>, place: Place) -> Seq<char> {
    catalog[place.provider].endpoints[place.endpoint].schemes->Some_0[place.scheme]
}

/// Whether a scheme stands at `place` and accepts `url`.
pub open spec fn is_hit(catalog: Seq<ProviderView>, url: Seq<char>, place: Place) -> bool {
    in_catalog(catalog, place) && scheme_matches(url, scheme_at(catalog, place))
}

/// Whether the scheme at `place` accepts `url` and none before it does.
pub open spec fn is_first_hit(catalog: Seq<ProviderView>, url: Seq<char>, place: Place) -> bool {
    &&& is_hit(catalog, url, place)
    &&& forall|other: Place| #[trigger] is_hit(catalog, url, other) ==> !comes_before(other, place)
}

/// Whether no scheme of the catalog accepts `url`.
pub open spec fn no_hit(catalog: Seq<ProviderView>, url: Seq<char>) -> bool {
    forall|place: Place| !#[trigger] is_hit(catalog, url, place)
}

/// Whether the scheme at index `i` of a list accepts `url` and none before
/// it does.
pub open spec fn is_first_scheme(schemes: Seq<Seq<char>>, url: Seq<char>, i: int) -> bool {
    &&& 0 <= i < schemes.len()
    &&& scheme_matches(url, schemes[i])
    &&& forall|j: int| 0 <= j < i ==> !scheme_matches(url, #[trigger] schemes[j])
}

/// Whether no scheme of an endpoint accepts `url`. An endpoint without a
/// list of schemes accepts nothing.
pub open spec fn no_scheme(schemes: Option<Seq<Seq<char>>>, url: Seq<char>) -> bool {
    schemes matches Some(list) ==> forall|j: int|
        0 <= j < list.len() ==> !scheme_matches(url, #[trigger] list[j])
}

impl Endpoint {
    /// Finds the first scheme of the endpoint that accepts `url`.
    pub fn match_url_scheme(&self, url: &str) -> (found: Option<&str>)
        ensures
            match found {
                Some(scheme) => self@.schemes is Some && exists|i: int|
                    is_first_scheme(self@.schemes->Some_0, url@, i) && scheme@
                        == self@.schemes->Some_0[i],
                None => no_scheme(self@.schemes, url@),
            },
    {
        match &self.schemes {
            None => None,
            Some(schemes) => {
                let ghost list = crate::texts_of(schemes@);
                let mut i: usize = 0;
                while i < schemes.len()
                    invariant
                        i <= schemes.len(),
                        list == crate::texts_of(schemes@),
                        self@.schemes == Some(list),
                        forall|j: int| 0 <= j < i ==> !scheme_matches(url@, #[trigger] list[j]),
                    decreases schemes.len() - i,
                {
                    assert(list[i as int] == schemes@[i as int]@);
                    if url_matches_scheme(url, schemes[i].as_str()) {
                        let scheme = schemes[i].as_str();
                        assert(is_first_scheme(self@.schemes->Some_0, url@, i as int) && scheme@
                            == self@.schemes->Some_0[i as int]);
                        return Some(scheme);
                    }
                    i = i + 1;
                }
                None
            },
        }
    }
}

impl View for Schema {
    type V = Seq<ProviderView>;

    closed spec fn view(&self) -> Seq<ProviderView> {
        providers_of(self.providers@)
    }
}

/// Whether `found` names the provider, the endpoint and the scheme that
/// stand at `place`.
pub open spec fn points_at(found: MatchedEndpoint, catalog: Seq<ProviderView>, place: Place) -> bool {
    &&& found.provider@ == catalog[place.provider]
    &&& found.endpoint@ == catalog[place.provider].endpoints[place.endpoint]
    &&& found.matched_scheme@ == scheme_at(catalog, place)
}

/// Whether a reply body reads as `outcome`: a body that is not JSON gives a
/// syntax diagnostic, one that is JSON gives the response it stands for, or
/// the flaw that keeps it from standing for one.
pub open spec fn reads_as_response(body: Seq<char>, outcome: Result<Response, Error>) -> bool {
    match text_tree(body) {
        None => outcome matches Err(Error::ParseError(ParseDiagnostic::Syntax(_))),
        Some(tree) => match decode_response(tree) {
            Ok(response) => outcome matches Ok(r) && r@ == response,
            Err(flaw) => outcome == Err::<Response, Error>(
                Error::ParseError(ParseDiagnostic::Shape(flaw)),
            ),
        },
    }
}

/// Whether a reply body reads as `outcome`, where a catalog is expected.
pub open spec fn reads_as_catalog(body: Seq<char>, outcome: Result<Schema, Error>) -> bool {
    match text_tree(body) {
        None => outcome matches Err(Error::ParseError(ParseDiagnostic::Syntax(_))),
        Some(tree) => match decode_catalog(tree) {
            Ok(catalog) => outcome matches Ok(schema) && schema@ == catalog,
            Err(flaw) => outcome == Err::<Schema, Error>(
                Error::ParseError(ParseDiagnostic::Shape(flaw)),
            ),
        },
    }
}

/// The address of the catalog that the oEmbed site publishes.
pub const LATEST_CATALOG: &'static str = "https://oembed.com/providers.json";

impl Response {
    /// Reads a response from the body of a reply.
    pub fn from_json_str(body: &str) -> (r: Result<Response, Error>)
        ensures
            reads_as_response(body@, r),
    {
        match Json::parse(body) {
            Err(report) => Err(Error::ParseError(ParseDiagnostic::Syntax(report))),
            Ok(json) => match Response::from_json(&json) {
                Ok(response) => Ok(response),
                Err(flaw) => Err(Error::ParseError(ParseDiagnostic::Shape(flaw))),
            },
        }
    }

    /// Turns what the transport handed back for a request into a response.
    pub fn from_reply(reply: HttpResult<String>) -> (r: Result<Response, Error>)
        ensures
            match reply {
                Err(e) => r == Err::<Response, Error>(Error::HttpGet(e)),
                Ok(body) => reads_as_response(body@, r),
            },
    {
        match reply {
            Err(e) => Err(Error::HttpGet(e)),
            Ok(body) => Response::from_json_str(body.as_str()),
        }
    }
}

impl Endpoint {
    /// The address that is asked for the metadata of a resource, given the
    /// encoded URL of the resource.
    pub fn request_url(&self, encoded: &str) -> (request: String)
        ensures
            request@ == self.url@ + "?format=json&url="@ + encoded@,
    {
        let mut request = self.url.clone();
        request.append("?format=json&url=");
        request.append(encoded);
        request
    }

    /// Asks the endpoint for the metadata of the resource at `url`.
    ///
    /// The transport encodes `url`, the encoded text is put into the request
    /// address as it is, and the transport retrieves that address. Whatever
    /// the transport does, the outcome is its failure to encode, its failure
    /// to retrieve, or what some body reads as.
    pub fn fetch(&self, http: &mut impl Http, url: &str) -> (r: Result<Response, Error>)
        ensures
            r matches Err(Error::HttpUrlEncode(_)) || r matches Err(Error::HttpGet(_)) || exists|
                body: Seq<char>,
            | reads_as_response(body, r),
    {
        let encoded = match http.url_encode(url) {
            Ok(encoded) => encoded,
            Err(e) => { return Err(Error::HttpUrlEncode(e)); },
        };
        let request = self.request_url(encoded.as_str());
        let reply = http.get(request.as_str());
        Response::from_reply(reply)
    }
}

impl Schema {
    /// A catalog of the given providers, in their order.
    pub fn new(providers: Vec<Provider>) -> (schema: Schema)
        ensures
            schema@ == providers_of(providers@),
    {
        Schema { providers }
    }

    /// The providers of the catalog, in their order.
    pub fn providers(&self) -> (providers: &Vec<Provider>)
        ensures
            providers_of(providers@) == self@,
    {
        &self.providers
    }

    /// Writes the catalog as a JSON value.
    pub fn to_json(&self) -> (json: Json)
        ensures
            json@ == encode_catalog(self@),
    {
        Provider::catalog_to_json(&self.providers)
    }

    /// Reads a catalog from a JSON text.
    pub fn from_json_str(body: &str) -> (r: Result<Schema, Error>)
        ensures
            reads_as_catalog(body@, r),
    {
        match Json::parse(body) {
            Err(report) => Err(Error::ParseError(ParseDiagnostic::Syntax(report))),
            Ok(json) => match Provider::catalog_from_json(&json) {
                Ok(providers) => Ok(Schema { providers }),
                Err(flaw) => Err(Error::ParseError(ParseDiagnostic::Shape(flaw))),
            },
        }
    }

    /// Turns what the transport handed back for a catalog into a catalog.
    pub fn from_reply(reply: HttpResult<String>) -> (r: Result<Schema, Error>)
        ensures
            match reply {
                Err(e) => r == Err::<Schema, Error>(Error::HttpGet(e)),
                Ok(body) => reads_as_catalog(body@, r),
            },
    {
        match reply {
            Err(e) => Err(Error::HttpGet(e)),
            Ok(body) => Schema::from_json_str(body.as_str()),
        }
    }

    /// Retrieves the catalog that the oEmbed site publishes.
    pub fn fetch_latest(http: &mut impl Http) -> (r: Result<Schema, Error>)
        ensures
            r matches Err(Error::HttpGet(_)) || exists|body: Seq<char>| reads_as_catalog(body, r),
    {
        Schema::fetch_from_url(http, LATEST_CATALOG)
    }

    /// Retrieves a catalog from `url`.
    pub fn fetch_from_url(http: &mut impl Http, url: &str) -> (r: Result<Schema, Error>)
        ensures
            r matches Err(Error::HttpGet(_)) || exists|body: Seq<char>| reads_as_catalog(body, r),
    {
        let reply = http.get(url);
        Schema::from_reply(reply)
    }

    /// Finds the first endpoint with a scheme that accepts `url`: providers
    /// are searched in their order, the endpoints of each in theirs, and the
    /// schemes of each endpoint in theirs.
    pub fn match_endpoint(&self, url: &str) -> (found: Option<MatchedEndpoint<'_>>)
        ensures
            match found {
                Some(m) => exists|place: Place|
                    is_first_hit(self@, url@, place) && points_at(m, self@, place),
                None => no_hit(self@, url@),
            },
    {
        let ghost catalog = self@;
        let mut p: usize = 0;
        while p < self.providers.len()
            invariant
                p <= self.providers.len(),
                catalog == providers_of(self.providers@),
                catalog == self@,
                forall|place: Place|
                    place.provider < p ==> !#[trigger] is_hit(catalog, url@, place),
            decreases self.providers.len() - p,
        {
            let provider = &self.providers[p];
            assert(catalog[p as int] == provider@);
            let ghost endpoints = crate::endpoints_of(provider.endpoints@);
            let mut e: usize = 0;
            while e < provider.endpoints.len()
                invariant
                    p < self.providers.len(),
                    e <= provider.endpoints.len(),
                    catalog == self@,
                    catalog == providers_of(self.providers@),
                    *provider == self.providers@[p as int],
                    catalog[p as int] == provider@,
                    endpoints == crate::endpoints_of(provider.endpoints@),
                    endpoints == catalog[p as int].endpoints,
                    forall|place: Place|
                        place.provider < p ==> !#[trigger] is_hit(catalog, url@, place),
                    forall|place: Place|
                        place.provider == p && place.endpoint < e ==> !#[trigger] is_hit(
                            catalog,
                            url@,
                            place,
                        ),
                decreases provider.endpoints.len() - e,
            {
                let endpoint = &provider.endpoints[e];
                assert(endpoints[e as int] == endpoint@);
                match endpoint.match_url_scheme(url) {
                    Some(matched_scheme) => {
                        let found = MatchedEndpoint { provider, endpoint, matched_scheme };
                        proof {
                            let list = endpoint@.schemes->Some_0;
                            let s = choose|i: int|
                                is_first_scheme(list, url@, i) && matched_scheme@ == list[i];
                            let place = Place { provider: p as int, endpoint: e as int, scheme: s };
                            assert(is_hit(catalog, url@, place));
                            assert forall|other: Place| #[trigger]
                                is_hit(catalog, url@, other) implies !comes_before(other, place) by {
                                if other.provider == p && other.endpoint == e && other.scheme < s {
                                    assert(!scheme_matches(url@, list[other.scheme]));
                                }
                            }
                            assert(is_first_hit(catalog, url@, place) && points_at(
                                found,
                                catalog,
                                place,
                            ));
                        }
                        return Some(found);
                    },
                    None => {},
                }
                e = e + 1;
            }
            p = p + 1;
        }
        None
    }

    /// Asks the first endpoint with a scheme that accepts `url` for the
    /// metadata of the resource. Where no scheme accepts `url` nothing is
    /// asked, and there is no result.
    pub fn fetch(&self, http: &mut impl Http, url: &str) -> (r: Option<Result<Response, Error>>)
        ensures
            r is None <==> no_hit(self@, url@),
            r matches Some(outcome) ==> (outcome matches Err(Error::HttpUrlEncode(_))
                || outcome matches Err(Error::HttpGet(_)) || exists|body: Seq<char>|
                reads_as_response(body, outcome)),
    {
        match self.match_endpoint(url) {
            Some(m) => Some(m.endpoint.fetch(http, url)),
            None => None,
        }
    }
}

/// Whether some scheme of some endpoint of `provider` accepts `url`.
pub open spec fn provider_accepts(provider: ProviderView, url: Seq<char>) -> bool {
    exists|e: int, s: int|
        {
            &&& 0 <= e < provider.endpoints.len()
            &&& provider.endpoints[e].schemes is Some
            &&& 0 <= s < provider.endpoints[e].schemes->Some_0.len()
            &&& scheme_matches(url, #[trigger] provider.endpoints[e].schemes->Some_0[s])
        }
}

/// A lookup has one answer: two places that are both the first to accept a
/// URL are one place.
pub proof fn lemma_first_hit_unique(catalog: Seq<ProviderView>, url: Seq<char>, a: Place, b: Place)
    requires
        is_first_hit(catalog, url, a),
        is_first_hit(catalog, url, b),
    ensures
        a == b,
{
    assert(!comes_before(a, b));
    assert(!comes_before(b, a));
}

/// The place that a lookup finds lies in no later provider than any
/// provider that accepts the URL.
pub proof fn lemma_earliest_provider(
    catalog: Seq<ProviderView>,
    url: Seq<char>,
    found: Place,
    p: int,
)
    requires
        is_first_hit(catalog, url, found),
        0 <= p < catalog.len(),
        provider_accepts(catalog[p], url),
    ensures
        found.provider <= p,
{
    let (e, s) = choose|e: int, s: int|
        {
            &&& 0 <= e < catalog[p].endpoints.len()
            &&& catalog[p].endpoints[e].schemes is Some
            &&& 0 <= s < catalog[p].endpoints[e].schemes->Some_0.len()
            &&& scheme_matches(url, #[trigger] catalog[p].endpoints[e].schemes->Some_0[s])
        };
    let other = Place { provider: p, endpoint: e, scheme: s };
    assert(is_hit(catalog, url, other));
}

/// Where two providers both accept a URL, the one that stands first in the
/// catalog is found, so that the catalog in the other order gives the other
/// provider.
pub proof fn lemma_catalog_order_decides(
    a: ProviderView,
    b: ProviderView,
    url: Seq<char>,
    found: Place,
)
    requires
        provider_accepts(a, url),
        provider_accepts(b, url),
    ensures
        is_first_hit(seq![a, b], url, found) ==> seq![a, b][found.provider] == a,
        is_first_hit(seq![b, a], url, found) ==> seq![b, a][found.provider] == b,
{
    if is_first_hit(seq![a, b], url, found) {
        lemma_earliest_provider(seq![a, b], url, found, 0);
    }
    if is_first_hit(seq![b, a], url, found) {
        lemma_earliest_provider(seq![b, a], url, found, 0);
    }
}

} // verus!

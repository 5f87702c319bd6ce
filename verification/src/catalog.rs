//! How a catalog is written as a JSON value, and read back.
//!
//! A catalog is an array of providers; a provider is an object with its
//! name, its address and its endpoints; an endpoint is an object with its
//! address and, where it has them, its schemes, its formats and a mark for
//! discovery.

use vstd::prelude::*;
use crate::json::{Json, JsonTree, Member};
use crate::wire::{
    entry, field_name, find_member, flag_value, keyed_by, lemma_array_view, lemma_keyed_lookup,
    lemma_object_view, lemma_texts_round_trip, make_entry, make_optional_flag,
    make_optional_texts, make_text, member, members_of, optional_flag, optional_texts,
    read_optional_flag, read_optional_texts, read_required_text, required_text, texts_value,
    trees_of, Members,
};
use crate::{Endpoint, EndpointView, Field, Flaw, Provider, ProviderView};

verus! {

/// The first member of an endpoint that is at fault, in the order `url`,
/// `schemes`, `formats`, `discovery`.
pub open spec fn endpoint_flaw(m: Members) -> Option<Flaw> {
    if required_text(m, Field::Url) is Err {
        Some(required_text(m, Field::Url)->Err_0)
    } else if optional_texts(m, Field::Schemes) is Err {
        Some(optional_texts(m, Field::Schemes)->Err_0)
    } else if optional_texts(m, Field::Formats) is Err {
        Some(optional_texts(m, Field::Formats)->Err_0)
    } else if optional_flag(m, Field::Discovery) is Err {
        Some(optional_flag(m, Field::Discovery)->Err_0)
    } else {
        None
    }
}

/// The endpoint that a JSON value stands for, or why it stands for none.
pub open spec fn decode_endpoint(tree: JsonTree) -> Result<EndpointView, Flaw> {
    match tree {
        JsonTree::Object(m) => match endpoint_flaw(m) {
            Some(f) => Err(f),
            None => Ok(
                EndpointView {
                    url: required_text(m, Field::Url)->Ok_0,
                    schemes: optional_texts(m, Field::Schemes)->Ok_0,
                    formats: optional_texts(m, Field::Formats)->Ok_0,
                    discovery: optional_flag(m, Field::Discovery)->Ok_0,
                },
            ),
        },
        _ => Err(Flaw::NotAnObject),
    }
}

/// The endpoints that a list of JSON values stands for, or what is wrong
/// with the first item that stands for none.
pub open spec fn decode_endpoints(items: Seq<JsonTree>) -> Result<Seq<EndpointView>, Flaw>
    decreases items.len(),
{
    if items.len() == 0 {
        Ok(Seq::empty())
    } else {
        match decode_endpoints(items.drop_last()) {
            Err(f) => Err(f),
            Ok(front) => match decode_endpoint(items.last()) {
                Err(f) => Err(f),
                Ok(e) => Ok(front.push(e)),
            },
        }
    }
}

/// An item that stands for no endpoint spoils every list that it opens.
pub proof fn lemma_endpoints_fail(items: Seq<JsonTree>, n: int)
    requires
        0 <= n <= items.len(),
        decode_endpoints(items.take(n)) is Err,
    ensures
        decode_endpoints(items) == decode_endpoints(items.take(n)),
    decreases items.len(),
{
    if n < items.len() {
        assert(items.drop_last().take(n) =~= items.take(n));
        lemma_endpoints_fail(items.drop_last(), n);
    } else {
        assert(items.take(n) =~= items);
    }
}

impl Endpoint {
    /// Reads an endpoint from a JSON value.
    pub fn from_json(json: &Json) -> (r: Result<Endpoint, Flaw>)
        ensures
            match r {
                Ok(endpoint) => decode_endpoint(json@) == Ok::<EndpointView, Flaw>(endpoint@),
                Err(f) => decode_endpoint(json@) == Err::<EndpointView, Flaw>(f),
            },
    {
        let members = match json {
            Json::Object(members) => members,
            _ => { return Err(Flaw::NotAnObject); },
        };
        proof {
            lemma_object_view(*json);
        }
        let url = match read_required_text(members, Field::Url) {
            Ok(v) => v,
            Err(f) => { return Err(f); },
        };
        let schemes = match read_optional_texts(members, Field::Schemes) {
            Ok(v) => v,
            Err(f) => { return Err(f); },
        };
        let formats = match read_optional_texts(members, Field::Formats) {
            Ok(v) => v,
            Err(f) => { return Err(f); },
        };
        let discovery = match read_optional_flag(members, Field::Discovery) {
            Ok(v) => v,
            Err(f) => { return Err(f); },
        };
        Ok(Endpoint { url, schemes, formats, discovery })
    }

    /// Reads a list of endpoints from a list of JSON values.
    pub fn list_from_json(items: &Vec<Json>) -> (r: Result<Vec<Endpoint>, Flaw>)
        ensures
            match r {
                Ok(list) => decode_endpoints(trees_of(items@)) == Ok::<Seq<EndpointView>, Flaw>(
                    crate::endpoints_of(list@),
                ),
                Err(f) => decode_endpoints(trees_of(items@)) == Err::<Seq<EndpointView>, Flaw>(f),
            },
    {
        let ghost trees = trees_of(items@);
        let mut out: Vec<Endpoint> = Vec::new();
        let mut i: usize = 0;
        assert(crate::endpoints_of(out@) =~= Seq::empty());
        while i < items.len()
            invariant
                i <= items.len(),
                trees == trees_of(items@),
                decode_endpoints(trees.take(i as int)) == Ok::<Seq<EndpointView>, Flaw>(
                    crate::endpoints_of(out@),
                ),
            decreases items.len() - i,
        {
            let ghost before = crate::endpoints_of(out@);
            proof {
                let next = trees.take(i + 1);
                assert(next.drop_last() =~= trees.take(i as int));
                assert(next.last() == items@[i as int]@);
            }
            match Endpoint::from_json(&items[i]) {
                Ok(endpoint) => {
                    out.push(endpoint);
                    assert(crate::endpoints_of(out@) =~= before.push(endpoint@));
                },
                Err(f) => {
                    proof {
                        lemma_endpoints_fail(trees, i + 1);
                    }
                    return Err(f);
                },
            }
            i = i + 1;
        }
        assert(trees.take(i as int) =~= trees);
        Ok(out)
    }
}

/// What the members of a provider say of its endpoints.
pub open spec fn required_endpoints(m: Members) -> Result<Seq<EndpointView>, Flaw> {
    match member(m, field_name(Field::Endpoints)) {
        None => Err(Flaw::MissingField(Field::Endpoints)),
        Some(JsonTree::Array(items)) => decode_endpoints(items),
        Some(_) => Err(Flaw::InvalidField(Field::Endpoints)),
    }
}

/// The provider that a JSON value stands for, or why it stands for none.
/// The first member that is at fault decides, in the order `provider_name`,
/// `provider_url`, `endpoints`.
pub open spec fn decode_provider(tree: JsonTree) -> Result<ProviderView, Flaw> {
    match tree {
        JsonTree::Object(m) => if required_text(m, Field::ProviderName) is Err {
            Err(required_text(m, Field::ProviderName)->Err_0)
        } else if required_text(m, Field::ProviderUrl) is Err {
            Err(required_text(m, Field::ProviderUrl)->Err_0)
        } else if required_endpoints(m) is Err {
            Err(required_endpoints(m)->Err_0)
        } else {
            Ok(
                ProviderView {
                    name: required_text(m, Field::ProviderName)->Ok_0,
                    url: required_text(m, Field::ProviderUrl)->Ok_0,
                    endpoints: required_endpoints(m)->Ok_0,
                },
            )
        },
        _ => Err(Flaw::NotAnObject),
    }
}

/// The providers that a list of JSON values stands for, or what is wrong
/// with the first item that stands for none.
pub open spec fn decode_providers(items: Seq<JsonTree>) -> Result<Seq<ProviderView>, Flaw>
    decreases items.len(),
{
    if items.len() == 0 {
        Ok(Seq::empty())
    } else {
        match decode_providers(items.drop_last()) {
            Err(f) => Err(f),
            Ok(front) => match decode_provider(items.last()) {
                Err(f) => Err(f),
                Ok(p) => Ok(front.push(p)),
            },
        }
    }
}

/// The catalog that a JSON value stands for, or why it stands for none.
pub open spec fn decode_catalog(tree: JsonTree) -> Result<Seq<ProviderView>, Flaw> {
    match tree {
        JsonTree::Array(items) => decode_providers(items),
        _ => Err(Flaw::NotAnArray),
    }
}

/// An item that stands for no provider spoils every list that it opens.
pub proof fn lemma_providers_fail(items: Seq<JsonTree>, n: int)
    requires
        0 <= n <= items.len(),
        decode_providers(items.take(n)) is Err,
    ensures
        decode_providers(items) == decode_providers(items.take(n)),
    decreases items.len(),
{
    if n < items.len() {
        assert(items.drop_last().take(n) =~= items.take(n));
        lemma_providers_fail(items.drop_last(), n);
    } else {
        assert(items.take(n) =~= items);
    }
}

impl Provider {
    /// Reads a provider from a JSON value.
    pub fn from_json(json: &Json) -> (r: Result<Provider, Flaw>)
        ensures
            match r {
                Ok(provider) => decode_provider(json@) == Ok::<ProviderView, Flaw>(provider@),
                Err(f) => decode_provider(json@) == Err::<ProviderView, Flaw>(f),
            },
    {
        let members = match json {
            Json::Object(members) => members,
            _ => { return Err(Flaw::NotAnObject); },
        };
        proof {
            lemma_object_view(*json);
        }
        let name = match read_required_text(members, Field::ProviderName) {
            Ok(v) => v,
            Err(f) => { return Err(f); },
        };
        let url = match read_required_text(members, Field::ProviderUrl) {
            Ok(v) => v,
            Err(f) => { return Err(f); },
        };
        let endpoints = match find_member(members, Field::Endpoints.name()) {
            None => { return Err(Flaw::MissingField(Field::Endpoints)); },
            Some(Json::Array(items)) => {
                proof {
                    lemma_array_view(Json::Array(*items));
                }
                match Endpoint::list_from_json(items) {
                    Ok(v) => v,
                    Err(f) => { return Err(f); },
                }
            },
            Some(_) => { return Err(Flaw::InvalidField(Field::Endpoints)); },
        };
        Ok(Provider { name, url, endpoints })
    }

    /// Reads a catalog from a JSON value.
    pub fn catalog_from_json(json: &Json) -> (r: Result<Vec<Provider>, Flaw>)
        ensures
            match r {
                Ok(list) => decode_catalog(json@) == Ok::<Seq<ProviderView>, Flaw>(
                    crate::providers_of(list@),
                ),
                Err(f) => decode_catalog(json@) == Err::<Seq<ProviderView>, Flaw>(f),
            },
    {
        let items = match json {
            Json::Array(items) => items,
            _ => { return Err(Flaw::NotAnArray); },
        };
        proof {
            lemma_array_view(*json);
        }
        let ghost trees = trees_of(items@);
        let mut out: Vec<Provider> = Vec::new();
        let mut i: usize = 0;
        assert(crate::providers_of(out@) =~= Seq::empty());
        while i < items.len()
            invariant
                i <= items.len(),
                trees == trees_of(items@),
                json@ == JsonTree::Array(trees),
                decode_providers(trees.take(i as int)) == Ok::<Seq<ProviderView>, Flaw>(
                    crate::providers_of(out@),
                ),
            decreases items.len() - i,
        {
            let ghost before = crate::providers_of(out@);
            proof {
                let next = trees.take(i + 1);
                assert(next.drop_last() =~= trees.take(i as int));
                assert(next.last() == items@[i as int]@);
            }
            match Provider::from_json(&items[i]) {
                Ok(provider) => {
                    out.push(provider);
                    assert(crate::providers_of(out@) =~= before.push(provider@));
                },
                Err(f) => {
                    proof {
                        lemma_providers_fail(trees, i + 1);
                    }
                    return Err(f);
                },
            }
            i = i + 1;
        }
        assert(trees.take(i as int) =~= trees);
        Ok(out)
    }
}

/// An endpoint as a JSON value.
pub open spec fn encode_endpoint(e: EndpointView) -> JsonTree {
    JsonTree::Object(
        seq![
            entry(Field::Url, JsonTree::Text(e.url)),
            entry(Field::Schemes, texts_value(e.schemes)),
            entry(Field::Formats, texts_value(e.formats)),
            entry(Field::Discovery, flag_value(e.discovery)),
        ],
    )
}

/// Each endpoint of a list as a JSON value.
pub open spec fn encode_endpoints(list: Seq<EndpointView>) -> Seq<JsonTree> {
    Seq::new(list.len(), |i: int| encode_endpoint(list[i]))
}

/// A provider as a JSON value.
pub open spec fn encode_provider(p: ProviderView) -> JsonTree {
    JsonTree::Object(
        seq![
            entry(Field::ProviderName, JsonTree::Text(p.name)),
            entry(Field::ProviderUrl, JsonTree::Text(p.url)),
            entry(Field::Endpoints, JsonTree::Array(encode_endpoints(p.endpoints))),
        ],
    )
}

/// Each provider of a list as a JSON value.
pub open spec fn encode_providers(list: Seq<ProviderView>) -> Seq<JsonTree> {
    Seq::new(list.len(), |i: int| encode_provider(list[i]))
}

/// A catalog as a JSON value.
pub open spec fn encode_catalog(catalog: Seq<ProviderView>) -> JsonTree {
    JsonTree::Array(encode_providers(catalog))
}

impl Endpoint {
    /// Writes the endpoint as a JSON value.
    pub fn to_json(&self) -> (json: Json)
        ensures
            json@ == encode_endpoint(self@),
    {
        let mut out: Vec<Member> = Vec::new();
        out.push(make_entry(Field::Url, make_text(&self.url)));
        out.push(make_entry(Field::Schemes, make_optional_texts(&self.schemes)));
        out.push(make_entry(Field::Formats, make_optional_texts(&self.formats)));
        out.push(make_entry(Field::Discovery, make_optional_flag(self.discovery)));
        let json = Json::Object(out);
        proof {
            lemma_object_view(json);
            assert(members_of(out@) =~= encode_endpoint(self@)->Object_0);
        }
        json
    }
}

impl Provider {
    /// Writes the provider as a JSON value.
    pub fn to_json(&self) -> (json: Json)
        ensures
            json@ == encode_provider(self@),
    {
        let mut items: Vec<Json> = Vec::new();
        let mut i: usize = 0;
        while i < self.endpoints.len()
            invariant
                i <= self.endpoints.len(),
                items.len() == i,
                forall|j: int|
                    0 <= j < i ==> (#[trigger] items@[j])@ == encode_endpoint(self.endpoints@[j]@),
            decreases self.endpoints.len() - i,
        {
            items.push(self.endpoints[i].to_json());
            i = i + 1;
        }
        let endpoints = Json::Array(items);
        proof {
            lemma_array_view(endpoints);
            assert(trees_of(items@) =~= encode_endpoints(self@.endpoints));
        }
        let mut out: Vec<Member> = Vec::new();
        out.push(make_entry(Field::ProviderName, make_text(&self.name)));
        out.push(make_entry(Field::ProviderUrl, make_text(&self.url)));
        out.push(make_entry(Field::Endpoints, endpoints));
        let json = Json::Object(out);
        proof {
            lemma_object_view(json);
            assert(members_of(out@) =~= encode_provider(self@)->Object_0);
        }
        json
    }

    /// Writes a catalog as a JSON value.
    pub fn catalog_to_json(providers: &Vec<Provider>) -> (json: Json)
        ensures
            json@ == encode_catalog(crate::providers_of(providers@)),
    {
        let mut items: Vec<Json> = Vec::new();
        let mut i: usize = 0;
        while i < providers.len()
            invariant
                i <= providers.len(),
                items.len() == i,
                forall|j: int|
                    0 <= j < i ==> (#[trigger] items@[j])@ == encode_provider(providers@[j]@),
            decreases providers.len() - i,
        {
            items.push(providers[i].to_json());
            i = i + 1;
        }
        let json = Json::Array(items);
        proof {
            lemma_array_view(json);
            assert(trees_of(items@) =~= encode_providers(crate::providers_of(providers@)));
        }
        json
    }
}

/// An endpoint that is written as a JSON value and read back is the
/// endpoint that was written.
pub proof fn lemma_endpoint_round_trip(e: EndpointView)
    ensures
        decode_endpoint(encode_endpoint(e)) == Ok::<EndpointView, Flaw>(e),
{
    let members = encode_endpoint(e)->Object_0;
    let fields = seq![Field::Url, Field::Schemes, Field::Formats, Field::Discovery];
    assert(keyed_by(members, fields));
    lemma_keyed_lookup(members, fields, 0);
    lemma_keyed_lookup(members, fields, 1);
    lemma_keyed_lookup(members, fields, 2);
    lemma_keyed_lookup(members, fields, 3);
    if e.schemes is Some {
        lemma_texts_round_trip(e.schemes->Some_0);
    }
    if e.formats is Some {
        lemma_texts_round_trip(e.formats->Some_0);
    }
}

/// A list of endpoints that is written as JSON values and read back is the
/// list that was written.
pub proof fn lemma_endpoints_round_trip(list: Seq<EndpointView>)
    ensures
        decode_endpoints(encode_endpoints(list)) == Ok::<Seq<EndpointView>, Flaw>(list),
    decreases list.len(),
{
    if list.len() == 0 {
        assert(list =~= Seq::empty());
    } else {
        let items = encode_endpoints(list);
        assert(items.drop_last() =~= encode_endpoints(list.drop_last()));
        lemma_endpoints_round_trip(list.drop_last());
        lemma_endpoint_round_trip(list.last());
        assert(list.drop_last().push(list.last()) =~= list);
    }
}

/// A provider that is written as a JSON value and read back is the provider
/// that was written.
pub proof fn lemma_provider_round_trip(p: ProviderView)
    ensures
        decode_provider(encode_provider(p)) == Ok::<ProviderView, Flaw>(p),
{
    let members = encode_provider(p)->Object_0;
    let fields = seq![Field::ProviderName, Field::ProviderUrl, Field::Endpoints];
    assert(keyed_by(members, fields));
    lemma_keyed_lookup(members, fields, 0);
    lemma_keyed_lookup(members, fields, 1);
    lemma_keyed_lookup(members, fields, 2);
    lemma_endpoints_round_trip(p.endpoints);
}

/// A catalog that is written as a JSON value and read back is the catalog
/// that was written.
pub proof fn lemma_catalog_round_trip(catalog: Seq<ProviderView>)
    ensures
        decode_catalog(encode_catalog(catalog)) == Ok::<Seq<ProviderView>, Flaw>(catalog),
    decreases catalog.len(),
{
    if catalog.len() == 0 {
        assert(catalog =~= Seq::empty());
    } else {
        let items = encode_providers(catalog);
        assert(items.drop_last() =~= encode_providers(catalog.drop_last()));
        lemma_catalog_round_trip(catalog.drop_last());
        lemma_provider_round_trip(catalog.last());
        assert(catalog.drop_last().push(catalog.last()) =~= catalog);
    }
}

} // verus!

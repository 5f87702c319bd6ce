use oembed::client::{Http, HttpResult, Schema, LATEST_CATALOG};
use oembed::json::{Json, Member};
use oembed::wire::find_member;
use oembed::{Endpoint, Error, Field, Flaw, HttpError, ParseDiagnostic, Provider, ResponseType};

const PHOTO: &str = "{
    \"version\": \"1.0\",
    \"type\": \"photo\",
    \"width\": 240,
    \"height\": 160,
    \"title\": \"ZB8T0193\",
    \"url\": \"http://farm4.static.flickr.com/3123/2341623661_7c99f48bbf_m.jpg\",
    \"author_name\": \"Bees\",
    \"author_url\": \"http://www.flickr.com/photos/bees/\",
    \"provider_name\": \"Flickr\",
    \"provider_url\": \"http://www.flickr.com/\"
}";

/// A transport that answers from a script and notes what it was asked.
struct Stub {
    encode_fails: bool,
    reply: HttpResult<String>,
    encoded: Vec<String>,
    requested: Vec<String>,
}

impl Stub {
    fn replying(body: &str) -> Stub {
        Stub { encode_fails: false, reply: Ok(body.to_string()), encoded: vec![], requested: vec![] }
    }
}

impl Http for Stub {
    fn url_encode(&mut self, s: &str) -> HttpResult<String> {
        self.encoded.push(s.to_string());
        if self.encode_fails {
            Err(HttpError { message: "cannot encode".to_string() })
        } else {
            Ok(s.replace(':', "%3A").replace('/', "%2F"))
        }
    }

    fn get(&mut self, url: &str) -> HttpResult<String> {
        self.requested.push(url.to_string());
        self.reply.clone()
    }
}

fn flickr() -> Schema {
    Schema::new(vec![Provider {
        name: "Flickr".to_string(),
        url: String::new(),
        endpoints: vec![Endpoint {
            url: "https://flickr.com/oembed".to_string(),
            schemes: Some(vec!["https://*.flickr.com/*".to_string()]),
            formats: None,
            discovery: None,
        }],
    }])
}

#[test]
fn fetch_resolves_a_photo_end_to_end() {
    let schema = flickr();
    let mut http = Stub::replying(PHOTO);
    let response = schema
        .fetch(&mut http, "https://www.flickr.com/photos/bees/123/")
        .expect("an endpoint accepts the URL")
        .expect("the reply is a response");
    assert_eq!(
        response.response_type,
        ResponseType::Photo {
            url: "http://farm4.static.flickr.com/3123/2341623661_7c99f48bbf_m.jpg".to_string(),
            width: Some(240),
            height: Some(160),
        }
    );
    assert_eq!(response.title, Some("ZB8T0193".to_string()));
    assert_eq!(response.version, "1.0");
    assert_eq!(response.author_name, Some("Bees".to_string()));
    assert_eq!(response.author_url, Some("http://www.flickr.com/photos/bees/".to_string()));
    assert_eq!(response.provider_name, Some("Flickr".to_string()));
    assert_eq!(response.provider_url, Some("http://www.flickr.com/".to_string()));
    assert_eq!(response.cache_age, None);
    assert_eq!(response.thumbnail_url, None);
    assert_eq!(response.thumbnail_width, None);
    assert_eq!(response.thumbnail_height, None);
}

#[test]
fn fetch_encodes_once_and_asks_the_endpoint() {
    let schema = flickr();
    let mut http = Stub::replying(PHOTO);
    let url = "https://www.flickr.com/photos/bees/123/";
    schema.fetch(&mut http, url).unwrap().unwrap();
    assert_eq!(http.encoded, vec![url.to_string()]);
    assert_eq!(
        http.requested,
        vec!["https://flickr.com/oembed?format=json&url=https%3A%2F%2Fwww.flickr.com%2Fphotos%2Fbees%2F123%2F"
            .to_string()]
    );
}

#[test]
fn request_url_joins_endpoint_and_encoded_url() {
    let endpoint = Endpoint {
        url: "https://flickr.com/oembed".to_string(),
        schemes: None,
        formats: None,
        discovery: None,
    };
    assert_eq!(endpoint.request_url("a%2Fb"), "https://flickr.com/oembed?format=json&url=a%2Fb");
    assert_eq!(endpoint.request_url(""), "https://flickr.com/oembed?format=json&url=");
}

#[test]
fn fetch_without_a_matching_scheme_asks_nothing() {
    let schema = flickr();
    let mut http = Stub::replying(PHOTO);
    assert!(schema.fetch(&mut http, "https://example.com/photos/1").is_none());
    assert!(http.encoded.is_empty());
    assert!(http.requested.is_empty());
    assert!(Schema::new(vec![]).fetch(&mut http, "https://www.flickr.com/photos/bees/123/").is_none());
}

#[test]
fn fetch_reports_a_failure_to_encode() {
    let schema = flickr();
    let mut http = Stub::replying(PHOTO);
    http.encode_fails = true;
    let outcome = schema.fetch(&mut http, "https://www.flickr.com/photos/bees/123/").unwrap();
    assert_eq!(outcome, Err(Error::HttpUrlEncode(HttpError { message: "cannot encode".to_string() })));
    assert!(http.requested.is_empty());
}

#[test]
fn fetch_reports_a_failure_to_retrieve() {
    let schema = flickr();
    let mut http = Stub::replying("");
    http.reply = Err(HttpError { message: "timed out".to_string() });
    let outcome = schema.fetch(&mut http, "https://www.flickr.com/photos/bees/123/").unwrap();
    assert_eq!(outcome, Err(Error::HttpGet(HttpError { message: "timed out".to_string() })));
}

#[test]
fn fetch_reports_an_unknown_type_as_parse_failure() {
    let schema = flickr();
    let mut http = Stub::replying("{\"version\": \"1.0\", \"type\": \"audio\"}");
    let outcome = schema.fetch(&mut http, "https://www.flickr.com/photos/bees/123/").unwrap();
    assert_eq!(outcome, Err(Error::ParseError(ParseDiagnostic::Shape(Flaw::UnknownType))));
}

#[test]
fn fetch_reports_where_a_body_stops_being_json() {
    let schema = flickr();
    let mut http = Stub::replying("{\n  \"version\": \"1.0\",\n  \"type\": }");
    let outcome = schema.fetch(&mut http, "https://www.flickr.com/photos/bees/123/").unwrap();
    match outcome {
        Err(Error::ParseError(ParseDiagnostic::Syntax(report))) => {
            assert_eq!(report.line, 3);
            assert_eq!(report.column, 11);
            assert!(report.message.contains("line 3"));
        }
        other => panic!("unexpected outcome {:?}", other),
    }
}

#[test]
fn endpoint_fetch_reports_a_missing_version() {
    let endpoint = Endpoint {
        url: "https://flickr.com/oembed".to_string(),
        schemes: None,
        formats: None,
        discovery: None,
    };
    let mut http = Stub::replying("{\"type\": \"link\"}");
    let outcome = endpoint.fetch(&mut http, "https://anything.example/");
    assert_eq!(
        outcome,
        Err(Error::ParseError(ParseDiagnostic::Shape(Flaw::MissingField(Field::Version))))
    );
    assert_eq!(http.requested, vec!["https://flickr.com/oembed?format=json&url=https%3A%2F%2Fanything.example%2F"]);
}

const CATALOG: &str = "[
    {
        \"provider_name\": \"Flickr\",
        \"provider_url\": \"https://www.flickr.com/\",
        \"endpoints\": [
            {
                \"schemes\": [\"http://*.flickr.com/photos/*\", \"https://*.flickr.com/photos/*\"],
                \"url\": \"https://www.flickr.com/services/oembed/\",
                \"discovery\": true
            }
        ]
    },
    {
        \"provider_name\": \"Plain\",
        \"provider_url\": \"https://plain.example/\",
        \"endpoints\": [
            {\"url\": \"https://plain.example/oembed\", \"formats\": [\"json\", \"xml\"], \"schemes\": null},
            {\"url\": \"https://plain.example/other\", \"extra\": {\"a\": [1, 2.5, null]}}
        ]
    }
]";

fn catalog() -> Vec<Provider> {
    vec![
        Provider {
            name: "Flickr".to_string(),
            url: "https://www.flickr.com/".to_string(),
            endpoints: vec![Endpoint {
                url: "https://www.flickr.com/services/oembed/".to_string(),
                schemes: Some(vec![
                    "http://*.flickr.com/photos/*".to_string(),
                    "https://*.flickr.com/photos/*".to_string(),
                ]),
                formats: None,
                discovery: Some(true),
            }],
        },
        Provider {
            name: "Plain".to_string(),
            url: "https://plain.example/".to_string(),
            endpoints: vec![
                Endpoint {
                    url: "https://plain.example/oembed".to_string(),
                    schemes: None,
                    formats: Some(vec!["json".to_string(), "xml".to_string()]),
                    discovery: None,
                },
                Endpoint {
                    url: "https://plain.example/other".to_string(),
                    schemes: None,
                    formats: None,
                    discovery: None,
                },
            ],
        },
    ]
}

#[test]
fn catalog_is_read_from_json() {
    let schema = Schema::from_json_str(CATALOG).unwrap();
    assert_eq!(schema, Schema::new(catalog()));
    assert_eq!(Schema::from_json_str("[]").unwrap(), Schema::default());
}

#[test]
fn fetch_from_url_asks_for_the_given_address() {
    let mut http = Stub::replying(CATALOG);
    let schema = Schema::fetch_from_url(&mut http, "https://mirror.example/providers.json").unwrap();
    assert_eq!(schema.providers(), &catalog());
    assert_eq!(http.requested, vec!["https://mirror.example/providers.json"]);
    assert!(http.encoded.is_empty());
}

#[test]
fn fetch_latest_asks_the_oembed_site() {
    let mut http = Stub::replying(CATALOG);
    let schema = Schema::fetch_latest(&mut http).unwrap();
    assert_eq!(schema.providers(), &catalog());
    assert_eq!(LATEST_CATALOG, "https://oembed.com/providers.json");
    assert_eq!(http.requested, vec!["https://oembed.com/providers.json"]);
}

#[test]
fn fetch_from_url_reports_failures() {
    let mut http = Stub::replying("");
    http.reply = Err(HttpError { message: "refused".to_string() });
    assert_eq!(
        Schema::fetch_from_url(&mut http, "https://mirror.example/providers.json"),
        Err(Error::HttpGet(HttpError { message: "refused".to_string() }))
    );
    let mut http = Stub::replying("{}");
    assert_eq!(
        Schema::fetch_latest(&mut http),
        Err(Error::ParseError(ParseDiagnostic::Shape(Flaw::NotAnArray)))
    );
    let mut http = Stub::replying("[");
    assert!(matches!(
        Schema::fetch_latest(&mut http),
        Err(Error::ParseError(ParseDiagnostic::Syntax(_)))
    ));
}

#[test]
fn catalog_flaws_are_named() {
    let shape = |f| Err(Error::ParseError(ParseDiagnostic::Shape(f)));
    assert_eq!(Schema::from_json_str("[1]"), shape(Flaw::NotAnObject));
    assert_eq!(Schema::from_json_str("[{}]"), shape(Flaw::MissingField(Field::ProviderName)));
    assert_eq!(
        Schema::from_json_str("[{\"provider_name\": \"a\"}]"),
        shape(Flaw::MissingField(Field::ProviderUrl))
    );
    assert_eq!(
        Schema::from_json_str("[{\"provider_name\": \"a\", \"provider_url\": null, \"endpoints\": []}]"),
        shape(Flaw::InvalidField(Field::ProviderUrl))
    );
    assert_eq!(
        Schema::from_json_str("[{\"provider_name\": \"a\", \"provider_url\": \"b\"}]"),
        shape(Flaw::MissingField(Field::Endpoints))
    );
    assert_eq!(
        Schema::from_json_str("[{\"provider_name\": \"a\", \"provider_url\": \"b\", \"endpoints\": {}}]"),
        shape(Flaw::InvalidField(Field::Endpoints))
    );
    assert_eq!(
        Schema::from_json_str("[{\"provider_name\": \"a\", \"provider_url\": \"b\", \"endpoints\": [[]]}]"),
        shape(Flaw::NotAnObject)
    );
    assert_eq!(
        Schema::from_json_str("[{\"provider_name\": \"a\", \"provider_url\": \"b\", \"endpoints\": [{}]}]"),
        shape(Flaw::MissingField(Field::Url))
    );
    assert_eq!(
        Schema::from_json_str(
            "[{\"provider_name\": \"a\", \"provider_url\": \"b\", \"endpoints\": [{\"url\": \"u\", \"schemes\": [\"s\", 1]}]}]"
        ),
        shape(Flaw::InvalidField(Field::Schemes))
    );
    assert_eq!(
        Schema::from_json_str(
            "[{\"provider_name\": \"a\", \"provider_url\": \"b\", \"endpoints\": [{\"url\": \"u\", \"formats\": \"json\"}]}]"
        ),
        shape(Flaw::InvalidField(Field::Formats))
    );
    assert_eq!(
        Schema::from_json_str(
            "[{\"provider_name\": \"a\", \"provider_url\": \"b\", \"endpoints\": [{\"url\": \"u\", \"discovery\": \"yes\"}]}]"
        ),
        shape(Flaw::InvalidField(Field::Discovery))
    );
    // The first item at fault decides.
    assert_eq!(
        Schema::from_json_str("[{\"provider_name\": 1}, 2]"),
        shape(Flaw::InvalidField(Field::ProviderName))
    );
}

#[test]
fn catalog_round_trips() {
    let schema = Schema::new(catalog());
    let json = schema.to_json();
    assert_eq!(Provider::catalog_from_json(&json), Ok(catalog()));
    assert_eq!(Provider::catalog_to_json(&Vec::new()), Json::Array(vec![]));
    for provider in catalog() {
        assert_eq!(Provider::from_json(&provider.to_json()), Ok(provider.clone()));
        for endpoint in provider.endpoints {
            assert_eq!(Endpoint::from_json(&endpoint.to_json()), Ok(endpoint.clone()));
        }
    }
}

#[test]
fn endpoint_is_written_member_by_member() {
    let entry = |key: &str, value: Json| Member { key: key.to_string(), value };
    let endpoint = Endpoint {
        url: "https://plain.example/oembed".to_string(),
        schemes: Some(vec!["a:*".to_string(), "b:*".to_string()]),
        formats: None,
        discovery: Some(false),
    };
    assert_eq!(
        endpoint.to_json(),
        Json::Object(vec![
            entry("url", Json::Text("https://plain.example/oembed".to_string())),
            entry("schemes", Json::Array(vec![Json::Text("a:*".to_string()), Json::Text("b:*".to_string())])),
            entry("formats", Json::Null),
            entry("discovery", Json::Bool(false)),
        ])
    );
    let provider = Provider { name: "Plain".to_string(), url: "https://plain.example/".to_string(), endpoints: vec![] };
    assert_eq!(
        provider.to_json(),
        Json::Object(vec![
            entry("provider_name", Json::Text("Plain".to_string())),
            entry("provider_url", Json::Text("https://plain.example/".to_string())),
            entry("endpoints", Json::Array(vec![])),
        ])
    );
}

#[test]
fn last_member_of_a_name_counts() {
    let entry = |key: &str, value: Json| Member { key: key.to_string(), value };
    let members = vec![entry("a", Json::Int(1)), entry("b", Json::Int(2)), entry("a", Json::Int(3))];
    assert_eq!(find_member(&members, "a"), Some(&Json::Int(3)));
    assert_eq!(find_member(&members, "b"), Some(&Json::Int(2)));
    assert_eq!(find_member(&members, "c"), None);
    assert_eq!(find_member(&Vec::new(), "a"), None);
}

use oembed::json::{Json, Member};
use oembed::{Error, Field, Flaw, ParseDiagnostic, Response, ResponseType};

fn value_of(json: &Json) -> serde_json::Value {
    match json {
        Json::Null => serde_json::Value::Null,
        Json::Bool(b) => serde_json::Value::Bool(*b),
        Json::Int(i) => serde_json::Value::Number(serde_json::Number::from_i128(*i).unwrap()),
        Json::Real(t) => serde_json::from_str(t).unwrap(),
        Json::Text(t) => serde_json::Value::String(t.clone()),
        Json::Array(items) => serde_json::Value::Array(items.iter().map(value_of).collect()),
        Json::Object(members) => serde_json::Value::Object(
            members.iter().map(|m| (m.key.clone(), value_of(&m.value))).collect(),
        ),
    }
}

fn through_text(response: &Response) -> Response {
    let text = serde_json::to_string(&value_of(&response.to_json())).unwrap();
    Response::from_json_str(&text).unwrap()
}

fn bare(response_type: ResponseType) -> Response {
    Response {
        response_type,
        version: "1.0".to_string(),
        title: None,
        author_name: None,
        author_url: None,
        provider_name: None,
        provider_url: None,
        cache_age: None,
        thumbnail_url: None,
        thumbnail_width: None,
        thumbnail_height: None,
    }
}

fn full(response_type: ResponseType) -> Response {
    Response {
        response_type,
        version: "1.0".to_string(),
        title: Some("A \"title\" with \\ and \n and \u{e9}\u{1F600}".to_string()),
        author_name: Some("Bees".to_string()),
        author_url: Some("http://www.flickr.com/photos/bees/".to_string()),
        provider_name: Some("Flickr".to_string()),
        provider_url: Some("http://www.flickr.com/".to_string()),
        cache_age: Some("3600".to_string()),
        thumbnail_url: Some("http://example.com/t.jpg".to_string()),
        thumbnail_width: Some(i32::MAX),
        thumbnail_height: Some(i32::MIN),
    }
}

fn check_round_trip(response: Response) {
    assert_eq!(Response::from_json(&response.to_json()), Ok(response.clone()));
    assert_eq!(through_text(&response), response);
}

#[test]
fn photo_round_trips() {
    check_round_trip(bare(ResponseType::Photo { url: "http://example.com/a.jpg".to_string(), width: None, height: None }));
    check_round_trip(full(ResponseType::Photo {
        url: "http://example.com/a.jpg".to_string(),
        width: Some(240),
        height: Some(160),
    }));
}

#[test]
fn video_round_trips() {
    check_round_trip(bare(ResponseType::Video { html: "<video/>".to_string(), width: None, height: None }));
    check_round_trip(full(ResponseType::Video { html: "<video/>".to_string(), width: Some(0), height: Some(-1) }));
}

#[test]
fn rich_round_trips() {
    check_round_trip(bare(ResponseType::Rich { html: "<p>\"hi\"</p>".to_string(), width: None, height: None }));
    check_round_trip(full(ResponseType::Rich { html: String::new(), width: Some(1), height: None }));
}

#[test]
fn link_round_trips() {
    check_round_trip(bare(ResponseType::Link));
    check_round_trip(full(ResponseType::Link));
}

#[test]
fn response_is_written_member_by_member() {
    let response = bare(ResponseType::Photo { url: "u".to_string(), width: Some(7), height: None });
    let entry = |key: &str, value: Json| Member { key: key.to_string(), value };
    assert_eq!(
        response.to_json(),
        Json::Object(vec![
            entry("type", Json::Text("photo".to_string())),
            entry("url", Json::Text("u".to_string())),
            entry("width", Json::Int(7)),
            entry("height", Json::Null),
            entry("version", Json::Text("1.0".to_string())),
            entry("title", Json::Null),
            entry("author_name", Json::Null),
            entry("author_url", Json::Null),
            entry("provider_name", Json::Null),
            entry("provider_url", Json::Null),
            entry("cache_age", Json::Null),
            entry("thumbnail_url", Json::Null),
            entry("thumbnail_width", Json::Null),
            entry("thumbnail_height", Json::Null),
        ])
    );
    let link = bare(ResponseType::Link).to_json();
    match link {
        Json::Object(members) => {
            assert_eq!(members.len(), 11);
            assert_eq!(members[0], entry("type", Json::Text("link".to_string())));
        }
        other => panic!("unexpected value {:?}", other),
    }
}

#[test]
fn type_names_are_lower_case() {
    assert_eq!(ResponseType::Photo { url: String::new(), width: None, height: None }.tag(), "photo");
    assert_eq!(ResponseType::Video { html: String::new(), width: None, height: None }.tag(), "video");
    assert_eq!(ResponseType::Rich { html: String::new(), width: None, height: None }.tag(), "rich");
    assert_eq!(ResponseType::Link.tag(), "link");
}

fn shape(flaw: Flaw) -> Result<Response, Error> {
    Err(Error::ParseError(ParseDiagnostic::Shape(flaw)))
}

#[test]
fn unrecognized_type_fails_to_parse() {
    assert_eq!(Response::from_json_str("{\"version\": \"1.0\", \"type\": \"audio\"}"), shape(Flaw::UnknownType));
    assert_eq!(Response::from_json_str("{\"version\": \"1.0\", \"type\": \"Photo\", \"url\": \"u\"}"), shape(Flaw::UnknownType));
    assert_eq!(Response::from_json_str("{\"version\": \"1.0\", \"type\": \"\"}"), shape(Flaw::UnknownType));
}

#[test]
fn absent_type_fails_to_parse() {
    assert_eq!(Response::from_json_str("{\"version\": \"1.0\"}"), shape(Flaw::MissingField(Field::Type)));
    assert_eq!(Response::from_json_str("{\"version\": \"1.0\", \"type\": null}"), shape(Flaw::InvalidField(Field::Type)));
    assert_eq!(Response::from_json_str("{\"version\": \"1.0\", \"type\": 1}"), shape(Flaw::InvalidField(Field::Type)));
}

#[test]
fn response_flaws_are_named() {
    assert_eq!(Response::from_json_str("[]"), shape(Flaw::NotAnObject));
    assert_eq!(Response::from_json_str("\"photo\""), shape(Flaw::NotAnObject));
    assert_eq!(Response::from_json_str("{\"type\": \"photo\", \"version\": \"1.0\"}"), shape(Flaw::MissingField(Field::Url)));
    assert_eq!(Response::from_json_str("{\"type\": \"video\", \"version\": \"1.0\"}"), shape(Flaw::MissingField(Field::Html)));
    assert_eq!(
        Response::from_json_str("{\"type\": \"rich\", \"version\": \"1.0\", \"url\": \"u\"}"),
        shape(Flaw::MissingField(Field::Html))
    );
    assert_eq!(Response::from_json_str("{\"type\": \"link\"}"), shape(Flaw::MissingField(Field::Version)));
    assert_eq!(Response::from_json_str("{\"type\": \"link\", \"version\": 1.0}"), shape(Flaw::InvalidField(Field::Version)));
    assert_eq!(
        Response::from_json_str("{\"type\": \"link\", \"version\": \"1.0\", \"title\": 5}"),
        shape(Flaw::InvalidField(Field::Title))
    );
    assert_eq!(
        Response::from_json_str("{\"type\": \"link\", \"version\": \"1.0\", \"cache_age\": 3600}"),
        shape(Flaw::InvalidField(Field::CacheAge))
    );
    assert_eq!(
        Response::from_json_str("{\"type\": \"link\", \"version\": \"1.0\", \"thumbnail_width\": \"5\"}"),
        shape(Flaw::InvalidField(Field::ThumbnailWidth))
    );
    // The members of the type are looked at before the others.
    assert_eq!(Response::from_json_str("{\"type\": \"photo\", \"title\": 5}"), shape(Flaw::MissingField(Field::Url)));
    assert_eq!(
        Response::from_json_str("{\"type\": \"photo\", \"url\": \"u\", \"height\": true, \"width\": {}}"),
        shape(Flaw::InvalidField(Field::Width))
    );
}

#[test]
fn sizes_are_whole_numbers_that_fit() {
    let with_width = |w: &str| {
        Response::from_json_str(&format!(
            "{{\"type\": \"photo\", \"version\": \"1.0\", \"url\": \"u\", \"width\": {}}}",
            w
        ))
    };
    let width = |r: Result<Response, Error>| match r.unwrap().response_type {
        ResponseType::Photo { width, .. } => width,
        other => panic!("unexpected type {:?}", other),
    };
    assert_eq!(width(with_width("240")), Some(240));
    assert_eq!(width(with_width("-3")), Some(-3));
    assert_eq!(width(with_width("2147483647")), Some(i32::MAX));
    assert_eq!(width(with_width("-2147483648")), Some(i32::MIN));
    assert_eq!(width(with_width("null")), None);
    assert_eq!(with_width("2147483648"), shape(Flaw::InvalidField(Field::Width)));
    assert_eq!(with_width("-2147483649"), shape(Flaw::InvalidField(Field::Width)));
    assert_eq!(with_width("18446744073709551615"), shape(Flaw::InvalidField(Field::Width)));
    assert_eq!(with_width("1.0"), shape(Flaw::InvalidField(Field::Width)));
    assert_eq!(with_width("1e2"), shape(Flaw::InvalidField(Field::Width)));
    assert_eq!(with_width("\"240\""), shape(Flaw::InvalidField(Field::Width)));
}

#[test]
fn members_that_are_not_named_are_ignored() {
    let response = Response::from_json_str(
        "{\"type\": \"link\", \"version\": \"1.0\", \"html\": 5, \"url\": [], \"width\": \"wide\", \"x\": {\"y\": [1.5]}}",
    )
    .unwrap();
    assert_eq!(response, bare(ResponseType::Link));
}

#[test]
fn null_counts_as_absent_where_a_member_is_optional() {
    let response = Response::from_json_str(
        "{\"type\": \"video\", \"version\": \"1.0\", \"html\": \"<video/>\", \"width\": null, \"title\": null, \"thumbnail_height\": null}",
    )
    .unwrap();
    assert_eq!(response, bare(ResponseType::Video { html: "<video/>".to_string(), width: None, height: None }));
}

#[test]
fn json_text_is_read_into_a_tree() {
    let entry = |key: &str, value: Json| Member { key: key.to_string(), value };
    assert_eq!(Json::parse("null"), Ok(Json::Null));
    assert_eq!(Json::parse(" true "), Ok(Json::Bool(true)));
    assert_eq!(Json::parse("0"), Ok(Json::Int(0)));
    assert_eq!(Json::parse("-7"), Ok(Json::Int(-7)));
    assert_eq!(Json::parse("18446744073709551615"), Ok(Json::Int(18446744073709551615)));
    assert_eq!(Json::parse("-9223372036854775808"), Ok(Json::Int(-9223372036854775808)));
    assert_eq!(Json::parse("1.5"), Ok(Json::Real("1.5".to_string())));
    assert_eq!(Json::parse("\"a\\u00e9\\n\""), Ok(Json::Text("a\u{e9}\n".to_string())));
    assert_eq!(
        Json::parse("[1, [], {\"b\": null, \"a\": [false]}]"),
        Ok(Json::Array(vec![
            Json::Int(1),
            Json::Array(vec![]),
            Json::Object(vec![entry("a", Json::Array(vec![Json::Bool(false)])), entry("b", Json::Null)]),
        ]))
    );
}

#[test]
fn text_that_is_not_json_is_reported_with_its_place() {
    let report = Json::parse("{\"a\": 1,\n \"b\" 2}").unwrap_err();
    assert_eq!(report.line, 2);
    assert_eq!(report.column, 6);
    assert!(!report.message.is_empty());
    assert!(Json::parse("").is_err());
    assert!(Json::parse("{} {}").is_err());
    assert!(Json::parse("{'a': 1}").is_err());
}

#[test]
fn field_names_are_those_of_the_wire() {
    assert_eq!(Field::Type.name(), "type");
    assert_eq!(Field::Version.name(), "version");
    assert_eq!(Field::Title.name(), "title");
    assert_eq!(Field::AuthorName.name(), "author_name");
    assert_eq!(Field::AuthorUrl.name(), "author_url");
    assert_eq!(Field::ProviderName.name(), "provider_name");
    assert_eq!(Field::ProviderUrl.name(), "provider_url");
    assert_eq!(Field::CacheAge.name(), "cache_age");
    assert_eq!(Field::ThumbnailUrl.name(), "thumbnail_url");
    assert_eq!(Field::ThumbnailWidth.name(), "thumbnail_width");
    assert_eq!(Field::ThumbnailHeight.name(), "thumbnail_height");
    assert_eq!(Field::Url.name(), "url");
    assert_eq!(Field::Html.name(), "html");
    assert_eq!(Field::Width.name(), "width");
    assert_eq!(Field::Height.name(), "height");
    assert_eq!(Field::Endpoints.name(), "endpoints");
    assert_eq!(Field::Schemes.name(), "schemes");
    assert_eq!(Field::Formats.name(), "formats");
    assert_eq!(Field::Discovery.name(), "discovery");
}

use oembed::client::Schema;
use oembed::{Endpoint, Provider};

fn endpoint(url: &str, schemes: Option<Vec<&str>>) -> Endpoint {
    Endpoint {
        url: url.to_string(),
        schemes: schemes.map(|list| list.into_iter().map(|s| s.to_string()).collect()),
        formats: None,
        discovery: None,
    }
}

fn provider(name: &str, endpoints: Vec<Endpoint>) -> Provider {
    Provider { name: name.to_string(), url: format!("https://{}.example/", name), endpoints }
}

#[test]
fn first_provider_in_catalog_order_wins() {
    let a = provider("a", vec![endpoint("https://a.example/oembed", Some(vec!["https://media.example/*"]))]);
    let b = provider("b", vec![endpoint("https://b.example/oembed", Some(vec!["https://*.example/*"]))]);
    let url = "https://media.example/clip/1";

    let schema = Schema::new(vec![a.clone(), b.clone()]);
    let found = schema.match_endpoint(url).unwrap();
    assert_eq!(found.provider.name, "a");
    assert_eq!(found.endpoint.url, "https://a.example/oembed");
    assert_eq!(found.matched_scheme, "https://media.example/*");

    let schema = Schema::new(vec![b, a]);
    let found = schema.match_endpoint(url).unwrap();
    assert_eq!(found.provider.name, "b");
    assert_eq!(found.endpoint.url, "https://b.example/oembed");
    assert_eq!(found.matched_scheme, "https://*.example/*");
}

#[test]
fn first_endpoint_and_first_scheme_win() {
    let p = provider(
        "p",
        vec![
            endpoint("https://p.example/none", None),
            endpoint("https://p.example/empty", Some(vec![])),
            endpoint("https://p.example/other", Some(vec!["https://other.example/*"])),
            endpoint(
                "https://p.example/first",
                Some(vec!["https://nope.example/*", "https://media.example/clip/*", "https://media.example/*"]),
            ),
            endpoint("https://p.example/second", Some(vec!["https://media.example/*"])),
        ],
    );
    let schema = Schema::new(vec![p]);
    let found = schema.match_endpoint("https://media.example/clip/1").unwrap();
    assert_eq!(found.endpoint.url, "https://p.example/first");
    assert_eq!(found.matched_scheme, "https://media.example/clip/*");

    let found = schema.match_endpoint("https://media.example/page").unwrap();
    assert_eq!(found.endpoint.url, "https://p.example/first");
    assert_eq!(found.matched_scheme, "https://media.example/*");
}

#[test]
fn no_scheme_accepts_means_no_endpoint() {
    let p = provider(
        "p",
        vec![endpoint("https://p.example/a", None), endpoint("https://p.example/b", Some(vec!["https://b.example/*"]))],
    );
    let schema = Schema::new(vec![p]);
    assert!(schema.match_endpoint("https://c.example/x").is_none());
    assert!(Schema::new(vec![]).match_endpoint("https://c.example/x").is_none());
    assert!(Schema::default().match_endpoint("").is_none());
}

#[test]
fn match_url_scheme_gives_the_first_scheme_that_accepts() {
    let e = endpoint("https://p.example/a", Some(vec!["x:*", "spotify:a*", "spotify:*"]));
    assert_eq!(e.match_url_scheme("spotify:abc"), Some("spotify:a*"));
    assert_eq!(e.match_url_scheme("spotify:xyz"), Some("spotify:*"));
    assert_eq!(e.match_url_scheme("other:xyz"), None);
    assert_eq!(endpoint("https://p.example/a", None).match_url_scheme("spotify:abc"), None);
}

#[test]
fn schema_keeps_its_providers_in_order() {
    let a = provider("a", vec![]);
    let b = provider("b", vec![]);
    let schema = Schema::new(vec![a.clone(), b.clone()]);
    assert_eq!(schema.providers(), &vec![a, b]);
}

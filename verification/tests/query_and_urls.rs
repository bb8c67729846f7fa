use oxide_auth::code_grant::decode_query;
use oxide_auth::query::QueryMap;
use oxide_auth::web_url::Url;

#[test]
fn query_map_get_after_insert() {
    let mut q = QueryMap::new();
    assert!(q.get("a").is_none());
    q.insert("a".to_string(), "1".to_string());
    q.insert("b".to_string(), "2".to_string());
    assert_eq!(q.get("a").map(|s| s.as_str()), Some("1"));
    assert_eq!(q.get("b").map(|s| s.as_str()), Some("2"));
    assert!(q.get("c").is_none());
}

#[test]
fn query_map_later_value_replaces_earlier() {
    let mut q = QueryMap::new();
    q.insert("a".to_string(), "1".to_string());
    q.insert("a".to_string(), "2".to_string());
    assert_eq!(q.get("a").map(|s| s.as_str()), Some("2"));
    let q = QueryMap::from_pairs(vec![
        ("x".to_string(), "first".to_string()),
        ("y".to_string(), "other".to_string()),
        ("x".to_string(), "last".to_string()),
    ]);
    assert_eq!(q.get("x").map(|s| s.as_str()), Some("last"));
    assert_eq!(q.get("y").map(|s| s.as_str()), Some("other"));
}

#[test]
fn url_parse_normalizes_and_refuses() {
    let u = Url::parse("https://example.net").unwrap();
    assert_eq!(u.as_str(), "https://example.net/");
    assert!(Url::parse("not a url").is_none());
    assert!(Url::parse("/relative/path").is_none());
    assert!(Url::parse("").is_none());
}

#[test]
fn url_query_pairs_decoded_in_order() {
    let u = Url::parse("https://example.com/products?page=2&sort=desc&q=a+b%26c").unwrap();
    let pairs = u.query_pairs();
    assert_eq!(
        pairs,
        vec![
            ("page".to_string(), "2".to_string()),
            ("sort".to_string(), "desc".to_string()),
            ("q".to_string(), "a b&c".to_string()),
        ]
    );
    let none = Url::parse("https://example.com/").unwrap();
    assert!(none.query_pairs().is_empty());
}

#[test]
fn url_with_query_pairs_appends_after_existing() {
    let u = Url::parse("https://example.net/cb?lang=fr#nav").unwrap();
    let extended = u.with_query_pairs(&vec![
        ("foo".to_string(), "bar & baz".to_string()),
        ("x".to_string(), "".to_string()),
    ]);
    assert_eq!(extended.as_str(), "https://example.net/cb?lang=fr&foo=bar+%26+baz&x=#nav");
    assert_eq!(
        extended.query_pairs(),
        vec![
            ("lang".to_string(), "fr".to_string()),
            ("foo".to_string(), "bar & baz".to_string()),
            ("x".to_string(), "".to_string()),
        ]
    );
}

#[test]
fn decode_url_query_keeps_last_value() {
    let u = Url::parse("https://client.example/?a=1&b=2&a=3").unwrap();
    let q = decode_query(&u);
    assert_eq!(q.get("a").map(|s| s.as_str()), Some("3"));
    assert_eq!(q.get("b").map(|s| s.as_str()), Some("2"));
    assert!(q.get("c").is_none());
}

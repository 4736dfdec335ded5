//! Round-trip checks: a search result written out as the service's JSON and
//! decoded back renders exactly as the value it came from, names in order.

use package_site::models::SearchPackage;
use package_site::models::SearchResult;
use package_site::pct::pct_encode;
use package_site::urls::package_url;
use package_site::urls::search_url;
use package_site::urls::user_agent;
use serde_json::Value;

const BASE: &str = "https://packages.example.org";

fn encode(names: &[String]) -> String {
    let mut arr: Vec<Value> = Vec::new();
    for n in names {
        let mut obj = serde_json::Map::new();
        obj.insert("name".to_string(), Value::String(n.clone()));
        arr.push(Value::Object(obj));
    }
    let mut root = serde_json::Map::new();
    root.insert("packages".to_string(), Value::Array(arr));
    serde_json::to_string(&Value::Object(root)).unwrap()
}

fn decode(text: &str) -> SearchResult {
    let v: Value = serde_json::from_str(text).unwrap();
    let packages = v["packages"]
        .as_array()
        .unwrap()
        .iter()
        .map(|e| SearchPackage { name: e["name"].as_str().unwrap().to_string() })
        .collect();
    SearchResult { packages }
}

#[test]
fn round_trip_preserves_count_and_order_through_rendering() {
    let names: Vec<String> = (1..=13).map(|i| format!("pkg{}", i)).collect();
    let original = SearchResult {
        packages: names.iter().map(|n| SearchPackage { name: n.clone() }).collect(),
    };
    let decoded = decode(&encode(&names));
    assert_eq!(decoded.packages.len(), original.packages.len());

    let a = original.fmt_result("q", BASE);
    let b = decoded.fmt_result("q", BASE);
    assert_eq!(a, b);

    let mut pos = 0;
    for n in names.iter().take(11) {
        let needle = format!("/packages/{}\">{}</a>", n, n);
        let found = b[pos..].find(&needle).expect("names stay in order");
        pos += found + needle.len();
    }
    assert!(!b.contains("/packages/pkg12\""));
    assert!(!b.contains("/packages/pkg13\""));
}

#[test]
fn round_trip_of_a_short_listing_renders_identically() {
    let names: Vec<String> = ["alpha", "beta"].iter().map(|s| s.to_string()).collect();
    let original = SearchResult {
        packages: names.iter().map(|n| SearchPackage { name: n.clone() }).collect(),
    };
    let decoded = decode(&encode(&names));
    assert_eq!(original.fmt_result("ab", BASE), decoded.fmt_result("ab", BASE));
}

#[test]
fn request_urls_are_built_exactly() {
    assert_eq!(
        package_url("https://packages.aosc.io", "oma"),
        "https://packages.aosc.io/packages/oma?type=json"
    );
    assert_eq!(
        search_url("https://packages.aosc.io", "oma"),
        "https://packages.aosc.io/search?q=oma&type=json&noredir=true"
    );
    assert_eq!(user_agent(), "bot");
}

#[test]
fn url_components_are_percent_encoded() {
    assert_eq!(pct_encode("oma"), "oma");
    assert_eq!(
        pct_encode("ABCDEFGHIJKLMNOPQRSTUVWXYZabcdefghijklmnopqrstuvwxyz0123456789-._~"),
        "ABCDEFGHIJKLMNOPQRSTUVWXYZabcdefghijklmnopqrstuvwxyz0123456789-._~"
    );
    assert_eq!(pct_encode("foo bar"), "foo%20bar");
    assert_eq!(pct_encode("c++"), "c%2B%2B");
    assert_eq!(pct_encode("?#&/=+"), "%3F%23%26%2F%3D%2B");
    assert_eq!(pct_encode("caf\u{e9}"), "caf%C3%A9");
    assert_eq!(pct_encode("\u{4e2d}"), "%E4%B8%AD");
    assert_eq!(pct_encode(""), "");
}

#[test]
fn request_urls_encode_the_user_text() {
    assert_eq!(
        package_url("https://packages.aosc.io", "foo bar"),
        "https://packages.aosc.io/packages/foo%20bar?type=json"
    );
    assert_eq!(
        search_url("https://packages.aosc.io", "a&b=c?d"),
        "https://packages.aosc.io/search?q=a%26b%3Dc%3Fd&type=json&noredir=true"
    );
}

#[test]
fn counts_render_in_decimal() {
    assert_eq!(package_site::numtext::usize_to_string(0), "0");
    assert_eq!(package_site::numtext::usize_to_string(7), "7");
    assert_eq!(package_site::numtext::usize_to_string(10), "10");
    assert_eq!(package_site::numtext::usize_to_string(11), "11");
    assert_eq!(package_site::numtext::usize_to_string(123), "123");
    assert_eq!(package_site::numtext::usize_to_string(100400), "100400");
}

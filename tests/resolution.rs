use justviewer::link::{find_value, resolve_all, OpenUrl};

fn open_url(text: &str) -> OpenUrl {
    OpenUrl::parse(text).unwrap()
}

fn pairs(items: &[(&str, &str)]) -> Vec<(String, String)> {
    items.iter().map(|(k, v)| (k.to_string(), v.to_string())).collect()
}

#[test]
fn file_url_resolves_to_decoded_path() {
    let u = open_url("file:///tmp/a.txt");
    assert_eq!(u.scheme, "file");
    assert_eq!(u.resolve("justviewer"), Some("/tmp/a.txt".to_string()));
}

#[test]
fn file_url_percent_encoding_is_decoded() {
    let u = open_url("file:///tmp/my%20notes.txt");
    assert_eq!(u.resolve("justviewer"), Some("/tmp/my notes.txt".to_string()));
}

#[test]
fn file_url_with_remote_host_resolves_to_nothing() {
    let u = open_url("file://example.com/tmp/a.txt");
    assert_eq!(u.file_path, None);
    assert_eq!(u.resolve("justviewer"), None);
}

#[test]
fn custom_scheme_url_resolves_to_path_parameter() {
    let u = open_url("customscheme://open?path=/tmp/b.txt");
    assert_eq!(u.resolve("customscheme"), Some("/tmp/b.txt".to_string()));
}

#[test]
fn custom_scheme_path_parameter_is_decoded() {
    let u = open_url("justviewer://open?x=1&path=%2Ftmp%2Fc%20d.txt");
    assert_eq!(u.resolve("justviewer"), Some("/tmp/c d.txt".to_string()));
}

#[test]
fn custom_scheme_takes_first_path_parameter() {
    let u = open_url("justviewer://open?path=/first&path=/second");
    assert_eq!(u.resolve("justviewer"), Some("/first".to_string()));
}

#[test]
fn custom_scheme_without_path_parameter_resolves_to_nothing() {
    let u = open_url("justviewer://open?file=/tmp/b.txt");
    assert_eq!(u.resolve("justviewer"), None);
    let bare = open_url("justviewer://open");
    assert_eq!(bare.resolve("justviewer"), None);
}

#[test]
fn custom_scheme_url_is_not_decoded_as_file() {
    let u = open_url("justviewer:///tmp/a.txt?path=/tmp/b.txt");
    assert_eq!(u.file_path, None);
}

#[test]
fn other_schemes_resolve_to_nothing() {
    assert_eq!(open_url("https://example.com/?path=/tmp/a.txt").resolve("justviewer"), None);
    assert_eq!(open_url("customscheme://open?path=/tmp/b.txt").resolve("justviewer"), None);
}

#[test]
fn scheme_is_lower_cased() {
    let u = open_url("FILE:///tmp/a.txt");
    assert_eq!(u.resolve("justviewer"), Some("/tmp/a.txt".to_string()));
}

#[test]
fn resolution_of_values_written_by_hand() {
    let u = OpenUrl {
        scheme: "file".to_string(),
        file_path: Some("/x/y".to_string()),
        query: pairs(&[("path", "/ignored")]),
    };
    assert_eq!(u.resolve("justviewer"), Some("/x/y".to_string()));
    let broken = OpenUrl { scheme: "file".to_string(), file_path: None, query: Vec::new() };
    assert_eq!(broken.resolve("justviewer"), None);
}

#[test]
fn find_value_takes_first_match() {
    let p = pairs(&[("a", "1"), ("path", "2"), ("path", "3")]);
    assert_eq!(find_value(&p, "path"), Some("2".to_string()));
    assert_eq!(find_value(&p, "b"), None);
    assert_eq!(find_value(&Vec::new(), "path"), None);
}

#[test]
fn resolve_all_keeps_order_and_skips_unresolved() {
    let urls = vec![
        open_url("file:///tmp/1.txt"),
        open_url("https://example.com/"),
        open_url("justviewer://open?path=/tmp/2.txt"),
        open_url("justviewer://open"),
        open_url("file:///tmp/1.txt"),
    ];
    assert_eq!(
        resolve_all(&urls, "justviewer"),
        vec!["/tmp/1.txt".to_string(), "/tmp/2.txt".to_string(), "/tmp/1.txt".to_string()]
    );
    assert!(resolve_all(&Vec::new(), "justviewer").is_empty());
}

#[test]
fn text_that_is_not_a_url_gives_nothing() {
    assert!(OpenUrl::parse("/tmp/a.txt").is_none());
    assert!(OpenUrl::parse("").is_none());
}

#[test]
fn parse_reads_scheme_path_and_query() {
    let u = open_url("file:///tmp/x%20y?k=v&path=%2Fz");
    assert_eq!(u.scheme, "file");
    assert_eq!(u.file_path, Some("/tmp/x y".to_string()));
    assert_eq!(u.query, pairs(&[("k", "v"), ("path", "/z")]));
}

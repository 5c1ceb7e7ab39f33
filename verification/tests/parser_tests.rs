use proxy_server::parser::{
    authority_of, starts_with_scheme_mark, url_of_target, HttpRequestAttributes, ParseError,
    ResolvedAddress,
};
use proxy_server::text::split_once;

fn v4(text: &str) -> ResolvedAddress {
    ResolvedAddress { ipv4: true, text: text.to_string() }
}

fn v6(text: &str) -> ResolvedAddress {
    ResolvedAddress { ipv4: false, text: text.to_string() }
}

#[test]
fn should_prefix_http_to_url() {
    let mut http_request_attrs = HttpRequestAttributes::default();

    http_request_attrs.construct_url("GET www.google.com 123").unwrap();

    assert_eq!(http_request_attrs.url.unwrap(), "http://www.google.com")
}

#[test]
fn should_prefix_nothing_if_protocol_present() {
    let mut http_request_attrs = HttpRequestAttributes::default();

    http_request_attrs.construct_url("GET http://www.google.com 123").unwrap();

    assert_eq!(http_request_attrs.url.unwrap(), "http://www.google.com");
}

#[test]
fn should_prefix_nothing_for_https() {
    let mut http_request_attrs = HttpRequestAttributes::default();

    http_request_attrs.construct_url("GET https://www.google.com 123").unwrap();

    assert_eq!(http_request_attrs.url.unwrap(), "https://www.google.com");
}

#[test]
fn should_throw_error_for_invalid_request_data() {
    let mut http_request_attrs = HttpRequestAttributes::default();

    if let Err(e) = http_request_attrs.construct_url("123") {
        assert_eq!("error parsing url string", e.message());
    }
}

#[test]
fn should_fetch_target_server_details() {
    let mut http_request_attrs = HttpRequestAttributes::default();

    let outcome =
        http_request_attrs.fetch_target_server_details("GET http://www.google.com:123 test");

    assert_eq!(http_request_attrs.url.unwrap(), "http://www.google.com:123");
    // Host, port and address are there when the name service answered.
    if outcome.is_ok() {
        assert_eq!(http_request_attrs.host_name.as_ref().unwrap(), "www.google.com");
        assert_eq!(http_request_attrs.port_number.unwrap(), "123");

        for ip in dns_lookup::lookup_host(http_request_attrs.host_name.as_ref().unwrap())
            .unwrap()
        {
            if ip.is_ipv4() {
                assert_eq!(http_request_attrs.ip_address.as_ref().unwrap(), &ip.to_string());
                break;
            }
        }
    } else {
        assert!(matches!(outcome, Err(ParseError::Resolution)));
        assert!(http_request_attrs.host_name.is_none());
        assert!(http_request_attrs.port_number.is_none());
        assert!(http_request_attrs.ip_address.is_none());
    }
}

#[test]
fn invalid_request_data_is_an_error_and_changes_nothing() {
    let mut attrs = HttpRequestAttributes::default();
    attrs.url = Some("kept".to_string());

    let outcome = attrs.construct_url("123");

    assert!(matches!(outcome, Err(ParseError::UrlString)));
    assert_eq!(attrs.url.unwrap(), "kept");
}

#[test]
fn request_with_one_space_is_an_error() {
    let mut attrs = HttpRequestAttributes::default();

    assert!(matches!(attrs.construct_url("GET www.example.com"), Err(ParseError::UrlString)));
    assert!(attrs.url.is_none());
}

#[test]
fn example_urls_are_constructed() {
    let mut attrs = HttpRequestAttributes::default();
    attrs.construct_url("GET www.example.com 123").unwrap();
    assert_eq!(attrs.url.as_ref().unwrap(), "http://www.example.com");

    attrs.construct_url("GET https://www.example.com 123").unwrap();
    assert_eq!(attrs.url.as_ref().unwrap(), "https://www.example.com");
}

#[test]
fn connect_target_becomes_a_url() {
    let mut attrs = HttpRequestAttributes::default();
    attrs.construct_url("CONNECT example.com:443 HTTP/1.1\r\nHost: example.com:443\r\n\r\n")
        .unwrap();
    assert_eq!(attrs.url.unwrap(), "http://example.com:443");
}

#[test]
fn short_and_empty_targets_get_the_prefix() {
    let mut attrs = HttpRequestAttributes::default();
    attrs.construct_url("GET ab 1").unwrap();
    assert_eq!(attrs.url.as_ref().unwrap(), "http://ab");

    attrs.construct_url("GET  1").unwrap();
    assert_eq!(attrs.url.as_ref().unwrap(), "http://");

    attrs.construct_url("GET htt 1").unwrap();
    assert_eq!(attrs.url.as_ref().unwrap(), "http://htt");
}

#[test]
fn prefix_is_never_put_twice() {
    let once = url_of_target("www.example.com");
    assert_eq!(once, "http://www.example.com");
    assert_eq!(url_of_target(&once), once);
    assert_eq!(url_of_target("https://www.example.com"), "https://www.example.com");
}

#[test]
fn target_that_only_begins_with_http_is_kept() {
    assert!(starts_with_scheme_mark("httpbin.org:80"));
    assert!(!starts_with_scheme_mark("htt"));
    assert!(!starts_with_scheme_mark("xhttp://a"));
    assert_eq!(url_of_target("httpbin.org:80"), "httpbin.org:80");
}

#[test]
fn authority_is_what_follows_seven_characters() {
    assert_eq!(authority_of("http://www.example.com:80"), "www.example.com:80");
    assert_eq!(authority_of("https://www.example.com:443"), "/www.example.com:443");
    assert_eq!(authority_of("http://"), "");
    assert_eq!(authority_of("http"), "");
    assert_eq!(authority_of("http://\u{e9}t\u{e9}:1"), "\u{e9}t\u{e9}:1");
}

#[test]
fn split_once_parts_stand_around_the_first_match() {
    assert_eq!(split_once("a:b:c", ':'), Some(("a", "b:c")));
    assert_eq!(split_once(":x", ':'), Some(("", "x")));
    assert_eq!(split_once("x:", ':'), Some(("x", "")));
    assert_eq!(split_once("abc", ':'), None);
    assert_eq!(split_once("", ':'), None);
    assert_eq!(split_once("\u{e9}:\u{fc}", ':'), Some(("\u{e9}", "\u{fc}")));
}

#[test]
fn missing_port_is_an_error_after_the_url_is_set() {
    let mut attrs = HttpRequestAttributes::default();

    let outcome = attrs.parse("GET http://www.example.com/ HTTP/1.0");

    assert!(matches!(outcome, Err(ParseError::PortNumber)));
    assert_eq!(attrs.url.unwrap(), "http://www.example.com/");
    assert!(attrs.host_name.is_none());
    assert!(attrs.port_number.is_none());
    assert!(attrs.ip_address.is_none());
}

#[test]
fn url_shorter_than_its_prefix_has_no_port() {
    let mut attrs = HttpRequestAttributes::default();

    let outcome = attrs.fetch_target_server_details("GET http 1");

    assert!(matches!(outcome, Err(ParseError::PortNumber)));
    assert_eq!(attrs.url.unwrap(), "http");
}

#[test]
fn unknown_host_is_a_resolution_error() {
    let mut attrs = HttpRequestAttributes::default();

    let outcome = attrs.parse("GET http://no-such-host.invalid:80 HTTP/1.0");

    assert!(matches!(outcome, Err(ParseError::Resolution)));
    assert_eq!(attrs.url.unwrap(), "http://no-such-host.invalid:80");
    assert!(attrs.host_name.is_none());
    assert!(attrs.ip_address.is_none());
}

#[test]
fn local_host_is_resolved() {
    let mut attrs = HttpRequestAttributes::default();

    attrs.parse("CONNECT localhost:8080 HTTP/1.1").unwrap();

    assert_eq!(attrs.url.unwrap(), "http://localhost:8080");
    assert_eq!(attrs.host_name.unwrap(), "localhost");
    assert_eq!(attrs.port_number.unwrap(), "8080");
    assert_eq!(attrs.ip_address.unwrap(), "127.0.0.1");
}

#[test]
fn port_is_all_that_follows_the_first_colon() {
    let mut attrs = HttpRequestAttributes::default();

    attrs.parse("GET http://localhost:8080/a:b HTTP/1.1").unwrap();

    assert_eq!(attrs.host_name.unwrap(), "localhost");
    assert_eq!(attrs.port_number.unwrap(), "8080/a:b");
}

#[test]
fn first_ipv4_address_is_recorded() {
    let mut attrs = HttpRequestAttributes::default();
    attrs.url = Some("http://www.example.com:80".to_string());
    let addresses = vec![v6("2606:2800:220:1::1"), v4("93.184.216.34"), v4("10.0.0.1")];

    let recorded = attrs.record_resolution("www.example.com", "80", &addresses);

    assert!(recorded);
    assert_eq!(attrs.url.unwrap(), "http://www.example.com:80");
    assert_eq!(attrs.host_name.unwrap(), "www.example.com");
    assert_eq!(attrs.port_number.unwrap(), "80");
    assert_eq!(attrs.ip_address.unwrap(), "93.184.216.34");
}

#[test]
fn answer_without_ipv4_records_nothing() {
    let mut attrs = HttpRequestAttributes::default();
    attrs.host_name = Some("old".to_string());

    assert!(!attrs.record_resolution("www.example.com", "80", &vec![v6("::1")]));
    assert_eq!(attrs.host_name.as_ref().unwrap(), "old");
    assert!(attrs.port_number.is_none());
    assert!(attrs.ip_address.is_none());

    assert!(!attrs.record_resolution("www.example.com", "80", &Vec::new()));
    assert_eq!(attrs.host_name.as_ref().unwrap(), "old");
}

#[test]
fn each_error_has_its_words() {
    assert_eq!(ParseError::UrlString.message(), "error parsing url string");
    assert_eq!(ParseError::PortNumber.message(), "error parsing port number");
    assert_eq!(ParseError::Resolution.message(), "error resolving host name");
}

#[test]
fn default_attributes_are_unset() {
    let attrs = HttpRequestAttributes::default();
    assert!(attrs.url.is_none());
    assert!(attrs.host_name.is_none());
    assert!(attrs.port_number.is_none());
    assert!(attrs.ip_address.is_none());
}

#[test]
fn bare_target_reads_as_its_url_does() {
    let mut bare = HttpRequestAttributes::default();
    bare.construct_url("CONNECT localhost:8080 HTTP/1.1").unwrap();
    let mut full = HttpRequestAttributes::default();
    full.construct_url("CONNECT http://localhost:8080 HTTP/1.1").unwrap();

    assert_eq!(bare.url, full.url);
    assert_eq!(authority_of(bare.url.as_ref().unwrap()), "localhost:8080");
}

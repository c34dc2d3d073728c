use hyper::Uri;
use rust_maven_proxy::error::ProxyError;
use rust_maven_proxy::uri;
use rust_maven_proxy::uri::UriParts;

fn parts(scheme: Option<&str>, authority: Option<&str>, path_and_query: Option<&str>) -> UriParts {
    UriParts {
        scheme: scheme.map(str::to_string),
        authority: authority.map(str::to_string),
        path_and_query: path_and_query.map(str::to_string),
    }
}

fn of_hyper(uri: &Uri) -> UriParts {
    UriParts {
        scheme: uri.scheme_str().map(str::to_string),
        authority: uri.authority().map(|a| a.as_str().to_string()),
        path_and_query: uri.path_and_query().map(|p| p.as_str().to_string()),
    }
}

#[test]
fn rewrite_uri() {
    let gav_raw =
        "/org/apache/maven/plugins/maven-compiler-plugin/3.8.1/maven-compiler-plugin-3.8.1.pom";
    let proxy_uri_raw = "https://repo1.maven.org/maven2";
    let proxy_uri = UriParts::parse(proxy_uri_raw).unwrap();
    let expected: Uri = format!("{}{}", proxy_uri_raw, gav_raw).parse().unwrap();
    let rewritten = uri::rewrite_uri(&proxy_uri, gav_raw).unwrap();
    assert_eq!(of_hyper(&expected), rewritten);
    assert_eq!(UriParts::parse(&format!("{}{}", proxy_uri_raw, gav_raw)).unwrap(), rewritten);
}

#[test]
fn rewrite_keeps_scheme_and_authority_and_joins_the_paths() {
    let base = parts(Some("https"), Some("repo1.example.org"), Some("/maven2"));
    let rewritten = uri::rewrite_uri(&base, "/org/x/lib/1.0/lib-1.0.pom").unwrap();
    assert_eq!(
        rewritten,
        parts(Some("https"), Some("repo1.example.org"), Some("/maven2/org/x/lib/1.0/lib-1.0.pom"))
    );
}

#[test]
fn rewrite_keeps_the_query_of_the_artifact_path() {
    let base = parts(Some("http"), Some("localhost:8081"), Some("/repo"));
    let rewritten = uri::rewrite_uri(&base, "/a/b.jar?version=1&x=y").unwrap();
    assert_eq!(rewritten.scheme.as_deref(), Some("http"));
    assert_eq!(rewritten.authority.as_deref(), Some("localhost:8081"));
    assert_eq!(rewritten.path_and_query.as_deref(), Some("/repo/a/b.jar?version=1&x=y"));
}

#[test]
fn rewrite_against_a_base_without_a_path_adds_nothing() {
    let base = UriParts::parse("https://repo.example.org").unwrap();
    assert_eq!(base.path_and_query, None);
    let rewritten = uri::rewrite_uri(&base, "/a.pom").unwrap();
    assert_eq!(rewritten.path_and_query.as_deref(), Some("/a.pom"));
}

#[test]
fn rewrite_against_a_base_without_a_path_is_the_uri_of_the_joined_text() {
    let base = UriParts::parse("https://example.org").unwrap();
    let rewritten = uri::rewrite_uri(&base, "/a/b.jar").unwrap();
    assert_eq!(rewritten, UriParts::parse("https://example.org/a/b.jar").unwrap());
    assert_eq!(rewritten, of_hyper(&"https://example.org/a/b.jar".parse::<Uri>().unwrap()));
    assert_eq!(rewritten, parts(Some("https"), Some("example.org"), Some("/a/b.jar")));
}

#[test]
fn rewrite_against_a_base_that_is_written_with_a_slash_keeps_the_slash() {
    let base = UriParts::parse("https://repo.example.org/").unwrap();
    assert_eq!(base.path_and_query.as_deref(), Some("/"));
    let rewritten = uri::rewrite_uri(&base, "/a.pom").unwrap();
    assert_eq!(rewritten.path_and_query.as_deref(), Some("//a.pom"));
}

#[test]
fn rewrite_against_a_base_with_a_query_only_joins_as_written() {
    let base = UriParts::parse("https://repo.example.org?x=1").unwrap();
    assert_eq!(base.path_and_query.as_deref(), Some("?x=1"));
    let rewritten = uri::rewrite_uri(&base, "/a.pom").unwrap();
    assert_eq!(rewritten.path_and_query.as_deref(), Some("?x=1/a.pom"));
}

#[test]
fn rewrite_without_a_base_path_takes_the_artifact_path() {
    let base = parts(None, None, None);
    let rewritten = uri::rewrite_uri(&base, "/only/path").unwrap();
    assert_eq!(rewritten, parts(None, None, Some("/only/path")));
}

#[test]
fn rewrite_of_an_unusual_scheme_keeps_it_as_written() {
    let base = parts(Some("HTTP"), Some("Example.ORG"), Some("/Base"));
    let rewritten = uri::rewrite_uri(&base, "/X").unwrap();
    assert_eq!(rewritten, parts(Some("HTTP"), Some("Example.ORG"), Some("/Base/X")));
}

#[test]
fn rewrite_fails_on_characters_that_no_path_holds() {
    let base = parts(Some("https"), Some("repo1.example.org"), Some("/maven2"));
    assert!(matches!(uri::rewrite_uri(&base, "/with space"), Err(ProxyError::HyperHttp(_))));
    assert!(matches!(uri::rewrite_uri(&base, "/caf\u{e9}"), Err(ProxyError::HyperHttp(_))));
}

#[test]
fn rewrite_fails_where_the_parts_make_no_uri() {
    let no_authority = parts(Some("https"), None, Some("/maven2"));
    assert!(matches!(uri::rewrite_uri(&no_authority, "/a"), Err(ProxyError::HyperHttp(_))));
    let no_scheme = parts(None, Some("repo1.example.org"), None);
    assert!(matches!(uri::rewrite_uri(&no_scheme, "/a"), Err(ProxyError::HyperHttp(_))));
    let bad_scheme = parts(Some("ht tp"), Some("repo1.example.org"), Some("/"));
    assert!(matches!(uri::rewrite_uri(&bad_scheme, "/a"), Err(ProxyError::HyperHttp(_))));
    let bad_authority = parts(Some("https"), Some("bad host"), Some("/"));
    assert!(matches!(uri::rewrite_uri(&bad_authority, "/a"), Err(ProxyError::HyperHttp(_))));
}

#[test]
fn rewrite_cuts_a_fragment_off() {
    let base = parts(Some("https"), Some("repo1.example.org"), Some("/maven2"));
    let rewritten = uri::rewrite_uri(&base, "/a#frag").unwrap();
    assert_eq!(rewritten.path_and_query.as_deref(), Some("/maven2/a"));
}

#[test]
fn rewrite_of_nothing_reads_as_the_root() {
    let rewritten = uri::rewrite_uri(&parts(None, None, None), "").unwrap();
    assert_eq!(rewritten.path_and_query.as_deref(), Some("/"));
}

#[test]
fn parse_reads_the_components() {
    let uri = UriParts::parse("https://repo1.maven.org/maven2?x=1").unwrap();
    assert_eq!(uri, parts(Some("https"), Some("repo1.maven.org"), Some("/maven2?x=1")));
    let path_only = UriParts::parse("/just/a/path").unwrap();
    assert_eq!(path_only, parts(None, None, Some("/just/a/path")));
    let authority_only = UriParts::parse("localhost:8080").unwrap();
    assert_eq!(authority_only, parts(None, Some("localhost:8080"), None));
}

#[test]
fn parse_gives_no_path_where_nothing_follows_the_authority() {
    for text in [
        "https://example.org",
        "http://example.org:8080",
        "HTTP://Example.ORG",
        "https://user@example.org",
        "https://[::1]:8081",
        "custom+scheme://host",
        "https://example.org#fragment",
        "https://example.org#/not/a/path",
    ] {
        let uri = UriParts::parse(text).unwrap();
        assert_eq!(uri.path_and_query, None, "{}", text);
        assert!(uri.scheme.is_some() && uri.authority.is_some(), "{}", text);
    }
}

#[test]
fn parse_keeps_a_path_that_is_written() {
    for (text, path) in [
        ("https://example.org/", "/"),
        ("https://example.org/#fragment", "/"),
        ("https://example.org/a", "/a"),
        ("https://example.org?q", "?q"),
        ("https://example.org/?q", "/?q"),
        ("HTTPS://example.org:443/", "/"),
        ("/", "/"),
        ("*", "*"),
    ] {
        assert_eq!(UriParts::parse(text).unwrap().path_and_query.as_deref(), Some(path), "{}", text);
    }
}

#[test]
fn without_implied_path_decides_on_the_text() {
    let read = parts(Some("https"), Some("h"), Some("/"));
    assert_eq!(
        uri::without_implied_path("https://h", read.clone()),
        parts(Some("https"), Some("h"), None)
    );
    assert_eq!(
        uri::without_implied_path("https://h#f", read.clone()),
        parts(Some("https"), Some("h"), None)
    );
    assert_eq!(uri::without_implied_path("https://h/", read.clone()), read);
    assert_eq!(uri::without_implied_path("https://h/#f", read.clone()), read);
    assert_eq!(uri::without_implied_path("", read.clone()), parts(Some("https"), Some("h"), None));
    let longer = parts(Some("https"), Some("h"), Some("/a"));
    assert_eq!(uri::without_implied_path("https://h", longer.clone()), longer);
    let relative = parts(None, None, Some("/"));
    assert_eq!(uri::without_implied_path("/", relative.clone()), relative);
    let no_authority = parts(Some("https"), None, Some("/"));
    assert_eq!(uri::without_implied_path("https://h", no_authority.clone()), no_authority);
}

#[test]
fn parse_lowers_a_well_known_scheme() {
    let uri = UriParts::parse("HTTP://example.org/x").unwrap();
    assert_eq!(uri.scheme.as_deref(), Some("http"));
}

#[test]
fn parse_refuses_what_is_no_uri() {
    assert!(matches!(UriParts::parse(""), Err(ProxyError::HyperHttp(_))));
    assert!(matches!(UriParts::parse("https://"), Err(ProxyError::HyperHttp(_))));
    assert!(matches!(UriParts::parse("/a b"), Err(ProxyError::HyperHttp(_))));
}

#[test]
fn rewrite_cuts_the_fragment_off_the_longest_text_that_is_read_in_full() {
    let base = parts(Some("https"), Some("repo1.example.org"), None);
    let gav = format!("/{}?b#x", "a".repeat(65530));
    assert_eq!(gav.len(), 65535);
    let rewritten = uri::rewrite_uri(&base, &gav).unwrap();
    assert_eq!(rewritten.path_and_query.as_deref(), Some(&gav[..65533]));
    let at_the_end = format!("/{}?#", "a".repeat(65532));
    assert_eq!(at_the_end.len(), 65535);
    let rewritten = uri::rewrite_uri(&base, &at_the_end).unwrap();
    assert_eq!(rewritten.path_and_query.as_deref(), Some(&at_the_end[..65534]));
}

#[test]
fn rewrite_keeps_a_long_text_without_fragment_whole() {
    let base = parts(Some("https"), Some("repo1.example.org"), Some("/maven2"));
    for gav in [
        format!("/{}", "a".repeat(70000)),
        format!("/{}?{}", "a".repeat(65527), "b".repeat(100)),
        format!("/{}?{}", "a".repeat(70000), "b".repeat(100)),
    ] {
        let rewritten = uri::rewrite_uri(&base, &gav).unwrap();
        assert_eq!(rewritten.path_and_query, Some(format!("/maven2{}", gav)));
    }
}

#[test]
fn rewrite_of_a_longer_text_with_a_fragment_keeps_scheme_and_authority() {
    let base = parts(Some("https"), Some("repo1.example.org"), None);
    let gav = format!("/{}?#x", "a".repeat(65534));
    let rewritten = uri::rewrite_uri(&base, &gav).unwrap();
    assert_eq!(rewritten.scheme.as_deref(), Some("https"));
    assert_eq!(rewritten.authority.as_deref(), Some("repo1.example.org"));
    assert!(rewritten.path_and_query.is_some());
}

use httpie::{parse_url, HttpieError};

#[test]
fn url_absolute_is_returned_unchanged() {
    let s = "https://httpbin.org/post?x=1";
    assert_eq!(parse_url(s).unwrap(), s);
}

#[test]
fn url_is_not_normalised() {
    let s = "HTTP://Example.COM";
    assert_eq!(parse_url(s).unwrap(), s);
}

#[test]
fn url_without_scheme_is_refused() {
    assert_eq!(
        parse_url("httpbin.org/get"),
        Err(HttpieError::InvalidUrl("httpbin.org/get".to_string()))
    );
    assert_eq!(parse_url(""), Err(HttpieError::InvalidUrl(String::new())));
}

#[test]
fn url_with_bad_host_is_refused() {
    assert!(matches!(parse_url("http://exa mple.com"), Err(HttpieError::InvalidUrl(_))));
}

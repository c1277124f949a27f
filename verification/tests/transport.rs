use pam_okta_auth::transport::{endpoint_url, Field, Request, Route};

#[test]
fn the_endpoint_address_is_under_oauth2_v1() {
    assert_eq!(endpoint_url("example.okta.com", "token"), "https://example.okta.com/oauth2/v1/token");
    assert_eq!(
        endpoint_url("login.example.org", "oob-authenticate"),
        "https://login.example.org/oauth2/v1/oob-authenticate"
    );
    assert_eq!(endpoint_url("h", "challenge"), "https://h/oauth2/v1/challenge");
    assert_eq!(endpoint_url("", ""), "https:///oauth2/v1/");
}

#[test]
fn fields_keep_their_order() {
    let mut request = Request::new("token", true);
    assert_eq!(request.endpoint, "token");
    assert!(request.fields.is_empty());
    assert!(request.escalate);
    request.push("a", "1");
    request.push("b", "2");
    request.push("a", "3");
    assert_eq!(
        request.fields,
        vec![Field::new("a", "1"), Field::new("b", "2"), Field::new("a", "3")]
    );
    assert_eq!(request.fields[1].name, "b");
    assert_eq!(request.fields[1].value, "2");
}

#[test]
fn only_refusals_of_escalating_requests_are_errors() {
    let loud = Request::new("token", true);
    let quiet = Request::new("token", false);
    assert!(loud.logs_as_error(false));
    assert!(!loud.logs_as_error(true));
    assert!(!quiet.logs_as_error(false));
    assert!(!quiet.logs_as_error(true));
}

#[test]
fn no_proxy_address_means_a_direct_route() {
    assert_eq!(Route::plan(""), Route::Direct);
    assert_eq!(Route::decide("", true), Route::Direct);
    assert_eq!(Route::decide("", false), Route::Direct);
}

#[test]
fn a_usable_proxy_address_is_taken() {
    assert_eq!(
        Route::plan("http://proxy.example.com:3128"),
        Route::Proxied("http://proxy.example.com:3128".to_string())
    );
    assert_eq!(Route::plan("localhost"), Route::Proxied("localhost".to_string()));
    assert_eq!(Route::decide("p", true), Route::Proxied("p".to_string()));
}

#[test]
fn an_unusable_proxy_address_falls_back_to_direct() {
    assert_eq!(
        Route::plan("ftp://proxy.example.com"),
        Route::ProxyRejected("ftp://proxy.example.com".to_string())
    );
    assert_eq!(Route::plan("not a uri"), Route::ProxyRejected("not a uri".to_string()));
    assert_eq!(Route::plan("/only/a/path"), Route::ProxyRejected("/only/a/path".to_string()));
    assert_eq!(Route::decide("p", false), Route::ProxyRejected("p".to_string()));
}

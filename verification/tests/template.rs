use connect_proxy::config::Config;
use connect_proxy::request::ConnectRequest;

fn example_config(with_credentials: bool) -> Config {
    let (username, password) = if with_credentials {
        (Some("alice".to_string()), Some("secret".to_string()))
    } else {
        (None, None)
    };
    Config::new(
        8080,
        "proxy.example:3128".to_string(),
        "example.com:443".to_string(),
        username,
        password,
    )
    .unwrap()
}

#[test]
fn scenario_connect_request_with_credentials() {
    let config = example_config(true);
    let template = ConnectRequest::new(&config);
    let rendered = template.render();
    assert_eq!(
        rendered,
        "CONNECT example.com:443 HTTP/1.1\r\nHost: example.com:443\r\n\
         Proxy-Authorization: Basic YWxpY2U6c2VjcmV0\r\n\r\n"
    );
}

#[test]
fn credentials_become_exact_basic_value() {
    let config = example_config(true);
    let template = ConnectRequest::new(&config);
    assert_eq!(template.target, "example.com:443");
    assert_eq!(template.auth.as_deref(), Some("Basic YWxpY2U6c2VjcmV0"));
}

#[test]
fn no_credentials_no_authorization_header() {
    let config = example_config(false);
    let template = ConnectRequest::new(&config);
    assert!(template.auth.is_none());
    let rendered = template.render();
    assert_eq!(
        rendered,
        "CONNECT example.com:443 HTTP/1.1\r\nHost: example.com:443\r\n\r\n"
    );
    assert!(!rendered.contains("Proxy-Authorization"));
}

#[test]
fn empty_credentials_still_encoded() {
    let config = Config::new(
        1,
        "proxy.example:3128".to_string(),
        "example.com:443".to_string(),
        Some(String::new()),
        Some(String::new()),
    )
    .unwrap();
    let template = ConnectRequest::new(&config);
    // base64 of ":" is "Og==".
    assert_eq!(template.auth.as_deref(), Some("Basic Og=="));
}

#[test]
fn template_clone_is_the_template() {
    let config = example_config(true);
    let template = ConnectRequest::new(&config);
    let copy = template.clone();
    assert_eq!(copy.target, template.target);
    assert_eq!(copy.auth, template.auth);
    assert_eq!(copy.render(), template.render());
}

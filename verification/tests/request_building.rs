use rs_crtsh::config::Config;
use rs_crtsh::request::{
    build_request, create_http_client, create_request_builder, create_request_context, default_headers,
    Header, HeaderValue, Method, OutboundRequest, RequestBuildError,
};

fn user_agent_header() -> Header {
    Header { name: String::from("user-agent"), value: HeaderValue::Text(String::from("rs-crtsh/1.0")) }
}

fn config_for(url: &str) -> Config {
    let mut config = Config::default();
    config.url = String::from(url);
    config.timeout = 12;
    config
}

#[test]
fn default_headers_name_the_client() {
    assert_eq!(default_headers(), vec![user_agent_header()]);
}

#[test]
fn request_is_a_get_of_the_configured_url() {
    assert_eq!(
        build_request(&config_for("https://example.test/q")),
        Ok(OutboundRequest {
            method: Method::Get,
            url: String::from("https://example.test/q"),
            headers: vec![user_agent_header()],
        })
    );
}

#[test]
fn supported_methods_build_a_request() {
    for method in [Method::Get, Method::Post, Method::Put, Method::Delete, Method::Head, Method::Patch] {
        let built = create_request_builder(&method, "https://example.test/q").unwrap();
        assert_eq!(built.method, method);
        assert_eq!(built.url, "https://example.test/q");
        assert_eq!(built.headers, vec![user_agent_header()]);
    }
}

#[test]
fn other_methods_are_refused() {
    for method in [Method::Options, Method::Connect, Method::Trace] {
        let error = create_request_builder(&method, "https://example.test/q").unwrap_err();
        assert_eq!(error, RequestBuildError::UnsupportedMethod);
        assert_eq!(error.message(), "Unknown HTTP method");
    }
}

#[test]
fn methods_are_written_in_upper_case() {
    assert_eq!(Method::Get.as_str(), "GET");
    assert_eq!(Method::Post.as_str(), "POST");
    assert_eq!(Method::Put.as_str(), "PUT");
    assert_eq!(Method::Delete.as_str(), "DELETE");
    assert_eq!(Method::Head.as_str(), "HEAD");
    assert_eq!(Method::Patch.as_str(), "PATCH");
    assert_eq!(Method::Options.as_str(), "OPTIONS");
    assert_eq!(Method::Connect.as_str(), "CONNECT");
    assert_eq!(Method::Trace.as_str(), "TRACE");
}

#[test]
fn client_takes_timeout_and_name() {
    let (client, headers) = create_http_client(&config_for("https://example.test/q"));
    assert_eq!(client.timeout_secs, 12);
    assert_eq!(client.user_agent, "rs-crtsh/1.0");
    assert_eq!(headers, vec![user_agent_header()]);
}

#[test]
fn context_holds_client_and_request() {
    let context = create_request_context(&config_for("https://example.test/q")).unwrap();
    assert_eq!(context.client.timeout_secs, 12);
    assert_eq!(context.client.user_agent, "rs-crtsh/1.0");
    assert_eq!(context.request.method, Method::Get);
    assert_eq!(context.request.url, "https://example.test/q");
    assert_eq!(context.request.headers, vec![user_agent_header()]);
    assert_eq!(context.default_headers, vec![user_agent_header()]);
}

use floodgate::client::{
    receive, repos_body, status_is_success, Method, TapClient, TapClientBuildError, TapOutcome,
    TapRequestError, TapResponse, REQUEST_TIMEOUT_SECS,
};
use floodgate::endpoint::Endpoint;
use floodgate::ident::Did;

fn client(base: &str) -> TapClient {
    TapClient::new(Endpoint::parse(base).unwrap()).unwrap()
}

fn did(text: &str) -> Did {
    Did::new(text).unwrap()
}

#[test]
fn a_client_takes_http_and_https_only() {
    assert!(TapClient::new(Endpoint::parse("http://localhost:2480").unwrap()).is_ok());
    assert!(TapClient::new(Endpoint::parse("https://tap.example").unwrap()).is_ok());
    for (base, scheme) in [("ws://tap.example", "ws"), ("wss://tap.example", "wss"), ("ftp://tap.example", "ftp")] {
        match TapClient::new(Endpoint::parse(base).unwrap()) {
            Err(TapClientBuildError::InvalidUrlScheme(named)) => assert_eq!(named, scheme),
            other => panic!("{:?}", other),
        }
    }
}

#[test]
fn client_build_errors_have_their_messages() {
    assert_eq!(
        TapClientBuildError::InvalidUrlScheme(String::from("ws")).message(),
        "invalid url scheme: ws. must be either http or https"
    );
    assert_eq!(
        TapClientBuildError::CouldntConstructHttpClient(String::from("no tls")).message(),
        "failed to construct the internal http client due to: no tls"
    );
    assert!(TapClientBuildError::InvalidPassword.message().starts_with("invalid password"));
}

#[test]
fn a_credential_becomes_the_authorization_of_every_request() {
    let built = TapClient::builder(Endpoint::parse("http://localhost:2480").unwrap())
        .password(Some(String::from("secret")))
        .build()
        .unwrap();
    assert_eq!(built.auth_header(), &Some(String::from("Basic YWRtaW46c2VjcmV0")));
    assert_eq!(client("http://localhost:2480").auth_header(), &None);
    assert_eq!(REQUEST_TIMEOUT_SECS, 30);
}

#[test]
fn requests_name_their_method_and_address() {
    let tap = client("http://localhost:2480/ignored");
    assert_eq!(tap.url().as_str(), "http://localhost:2480/ignored");
    let cases = vec![
        (tap.health(), "http://localhost:2480/health"),
        (tap.repo_count(), "http://localhost:2480/stats/repo-count"),
        (tap.record_count(), "http://localhost:2480/stats/record-count"),
        (tap.outbox_buffer(), "http://localhost:2480/stats/outbox-buffer"),
        (tap.resync_buffer(), "http://localhost:2480/stats/resync-buffer"),
        (tap.cursors(), "http://localhost:2480/stats/cursors"),
        (tap.resolve_did(&did("did:plc:abc")), "http://localhost:2480/resolve/did:plc:abc"),
        (tap.repo_info(&did("did:web:example.com")), "http://localhost:2480/info/did:web:example.com"),
    ];
    for (request, url) in cases {
        let request = request.unwrap();
        assert_eq!(request.method, Method::Get);
        assert_eq!(request.url, url);
        assert_eq!(request.body, None);
    }
}

#[test]
fn repository_requests_post_the_list_of_accounts() {
    let tap = client("https://tap.example");
    let dids = vec![did("did:plc:abc"), did("did:web:example.com")];
    let add = tap.add_repos(&dids).unwrap();
    assert_eq!(add.method, Method::Post);
    assert_eq!(add.url, "https://tap.example/repos/add");
    assert_eq!(add.body, Some(String::from(r#"{"dids":["did:plc:abc","did:web:example.com"]}"#)));
    let remove = tap.remove_repos(&dids).unwrap();
    assert_eq!(remove.method, Method::Post);
    assert_eq!(remove.url, "https://tap.example/repos/remove");
    assert_eq!(remove.body, add.body);
}

#[test]
fn the_body_of_a_repository_request_is_json() {
    for list in [vec![], vec!["did:plc:abc"], vec!["did:plc:a", "did:plc:b", "did:web:c%3A1"]] {
        let dids: Vec<Did> = list.iter().map(|text| did(text)).collect();
        let body = repos_body(&dids);
        let read: serde_json::Value = serde_json::from_str(&body).unwrap();
        let mut object = serde_json::Map::new();
        object.insert(
            String::from("dids"),
            serde_json::Value::Array(
                list.iter().map(|text| serde_json::Value::String(text.to_string())).collect(),
            ),
        );
        assert_eq!(read, serde_json::Value::Object(object));
        assert_eq!(body, serde_json::to_string(&read).unwrap());
    }
}

#[test]
fn an_answer_is_a_result_only_in_the_2xx_class() {
    for status in [0u16, 100, 101, 199, 200, 204, 299, 300, 404, 500] {
        assert_eq!(status_is_success(status), (200..300).contains(&status));
        let outcome = TapOutcome::Answered(TapResponse { status, body: vec![1, 2, 3] });
        match receive(outcome) {
            Ok(response) => {
                assert!((200..300).contains(&status));
                assert_eq!(response.status, status);
                assert_eq!(response.body, vec![1, 2, 3]);
            }
            Err(TapRequestError::ErrorResponse(response)) => {
                assert!(!(200..300).contains(&status));
                assert_eq!(response.status, status);
                assert_eq!(response.body, vec![1, 2, 3]);
            }
            Err(other) => panic!("{:?}", other),
        }
    }
}

#[test]
fn a_network_failure_is_a_network_error() {
    match receive(TapOutcome::Failed(String::from("timed out"))) {
        Err(TapRequestError::NetworkError(reason)) => assert_eq!(reason, "timed out"),
        other => panic!("{:?}", other),
    }
}

#[test]
fn the_channel_of_a_client_carries_its_address_and_credential() {
    let tap = TapClient::builder(Endpoint::parse("https://tap.example").unwrap())
        .password(Some(String::from("secret")))
        .build()
        .unwrap();
    let channel = tap.channel().max_concurrent(50).build().unwrap();
    assert_eq!(channel.base_url().as_str(), "https://tap.example/");
    assert_eq!(channel.auth_header(), &Some(String::from("Basic YWRtaW46c2VjcmV0")));
    assert_eq!(channel.max_concurrent(), 50);
    assert_eq!(channel.target().unwrap().as_str(), "wss://tap.example/channel");

    let open = client("http://localhost:2480").channel().build().unwrap();
    assert_eq!(open.auth_header(), &None);
    assert_eq!(open.max_concurrent(), 100);
}

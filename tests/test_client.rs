use clicksign::client::{Client, Endpoint, DEFAULT_HOST};

#[test]
fn test_new_client_with_default_host() {
    let client = Client::new("c9d91ece-9b3b-4def-abac-25b645cb083c", None);
    assert_eq!("https://app.clicksign.com/", client.host);
}

#[test]
fn test_new_client_with_no_default_host() {
    let client = Client::new(
        "c9d91ece-9b3b-4def-abac-25b645cb083c",
        Some("https://api.example.com"),
    );
    assert_eq!("https://api.example.com", client.host);
}

#[test]
fn test_build_url() {
    let client = Client::new(
        "c9d91ece-9b3b-4def-abac-25b645cb083c",
        Some("https://api.example.com/"),
    );
    let url = client.build_url("my-path");
    assert_eq!(
        "https://api.example.com/my-path?access_token=c9d91ece-9b3b-4def-abac-25b645cb083c",
        url
    );
}

#[test]
fn new_keeps_token_and_host_as_given() {
    let client = Client::new("some_access_token", Some(" odd host/ "));
    assert_eq!(" odd host/ ", client.host);
    assert_eq!("some_access_token", client.access_token);
    let default = Client::new("t", None);
    assert_eq!(DEFAULT_HOST, default.host);
    assert_eq!("t", default.access_token);
}

#[test]
fn build_url_without_trailing_slash_is_not_mended() {
    let client = Client::new("tok", Some("https://api.example.com"));
    assert_eq!("https://api.example.comfoo?access_token=tok", client.build_url("foo"));
}

#[test]
fn build_url_encodes_nothing() {
    let client = Client::new("a b&c", Some("h/"));
    assert_eq!("h/x y?access_token=a b&c", client.build_url("x y"));
    assert_eq!("h/?access_token=a b&c", client.build_url(""));
}

#[test]
fn endpoint_paths() {
    assert_eq!("templates/tpl1/documents", Endpoint::TemplateDocuments("tpl1".to_string()).path());
    assert_eq!("signers", Endpoint::Signers.path());
    assert_eq!("lists", Endpoint::Lists.path());
    assert_eq!("notifications", Endpoint::Notifications.path());
}

#[test]
fn url_for_each_operation() {
    let client = Client::new("tok", Some("https://api.example.com/"));
    assert_eq!(
        "https://api.example.com/templates/abc/documents?access_token=tok",
        client.url_for(&Endpoint::TemplateDocuments("abc".to_string()))
    );
    assert_eq!("https://api.example.com/signers?access_token=tok", client.url_for(&Endpoint::Signers));
    assert_eq!("https://api.example.com/lists?access_token=tok", client.url_for(&Endpoint::Lists));
    assert_eq!(
        "https://api.example.com/notifications?access_token=tok",
        client.url_for(&Endpoint::Notifications)
    );
}

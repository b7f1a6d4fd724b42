use clicksign::client::Client;
use clicksign::error::ClientError;

fn client() -> Client {
    Client::new("tok", Some("https://api.example.com/"))
}

const TEMPLATE_BODY: &str = r#"{"document": {"path": "/Modelos/Teste-123.docx", "template": {"data": {"Company Name": "Acme"}}}}"#;

#[test]
fn document_by_model_request_parses_body_and_builds_url() {
    let post = client().document_by_model_request("tpl1", TEMPLATE_BODY).unwrap();
    assert_eq!("https://api.example.com/templates/tpl1/documents?access_token=tok", post.url);
    let expected: serde_json::Value = serde_json::from_str(TEMPLATE_BODY).unwrap();
    assert_eq!(expected, post.body);
    assert_eq!("Acme", post.body["document"]["template"]["data"]["Company Name"]);
}

#[test]
fn document_by_model_request_rejects_malformed_body() {
    let r = client().document_by_model_request("tpl1", "{\"document\": ");
    match r {
        Err(ClientError::MalformedInput(message)) => assert!(!message.is_empty()),
        other => panic!("expected a malformed input, got {:?}", other),
    }
    assert!(matches!(client().document_by_model_request("tpl1", ""), Err(ClientError::MalformedInput(_))));
}

#[test]
fn document_by_model_returns_parsed_response() {
    let client = client();
    let post = client.document_by_model_request("tpl1", TEMPLATE_BODY).unwrap();
    assert!(post.url.contains("templates/tpl1/documents"));
    let value = client.document_by_model_response(201, "{\"key\": \"doc123\"}".to_string()).unwrap();
    let expected: serde_json::Value = serde_json::from_str("{\"key\": \"doc123\"}").unwrap();
    assert_eq!(expected, value);
}

#[test]
fn document_by_model_response_failures() {
    let client = client();
    assert!(matches!(
        client.document_by_model_response(200, "not json".to_string()),
        Err(ClientError::MalformedInput(_))
    ));
    assert!(matches!(client.document_by_model_response(500, "{}".to_string()), Err(ClientError::ServerError)));
    match client.document_by_model_response(400, "missing path".to_string()) {
        Err(ClientError::BadRequest(text)) => assert_eq!("missing path", text),
        other => panic!("expected a bad request, got {:?}", other),
    }
    assert!(matches!(
        client.document_by_model_response(302, "{}".to_string()),
        Err(ClientError::UnexpectedStatus(302))
    ));
}

#[test]
fn notification_request_takes_flat_string_object() {
    let body = r#"{"request_signature_key": "0d5a9615", "message": "Please sign", "url": "https://www.example.com/abc"}"#;
    let post = client().notification_request(body).unwrap();
    assert_eq!("https://api.example.com/notifications?access_token=tok", post.url);
    assert_eq!(3, post.body.len());
    assert_eq!("0d5a9615", post.body["request_signature_key"]);
    assert_eq!("Please sign", post.body["message"]);
    assert_eq!("https://www.example.com/abc", post.body["url"]);
}

#[test]
fn notification_request_rejects_other_shapes() {
    for body in ["{\"message\": 3}", "[\"a\"]", "{\"a\": {\"b\": \"c\"}}", "nope"] {
        assert!(matches!(client().notification_request(body), Err(ClientError::MalformedInput(_))));
    }
}

#[test]
fn notification_request_keeps_last_of_repeated_key() {
    let post = client().notification_request(r#"{"message": "first", "message": "second"}"#).unwrap();
    assert_eq!(1, post.body.len());
    assert_eq!("second", post.body["message"]);
}

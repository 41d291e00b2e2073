use letsencrypt_inwx::numbers::parse_i32;
use letsencrypt_inwx::rpc::{RpcError, RpcRequest, RpcRequestParameter, RpcRequestParameterValue, RpcResponse};

fn str_param(name: &'static str, value: &str) -> RpcRequestParameter {
    RpcRequestParameter { name, value: RpcRequestParameterValue::Str(value.to_owned()) }
}

fn int_param(name: &'static str, value: i32) -> RpcRequestParameter {
    RpcRequestParameter { name, value: RpcRequestParameterValue::Int(value) }
}

fn response_doc(members: &str) -> String {
    format!(
        "<?xml version=\"1.0\"?><methodResponse><params><param><value><struct>{}</struct></value></param></params></methodResponse>",
        members
    )
}

#[test]
fn encode_builds_exact_document() {
    let req = RpcRequest::new(
        "account.login",
        &[str_param("user", "alice"), str_param("pass", "secret")],
    );
    assert_eq!(req.method, "account.login");
    let mut expected = String::new();
    expected.push_str("<?xml version=\"1.0\"?><methodCall><methodName>account.login</methodName>");
    expected.push_str("<params><param><value><struct>");
    expected.push_str("<member><name>user</name><value><string>alice</string></value></member>");
    expected.push_str("<member><name>pass</name><value><string>secret</string></value></member>");
    expected.push_str("</struct></value></param></params></methodCall>");
    assert_eq!(req.body, expected);
}

#[test]
fn encode_escapes_markup_characters() {
    let req = RpcRequest::new("m", &[str_param("v", "a&b<c>d")]);
    assert!(req.body.contains("<string>a&amp;b&lt;c&gt;d</string>"));
}

#[test]
fn encode_renders_integers() {
    let req = RpcRequest::new("m", &[int_param("a", -42), int_param("b", 0), int_param("c", 20)]);
    assert!(req.body.contains("<int>-42</int>"));
    assert!(req.body.contains("<int>0</int>"));
    assert!(req.body.contains("<int>20</int>"));
}

#[test]
fn encode_renders_extreme_integers() {
    let req = RpcRequest::new("m", &[int_param("min", i32::MIN), int_param("max", i32::MAX)]);
    assert!(req.body.contains("<int>-2147483648</int>"));
    assert!(req.body.contains("<int>2147483647</int>"));
}

#[test]
fn integer_parsing_matches_the_standard_parser() {
    assert_eq!(parse_i32("0"), Some(0));
    assert_eq!(parse_i32("2147483647"), Some(i32::MAX));
    assert_eq!(parse_i32("-2147483648"), Some(i32::MIN));
    assert_eq!(parse_i32("2147483648"), None);
    assert_eq!(parse_i32("-2147483649"), None);
    assert_eq!(parse_i32("+5"), Some(5));
    assert_eq!(parse_i32("0001"), Some(1));
    assert_eq!(parse_i32(""), None);
    assert_eq!(parse_i32("-"), None);
    assert_eq!(parse_i32("12a"), None);
    assert_eq!(parse_i32(" 1"), None);
}

#[test]
fn decode_code_1999_is_success() {
    let doc = response_doc(
        "<member><name>code</name><value><int>1999</int></value></member>",
    );
    assert!(RpcResponse::new("m", &doc).is_ok());
}

#[test]
fn decode_code_2000_is_failure_with_empty_defaults() {
    let doc = response_doc(
        "<member><name>code</name><value><int>2000</int></value></member>",
    );
    match RpcResponse::new("m", &doc) {
        Err(RpcError::ApiError { method, msg, reason }) => {
            assert_eq!(method, "m");
            assert_eq!(msg, "");
            assert_eq!(reason, "");
        },
        other => panic!("expected an api error, got {:?}", other.err()),
    }
}

#[test]
fn decode_extracts_message_and_reason() {
    let doc = response_doc(
        "<member><name>code</name><value><int>2302</int></value></member>\
         <member><name>msg</name><value><string>Object exists</string></value></member>\
         <member><name>reason</name><value><string>duplicate</string></value></member>",
    );
    match RpcResponse::new("nameserver.createRecord", &doc) {
        Err(RpcError::ApiError { method, msg, reason }) => {
            assert_eq!(method, "nameserver.createRecord");
            assert_eq!(msg, "Object exists");
            assert_eq!(reason, "duplicate");
        },
        other => panic!("expected an api error, got {:?}", other.err()),
    }
}

#[test]
fn decode_missing_code_is_failure() {
    let doc = response_doc("<member><name>other</name><value><int>1</int></value></member>");
    assert!(matches!(
        RpcResponse::new("m", &doc),
        Err(RpcError::ApiError { .. })
    ));
}

#[test]
fn decode_malformed_document_is_invalid_response() {
    assert!(matches!(
        RpcResponse::new("m", "this is not a document"),
        Err(RpcError::InvalidResponse)
    ));
}

#[test]
fn decode_unparsable_code_is_failure() {
    let doc = response_doc(
        "<member><name>code</name><value><int>abc</int></value></member>",
    );
    assert!(matches!(RpcResponse::new("m", &doc), Err(RpcError::ApiError { .. })));
}

#[test]
fn round_trip_success_document() {
    // A document produced by the encoder, reread as a response by the
    // decoder's own traversal: the wrapper tag changes, the struct payload
    // does not.
    let req = RpcRequest::new("check", &[int_param("code", 1999)]);
    let doc = req.body.replace("methodCall", "methodResponse");
    assert!(RpcResponse::new("check", &doc).is_ok());
}

#[test]
fn round_trip_recovers_named_values() {
    let req = RpcRequest::new(
        "check",
        &[
            int_param("code", 2500),
            str_param("msg", "hello"),
            str_param("reason", "world"),
        ],
    );
    let doc = req.body.replace("methodCall", "methodResponse");
    match RpcResponse::new("check", &doc) {
        Err(RpcError::ApiError { method, msg, reason }) => {
            assert_eq!(method, "check");
            assert_eq!(msg, "hello");
            assert_eq!(reason, "world");
        },
        other => panic!("expected an api error, got {:?}", other.err()),
    }
}

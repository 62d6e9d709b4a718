use hue_bridge::error::ApiError;
use hue_bridge::json::{Json, Member};
use hue_bridge::normalize::{normalize, parse_error, unwrap_success};
use hue_bridge::transport::{check_status, Method, Payload, Reply, Request};

const URL: &str = "http://bridge.local/api/abc123/lights";

fn text(value: &str) -> Json {
    Json::Str(value.to_string())
}

fn object(entries: Vec<(&str, Json)>) -> Json {
    Json::Object(entries.into_iter().map(|(key, value)| Member::new(key, value)).collect())
}

fn request() -> Request {
    Request {
        method: Method::Get,
        host: "bridge.local".to_string(),
        path: "/api/abc123/lights".to_string(),
        body: None,
    }
}

fn answered(status: i64, body: Json) -> Reply {
    Reply::Answered { status, payload: Payload::Decoded(body) }
}

#[test]
fn update_error_becomes_bridge_error() {
    let body = Json::Array(vec![object(vec![(
        "error",
        object(vec![("type", Json::Int(201)), ("description", text("parameter not available"))]),
    )])]);
    assert_eq!(
        request().resolve(answered(200, body)),
        Err(ApiError::BridgeApi {
            code: 201,
            description: "parameter not available".to_string(),
            url: URL.to_string(),
        })
    );
}

#[test]
fn status_500_is_reported_whatever_the_body() {
    let expected = Err(ApiError::HttpStatus { code: 500, url: URL.to_string() });
    assert_eq!(request().resolve(answered(500, object(vec![]))), expected);
    assert_eq!(
        request().resolve(answered(500, object(vec![("success", Json::Bool(true))]))),
        expected
    );
    assert_eq!(
        request().resolve(Reply::Answered {
            status: 500,
            payload: Payload::Undecodable { reason: "not json".to_string() },
        }),
        expected
    );
}

#[test]
fn first_error_wins_and_later_elements_are_ignored() {
    let body = Json::Array(vec![
        object(vec![("name", text("Lamp"))]),
        object(vec![("error", object(vec![("type", Json::Int(7))]))]),
        object(vec![("error", object(vec![("type", Json::Int(8))]))]),
        object(vec![("success", Json::Int(1))]),
    ]);
    assert_eq!(
        normalize(body, URL),
        Err(ApiError::BridgeApi {
            code: 7,
            description: "no error description".to_string(),
            url: URL.to_string(),
        })
    );
}

#[test]
fn success_array_is_unwrapped_in_order() {
    let body = Json::Array(vec![
        object(vec![("success", Json::Int(1))]),
        object(vec![("success", text("two"))]),
        object(vec![("success", object(vec![("three", Json::Null)]))]),
    ]);
    assert_eq!(
        normalize(body, URL),
        Ok(Json::Array(vec![Json::Int(1), text("two"), object(vec![("three", Json::Null)])]))
    );
}

#[test]
fn array_elements_without_envelope_pass_through() {
    let body = Json::Array(vec![
        Json::Int(3),
        text("plain"),
        Json::Real(0x3FF8_0000_0000_0000),
        object(vec![("name", text("Lamp"))]),
        object(vec![("success", Json::Bool(false))]),
    ]);
    assert_eq!(
        normalize(body, URL),
        Ok(Json::Array(vec![
            Json::Int(3),
            text("plain"),
            Json::Real(0x3FF8_0000_0000_0000),
            object(vec![("name", text("Lamp"))]),
            Json::Bool(false),
        ]))
    );
}

#[test]
fn empty_array_stays_empty() {
    assert_eq!(normalize(Json::Array(vec![]), URL), Ok(Json::Array(vec![])));
}

#[test]
fn plain_object_is_unchanged() {
    let body = object(vec![("1", object(vec![("name", text("Lamp"))]))]);
    let same = object(vec![("1", object(vec![("name", text("Lamp"))]))]);
    assert_eq!(normalize(body, URL), Ok(same));
}

#[test]
fn normalizing_a_result_again_changes_nothing() {
    let body = object(vec![("name", text("Lamp")), ("bri", Json::Int(12))]);
    let once = normalize(body, URL).unwrap();
    let expected = object(vec![("name", text("Lamp")), ("bri", Json::Int(12))]);
    assert_eq!(normalize(once, URL), Ok(expected));
}

#[test]
fn object_with_success_is_unwrapped() {
    let body = object(vec![("success", object(vec![("username", text("abc123"))]))]);
    assert_eq!(normalize(body, URL), Ok(object(vec![("username", text("abc123"))])));
}

#[test]
fn object_with_error_is_a_bridge_error() {
    let body = object(vec![
        ("success", Json::Int(1)),
        ("error", object(vec![("type", Json::Int(3)), ("description", text("missing"))])),
    ]);
    assert_eq!(
        normalize(body, URL),
        Err(ApiError::BridgeApi { code: 3, description: "missing".to_string(), url: URL.to_string() })
    );
}

#[test]
fn error_fields_take_their_defaults() {
    let expected =
        ApiError::BridgeApi { code: 0, description: "no error description".to_string(), url: URL.to_string() };
    assert_eq!(parse_error(&text("broken"), URL), expected);
    assert_eq!(parse_error(&object(vec![]), URL), expected);
    assert_eq!(
        parse_error(&object(vec![("type", text("201")), ("description", Json::Int(5))]), URL),
        expected
    );
    assert_eq!(
        parse_error(&object(vec![("type", Json::Int(201))]), URL),
        ApiError::BridgeApi {
            code: 201,
            description: "no error description".to_string(),
            url: URL.to_string(),
        }
    );
    assert_eq!(
        parse_error(&object(vec![("description", text("only text"))]), URL),
        ApiError::BridgeApi { code: 0, description: "only text".to_string(), url: URL.to_string() }
    );
}

#[test]
fn top_level_scalar_is_malformed() {
    let expected = Err(ApiError::MalformedResponse {
        reason: "response is neither an object nor an array".to_string(),
    });
    assert_eq!(normalize(Json::Int(1), URL), expected);
    assert_eq!(normalize(text("x"), URL), expected);
    assert_eq!(normalize(Json::Null, URL), expected);
    assert_eq!(normalize(Json::Bool(true), URL), expected);
}

#[test]
fn undecodable_body_is_malformed() {
    assert_eq!(
        request().resolve(Reply::Answered {
            status: 200,
            payload: Payload::Undecodable { reason: "unexpected end of input".to_string() },
        }),
        Err(ApiError::MalformedResponse { reason: "unexpected end of input".to_string() })
    );
}

#[test]
fn failed_exchange_is_a_transport_error() {
    assert_eq!(
        request().resolve(Reply::Failed { message: "cancelled".to_string() }),
        Err(ApiError::Transport { message: "cancelled".to_string() })
    );
}

#[test]
fn status_range_is_200_to_299() {
    assert_eq!(check_status(200, URL), Ok(()));
    assert_eq!(check_status(204, URL), Ok(()));
    assert_eq!(check_status(299, URL), Ok(()));
    assert_eq!(check_status(199, URL), Err(ApiError::HttpStatus { code: 199, url: URL.to_string() }));
    assert_eq!(check_status(300, URL), Err(ApiError::HttpStatus { code: 300, url: URL.to_string() }));
    assert_eq!(check_status(404, URL), Err(ApiError::HttpStatus { code: 404, url: URL.to_string() }));
    assert_eq!(check_status(-1, URL), Err(ApiError::HttpStatus { code: -1, url: URL.to_string() }));
}

#[test]
fn every_2xx_status_normalizes_the_body() {
    let mut status: i64 = 200;
    while status < 300 {
        let reply = answered(status, object(vec![("success", Json::Int(status))]));
        assert_eq!(request().resolve(reply), Ok(Json::Int(status)));
        status += 1;
    }
}

#[test]
fn unwrap_success_takes_the_first_entry() {
    let value = object(vec![("a", Json::Int(1)), ("success", Json::Int(2)), ("success", Json::Int(3))]);
    assert_eq!(unwrap_success(value), Json::Int(2));
    assert_eq!(unwrap_success(Json::Int(9)), Json::Int(9));
}

#[test]
fn lookup_finds_the_first_entry_with_the_key() {
    let value = object(vec![("a", Json::Int(1)), ("b", Json::Int(2)), ("a", Json::Int(3))]);
    assert_eq!(value.get("a"), Some(&Json::Int(1)));
    assert_eq!(value.get("b"), Some(&Json::Int(2)));
    assert_eq!(value.get("c"), None);
    assert_eq!(Json::Int(1).get("a"), None);
    assert_eq!(text("x").as_str(), Some(&"x".to_string()));
    assert_eq!(Json::Int(4).as_int(), Some(4));
    assert_eq!(Json::Bool(true).as_bool(), Some(true));
    assert_eq!(Json::Int(4).as_bool(), None);
    assert_eq!(Json::Bool(true).as_int(), None);
    assert_eq!(Json::Int(1).as_str(), None);
}

#[test]
fn error_codes_are_exposed() {
    assert_eq!(ApiError::HttpStatus { code: 500, url: URL.to_string() }.code(), Some(500));
    assert_eq!(
        ApiError::BridgeApi { code: 201, description: "d".to_string(), url: URL.to_string() }.code(),
        Some(201)
    );
    assert_eq!(ApiError::Transport { message: "m".to_string() }.code(), None);
    assert_eq!(ApiError::MalformedResponse { reason: "r".to_string() }.code(), None);
}

use hit_counter::config::{Config, ConfigError};
use hit_counter::error::HandlerError;
use hit_counter::event::{decode, path_of, Decoded, Event};
use serde_json::Value;

fn document(text: &str) -> Value {
    serde_json::from_str::<Value>(text).unwrap()
}

#[test]
fn decode_finds_the_path_and_keeps_the_text() {
    let input = document("{\"path\":\"/home\",\"extra\":42}");
    let decoded = decode(&input).unwrap();
    assert_eq!(decoded.event, Event { path: "/home".to_string() });
    assert_eq!(decoded.raw, serde_json::to_string(&input).unwrap());
    assert_eq!(document(&decoded.raw), input);
}

#[test]
fn decode_writes_compact_text() {
    let decoded = decode(&document("{ \"path\" : \"/a b\" }")).unwrap();
    assert_eq!(decoded.raw, "{\"path\":\"/a b\"}");
    assert_eq!(decoded.event.path, "/a b");
}

#[test]
fn decode_accepts_an_empty_path() {
    let decoded = decode(&document("{\"path\":\"\"}")).unwrap();
    assert_eq!(decoded.event.path, "");
}

#[test]
fn decode_unescapes_the_path() {
    let decoded = decode(&document("{\"path\":\"/caf\\u00e9/\\\"x\\\"\"}")).unwrap();
    assert_eq!(decoded.event.path, "/caf\u{e9}/\"x\"");
}

#[test]
fn decode_rejects_a_missing_path() {
    assert_eq!(decode(&document("{}")), Err(HandlerError::Decode));
    assert_eq!(decode(&document("{\"Path\":\"/home\"}")), Err(HandlerError::Decode));
    assert_eq!(decode(&document("{\"nested\":{\"path\":\"/home\"}}")), Err(HandlerError::Decode));
}

#[test]
fn decode_rejects_a_path_that_is_no_string() {
    assert_eq!(decode(&document("{\"path\":1}")), Err(HandlerError::Decode));
    assert_eq!(decode(&document("{\"path\":true}")), Err(HandlerError::Decode));
    assert_eq!(decode(&document("{\"path\":{\"path\":\"/\"}}")), Err(HandlerError::Decode));
}

#[test]
fn decode_rejects_what_is_no_object() {
    assert_eq!(decode(&document("[\"/home\"]")), Err(HandlerError::Decode));
    assert_eq!(decode(&document("\"/home\"")), Err(HandlerError::Decode));
    assert_eq!(decode(&Value::Null), Err(HandlerError::Decode));
}

#[test]
fn path_of_reads_the_member() {
    assert_eq!(path_of(&document("{\"path\":\"/home\",\"extra\":42}")), Some("/home"));
    assert_eq!(path_of(&document("{\"extra\":42}")), None);
    assert_eq!(path_of(&document("{\"path\":42}")), None);
    assert_eq!(path_of(&Value::String("path".to_string())), None);
}

#[test]
fn from_parts_needs_both() {
    assert_eq!(
        Decoded::from_parts(Some("/p"), Some("{}".to_string())),
        Ok(Decoded { event: Event { path: "/p".to_string() }, raw: "{}".to_string() })
    );
    assert_eq!(Decoded::from_parts(None, Some("{}".to_string())), Err(HandlerError::Decode));
    assert_eq!(Decoded::from_parts(Some("/p"), None), Err(HandlerError::Decode));
    assert_eq!(Decoded::from_parts(None, None), Err(HandlerError::Decode));
}

#[test]
fn config_needs_both_identifiers() {
    assert_eq!(
        Config::from_values(Some("t".to_string()), Some("f".to_string())),
        Ok(Config { table_name: "t".to_string(), downstream_function_name: "f".to_string() })
    );
    assert_eq!(Config::from_values(None, Some("f".to_string())), Err(ConfigError::MissingTableName));
    assert_eq!(
        Config::from_values(Some("t".to_string()), None),
        Err(ConfigError::MissingDownstreamFunctionName)
    );
    assert_eq!(Config::from_values(None, None), Err(ConfigError::MissingTableName));
}

#[test]
fn each_failure_has_its_message() {
    assert_eq!(HandlerError::Decode.message(), "malformed event or response");
    assert_eq!(HandlerError::Store.message(), "counter update failed");
    assert_eq!(HandlerError::Invoke.message(), "downstream invocation failed");
}

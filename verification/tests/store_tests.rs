use config_ro::source::MapSource;
use config_ro::{Config, ConfigError, ConfigStore};
use serde_json::Value;

fn single_source(name: &str, content: &str) -> MapSource {
    let mut source = MapSource::new();
    source.set(name, content);
    source
}

#[test]
fn test_config_new_loads_file() {
    let store = ConfigStore::new();
    let source = single_source("test_config", "{\"key\": \"value\"}");

    let config = Config::new(&store, "test_config", &source).unwrap();

    assert_eq!(config.get::<String>(&store, "key").unwrap(), "value");
}

#[test]
fn test_config_get_existing_key() {
    let store = ConfigStore::new();
    let source = single_source(
        "db_config",
        "{\"db_host\": \"localhost\", \"db_port\": 5432,\"nested\":{\"name\":\"test\",\"id\":2}}",
    );

    let config = Config::new(&store, "db_config", &source).unwrap();
    let db_host = config.get::<Value>(&store, "db_host");
    let db_port = config.get::<Value>(&store, "db_port");
    let name = config.get::<Value>(&store, "nested.name");
    let id = config.get::<Value>(&store, "nested.id");

    assert_eq!(name, Some(Value::String("test".to_string())));
    assert_eq!(id, Some(Value::Number(2.into())));
    assert_eq!(db_host, Some(Value::String("localhost".to_string())));
    assert_eq!(db_port, Some(Value::Number(5432.into())));
}

#[test]
fn test_end_to_end_typed_access() {
    let store = ConfigStore::new();
    let source = single_source(
        "db_config_typed",
        "{\"db_host\":\"localhost\",\"db_port\":5432,\"nested\":{\"name\":\"test\",\"id\":2}}",
    );

    let config = Config::new(&store, "db_config_typed", &source).unwrap();

    assert_eq!(
        config.get::<String>(&store, "db_host"),
        Some("localhost".to_string())
    );
    assert_eq!(config.get::<i64>(&store, "db_port"), Some(5432));
    assert_eq!(
        config.get::<String>(&store, "nested.name"),
        Some("test".to_string())
    );
    assert_eq!(config.get::<i64>(&store, "nested.id"), Some(2));
    assert_eq!(config.get::<String>(&store, "nested.missing"), None);
}

#[test]
fn test_latest_text_wins_before_load() {
    let store = ConfigStore::new();
    let mut source = MapSource::new();
    source.set("shadowed", "{\"key\": 1}");
    source.set("shadowed", "{\"key\": 2}");

    let config = Config::new(&store, "shadowed", &source).unwrap();

    assert_eq!(config.get::<i64>(&store, "key"), Some(2));
}

#[test]
fn test_config_get_non_existing_key() {
    let store = ConfigStore::new();
    let source = single_source("test_config", "{\"existing_key\": \"value\"}");

    let config = Config::new(&store, "test_config", &source).unwrap();
    let result = config
        .get::<String>(&store, "non_existing_key")
        .unwrap_or("default_value".to_string());

    assert_eq!(result, "default_value".to_string());
}

#[test]
fn test_config_get_without_default() {
    let store = ConfigStore::new();
    let source = single_source("test_config", "{\"existing_key\": \"value\"}");

    let config = Config::new(&store, "test_config", &source).unwrap();
    let result = config.get::<String>(&store, "non_existing_key");

    assert_eq!(result, None);
}

#[test]
fn test_config_caching() {
    let store = ConfigStore::new();
    let mut source = single_source("cache_test", "{\"key\": \"value\"}");

    // First load reads from the source.
    let _config1 = Config::new(&store, "cache_test", &source).unwrap();

    // The underlying source changes.
    source.set("cache_test", "{\"key\": \"new_value\"}");

    // A second load must use the cached document.
    let config2 = Config::new(&store, "cache_test", &source).unwrap();
    let value = config2.get::<String>(&store, "key").unwrap();

    assert_eq!(value, "value".to_string());
}

#[test]
fn test_multiple_configs() {
    let store = ConfigStore::new();
    let mut source = MapSource::new();
    source.set("config1", "{\"key1\": \"value1\"}");
    source.set("config2", "{\"key2\": \"value2\"}");

    let config1 = Config::new(&store, "config1", &source).unwrap();
    let config2 = Config::new(&store, "config2", &source).unwrap();

    let value1 = config1.get::<String>(&store, "key1").unwrap();
    let value2 = config2.get::<String>(&store, "key2").unwrap();

    assert_eq!(value1, "value1".to_string());
    assert_eq!(value2, "value2".to_string());
}

#[test]
fn test_missing_source_reports_unavailable() {
    let store = ConfigStore::new();
    let source = MapSource::new();

    let outcome = Config::new(&store, "non_existent_config", &source);

    assert_eq!(outcome.err(), Some(ConfigError::SourceUnavailable));
}

#[test]
fn test_invalid_json_reports_malformed() {
    let store = ConfigStore::new();
    let source = single_source("invalid_config", "invalid json");

    let outcome = Config::new(&store, "invalid_config", &source);

    assert_eq!(outcome.err(), Some(ConfigError::MalformedSource));
}

#[test]
fn test_failure_isolation_and_retry() {
    let store = ConfigStore::new();
    let empty = MapSource::new();

    // A failed load leaves no entry behind for the name.
    let first = Config::new(&store, "missing", &empty);
    assert_eq!(first.err(), Some(ConfigError::SourceUnavailable));

    // Once the source exists, the same store loads it.
    let source = single_source("missing", "{\"key\": \"value\"}");
    let config = Config::new(&store, "missing", &source).unwrap();
    assert_eq!(config.get::<String>(&store, "key").unwrap(), "value");
}

#[test]
fn test_path_round_trip() {
    let store = ConfigStore::new();
    let source = single_source("round_trip", "{\"a\": {\"b\": 7}}");

    let config = Config::new(&store, "round_trip", &source).unwrap();

    assert_eq!(config.get::<i64>(&store, "a.b"), Some(7));
    // Wrong shape at the terminal node: not found.
    assert_eq!(config.get::<String>(&store, "a.b"), None);
    // Missing key: not found.
    assert_eq!(config.get::<i64>(&store, "a.c"), None);
}

#[test]
fn test_independence_across_names() {
    let store = ConfigStore::new();
    let source_x = single_source("x", "{\"k\": 1}");

    let config_x = Config::new(&store, "x", &source_x).unwrap();
    assert_eq!(config_x.get::<i64>(&store, "k"), Some(1));

    // Loading "x" cached nothing for "y".
    let missing_y = Config::new(&store, "y", &MapSource::new());
    assert_eq!(missing_y.err(), Some(ConfigError::SourceUnavailable));

    // Loading and querying "y" leaves "x" as it was.
    let source_y = single_source("y", "{\"k\": 2}");
    let config_y = Config::new(&store, "y", &source_y).unwrap();
    assert_eq!(config_y.get::<i64>(&store, "k"), Some(2));
    assert_eq!(config_x.get::<i64>(&store, "k"), Some(1));
}

#[test]
fn test_array_extraction() {
    let store = ConfigStore::new();
    let source = single_source("lists", "{\"xs\": [1, true, \"s\"], \"n\": 4}");

    let config = Config::new(&store, "lists", &source).unwrap();

    assert_eq!(
        config.get::<Vec<Value>>(&store, "xs"),
        Some(vec![
            Value::Number(1.into()),
            Value::Bool(true),
            Value::String("s".to_string()),
        ])
    );
    // A non-array node is not the array shape.
    assert_eq!(config.get::<Vec<Value>>(&store, "n"), None);
    // A missing key stays not-found.
    assert_eq!(config.get::<Vec<Value>>(&store, "ys"), None);
}

#[test]
fn test_bool_and_null_extraction() {
    let store = ConfigStore::new();
    let source = single_source("flags", "{\"flag\": true, \"nothing\": null}");

    let config = Config::new(&store, "flags", &source).unwrap();

    assert_eq!(config.get::<bool>(&store, "flag"), Some(true));
    assert_eq!(config.get::<bool>(&store, "nothing"), None);
    assert_eq!(config.get::<i64>(&store, "flag"), None);
}

#[test]
fn test_number_shapes() {
    let store = ConfigStore::new();
    let source = single_source(
        "numbers",
        "{\"int\": -12, \"frac\": 1.5, \"huge\": 18446744073709551615}",
    );

    let config = Config::new(&store, "numbers", &source).unwrap();

    assert_eq!(config.get::<i64>(&store, "int"), Some(-12));
    // A fractional number is not an integer shape.
    assert_eq!(config.get::<i64>(&store, "frac"), None);
    // An integer beyond 64 signed bits is not an integer shape either.
    assert_eq!(config.get::<i64>(&store, "huge"), None);
}

#[test]
fn test_empty_path_segments() {
    let store = ConfigStore::new();
    let source = single_source("odd_keys", "{\"a\": {\"\": {\"b\": 3}}, \"\": 5}");

    let config = Config::new(&store, "odd_keys", &source).unwrap();

    // Consecutive dots name the empty key.
    assert_eq!(config.get::<i64>(&store, "a..b"), Some(3));
    // An empty path is one empty segment, looked up like any key.
    assert_eq!(config.get::<i64>(&store, ""), Some(5));
    // A descent through a non-object node: not found.
    assert_eq!(config.get::<i64>(&store, "a.b"), None);
}

#[test]
fn test_root_is_not_addressable() {
    let store = ConfigStore::new();
    let source = single_source("scalar", "7");

    let config = Config::new(&store, "scalar", &source).unwrap();

    // Even the empty path names a key lookup, which a scalar root fails.
    assert_eq!(config.get::<i64>(&store, ""), None);
}

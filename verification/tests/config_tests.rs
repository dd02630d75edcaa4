use kafka_to_http::config::{Config, ConsumerConfig, DeadLetterConfig, HttpConfig, group_id};

fn http_config(timeout: Option<u64>, max_retries: Option<u32>) -> HttpConfig {
    HttpConfig {
        target_host: String::from("http://localhost:8080"),
        target_endpoint: String::from("ingest"),
        timeout,
        max_retries,
    }
}

#[test]
fn timeout_defaults_to_five_seconds() {
    assert_eq!(http_config(None, None).effective_timeout_secs(), 5);
}

#[test]
fn explicit_timeout_wins() {
    assert_eq!(http_config(Some(30), None).effective_timeout_secs(), 30);
}

#[test]
fn max_retries_defaults_to_three() {
    assert_eq!(http_config(None, None).effective_max_retries(), 3);
}

#[test]
fn explicit_max_retries_wins() {
    assert_eq!(http_config(None, Some(7)).effective_max_retries(), 7);
}

#[test]
fn destination_joins_host_and_endpoint_with_slash() {
    let c = http_config(None, None);
    assert_eq!(c.destination(), "http://localhost:8080/ingest");
}

#[test]
fn group_id_joins_app_name_and_topic_with_dash() {
    let g = group_id(&String::from("app"), &String::from("orders"));
    assert_eq!(g, "app-orders");
}

#[test]
fn pool_size_zero_is_invalid() {
    let c = ConsumerConfig {
        host: String::from("localhost:9092"),
        topic: String::from("orders"),
        app_name: String::from("app"),
        pool_size: 0,
    };
    assert!(!c.is_valid());
}

#[test]
fn pool_size_one_is_valid() {
    let c = ConsumerConfig {
        host: String::from("localhost:9092"),
        topic: String::from("orders"),
        app_name: String::from("app"),
        pool_size: 1,
    };
    assert!(c.is_valid());
}

#[test]
fn config_path_needs_an_argument() {
    let args = vec![String::from("prog")];
    assert_eq!(Config::config_path(&args), Err("Not enough arguments"));
}

#[test]
fn config_path_is_the_first_argument() {
    let args = vec![String::from("prog"), String::from("bridge.yaml")];
    assert_eq!(Config::config_path(&args), Ok(&args[1]));
}

#[test]
fn dead_letter_config_holds_host_and_topic() {
    let d = DeadLetterConfig {
        host: String::from("localhost:9092"),
        topic: String::from("orders-dlq"),
    };
    assert_eq!(d.host, "localhost:9092");
    assert_eq!(d.topic, "orders-dlq");
}

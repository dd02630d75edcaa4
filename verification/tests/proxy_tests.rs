use kafka_to_http::application::ProxyApplication;
use kafka_to_http::config::{Config, ConsumerConfig, DeadLetterConfig, HttpConfig, ProxyConfig};
use kafka_to_http::delivery::AttemptResult;
use kafka_to_http::handler::MessageHandler;
use kafka_to_http::pool::WorkerPool;
use kafka_to_http::proxy::{Proxy, ProxyPhase};

fn consumer_config(pool_size: u32) -> ConsumerConfig {
    ConsumerConfig {
        host: String::from("localhost:9092"),
        topic: String::from("orders"),
        app_name: String::from("app"),
        pool_size,
    }
}

fn handler(dlq_topic: Option<&str>, max_retries: usize) -> MessageHandler {
    MessageHandler {
        msg_destination: String::from("http://localhost:8080/ingest"),
        timeout_secs: 5,
        dlq_config: dlq_topic.map(|t| DeadLetterConfig {
            host: String::from("localhost:9092"),
            topic: String::from(t),
        }),
        max_retries,
    }
}

fn built_proxy(dlq_topic: Option<&str>, max_retries: usize) -> Proxy {
    Proxy::build(consumer_config(2), handler(dlq_topic, max_retries)).unwrap()
}

#[test]
fn build_rejects_a_zero_worker_pool() {
    assert!(Proxy::build(consumer_config(0), handler(None, 3)).is_err());
}

#[test]
fn build_derives_the_consumer_group_from_app_name_and_topic() {
    let p = built_proxy(None, 3);
    assert_eq!(p.group, "app-orders");
    assert_eq!(p.topic, "orders");
    assert_eq!(p.pool.capacity, 2);
    assert_eq!(p.commits, 0);
    assert_eq!(p.phase, ProxyPhase::Polling);
}

#[test]
fn an_empty_batch_commits_nothing_and_keeps_polling() {
    let mut p = built_proxy(None, 3);
    let r = p.process_batch(&vec![], &vec![]);
    assert_eq!(p.commits, 0);
    assert_eq!(p.phase, ProxyPhase::Polling);
    assert_eq!(r.delivered, 0);
    assert!(r.dead_letters.is_empty());
    assert_eq!(r.dropped, 0);
}

#[test]
fn the_phases_cycle_and_commit_waits_for_the_last_completion() {
    let mut p = built_proxy(None, 3);
    p.batch_arrived(2);
    assert_eq!(p.phase, ProxyPhase::Dispatching);
    p.dispatch_record();
    assert_eq!(p.phase, ProxyPhase::Dispatching);
    assert!(!p.ready_to_commit());
    p.dispatch_record();
    assert_eq!(p.phase, ProxyPhase::Draining);
    assert!(!p.ready_to_commit());
    p.record_completed();
    assert!(!p.ready_to_commit());
    p.record_completed();
    assert!(p.ready_to_commit());
    assert_eq!(p.phase, ProxyPhase::Committing);
    p.commit_batch();
    assert_eq!(p.commits, 1);
    assert_eq!(p.phase, ProxyPhase::Polling);
}

#[test]
fn the_pool_admits_at_most_its_capacity() {
    let mut pool = WorkerPool::new(2);
    assert!(pool.has_free_worker());
    pool.begin_task();
    assert!(pool.has_free_worker());
    pool.begin_task();
    assert!(!pool.has_free_worker());
    pool.finish_task();
    assert!(pool.has_free_worker());
    pool.begin_task();
    assert!(!pool.has_free_worker());
}

#[test]
fn three_accepted_records_are_committed_once_with_no_dead_letters() {
    let mut p = built_proxy(Some("orders-dlq"), 3);
    let records = vec![b"a".to_vec(), b"b".to_vec(), b"c".to_vec()];
    let ok = vec![AttemptResult::Status(200); 4];
    let scripts = vec![ok.clone(), ok.clone(), ok];
    let r = p.process_batch(&records, &scripts);
    assert_eq!(r.delivered, 3);
    assert!(r.dead_letters.is_empty());
    assert_eq!(r.dropped, 0);
    assert_eq!(p.commits, 1);
    assert_eq!(p.phase, ProxyPhase::Polling);
}

#[test]
fn a_record_the_destination_never_accepts_is_dead_lettered_and_committed() {
    let mut p = built_proxy(Some("orders-dlq"), 2);
    let records = vec![b"x".to_vec()];
    let scripts = vec![vec![AttemptResult::Status(500); 3]];
    let handler_view = handler(Some("orders-dlq"), 2);
    let direct = handler_view.handle_scripted(b"x".to_vec(), &scripts[0]);
    assert_eq!(direct.attempts, 3);
    let r = p.process_batch(&records, &scripts);
    assert_eq!(r.delivered, 0);
    assert_eq!(r.dead_letters, vec![b"x".to_vec()]);
    assert_eq!(r.dropped, 0);
    assert_eq!(p.commits, 1);
}

#[test]
fn a_mixed_batch_splits_into_delivered_and_dead_lettered() {
    let mut p = built_proxy(Some("orders-dlq"), 1);
    let records = vec![b"good".to_vec(), b"bad".to_vec(), b"late".to_vec()];
    let scripts = vec![
        vec![AttemptResult::Status(201), AttemptResult::Status(201)],
        vec![AttemptResult::Status(503), AttemptResult::TransportError],
        vec![AttemptResult::Status(500), AttemptResult::Status(302)],
    ];
    let r = p.process_batch(&records, &scripts);
    assert_eq!(r.delivered, 2);
    assert_eq!(r.dead_letters, vec![b"bad".to_vec()]);
    assert_eq!(r.dropped, 0);
    assert_eq!(p.commits, 1);
}

#[test]
fn without_a_sink_failed_records_are_dropped_not_published() {
    let mut p = built_proxy(None, 1);
    let records = vec![b"one".to_vec(), b"two".to_vec()];
    let scripts = vec![
        vec![AttemptResult::Status(503), AttemptResult::Status(503)],
        vec![AttemptResult::Status(200), AttemptResult::Status(200)],
    ];
    let r = p.process_batch(&records, &scripts);
    assert_eq!(r.delivered, 1);
    assert!(r.dead_letters.is_empty());
    assert_eq!(r.dropped, 1);
    assert_eq!(p.commits, 1);
}

fn proxy_config(pool_size: u32) -> ProxyConfig {
    ProxyConfig {
        consumer_config: consumer_config(pool_size),
        http_config: HttpConfig {
            target_host: String::from("http://localhost:8080"),
            target_endpoint: String::from("ingest"),
            timeout: Some(2),
            max_retries: Some(1),
        },
        deadletter_config: Some(DeadLetterConfig {
            host: String::from("localhost:9092"),
            topic: String::from("orders-dlq"),
        }),
    }
}

#[test]
fn the_application_builds_one_proxy_per_entry() {
    let app = ProxyApplication::build(Config { proxies: vec![proxy_config(1), proxy_config(4)] })
        .unwrap();
    assert_eq!(app.proxies.len(), 2);
    assert_eq!(app.proxies[0].pool.capacity, 1);
    assert_eq!(app.proxies[1].pool.capacity, 4);
    assert_eq!(app.proxies[0].group, "app-orders");
    assert_eq!(app.proxies[0].handler.max_retries, 1);
    assert_eq!(app.proxies[0].handler.timeout_secs, 2);
}

#[test]
fn one_invalid_entry_fails_the_whole_application() {
    let r = ProxyApplication::build(Config { proxies: vec![proxy_config(1), proxy_config(0)] });
    assert!(r.is_err());
}

use chrono::Datelike;
use pica::background::{event_buffer_step, metric_buffer_step, BufferAction, BufferEvent, MetricAction, MetricEvent};
use pica::common::{Environment, Id, Ownership, RecordMetadata, Settings};
use pica::connection::{Connection, ConnectionType, Throughput};
use pica::k8s::{database_deployment, database_labels, database_service, DATABASE_PORT};
use pica::metrics::{Action, CivilDate, Metric, MetricType};
use pica::string_map::{Duplicate, KeyedMap};
use pica::tracking::{Context, IdentifyData, JsonValue, Page, TrackData, TrackType, TrackedMetric};
use pica::watchdog::{task_claim, task_timeout_secs, CacheConfig, DatabaseConfig, WatchdogConfig};
use std::sync::Arc;

#[test]
fn events_are_saved_in_full_batches_or_on_timeout() {
    let mut buffer: Vec<u32> = Vec::new();
    let mut saved: Vec<u32> = Vec::new();
    for e in 1..=7u32 {
        if let BufferAction::Save(batch) = event_buffer_step(&mut buffer, 3, BufferEvent::Received(e)) {
            assert_eq!(batch.len(), 3);
            saved.extend(batch);
        }
    }
    assert_eq!(saved, vec![1, 2, 3, 4, 5, 6]);
    assert_eq!(buffer, vec![7]);
    match event_buffer_step(&mut buffer, 3, BufferEvent::TimedOut) {
        BufferAction::Save(batch) => assert_eq!(batch, vec![7]),
        _ => panic!("a timeout saves what is buffered"),
    }
    assert!(matches!(event_buffer_step(&mut buffer, 3, BufferEvent::TimedOut), BufferAction::Wait));
    buffer.push(9);
    assert!(matches!(event_buffer_step(&mut buffer, 3, BufferEvent::Closed), BufferAction::Stop));
    assert_eq!(buffer, vec![9]);
}

#[test]
fn metrics_are_tracked_on_timeout_except_passthrough() {
    let mut buffer: Vec<u8> = Vec::new();
    assert!(matches!(metric_buffer_step(&mut buffer, MetricEvent::Received(1), false), MetricAction::Record));
    assert!(matches!(metric_buffer_step(&mut buffer, MetricEvent::Received(2), true), MetricAction::RecordOnly));
    match metric_buffer_step(&mut buffer, MetricEvent::TimedOut, false) {
        MetricAction::Track(v) => assert_eq!(v, vec![1]),
        _ => panic!("expected tracking"),
    }
    assert!(buffer.is_empty());
    assert!(matches!(metric_buffer_step(&mut buffer, MetricEvent::Closed, false), MetricAction::Stop));
}

#[test]
fn every_metric_but_passthrough_is_tracked_once_in_order() {
    let mut buffer: Vec<u8> = Vec::new();
    let mut tracked_all: Vec<u8> = Vec::new();
    let events = vec![
        (MetricEvent::Received(1), false),
        (MetricEvent::Received(2), true),
        (MetricEvent::TimedOut, false),
        (MetricEvent::Received(3), false),
        (MetricEvent::Received(4), false),
        (MetricEvent::TimedOut, false),
        (MetricEvent::Received(5), false),
    ];
    for (event, passthrough) in events {
        if let MetricAction::Track(batch) = metric_buffer_step(&mut buffer, event, passthrough) {
            tracked_all.extend(batch);
        }
    }
    tracked_all.extend(buffer);
    assert_eq!(tracked_all, vec![1, 3, 4, 5]);
}

fn connection() -> Connection {
    Connection {
        id: Id::from_string("conn::1".to_string()),
        platform_version: "1.0".to_string(),
        connection_definition_id: Id::from_string("def::1".to_string()),
        kind: ConnectionType::Api {},
        key: "test::stripe::default::u".to_string(),
        group: "g".to_string(),
        name: None,
        environment: Environment::Test,
        platform: "stripe".to_string(),
        secrets_service_id: "s".to_string(),
        event_access_id: None,
        access_key: None,
        identity: None,
        identity_type: None,
        settings: Settings::default(),
        throughput: Throughput { key: "k".to_string(), limit: 1 },
        ownership: Ownership { id: "owner".to_string(), client_id: "client".to_string(), organization_id: None, project_id: None, user_id: None },
        oauth: None,
        has_error: false,
        error: None,
        record_metadata: RecordMetadata::default(),
    }
}

#[test]
fn metric_counters_use_type_platform_day_and_month() {
    let m = Metric {
        metric_type: MetricType::Unified(Arc::new(connection())),
        date: CivilDate { year: 2024, month: 3, day: 7, timestamp_millis: 1709769600000 },
        action: None,
    };
    let u = m.update_doc();
    assert_eq!(
        u.increments,
        vec![
            "unified.total",
            "unified.platforms.stripe.total",
            "unified.daily.2024-03-07",
            "unified.platforms.stripe.daily.2024-03-07",
            "unified.monthly.2024-03",
            "unified.platforms.stripe.monthly.2024-03",
        ]
    );
    assert_eq!(u.created_at, 1709769600000);
    assert_eq!(m.metric_type.event_name(), "Called Unified API");
    assert!(!m.is_passthrough());
    assert_eq!(m.platform(), "stripe");
    let p = Metric::passthrough(Arc::new(connection()));
    assert!(p.is_passthrough());
    assert!((1..=12).contains(&p.date.month));
    let instant = chrono::DateTime::from_timestamp_millis(p.date.timestamp_millis).unwrap();
    assert_eq!((instant.year(), instant.month(), instant.day()), (p.date.year, p.date.month, p.date.day));
    assert_eq!(p.update_doc().increments[0], "passthrough.total");
}

#[test]
fn metric_events_carry_the_connection() {
    let m = Metric::unified(Arc::new(connection()), Action { name: "Customers".to_string(), action: "getMany".to_string() });
    let e = m.track();
    assert_eq!(e.event, "Called Unified API");
    assert_eq!(e.distinct_id, "owner");
    assert!(matches!(e.properties.get("commonModel"), Some(JsonValue::Str(s)) if s == "Customers"));
    assert!(matches!(e.properties.get("environment"), Some(JsonValue::Str(s)) if s == "test"));
    assert!(matches!(e.properties.get("connectionDefinitionId"), Some(JsonValue::Str(s)) if s == "conn::1"));
    assert_eq!(e.properties.len(), 9);

    let mut access_owner = connection().ownership;
    access_owner.user_id = Some("user-9".to_string());
    let access = pica::event_access::EventAccess {
        id: Id::from_string("a".to_string()),
        name: String::new(),
        key: String::new(),
        namespace: String::new(),
        platform: "xero".to_string(),
        kind: pica::connection_definition::ConnectionDefinitionType::Api,
        group: String::new(),
        ownership: access_owner,
        paths: pica::connection_definition::Paths::default(),
        access_key: String::new(),
        environment: Environment::Live,
        record_metadata: RecordMetadata::default(),
        throughput: 1,
    };
    let access = Arc::new(access);
    let e = Metric::rate_limited(access.clone(), Some(b"key-1".to_vec())).track();
    assert_eq!(e.event, "Reached Rate Limit");
    assert_eq!(e.distinct_id, "user-9");
    assert!(matches!(e.properties.get("key"), Some(JsonValue::Str(s)) if s == "key-1"));
    let e = Metric::rate_limited(access.clone(), Some(vec![0xff, b'a'])).track();
    assert!(matches!(e.properties.get("key"), Some(JsonValue::Str(s)) if s.is_empty()));
    let e = Metric::rate_limited(access, None).track();
    assert!(matches!(e.properties.get("key"), Some(JsonValue::Null)));
}

fn context() -> Context {
    Context {
        locale: "en".to_string(),
        page: Page { path: "/p".to_string(), search: "?q".to_string(), title: "T".to_string(), url: "https://u".to_string() },
        user_agent: "agent".to_string(),
    }
}

#[test]
fn tracked_metrics_add_their_context() {
    let mut props = KeyedMap::new();
    props.insert("locale".to_string(), JsonValue::Raw("\"fr\"".to_string()));
    props.insert("plan".to_string(), JsonValue::Raw("{\"tier\":2}".to_string()));
    let m = TrackedMetric { data: TrackType::Track { data: TrackData { event: "Clicked".to_string(), user_id: "u1".to_string(), properties: props, context: context() } } };
    assert_eq!(m.event(), "Clicked");
    assert_eq!(m.user_id(), "u1");
    let e = m.track();
    assert_eq!(e.event, "Clicked");
    assert_eq!(e.distinct_id, "u1");
    assert!(matches!(e.properties.get("locale"), Some(JsonValue::Str(s)) if s == "en"));
    assert!(matches!(e.properties.get("plan"), Some(JsonValue::Raw(s)) if s == "{\"tier\":2}"));
    assert!(matches!(e.properties.get("url"), Some(JsonValue::Str(s)) if s == "https://u"));
    assert_eq!(e.properties.len(), 7);
    assert!(e.set_properties.is_none());

    let mut traits = KeyedMap::new();
    traits.insert("name".to_string(), JsonValue::Str("Ada".to_string()));
    let m = TrackedMetric { data: TrackType::Identify { data: IdentifyData { user_id: "u2".to_string(), traits: traits.duplicate(), context: context() } } };
    assert_eq!(m.event(), "identify");
    let e = m.track();
    assert_eq!(e.event, "$set");
    assert_eq!(e.properties.len(), 0);
    let set = e.set_properties.unwrap();
    assert!(matches!(set.get("version"), Some(JsonValue::Null)));
    assert!(matches!(set.get("user_id"), Some(JsonValue::Str(s)) if s == "u2"));
    assert!(matches!(set.get("name"), Some(JsonValue::Str(s)) if s == "Ada"));
    assert_eq!(set.len(), 9);
}

#[test]
fn database_resources() {
    let labels = database_labels("svc-1", "postgresql");
    assert_eq!(labels.get("app").unwrap(), "svc-1");
    assert_eq!(labels.get("database-type").unwrap(), "postgresql");
    let svc = database_service("svc-1".to_string(), "ns".to_string(), labels.duplicate());
    assert_eq!(svc.ports[0].port, 80);
    assert_eq!(svc.ports[0].target_port, Some(DATABASE_PORT));
    assert_eq!(svc.kind, "ClusterIP");
    let dep = database_deployment("svc-1".to_string(), "ns".to_string(), "img".to_string(), labels, &vec![("A".to_string(), "1".to_string())]);
    assert_eq!(dep.replicas, 1);
    assert_eq!(dep.env.len(), 2);
    assert_eq!(dep.env[0].name, "A");
    assert_eq!(dep.env[1].name, "JWT_SECRET");
    let r = dep.env[1].secret_key_ref.as_ref().unwrap();
    assert_eq!((r.key.as_str(), r.name.as_str(), r.optional), ("jwt-secret", "event-secrets", Some(false)));
}

#[test]
fn watchdog_settings() {
    assert_eq!(task_timeout_secs(true, 10), 300);
    assert_eq!(task_timeout_secs(false, 10), 10);
    let c = WatchdogConfig::with_defaults(
        CacheConfig { event_throughput_key: "e".to_string(), api_throughput_key: "a".to_string() },
        DatabaseConfig { event_db_url: "mongodb://x".to_string(), event_db_name: "events".to_string() },
    );
    assert_eq!((c.rate_limiter_refresh_interval, c.http_client_timeout_secs, c.max_amount_of_tasks_to_process), (10, 10, 100));
    let q = c.due_tasks(1_700_000_000_000);
    assert!(q.active);
    assert_eq!((q.worker_id, q.start_time_at_most, q.limit), (0, 1_700_000_000_000, 100));
    let claim = task_claim();
    assert_eq!((claim.worker_id, claim.active), (1, false));
}

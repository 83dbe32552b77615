use http::{HeaderMap, HeaderValue};
use pica::common::{Environment, Id, Ownership, RecordMetadata};
use pica::connection_definition::{ConnectionDefinitionType, Paths};
use pica::constants::{
    DELETED_FILTER, DUAL_ENVIRONMENT_HEADER, ENVIRONMENT_FILTER, LIMIT_FILTER, OWNERSHIP_FILTER,
    SKIP_FILTER,
};
use pica::event_access::EventAccess;
use pica::filter::{shape_mongo_filter, shape_query, FilterValue, MongoQuery};
use pica::string_map::{Duplicate, StringMap};
use pica::text::{parse_u64, string_to_vec};
use std::sync::Arc;

fn map(pairs: &[(&str, &str)]) -> StringMap {
    let mut m = StringMap::new();
    for (k, v) in pairs {
        m.insert(k.to_string(), v.to_string());
    }
    m
}

fn access(owner: &str, environment: Environment) -> Arc<EventAccess> {
    Arc::new(EventAccess {
        id: Id::from_string("evt_acc::1".to_string()),
        name: "name".to_string(),
        key: "key".to_string(),
        namespace: "default".to_string(),
        platform: "stripe".to_string(),
        kind: ConnectionDefinitionType::Api,
        group: "group".to_string(),
        ownership: Ownership::new(owner.to_string()),
        paths: Paths::default(),
        access_key: "access_key".to_string(),
        environment,
        record_metadata: RecordMetadata::default(),
        throughput: 1000,
    })
}

#[test]
fn test_shape_mongo_filter() {
    let params = map(&[
        (DELETED_FILTER, "true"),
        (OWNERSHIP_FILTER, "foo"),
        (ENVIRONMENT_FILTER, "bar"),
        (SKIP_FILTER, "10"),
        (LIMIT_FILTER, "10"),
    ]);

    let MongoQuery { filter: mut doc, skip, limit } =
        shape_mongo_filter(Some(params.duplicate()), None, None);
    assert_eq!(doc.get_str(OWNERSHIP_FILTER).unwrap(), "foo");
    assert_eq!(doc.get_str(ENVIRONMENT_FILTER).unwrap(), "bar");
    assert!(!doc.get_bool(DELETED_FILTER).unwrap());
    assert_eq!(limit, 10);
    assert_eq!(skip, 10);

    doc.insert(DELETED_FILTER.to_string(), FilterValue::Bool(true));
    assert!(doc.get_bool(DELETED_FILTER).unwrap());

    let event_access = access("baz", Environment::Test);

    let MongoQuery { filter: doc, .. } = shape_mongo_filter(Some(params), Some(event_access), None);
    assert_eq!(doc.get_str(OWNERSHIP_FILTER).unwrap(), "baz");
    assert_eq!(doc.get_str(ENVIRONMENT_FILTER).unwrap(), "test");
}

#[test]
fn shaping_after_the_headers_were_read() {
    let params = map(&[("platform", "stripe"), (ENVIRONMENT_FILTER, "live")]);
    let all = shape_query(Some(params.duplicate()), Some(access("baz", Environment::Live)), true);
    assert_eq!(all.filter.get_str(OWNERSHIP_FILTER).unwrap(), "baz");
    assert_eq!(all.filter.get_str("platform").unwrap(), "stripe");
    assert!(!all.filter.contains_key(ENVIRONMENT_FILTER));
    let one = shape_query(Some(params), Some(access("baz", Environment::Live)), false);
    assert_eq!(one.filter.get_str(ENVIRONMENT_FILTER).unwrap(), "live");
    let no_access = shape_query(None, None, true);
    assert_eq!(no_access.filter.len(), 1);
    assert!(!no_access.filter.get_bool(DELETED_FILTER).unwrap());
    assert_eq!((no_access.skip, no_access.limit), (0, 20));
}

#[test]
fn requesting_dual_environments() {
    let params = map(&[
        (DELETED_FILTER, "true"),
        ("ownership.buildableId", "foo"),
        ("environment", "bar"),
    ]);

    let mut headers = HeaderMap::new();
    headers.insert(DUAL_ENVIRONMENT_HEADER, "true".parse().unwrap());

    let event_access = access("baz", Environment::Test);

    let MongoQuery { filter: doc, .. } =
        shape_mongo_filter(Some(params.duplicate()), Some(event_access), Some(headers));

    assert!(!doc.contains_key(ENVIRONMENT_FILTER));
}

#[test]
fn dual_environment_header_must_read_true() {
    let mut headers = HeaderMap::new();
    headers.insert(DUAL_ENVIRONMENT_HEADER, HeaderValue::from_static("yes"));
    let q = shape_mongo_filter(None, Some(access("baz", Environment::Live)), Some(headers));
    assert_eq!(q.filter.get_str(ENVIRONMENT_FILTER).unwrap(), "live");

    let q = shape_mongo_filter(None, Some(access("baz", Environment::Live)), Some(HeaderMap::new()));
    assert_eq!(q.filter.get_str(ENVIRONMENT_FILTER).unwrap(), "live");
}

#[test]
fn headers_without_access_change_nothing() {
    let mut headers = HeaderMap::new();
    headers.insert(DUAL_ENVIRONMENT_HEADER, HeaderValue::from_static("true"));
    let q = shape_mongo_filter(Some(map(&[("environment", "bar")])), None, Some(headers));
    assert_eq!(q.filter.get_str(ENVIRONMENT_FILTER).unwrap(), "bar");
}

#[test]
fn empty_query_lists_undeleted_records_twenty_at_a_time() {
    let q = shape_mongo_filter(None, None, None);
    assert_eq!(q.limit, 20);
    assert_eq!(q.skip, 0);
    assert_eq!(q.filter.len(), 1);
    assert_eq!(q.filter.get_bool(DELETED_FILTER), Some(false));
}

#[test]
fn unparsable_window_falls_back_to_defaults() {
    let q = shape_mongo_filter(Some(map(&[("limit", "ten"), ("skip", "-3")])), None, None);
    assert_eq!(q.limit, 20);
    assert_eq!(q.skip, 0);
    let q = shape_mongo_filter(Some(map(&[("limit", "+7"), ("skip", "18446744073709551615")])), None, None);
    assert_eq!(q.limit, 7);
    assert_eq!(q.skip, u64::MAX);
    let q = shape_mongo_filter(Some(map(&[("skip", "18446744073709551616")])), None, None);
    assert_eq!(q.skip, 0);
}

#[test]
fn contains_and_regex_parameters() {
    let q = shape_mongo_filter(
        Some(map(&[("$in", "platform,stripe,xero"), ("$regex", "name,ACME,ignored"), ("active", "false")])),
        None,
        None,
    );
    match q.filter.get("platform") {
        Some(FilterValue::In(v)) => assert_eq!(v, &vec!["stripe".to_string(), "xero".to_string()]),
        _ => panic!("expected an $in filter"),
    }
    match q.filter.get("name") {
        Some(FilterValue::Regex { pattern, options }) => {
            assert_eq!(pattern, "ACME");
            assert_eq!(options, "i");
        }
        _ => panic!("expected a $regex filter"),
    }
    assert_eq!(q.filter.get_bool("active"), Some(false));
    // A regex without a pattern is ignored; an $in without values matches nothing.
    let q = shape_mongo_filter(Some(map(&[("$in", "platform"), ("$regex", "name")])), None, None);
    assert!(!q.filter.contains_key("name"));
    match q.filter.get("platform") {
        Some(FilterValue::In(v)) => assert!(v.is_empty()),
        _ => panic!("expected an $in filter"),
    }
}

#[test]
fn later_keys_override_earlier_ones() {
    // "$in" sorts before "name", so the plain parameter wins.
    let q = shape_mongo_filter(Some(map(&[("name", "x"), ("$in", "name,a")])), None, None);
    assert_eq!(q.filter.get_str("name").unwrap(), "x");
    // Keys keep the place of their first insertion, deleted comes last.
    assert_eq!(q.filter.entry(0).0, "name");
    assert_eq!(q.filter.entry(1).0, DELETED_FILTER);
}

#[test]
fn parses_like_std() {
    for s in ["0", "42", "+42", "", "+", "-1", " 1", "1 ", "18446744073709551615", "18446744073709551616", "007", "٣"] {
        assert_eq!(parse_u64(s), s.parse::<u64>().ok(), "input {s:?}");
    }
}

#[test]
fn splits_like_std() {
    for s in ["", ",", "a", "a,b", ",a,", "a,,b", "é,ü"] {
        let expected: Vec<String> = s.split(',').map(|x| x.to_string()).collect();
        assert_eq!(string_to_vec(s), expected);
    }
}

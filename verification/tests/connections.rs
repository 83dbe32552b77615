use pica::common::{Environment, Id, Ownership, RecordMetadata, Settings};
use pica::connection::{Platform, key_default, Connection, ConnectionIdentityType, ConnectionType, OAuth, SanitizedConnection, Throughput};
use pica::connection_definition::{
    AuthMethod, AuthSecret, Caveat, ConnectionDefinition, ConnectionDefinitionType, ConnectionForm,
    ConnectionStatus, Filter, FormDataItem, Frontend, ModelFeatures, ModelFilter, ModelSorting,
    Paths, PublicConnectionDetails, Spec,
};
use pica::connection_details::{
    needs_oauth_scopes, position_of_name, public_connection_details, ConnectionModelDefinition,
    CrudAction,
};
use pica::connection_ops::{
    apply_active, apply_update_fields, authorize_update, check_credentials_update,
    connection_test_waits, needs_resource_cleanup, new_connection, new_oauth_connection,
    oauth_expires_at, oauth_secret_entry, settings_owner_id, test_succeeded, CreateConnectionPayload,
    OAuthConnectionRequest,
};
use pica::error::ErrorKind;
use pica::event_access::EventAccess;
use pica::keys::{connection_key, new_connection_key, validate_identity};
use pica::listing::{vault_connections, ReadResponse};
use pica::available_connectors::{
    available_connector, available_connectors_query, restrict_to_connected_platforms,
    ConnectedPlatform, UserSettings,
};
use pica::filter::{Document, FilterValue};
use pica::string_map::StringMap;

fn definition(kind: ConnectionDefinitionType, auth_method: Option<AuthMethod>) -> ConnectionDefinition {
    ConnectionDefinition {
        id: Id::from_string("conn_def::1".to_string()),
        platform_version: "1.0".to_string(),
        platform: "stripe".to_string(),
        status: ConnectionStatus::Beta,
        key: "api::stripe::1.0".to_string(),
        kind,
        name: "Stripe".to_string(),
        auth_secrets: vec![
            AuthSecret { name: "API_KEY".to_string() },
            AuthSecret { name: "MISSING".to_string() },
            AuthSecret { name: "REGION".to_string() },
        ],
        auth_method,
        multi_env: false,
        frontend: Frontend {
            spec: Spec {
                title: "Stripe".to_string(),
                description: "Payments".to_string(),
                platform: "stripe".to_string(),
                category: "Finance".to_string(),
                image: "stripe.png".to_string(),
                tags: vec!["pay".to_string()],
                helper_link: None,
                markdown: None,
            },
            connection_form: ConnectionForm {
                name: "Connect".to_string(),
                description: "Securely connect your account".to_string(),
                form_data: vec![
                    FormDataItem {
                        name: "REGION".to_string(),
                        field_type: "text".to_string(),
                        label: "Region".to_string(),
                        placeholder: "eu".to_string(),
                        options: None,
                    },
                    FormDataItem {
                        name: "API_KEY".to_string(),
                        field_type: "password".to_string(),
                        label: "API Key".to_string(),
                        placeholder: "sk_...".to_string(),
                        options: None,
                    },
                ],
            },
        },
        paths: Paths::default(),
        settings: Settings { parse_webhook_body: false, show_secret: false, allow_custom_events: false, oauth: true },
        hidden: false,
        test_connection: None,
        test_delay_in_millis: None,
        record_metadata: RecordMetadata::default(),
    }
}

fn access(owner: &str, environment: Environment) -> EventAccess {
    EventAccess {
        id: Id::from_string("evt_acc::1".to_string()),
        name: "name".to_string(),
        key: "key".to_string(),
        namespace: "default".to_string(),
        platform: "stripe".to_string(),
        kind: ConnectionDefinitionType::Api,
        group: "group".to_string(),
        ownership: Ownership::new(owner.to_string()),
        paths: Paths::default(),
        access_key: "access_key".to_string(),
        environment,
        record_metadata: RecordMetadata::default(),
        throughput: 1000,
    }
}

fn payload(identity: Option<&str>, group: Option<&str>) -> CreateConnectionPayload {
    CreateConnectionPayload {
        connection_definition_id: Id::from_string("conn_def::1".to_string()),
        auth_form_data: vec![("API_KEY".to_string(), "sk".to_string())],
        active: true,
        identity: identity.map(|s| s.to_string()),
        identity_type: Some(ConnectionIdentityType::User),
        group: group.map(|s| s.to_string()),
        name: Some("mine".to_string()),
    }
}

fn connection(environment: Environment, owner: &str) -> Connection {
    let def = definition(ConnectionDefinitionType::Api, None);
    let acc = access(owner, environment);
    let key = connection_key(environment, "stripe", "abc", None, None);
    new_connection(
        Id::from_string("conn::1".to_string()),
        payload(None, None),
        def,
        &acc,
        key,
        500,
        "secret-1".to_string(),
        RecordMetadata::default(),
    )
}

#[test]
fn keys_join_environment_platform_namespace_and_suffix() {
    let k = connection_key(Environment::Test, "stripe", "u123", None, None);
    assert_eq!(k.group, "u123");
    assert_eq!(k.identity, "u123");
    assert_eq!(k.key, "test::stripe::default::u123");

    let k = connection_key(Environment::Live, "xero", "u1", Some("team".to_string()), None);
    assert_eq!(k.identity, "team");
    assert_eq!(k.key, "live::xero::default::u1|team");

    let k = connection_key(Environment::Live, "xero", "u1", None, Some("a b:c".to_string()));
    assert_eq!(k.group, "u1");
    assert_eq!(k.key, "live::xero::default::u1|a-b-c");
}

#[test]
fn fresh_keys_use_a_dashless_uuid() {
    let k = new_connection_key(Environment::Production, "shopify", None, None);
    assert_eq!(k.uuid.len(), 32);
    assert!(k.uuid.chars().all(|c| c.is_ascii_hexdigit() && !c.is_ascii_uppercase()));
    assert_eq!(k.key, format!("production::shopify::default::{}", k.uuid));
    let other = new_connection_key(Environment::Production, "shopify", None, None);
    assert_ne!(k.key, other.key);
}

#[test]
fn identities_are_limited_to_128_bytes() {
    assert!(validate_identity(&None).is_ok());
    assert!(validate_identity(&Some("x".repeat(128))).is_ok());
    let e = validate_identity(&Some("x".repeat(129))).unwrap_err();
    assert_eq!(e.kind, ErrorKind::BadRequest);
    assert_eq!(e.message, "Identity must not exceed 128 characters");
    // 64 two-byte characters are 128 bytes; 65 are too many.
    assert!(validate_identity(&Some("é".repeat(64))).is_ok());
    assert!(validate_identity(&Some("é".repeat(65))).is_err());
}

#[test]
fn created_connections_take_their_fields_from_the_definition_and_access() {
    let c = connection(Environment::Test, "baz");
    assert_eq!(c.key, "test::stripe::default::abc");
    assert_eq!(c.throughput.key, c.key);
    assert_eq!(c.throughput.limit, 500);
    assert_eq!(c.platform, "stripe");
    assert_eq!(c.identity.as_deref(), Some("abc"));
    assert_eq!(c.kind, ConnectionType::Api {});
    assert_eq!(c.ownership.id, "baz");
    assert!(!c.has_error);
    assert!(c.oauth.is_none());
    assert_eq!(c.name.as_deref(), Some("mine"));
}

#[test]
fn oauth_connections_expire_two_minutes_early() {
    assert_eq!(oauth_expires_at(1_000_000, 3600), 1_000_000 + 3600 - 120);
    assert_eq!(oauth_expires_at(1_000_000, -10), 1_000_000 - 10 - 120);
    // Past the last representable date the clock reading is used.
    assert_eq!(oauth_expires_at(i64::MAX, 10), i64::MAX);
    // A first step past the last date falls back to the clock reading, and the
    // margin is then taken from it.
    assert_eq!(oauth_expires_at(8_210_266_876_789, 100), 8_210_266_876_669);
    assert_eq!(oauth_expires_at(8_210_266_876_699, 100), 8_210_266_876_679);
    // A margin that would pass the first date falls back to the clock reading.
    assert_eq!(oauth_expires_at(-8_334_601_315_100, -50), -8_334_601_315_100);

    let def = definition(ConnectionDefinitionType::Api, Some(AuthMethod::OAuth));
    let acc = access("baz", Environment::Live);
    let key = connection_key(Environment::Live, "stripe", "abc", None, None);
    let c = new_oauth_connection(
        Id::from_string("conn::2".to_string()),
        "stripe-v2".to_string(),
        OAuthConnectionRequest { name: None, identity_type: None },
        def,
        Id::from_string("oauth_def::1".to_string()),
        &acc,
        key,
        10,
        "secret".to_string(),
        60,
        5_000,
        RecordMetadata::default(),
    );
    assert_eq!(c.platform, "stripe-v2");
    assert_eq!(c.connection_definition_id.as_str(), "conn_def::1");
    match c.oauth {
        Some(OAuth::Enabled { connection_oauth_definition_id, expires_in, expires_at }) => {
            assert_eq!(connection_oauth_definition_id.as_str(), "oauth_def::1");
            assert_eq!(expires_in, Some(60));
            assert_eq!(expires_at, Some(5_000 + 60 - 120));
        }
        _ => panic!("expected OAuth to be enabled"),
    }
}

#[test]
fn only_the_owner_in_its_environment_updates() {
    let c = connection(Environment::Test, "baz");
    assert!(authorize_update(&c, &access("baz", Environment::Test)).is_ok());
    let e = authorize_update(&c, &access("other", Environment::Test)).unwrap_err();
    assert_eq!(e.kind, ErrorKind::Forbidden);
    assert_eq!(e.message, "You do not have permission to update this connection");
    assert!(authorize_update(&c, &access("baz", Environment::Live)).is_err());
}

#[test]
fn updates_change_only_what_is_given() {
    let mut c = connection(Environment::Test, "baz");
    apply_update_fields(&mut c, None, Some(Throughput { key: "k".to_string(), limit: 9 }), Some("id2".to_string()), None);
    assert_eq!(c.throughput.limit, 9);
    assert_eq!(c.identity.as_deref(), Some("id2"));
    assert_eq!(c.identity_type, Some(ConnectionIdentityType::User));
    apply_active(&mut c, Some(false));
    assert!(!c.record_metadata.active);
    apply_active(&mut c, None);
    assert!(!c.record_metadata.active);
    let e = check_credentials_update(&definition(ConnectionDefinitionType::DatabaseSql, None)).unwrap_err();
    assert_eq!(e.message, "Unsupported platform for SQL connection");
    assert!(check_credentials_update(&definition(ConnectionDefinitionType::DatabaseNoSql, None)).is_ok());
}

#[test]
fn database_connections_need_cleanup_while_active() {
    let mut c = connection(Environment::Test, "baz");
    assert!(!needs_resource_cleanup(&c));
    c.kind = ConnectionType::DatabaseSql {};
    assert!(needs_resource_cleanup(&c));
    c.record_metadata.active = false;
    assert!(!needs_resource_cleanup(&c));
}

#[test]
fn connection_tests_wait_for_databases_and_positive_delays() {
    let mut def = definition(ConnectionDefinitionType::DatabaseSql, None);
    def.test_delay_in_millis = Some(250);
    let w = connection_test_waits(&def, 10);
    assert_eq!(w.probe_secs, Some(10));
    assert_eq!(w.delay_millis, Some(250));
    def.kind = ConnectionDefinitionType::Api;
    def.test_delay_in_millis = Some(-5);
    let w = connection_test_waits(&def, 10);
    assert_eq!(w.probe_secs, None);
    assert_eq!(w.delay_millis, None);
    assert!(test_succeeded(204));
    assert!(!test_succeeded(401));
}

#[test]
fn mark_error_and_sanitize() {
    let mut c = connection(Environment::Test, "baz");
    c.access_key = Some("hidden".to_string());
    c.mark_error("boom");
    assert!(c.has_error);
    assert_eq!(c.error.as_deref(), Some("boom"));
    let s: SanitizedConnection = c.into();
    assert_eq!(s.key, "test::stripe::default::abc");
    assert_eq!(s.error.as_deref(), Some("boom"));
    assert_eq!(key_default(), "");
}

#[test]
fn connections_are_equal_by_id() {
    let a = connection(Environment::Test, "baz");
    let mut b = connection(Environment::Live, "other");
    assert!(a == b);
    b.id = Id::from_string("conn::9".to_string());
    assert!(a != b);
}

#[test]
fn types_are_written_in_lower_case() {
    let pairs = [
        (ConnectionDefinitionType::Api, "api"),
        (ConnectionDefinitionType::DatabaseSql, "databasesql"),
        (ConnectionDefinitionType::DatabaseNoSql, "databasenosql"),
        (ConnectionDefinitionType::FileSystem, "filesystem"),
        (ConnectionDefinitionType::Stream, "stream"),
        (ConnectionDefinitionType::Custom, "custom"),
    ];
    for (kind, name) in pairs {
        assert_eq!(kind.as_str(), name);
        assert_eq!(definition(kind, None).to_connection_type().as_str(), name);
    }
    assert_eq!(Platform::PostgreSql.as_str(), "postgresql");
    assert_eq!(Platform::RabbitMq.as_str(), "rabbitmq");
}

#[test]
fn definitions_name_their_connection_type() {
    let d = definition(ConnectionDefinitionType::DatabaseNoSql, None);
    assert_eq!(d.to_connection_type(), ConnectionType::DatabaseNoSql);
    assert_eq!(definition(ConnectionDefinitionType::DatabaseSql, None).to_connection_type(), ConnectionType::DatabaseSql {});
    assert!(d.is_oauth());
}

fn details() -> PublicConnectionDetails {
    PublicConnectionDetails {
        platform: "stripe".to_string(),
        models: vec![ModelFeatures {
            name: "Customers".to_string(),
            pagination: true,
            filtration: ModelFilter {
                supported: true,
                filters: Some(vec![Filter { key: "email".to_string(), operators: vec!["eq".to_string()] }]),
            },
            sorting: ModelSorting { supported: false, keys: None },
        }],
        caveats: vec![
            Caveat { connection_model_definition_id: Some("cmd::1".to_string()), comments: vec!["slow".to_string()] },
            Caveat { connection_model_definition_id: Some("cmd::404".to_string()), comments: vec![] },
            Caveat { connection_model_definition_id: None, comments: vec!["beta".to_string()] },
        ],
    }
}

fn model_definitions() -> Vec<ConnectionModelDefinition> {
    vec![
        ConnectionModelDefinition { id: Id::from_string("cmd::1".to_string()), title: "List customers".to_string(), action_name: CrudAction::GetMany },
        ConnectionModelDefinition { id: Id::from_string("cmd::2".to_string()), title: "Create customer".to_string(), action_name: CrudAction::Create },
    ]
}

#[test]
fn public_details_describe_a_model() {
    let def = definition(ConnectionDefinitionType::Api, None);
    assert!(!needs_oauth_scopes(&def));
    let r = public_connection_details("customers", "stripe", &def, &model_definitions(), None, Some(details())).ok().unwrap();
    assert_eq!(r.platform, "stripe");
    assert_eq!(r.supported_actions, vec![CrudAction::GetMany, CrudAction::Create]);
    assert!(!r.oauth.enabled);
    assert_eq!(r.oauth.scopes, "");
    assert!(r.pagination && r.filtration && !r.sorting);
    assert_eq!(r.caveats.len(), 2);
    assert_eq!(r.caveats[0].name, "List customers");
    assert_eq!(r.caveats[0].action, Some(CrudAction::GetMany));
    assert_eq!(r.caveats[1].name, "General");
    assert_eq!(r.caveats[1].comments, vec!["beta".to_string()]);
    assert_eq!(r.supported_filters.unwrap()[0].key, "email");
    assert!(r.supported_sort_keys.is_none());
}

#[test]
fn models_are_found_by_their_lower_case_name() {
    let names = vec!["customers".to_string(), "invoices".to_string(), "invoices".to_string()];
    assert_eq!(position_of_name(&names, "invoices"), Some(1));
    assert_eq!(position_of_name(&names, "customers"), Some(0));
    assert_eq!(position_of_name(&names, "Invoices"), None);
    assert_eq!(position_of_name(&vec![], "invoices"), None);
}

#[test]
fn public_details_report_what_is_missing() {
    let oauth_def = definition(ConnectionDefinitionType::Api, Some(AuthMethod::OAuth));
    let e = public_connection_details("customers", "stripe", &oauth_def, &vec![], None, Some(details())).err().unwrap();
    assert_eq!(e.kind, ErrorKind::NotFound);
    assert_eq!(e.message, "OAuth Config for platform stripe");
    let r = public_connection_details("customers", "stripe", &oauth_def, &vec![], Some("read write".to_string()), Some(details())).ok().unwrap();
    assert!(r.oauth.enabled);
    assert_eq!(r.oauth.scopes, "read write");
    let def = definition(ConnectionDefinitionType::Api, None);
    let e = public_connection_details("customers", "stripe", &def, &vec![], None, None).err().unwrap();
    assert_eq!(e.message, "Public connection details for platform stripe");
    let e = public_connection_details("invoices", "stripe", &def, &vec![], None, Some(details())).err().unwrap();
    assert_eq!(e.message, "Model features for model invoices");
}

#[test]
fn connector_listing() {
    let mut params = StringMap::new();
    params.insert("authkit".to_string(), "true".to_string());
    let q = available_connectors_query(Some(params), http::HeaderMap::new());
    assert!(q.authkit_enabled);
    assert_eq!(q.query.filter.get_bool("active"), Some(true));
    assert!(!q.query.filter.contains_key("authkit"));
    let mut params = StringMap::new();
    params.insert("authkit".to_string(), "yes".to_string());
    params.insert("category".to_string(), "Finance".to_string());
    let q = available_connectors_query(Some(params), http::HeaderMap::new());
    assert!(!q.authkit_enabled);
    assert_eq!(q.query.filter.get_str("category").unwrap(), "Finance");

    let settings = Some(UserSettings {
        connected_platforms: vec![
            ConnectedPlatform { kind: "stripe".to_string(), connection_definition_id: Id::from_string("d1".to_string()), active: Some(true), environment: Environment::Test, secrets_service_id: Some("s1".to_string()) },
            ConnectedPlatform { kind: "xero".to_string(), connection_definition_id: Id::from_string("d2".to_string()), active: None, environment: Environment::Test, secrets_service_id: None },
            ConnectedPlatform { kind: "sage".to_string(), connection_definition_id: Id::from_string("d3".to_string()), active: Some(true), environment: Environment::Live, secrets_service_id: None },
        ],
    });
    let mut filter = Document::new();
    restrict_to_connected_platforms(&mut filter, &settings, Environment::Test);
    match filter.get("platform") {
        Some(FilterValue::In(v)) => assert_eq!(v, &vec!["stripe".to_string()]),
        _ => panic!("expected a platform filter"),
    }
    let mut filter = Document::new();
    restrict_to_connected_platforms(&mut filter, &settings, Environment::Production);
    assert_eq!(filter.len(), 0);

    let s = settings.as_ref().unwrap();
    assert_eq!(oauth_secret_entry(s, &Id::from_string("d1".to_string()), Environment::Test).ok().unwrap(), "s1");
    let e = oauth_secret_entry(s, &Id::from_string("d2".to_string()), Environment::Test).err().unwrap();
    assert_eq!(e.kind, ErrorKind::InvalidArgument);
    assert_eq!(settings_owner_id(&Ownership::new("me".to_string()), true, &"eng".to_string()), "eng");
    assert_eq!(settings_owner_id(&Ownership::new("me".to_string()), false, &"eng".to_string()), "me");

    let row = available_connector(definition(ConnectionDefinitionType::Api, Some(AuthMethod::OAuth)));
    assert!(row.oauth);
    assert_eq!(row.description, "Payments");
    assert_eq!(row.key, "api::stripe::1.0");
}

#[test]
fn vault_lists_connections_with_a_definition() {
    let pairs = vec![
        (connection(Environment::Test, "a"), Some(definition(ConnectionDefinitionType::Api, None))),
        (connection(Environment::Live, "b"), None),
        (connection(Environment::Production, "c"), Some(definition(ConnectionDefinitionType::Api, None))),
    ];
    let rows = vault_connections(pairs);
    assert_eq!(rows.len(), 2);
    assert_eq!(rows[0].environment, Environment::Test);
    assert_eq!(rows[1].environment, Environment::Production);
    assert_eq!(rows[1].description, "Payments");
    let page = ReadResponse::new(rows, 3, 0, 20);
    assert_eq!(page.rows().len(), 2);
    assert_eq!(page.total, 3);
}

use pica::cli::{
    github_auth_url, github_login_url, http_timeout_millis, onboarding_config, CliConfig, Http,
    Keys, Server, Step, DEFAULT_API, DEFAULT_PORT,
};
use pica::common::{Id, RecordMetadata, Settings};
use pica::connection_definition::{
    AuthMethod, AuthSecret, ConnectionDefinition, ConnectionDefinitionType, ConnectionForm,
    ConnectionStatus, FormDataItem, Frontend, Paths, Spec,
};
use pica::definition_requests::{AuthenticationItem, CreateRequest};

fn form_definition() -> ConnectionDefinition {
    ConnectionDefinition {
        id: Id::from_string("conn_def::1".to_string()),
        platform_version: "1.0".to_string(),
        platform: "stripe".to_string(),
        status: ConnectionStatus::GenerallyAvailable,
        key: "api::stripe::1.0".to_string(),
        kind: ConnectionDefinitionType::Api,
        name: "Stripe".to_string(),
        auth_secrets: vec![
            AuthSecret { name: "API_KEY".to_string() },
            AuthSecret { name: "MISSING".to_string() },
            AuthSecret { name: "REGION".to_string() },
        ],
        auth_method: None,
        multi_env: false,
        frontend: Frontend {
            spec: Spec {
                title: "Stripe".to_string(),
                description: "Payments".to_string(),
                platform: "stripe".to_string(),
                category: "Finance".to_string(),
                image: "stripe.png".to_string(),
                tags: vec![],
                helper_link: None,
                markdown: None,
            },
            connection_form: ConnectionForm {
                name: "Connect".to_string(),
                description: "Securely connect your account".to_string(),
                form_data: vec![
                    FormDataItem { name: "REGION".to_string(), field_type: "text".to_string(), label: "Region".to_string(), placeholder: String::new(), options: None },
                    FormDataItem { name: "API_KEY".to_string(), field_type: "password".to_string(), label: "API Key".to_string(), placeholder: String::new(), options: None },
                ],
            },
        },
        paths: Paths::default(),
        settings: Settings::default(),
        hidden: false,
        test_connection: None,
        test_delay_in_millis: None,
        record_metadata: RecordMetadata::default(),
    }
}

#[test]
fn steps_follow_the_secrets_that_have_a_field() {
    let steps = Step::from(&form_definition());
    assert_eq!(steps.len(), 2);
    assert_eq!(steps[0].key(), "API_KEY");
    assert_eq!(steps[0].question(), "Please enter the `API Key` for `Stripe`: ");
    assert_eq!(steps[1].key(), "REGION");
    assert_eq!(steps[1].question(), "Please enter the `Region` for `Stripe`: ");
    let s = Step::new("q".to_string(), "k".to_string());
    assert_eq!((s.question(), s.key()), ("q", "k"));
}

#[test]
fn configuration_getters() {
    let c = CliConfig::new(
        Server::new("api".to_string(), "base".to_string()),
        Keys::new("sb".to_string(), "prod".to_string()),
        Http::new(Some(5)),
    );
    assert_eq!(c.server().api(), "api");
    assert_eq!(c.server().base(), "base");
    assert_eq!(c.keys().sandbox(), "sb");
    assert_eq!(c.keys().production(), "prod");
    assert_eq!(c.http().timeout(), Some(5));
    assert_eq!(http_timeout_millis(&c), 5);
    let c = CliConfig::new(Server::new(String::new(), String::new()), Keys::new(String::new(), String::new()), Http::new(None));
    assert_eq!(http_timeout_millis(&c), 0);
}

#[test]
fn onboarding_writes_the_received_keys() {
    let c = onboarding_config("test_key".to_string(), "live_key".to_string(), None, Some("http://localhost".to_string()));
    assert_eq!(c.keys().sandbox(), "test_key");
    assert_eq!(c.keys().production(), "live_key");
    assert_eq!(c.server().api(), DEFAULT_API);
    assert_eq!(c.server().base(), "http://localhost");
    assert_eq!(c.http().timeout(), Some(DEFAULT_PORT));
    assert_eq!(github_login_url(None), "https://api.picaos.com/public/v3/users/oauth/provider/github");
    assert_eq!(github_auth_url(Some("http://x".to_string())), "http://x/auth/github");
}

fn create_request() -> CreateRequest {
    CreateRequest {
        id: None,
        platform: "xero".to_string(),
        platform_version: "2.1".to_string(),
        status: ConnectionStatus::Alpha,
        kind: ConnectionDefinitionType::Api,
        name: "Xero".to_string(),
        description: "Accounting".to_string(),
        category: "Finance".to_string(),
        image: "xero.png".to_string(),
        tags: vec!["books".to_string()],
        helper_link: Some("https://help".to_string()),
        authentication: vec![AuthenticationItem {
            name: "TOKEN".to_string(),
            label: "Token".to_string(),
            field_type: "password".to_string(),
            placeholder: "...".to_string(),
            options: Some(vec!["a".to_string()]),
        }],
        auth_method: Some(AuthMethod::BearerToken { value: "v".to_string() }),
        multi_env: true,
        settings: Settings::default(),
        paths: Paths::default(),
        test_connection: None,
        test_delay_in_millis: Some(5),
        active: false,
        markdown: None,
    }
}

#[test]
fn create_request_builds_a_definition() {
    let req = create_request();
    let d = req.from(Id::from_string("fresh".to_string()), RecordMetadata::default()).unwrap();
    assert_eq!(d.id.as_str(), "fresh");
    assert_eq!(d.key, "api::xero::2.1");
    assert_eq!(d.frontend.spec.title, "Xero");
    assert_eq!(d.frontend.connection_form.name, "Connect");
    assert_eq!(d.frontend.connection_form.description, "Securely connect your account");
    assert_eq!(d.frontend.connection_form.form_data[0].label, "Token");
    assert_eq!(d.frontend.connection_form.form_data[0].options, Some(vec!["a".to_string()]));
    assert_eq!(d.auth_secrets[0].name, "TOKEN");
    assert!(!d.hidden);
    assert!(!d.record_metadata.active);
    assert_eq!(d.test_delay_in_millis, Some(5));

    let mut req2 = create_request();
    req2.id = Some(Id::from_string("given".to_string()));
    req2.name = "Xero 2".to_string();
    req2.active = true;
    let updated = req2.update(d);
    assert_eq!(updated.id.as_str(), "fresh");
    assert_eq!(updated.name, "Xero 2");
    assert_eq!(updated.frontend.spec.title, "Xero");
    assert!(updated.record_metadata.active);
    assert_eq!(req2.from(Id::from_string("fresh".to_string()), RecordMetadata::default()).unwrap().id.as_str(), "given");
}

#[test]
fn default_configuration_is_empty() {
    let http = Http::default();
    assert_eq!(http.timeout(), None);
    assert_eq!(Http::new(Some(5)).timeout(), Some(5));
    let keys = Keys::default();
    assert_eq!((keys.sandbox(), keys.production()), ("", ""));
    let server = Server::default();
    assert_eq!((server.api(), server.base()), ("", ""));
    let config = CliConfig::default();
    assert_eq!(config.http().timeout(), None);
    assert_eq!(config.server().api(), "");
    assert_eq!(config.keys().sandbox(), "");
    assert_eq!(http_timeout_millis(&config), 0);
}

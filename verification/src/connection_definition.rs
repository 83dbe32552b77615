//! Connection definitions: what a platform offers and how to connect to it.
use vstd::prelude::*;
use crate::common::{clone_opt_string, Id, RecordMetadata, Settings};
use crate::connection::{connection_type_name, ConnectionType};

verus! {

/// How requests to a platform are authenticated.
pub enum AuthMethod {
    BearerToken { value: String },
    ApiKey { key: String, value: String },
    BasicAuth { username: String, password: String },
    OAuth,
    QueryParam { key: String, value: String },
}

/// Whether an optional authentication method is OAuth.
pub open spec fn is_oauth_method(m: Option<AuthMethod>) -> bool {
    m matches Some(AuthMethod::OAuth)
}

pub fn auth_method_is_oauth(m: &Option<AuthMethod>) -> (r: bool)
    ensures
        r == is_oauth_method(*m),
{
    match m {
        Some(AuthMethod::OAuth) => true,
        _ => false,
    }
}

/// How a platform is connected to: its form, its authentication, its
/// frontend description and the paths of its events.
pub struct ConnectionDefinition {
    pub id: Id,
    pub platform_version: String,
    pub platform: String,
    pub status: ConnectionStatus,
    pub key: String,
    pub kind: ConnectionDefinitionType,
    pub name: String,
    pub auth_secrets: Vec<AuthSecret>,
    pub auth_method: Option<AuthMethod>,
    pub multi_env: bool,
    pub frontend: Frontend,
    pub paths: Paths,
    pub settings: Settings,
    pub hidden: bool,
    pub test_connection: Option<Id>,
    pub test_delay_in_millis: Option<i16>,
    pub record_metadata: RecordMetadata,
}

/// What a platform publishes of its models and their caveats.
pub struct PublicConnectionDetails {
    pub platform: String,
    pub models: Vec<ModelFeatures>,
    pub caveats: Vec<Caveat>,
}

/// What a model of a platform supports: pagination, filters and sorting.
pub struct ModelFeatures {
    pub name: String,
    pub pagination: bool,
    pub filtration: ModelFilter,
    pub sorting: ModelSorting,
}

#[derive(Clone, Copy, Debug, PartialEq, Eq, Structural)]
pub enum ConnectionStatus {
    NotAvailable,
    Beta,
    Alpha,
    GenerallyAvailable,
}

impl Default for ConnectionStatus {
    fn default() -> (r: ConnectionStatus)
        ensures
            r == ConnectionStatus::Beta,
    {
        ConnectionStatus::Beta
    }
}

/// A remark on a platform, tied to one of its model definitions or general.
pub struct Caveat {
    pub connection_model_definition_id: Option<String>,
    pub comments: Vec<String>,
}

/// Whether a model can be filtered, and on what.
pub struct ModelFilter {
    pub supported: bool,
    pub filters: Option<Vec<Filter>>,
}

/// A key a model can be filtered on, with its operators.
pub struct Filter {
    pub key: String,
    pub operators: Vec<String>,
}

/// Whether a model can be sorted, and by which keys.
pub struct ModelSorting {
    pub supported: bool,
    pub keys: Option<Vec<String>>,
}

impl ConnectionDefinition {
    /// Whether the definition's settings say that it connects through OAuth.
    pub fn is_oauth(&self) -> (r: bool)
        ensures
            r == self.settings.oauth,
    {
        self.settings.oauth
    }

    /// The connection type that a connection made from this definition has.
    pub fn to_connection_type(&self) -> (r: ConnectionType)
        ensures
            r == connection_type_of(self.kind),
    {
        match self.kind {
            ConnectionDefinitionType::Api => ConnectionType::Api {  },
            ConnectionDefinitionType::DatabaseSql => ConnectionType::DatabaseSql {  },
            ConnectionDefinitionType::DatabaseNoSql => ConnectionType::DatabaseNoSql,
            ConnectionDefinitionType::FileSystem => ConnectionType::FileSystem,
            ConnectionDefinitionType::Stream => ConnectionType::Stream,
            ConnectionDefinitionType::Custom => ConnectionType::Custom,
        }
    }
}

/// Each definition type names the connection type of the same name.
pub open spec fn connection_type_of(t: ConnectionDefinitionType) -> ConnectionType {
    match t {
        ConnectionDefinitionType::Api => ConnectionType::Api {  },
        ConnectionDefinitionType::DatabaseSql => ConnectionType::DatabaseSql {  },
        ConnectionDefinitionType::DatabaseNoSql => ConnectionType::DatabaseNoSql,
        ConnectionDefinitionType::FileSystem => ConnectionType::FileSystem,
        ConnectionDefinitionType::Stream => ConnectionType::Stream,
        ConnectionDefinitionType::Custom => ConnectionType::Custom,
    }
}

/// A definition and the connections made from it are written out under the
/// same name, and distinct definition types give distinct connection types.
pub proof fn law_type_names_agree(t: ConnectionDefinitionType, u: ConnectionDefinitionType)
    ensures
        connection_type_name(connection_type_of(t)) == definition_type_name(t),
        t != u ==> connection_type_of(t) != connection_type_of(u),
{
}

/// A secret that the connection form asks for.
pub struct AuthSecret {
    pub name: String,
}

#[derive(Clone, Copy, Debug, PartialEq, Eq, Structural)]
pub enum ConnectionDefinitionType {
    Api,
    DatabaseSql,
    DatabaseNoSql,
    FileSystem,
    Stream,
    Custom,
}

/// The lower-case name of a definition type, as it is written out.
pub open spec fn definition_type_name(t: ConnectionDefinitionType) -> Seq<char> {
    match t {
        ConnectionDefinitionType::Api => "api"@,
        ConnectionDefinitionType::DatabaseSql => "databasesql"@,
        ConnectionDefinitionType::DatabaseNoSql => "databasenosql"@,
        ConnectionDefinitionType::FileSystem => "filesystem"@,
        ConnectionDefinitionType::Stream => "stream"@,
        ConnectionDefinitionType::Custom => "custom"@,
    }
}

impl ConnectionDefinitionType {
    /// The lower-case name of the type.
    pub fn as_str(&self) -> (r: &'static str)
        ensures
            r@ == definition_type_name(*self),
    {
        match self {
            ConnectionDefinitionType::Api => "api",
            ConnectionDefinitionType::DatabaseSql => "databasesql",
            ConnectionDefinitionType::DatabaseNoSql => "databasenosql",
            ConnectionDefinitionType::FileSystem => "filesystem",
            ConnectionDefinitionType::Stream => "stream",
            ConnectionDefinitionType::Custom => "custom",
        }
    }
}

/// What the frontend shows of a definition.
pub struct Frontend {
    pub spec: Spec,
    pub connection_form: ConnectionForm,
}

/// The frontend description of a platform.
pub struct Spec {
    pub title: String,
    pub description: String,
    pub platform: String,
    pub category: String,
    pub image: String,
    pub tags: Vec<String>,
    pub helper_link: Option<String>,
    pub markdown: Option<String>,
}

/// The form that a user fills in to connect.
pub struct ConnectionForm {
    pub name: String,
    pub description: String,
    pub form_data: Vec<FormDataItem>,
}

/// One field of the connection form.
pub struct FormDataItem {
    pub name: String,
    pub field_type: String,
    pub label: String,
    pub placeholder: String,
    pub options: Option<Vec<String>>,
}

/// Where the parts of a platform's events are found.
pub struct Paths {
    pub id: Option<String>,
    pub event: Option<String>,
    pub payload: Option<String>,
    pub timestamp: Option<String>,
    pub secret: Option<String>,
    pub signature: Option<String>,
    pub cursor: Option<String>,
}

impl Default for Paths {
    fn default() -> (r: Paths)
        ensures
            (r.id is None && r.event is None && r.payload is None && r.timestamp is None
                && r.secret is None && r.signature is None && r.cursor is None),
    {
        Paths {
            id: None,
            event: None,
            payload: None,
            timestamp: None,
            secret: None,
            signature: None,
            cursor: None,
        }
    }
}

} // verus!

verus! {

impl AuthMethod {
    pub fn duplicate(&self) -> (r: AuthMethod)
        ensures
            r == *self,
    {
        match self {
            AuthMethod::BearerToken { value } => AuthMethod::BearerToken { value: value.clone() },
            AuthMethod::ApiKey { key, value } => AuthMethod::ApiKey {
                key: key.clone(),
                value: value.clone(),
            },
            AuthMethod::BasicAuth { username, password } => AuthMethod::BasicAuth {
                username: username.clone(),
                password: password.clone(),
            },
            AuthMethod::OAuth => AuthMethod::OAuth,
            AuthMethod::QueryParam { key, value } => AuthMethod::QueryParam {
                key: key.clone(),
                value: value.clone(),
            },
        }
    }
}

pub fn clone_opt_auth_method(m: &Option<AuthMethod>) -> (r: Option<AuthMethod>)
    ensures
        r == *m,
{
    match m {
        Some(a) => Some(a.duplicate()),
        None => None,
    }
}

pub fn clone_opt_id(o: &Option<Id>) -> (r: Option<Id>)
    ensures
        r == *o,
{
    match o {
        Some(i) => Some(i.duplicate()),
        None => None,
    }
}

pub fn clone_opt_strings(o: &Option<Vec<String>>) -> (r: Option<Vec<String>>)
    ensures
        r matches Some(v) ==> (o matches Some(w) && v@ == w@),
        r is None <==> o is None,
{
    match o {
        Some(v) => Some(crate::filter::clone_strings(v)),
        None => None,
    }
}

impl Paths {
    pub fn duplicate(&self) -> (r: Paths)
        ensures
            r == *self,
    {
        Paths {
            id: clone_opt_string(&self.id),
            event: clone_opt_string(&self.event),
            payload: clone_opt_string(&self.payload),
            timestamp: clone_opt_string(&self.timestamp),
            secret: clone_opt_string(&self.secret),
            signature: clone_opt_string(&self.signature),
            cursor: clone_opt_string(&self.cursor),
        }
    }
}

} // verus!

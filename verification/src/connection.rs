//! Connections: a user's link to a platform.
use vstd::prelude::*;
use crate::common::{Environment, Id, Ownership, RecordMetadata, Settings};

verus! {

/// The key a connection gets when its record has none.
pub fn key_default() -> (r: String)
    ensures
        r@.len() == 0,
{
    String::new()
}

/// A user's link to a platform: how it is keyed, whose it is, where its
/// secret is kept and how fast it may be called.
pub struct Connection {
    pub id: Id,
    pub platform_version: String,
    pub connection_definition_id: Id,
    pub kind: ConnectionType,
    pub key: String,
    pub group: String,
    pub name: Option<String>,
    pub environment: Environment,
    pub platform: String,
    pub secrets_service_id: String,
    pub event_access_id: Option<Id>,
    pub access_key: Option<String>,
    pub identity: Option<String>,
    pub identity_type: Option<ConnectionIdentityType>,
    pub settings: Settings,
    pub throughput: Throughput,
    pub ownership: Ownership,
    pub oauth: Option<OAuth>,
    pub has_error: bool,
    pub error: Option<String>,
    pub record_metadata: RecordMetadata,
}

impl Connection {
    /// Flags the connection as failing, with `error` as the reason.
    pub fn mark_error(&mut self, error: &str)
        ensures
            final(self).has_error,
            final(self).error matches Some(e) && e@ == error@,
            final(self).id == old(self).id,
            final(self).platform_version == old(self).platform_version,
            final(self).connection_definition_id == old(self).connection_definition_id,
            final(self).kind == old(self).kind,
            final(self).key == old(self).key,
            final(self).group == old(self).group,
            final(self).name == old(self).name,
            final(self).environment == old(self).environment,
            final(self).platform == old(self).platform,
            final(self).secrets_service_id == old(self).secrets_service_id,
            final(self).event_access_id == old(self).event_access_id,
            final(self).access_key == old(self).access_key,
            final(self).identity == old(self).identity,
            final(self).identity_type == old(self).identity_type,
            final(self).settings == old(self).settings,
            final(self).throughput == old(self).throughput,
            final(self).ownership == old(self).ownership,
            final(self).oauth == old(self).oauth,
            final(self).record_metadata == old(self).record_metadata,
    {
        self.has_error = true;
        self.error = Some(String::from_str(error));
    }
}

impl std::hash::Hash for Connection {
    fn hash<H: std::hash::Hasher>(&self, state: &mut H) {
        self.id.hash(state);
    }
}

impl PartialEq for Connection {
    fn eq(&self, other: &Self) -> (r: bool) {
        self.id.same(&other.id)
    }
}

impl vstd::std_specs::cmp::PartialEqSpecImpl for Connection {
    open spec fn obeys_eq_spec() -> bool {
        true
    }

    open spec fn eq_spec(&self, other: &Self) -> bool {
        self.id@ == other.id@
    }
}

/// What the identity of a connection names.
#[derive(Clone, Copy, Debug, PartialEq, Eq, Structural)]
pub enum ConnectionIdentityType {
    Organization,
    User,
    Team,
    Project,
}

/// A connection as its owner's frontend lists it.
pub struct PublicConnection {
    pub id: Id,
    pub platform_version: String,
    pub kind: ConnectionType,
    pub key: String,
    pub environment: Environment,
    pub platform: String,
    pub identity: Option<String>,
    pub identity_type: Option<ConnectionIdentityType>,
    pub record_metadata: RecordMetadata,
}

/// A connection without its access key: what the API hands out.
pub struct SanitizedConnection {
    pub id: Id,
    pub platform_version: String,
    pub connection_definition_id: Id,
    pub kind: ConnectionType,
    pub key: String,
    pub group: String,
    pub name: Option<String>,
    pub environment: Environment,
    pub platform: String,
    pub secrets_service_id: String,
    pub event_access_id: Option<Id>,
    pub identity: Option<String>,
    pub identity_type: Option<ConnectionIdentityType>,
    pub settings: Settings,
    pub throughput: Throughput,
    pub ownership: Ownership,
    pub oauth: Option<OAuth>,
    pub has_error: bool,
    pub error: Option<String>,
    pub record_metadata: RecordMetadata,
}

/// Every field of the connection but the access key.
pub open spec fn sanitize(conn: Connection) -> SanitizedConnection {
    SanitizedConnection {
        id: conn.id,
        platform_version: conn.platform_version,
        connection_definition_id: conn.connection_definition_id,
        kind: conn.kind,
        key: conn.key,
        group: conn.group,
        name: conn.name,
        environment: conn.environment,
        platform: conn.platform,
        secrets_service_id: conn.secrets_service_id,
        event_access_id: conn.event_access_id,
        identity: conn.identity,
        identity_type: conn.identity_type,
        settings: conn.settings,
        throughput: conn.throughput,
        ownership: conn.ownership,
        oauth: conn.oauth,
        has_error: conn.has_error,
        error: conn.error,
        record_metadata: conn.record_metadata,
    }
}

impl From<Connection> for SanitizedConnection {
    fn from(conn: Connection) -> (r: SanitizedConnection) {
        SanitizedConnection {
            id: conn.id,
            platform_version: conn.platform_version,
            connection_definition_id: conn.connection_definition_id,
            kind: conn.kind,
            key: conn.key,
            group: conn.group,
            name: conn.name,
            environment: conn.environment,
            platform: conn.platform,
            secrets_service_id: conn.secrets_service_id,
            event_access_id: conn.event_access_id,
            identity: conn.identity,
            identity_type: conn.identity_type,
            settings: conn.settings,
            throughput: conn.throughput,
            ownership: conn.ownership,
            oauth: conn.oauth,
            has_error: conn.has_error,
            error: conn.error,
            record_metadata: conn.record_metadata,
        }
    }
}

impl vstd::std_specs::convert::FromSpecImpl<Connection> for SanitizedConnection {
    open spec fn obeys_from_spec() -> bool {
        true
    }

    open spec fn from_spec(conn: Connection) -> SanitizedConnection {
        sanitize(conn)
    }
}

/// Whether a connection authenticates through OAuth, with its expiry.
pub enum OAuth {
    Enabled {
        connection_oauth_definition_id: Id,
        expires_in: Option<i32>,
        expires_at: Option<i64>,
    },
    Disabled,
}

impl Default for OAuth {
    fn default() -> (r: OAuth)
        ensures
            r is Disabled,
    {
        OAuth::Disabled
    }
}

/// What a connection connects to.
#[derive(Clone, Copy, Debug, PartialEq, Eq, Structural)]
pub enum ConnectionType {
    Api {  },
    DatabaseSql {  },
    DatabaseNoSql,
    FileSystem,
    Stream,
    Custom,
}

/// The lower-case name of a connection type, as it is written out.
pub open spec fn connection_type_name(t: ConnectionType) -> Seq<char> {
    match t {
        ConnectionType::Api {  } => "api"@,
        ConnectionType::DatabaseSql {  } => "databasesql"@,
        ConnectionType::DatabaseNoSql => "databasenosql"@,
        ConnectionType::FileSystem => "filesystem"@,
        ConnectionType::Stream => "stream"@,
        ConnectionType::Custom => "custom"@,
    }
}

impl ConnectionType {
    /// The lower-case name of the type.
    pub fn as_str(&self) -> (r: &'static str)
        ensures
            r@ == connection_type_name(*self),
    {
        match self {
            ConnectionType::Api {  } => "api",
            ConnectionType::DatabaseSql {  } => "databasesql",
            ConnectionType::DatabaseNoSql => "databasenosql",
            ConnectionType::FileSystem => "filesystem",
            ConnectionType::Stream => "stream",
            ConnectionType::Custom => "custom",
        }
    }
}

/// The platforms that have a name of their own.
#[derive(Clone, Copy, Debug, PartialEq, Eq, Structural)]
pub enum Platform {
    RabbitMq,
    Xero,
    PostgreSql,
    MySql,
    MariaDb,
    MsSql,
    Stripe,
    Sage,
    Shopify,
    Snowflake,
}

/// The lower-case name of a platform, as it is written out and read.
pub open spec fn platform_name(p: Platform) -> Seq<char> {
    match p {
        Platform::RabbitMq => "rabbitmq"@,
        Platform::Xero => "xero"@,
        Platform::PostgreSql => "postgresql"@,
        Platform::MySql => "mysql"@,
        Platform::MariaDb => "mariadb"@,
        Platform::MsSql => "mssql"@,
        Platform::Stripe => "stripe"@,
        Platform::Sage => "sage"@,
        Platform::Shopify => "shopify"@,
        Platform::Snowflake => "snowflake"@,
    }
}

impl Platform {
    /// The lower-case name of the platform.
    pub fn as_str(&self) -> (r: &'static str)
        ensures
            r@ == platform_name(*self),
    {
        match self {
            Platform::RabbitMq => "rabbitmq",
            Platform::Xero => "xero",
            Platform::PostgreSql => "postgresql",
            Platform::MySql => "mysql",
            Platform::MariaDb => "mariadb",
            Platform::MsSql => "mssql",
            Platform::Stripe => "stripe",
            Platform::Sage => "sage",
            Platform::Shopify => "shopify",
            Platform::Snowflake => "snowflake",
        }
    }
}

/// The rate limit of a connection: at most `limit` calls under `key`.
pub struct Throughput {
    pub key: String,
    pub limit: u64,
}

} // verus!

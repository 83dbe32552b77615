//! Creating, updating, removing and listing connections.
use vstd::prelude::*;
use crate::common::{Environment, Id, Ownership, RecordMetadata, Settings};
use crate::connection::{Connection, ConnectionIdentityType, ConnectionType, OAuth, Throughput};
use crate::connection_definition::{
    connection_type_of, ConnectionDefinition, ConnectionDefinitionType,
};
use crate::error::{fails_with, ErrorKind, PicaError};
use crate::event_access::EventAccess;
use crate::keys::ConnectionKey;

verus! {

/// The request to create a connection.
pub struct CreateConnectionPayload {
    pub connection_definition_id: Id,
    pub auth_form_data: Vec<(String, String)>,
    pub active: bool,
    pub identity: Option<String>,
    pub identity_type: Option<ConnectionIdentityType>,
    pub group: Option<String>,
    pub name: Option<String>,
}

/// The connection that a create request makes, once its definition was found,
/// its key chosen, its throughput read and its secret stored.
pub fn new_connection(
    id: Id,
    payload: CreateConnectionPayload,
    definition: ConnectionDefinition,
    access: &EventAccess,
    key: ConnectionKey,
    throughput_limit: u64,
    secrets_service_id: String,
    record_metadata: RecordMetadata,
) -> (r: Connection)
    ensures
        r.id == id,
        r.platform_version == definition.platform_version,
        r.connection_definition_id == payload.connection_definition_id,
        r.kind == connection_type_of(definition.kind),
        r.key == key.key,
        r.group == key.group,
        r.identity == Some(key.identity),
        r.name == payload.name,
        !r.has_error,
        r.error is None,
        r.identity_type == payload.identity_type,
        r.platform == definition.platform,
        r.environment == access.environment,
        r.secrets_service_id == secrets_service_id,
        r.event_access_id is None,
        r.access_key is None,
        r.settings == definition.settings,
        r.throughput.key@ == key.key@,
        r.throughput.limit == throughput_limit,
        r.ownership@ == access.ownership@,
        r.oauth is None,
        r.record_metadata == record_metadata,
{
    let kind = definition.to_connection_type();
    Connection {
        id,
        platform_version: definition.platform_version,
        connection_definition_id: payload.connection_definition_id,
        kind,
        throughput: Throughput { key: key.key.clone(), limit: throughput_limit },
        key: key.key,
        group: key.group,
        identity: Some(key.identity),
        name: payload.name,
        has_error: false,
        error: None,
        identity_type: payload.identity_type,
        platform: definition.platform,
        environment: access.environment,
        secrets_service_id,
        event_access_id: None,
        access_key: None,
        settings: definition.settings,
        ownership: access.ownership.duplicate(),
        oauth: None,
        record_metadata,
    }
}

/// The first second that chrono's `DateTime<Utc>` holds: January 1 of the
/// year -262143, midnight.
pub const EARLIEST_TIMESTAMP: i64 = -8_334_601_315_200i64;

/// The last whole second that chrono's `DateTime<Utc>` holds: December 31 of
/// the year 262142, 23:59:59.
pub const LATEST_TIMESTAMP: i64 = 8_210_266_876_799i64;

/// Whether a timestamp in seconds names a date that chrono can hold.
pub open spec fn in_date_range(t: int) -> bool {
    EARLIEST_TIMESTAMP <= t <= LATEST_TIMESTAMP
}

/// A timestamp (in seconds) moved by `delta` seconds, as chrono computes it:
/// `None` unless both the timestamp and the result name dates it can hold.
pub open spec fn chrono_shifted(secs: i64, delta: i64) -> Option<i64> {
    if in_date_range(secs as int) && in_date_range(secs + delta) {
        Some((secs + delta) as i64)
    } else {
        None
    }
}

/// Calls `DateTime::from_timestamp`, `checked_add_signed` with
/// `TimeDelta::seconds(delta)` and `timestamp`. The contract says that the
/// result is the moved timestamp exactly when the timestamp and the result
/// both lie within chrono's range of dates, and `None` otherwise; `delta` is
/// kept within the bound past which `TimeDelta::seconds` panics.
#[verifier::external_body]
fn shift_timestamp(secs: i64, delta: i64) -> (r: Option<i64>)
    requires
        -9223372036854775 <= delta <= 9223372036854775,
    ensures
        r == chrono_shifted(secs, delta),
{
    chrono::DateTime::from_timestamp(secs, 0).and_then(
        |d| d.checked_add_signed(chrono::TimeDelta::seconds(delta)),
    ).map(|d| d.timestamp())
}

/// The expiry of an OAuth token: `expires_in` seconds after `now`, less two
/// minutes of margin; a step that leaves the range of dates falls back to `now`.
pub open spec fn expiry_of(now: i64, expires_in: i32) -> i64 {
    let first = match chrono_shifted(now, expires_in as i64) {
        Some(t) => t,
        None => now,
    };
    match chrono_shifted(first, -120i64) {
        Some(t) => t,
        None => now,
    }
}

/// When a fresh OAuth token expires, from the time it was obtained.
pub fn oauth_expires_at(now: i64, expires_in: i32) -> (r: i64)
    ensures
        r == expiry_of(now, expires_in),
        in_date_range(now as int) && in_date_range(now + expires_in) && in_date_range(
            now + expires_in - 120,
        ) ==> r == now + expires_in - 120,
        -7_000_000_000_000 <= now <= 7_000_000_000_000 ==> r == now + expires_in - 120,
{
    let first = match shift_timestamp(now, expires_in as i64) {
        Some(t) => t,
        None => now,
    };
    match shift_timestamp(first, -120) {
        Some(t) => t,
        None => now,
    }
}

/// The request to connect a platform through OAuth, as far as the connection
/// it makes reads it.
pub struct OAuthConnectionRequest {
    pub name: Option<String>,
    pub identity_type: Option<ConnectionIdentityType>,
}

/// The connection that an OAuth request makes, once the platform's OAuth
/// definition and the connection definition were found, the key chosen, the
/// throughput read, the secret stored and the clock read.
pub fn new_oauth_connection(
    id: Id,
    platform: String,
    request: OAuthConnectionRequest,
    definition: ConnectionDefinition,
    oauth_definition_id: Id,
    access: &EventAccess,
    key: ConnectionKey,
    throughput_limit: u64,
    secrets_service_id: String,
    expires_in: i32,
    now: i64,
    record_metadata: RecordMetadata,
) -> (r: Connection)
    ensures
        r.id == id,
        r.platform_version == definition.platform_version,
        r.connection_definition_id == definition.id,
        r.kind == connection_type_of(definition.kind),
        r.group == key.group,
        r.name == request.name,
        r.key == key.key,
        r.environment == access.environment,
        r.platform == platform,
        r.secrets_service_id == secrets_service_id,
        r.event_access_id is None,
        r.access_key is None,
        r.identity == Some(key.identity),
        r.identity_type == request.identity_type,
        r.settings == definition.settings,
        !r.has_error,
        r.error is None,
        r.throughput.key@ == key.key@,
        r.throughput.limit == throughput_limit,
        r.ownership@ == access.ownership@,
        r.oauth matches Some(OAuth::Enabled { connection_oauth_definition_id, expires_in: e, expires_at }) && connection_oauth_definition_id == oauth_definition_id && e == Some(expires_in) && expires_at == Some(expiry_of(now, expires_in)),
        r.record_metadata == record_metadata,
{
    let kind = definition.to_connection_type();
    let expires_at = oauth_expires_at(now, expires_in);
    Connection {
        id,
        platform_version: definition.platform_version,
        connection_definition_id: definition.id,
        kind,
        group: key.group,
        name: request.name,
        throughput: Throughput { key: key.key.clone(), limit: throughput_limit },
        key: key.key,
        environment: access.environment,
        platform,
        secrets_service_id,
        event_access_id: None,
        access_key: None,
        identity: Some(key.identity),
        identity_type: request.identity_type,
        settings: definition.settings,
        has_error: false,
        error: None,
        ownership: access.ownership.duplicate(),
        oauth: Some(
            OAuth::Enabled {
                connection_oauth_definition_id: oauth_definition_id,
                expires_in: Some(expires_in),
                expires_at: Some(expires_at),
            },
        ),
        record_metadata,
    }
}

/// The request to change a connection.
pub struct UpdateConnectionPayload {
    pub settings: Option<Settings>,
    pub throughput: Option<Throughput>,
    pub auth_form_data: Option<Vec<(String, String)>>,
    pub active: Option<bool>,
    pub identity: Option<String>,
    pub identity_type: Option<ConnectionIdentityType>,
}

/// Only the owner of a connection, in its environment, may change it.
pub fn authorize_update(connection: &Connection, access: &EventAccess) -> (r: Result<(), PicaError>)
    ensures
        r is Ok <==> (connection.ownership@ == access.ownership@ && connection.environment
            == access.environment),
        r is Err ==> fails_with(
            r,
            ErrorKind::Forbidden,
            "You do not have permission to update this connection"@,
        ),
{
    if !connection.ownership.same(&access.ownership) || connection.environment
        != access.environment {
        return Err(
            PicaError::new(
                ErrorKind::Forbidden,
                "You do not have permission to update this connection",
            ),
        );
    }
    Ok(())
}

/// Applies the fields of an update that need no lookup: settings, throughput,
/// identity and identity type, each only when given.
pub fn apply_update_fields(
    connection: &mut Connection,
    settings: Option<Settings>,
    throughput: Option<Throughput>,
    identity: Option<String>,
    identity_type: Option<ConnectionIdentityType>,
)
    ensures
        final(connection).settings == (match settings {
            Some(s) => s,
            None => old(connection).settings,
        }),
        final(connection).throughput == (match throughput {
            Some(t) => t,
            None => old(connection).throughput,
        }),
        final(connection).identity == (match identity {
            Some(i) => Some(i),
            None => old(connection).identity,
        }),
        final(connection).identity_type == (match identity_type {
            Some(t) => Some(t),
            None => old(connection).identity_type,
        }),
        final(connection).id == old(connection).id,
        final(connection).platform_version == old(connection).platform_version,
        final(connection).connection_definition_id == old(connection).connection_definition_id,
        final(connection).kind == old(connection).kind,
        final(connection).key == old(connection).key,
        final(connection).group == old(connection).group,
        final(connection).name == old(connection).name,
        final(connection).environment == old(connection).environment,
        final(connection).platform == old(connection).platform,
        final(connection).secrets_service_id == old(connection).secrets_service_id,
        final(connection).event_access_id == old(connection).event_access_id,
        final(connection).access_key == old(connection).access_key,
        final(connection).ownership == old(connection).ownership,
        final(connection).oauth == old(connection).oauth,
        final(connection).has_error == old(connection).has_error,
        final(connection).error == old(connection).error,
        final(connection).record_metadata == old(connection).record_metadata,
{
    if let Some(s) = settings {
        connection.settings = s;
    }
    if let Some(t) = throughput {
        connection.throughput = t;
    }
    if let Some(i) = identity {
        connection.identity = Some(i);
    }
    if let Some(t) = identity_type {
        connection.identity_type = Some(t);
    }
}

/// New credentials cannot be given to a connection of an SQL database.
pub fn check_credentials_update(definition: &ConnectionDefinition) -> (r: Result<(), PicaError>)
    ensures
        r is Ok <==> definition.kind != ConnectionDefinitionType::DatabaseSql,
        r is Err ==> fails_with(r, ErrorKind::BadRequest, "Unsupported platform for SQL connection"@),
{
    if definition.kind == ConnectionDefinitionType::DatabaseSql {
        return Err(
            PicaError::new(ErrorKind::BadRequest, "Unsupported platform for SQL connection"),
        );
    }
    Ok(())
}

/// Sets whether the connection is active, when the update says.
pub fn apply_active(connection: &mut Connection, active: Option<bool>)
    ensures
        final(connection).record_metadata.active == (match active {
            Some(a) => a,
            None => old(connection).record_metadata.active,
        }),
        final(connection).record_metadata.created_at == old(connection).record_metadata.created_at,
        final(connection).record_metadata.updated_at == old(connection).record_metadata.updated_at,
        final(connection).record_metadata.updated == old(connection).record_metadata.updated,
        final(connection).record_metadata.version == old(connection).record_metadata.version,
        final(connection).record_metadata.last_modified_by == old(connection).record_metadata.last_modified_by,
        final(connection).record_metadata.deleted == old(connection).record_metadata.deleted,
        final(connection).record_metadata.tags == old(connection).record_metadata.tags,
        final(connection).record_metadata.deprecated == old(connection).record_metadata.deprecated,
        final(connection).id == old(connection).id,
        final(connection).platform_version == old(connection).platform_version,
        final(connection).connection_definition_id == old(connection).connection_definition_id,
        final(connection).kind == old(connection).kind,
        final(connection).key == old(connection).key,
        final(connection).group == old(connection).group,
        final(connection).name == old(connection).name,
        final(connection).environment == old(connection).environment,
        final(connection).platform == old(connection).platform,
        final(connection).secrets_service_id == old(connection).secrets_service_id,
        final(connection).event_access_id == old(connection).event_access_id,
        final(connection).access_key == old(connection).access_key,
        final(connection).identity == old(connection).identity,
        final(connection).identity_type == old(connection).identity_type,
        final(connection).settings == old(connection).settings,
        final(connection).throughput == old(connection).throughput,
        final(connection).ownership == old(connection).ownership,
        final(connection).oauth == old(connection).oauth,
        final(connection).has_error == old(connection).has_error,
        final(connection).error == old(connection).error,
{
    if let Some(a) = active {
        connection.record_metadata.active = a;
    }
}

/// Whether removing a connection must also remove the resources that run it:
/// an active connection to an SQL database runs in its own service.
pub fn needs_resource_cleanup(connection: &Connection) -> (r: bool)
    ensures
        r == (connection.kind == (ConnectionType::DatabaseSql {  })
            && connection.record_metadata.active),
{
    match connection.kind {
        ConnectionType::DatabaseSql {  } => connection.record_metadata.active,
        _ => false,
    }
}

/// The pauses before a connection test: the probe timeout for database
/// connections, then the definition's own delay when it is not negative.
pub struct TestWaits {
    pub probe_secs: Option<u64>,
    pub delay_millis: Option<u64>,
}

/// The pauses before testing a connection made from `definition`.
pub fn connection_test_waits(definition: &ConnectionDefinition, probe_timeout_secs: u64) -> (r:
    TestWaits)
    ensures
        r.probe_secs == (if definition.kind == ConnectionDefinitionType::DatabaseSql
            || definition.kind == ConnectionDefinitionType::DatabaseNoSql {
            Some(probe_timeout_secs)
        } else {
            None
        }),
        r.delay_millis == (match definition.test_delay_in_millis {
            Some(d) => if d < 0 {
                None
            } else {
                Some(d as u64)
            },
            None => None,
        }),
{
    let probe_secs = if definition.kind == ConnectionDefinitionType::DatabaseSql
        || definition.kind == ConnectionDefinitionType::DatabaseNoSql {
        Some(probe_timeout_secs)
    } else {
        None
    };
    let delay_millis = match definition.test_delay_in_millis {
        Some(d) => if d < 0 {
            None
        } else {
            Some(d as u64)
        },
        None => None,
    };
    TestWaits { probe_secs, delay_millis }
}

/// Whether a test response status (an HTTP status code) counts as success.
pub fn test_succeeded(status: u16) -> (r: bool)
    ensures
        r == (200 <= status && status < 300),
{
    200 <= status && status < 300
}

} // verus!

verus! {

/// Whose settings an OAuth request reads: the engineering account's when the
/// request says it is one, the requesting owner's otherwise.
pub fn settings_owner_id(
    ownership: &Ownership,
    is_engineering_account: bool,
    engineering_account_id: &String,
) -> (r: String)
    ensures
        r@ == if is_engineering_account {
            engineering_account_id@
        } else {
            ownership.id@
        },
{
    if is_engineering_account {
        engineering_account_id.clone()
    } else {
        ownership.id.clone()
    }
}

/// The secret entry that the settings name for a definition in an
/// environment; a request for a definition without one is refused.
pub fn oauth_secret_entry(
    settings: &crate::available_connectors::UserSettings,
    connection_definition_id: &Id,
    environment: Environment,
) -> (r: Result<String, PicaError>)
    ensures
        match crate::available_connectors::platform_secret_of(
            settings.connected_platforms@,
            connection_definition_id@,
            environment,
        ) {
            Some(s) => r matches Ok(v) && v@ == s,
            None => fails_with(
                r,
                ErrorKind::InvalidArgument,
                "Provided connection definition does not have a secret entry"@,
            ),
        },
{
    match settings.platform_secret(connection_definition_id, environment) {
        Some(s) => Ok(s),
        None => Err(
            PicaError::new(
                ErrorKind::InvalidArgument,
                "Provided connection definition does not have a secret entry",
            ),
        ),
    }
}

} // verus!

verus! {

/// The message when the definition a new connection names is not stored.
pub fn definition_not_found_message(id: &Id) -> (r: String)
    ensures
        r@ == "Connection definition with id "@ + id@ + " not found"@,
{
    String::from_str("Connection definition with id ").concat(id.as_str()).concat(" not found")
}

/// The message when the connection an update names is not stored.
pub fn connection_not_found_message(id: &str) -> (r: String)
    ensures
        r@ == "Connection with id "@ + id@ + " not found"@,
{
    String::from_str("Connection with id ").concat(id).concat(" not found")
}

/// The message when a platform has no definition.
pub fn platform_definition_not_found_message(platform: &str) -> (r: String)
    ensures
        r@ == "Connection definition for platform "@ + platform@,
{
    String::from_str("Connection definition for platform ").concat(platform)
}

} // verus!

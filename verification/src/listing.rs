//! Listing responses, and the vault's view of a user's connections.
use vstd::prelude::*;
use crate::common::{Environment, Id, RecordMetadata};
use crate::connection::{Connection, ConnectionIdentityType, ConnectionType};
use crate::connection_definition::ConnectionDefinition;

verus! {

/// One page of a listing: the rows, the window that was asked for and the
/// number of records that match in all.
pub struct ReadResponse<T> {
    pub rows: Vec<T>,
    pub total: u64,
    pub skip: u64,
    pub limit: u64,
}

impl<T> ReadResponse<T> {
    pub fn new(rows: Vec<T>, total: u64, skip: u64, limit: u64) -> (r: ReadResponse<T>)
        ensures
            r.rows == rows,
            r.total == total,
            r.skip == skip,
            r.limit == limit,
    {
        ReadResponse { rows, total, skip, limit }
    }

    /// The rows of the page.
    pub fn rows(&self) -> (r: &[T])
        ensures
            r@ == self.rows@,
    {
        self.rows.as_slice()
    }
}

/// A connection as the vault lists it: with the description of its definition.
pub struct VaultConnection {
    pub id: Id,
    pub platform_version: String,
    pub name: Option<String>,
    pub kind: ConnectionType,
    pub key: String,
    pub environment: Environment,
    pub platform: String,
    pub identity: Option<String>,
    pub identity_type: Option<ConnectionIdentityType>,
    pub description: String,
    pub record_metadata: RecordMetadata,
}

pub open spec fn vault_view(
    c: Connection,
    d: ConnectionDefinition,
) -> VaultConnection {
    VaultConnection {
        id: c.id,
        platform_version: c.platform_version,
        name: c.name,
        kind: c.kind,
        key: c.key,
        environment: c.environment,
        platform: c.platform,
        identity: c.identity,
        identity_type: c.identity_type,
        description: d.frontend.spec.description,
        record_metadata: c.record_metadata,
    }
}

/// The vault rows of connections paired with the definitions found for them:
/// a connection whose definition was not found is left out.
pub open spec fn vault_rows(pairs: Seq<(Connection, Option<ConnectionDefinition>)>) -> Seq<
    VaultConnection,
>
    decreases pairs.len(),
{
    if pairs.len() == 0 {
        Seq::empty()
    } else {
        let prev = vault_rows(pairs.drop_last());
        match pairs.last().1 {
            Some(d) => prev.push(vault_view(pairs.last().0, d)),
            None => prev,
        }
    }
}

/// A connection with the description of its definition.
pub fn vault_connection(connection: Connection, definition: ConnectionDefinition) -> (r:
    VaultConnection)
    ensures
        r == vault_view(connection, definition),
{
    VaultConnection {
        id: connection.id,
        platform_version: connection.platform_version,
        name: connection.name,
        kind: connection.kind,
        key: connection.key,
        environment: connection.environment,
        platform: connection.platform,
        identity: connection.identity,
        identity_type: connection.identity_type,
        description: definition.frontend.spec.description,
        record_metadata: connection.record_metadata,
    }
}

/// The vault rows of connections paired with the definitions found for them.
pub fn vault_connections(pairs: Vec<(Connection, Option<ConnectionDefinition>)>) -> (r: Vec<
    VaultConnection,
>)
    ensures
        r@ == vault_rows(pairs@),
{
    let mut pairs = pairs;
    let ghost all = pairs@;
    let mut out: Vec<VaultConnection> = Vec::new();
    let ghost mut k: int = 0;
    assert(all.take(0) =~= Seq::<(Connection, Option<ConnectionDefinition>)>::empty());
    while pairs.len() > 0
        invariant
            0 <= k <= all.len(),
            pairs@ == all.skip(k),
            out@ == vault_rows(all.take(k)),
        decreases pairs@.len(),
    {
        let (c, d) = pairs.remove(0);
        assert(all.take(k + 1).drop_last() =~= all.take(k));
        assert(all.take(k + 1).last() == all[k]);
        match d {
            Some(def) => {
                out.push(vault_connection(c, def));
            },
            None => {},
        }
        proof {
            k = k + 1;
        }
        assert(pairs@ =~= all.skip(k));
    }
    assert(all.take(k) =~= all);
    out
}

} // verus!

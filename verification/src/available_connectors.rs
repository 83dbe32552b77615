//! The connectors a user can connect to: the store query that lists them and
//! the form they are shown in.
use vstd::prelude::*;
use http::HeaderMap;
use crate::common::{env_name, Environment, Id, RecordMetadata};
use crate::connection_definition::{auth_method_is_oauth, is_oauth_method, ConnectionDefinition};
use crate::entries::{entries_remove, entries_upsert, entries_get};
use crate::filter::{
    clone_strings, shape_mongo_filter, shaped_query, Document, FilterValue, FilterValueView,
    MongoQuery,
};
use crate::string_map::StringMap;
use crate::text::{str_eq, strings_view};

verus! {

/// The query parameter that limits the listing to the platforms a user has
/// connected in AuthKit.
pub const AUTHKIT_ENABLED_QUERY_PARAM: &'static str = "authkit";

/// A platform that a user has set up.
pub struct ConnectedPlatform {
    pub kind: String,
    pub connection_definition_id: Id,
    pub active: Option<bool>,
    pub environment: Environment,
    pub secrets_service_id: Option<String>,
}

/// The settings of a user, as far as connections read them.
pub struct UserSettings {
    pub connected_platforms: Vec<ConnectedPlatform>,
}

/// The platform types of the active connected platforms of an environment.
pub open spec fn active_platforms(ps: Seq<ConnectedPlatform>, env: Environment) -> Seq<Seq<char>>
    decreases ps.len(),
{
    if ps.len() == 0 {
        Seq::empty()
    } else {
        let prev = active_platforms(ps.drop_last(), env);
        let p = ps.last();
        if p.active == Some(true) && p.environment == env {
            prev.push(p.kind@)
        } else {
            prev
        }
    }
}

/// The secret service entry of the connected platform of a definition in an
/// environment: the first one set up for both.
pub open spec fn platform_secret_of(
    ps: Seq<ConnectedPlatform>,
    definition_id: Seq<char>,
    env: Environment,
) -> Option<Seq<char>>
    decreases ps.len(),
{
    if ps.len() == 0 {
        None
    } else if ps[0].connection_definition_id@ == definition_id && ps[0].environment == env {
        match ps[0].secrets_service_id {
            Some(s) => Some(s@),
            None => None,
        }
    } else {
        platform_secret_of(ps.drop_first(), definition_id, env)
    }
}

impl UserSettings {
    /// The types of the platforms that are active in `environment`, in order.
    pub fn active_platforms(&self, environment: Environment) -> (r: Vec<String>)
        ensures
            strings_view(r@) == active_platforms(self.connected_platforms@, environment),
    {
        let ps = &self.connected_platforms;
        let mut out: Vec<String> = Vec::new();
        let mut i: usize = 0;
        assert(ps@.take(0) =~= Seq::<ConnectedPlatform>::empty());
        while i < ps.len()
            invariant
                i <= ps.len(),
                strings_view(out@) == active_platforms(ps@.take(i as int), environment),
            decreases ps.len() - i,
        {
            let p = &ps[i];
            assert(ps@.take(i + 1).drop_last() =~= ps@.take(i as int));
            let active = match p.active {
                Some(a) => a,
                None => false,
            };
            if active && p.environment == environment {
                let ghost old_out = out@;
                out.push(p.kind.clone());
                assert(strings_view(out@) =~= strings_view(old_out).push(p.kind@));
            }
            i = i + 1;
        }
        assert(ps@.take(ps.len() as int) =~= ps@);
        out
    }

    /// The secret service entry set up for a definition in an environment.
    pub fn platform_secret(&self, connection_definition_id: &Id, environment: Environment) -> (r:
        Option<String>)
        ensures
            crate::common::opt_view(r) == platform_secret_of(
                self.connected_platforms@,
                connection_definition_id@,
                environment,
            ),
            r is Some ==> exists|i: int|
                0 <= i < self.connected_platforms@.len()
                    && #[trigger] self.connected_platforms@[i].connection_definition_id@
                    == connection_definition_id@ && self.connected_platforms@[i].environment
                    == environment,
    {
        proof {
            law_secret_entry_matches_definition_and_environment(
                self.connected_platforms@,
                connection_definition_id@,
                environment,
            );
        }
        let ps = &self.connected_platforms;
        let mut i: usize = 0;
        assert(ps@.skip(0) =~= ps@);
        while i < ps.len()
            invariant
                i <= ps.len(),
                ps@ == self.connected_platforms@,
                platform_secret_of(ps@, connection_definition_id@, environment) == platform_secret_of(
                    ps@.skip(i as int),
                    connection_definition_id@,
                    environment,
                ),
            decreases ps.len() - i,
        {
            assert(ps@.skip(i as int).drop_first() =~= ps@.skip(i + 1));
            assert(ps@.skip(i as int)[0] == ps@[i as int]);
            let p = &ps[i];
            if p.connection_definition_id.same(connection_definition_id) && p.environment
                == environment {
                return crate::common::clone_opt_string(&p.secrets_service_id);
            }
            i = i + 1;
        }
        None
    }
}

/// The store query of a connector listing, and whether it is limited to the
/// platforms a user has connected.
pub struct AvailableConnectorsQuery {
    pub authkit_enabled: bool,
    pub query: MongoQuery,
}

/// The listing query: the `authkit` parameter is taken out (it is true only
/// when it reads `true`), the other parameters shape the filter as any
/// listing's do, without an access, and only active definitions are listed.
pub open spec fn connectors_query(
    params: Seq<(Seq<char>, Seq<char>)>,
) -> (bool, (Seq<(Seq<char>, FilterValueView)>, u64, u64)) {
    let authkit = entries_get(params, AUTHKIT_ENABLED_QUERY_PARAM@) == Some("true"@);
    let rest = entries_remove(params, AUTHKIT_ENABLED_QUERY_PARAM@);
    let st = shaped_query(rest, None, false);
    (authkit, (entries_upsert(st.0, "active"@, FilterValueView::Bool(true)), st.1, st.2))
}

/// Builds the store query of a connector listing.
pub fn available_connectors_query(query: Option<StringMap>, headers: HeaderMap) -> (r:
    AvailableConnectorsQuery)
    ensures
        (r.authkit_enabled, (r.query.filter@, r.query.skip, r.query.limit)) == connectors_query(
            match query {
                Some(q) => q@,
                None => Seq::empty(),
            },
        ),
{
    let mut params = match query {
        Some(q) => q,
        None => StringMap::new(),
    };
    let authkit_enabled = match params.remove(AUTHKIT_ENABLED_QUERY_PARAM) {
        Some(v) => str_eq(v.as_str(), "true"),
        None => false,
    };
    let ghost removed = params@;
    assert(removed.len() == 0 ==> removed =~= Seq::<(Seq<char>, Seq<char>)>::empty());
    let cleaned = if !params.is_empty() {
        Some(params)
    } else {
        None
    };
    let mut shaped = shape_mongo_filter(cleaned, None, Some(headers));
    shaped.filter.insert(String::from_str("active"), FilterValue::Bool(true));
    AvailableConnectorsQuery { authkit_enabled, query: shaped }
}

/// Limits a connector listing to the platforms that are active in the user's
/// environment, when the user has settings that name any.
pub fn restrict_to_connected_platforms(
    filter: &mut Document,
    settings: &Option<UserSettings>,
    environment: Environment,
)
    ensures
        final(filter)@ == match settings {
            Some(s) => if active_platforms(s.connected_platforms@, environment).len() > 0 {
                entries_upsert(
                    old(filter)@,
                    "platform"@,
                    FilterValueView::In(active_platforms(s.connected_platforms@, environment)),
                )
            } else {
                old(filter)@
            },
            None => old(filter)@,
        },
{
    if let Some(s) = settings {
        let platforms = s.active_platforms(environment);
        if platforms.len() > 0 {
            filter.insert(String::from_str("platform"), FilterValue::In(platforms));
        }
    }
}

/// A connector as the listing shows it.
pub struct AvailableConnectorsResponse {
    pub name: String,
    pub key: String,
    pub platform: String,
    pub platform_version: String,
    pub description: String,
    pub category: String,
    pub image: String,
    pub tags: Vec<String>,
    pub oauth: bool,
    pub record_metadata: RecordMetadata,
}

/// A definition shown as a connector: its names and frontend description, and
/// whether it connects through OAuth.
pub fn available_connector(def: ConnectionDefinition) -> (r: AvailableConnectorsResponse)
    ensures
        r.name == def.name,
        r.key == def.key,
        r.platform == def.frontend.spec.platform,
        r.platform_version == def.platform_version,
        r.description == def.frontend.spec.description,
        r.category == def.frontend.spec.category,
        r.image == def.frontend.spec.image,
        r.tags == def.frontend.spec.tags,
        r.oauth == is_oauth_method(def.auth_method),
        r.record_metadata == def.record_metadata,
{
    let oauth = auth_method_is_oauth(&def.auth_method);
    AvailableConnectorsResponse {
        name: def.name,
        key: def.key,
        platform: def.frontend.spec.platform,
        platform_version: def.platform_version,
        description: def.frontend.spec.description,
        category: def.frontend.spec.category,
        image: def.frontend.spec.image,
        tags: def.frontend.spec.tags,
        oauth,
        record_metadata: def.record_metadata,
    }
}

} // verus!

verus! {

/// A connector listing only ever shows active definitions: whatever the query
/// parameters, its filter asks for `active: true`.
pub proof fn law_connectors_are_active(params: Seq<(Seq<char>, Seq<char>)>)
    ensures
        entries_get(connectors_query(params).1.0, "active"@) == Some(FilterValueView::Bool(true)),
{
    let rest = entries_remove(params, AUTHKIT_ENABLED_QUERY_PARAM@);
    let st = shaped_query(rest, None, false);
    crate::entries::lemma_get_upsert(st.0, "active"@, FilterValueView::Bool(true), "active"@);
}

} // verus!

verus! {

/// The OAuth secret entry of a definition in an environment belongs to a
/// connected platform set up for both that definition and that environment:
/// the first such platform gives it, and a definition set up only in other
/// environments (or not at all) gives none.
pub proof fn law_secret_entry_matches_definition_and_environment(
    ps: Seq<ConnectedPlatform>,
    definition_id: Seq<char>,
    env: Environment,
)
    ensures
        platform_secret_of(ps, definition_id, env) matches Some(s) ==> exists|i: int|
            0 <= i < ps.len() && #[trigger] ps[i].connection_definition_id@ == definition_id
                && ps[i].environment == env && crate::common::opt_view(ps[i].secrets_service_id) == Some(s)
                && forall|k: int|
                0 <= k < i ==> !(#[trigger] ps[k].connection_definition_id@ == definition_id
                    && ps[k].environment == env),
        (forall|i: int|
            0 <= i < ps.len() ==> !(#[trigger] ps[i].connection_definition_id@ == definition_id
                && ps[i].environment == env)) ==> platform_secret_of(ps, definition_id, env)
            is None,
    decreases ps.len(),
{
    if ps.len() > 0 {
        let t = ps.drop_first();
        law_secret_entry_matches_definition_and_environment(t, definition_id, env);
        if !(ps[0].connection_definition_id@ == definition_id && ps[0].environment == env) {
            if let Some(s) = platform_secret_of(ps, definition_id, env) {
                let i = choose|i: int|
                    0 <= i < t.len() && #[trigger] t[i].connection_definition_id@ == definition_id
                        && t[i].environment == env && crate::common::opt_view(t[i].secrets_service_id) == Some(s) && forall|k: int|
                        0 <= k < i ==> !(#[trigger] t[k].connection_definition_id@
                            == definition_id && t[k].environment == env);
                assert(ps[i + 1] == t[i]);
                assert forall|k: int| 0 <= k < i + 1 implies !(
                #[trigger] ps[k].connection_definition_id@ == definition_id && ps[k].environment
                    == env) by {
                    if k > 0 {
                        assert(ps[k] == t[k - 1]);
                    }
                }
            }
            assert((forall|i: int|
                0 <= i < ps.len() ==> !(#[trigger] ps[i].connection_definition_id@ == definition_id
                    && ps[i].environment == env)) ==> (forall|i: int|
                0 <= i < t.len() ==> !(#[trigger] t[i].connection_definition_id@ == definition_id
                    && t[i].environment == env))) by {
                if forall|i: int|
                    0 <= i < ps.len() ==> !(#[trigger] ps[i].connection_definition_id@
                        == definition_id && ps[i].environment == env) {
                    assert forall|i: int| 0 <= i < t.len() implies !(
                    #[trigger] t[i].connection_definition_id@ == definition_id && t[i].environment
                        == env) by {
                        assert(t[i] == ps[i + 1]);
                    }
                }
            }
        } else {
            if let Some(s) = platform_secret_of(ps, definition_id, env) {
                assert(ps[0].connection_definition_id@ == definition_id);
            }
        }
    }
}

} // verus!

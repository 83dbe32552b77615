//! Shared records that the connections and their definitions are built from.
use vstd::prelude::*;

verus! {

/// A record identifier, held as its textual form.
pub struct Id {
    value: String,
}

impl View for Id {
    type V = Seq<char>;

    closed spec fn view(&self) -> Seq<char> {
        self.value@
    }
}

/// `String::hash` feeds the string to the hasher; nothing is stated of the
/// hasher's state.
pub assume_specification<H: std::hash::Hasher>[ <String as std::hash::Hash>::hash::<H> ](
    data: &String,
    state: &mut H,
);

impl std::hash::Hash for Id {
    fn hash<H: std::hash::Hasher>(&self, state: &mut H) {
        self.value.hash(state);
    }
}

impl Id {
    /// The identifier with the given textual form.
    pub fn from_string(value: String) -> (r: Id)
        ensures
            r@ == value@,
    {
        Id { value }
    }

    /// The textual form, as `Display` writes it.
    pub fn as_str(&self) -> (r: &str)
        ensures
            r@ == self@,
    {
        self.value.as_str()
    }

    /// A copy of the textual form.
    pub fn to_text(&self) -> (r: String)
        ensures
            r@ == self@,
    {
        self.value.clone()
    }

    /// A copy of the identifier.
    pub fn duplicate(&self) -> (r: Id)
        ensures
            r == *self,
    {
        Id { value: self.value.clone() }
    }

    /// Whether both identifiers are the same.
    pub fn same(&self, other: &Id) -> (r: bool)
        ensures
            r == (self@ == other@),
    {
        self.value == other.value
    }
}

/// The environment that a record belongs to.
#[derive(Clone, Copy, Debug, PartialEq, Eq, Structural)]
pub enum Environment {
    Test,
    Development,
    Live,
    Production,
}

/// The lower-case name of an environment, as it is written in keys and filters.
pub open spec fn env_name(e: Environment) -> Seq<char> {
    match e {
        Environment::Test => "test"@,
        Environment::Development => "development"@,
        Environment::Live => "live"@,
        Environment::Production => "production"@,
    }
}

impl Environment {
    /// The lower-case name of the environment.
    pub fn as_str(&self) -> (r: &'static str)
        ensures
            r@ == env_name(*self),
    {
        match self {
            Environment::Test => "test",
            Environment::Development => "development",
            Environment::Live => "live",
            Environment::Production => "production",
        }
    }
}

/// Who owns a record.
pub struct Ownership {
    pub id: String,
    pub client_id: String,
    pub organization_id: Option<String>,
    pub project_id: Option<String>,
    pub user_id: Option<String>,
}

pub open spec fn opt_view(o: Option<String>) -> Option<Seq<char>> {
    match o {
        Some(s) => Some(s@),
        None => None,
    }
}

/// The owner's fields as plain values.
pub struct OwnershipView {
    pub id: Seq<char>,
    pub client_id: Seq<char>,
    pub organization_id: Option<Seq<char>>,
    pub project_id: Option<Seq<char>>,
    pub user_id: Option<Seq<char>>,
}

impl View for Ownership {
    type V = OwnershipView;

    open spec fn view(&self) -> OwnershipView {
        OwnershipView {
            id: self.id@,
            client_id: self.client_id@,
            organization_id: opt_view(self.organization_id),
            project_id: opt_view(self.project_id),
            user_id: opt_view(self.user_id),
        }
    }
}

pub fn clone_opt_string(o: &Option<String>) -> (r: Option<String>)
    ensures
        r == *o,
{
    match o {
        Some(s) => Some(s.clone()),
        None => None,
    }
}

pub fn opt_string_eq(a: &Option<String>, b: &Option<String>) -> (r: bool)
    ensures
        r == (opt_view(*a) == opt_view(*b)),
{
    match (a, b) {
        (Some(x), Some(y)) => *x == *y,
        (None, None) => true,
        _ => false,
    }
}

impl Ownership {
    /// The ownership of a single owner: every field names it.
    pub fn new(id: String) -> (r: Ownership)
        ensures
            r@ == (OwnershipView {
                id: id@,
                client_id: id@,
                organization_id: Some(id@),
                project_id: Some(id@),
                user_id: Some(id@),
            }),
    {
        Ownership {
            client_id: id.clone(),
            organization_id: Some(id.clone()),
            project_id: Some(id.clone()),
            user_id: Some(id.clone()),
            id,
        }
    }

    pub fn duplicate(&self) -> (r: Ownership)
        ensures
            r == *self,
    {
        Ownership {
            id: self.id.clone(),
            client_id: self.client_id.clone(),
            organization_id: clone_opt_string(&self.organization_id),
            project_id: clone_opt_string(&self.project_id),
            user_id: clone_opt_string(&self.user_id),
        }
    }

    /// Whether both name the same owner in every field.
    pub fn same(&self, other: &Ownership) -> (r: bool)
        ensures
            r == (self@ == other@),
    {
        self.id == other.id && self.client_id == other.client_id && opt_string_eq(
            &self.organization_id,
            &other.organization_id,
        ) && opt_string_eq(&self.project_id, &other.project_id) && opt_string_eq(
            &self.user_id,
            &other.user_id,
        )
    }
}

/// Bookkeeping fields that every stored record carries.
pub struct RecordMetadata {
    pub created_at: i64,
    pub updated_at: i64,
    pub updated: bool,
    pub version: String,
    pub last_modified_by: String,
    pub deleted: bool,
    pub tags: Vec<String>,
    pub active: bool,
    pub deprecated: bool,
}

impl RecordMetadata {
    /// Fresh metadata for a record created at `now` (milliseconds).
    pub fn created_at(now: i64) -> (r: RecordMetadata)
        ensures
            r.created_at == now,
            r.updated_at == now,
            !r.updated,
            r.version@ == "1.0.0"@,
            r.last_modified_by@ == "system"@,
            !r.deleted,
            r.tags@.len() == 0,
            r.active,
            !r.deprecated,
    {
        RecordMetadata {
            created_at: now,
            updated_at: now,
            updated: false,
            version: String::from_str("1.0.0"),
            last_modified_by: String::from_str("system"),
            deleted: false,
            tags: Vec::new(),
            active: true,
            deprecated: false,
        }
    }

    /// Records that `modifier` changed the record at `now`.
    pub fn mark_updated(&mut self, modifier: &str, now: i64)
        ensures
            final(self).updated,
            final(self).updated_at == now,
            final(self).last_modified_by@ == modifier@,
            final(self).created_at == old(self).created_at,
            final(self).version == old(self).version,
            final(self).deleted == old(self).deleted,
            final(self).tags == old(self).tags,
            final(self).active == old(self).active,
            final(self).deprecated == old(self).deprecated,
    {
        self.updated = true;
        self.updated_at = now;
        self.last_modified_by = String::from_str(modifier);
    }
}

impl Default for RecordMetadata {
    fn default() -> (r: RecordMetadata)
        ensures
            r.created_at == 0,
            r.updated_at == 0,
            r.active,
            !r.deleted,
    {
        RecordMetadata::created_at(0)
    }
}

/// Settings that a connection or a definition carries.
#[derive(Clone, Copy, Debug, PartialEq, Eq, Structural)]
pub struct Settings {
    pub parse_webhook_body: bool,
    pub show_secret: bool,
    pub allow_custom_events: bool,
    pub oauth: bool,
}

impl Default for Settings {
    fn default() -> (r: Settings)
        ensures
            !r.parse_webhook_body && !r.show_secret && !r.allow_custom_events && !r.oauth,
    {
        Settings { parse_webhook_body: false, show_secret: false, allow_custom_events: false, oauth: false }
    }
}

} // verus!

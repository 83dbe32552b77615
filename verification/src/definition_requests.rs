//! The requests that create and change connection definitions.
use vstd::prelude::*;
use crate::common::{clone_opt_string, Id, RecordMetadata, Settings};
use crate::connection_definition::{
    clone_opt_auth_method, clone_opt_id, clone_opt_strings, AuthMethod, AuthSecret,
    ConnectionDefinition, ConnectionDefinitionType, ConnectionForm, ConnectionStatus,
    FormDataItem, Frontend, Paths, Spec,
};
use crate::filter::clone_strings;

verus! {

/// A field of the form that connects to a platform.
pub struct AuthenticationItem {
    pub name: String,
    pub label: String,
    pub field_type: String,
    pub placeholder: String,
    pub options: Option<Vec<String>>,
}

/// The request to create (or change) a connection definition.
pub struct CreateRequest {
    pub id: Option<Id>,
    pub platform: String,
    pub platform_version: String,
    pub status: ConnectionStatus,
    pub kind: ConnectionDefinitionType,
    pub name: String,
    pub description: String,
    pub category: String,
    pub image: String,
    pub tags: Vec<String>,
    pub helper_link: Option<String>,
    pub authentication: Vec<AuthenticationItem>,
    pub auth_method: Option<AuthMethod>,
    pub multi_env: bool,
    pub settings: Settings,
    pub paths: Paths,
    pub test_connection: Option<Id>,
    pub test_delay_in_millis: Option<i16>,
    pub active: bool,
    pub markdown: Option<String>,
}

/// The fields of a definition that an update request may change on their own.
pub struct UpdateFields {
    pub active: bool,
}

/// The key of a definition: `api::` then platform and version, joined by `::`.
pub open spec fn definition_key(platform: Seq<char>, version: Seq<char>) -> Seq<char> {
    "api::"@ + platform + "::"@ + version
}

/// The secret each authentication item asks for.
pub open spec fn secret_names(items: Seq<AuthenticationItem>) -> Seq<Seq<char>> {
    items.map_values(|i: AuthenticationItem| i.name@)
}

/// The form field each authentication item becomes.
pub open spec fn form_item_of(i: AuthenticationItem) -> (
    Seq<char>,
    Seq<char>,
    Seq<char>,
    Seq<char>,
    Option<Seq<Seq<char>>>,
) {
    (
        i.name@,
        i.field_type@,
        i.label@,
        i.placeholder@,
        match i.options {
            Some(o) => Some(o@.map_values(|s: String| s@)),
            None => None,
        },
    )
}

pub open spec fn form_item_view(f: FormDataItem) -> (
    Seq<char>,
    Seq<char>,
    Seq<char>,
    Seq<char>,
    Option<Seq<Seq<char>>>,
) {
    (
        f.name@,
        f.field_type@,
        f.label@,
        f.placeholder@,
        match f.options {
            Some(o) => Some(o@.map_values(|s: String| s@)),
            None => None,
        },
    )
}

/// The texts of a field's options, when it has any.
pub open spec fn options_view(o: Option<Vec<String>>) -> Option<Seq<Seq<char>>> {
    match o {
        Some(v) => Some(v@.map_values(|s: String| s@)),
        None => None,
    }
}

/// Whether a form field is made from an authentication item: it has the
/// item's name, type, label, placeholder and options, each from the item's
/// own field.
pub open spec fn field_made_from(f: FormDataItem, i: AuthenticationItem) -> bool {
    &&& f.name@ == i.name@
    &&& f.field_type@ == i.field_type@
    &&& f.label@ == i.label@
    &&& f.placeholder@ == i.placeholder@
    &&& options_view(f.options) == options_view(i.options)
}

/// The form of a created definition has one field for each authentication
/// item of the request, in the same order, and the field at each position is
/// made from the item at that position: a password item stays a password
/// field, with its own placeholder.
pub proof fn law_form_fields_follow_items(fields: Seq<FormDataItem>, items: Seq<AuthenticationItem>)
    requires
        fields.map_values(|f: FormDataItem| form_item_view(f)) == items.map_values(
            |i: AuthenticationItem| form_item_of(i),
        ),
    ensures
        fields.len() == items.len(),
        forall|k: int| 0 <= k < items.len() ==> field_made_from(#[trigger] fields[k], items[k]),
{
    assert(fields.map_values(|f: FormDataItem| form_item_view(f)).len() == fields.len());
    assert forall|k: int| 0 <= k < items.len() implies field_made_from(#[trigger] fields[k], items[k]) by {
        assert(fields.map_values(|f: FormDataItem| form_item_view(f))[k] == items.map_values(
            |i: AuthenticationItem| form_item_of(i),
        )[k]);
    }
}

impl CreateRequest {
    /// The definition that the request describes. A request without an id
    /// takes `fresh_id`; the record starts from `record_metadata` with the
    /// request's `active`.
    pub fn from(&self, fresh_id: Id, record_metadata: RecordMetadata) -> (r: Option<
        ConnectionDefinition,
    >)
        ensures
            r matches Some(d) && {
                &&& d.id == (match self.id {
                    Some(i) => i,
                    None => fresh_id,
                })
                &&& d.platform_version == self.platform_version
                &&& d.platform == self.platform
                &&& d.status == self.status
                &&& d.kind == self.kind
                &&& d.name == self.name
                &&& d.key@ == definition_key(self.platform@, self.platform_version@)
                &&& d.frontend.spec.title == self.name
                &&& d.frontend.spec.description == self.description
                &&& d.frontend.spec.platform == self.platform
                &&& d.frontend.spec.category == self.category
                &&& d.frontend.spec.image == self.image
                &&& d.frontend.spec.tags@ == self.tags@
                &&& d.frontend.spec.helper_link == self.helper_link
                &&& d.frontend.spec.markdown == self.markdown
                &&& d.frontend.connection_form.name@ == "Connect"@
                &&& d.frontend.connection_form.description@ == "Securely connect your account"@
                &&& d.frontend.connection_form.form_data@.map_values(
                    |f: FormDataItem| form_item_view(f),
                ) == self.authentication@.map_values(|i: AuthenticationItem| form_item_of(i))
                &&& d.auth_secrets@.map_values(|s: AuthSecret| s.name@) == secret_names(
                    self.authentication@,
                )
                &&& d.test_connection == self.test_connection
                &&& d.auth_method == self.auth_method
                &&& d.multi_env == self.multi_env
                &&& d.paths == self.paths
                &&& d.settings == self.settings
                &&& !d.hidden
                &&& d.test_delay_in_millis == self.test_delay_in_millis
                &&& d.record_metadata.active == self.active
                &&& d.record_metadata.created_at == record_metadata.created_at
                &&& d.record_metadata.updated_at == record_metadata.updated_at
                &&& d.record_metadata.version == record_metadata.version
                &&& d.record_metadata.deleted == record_metadata.deleted
                &&& d.record_metadata.updated == record_metadata.updated
                &&& d.record_metadata.last_modified_by == record_metadata.last_modified_by
                &&& d.record_metadata.tags == record_metadata.tags
                &&& d.record_metadata.deprecated == record_metadata.deprecated
                &&& d.frontend.connection_form.form_data@.len() == self.authentication@.len()
                &&& forall|k: int|
                    0 <= k < self.authentication@.len() ==> field_made_from(
                        #[trigger] d.frontend.connection_form.form_data@[k],
                        self.authentication@[k],
                    )
            },
    {
        let items = &self.authentication;
        let mut auth_secrets: Vec<AuthSecret> = Vec::new();
        let mut form_data: Vec<FormDataItem> = Vec::new();
        let mut i: usize = 0;
        while i < items.len()
            invariant
                i <= items.len(),
                auth_secrets@.map_values(|s: AuthSecret| s.name@) == secret_names(
                    items@.take(i as int),
                ),
                form_data@.map_values(|f: FormDataItem| form_item_view(f)) == items@.take(
                    i as int,
                ).map_values(|i: AuthenticationItem| form_item_of(i)),
            decreases items.len() - i,
        {
            let item = &items[i];
            let ghost old_secrets = auth_secrets@;
            let ghost old_form = form_data@;
            auth_secrets.push(AuthSecret { name: item.name.clone() });
            let options = clone_opt_strings(&item.options);
            form_data.push(
                FormDataItem {
                    name: item.name.clone(),
                    field_type: item.field_type.clone(),
                    label: item.label.clone(),
                    placeholder: item.placeholder.clone(),
                    options,
                },
            );
            assert(items@.take(i + 1) =~= items@.take(i as int).push(items@[i as int]));
            assert(auth_secrets@.map_values(|s: AuthSecret| s.name@) =~= old_secrets.map_values(
                |s: AuthSecret| s.name@,
            ).push(item.name@));
            assert(secret_names(items@.take(i + 1)) =~= secret_names(items@.take(i as int)).push(
                item.name@,
            ));
            assert(form_data@.map_values(|f: FormDataItem| form_item_view(f)) =~= old_form.map_values(
                |f: FormDataItem| form_item_view(f),
            ).push(form_item_of(*item)));
            assert(items@.take(i + 1).map_values(|i: AuthenticationItem| form_item_of(i))
                =~= items@.take(i as int).map_values(|i: AuthenticationItem| form_item_of(i)).push(
                form_item_of(*item),
            ));
            i = i + 1;
        }
        assert(items@.take(items.len() as int) =~= items@);
        proof {
            law_form_fields_follow_items(form_data@, items@);
        }
        let connection_form = ConnectionForm {
            name: String::from_str("Connect"),
            description: String::from_str("Securely connect your account"),
            form_data,
        };
        let key = String::from_str("api::").concat(self.platform.as_str()).concat("::").concat(
            self.platform_version.as_str(),
        );
        let id = match &self.id {
            Some(i) => i.duplicate(),
            None => fresh_id,
        };
        let mut record_metadata = record_metadata;
        record_metadata.active = self.active;
        Some(
            ConnectionDefinition {
                id,
                platform_version: self.platform_version.clone(),
                platform: self.platform.clone(),
                status: self.status,
                kind: self.kind,
                name: self.name.clone(),
                key,
                frontend: Frontend {
                    spec: Spec {
                        title: self.name.clone(),
                        description: self.description.clone(),
                        platform: self.platform.clone(),
                        category: self.category.clone(),
                        image: self.image.clone(),
                        tags: clone_strings(&self.tags),
                        helper_link: clone_opt_string(&self.helper_link),
                        markdown: clone_opt_string(&self.markdown),
                    },
                    connection_form,
                },
                test_connection: clone_opt_id(&self.test_connection),
                auth_secrets,
                auth_method: clone_opt_auth_method(&self.auth_method),
                multi_env: self.multi_env,
                paths: self.paths.duplicate(),
                settings: self.settings,
                hidden: false,
                test_delay_in_millis: self.test_delay_in_millis,
                record_metadata,
            },
        )
    }

    /// Changes a stored definition as the request says: its name, description,
    /// category, image, tags, test connection, platform, environments and
    /// activity. Everything else stays.
    pub fn update(&self, record: ConnectionDefinition) -> (r: ConnectionDefinition)
        ensures
            r.name == self.name,
            r.frontend.spec.description == self.description,
            r.frontend.spec.category == self.category,
            r.frontend.spec.image == self.image,
            r.frontend.spec.tags@ == self.tags@,
            r.test_connection == self.test_connection,
            r.platform == self.platform,
            r.multi_env == self.multi_env,
            r.record_metadata.active == self.active,
            r.id == record.id,
            r.key == record.key,
            r.platform_version == record.platform_version,
            r.status == record.status,
            r.kind == record.kind,
            r.auth_secrets == record.auth_secrets,
            r.auth_method == record.auth_method,
            r.frontend.spec.title == record.frontend.spec.title,
            r.frontend.spec.platform == record.frontend.spec.platform,
            r.frontend.spec.helper_link == record.frontend.spec.helper_link,
            r.frontend.spec.markdown == record.frontend.spec.markdown,
            r.frontend.connection_form == record.frontend.connection_form,
            r.paths == record.paths,
            r.settings == record.settings,
            r.hidden == record.hidden,
            r.test_delay_in_millis == record.test_delay_in_millis,
            r.record_metadata.created_at == record.record_metadata.created_at,
            r.record_metadata.updated_at == record.record_metadata.updated_at,
            r.record_metadata.deleted == record.record_metadata.deleted,
            r.record_metadata.updated == record.record_metadata.updated,
            r.record_metadata.version == record.record_metadata.version,
            r.record_metadata.last_modified_by == record.record_metadata.last_modified_by,
            r.record_metadata.tags == record.record_metadata.tags,
            r.record_metadata.deprecated == record.record_metadata.deprecated,
    {
        let mut record = record;
        record.name = self.name.clone();
        record.frontend.spec.description = self.description.clone();
        record.frontend.spec.category = self.category.clone();
        record.frontend.spec.image = self.image.clone();
        record.frontend.spec.tags = clone_strings(&self.tags);
        record.test_connection = clone_opt_id(&self.test_connection);
        record.platform = self.platform.clone();
        record.multi_env = self.multi_env;
        record.record_metadata.active = self.active;
        record
    }
}

} // verus!

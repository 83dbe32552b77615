//! The public description of what a platform supports for one common model.
use vstd::prelude::*;
use crate::common::Id;
use crate::connection_definition::{
    is_oauth_method, auth_method_is_oauth, ConnectionDefinition, ConnectionStatus, Filter,
    ModelFeatures, PublicConnectionDetails,
};
use crate::error::{fails_with, ErrorKind, PicaError};
use crate::filter::clone_strings;
use crate::text::{str_eq, strings_view};

verus! {

/// The operations a model definition performs.
#[derive(Clone, Copy, Debug, PartialEq, Eq, Structural)]
pub enum CrudAction {
    GetOne,
    GetMany,
    GetCount,
    Create,
    Update,
    Upsert,
    Delete,
    Custom,
}

/// A model definition of a platform, as far as the public details read it.
pub struct ConnectionModelDefinition {
    pub id: Id,
    pub title: String,
    pub action_name: CrudAction,
}

/// A caveat as the public details show it.
pub struct PublicConnectionDataCaveat {
    pub name: String,
    pub action: Option<CrudAction>,
    pub comments: Vec<String>,
}

/// Whether a platform connects through OAuth, and the scopes it asks for.
pub struct PublicConnectionDataOauth {
    pub enabled: bool,
    pub scopes: String,
}

/// What a platform supports for one common model.
pub struct PublicGetConnectionDetailsResponse {
    pub platform: String,
    pub status: ConnectionStatus,
    pub supported_actions: Vec<CrudAction>,
    pub oauth: PublicConnectionDataOauth,
    pub pagination: bool,
    pub filtration: bool,
    pub sorting: bool,
    pub caveats: Vec<PublicConnectionDataCaveat>,
    pub supported_filters: Option<Vec<Filter>>,
    pub supported_sort_keys: Option<Vec<String>>,
}

/// The lower-case form of a string, as `str::to_lowercase` computes it.
pub uninterp spec fn lowercase(s: Seq<char>) -> Seq<char>;

/// Calls `str::to_lowercase`; the contract names its result.
#[verifier::external_body]
fn to_lowercase(s: &str) -> (r: String)
    ensures
        r@ == lowercase(s@),
{
    s.to_lowercase()
}

/// A caveat as the response shows it: name, action and comments.
pub type CaveatView = (Seq<char>, Option<CrudAction>, Seq<Seq<char>>);

pub open spec fn caveat_view(c: PublicConnectionDataCaveat) -> CaveatView {
    (c.name@, c.action, strings_view(c.comments@))
}

/// The position of the first model definition with the given identifier.
pub open spec fn definition_with_id(defs: Seq<ConnectionModelDefinition>, id: Seq<char>) -> Option<
    int,
>
    decreases defs.len(),
{
    if defs.len() == 0 {
        None
    } else if defs[0].id@ == id {
        Some(0)
    } else {
        match definition_with_id(defs.drop_first(), id) {
            Some(i) => Some(i + 1),
            None => None,
        }
    }
}

/// A stored caveat as the response shows it: one that refers to a model
/// definition takes its title and action, and is left out when no such
/// definition was found; one that refers to none is a general caveat.
pub open spec fn caveat_out(
    c: crate::connection_definition::Caveat,
    defs: Seq<ConnectionModelDefinition>,
) -> Option<CaveatView> {
    match c.connection_model_definition_id {
        Some(id) => match definition_with_id(defs, id@) {
            Some(i) => Some((defs[i].title@, Some(defs[i].action_name), strings_view(c.comments@))),
            None => None,
        },
        None => Some(("General"@, None, strings_view(c.comments@))),
    }
}

pub open spec fn caveats_out(
    cs: Seq<crate::connection_definition::Caveat>,
    defs: Seq<ConnectionModelDefinition>,
) -> Seq<CaveatView>
    decreases cs.len(),
{
    if cs.len() == 0 {
        Seq::empty()
    } else {
        let prev = caveats_out(cs.drop_last(), defs);
        match caveat_out(cs.last(), defs) {
            Some(c) => prev.push(c),
            None => prev,
        }
    }
}

/// The position of the first model whose name matches `name` when both are
/// put in lower case.
pub open spec fn model_named(models: Seq<ModelFeatures>, name: Seq<char>) -> Option<int>
    decreases models.len(),
{
    if models.len() == 0 {
        None
    } else if lowercase(models[0].name@) == lowercase(name) {
        Some(0)
    } else {
        match model_named(models.drop_first(), name) {
            Some(i) => Some(i + 1),
            None => None,
        }
    }
}

pub open spec fn filter_view(f: Filter) -> (Seq<char>, Seq<Seq<char>>) {
    (f.key@, strings_view(f.operators@))
}

pub open spec fn filters_view(o: Option<Vec<Filter>>) -> Option<Seq<(Seq<char>, Seq<Seq<char>>)>> {
    match o {
        Some(v) => Some(v@.map_values(|f: Filter| filter_view(f))),
        None => None,
    }
}

pub open spec fn opt_strings_view(o: Option<Vec<String>>) -> Option<Seq<Seq<char>>> {
    match o {
        Some(v) => Some(strings_view(v@)),
        None => None,
    }
}

fn clone_filters(o: &Option<Vec<Filter>>) -> (r: Option<Vec<Filter>>)
    ensures
        filters_view(r) == filters_view(*o),
{
    match o {
        None => None,
        Some(v) => {
            let mut out: Vec<Filter> = Vec::new();
            let mut i: usize = 0;
            while i < v.len()
                invariant
                    i <= v.len(),
                    out@.map_values(|f: Filter| filter_view(f)) == v@.take(i as int).map_values(
                        |f: Filter| filter_view(f),
                    ),
                decreases v.len() - i,
            {
                let ghost old_out = out@;
                out.push(Filter { key: v[i].key.clone(), operators: clone_strings(&v[i].operators) });
                assert(out@.map_values(|f: Filter| filter_view(f)) =~= old_out.map_values(
                    |f: Filter| filter_view(f),
                ).push(filter_view(v@[i as int])));
                assert(v@.take(i + 1) =~= v@.take(i as int).push(v@[i as int]));
                assert(v@.take(i + 1).map_values(|f: Filter| filter_view(f)) =~= v@.take(
                    i as int,
                ).map_values(|f: Filter| filter_view(f)).push(filter_view(v@[i as int])));
                i = i + 1;
            }
            assert(v@.take(v.len() as int) =~= v@);
            Some(out)
        },
    }
}

fn clone_opt_strings(o: &Option<Vec<String>>) -> (r: Option<Vec<String>>)
    ensures
        opt_strings_view(r) == opt_strings_view(*o),
{
    match o {
        Some(v) => Some(clone_strings(v)),
        None => None,
    }
}

fn find_definition(defs: &Vec<ConnectionModelDefinition>, id: &str) -> (r: Option<usize>)
    ensures
        match r {
            Some(i) => definition_with_id(defs@, id@) == Some(i as int) && i < defs@.len(),
            None => definition_with_id(defs@, id@) is None,
        },
{
    let mut i: usize = 0;
    assert(defs@.skip(0) =~= defs@);
    while i < defs.len()
        invariant
            i <= defs.len(),
            definition_with_id(defs@, id@) == match definition_with_id(defs@.skip(i as int), id@) {
                Some(j) => Some(j + i),
                None => None::<int>,
            },
        decreases defs.len() - i,
    {
        assert(defs@.skip(i as int).drop_first() =~= defs@.skip(i + 1));
        if str_eq(defs[i].id.as_str(), id) {
            return Some(i);
        }
        i = i + 1;
    }
    None
}

/// The position of the first of `names` equal to `wanted`.
pub open spec fn first_equal(names: Seq<Seq<char>>, wanted: Seq<char>) -> Option<int>
    decreases names.len(),
{
    if names.len() == 0 {
        None
    } else if names[0] == wanted {
        Some(0)
    } else {
        match first_equal(names.drop_first(), wanted) {
            Some(i) => Some(i + 1),
            None => None,
        }
    }
}

/// The names of the models in lower case.
pub open spec fn lowered_names(models: Seq<ModelFeatures>) -> Seq<Seq<char>> {
    models.map_values(|m: ModelFeatures| lowercase(m.name@))
}

proof fn lemma_model_named(models: Seq<ModelFeatures>, name: Seq<char>)
    ensures
        model_named(models, name) == first_equal(lowered_names(models), lowercase(name)),
    decreases models.len(),
{
    if models.len() > 0 {
        lemma_model_named(models.drop_first(), name);
        assert(lowered_names(models.drop_first()) =~= lowered_names(models).drop_first());
    }
}

/// The position of the first of the (lower-cased) model names that equals
/// the (lower-cased) name asked for.
pub fn position_of_name(names: &Vec<String>, wanted: &str) -> (r: Option<usize>)
    ensures
        match r {
            Some(i) => first_equal(strings_view(names@), wanted@) == Some(i as int) && i
                < names@.len(),
            None => first_equal(strings_view(names@), wanted@) is None,
        },
{
    let ghost all = strings_view(names@);
    let mut i: usize = 0;
    assert(all.skip(0) =~= all);
    while i < names.len()
        invariant
            i <= names.len(),
            all == strings_view(names@),
            first_equal(all, wanted@) == match first_equal(all.skip(i as int), wanted@) {
                Some(j) => Some(j + i),
                None => None::<int>,
            },
        decreases names.len() - i,
    {
        assert(all.skip(i as int).drop_first() =~= all.skip(i + 1));
        assert(all.skip(i as int)[0] == names@[i as int]@);
        if str_eq(names[i].as_str(), wanted) {
            return Some(i);
        }
        i = i + 1;
    }
    None
}

fn find_model(models: &Vec<ModelFeatures>, name: &str) -> (r: Option<usize>)
    ensures
        match r {
            Some(i) => model_named(models@, name@) == Some(i as int) && i < models@.len(),
            None => model_named(models@, name@) is None,
        },
{
    let wanted = to_lowercase(name);
    let mut lowered: Vec<String> = Vec::new();
    let mut i: usize = 0;
    while i < models.len()
        invariant
            i <= models.len(),
            strings_view(lowered@) == lowered_names(models@.take(i as int)),
        decreases models.len() - i,
    {
        let ghost before = lowered@;
        lowered.push(to_lowercase(models[i].name.as_str()));
        assert(strings_view(lowered@) =~= strings_view(before).push(lowercase(models@[i as int].name@)));
        assert(models@.take(i + 1) =~= models@.take(i as int).push(models@[i as int]));
        assert(lowered_names(models@.take(i + 1)) =~= lowered_names(models@.take(i as int)).push(
            lowercase(models@[i as int].name@),
        ));
        i = i + 1;
    }
    proof {
        assert(models@.take(models.len() as int) =~= models@);
        lemma_model_named(models@, name@);
    }
    position_of_name(&lowered, wanted.as_str())
}

/// The caveats of a platform's details as the response shows them.
pub fn public_caveats(
    caveats: &Vec<crate::connection_definition::Caveat>,
    defs: &Vec<ConnectionModelDefinition>,
) -> (r: Vec<PublicConnectionDataCaveat>)
    ensures
        r@.map_values(|c: PublicConnectionDataCaveat| caveat_view(c)) == caveats_out(
            caveats@,
            defs@,
        ),
{
    let mut out: Vec<PublicConnectionDataCaveat> = Vec::new();
    let mut i: usize = 0;
    assert(caveats@.take(0) =~= Seq::<crate::connection_definition::Caveat>::empty());
    while i < caveats.len()
        invariant
            i <= caveats.len(),
            out@.map_values(|c: PublicConnectionDataCaveat| caveat_view(c)) == caveats_out(
                caveats@.take(i as int),
                defs@,
            ),
        decreases caveats.len() - i,
    {
        let c = &caveats[i];
        let ghost old_out = out@;
        assert(caveats@.take(i + 1).drop_last() =~= caveats@.take(i as int));
        assert(caveats@.take(i + 1).last() == caveats@[i as int]);
        match &c.connection_model_definition_id {
            Some(cmd_id) => {
                match find_definition(defs, cmd_id.as_str()) {
                    Some(j) => {
                        let d = &defs[j];
                        out.push(
                            PublicConnectionDataCaveat {
                                name: d.title.clone(),
                                action: Some(d.action_name),
                                comments: clone_strings(&c.comments),
                            },
                        );
                        assert(out@.map_values(|c: PublicConnectionDataCaveat| caveat_view(c))
                            =~= old_out.map_values(|c: PublicConnectionDataCaveat| caveat_view(c)).push(
                            caveat_out(*c, defs@).unwrap(),
                        ));
                    },
                    None => {},
                }
            },
            None => {
                out.push(
                    PublicConnectionDataCaveat {
                        name: String::from_str("General"),
                        action: None,
                        comments: clone_strings(&c.comments),
                    },
                );
                assert(out@.map_values(|c: PublicConnectionDataCaveat| caveat_view(c))
                    =~= old_out.map_values(|c: PublicConnectionDataCaveat| caveat_view(c)).push(
                    caveat_out(*c, defs@).unwrap(),
                ));
            },
        }
        i = i + 1;
    }
    assert(caveats@.take(caveats.len() as int) =~= caveats@);
    out
}

/// Whether the public details of a definition need the scopes of the
/// platform's OAuth configuration.
pub fn needs_oauth_scopes(definition: &ConnectionDefinition) -> (r: bool)
    ensures
        r == is_oauth_method(definition.auth_method),
{
    auth_method_is_oauth(&definition.auth_method)
}

/// The message of a lookup that found nothing.
pub open spec fn not_found_message(what: Seq<char>, name: Seq<char>) -> Seq<char> {
    what + name
}

/// The public details of `platform` for `common_model`, from the platform's
/// definition, its model definitions for that model, the scopes of its OAuth
/// configuration (when one was found) and its stored public details.
pub fn public_connection_details(
    common_model: &str,
    platform: &str,
    definition: &ConnectionDefinition,
    model_definitions: &Vec<ConnectionModelDefinition>,
    oauth_scopes: Option<String>,
    details: Option<PublicConnectionDetails>,
) -> (r: Result<PublicGetConnectionDetailsResponse, PicaError>)
    ensures
        is_oauth_method(definition.auth_method) && oauth_scopes is None ==> fails_with(
            r,
            ErrorKind::NotFound,
            "OAuth Config for platform "@ + platform@,
        ),
        !(is_oauth_method(definition.auth_method) && oauth_scopes is None) && details is None
            ==> fails_with(r, ErrorKind::NotFound, "Public connection details for platform "@ + platform@),
        !(is_oauth_method(definition.auth_method) && oauth_scopes is None) && details is Some
            && model_named(details.unwrap().models@, common_model@) is None ==> fails_with(
            r,
            ErrorKind::NotFound,
            "Model features for model "@ + common_model@,
        ),
        r matches Ok(resp) ==> {
            let d = details.unwrap();
            let m = d.models@[model_named(d.models@, common_model@).unwrap()];
            &&& !(is_oauth_method(definition.auth_method) && oauth_scopes is None)
            &&& model_named(d.models@, common_model@) is Some
            &&& resp.platform@ == definition.platform@
            &&& resp.status == definition.status
            &&& resp.supported_actions@ == model_definitions@.map_values(
                |m: ConnectionModelDefinition| m.action_name,
            )
            &&& resp.oauth.enabled == is_oauth_method(definition.auth_method)
            &&& resp.oauth.scopes@ == (if is_oauth_method(definition.auth_method) {
                oauth_scopes.unwrap()@
            } else {
                Seq::<char>::empty()
            })
            &&& resp.pagination == m.pagination
            &&& resp.filtration == m.filtration.supported
            &&& resp.sorting == m.sorting.supported
            &&& resp.caveats@.map_values(|c: PublicConnectionDataCaveat| caveat_view(c))
                == caveats_out(d.caveats@, model_definitions@)
            &&& filters_view(resp.supported_filters) == filters_view(m.filtration.filters)
            &&& opt_strings_view(resp.supported_sort_keys) == opt_strings_view(m.sorting.keys)
        },
        r is Err <==> ((is_oauth_method(definition.auth_method) && oauth_scopes is None)
            || details is None || model_named(details.unwrap().models@, common_model@) is None),
{
    let mut supported_actions: Vec<CrudAction> = Vec::new();
    let mut i: usize = 0;
    while i < model_definitions.len()
        invariant
            i <= model_definitions.len(),
            supported_actions@ == model_definitions@.take(i as int).map_values(
                |m: ConnectionModelDefinition| m.action_name,
            ),
        decreases model_definitions.len() - i,
    {
        supported_actions.push(model_definitions[i].action_name);
        assert(model_definitions@.take(i + 1) =~= model_definitions@.take(i as int).push(
            model_definitions@[i as int],
        ));
        assert(supported_actions@ =~= model_definitions@.take(i + 1).map_values(
            |m: ConnectionModelDefinition| m.action_name,
        ));
        i = i + 1;
    }
    assert(model_definitions@.take(model_definitions.len() as int) =~= model_definitions@);
    let oauth_enabled = auth_method_is_oauth(&definition.auth_method);
    let scopes = if oauth_enabled {
        match oauth_scopes {
            Some(s) => s,
            None => {
                return Err(
                    PicaError {
                        kind: ErrorKind::NotFound,
                        message: String::from_str("OAuth Config for platform ").concat(platform),
                    },
                );
            },
        }
    } else {
        String::new()
    };
    let details = match details {
        Some(d) => d,
        None => {
            return Err(
                PicaError {
                    kind: ErrorKind::NotFound,
                    message: String::from_str("Public connection details for platform ").concat(
                        platform,
                    ),
                },
            );
        },
    };
    let model_index = match find_model(&details.models, common_model) {
        Some(j) => j,
        None => {
            return Err(
                PicaError {
                    kind: ErrorKind::NotFound,
                    message: String::from_str("Model features for model ").concat(common_model),
                },
            );
        },
    };
    let model = &details.models[model_index];
    let caveats = public_caveats(&details.caveats, model_definitions);
    Ok(
        PublicGetConnectionDetailsResponse {
            platform: definition.platform.clone(),
            status: definition.status,
            supported_actions,
            oauth: PublicConnectionDataOauth { enabled: oauth_enabled, scopes },
            pagination: model.pagination,
            filtration: model.filtration.supported,
            sorting: model.sorting.supported,
            caveats,
            supported_filters: clone_filters(&model.filtration.filters),
            supported_sort_keys: clone_opt_strings(&model.sorting.keys),
        },
    )
}

} // verus!

verus! {

/// The request for a platform's public details; it carries nothing.
pub struct GetPublicConnectionDetailsRequest;

/// The answer to a request for a fresh identifier.
pub struct GenerateIdResponse {
    pub id: String,
}

} // verus!

verus! {

proof fn lemma_definition_with_id(defs: Seq<ConnectionModelDefinition>, id: Seq<char>)
    ensures
        definition_with_id(defs, id) matches Some(i) ==> 0 <= i < defs.len() && defs[i].id@ == id,
        definition_with_id(defs, id) is None ==> forall|i: int|
            0 <= i < defs.len() ==> #[trigger] defs[i].id@ != id,
    decreases defs.len(),
{
    if defs.len() > 0 {
        lemma_definition_with_id(defs.drop_first(), id);
        if definition_with_id(defs, id) is None {
            assert forall|i: int| 0 <= i < defs.len() implies #[trigger] defs[i].id@ != id by {
                if i > 0 {
                    assert(defs[i] == defs.drop_first()[i - 1]);
                }
            }
        }
    }
}

/// A stored caveat shows with exactly its own comments. One that refers to no
/// model definition shows as "General" without an action; one that refers to
/// a model definition shows exactly when such a definition is among `defs`,
/// and then under that definition's title and action.
pub proof fn law_caveat_keeps_its_comments(
    c: crate::connection_definition::Caveat,
    defs: Seq<ConnectionModelDefinition>,
)
    ensures
        caveat_out(c, defs) matches Some(v) ==> v.2 == strings_view(c.comments@),
        c.connection_model_definition_id is None ==> caveat_out(c, defs) == Some(
            ("General"@, None::<CrudAction>, strings_view(c.comments@)),
        ),
        c.connection_model_definition_id matches Some(id) ==> (caveat_out(c, defs) is Some <==> exists|
            i: int,
        | 0 <= i < defs.len() && #[trigger] defs[i].id@ == id@),
        c.connection_model_definition_id matches Some(id) ==> (caveat_out(c, defs) matches Some(v)
            ==> exists|i: int|
            0 <= i < defs.len() && #[trigger] defs[i].id@ == id@ && v.0 == defs[i].title@ && v.1
                == Some(defs[i].action_name)),
{
    if let Some(id) = c.connection_model_definition_id {
        lemma_definition_with_id(defs, id@);
        if let Some(i) = definition_with_id(defs, id@) {
            assert(defs[i].id@ == id@);
        }
    }
}

/// The caveats of a platform's public details come from its stored caveats,
/// in their order, at most one each, and each with the comments of the stored
/// caveat it was made from.
pub proof fn law_caveats_keep_their_comments(
    cs: Seq<crate::connection_definition::Caveat>,
    defs: Seq<ConnectionModelDefinition>,
)
    ensures
        caveats_out(cs, defs).len() <= cs.len(),
        forall|j: int|
            0 <= j < caveats_out(cs, defs).len() ==> exists|i: int|
                0 <= i < cs.len() && #[trigger] caveats_out(cs, defs)[j].2 == strings_view(
                    cs[i].comments@,
                ),
    decreases cs.len(),
{
    if cs.len() > 0 {
        let t = cs.drop_last();
        law_caveats_keep_their_comments(t, defs);
        law_caveat_keeps_its_comments(cs.last(), defs);
        let prev = caveats_out(t, defs);
        let out = caveats_out(cs, defs);
        assert forall|j: int| 0 <= j < out.len() implies exists|i: int|
            0 <= i < cs.len() && #[trigger] out[j].2 == strings_view(cs[i].comments@) by {
            if j < prev.len() {
                assert(out[j] == prev[j]);
                let i = choose|i: int| 0 <= i < t.len() && #[trigger] prev[j].2 == strings_view(t[i].comments@);
                assert(t[i] == cs[i]);
            } else {
                assert(out[j].2 == strings_view(cs[cs.len() - 1].comments@));
            }
        }
    }
}

} // verus!

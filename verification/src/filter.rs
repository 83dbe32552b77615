//! The filter documents sent to the store, and how a request's query
//! parameters, access and headers shape one.
use vstd::prelude::*;
use std::sync::Arc;
use http::HeaderMap;
use crate::common::env_name;
use crate::constants::{
    CONTAINS_FILTER, DELETED_FILTER, DUAL_ENVIRONMENT_HEADER, ENVIRONMENT_FILTER, LIMIT_FILTER,
    OWNERSHIP_FILTER, REGEX_FILTER, SKIP_FILTER,
};
use crate::entries::{
    entries_get, entries_remove, entries_upsert, keys_unique, lemma_entries_at, lemma_get_remove,
    lemma_get_upsert, lemma_remove_unique, lemma_upsert_keeps_unique, lemma_upsert_unique,
};
use crate::event_access::EventAccess;
use crate::headers::{header_first_values, header_get, is_lower_header_name};
use crate::string_map::StringMap;
use crate::text::{parse_u64, spec_parse_u64, split_on, str_eq, string_to_vec, strings_view, lemma_split_on_nonempty};

verus! {

/// A value in a filter document.
pub enum FilterValue {
    Bool(bool),
    Str(String),
    /// `{ "$in": [..] }`: any of the strings.
    In(Vec<String>),
    /// `{ "$regex": pattern, "$options": options }`.
    Regex { pattern: String, options: String },
}

/// What a filter value holds.
pub enum FilterValueView {
    Bool(bool),
    Str(Seq<char>),
    In(Seq<Seq<char>>),
    Regex(Seq<char>, Seq<char>),
}

impl View for FilterValue {
    type V = FilterValueView;

    open spec fn view(&self) -> FilterValueView {
        match self {
            FilterValue::Bool(b) => FilterValueView::Bool(*b),
            FilterValue::Str(s) => FilterValueView::Str(s@),
            FilterValue::In(v) => FilterValueView::In(strings_view(v@)),
            FilterValue::Regex { pattern, options } => FilterValueView::Regex(pattern@, options@),
        }
    }
}

pub open spec fn value_view(v: Option<FilterValue>) -> Option<FilterValueView> {
    match v {
        Some(x) => Some(x@),
        None => None,
    }
}

/// The string held under a key, when it is a string.
pub open spec fn str_value(v: Option<FilterValueView>) -> Option<Seq<char>> {
    match v {
        Some(FilterValueView::Str(s)) => Some(s),
        _ => None,
    }
}

/// The boolean held under a key, when it is a boolean.
pub open spec fn bool_value(v: Option<FilterValueView>) -> Option<bool> {
    match v {
        Some(FilterValueView::Bool(b)) => Some(b),
        _ => None,
    }
}

pub open spec fn doc_view(v: Seq<(String, FilterValue)>) -> Seq<(Seq<char>, FilterValueView)> {
    v.map_values(|e: (String, FilterValue)| (e.0@, e.1@))
}

pub fn clone_strings(v: &Vec<String>) -> (r: Vec<String>)
    ensures
        r@ == v@,
{
    let mut r: Vec<String> = Vec::new();
    let mut i: usize = 0;
    while i < v.len()
        invariant
            i <= v.len(),
            r@ == v@.take(i as int),
        decreases v.len() - i,
    {
        r.push(v[i].clone());
        assert(r@ =~= v@.take(i + 1));
        i = i + 1;
    }
    assert(v@.take(v.len() as int) =~= v@);
    r
}

impl FilterValue {
    pub fn duplicate(&self) -> (r: FilterValue)
        ensures
            r@ == self@,
    {
        match self {
            FilterValue::Bool(b) => FilterValue::Bool(*b),
            FilterValue::Str(s) => FilterValue::Str(s.clone()),
            FilterValue::In(v) => FilterValue::In(clone_strings(v)),
            FilterValue::Regex { pattern, options } => FilterValue::Regex {
                pattern: pattern.clone(),
                options: options.clone(),
            },
        }
    }
}

/// A filter document: each key once, in the order in which keys were first
/// inserted, as a BSON document keeps them.
pub struct Document {
    entries: Vec<(String, FilterValue)>,
}

impl View for Document {
    type V = Seq<(Seq<char>, FilterValueView)>;

    closed spec fn view(&self) -> Seq<(Seq<char>, FilterValueView)> {
        doc_view(self.entries@)
    }
}

impl Document {
    #[verifier::type_invariant]
    closed spec fn inv(&self) -> bool {
        keys_unique(self@)
    }

    /// An empty document.
    pub fn new() -> (r: Document)
        ensures
            r@ == Seq::<(Seq<char>, FilterValueView)>::empty(),
    {
        let r = Document { entries: Vec::new() };
        assert(r@ =~= Seq::<(Seq<char>, FilterValueView)>::empty());
        r
    }

    pub fn len(&self) -> (r: usize)
        ensures
            r == self@.len(),
    {
        self.entries.len()
    }

    /// The entry at position `i`.
    pub fn entry(&self, i: usize) -> (r: &(String, FilterValue))
        requires
            i < self@.len(),
        ensures
            (r.0@, r.1@) == self@[i as int],
    {
        &self.entries[i]
    }

    fn find(&self, key: &str) -> (p: usize)
        ensures
            p <= self@.len(),
            forall|i: int| 0 <= i < p ==> #[trigger] self@[i].0 != key@,
            p < self@.len() ==> self@[p as int].0 == key@,
    {
        let n = self.entries.len();
        let mut p: usize = 0;
        while p < n && !str_eq(self.entries[p].0.as_str(), key)
            invariant
                n == self@.len(),
                p <= n,
                forall|i: int| 0 <= i < p ==> #[trigger] self@[i].0 != key@,
            decreases n - p,
        {
            p = p + 1;
        }
        p
    }

    /// Sets `key` to `value`, as `Document::insert` does: an existing key keeps
    /// its place, a new one goes to the end. Gives back the value replaced.
    pub fn insert(&mut self, key: String, value: FilterValue) -> (r: Option<FilterValue>)
        ensures
            final(self)@ == entries_upsert(old(self)@, key@, value@),
            value_view(r) == entries_get(old(self)@, key@),
    {
        proof {
            use_type_invariant(&*self);
        }
        let p = self.find(key.as_str());
        let ghost s = self@;
        let ghost k = key@;
        let ghost v = value@;
        proof {
            lemma_entries_at(s, k, v, p as int);
            lemma_upsert_unique(s, k, v, p as int);
        }
        let mut entries: Vec<(String, FilterValue)> = Vec::new();
        std::mem::swap(&mut entries, &mut self.entries);
        if p < entries.len() {
            let old = entries[p].1.duplicate();
            entries.set(p, (key, value));
            assert(doc_view(entries@) =~= s.update(p as int, (k, v)));
            self.entries = entries;
            Some(old)
        } else {
            entries.push((key, value));
            assert(doc_view(entries@) =~= s.push((k, v)));
            self.entries = entries;
            None
        }
    }

    /// Takes `key` out, keeping the order of the other keys, as
    /// `Document::remove` does. Gives back the value removed.
    pub fn remove(&mut self, key: &str) -> (r: Option<FilterValue>)
        ensures
            final(self)@ == entries_remove(old(self)@, key@),
            value_view(r) == entries_get(old(self)@, key@),
    {
        proof {
            use_type_invariant(&*self);
        }
        let p = self.find(key);
        let ghost s = self@;
        proof {
            lemma_entries_at(s, key@, arbitrary::<FilterValueView>(), p as int);
            lemma_remove_unique(s, key@, p as int);
        }
        if p < self.entries.len() {
            let mut entries: Vec<(String, FilterValue)> = Vec::new();
            std::mem::swap(&mut entries, &mut self.entries);
            let e = entries.remove(p);
            assert(doc_view(entries@) =~= s.remove(p as int));
            self.entries = entries;
            Some(e.1)
        } else {
            None
        }
    }

    /// The value under `key`.
    pub fn get(&self, key: &str) -> (r: Option<&FilterValue>)
        ensures
            match r {
                Some(v) => entries_get(self@, key@) == Some(v@),
                None => entries_get(self@, key@) is None,
            },
    {
        let p = self.find(key);
        proof {
            lemma_entries_at(self@, key@, arbitrary::<FilterValueView>(), p as int);
        }
        if p < self.entries.len() {
            Some(&self.entries[p].1)
        } else {
            None
        }
    }

    /// Whether some value is held under `key`.
    pub fn contains_key(&self, key: &str) -> (r: bool)
        ensures
            r == (entries_get(self@, key@) is Some),
    {
        self.get(key).is_some()
    }

    /// The string under `key`, when there is a string there.
    pub fn get_str(&self, key: &str) -> (r: Option<String>)
        ensures
            crate::common::opt_view(r) == str_value(entries_get(self@, key@)),
    {
        match self.get(key) {
            Some(FilterValue::Str(s)) => Some(s.clone()),
            _ => None,
        }
    }

    /// The boolean under `key`, when there is a boolean there.
    pub fn get_bool(&self, key: &str) -> (r: Option<bool>)
        ensures
            r == bool_value(entries_get(self@, key@)),
    {
        match self.get(key) {
            Some(FilterValue::Bool(b)) => Some(*b),
            _ => None,
        }
    }

    pub fn duplicate(&self) -> (r: Document)
        ensures
            r@ == self@,
    {
        proof {
            use_type_invariant(self);
        }
        let mut out: Vec<(String, FilterValue)> = Vec::new();
        let mut i: usize = 0;
        while i < self.entries.len()
            invariant
                i <= self.entries.len(),
                doc_view(out@) == doc_view(self.entries@.take(i as int)),
            decreases self.entries.len() - i,
        {
            let e = &self.entries[i];
            let ghost old_out = out@;
            out.push((e.0.clone(), e.1.duplicate()));
            assert(doc_view(out@) =~= doc_view(old_out).push((e.0@, e.1@)));
            assert(self.entries@.take(i + 1) =~= self.entries@.take(i as int).push(
                self.entries@[i as int],
            ));
            assert(doc_view(self.entries@.take(i + 1)) =~= doc_view(
                self.entries@.take(i as int),
            ).push((e.0@, e.1@)));
            i = i + 1;
        }
        assert(self.entries@.take(self.entries.len() as int) =~= self.entries@);
        Document { entries: out }
    }
}

/// A store query: a filter with the window of results to return.
pub struct MongoQuery {
    pub filter: Document,
    pub skip: u64,
    pub limit: u64,
}

/// The number that a parameter gives, or `d` when it does not parse.
pub open spec fn parse_or(s: Seq<char>, d: u64) -> u64 {
    match spec_parse_u64(s) {
        Some(n) => n,
        None => d,
    }
}

/// The filter, skip and limit that the query parameters build.
pub type QueryShape = (Seq<(Seq<char>, FilterValueView)>, u64, u64);

/// The effect of one query parameter.
pub open spec fn apply_param(st: QueryShape, k: Seq<char>, v: Seq<char>) -> QueryShape {
    let f = st.0;
    if k == LIMIT_FILTER@ {
        (f, st.1, parse_or(v, 20))
    } else if k == CONTAINS_FILTER@ {
        let p = split_on(v, ',');
        (entries_upsert(f, p[0], FilterValueView::In(p.drop_first())), st.1, st.2)
    } else if k == SKIP_FILTER@ {
        (f, parse_or(v, 0), st.2)
    } else if k == REGEX_FILTER@ {
        let p = split_on(v, ',');
        if p.len() >= 2 {
            (entries_upsert(f, p[0], FilterValueView::Regex(p[1], "i"@)), st.1, st.2)
        } else {
            st
        }
    } else if v == "true"@ {
        (entries_upsert(f, k, FilterValueView::Bool(true)), st.1, st.2)
    } else if v == "false"@ {
        (entries_upsert(f, k, FilterValueView::Bool(false)), st.1, st.2)
    } else {
        (entries_upsert(f, k, FilterValueView::Str(v)), st.1, st.2)
    }
}

/// The parameters applied in order, from an empty filter, no skip and a limit of 20.
pub open spec fn apply_params(params: Seq<(Seq<char>, Seq<char>)>) -> QueryShape
    decreases params.len(),
{
    if params.len() == 0 {
        (Seq::empty(), 0, 20)
    } else {
        apply_param(apply_params(params.drop_last()), params.last().0, params.last().1)
    }
}

/// The bytes of `true`.
pub open spec fn true_bytes() -> Seq<u8> {
    seq![116u8, 114u8, 117u8, 101u8]
}

/// Whether the headers ask for the records of every environment.
pub open spec fn requests_all_environments(h: HeaderMap) -> bool {
    let m = header_first_values(h);
    m.contains_key(DUAL_ENVIRONMENT_HEADER@) && m[DUAL_ENVIRONMENT_HEADER@] == true_bytes()
}

/// The owner and environment that an access limits records to.
pub open spec fn access_scope(a: EventAccess) -> (Seq<char>, Seq<char>) {
    (a.ownership.id@, env_name(a.environment))
}

/// The whole query: the parameters, then `deleted: false`, then, for an access,
/// its owner and environment, the environment left out when the headers ask
/// for all environments.
pub open spec fn shaped_query(
    params: Seq<(Seq<char>, Seq<char>)>,
    scope: Option<(Seq<char>, Seq<char>)>,
    all_environments: bool,
) -> QueryShape {
    let st = apply_params(params);
    let f1 = entries_upsert(st.0, DELETED_FILTER@, FilterValueView::Bool(false));
    match scope {
        None => (f1, st.1, st.2),
        Some(sc) => {
            let f2 = entries_upsert(
                entries_upsert(f1, OWNERSHIP_FILTER@, FilterValueView::Str(sc.0)),
                ENVIRONMENT_FILTER@,
                FilterValueView::Str(sc.1),
            );
            (if all_environments { entries_remove(f2, ENVIRONMENT_FILTER@) } else { f2 }, st.1, st.2)
        },
    }
}

fn is_true_bytes(v: &Vec<u8>) -> (r: bool)
    ensures
        r == (v@ == true_bytes()),
{
    let r = v.len() == 4 && v[0] == 116u8 && v[1] == 114u8 && v[2] == 117u8 && v[3] == 101u8;
    if r {
        assert(v@ =~= true_bytes());
    }
    r
}

fn parse_u64_or(s: &str, d: u64) -> (r: u64)
    ensures
        r == parse_or(s@, d),
{
    match parse_u64(s) {
        Some(n) => n,
        None => d,
    }
}

fn tail_strings(v: &Vec<String>) -> (r: Vec<String>)
    requires
        v@.len() >= 1,
    ensures
        strings_view(r@) == strings_view(v@).drop_first(),
{
    let mut r: Vec<String> = Vec::new();
    let mut i: usize = 1;
    while i < v.len()
        invariant
            1 <= i <= v.len(),
            strings_view(r@) == strings_view(v@).subrange(1, i as int),
        decreases v.len() - i,
    {
        let ghost old_r = r@;
        r.push(v[i].clone());
        assert(strings_view(r@) =~= strings_view(old_r).push(v@[i as int]@));
        assert(strings_view(r@) =~= strings_view(v@).subrange(1, i + 1));
        i = i + 1;
    }
    assert(strings_view(v@).subrange(1, v.len() as int) =~= strings_view(v@).drop_first());
    r
}

/// Applies one query parameter to the filter being built.
fn apply_query_param(
    filter: &mut Document,
    skip: &mut u64,
    limit: &mut u64,
    key: &String,
    value: &String,
)
    ensures
        (final(filter)@, *final(skip), *final(limit)) == apply_param(
            (old(filter)@, *old(skip), *old(limit)),
            key@,
            value@,
        ),
{
    if str_eq(key.as_str(), LIMIT_FILTER) {
        *limit = parse_u64_or(value.as_str(), 20);
    } else if str_eq(key.as_str(), CONTAINS_FILTER) {
        let values = string_to_vec(value.as_str());
        proof {
            lemma_split_on_nonempty(value@, ',');
        }
        let rest = tail_strings(&values);
        let target = values[0].clone();
        filter.insert(target, FilterValue::In(rest));
    } else if str_eq(key.as_str(), SKIP_FILTER) {
        *skip = parse_u64_or(value.as_str(), 0);
    } else if str_eq(key.as_str(), REGEX_FILTER) {
        let values = string_to_vec(value.as_str());
        if values.len() >= 2 {
            let target = values[0].clone();
            let element = values[1].clone();
            filter.insert(
                target,
                FilterValue::Regex { pattern: element, options: String::from_str("i") },
            );
        }
    } else if str_eq(value.as_str(), "true") {
        filter.insert(key.clone(), FilterValue::Bool(true));
    } else if str_eq(value.as_str(), "false") {
        filter.insert(key.clone(), FilterValue::Bool(false));
    } else {
        filter.insert(key.clone(), FilterValue::Str(value.clone()));
    }
}

/// Whether the headers ask for the records of every environment: the value
/// of the dual environment header is `true`.
fn asks_all_environments(headers: &Option<HeaderMap>) -> (r: bool)
    ensures
        r == (*headers matches Some(h) && requests_all_environments(h)),
{
    match headers {
        Some(h) => {
            proof {
                reveal_strlit("x-pica-show-all-environments");
            }
            assert(is_lower_header_name(DUAL_ENVIRONMENT_HEADER@));
            match header_get(h, DUAL_ENVIRONMENT_HEADER) {
                Some(v) => is_true_bytes(&v),
                None => false,
            }
        },
        None => false,
    }
}

/// Builds the store query for a listing request from its query parameters,
/// the access it was made with and its headers.
pub fn shape_mongo_filter(
    query: Option<StringMap>,
    event_access: Option<Arc<EventAccess>>,
    headers: Option<HeaderMap>,
) -> (r: MongoQuery)
    ensures
        (r.filter@, r.skip, r.limit) == shaped_query(
            match query {
                Some(q) => q@,
                None => Seq::empty(),
            },
            match event_access {
                Some(a) => Some(access_scope(*a)),
                None => None,
            },
            headers matches Some(h) && requests_all_environments(h),
        ),
{
    let all_environments = asks_all_environments(&headers);
    shape_query(query, event_access, all_environments)
}

/// Builds the store query for a listing request from its query parameters
/// and the access it was made with; `all_environments` says whether the
/// request asked for the records of every environment.
pub fn shape_query(
    query: Option<StringMap>,
    event_access: Option<Arc<EventAccess>>,
    all_environments: bool,
) -> (r: MongoQuery)
    ensures
        (r.filter@, r.skip, r.limit) == shaped_query(
            match query {
                Some(q) => q@,
                None => Seq::empty(),
            },
            match event_access {
                Some(a) => Some(access_scope(*a)),
                None => None,
            },
            all_environments,
        ),
{
    let mut filter = Document::new();
    let mut skip: u64 = 0;
    let mut limit: u64 = 20;
    if let Some(q) = &query {
        let n = q.len();
        let mut i: usize = 0;
        assert(q@.take(0) =~= Seq::<(Seq<char>, Seq<char>)>::empty());
        while i < n
            invariant
                n == q@.len(),
                i <= n,
                (filter@, skip, limit) == apply_params(q@.take(i as int)),
            decreases n - i,
        {
            let e = q.entry(i);
            apply_query_param(&mut filter, &mut skip, &mut limit, &e.0, &e.1);
            assert(q@.take(i + 1).drop_last() =~= q@.take(i as int));
            i = i + 1;
        }
        assert(q@.take(n as int) =~= q@);
    }
    filter.insert(String::from_str(DELETED_FILTER), FilterValue::Bool(false));
    match &event_access {
        Some(access) => {
            filter.insert(
                String::from_str(OWNERSHIP_FILTER),
                FilterValue::Str(access.ownership.id.clone()),
            );
            filter.insert(
                String::from_str(ENVIRONMENT_FILTER),
                FilterValue::Str(String::from_str(access.environment.as_str())),
            );
            if all_environments {
                filter.remove(ENVIRONMENT_FILTER);
            }
        },
        None => {},
    }
    MongoQuery { filter, limit, skip }
}

} // verus!

verus! {

proof fn lemma_apply_params_unique(params: Seq<(Seq<char>, Seq<char>)>)
    ensures
        keys_unique(apply_params(params).0),
    decreases params.len(),
{
    if params.len() > 0 {
        let prev = apply_params(params.drop_last());
        lemma_apply_params_unique(params.drop_last());
        let k = params.last().0;
        let v = params.last().1;
        let p = split_on(v, ',');
        if k == CONTAINS_FILTER@ {
            lemma_upsert_keeps_unique(prev.0, p[0], FilterValueView::In(p.drop_first()));
        } else if k == REGEX_FILTER@ && p.len() >= 2 {
            lemma_upsert_keeps_unique(prev.0, p[0], FilterValueView::Regex(p[1], "i"@));
        }
        lemma_upsert_keeps_unique(prev.0, k, FilterValueView::Bool(true));
        lemma_upsert_keeps_unique(prev.0, k, FilterValueView::Bool(false));
        lemma_upsert_keeps_unique(prev.0, k, FilterValueView::Str(v));
    }
}

proof fn lemma_filter_keys_distinct()
    ensures
        DELETED_FILTER@ != OWNERSHIP_FILTER@,
        DELETED_FILTER@ != ENVIRONMENT_FILTER@,
        OWNERSHIP_FILTER@ != ENVIRONMENT_FILTER@,
{
    reveal_strlit("deleted");
    reveal_strlit("ownership.buildableId");
    reveal_strlit("environment");
    assert(DELETED_FILTER@.len() == 7);
    assert(OWNERSHIP_FILTER@.len() == 21);
    assert(ENVIRONMENT_FILTER@.len() == 11);
}

/// A listing never returns deleted records: whatever the query parameters
/// (a `deleted` parameter among them), the access and the headers, the filter
/// holds `deleted: false`.
pub proof fn law_listing_excludes_deleted(
    params: Seq<(Seq<char>, Seq<char>)>,
    scope: Option<(Seq<char>, Seq<char>)>,
    all_environments: bool,
)
    ensures
        entries_get(shaped_query(params, scope, all_environments).0, DELETED_FILTER@) == Some(
            FilterValueView::Bool(false),
        ),
{
    let st = apply_params(params);
    let f1 = entries_upsert(st.0, DELETED_FILTER@, FilterValueView::Bool(false));
    lemma_filter_keys_distinct();
    lemma_get_upsert(st.0, DELETED_FILTER@, FilterValueView::Bool(false), DELETED_FILTER@);
    if let Some(sc) = scope {
        let fa = entries_upsert(f1, OWNERSHIP_FILTER@, FilterValueView::Str(sc.0));
        let f2 = entries_upsert(fa, ENVIRONMENT_FILTER@, FilterValueView::Str(sc.1));
        lemma_get_upsert(f1, OWNERSHIP_FILTER@, FilterValueView::Str(sc.0), DELETED_FILTER@);
        lemma_get_upsert(fa, ENVIRONMENT_FILTER@, FilterValueView::Str(sc.1), DELETED_FILTER@);
        lemma_apply_params_unique(params);
        lemma_upsert_keeps_unique(st.0, DELETED_FILTER@, FilterValueView::Bool(false));
        lemma_upsert_keeps_unique(f1, OWNERSHIP_FILTER@, FilterValueView::Str(sc.0));
        lemma_upsert_keeps_unique(fa, ENVIRONMENT_FILTER@, FilterValueView::Str(sc.1));
        lemma_get_remove(f2, ENVIRONMENT_FILTER@, DELETED_FILTER@);
    }
}

/// A listing made with an access is limited to the access's owner, whatever
/// the query parameters say of the owner; it is limited to the access's
/// environment too, unless the headers ask for all environments, in which
/// case no environment is filtered on.
pub proof fn law_access_scopes_listing(
    params: Seq<(Seq<char>, Seq<char>)>,
    owner: Seq<char>,
    environment: Seq<char>,
    all_environments: bool,
)
    ensures
        entries_get(
            shaped_query(params, Some((owner, environment)), all_environments).0,
            OWNERSHIP_FILTER@,
        ) == Some(FilterValueView::Str(owner)),
        all_environments ==> entries_get(
            shaped_query(params, Some((owner, environment)), all_environments).0,
            ENVIRONMENT_FILTER@,
        ) is None,
        !all_environments ==> entries_get(
            shaped_query(params, Some((owner, environment)), all_environments).0,
            ENVIRONMENT_FILTER@,
        ) == Some(FilterValueView::Str(environment)),
{
    let st = apply_params(params);
    let f1 = entries_upsert(st.0, DELETED_FILTER@, FilterValueView::Bool(false));
    let fa = entries_upsert(f1, OWNERSHIP_FILTER@, FilterValueView::Str(owner));
    let f2 = entries_upsert(fa, ENVIRONMENT_FILTER@, FilterValueView::Str(environment));
    lemma_filter_keys_distinct();
    lemma_get_upsert(f1, OWNERSHIP_FILTER@, FilterValueView::Str(owner), OWNERSHIP_FILTER@);
    lemma_get_upsert(fa, ENVIRONMENT_FILTER@, FilterValueView::Str(environment), OWNERSHIP_FILTER@);
    lemma_get_upsert(
        fa,
        ENVIRONMENT_FILTER@,
        FilterValueView::Str(environment),
        ENVIRONMENT_FILTER@,
    );
    lemma_apply_params_unique(params);
    lemma_upsert_keeps_unique(st.0, DELETED_FILTER@, FilterValueView::Bool(false));
    lemma_upsert_keeps_unique(f1, OWNERSHIP_FILTER@, FilterValueView::Str(owner));
    lemma_upsert_keeps_unique(fa, ENVIRONMENT_FILTER@, FilterValueView::Str(environment));
    lemma_get_remove(f2, ENVIRONMENT_FILTER@, OWNERSHIP_FILTER@);
    lemma_get_remove(f2, ENVIRONMENT_FILTER@, ENVIRONMENT_FILTER@);
}

/// Without a `limit` parameter a listing returns at most 20 records, and
/// without a `skip` parameter it starts at the first one.
pub proof fn law_default_window(params: Seq<(Seq<char>, Seq<char>)>)
    ensures
        (forall|i: int| 0 <= i < params.len() ==> #[trigger] params[i].0 != LIMIT_FILTER@)
            ==> apply_params(params).2 == 20,
        (forall|i: int| 0 <= i < params.len() ==> #[trigger] params[i].0 != SKIP_FILTER@)
            ==> apply_params(params).1 == 0,
    decreases params.len(),
{
    if params.len() > 0 {
        let t = params.drop_last();
        law_default_window(t);
        assert(forall|i: int| 0 <= i < t.len() ==> #[trigger] t[i] == params[i]);
        assert(params.last() == params[params.len() - 1]);
    }
}

} // verus!

verus! {

/// The value that a plain query parameter filters its key on: the text
/// `true` as the boolean true, the text `false` as the boolean false, and any
/// other text as itself.
pub open spec fn plain_filter_value(v: Seq<char>) -> FilterValueView {
    if v == "true"@ {
        FilterValueView::Bool(true)
    } else if v == "false"@ {
        FilterValueView::Bool(false)
    } else {
        FilterValueView::Str(v)
    }
}

/// Whether `k` is none of the parameters that set the window or build
/// `$in` and `$regex` filters.
pub open spec fn is_plain_parameter(k: Seq<char>) -> bool {
    k != LIMIT_FILTER@ && k != CONTAINS_FILTER@ && k != SKIP_FILTER@ && k != REGEX_FILTER@
}

/// A plain query parameter filters on its key: `?k=true` asks for records
/// whose `k` is the boolean true, `?k=false` for the boolean false, and any
/// other value for that text; the window (skip and limit) is left as it was,
/// and every other key of the filter keeps its value.
pub proof fn law_plain_parameter_filters_its_key(
    st: QueryShape,
    k: Seq<char>,
    v: Seq<char>,
    j: Seq<char>,
)
    requires
        is_plain_parameter(k),
    ensures
        entries_get(apply_param(st, k, v).0, k) == Some(plain_filter_value(v)),
        v == "true"@ ==> entries_get(apply_param(st, k, v).0, k) == Some(FilterValueView::Bool(true)),
        v == "false"@ ==> entries_get(apply_param(st, k, v).0, k) == Some(FilterValueView::Bool(false)),
        j != k ==> entries_get(apply_param(st, k, v).0, j) == entries_get(st.0, j),
        apply_param(st, k, v).1 == st.1,
        apply_param(st, k, v).2 == st.2,
{
    reveal_strlit("true");
    reveal_strlit("false");
    assert("true"@ != "false"@) by {
        assert("true"@.len() != "false"@.len());
    }
    lemma_get_upsert(st.0, k, plain_filter_value(v), j);
    lemma_get_upsert(st.0, k, plain_filter_value(v), k);
}

/// Whatever the request, the last plain query parameter of a listing decides
/// what its key is filtered on (a boolean for `true` and `false`, the text
/// otherwise), unless the key is one that the listing sets itself.
pub proof fn law_listing_filters_last_plain_parameter(
    params: Seq<(Seq<char>, Seq<char>)>,
    scope: Option<(Seq<char>, Seq<char>)>,
    all_environments: bool,
)
    requires
        params.len() > 0,
        is_plain_parameter(params.last().0),
        params.last().0 != DELETED_FILTER@,
        params.last().0 != OWNERSHIP_FILTER@,
        params.last().0 != ENVIRONMENT_FILTER@,
    ensures
        entries_get(shaped_query(params, scope, all_environments).0, params.last().0) == Some(
            plain_filter_value(params.last().1),
        ),
{
    let k = params.last().0;
    let v = params.last().1;
    let st = apply_params(params);
    law_plain_parameter_filters_its_key(apply_params(params.drop_last()), k, v, k);
    let f1 = entries_upsert(st.0, DELETED_FILTER@, FilterValueView::Bool(false));
    lemma_get_upsert(st.0, DELETED_FILTER@, FilterValueView::Bool(false), k);
    if let Some(sc) = scope {
        let fa = entries_upsert(f1, OWNERSHIP_FILTER@, FilterValueView::Str(sc.0));
        let f2 = entries_upsert(fa, ENVIRONMENT_FILTER@, FilterValueView::Str(sc.1));
        lemma_get_upsert(f1, OWNERSHIP_FILTER@, FilterValueView::Str(sc.0), k);
        lemma_get_upsert(fa, ENVIRONMENT_FILTER@, FilterValueView::Str(sc.1), k);
        lemma_apply_params_unique(params);
        lemma_upsert_keeps_unique(st.0, DELETED_FILTER@, FilterValueView::Bool(false));
        lemma_upsert_keeps_unique(f1, OWNERSHIP_FILTER@, FilterValueView::Str(sc.0));
        lemma_upsert_keeps_unique(fa, ENVIRONMENT_FILTER@, FilterValueView::Str(sc.1));
        lemma_get_remove(f2, ENVIRONMENT_FILTER@, k);
    }
}

} // verus!

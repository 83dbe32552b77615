//! Product analytics: the events recorded for what users do, as they are sent
//! to the analytics service.
use vstd::prelude::*;
use crate::entries::entries_get;
use crate::string_map::{sorted_insert, Duplicate, KeyedMap};

verus! {

/// A property value: nothing, a string, or any JSON value as its text.
pub enum JsonValue {
    Null,
    Str(String),
    Raw(String),
}

/// What a property value holds.
pub enum JsonView {
    Null,
    Str(Seq<char>),
    Raw(Seq<char>),
}

impl View for JsonValue {
    type V = JsonView;

    open spec fn view(&self) -> JsonView {
        match self {
            JsonValue::Null => JsonView::Null,
            JsonValue::Str(s) => JsonView::Str(s@),
            JsonValue::Raw(s) => JsonView::Raw(s@),
        }
    }
}

impl Duplicate for JsonValue {
    fn duplicate(&self) -> (r: JsonValue) {
        match self {
            JsonValue::Null => JsonValue::Null,
            JsonValue::Str(s) => JsonValue::Str(s.clone()),
            JsonValue::Raw(s) => JsonValue::Raw(s.clone()),
        }
    }
}

/// An event for the analytics service: its name, whom it is about, and its
/// properties; an event that sets a user's traits carries them under `$set`.
pub struct TrackedEvent {
    pub event: String,
    pub distinct_id: String,
    pub properties: KeyedMap<JsonValue>,
    pub set_properties: Option<KeyedMap<JsonValue>>,
}

/// A logger needs no state: it only writes the events it is given.
pub struct LoggerTracker;

/// The page an analytics event happened on.
pub struct Page {
    pub path: String,
    pub search: String,
    pub title: String,
    pub url: String,
}

/// Where an analytics event happened.
pub struct Context {
    pub locale: String,
    pub page: Page,
    pub user_agent: String,
}

/// The traits that identify a user.
pub struct IdentifyData {
    pub user_id: String,
    pub traits: KeyedMap<JsonValue>,
    pub context: Context,
}

/// An action of a user, with its properties.
pub struct TrackData {
    pub event: String,
    pub user_id: String,
    pub properties: KeyedMap<JsonValue>,
    pub context: Context,
}

/// What the frontend reports.
pub enum TrackType {
    Identify { data: IdentifyData },
    Track { data: TrackData },
}

/// What the frontend reports: a user identified, or an event tracked.
pub struct TrackedMetric {
    pub data: TrackType,
}

/// The page and client properties of a context, set over `p` in this order:
/// locale, user agent, path, search, title, url.
pub open spec fn with_context(p: Seq<(Seq<char>, JsonView)>, c: Context) -> Seq<
    (Seq<char>, JsonView),
> {
    let p1 = sorted_insert(p, "locale"@, JsonView::Str(c.locale@));
    let p2 = sorted_insert(p1, "user_agent"@, JsonView::Str(c.user_agent@));
    with_page(p2, c)
}

pub open spec fn with_page(p: Seq<(Seq<char>, JsonView)>, c: Context) -> Seq<(Seq<char>, JsonView)> {
    let p3 = sorted_insert(p, "path"@, JsonView::Str(c.page.path@));
    let p4 = sorted_insert(p3, "search"@, JsonView::Str(c.page.search@));
    let p5 = sorted_insert(p4, "title"@, JsonView::Str(c.page.title@));
    sorted_insert(p5, "url"@, JsonView::Str(c.page.url@))
}

/// The traits an identify event sets: the user's traits, their `version` (or
/// null), locale, user agent, user id and page.
pub open spec fn identify_traits(d: IdentifyData) -> Seq<(Seq<char>, JsonView)> {
    let version = match entries_get(d.traits@, "version"@) {
        Some(v) => v,
        None => JsonView::Null,
    };
    let t1 = sorted_insert(d.traits@, "version"@, version);
    let t2 = sorted_insert(t1, "locale"@, JsonView::Str(d.context.locale@));
    let t3 = sorted_insert(t2, "user_agent"@, JsonView::Str(d.context.user_agent@));
    let t4 = sorted_insert(t3, "user_id"@, JsonView::Str(d.user_id@));
    with_page(t4, d.context)
}

fn insert_str(m: &mut KeyedMap<JsonValue>, key: &str, value: &String)
    ensures
        final(m)@ == sorted_insert(old(m)@, key@, JsonView::Str(value@)),
{
    m.insert(String::from_str(key), JsonValue::Str(value.clone()));
}

fn insert_page(m: &mut KeyedMap<JsonValue>, c: &Context)
    ensures
        final(m)@ == with_page(old(m)@, *c),
{
    insert_str(m, "path", &c.page.path);
    insert_str(m, "search", &c.page.search);
    insert_str(m, "title", &c.page.title);
    insert_str(m, "url", &c.page.url);
}

impl TrackedMetric {
    /// The name of the event: `identify` for an identification.
    pub fn event(&self) -> (r: &str)
        ensures
            r@ == match self.data {
                TrackType::Track { data } => data.event@,
                TrackType::Identify { .. } => "identify"@,
            },
    {
        match &self.data {
            TrackType::Track { data } => data.event.as_str(),
            TrackType::Identify { .. } => "identify",
        }
    }

    /// The user the metric is about.
    pub fn user_id(&self) -> (r: &str)
        ensures
            r@ == match self.data {
                TrackType::Track { data } => data.user_id@,
                TrackType::Identify { data } => data.user_id@,
            },
    {
        match &self.data {
            TrackType::Track { data } => data.user_id.as_str(),
            TrackType::Identify { data } => data.user_id.as_str(),
        }
    }

    /// The event sent to the analytics service. A tracked event keeps its name,
    /// user and properties, with the context's properties set over them; an
    /// identification becomes a `$set` event for the user with the traits of
    /// `identify_traits`.
    pub fn track(&self) -> (r: TrackedEvent)
        ensures
            match self.data {
                TrackType::Track { data } => {
                    &&& r.event@ == data.event@
                    &&& r.distinct_id@ == data.user_id@
                    &&& r.properties@ == with_context(data.properties@, data.context)
                    &&& r.set_properties is None
                },
                TrackType::Identify { data } => {
                    &&& r.event@ == "$set"@
                    &&& r.distinct_id@ == data.user_id@
                    &&& r.properties@.len() == 0
                    &&& r.set_properties matches Some(s) && s@ == identify_traits(data)
                },
            },
    {
        match &self.data {
            TrackType::Track { data } => {
                let mut props = data.properties.duplicate();
                insert_str(&mut props, "locale", &data.context.locale);
                insert_str(&mut props, "user_agent", &data.context.user_agent);
                insert_page(&mut props, &data.context);
                TrackedEvent {
                    event: data.event.clone(),
                    distinct_id: data.user_id.clone(),
                    properties: props,
                    set_properties: None,
                }
            },
            TrackType::Identify { data } => {
                let mut traits = data.traits.duplicate();
                let version = match data.traits.get("version") {
                    Some(v) => v.duplicate(),
                    None => JsonValue::Null,
                };
                traits.insert(String::from_str("version"), version);
                insert_str(&mut traits, "locale", &data.context.locale);
                insert_str(&mut traits, "user_agent", &data.context.user_agent);
                insert_str(&mut traits, "user_id", &data.user_id);
                insert_page(&mut traits, &data.context);
                let empty: KeyedMap<JsonValue> = KeyedMap::new();
                TrackedEvent {
                    event: String::from_str("$set"),
                    distinct_id: data.user_id.clone(),
                    properties: empty,
                    set_properties: Some(traits),
                }
            },
        }
    }
}

} // verus!

//! Usage metrics: what is counted for each API call, and the event that
//! reports it.
use vstd::prelude::*;
use std::sync::Arc;
use chrono::Datelike;
use crate::common::{env_name, Environment, Ownership};
use crate::connection::Connection;
use crate::constants::{CREATED_AT_KEY, DAILY_KEY, MONTHLY_KEY, PLATFORMS_KEY, TOTAL_KEY};
use crate::event_access::EventAccess;
use crate::string_map::{sorted_insert, KeyedMap};
use crate::text::{
    decimal_pad2, decimal_string_pad2, signed_decimal, signed_decimal_string,
};
use crate::tracking::{JsonValue, JsonView, TrackedEvent};

verus! {

/// A calendar date in UTC, with the instant it was taken from.
pub struct CivilDate {
    pub year: i32,
    pub month: u32,
    pub day: u32,
    pub timestamp_millis: i64,
}

/// The proleptic Gregorian date (year, month, day) of the day `z`, counted
/// from January 1, 1970.
pub open spec fn civil_from_days(z: int) -> (int, int, int) {
    let z2 = z + 719468;
    let era = z2 / 146097;
    let doe = z2 - era * 146097;
    let yoe = (doe - doe / 1460 + doe / 36524 - doe / 146096) / 365;
    let doy = doe - (365 * yoe + yoe / 4 - yoe / 100);
    let mp = (5 * doy + 2) / 153;
    let d = doy - (153 * mp + 2) / 5 + 1;
    let m = if mp < 10 {
        mp + 3
    } else {
        mp - 9
    };
    (yoe + era * 400 + if m <= 2 {
        1int
    } else {
        0int
    }, m, d)
}

/// Whether a date's year, month and day are the UTC date of its instant.
pub open spec fn is_date_of_instant(d: CivilDate) -> bool {
    (d.year as int, d.month as int, d.day as int) == civil_from_days(
        d.timestamp_millis / 86_400_000,
    )
}

/// Calls `Utc::now` and reads the year, month, day and milliseconds since the
/// epoch of that instant. The contract claims that the year, month and day
/// are the UTC date of those milliseconds, and the documented ranges of month
/// (1 to 12) and day (1 to 31); the instant depends on the clock.
#[verifier::external_body]
fn utc_now() -> (r: CivilDate)
    ensures
        is_date_of_instant(r),
        1 <= r.month <= 12,
        1 <= r.day <= 31,
{
    let now = chrono::Utc::now();
    CivilDate {
        year: now.year(),
        month: now.month(),
        day: now.day(),
        timestamp_millis: now.timestamp_millis(),
    }
}

/// The unified action that was called: its common model and operation.
pub struct Action {
    pub name: String,
    pub action: String,
}

/// What was called: a passthrough or unified call on a connection, or a
/// request refused by the rate limiter (with the key header it carried).
pub enum MetricType {
    Passthrough(Arc<Connection>),
    Unified(Arc<Connection>),
    RateLimited(Arc<EventAccess>, Option<Vec<u8>>),
}

/// The name that metric documents are keyed by.
pub open spec fn metric_type_name(t: MetricType) -> Seq<char> {
    match t {
        MetricType::Passthrough(_) => "passthrough"@,
        MetricType::Unified(_) => "unified"@,
        MetricType::RateLimited(_, _) => "ratelimited"@,
    }
}

/// The name of the analytics event of a metric.
pub open spec fn event_name_of(t: MetricType) -> Seq<char> {
    match t {
        MetricType::Passthrough(_) => "Called Passthrough API"@,
        MetricType::Unified(_) => "Called Unified API"@,
        MetricType::RateLimited(_, _) => "Reached Rate Limit"@,
    }
}

impl MetricType {
    pub fn event_name(&self) -> (r: &'static str)
        ensures
            r@ == event_name_of(*self),
    {
        match self {
            MetricType::Passthrough(_) => "Called Passthrough API",
            MetricType::Unified(_) => "Called Unified API",
            MetricType::RateLimited(_, _) => "Reached Rate Limit",
        }
    }

    /// The name as `Display` writes it.
    pub fn as_str(&self) -> (r: &'static str)
        ensures
            r@ == metric_type_name(*self),
    {
        match self {
            MetricType::Passthrough(_) => "passthrough",
            MetricType::Unified(_) => "unified",
            MetricType::RateLimited(_, _) => "ratelimited",
        }
    }
}

/// One counted call.
pub struct Metric {
    pub metric_type: MetricType,
    pub date: CivilDate,
    pub action: Option<Action>,
}

/// The owner a metric is counted for.
pub open spec fn metric_owner(t: MetricType) -> Ownership {
    match t {
        MetricType::Passthrough(c) => c.ownership,
        MetricType::Unified(c) => c.ownership,
        MetricType::RateLimited(e, _) => e.ownership,
    }
}

/// The platform a metric is counted for.
pub open spec fn metric_platform(t: MetricType) -> Seq<char> {
    match t {
        MetricType::Passthrough(c) => c.platform@,
        MetricType::Unified(c) => c.platform@,
        MetricType::RateLimited(e, _) => e.platform@,
    }
}

/// The day key of a date: `year-MM-DD`.
pub open spec fn daily_key(d: CivilDate) -> Seq<char> {
    signed_decimal(d.year as int) + "-"@ + decimal_pad2(d.month as nat) + "-"@ + decimal_pad2(
        d.day as nat,
    )
}

/// The month key of a date: `year-MM`.
pub open spec fn monthly_key(d: CivilDate) -> Seq<char> {
    signed_decimal(d.year as int) + "-"@ + decimal_pad2(d.month as nat)
}

/// The counters a metric increments, in this order: the type's total, the
/// platform's total, the day, the platform's day, the month, the platform's
/// month.
pub open spec fn metric_counters(t: Seq<char>, platform: Seq<char>, d: CivilDate) -> Seq<Seq<char>> {
    let p = t + "."@ + PLATFORMS_KEY@ + "."@ + platform + "."@;
    seq![
        t + "."@ + TOTAL_KEY@,
        p + TOTAL_KEY@,
        t + "."@ + DAILY_KEY@ + "."@ + daily_key(d),
        p + DAILY_KEY@ + "."@ + daily_key(d),
        t + "."@ + MONTHLY_KEY@ + "."@ + monthly_key(d),
        p + MONTHLY_KEY@ + "."@ + monthly_key(d),
    ]
}

/// The store update of a metric: each counter goes up by one, and a new
/// document records when it was created.
pub struct MetricUpdate {
    pub increments: Vec<String>,
    pub created_at: i64,
}

impl Metric {
    pub fn is_passthrough(&self) -> (r: bool)
        ensures
            r == (self.metric_type is Passthrough),
    {
        match self.metric_type {
            MetricType::Passthrough(_) => true,
            _ => false,
        }
    }

    /// A passthrough call on `connection`, now.
    pub fn passthrough(connection: Arc<Connection>) -> (r: Metric)
        ensures
            r.metric_type == MetricType::Passthrough(connection),
            r.action is None,
            1 <= r.date.month <= 12 && 1 <= r.date.day <= 31,
            is_date_of_instant(r.date),
    {
        Metric { metric_type: MetricType::Passthrough(connection), date: utc_now(), action: None }
    }

    /// A unified call of `action` on `connection`, now.
    pub fn unified(connection: Arc<Connection>, action: Action) -> (r: Metric)
        ensures
            r.metric_type == MetricType::Unified(connection),
            r.action == Some(action),
            1 <= r.date.month <= 12 && 1 <= r.date.day <= 31,
            is_date_of_instant(r.date),
    {
        Metric {
            metric_type: MetricType::Unified(connection),
            date: utc_now(),
            action: Some(action),
        }
    }

    /// A request of `event_access` refused by the rate limiter, now.
    pub fn rate_limited(event_access: Arc<EventAccess>, key: Option<Vec<u8>>) -> (r: Metric)
        ensures
            r.metric_type == MetricType::RateLimited(event_access, key),
            r.action is None,
            1 <= r.date.month <= 12 && 1 <= r.date.day <= 31,
            is_date_of_instant(r.date),
    {
        Metric {
            metric_type: MetricType::RateLimited(event_access, key),
            date: utc_now(),
            action: None,
        }
    }

    pub fn ownership(&self) -> (r: &Ownership)
        ensures
            *r == metric_owner(self.metric_type),
    {
        match &self.metric_type {
            MetricType::Passthrough(c) => &c.ownership,
            MetricType::Unified(c) => &c.ownership,
            MetricType::RateLimited(e, _) => &e.ownership,
        }
    }

    pub fn platform(&self) -> (r: &str)
        ensures
            r@ == metric_platform(self.metric_type),
    {
        match &self.metric_type {
            MetricType::Passthrough(c) => c.platform.as_str(),
            MetricType::Unified(c) => c.platform.as_str(),
            MetricType::RateLimited(e, _) => e.platform.as_str(),
        }
    }

    /// The store update that counts the metric.
    pub fn update_doc(&self) -> (r: MetricUpdate)
        ensures
            r.increments@.map_values(|s: String| s@) == metric_counters(
                metric_type_name(self.metric_type),
                metric_platform(self.metric_type),
                self.date,
            ),
            r.created_at == self.date.timestamp_millis,
    {
        let platform = self.platform();
        let t = self.metric_type.as_str();
        let year = signed_decimal_string(self.date.year);
        let month = decimal_string_pad2(self.date.month as u64);
        let day = decimal_string_pad2(self.date.day as u64);
        let daily = year.clone().concat("-").concat(month.as_str()).concat("-").concat(
            day.as_str(),
        );
        let monthly = year.concat("-").concat(month.as_str());
        let per_platform = String::from_str(t).concat(".").concat(PLATFORMS_KEY).concat(".").concat(
            platform,
        ).concat(".");
        let mut increments: Vec<String> = Vec::new();
        increments.push(String::from_str(t).concat(".").concat(TOTAL_KEY));
        increments.push(per_platform.clone().concat(TOTAL_KEY));
        increments.push(
            String::from_str(t).concat(".").concat(DAILY_KEY).concat(".").concat(daily.as_str()),
        );
        increments.push(per_platform.clone().concat(DAILY_KEY).concat(".").concat(daily.as_str()));
        increments.push(
            String::from_str(t).concat(".").concat(MONTHLY_KEY).concat(".").concat(
                monthly.as_str(),
            ),
        );
        increments.push(per_platform.concat(MONTHLY_KEY).concat(".").concat(monthly.as_str()));
        assert(increments@.map_values(|s: String| s@) =~= metric_counters(
            metric_type_name(self.metric_type),
            metric_platform(self.metric_type),
            self.date,
        ));
        MetricUpdate { increments, created_at: self.date.timestamp_millis }
    }
}

} // verus!

verus! {

/// Whether every byte is visible ASCII or a tab, as `HeaderValue::to_str` asks.
pub open spec fn visible_ascii(b: Seq<u8>) -> bool {
    forall|i: int| 0 <= i < b.len() ==> ((32 <= #[trigger] b[i] && b[i] < 127) || b[i] == 9)
}

/// Calls `std::str::from_utf8` and copies out the text. The contract states the
/// documented behaviour: text exactly when the bytes are valid UTF-8, and then
/// the characters they encode.
#[verifier::external_body]
fn utf8_text(bytes: &[u8]) -> (r: Option<String>)
    ensures
        r is Some <==> vstd::utf8::valid_utf8(bytes@),
        r matches Some(s) ==> s@ == vstd::utf8::decode_utf8(bytes@),
{
    std::str::from_utf8(bytes).ok().map(|s| s.to_string())
}

/// The text of a header value: its characters when every byte is visible
/// ASCII, else empty (`to_str().unwrap_or_default()`).
pub open spec fn header_text(b: Seq<u8>) -> Seq<char> {
    if visible_ascii(b) {
        vstd::utf8::decode_utf8(b)
    } else {
        Seq::empty()
    }
}

fn header_value_text(bytes: &Vec<u8>) -> (r: String)
    ensures
        r@ == header_text(bytes@),
{
    let mut i: usize = 0;
    while i < bytes.len()
        invariant
            i <= bytes.len(),
            forall|j: int| 0 <= j < i ==> ((32 <= #[trigger] bytes@[j] && bytes@[j] < 127) || bytes@[j] == 9),
        decreases bytes.len() - i,
    {
        let b = bytes[i];
        if !((32 <= b && b < 127) || b == 9) {
            return String::new();
        }
        i = i + 1;
    }
    proof {
        let s = bytes@;
        assert(s.subrange(0, 0) =~= Seq::<u8>::empty());
        assert(vstd::utf8::partial_valid_utf8(s, 0));
        assert forall|k: int| 0 <= 0 <= k < s.len() <= s.len() implies
            #[trigger] vstd::utf8::is_leading_byte_width_1(s[k]) by {}
        vstd::utf8::partial_valid_utf8_extend_ascii_block(s, 0, s.len() as int);
        assert(s.subrange(0, s.len() as int) =~= s);
    }
    match utf8_text(bytes.as_slice()) {
        Some(t) => t,
        None => String::new(),
    }
}

/// The distinct id of an owner in analytics: their user id, or their owner id.
pub open spec fn analytics_id(o: Ownership) -> Seq<char> {
    match o.user_id {
        Some(u) => u@,
        None => o.id@,
    }
}

pub open spec fn opt_str_json(o: Option<String>) -> JsonView {
    match o {
        Some(s) => JsonView::Str(s@),
        None => JsonView::Null,
    }
}

/// The properties a call on a connection is reported with.
pub open spec fn connection_props(c: Connection) -> Seq<(Seq<char>, JsonView)> {
    let o = c.ownership;
    let p1 = sorted_insert(Seq::empty(), "connectionDefinitionId"@, JsonView::Str(c.id@));
    let p2 = sorted_insert(p1, "environment"@, JsonView::Str(env_name(c.environment)));
    let p3 = sorted_insert(p2, "key"@, JsonView::Str(c.key@));
    let p4 = sorted_insert(p3, "platform"@, JsonView::Str(c.platform@));
    let p5 = sorted_insert(p4, "platformVersion"@, JsonView::Str(c.platform_version@));
    let p6 = sorted_insert(p5, "clientId"@, JsonView::Str(o.client_id@));
    sorted_insert(p6, "version"@, JsonView::Str(c.record_metadata.version@))
}

/// The properties of an analytics event of a metric.
pub open spec fn metric_props(m: Metric) -> Seq<(Seq<char>, JsonView)> {
    match m.metric_type {
        MetricType::Unified(c) => {
            let p = connection_props(*c);
            let q = sorted_insert(p, "commonModel"@, match m.action {
                Some(a) => JsonView::Str(a.name@),
                None => JsonView::Null,
            });
            sorted_insert(q, "action"@, match m.action {
                Some(a) => JsonView::Str(a.action@),
                None => JsonView::Null,
            })
        },
        MetricType::Passthrough(c) => connection_props(*c),
        MetricType::RateLimited(e, key) => {
            let p1 = sorted_insert(Seq::empty(), "environment"@, JsonView::Str(env_name(e.environment)));
            let p2 = sorted_insert(p1, "key"@, match key {
                Some(b) => JsonView::Str(header_text(b@)),
                None => JsonView::Null,
            });
            let p3 = sorted_insert(p2, "platform"@, JsonView::Str(e.platform@));
            let p4 = sorted_insert(p3, "clientId"@, JsonView::Str(e.ownership.client_id@));
            sorted_insert(p4, "version"@, JsonView::Str(e.record_metadata.version@))
        },
    }
}

fn put(m: &mut KeyedMap<JsonValue>, key: &str, value: JsonValue)
    ensures
        final(m)@ == sorted_insert(old(m)@, key@, value@),
{
    m.insert(String::from_str(key), value);
}

fn connection_properties(c: &Connection) -> (r: KeyedMap<JsonValue>)
    ensures
        r@ == connection_props(*c),
{
    let mut p: KeyedMap<JsonValue> = KeyedMap::new();
    put(&mut p, "connectionDefinitionId", JsonValue::Str(c.id.to_text()));
    put(&mut p, "environment", JsonValue::Str(String::from_str(c.environment.as_str())));
    put(&mut p, "key", JsonValue::Str(c.key.clone()));
    put(&mut p, "platform", JsonValue::Str(c.platform.clone()));
    put(&mut p, "platformVersion", JsonValue::Str(c.platform_version.clone()));
    put(&mut p, "clientId", JsonValue::Str(c.ownership.client_id.clone()));
    put(&mut p, "version", JsonValue::Str(c.record_metadata.version.clone()));
    p
}

impl Metric {
    /// The analytics event of the metric: its type's event name, for the
    /// owner's user (or the owner), with the properties of `metric_props`.
    pub fn track(&self) -> (r: TrackedEvent)
        ensures
            r.event@ == event_name_of(self.metric_type),
            r.distinct_id@ == analytics_id(metric_owner(self.metric_type)),
            r.properties@ == metric_props(*self),
            r.set_properties is None,
    {
        let owner = self.ownership();
        let distinct_id = match &owner.user_id {
            Some(u) => u.clone(),
            None => owner.id.clone(),
        };
        let event = String::from_str(self.metric_type.event_name());
        let properties = match &self.metric_type {
            MetricType::Unified(c) => {
                let mut p = connection_properties(c);
                let (model, action) = match &self.action {
                    Some(a) => (JsonValue::Str(a.name.clone()), JsonValue::Str(a.action.clone())),
                    None => (JsonValue::Null, JsonValue::Null),
                };
                put(&mut p, "commonModel", model);
                put(&mut p, "action", action);
                p
            },
            MetricType::Passthrough(c) => connection_properties(c),
            MetricType::RateLimited(e, key) => {
                let mut p: KeyedMap<JsonValue> = KeyedMap::new();
                put(&mut p, "environment", JsonValue::Str(String::from_str(e.environment.as_str())));
                let key_value = match key {
                    Some(b) => JsonValue::Str(header_value_text(b)),
                    None => JsonValue::Null,
                };
                put(&mut p, "key", key_value);
                put(&mut p, "platform", JsonValue::Str(e.platform.clone()));
                put(&mut p, "clientId", JsonValue::Str(e.ownership.client_id.clone()));
                put(&mut p, "version", JsonValue::Str(e.record_metadata.version.clone()));
                p
            },
        };
        TrackedEvent { event, distinct_id, properties, set_properties: None }
    }
}

} // verus!

verus! {

spec fn base_props(t: MetricType) -> Seq<(Seq<char>, JsonView)> {
    match t {
        MetricType::Unified(c) => connection_props(*c),
        _ => Seq::empty(),
    }
}

/// The analytics event of a unified call reports the call's action under
/// `action` and its common model under `commonModel`, each from its own field
/// of the action; a call without an action reports null for both.
pub proof fn law_unified_event_reports_its_action(m: Metric)
    requires
        m.metric_type is Unified,
    ensures
        match m.action {
            Some(a) => {
                &&& crate::entries::entries_get(metric_props(m), "action"@) == Some(
                    JsonView::Str(a.action@),
                )
                &&& crate::entries::entries_get(metric_props(m), "commonModel"@) == Some(
                    JsonView::Str(a.name@),
                )
            },
            None => {
                &&& crate::entries::entries_get(metric_props(m), "action"@) == Some(JsonView::Null)
                &&& crate::entries::entries_get(metric_props(m), "commonModel"@) == Some(
                    JsonView::Null,
                )
            },
        },
{
    reveal_strlit("action");
    reveal_strlit("commonModel");
    assert("action"@ != "commonModel"@) by {
        assert("action"@.len() != "commonModel"@.len());
    }
    if m.metric_type is Unified {
        let p = base_props(m.metric_type);
        let x = match m.action {
            Some(a) => JsonView::Str(a.name@),
            None => JsonView::Null,
        };
        let y = match m.action {
            Some(a) => JsonView::Str(a.action@),
            None => JsonView::Null,
        };
        let q = sorted_insert(p, "commonModel"@, x);
        crate::string_map::law_insert_then_get(q, "action"@, y, "action"@);
        crate::string_map::law_insert_then_get(q, "action"@, y, "commonModel"@);
        crate::string_map::law_insert_then_get(p, "commonModel"@, x, "commonModel"@);
    }
}

} // verus!

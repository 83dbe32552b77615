//! The keys that new connections are stored and rate limited under.
use vstd::prelude::*;
use crate::common::{env_name, Environment};
use crate::constants::DEFAULT_NAMESPACE;
use crate::error::{ErrorKind, PicaError};

verus! {

/// The identity as it stands in a key: spaces and colons become dashes.
pub open spec fn key_safe(s: Seq<char>) -> Seq<char> {
    s.map_values(|c: char| if c == ' ' || c == ':' { '-' } else { c })
}

/// `s` without any occurrence of `c`.
pub open spec fn remove_char(s: Seq<char>, c: char) -> Seq<char>
    decreases s.len(),
{
    if s.len() == 0 {
        s
    } else if s.last() == c {
        remove_char(s.drop_last(), c)
    } else {
        remove_char(s.drop_last(), c).push(s.last())
    }
}

pub open spec fn is_lower_hex(c: char) -> bool {
    ('0' <= c && c <= '9') || ('a' <= c && c <= 'f')
}

/// The hyphenated text of a UUID: 32 lower-case hex digits in groups of
/// 8, 4, 4, 4 and 12, separated by dashes.
pub open spec fn is_hyphenated_uuid(s: Seq<char>) -> bool {
    &&& s.len() == 36
    &&& forall|i: int|
        0 <= i < 36 ==> if i == 8 || i == 13 || i == 18 || i == 23 {
            #[trigger] s[i] == '-'
        } else {
            is_lower_hex(s[i])
        }
}

/// The key suffix: the UUID alone when the identity is the UUID itself,
/// else the UUID, a bar and the identity made safe for keys.
pub open spec fn key_suffix(uuid: Seq<char>, identity: Seq<char>) -> Seq<char> {
    if identity == uuid {
        uuid
    } else {
        uuid + "|"@ + key_safe(identity)
    }
}

/// The key of a connection: environment, platform, namespace and suffix,
/// joined by `::`.
pub open spec fn spec_connection_key(
    environment: Environment,
    platform: Seq<char>,
    uuid: Seq<char>,
    identity: Seq<char>,
) -> Seq<char> {
    env_name(environment) + "::"@ + platform + "::"@ + DEFAULT_NAMESPACE@ + "::"@ + key_suffix(
        uuid,
        identity,
    )
}

/// What a new connection is grouped, identified and keyed by.
pub struct ConnectionKey {
    pub uuid: String,
    pub group: String,
    pub identity: String,
    pub key: String,
}

/// Copies `s` with every space and colon turned into a dash.
pub fn make_key_safe(s: &str) -> (r: String)
    ensures
        r@ == key_safe(s@),
{
    let n = s.unicode_len();
    let mut out = String::new();
    let mut i: usize = 0;
    proof {
        reveal_strlit("-");
    }
    while i < n
        invariant
            n == s@.len(),
            i <= n,
            out@ == key_safe(s@.take(i as int)),
            "-"@ == seq!['-'],
        decreases n - i,
    {
        let c = s.get_char(i);
        if c == ' ' || c == ':' {
            out.append("-");
        } else {
            out.append(s.substring_char(i, i + 1));
        }
        assert(key_safe(s@.take(i + 1)) =~= key_safe(s@.take(i as int)).push(
            if c == ' ' || c == ':' { '-' } else { c },
        ));
        assert(out@ =~= key_safe(s@.take(i + 1)));
        i = i + 1;
    }
    assert(s@.take(n as int) =~= s@);
    out
}

/// Copies `s` without its occurrences of `c`.
pub fn without_char(s: &str, c: char) -> (r: String)
    ensures
        r@ == remove_char(s@, c),
{
    let n = s.unicode_len();
    let mut out = String::new();
    let mut i: usize = 0;
    assert(s@.take(0) =~= Seq::<char>::empty());
    while i < n
        invariant
            n == s@.len(),
            i <= n,
            out@ == remove_char(s@.take(i as int), c),
        decreases n - i,
    {
        let d = s.get_char(i);
        assert(s@.take(i + 1).drop_last() =~= s@.take(i as int));
        if d != c {
            out.append(s.substring_char(i, i + 1));
            assert(out@ =~= remove_char(s@.take(i + 1), c));
        }
        i = i + 1;
    }
    assert(s@.take(n as int) =~= s@);
    out
}

/// Joins the parts of a connection key.
pub fn connection_key(
    environment: Environment,
    platform: &str,
    uuid: &str,
    group: Option<String>,
    identity: Option<String>,
) -> (r: ConnectionKey)
    ensures
        r.uuid@ == uuid@,
        r.group@ == (match group {
            Some(g) => g@,
            None => uuid@,
        }),
        r.identity@ == (match identity {
            Some(i) => i@,
            None => r.group@,
        }),
        r.key@ == spec_connection_key(environment, platform@, uuid@, r.identity@),
{
    let uuid = String::from_str(uuid);
    let group = match group {
        Some(g) => g,
        None => uuid.clone(),
    };
    let identity = match identity {
        Some(i) => i,
        None => group.clone(),
    };
    let suffix = if identity == uuid {
        uuid.clone()
    } else {
        uuid.clone().concat("|").concat(make_key_safe(identity.as_str()).as_str())
    };
    let key = String::from_str(environment.as_str()).concat("::").concat(platform).concat(
        "::",
    ).concat(DEFAULT_NAMESPACE).concat("::").concat(suffix.as_str());
    assert(key@ =~= spec_connection_key(environment, platform@, uuid@, identity@));
    ConnectionKey { uuid, group, identity, key }
}

/// Calls `Uuid::new_v4` and writes the UUID out with `to_string`. The contract
/// claims only the documented hyphenated lower-case form; the value is random.
#[verifier::external_body]
fn uuid_v4_hyphenated() -> (r: String)
    ensures
        is_hyphenated_uuid(r@),
{
    uuid::Uuid::new_v4().to_string()
}

/// The key of a new connection, under a fresh random UUID written without its
/// dashes.
pub fn new_connection_key(
    environment: Environment,
    platform: &str,
    group: Option<String>,
    identity: Option<String>,
) -> (r: ConnectionKey)
    ensures
        exists|h: Seq<char>| is_hyphenated_uuid(h) && r.uuid@ == #[trigger] remove_char(h, '-'),
        r.group@ == (match group {
            Some(g) => g@,
            None => r.uuid@,
        }),
        r.identity@ == (match identity {
            Some(i) => i@,
            None => r.group@,
        }),
        r.key@ == spec_connection_key(environment, platform@, r.uuid@, r.identity@),
{
    let hyphenated = uuid_v4_hyphenated();
    let uuid = without_char(hyphenated.as_str(), '-');
    connection_key(environment, platform, uuid.as_str(), group, identity)
}

/// The longest identity, in bytes, that a connection may carry.
pub const MAX_IDENTITY_BYTES: usize = 128;

/// Rejects an identity longer than 128 bytes.
pub fn validate_identity(identity: &Option<String>) -> (r: Result<(), PicaError>)
    ensures
        r is Ok <==> (identity matches Some(i) ==> vstd::utf8::encode_utf8(i@).len() <= 128),
        r matches Err(e) ==> e.kind == ErrorKind::BadRequest
            && e.message@ == "Identity must not exceed 128 characters"@,
{
    if let Some(identity) = identity {
        if identity.as_str().as_bytes().len() > MAX_IDENTITY_BYTES {
            return Err(
                PicaError::new(ErrorKind::BadRequest, "Identity must not exceed 128 characters"),
            );
        }
    }
    Ok(())
}

} // verus!

verus! {

/// The identity part of a key never holds a space or a colon.
pub proof fn law_key_safe_identity(identity: Seq<char>)
    ensures
        key_safe(identity).len() == identity.len(),
        forall|i: int|
            0 <= i < key_safe(identity).len() ==> #[trigger] key_safe(identity)[i] != ' '
                && key_safe(identity)[i] != ':',
{
}

proof fn lemma_remove_dashes_prefix(h: Seq<char>, k: int)
    requires
        is_hyphenated_uuid(h),
        0 <= k <= 36,
    ensures
        remove_char(h.take(k), '-').len() == k - ((if k > 8 { 1int } else { 0int }) + (if k
            > 13 { 1int } else { 0int }) + (if k > 18 { 1int } else { 0int }) + (if k > 23 {
            1int
        } else {
            0int
        })),
        forall|i: int|
            0 <= i < remove_char(h.take(k), '-').len() ==> is_lower_hex(
                #[trigger] remove_char(h.take(k), '-')[i],
            ),
    decreases k,
{
    if k > 0 {
        lemma_remove_dashes_prefix(h, k - 1);
        assert(h.take(k).drop_last() =~= h.take(k - 1));
        assert(h.take(k).last() == h[k - 1]);
        let prev = remove_char(h.take(k - 1), '-');
        if h[k - 1] != '-' {
            assert(is_lower_hex(h[k - 1]));
            assert forall|i: int| 0 <= i < prev.push(h[k - 1]).len() implies is_lower_hex(
                #[trigger] prev.push(h[k - 1])[i],
            ) by {
                if i < prev.len() {
                    assert(prev.push(h[k - 1])[i] == prev[i]);
                }
            }
        }
    } else {
        assert(h.take(0) =~= Seq::<char>::empty());
    }
}

/// A UUID written without its dashes is 32 lower-case hex digits.
pub proof fn law_simple_uuid(h: Seq<char>)
    requires
        is_hyphenated_uuid(h),
    ensures
        remove_char(h, '-').len() == 32,
        forall|i: int|
            0 <= i < 32 ==> is_lower_hex(#[trigger] remove_char(h, '-')[i]),
{
    lemma_remove_dashes_prefix(h, 36);
    assert(h.take(36) =~= h);
}

/// Keys under different UUIDs differ, whatever the identities: a connection
/// key is as unique as the UUID it was made with.
pub proof fn law_distinct_uuids_distinct_keys(
    environment: Environment,
    platform: Seq<char>,
    u1: Seq<char>,
    u2: Seq<char>,
    identity1: Seq<char>,
    identity2: Seq<char>,
)
    requires
        u1.len() == 32,
        u2.len() == 32,
        u1 != u2,
    ensures
        spec_connection_key(environment, platform, u1, identity1) != spec_connection_key(
            environment,
            platform,
            u2,
            identity2,
        ),
{
    let prefix = env_name(environment) + "::"@ + platform + "::"@ + DEFAULT_NAMESPACE@ + "::"@;
    let k1 = spec_connection_key(environment, platform, u1, identity1);
    let k2 = spec_connection_key(environment, platform, u2, identity2);
    let s1 = key_suffix(u1, identity1);
    let s2 = key_suffix(u2, identity2);
    assert(k1 =~= prefix + s1);
    assert(k2 =~= prefix + s2);
    let i = choose|i: int| 0 <= i < 32 && u1[i] != u2[i];
    assert(!(u1 =~= u2));
    assert(exists|j: int| 0 <= j < 32 && u1[j] != u2[j]);
    assert(s1[i] == u1[i]);
    assert(s2[i] == u2[i]);
    assert(k1[prefix.len() + i] == s1[i]);
    assert(k2[prefix.len() + i] == s2[i]);
}

} // verus!

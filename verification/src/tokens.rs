use vstd::prelude::*;

use crate::auth::{Claims, UserRole};
use crate::error::{ErrorKind, RequestError};
use crate::ids::{hyphenated_text, id_text, new_random_id};
use crate::time::{utc_now, CHRONO_MIN_SECS};

verus! {

/// A key of the token store.
#[derive(Debug)]
pub enum RedisKey {
    /// The whitelist entry of one token, by its id.
    WhiteList(String),
    /// The set of the token ids a user holds.
    UserTokens(u128),
}

/// "wl:`jti`".
pub open spec fn whitelist_key(jti: Seq<char>) -> Seq<char> {
    "wl:"@ + jti
}

/// "ut:`user`", the user id hyphenated.
pub open spec fn user_tokens_key(user: u128) -> Seq<char> {
    "ut:"@ + hyphenated_text(user)
}

impl RedisKey {
    pub open spec fn text(&self) -> Seq<char> {
        match self {
            RedisKey::WhiteList(jti) => whitelist_key(jti@),
            RedisKey::UserTokens(user) => user_tokens_key(*user),
        }
    }

    /// The key as the store names it (what `Display` gives).
    pub fn to_key(&self) -> (r: String)
        ensures
            r@ == self.text(),
    {
        match self {
            RedisKey::WhiteList(jti) => {
                let mut k = String::from_str("wl:");
                k.append(jti.as_str());
                k
            },
            RedisKey::UserTokens(user) => {
                let mut k = String::from_str("ut:");
                let id = id_text(*user);
                k.append(id.as_str());
                k
            },
        }
    }
}

/// How long an access token lives, in seconds.
pub const TOKEN_TTL_SECS: i64 = 86400;

/// The claims of a token issued to `user` at second `now` under the id `jti`.
pub fn claims_at(user: u128, role: UserRole, now: i64, jti: String) -> (c: Claims)
    requires
        0 <= now,
        now + TOKEN_TTL_SECS <= usize::MAX,
        now + TOKEN_TTL_SECS <= i64::MAX,
    ensures
        c.sub == user,
        c.role == role,
        c.exp == now + TOKEN_TTL_SECS,
        c.jti@ == jti@,
{
    let exp = (now + TOKEN_TTL_SECS) as usize;
    Claims { sub: user, role, exp, jti }
}

/// The latest second at which a token may be issued: its expiry must fit an
/// expiry field of 32 bits as well as one of 64.
pub const LATEST_ISSUE_SECS: i64 = 4_000_000_000 - TOKEN_TTL_SECS;

/// The claims of a token issued to `user` at clock reading `now` under the
/// id `jti`; a reading before 1970 or after `LATEST_ISSUE_SECS` is refused.
pub fn claims_for_clock(user: u128, role: UserRole, now: i64, jti: String) -> (r: Result<
    Claims,
    RequestError,
>)
    ensures
        (0 <= now && now <= LATEST_ISSUE_SECS) ==> (r matches Ok(c) && c.sub == user && c.role
            == role && c.exp == now + TOKEN_TTL_SECS && c.jti@ == jti@),
        !(0 <= now && now <= LATEST_ISSUE_SECS) ==> (r matches Err(e) && e.is(
            ErrorKind::InternalServerError,
            "system clock out of range"@,
        )),
{
    if now < 0 || now > LATEST_ISSUE_SECS {
        return Err(RequestError::internal_server_error("system clock out of range"));
    }
    Ok(claims_at(user, role, now, jti))
}

/// `r` is what `claims_for_clock` gives for the clock reading `now` and the
/// token id `jti`.
pub open spec fn clock_claims_outcome(
    r: Result<Claims, RequestError>,
    user: u128,
    role: UserRole,
    now: i64,
    jti: Seq<char>,
) -> bool {
    if 0 <= now && now <= LATEST_ISSUE_SECS {
        r matches Ok(c) && c.sub == user && c.role == role && c.exp == now + TOKEN_TTL_SECS
            && c.jti@ == jti
    } else {
        r matches Err(e) && e.is(ErrorKind::InternalServerError, "system clock out of range"@)
    }
}

/// Issues the claims of a new token by the clock, under a fresh random id in
/// its hyphenated form: `claims_for_clock` applied to the clock reading and
/// that id.
pub fn issue_claims(user: u128, role: UserRole) -> (r: Result<Claims, RequestError>)
    ensures
        exists|now: i64, id: u128| #[trigger] clock_claims_outcome(r, user, role, now, hyphenated_text(id)),
{
    let now = utc_now().secs;
    let id = new_random_id();
    let jti = id_text(id);
    let r = claims_for_clock(user, role, now, jti);
    assert(clock_claims_outcome(r, user, role, now, hyphenated_text(id)));
    r
}

/// The token store as far as the whitelist is concerned: the value stored
/// under each live key.
pub open spec fn whitelisted(store: Map<Seq<char>, Seq<char>>, key: Seq<char>) -> bool {
    store.dom().contains(key)
}

/// The store after a token's whitelist entry is written.
pub open spec fn store_after_issue(store: Map<Seq<char>, Seq<char>>, entry: WhitelistEntry) -> Map<
    Seq<char>,
    Seq<char>,
> {
    store.insert(entry.token_key@, entry.value@)
}

/// The store after the keys that revoking deletes are deleted.
pub open spec fn store_after_delete(store: Map<Seq<char>, Seq<char>>, keys: Seq<Seq<char>>) -> Map<
    Seq<char>,
    Seq<char>,
> {
    store.remove_keys(keys.to_set())
}

/// A token whose entry was written is found by the lookup key of its claims,
/// until its entry is deleted (expiry is the store's own business).
pub proof fn law_issued_token_is_found(store: Map<Seq<char>, Seq<char>>, claims: Claims, entry: WhitelistEntry)
    requires
        entry.names(&claims),
    ensures
        whitelisted(store_after_issue(store, entry), whitelist_key(claims.jti@)),
{
}

/// Revoking one token removes it from the whitelist and leaves every other
/// token's entry in place.
pub proof fn law_revoke_one_leaves_others(
    store: Map<Seq<char>, Seq<char>>,
    revoked: Claims,
    other: Claims,
)
    requires
        other.jti@ != revoked.jti@,
        whitelisted(store, whitelist_key(other.jti@)),
    ensures
        !whitelisted(
            store_after_delete(store, seq![whitelist_key(revoked.jti@)]),
            whitelist_key(revoked.jti@),
        ),
        whitelisted(
            store_after_delete(store, seq![whitelist_key(revoked.jti@)]),
            whitelist_key(other.jti@),
        ),
{
    law_whitelist_key_injective(other.jti@, revoked.jti@);
    law_key_spaces_disjoint(other.jti@, revoked.sub);
    let keys = seq![whitelist_key(revoked.jti@)];
    assert(keys.to_set().contains(whitelist_key(revoked.jti@))) by {
        assert(keys[0] == whitelist_key(revoked.jti@));
    }
    assert(!keys.to_set().contains(whitelist_key(other.jti@))) by {
        if keys.to_set().contains(whitelist_key(other.jti@)) {
            assert(keys.contains(whitelist_key(other.jti@)));
        }
    }
}

/// Revoking all tokens of a user removes every token in the user's set
/// from the whitelist.
pub proof fn law_revoke_all_removes_every_token(
    store: Map<Seq<char>, Seq<char>>,
    claims: Claims,
    jtis: Seq<Seq<char>>,
)
    requires
        jtis.contains(claims.jti@),
    ensures
        !whitelisted(
            store_after_delete(store, cleanup_keys(claims.sub, jtis)),
            whitelist_key(claims.jti@),
        ),
{
    let i = choose|i: int| 0 <= i < jtis.len() && jtis[i] == claims.jti@;
    let keys = cleanup_keys(claims.sub, jtis);
    assert(keys[i] == whitelist_key(claims.jti@));
    assert(keys.contains(whitelist_key(claims.jti@)));
}

/// What to write when a token is issued: its whitelist entry holding the
/// user id, and its id added to the user's token set, both expiring with
/// the token.
#[derive(Debug)]
pub struct WhitelistEntry {
    pub token_key: String,
    pub user_key: String,
    pub value: String,
    /// Seconds until the token expires.
    pub ttl: u64,
}

impl WhitelistEntry {
    /// The entry's keys and value are those of the token's claims.
    pub open spec fn names(&self, claims: &Claims) -> bool {
        &&& self.token_key@ == whitelist_key(claims.jti@)
        &&& self.user_key@ == user_tokens_key(claims.sub)
        &&& self.value@ == hyphenated_text(claims.sub)
    }
}

/// Plans the whitelist entry of a token at time `now`: refused as expired when
/// its expiry is not after `now`, else kept for the seconds that remain.
pub fn whitelist_entry_at(claims: &Claims, now: i64) -> (r: Result<WhitelistEntry, RequestError>)
    requires
        claims.exp <= i64::MAX,
        i64::MIN <= claims.exp - now <= i64::MAX,
    ensures
        claims.exp - now <= 0 ==> (r matches Err(e) && e.is(
            ErrorKind::InternalServerError,
            "Token already expired"@,
        )),
        claims.exp - now > 0 ==> (r matches Ok(w) && w.ttl == claims.exp - now && w.names(claims)),
{
    let ttl_secs = claims.exp as i64 - now;
    if ttl_secs <= 0 {
        return Err(RequestError::internal_server_error("Token already expired"));
    }
    let token_key = RedisKey::WhiteList(claims.jti.clone()).to_key();
    let user_key = RedisKey::UserTokens(claims.sub).to_key();
    let value = id_text(claims.sub);
    Ok(WhitelistEntry { token_key, user_key, value, ttl: ttl_secs as u64 })
}

/// Plans the whitelist entry of a token by the clock: either the entry for
/// the remaining lifetime, or the refusal of an expired token.
pub fn whitelist_entry(claims: &Claims) -> (r: Result<WhitelistEntry, RequestError>)
    requires
        claims.exp <= i64::MAX + CHRONO_MIN_SECS,
    ensures
        r matches Ok(w) ==> w.ttl > 0 && w.ttl <= claims.exp - CHRONO_MIN_SECS && w.names(claims),
        r matches Err(e) ==> e.is(ErrorKind::InternalServerError, "Token already expired"@),
{
    let now = utc_now();
    whitelist_entry_at(claims, now.secs)
}

/// The key under which a token's whitelist entry is looked up.
pub fn whitelist_lookup_key(claims: &Claims) -> (r: String)
    ensures
        r@ == whitelist_key(claims.jti@),
{
    RedisKey::WhiteList(claims.jti.clone()).to_key()
}

/// What revoking all tokens of a user deletes, and how many tokens that is.
#[derive(Debug)]
pub struct TokenCleanup {
    pub keys: Vec<String>,
    pub count: usize,
}

/// The texts held by a list of strings.
pub open spec fn texts(v: Seq<String>) -> Seq<Seq<char>> {
    v.map_values(|s: String| s@)
}

/// The keys that revoking all tokens of a user deletes, given the token ids
/// in the user's set: the whitelist entry of each, then the set itself;
/// nothing when the set is empty.
pub open spec fn cleanup_keys(user: u128, jtis: Seq<Seq<char>>) -> Seq<Seq<char>> {
    if jtis.len() == 0 {
        seq![]
    } else {
        jtis.map_values(|j: Seq<char>| whitelist_key(j)).push(user_tokens_key(user))
    }
}

/// Plans revoking all tokens of a user from the token ids the user's set
/// holds, and counts those tokens.
pub fn user_tokens_cleanup(user: u128, jtis: &Vec<String>) -> (r: TokenCleanup)
    ensures
        r.count == jtis@.len(),
        texts(r.keys@) == cleanup_keys(user, texts(jtis@)),
{
    let count = jtis.len();
    let mut keys: Vec<String> = Vec::new();
    if count == 0 {
        proof {
            assert(texts(keys@) =~= cleanup_keys(user, texts(jtis@)));
        }
        return TokenCleanup { keys, count };
    }
    for i in 0..count
        invariant
            count == jtis@.len(),
            keys@.len() == i,
            forall|j: int| 0 <= j < i ==> (#[trigger] keys@[j])@ == whitelist_key(jtis@[j]@),
    {
        keys.push(RedisKey::WhiteList(jtis[i].clone()).to_key());
    }
    keys.push(RedisKey::UserTokens(user).to_key());
    proof {
        assert(texts(keys@) =~= cleanup_keys(user, texts(jtis@)));
    }
    TokenCleanup { keys, count }
}

/// Revoking all tokens of a user deletes the whitelist entry written for any
/// token in the user's set, and the set itself.
pub proof fn law_revoke_all_covers_issued(claims: Claims, entry: WhitelistEntry, jtis: Seq<Seq<char>>)
    requires
        entry.names(&claims),
        jtis.contains(claims.jti@),
    ensures
        cleanup_keys(claims.sub, jtis).contains(entry.token_key@),
        cleanup_keys(claims.sub, jtis).contains(entry.user_key@),
{
    let i = choose|i: int| 0 <= i < jtis.len() && jtis[i] == claims.jti@;
    let keys = cleanup_keys(claims.sub, jtis);
    assert(keys[i] == entry.token_key@);
    assert(keys[jtis.len() as int] == entry.user_key@);
}

/// The keys touched when one token is revoked: its whitelist entry, and the
/// user's token set from which its id is removed.
pub fn token_removal_keys(jti: &str, user: u128) -> (r: (String, String))
    ensures
        r.0@ == whitelist_key(jti@),
        r.1@ == user_tokens_key(user),
{
    let mut k = String::from_str("wl:");
    k.append(jti);
    (k, RedisKey::UserTokens(user).to_key())
}

/// Revoking one token deletes the whitelist entry that issuing it wrote,
/// which is the key every later lookup of the token reads, and takes its id
/// out of the set that issuing added it to.
pub proof fn law_revoke_one_hits_issued(claims: Claims, entry: WhitelistEntry)
    requires
        entry.names(&claims),
    ensures
        whitelist_key(claims.jti@) == entry.token_key@,
        user_tokens_key(claims.sub) == entry.user_key@,
{
}

/// A token's whitelist key never equals a user's token-set key.
pub proof fn law_key_spaces_disjoint(jti: Seq<char>, user: u128)
    ensures
        whitelist_key(jti) != user_tokens_key(user),
{
    reveal_strlit("wl:");
    reveal_strlit("ut:");
    assert(whitelist_key(jti)[0] == 'w');
    assert(user_tokens_key(user)[0] == 'u');
}

/// Distinct tokens have distinct whitelist keys.
pub proof fn law_whitelist_key_injective(a: Seq<char>, b: Seq<char>)
    ensures
        whitelist_key(a) == whitelist_key(b) ==> a == b,
{
    if whitelist_key(a) == whitelist_key(b) {
        reveal_strlit("wl:");
        assert(a =~= whitelist_key(a).skip(3));
        assert(b =~= whitelist_key(b).skip(3));
    }
}

} // verus!

use server::auth::{Claims, UserRole};
use server::tokens::{
    claims_at, token_removal_keys, user_tokens_cleanup, whitelist_entry, whitelist_entry_at,
    whitelist_lookup_key, RedisKey,
};

const USER: u128 = 0x67e5_5044_10b1_426f_9247_bb68_0e5f_e0c8;

fn claims(exp: usize) -> Claims {
    Claims { sub: USER, role: UserRole::User, exp, jti: "jti-1".to_string() }
}

#[test]
fn id_texts() {
    assert_eq!(RedisKey::UserTokens(USER).to_key(), "ut:67e55044-10b1-426f-9247-bb680e5fe0c8");
    assert_eq!(RedisKey::UserTokens(1).to_key(), "ut:00000000-0000-0000-0000-000000000001");
}

#[test]
fn redis_keys() {
    assert_eq!(RedisKey::WhiteList("abc".to_string()).to_key(), "wl:abc");
    assert_eq!(RedisKey::UserTokens(USER).to_key(), "ut:67e55044-10b1-426f-9247-bb680e5fe0c8");
    assert_ne!(RedisKey::WhiteList("x".to_string()).to_key(), RedisKey::UserTokens(0).to_key());
    assert_eq!(whitelist_lookup_key(&claims(10)), "wl:jti-1");
}

#[test]
fn whitelist_entry_for_live_token() {
    let w = whitelist_entry_at(&claims(1_000), 400).unwrap();
    assert_eq!(w.ttl, 600);
    assert_eq!(w.token_key, "wl:jti-1");
    assert_eq!(w.user_key, "ut:67e55044-10b1-426f-9247-bb680e5fe0c8");
    assert_eq!(w.value, "67e55044-10b1-426f-9247-bb680e5fe0c8");
}

#[test]
fn whitelist_entry_for_expired_token() {
    let e = whitelist_entry_at(&claims(1_000), 1_000).unwrap_err();
    assert_eq!((e.status_code(), e.message_text()), (500, "Token already expired"));
    assert!(whitelist_entry_at(&claims(1_000), 5_000).is_err());
    assert!(whitelist_entry(&claims(1)).is_err());
    let far = 4_000_000_000usize;
    assert!(whitelist_entry(&claims(far)).unwrap().ttl > 0);
}

#[test]
fn cleanup_of_user_tokens() {
    let none = user_tokens_cleanup(USER, &vec![]);
    assert_eq!(none.count, 0);
    assert!(none.keys.is_empty());
    let some = user_tokens_cleanup(USER, &vec!["a".to_string(), "b".to_string()]);
    assert_eq!(some.count, 2);
    assert_eq!(
        some.keys,
        vec!["wl:a".to_string(), "wl:b".to_string(), "ut:67e55044-10b1-426f-9247-bb680e5fe0c8".to_string()]
    );
}

#[test]
fn removal_of_one_token() {
    let (k, u) = token_removal_keys("t9", USER);
    assert_eq!(k, "wl:t9");
    assert_eq!(u, "ut:67e55044-10b1-426f-9247-bb680e5fe0c8");
}

#[test]
fn revoking_all_tokens_deletes_what_issuing_wrote() {
    let c = claims_at(USER, UserRole::User, 5_000, "tok-1".to_string());
    let entry = whitelist_entry_at(&c, 5_000).unwrap();
    let cleanup = user_tokens_cleanup(USER, &vec!["other".to_string(), "tok-1".to_string()]);
    assert_eq!(cleanup.count, 2);
    assert!(cleanup.keys.contains(&entry.token_key));
    assert!(cleanup.keys.contains(&entry.user_key));
    let (one, set) = token_removal_keys("tok-1", USER);
    assert_eq!((one, set), (entry.token_key.clone(), entry.user_key.clone()));
    assert_eq!(whitelist_lookup_key(&c), entry.token_key);
}

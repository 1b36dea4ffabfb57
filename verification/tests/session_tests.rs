use blades::login::{
    anonymous_session_response, new_anonymous_account, open_anonymous_session, LoginError,
};
use blades::matchmaking::{matchmaking_reaction, MatchmakingAction, MatchmakingEvent};
use blades::session::{push_str, Session, SessionStore};

fn parse_uuid(text: &str) -> Option<u128> {
    uuid::Uuid::parse_str(text).ok().map(|u| u.as_u128())
}

fn uuid_to_string(value: u128) -> String {
    uuid::Uuid::from_u128(value).to_string()
}

fn session(user: u128, expiry: u64) -> Session {
    Session { user_id: user, secret_user_id: user + 1000, extra_secret: 0x55, expire_unix_timestamp: expiry }
}

#[test]
fn session_expiry_is_nine_tenths_of_the_lifetime_ahead() {
    let s = Session::new(1, 2, 86400, Some((1000, 500_000_000)));
    assert_eq!(s.user_id, 1);
    assert_eq!(s.secret_user_id, 2);
    assert_eq!(s.expire_unix_timestamp, 78760);
    assert_eq!((s.extra_secret >> 76) & 0xf, 4);
    let early = Session::new(1, 2, 100, None);
    assert_eq!(early.expire_unix_timestamp, 90);
    let exact = Session::new(1, 2, 10, Some((5, 0)));
    assert_eq!(exact.expire_unix_timestamp, 14);
}

#[test]
fn token_joins_session_id_and_secret() {
    let s = Session {
        user_id: 1,
        secret_user_id: 2,
        extra_secret: 0x67e55044_10b1_426f_9247_bb680e5fe0c8,
        expire_unix_timestamp: 0,
    };
    let token = s.generate_token(0x3d336fe7_be60_46a1_b88b_540f3ad5efa2);
    assert_eq!(
        token,
        "3d336fe7-be60-46a1-b88b-540f3ad5efa2|67e55044-10b1-426f-9247-bb680e5fe0c8"
    );
    let (id, secret) = token.split_once('|').unwrap();
    assert_eq!(parse_uuid(id), Some(0x3d336fe7_be60_46a1_b88b_540f3ad5efa2));
    assert_eq!(parse_uuid(secret), Some(s.extra_secret));
}

#[test]
fn push_str_appends() {
    let mut s = String::from("a");
    push_str(&mut s, "bcé");
    assert_eq!(s, "abcé");
}

#[test]
fn session_ids_carry_time_and_random_bits() {
    let id = SessionStore::session_id_for(0x0000_0000_0001_0203, 0xffff_ffff_ffff_ffff);
    assert_eq!(id, 0x0000_0000_0001_0203_ffff_ffff_ffff_ffff);
    assert_eq!(SessionStore::extract_creation_secs(id), 0x0000_0000_0001_0203);
    for secs in [0u64, 1, 0x1000, 0x0fff, 12345 << 16, u64::MAX] {
        assert_eq!(SessionStore::extract_creation_secs(SessionStore::session_id_for(secs, 99)), secs);
    }
    assert_eq!(SessionStore::session_id_for(5, 7) & 0xffff_ffff_ffff_ffff, 7);
}

#[test]
fn session_ids_order_by_time() {
    let earlier = SessionStore::session_id_for(1 << 16, u64::MAX);
    let later = SessionStore::session_id_for(2 << 16, 0);
    assert!(earlier < later);
    let a = SessionStore::session_id_for(3, u64::MAX);
    let b = SessionStore::session_id_for(4, 0);
    assert!(a < b);
    let c = SessionStore::session_id_for(0x0fff, u64::MAX);
    let d = SessionStore::session_id_for(0x1000, 0);
    assert!(c < d);
}

#[test]
fn store_keeps_new_and_recent_sessions() {
    let mut store = SessionStore::new(86400);
    assert_eq!(store.ttl_secs, 86400);
    assert!(store.get(10).is_none());
    assert!(store.try_store_session(10, session(1, 5), 0));
    assert!(store.try_store_session(20, session(2, 6), 5));
    assert_eq!(store.get(10), Some(session(1, 5)));
    assert_eq!(store.get(20), Some(session(2, 6)));
    // a taken id changes nothing
    assert!(!store.try_store_session(20, session(3, 7), 0));
    assert_eq!(store.get(20), Some(session(2, 6)));
    assert_eq!(store.map.len(), 2);
}

#[test]
fn store_forgets_sessions_below_the_bound() {
    let mut store = SessionStore::new(60);
    for id in [1u128, 5, 9] {
        assert!(store.try_store_session(id, session(id, 0), 0));
    }
    assert!(store.try_store_session(7, session(7, 0), 6));
    assert!(store.get(1).is_none());
    assert!(store.get(5).is_none());
    assert_eq!(store.get(7), Some(session(7, 0)));
    assert_eq!(store.get(9), Some(session(9, 0)));
    // the new session itself goes when its id is below the bound
    assert!(store.try_store_session(8, session(8, 0), 100));
    assert!(store.map.is_empty());
}

#[test]
fn store_new_session_holds_the_new_session() {
    let mut store = SessionStore::new(86400);
    store.time_base = std::time::Instant::now() - std::time::Duration::from_secs(10);
    let old_id = SessionStore::session_id_for(5, 1);
    assert!(store.try_store_session(old_id, session(9, 0), 0));
    let id = store.store_new_session(session(1, 2)).unwrap();
    let secs = SessionStore::extract_creation_secs(id);
    assert!((10..20).contains(&secs));
    assert_eq!(store.get(id), Some(session(1, 2)));
    assert_eq!(store.map.len(), 2);
    assert_eq!(
        store.extract_creation_instant(id),
        Some(store.time_base + std::time::Duration::from_secs(secs))
    );
}

#[test]
fn get_uuid_for_instant_holds_elapsed_seconds() {
    let store = SessionStore::new(10);
    let later = store.time_base + std::time::Duration::from_secs(3);
    let id = store.get_uuid_for_instant(&later);
    assert_eq!(SessionStore::extract_creation_secs(id), 3);
    let much_later = store.time_base + std::time::Duration::from_millis(4096_900);
    let id = store.get_uuid_for_instant(&much_later);
    assert_eq!(SessionStore::extract_creation_secs(id), 4096);
    assert_eq!(
        store.extract_creation_instant(id),
        Some(store.time_base + std::time::Duration::from_secs(4096))
    );
}

#[test]
fn anonymous_account_only_for_google_play() {
    let (id, account) = new_anonymous_account("gp", "device-1".to_string()).unwrap();
    assert_eq!((id >> 76) & 0xf, 4);
    assert_eq!(account.gp_deviceids, vec!["device-1".to_string()]);
    assert_eq!((account.secret_id >> 76) & 0xf, 4);
    assert_ne!(account.secret_id, id);
    let err = new_anonymous_account("ios", "device-1".to_string()).err();
    assert_eq!(err, Some(LoginError::InvalidRequestDeviceId));
    assert_eq!(LoginError::InvalidRequestDeviceId.codes(), (400, 3, 3));
    assert!(new_anonymous_account("GP", "d".to_string()).is_err());
}

#[test]
fn anonymous_session_response_fields() {
    let s = Session {
        user_id: 1,
        secret_user_id: 0x67e55044_10b1_426f_9247_bb680e5fe0c8,
        extra_secret: 0x22,
        expire_unix_timestamp: 1234,
    };
    let r = anonymous_session_response(0x11, &s);
    assert_eq!(r.session.session_id, uuid_to_string(0x11));
    assert_eq!(r.session.user_id, "67e55044-10b1-426f-9247-bb680e5fe0c8");
    assert_eq!(r.session.token, s.generate_token(0x11));
    assert_eq!(r.session.schema, "blade_v1");
    assert_eq!(r.session.feature_status, 7);
    assert_eq!(r.session.linked_accounts_status, 4);
    assert_eq!(r.session.token_expiration_seconds, 1234);
    assert_eq!(r.session.denied_features.len(), 1);
    assert_eq!(r.session.denied_features[0].0, "e3_signup_bonus");
    assert_eq!(r.session.denied_features[0].1.deny_expired_secs, 0);
    assert_eq!(r.session.denied_features[0].1.deny_reason_code, 1);
}

#[test]
fn open_anonymous_session_stores_and_answers() {
    let mut store = SessionStore::new(86400);
    let (user_id, account) = new_anonymous_account("gp", "d".to_string()).unwrap();
    let response = open_anonymous_session(&mut store, user_id, &account, Some((1000, 0))).unwrap();
    let id = parse_uuid(&response.session.session_id).unwrap();
    assert_eq!(response.session.user_id, uuid_to_string(account.secret_id));
    assert_eq!(response.session.token_expiration_seconds, 1000 + 77760);
    assert!(response.session.token.starts_with(&response.session.session_id));
    if let Some(s) = store.get(id) {
        assert_eq!(s.user_id, user_id);
        assert_eq!(s.secret_user_id, account.secret_id);
        assert_eq!(s.expire_unix_timestamp, 78760);
        assert_eq!(response.session.token, s.generate_token(id));
    }
}

#[test]
fn token_opens_its_session() {
    let mut store = SessionStore::new(60);
    let s = session(4, 9);
    assert!(store.try_store_session(0x77, s, 0));
    let token = s.generate_token(0x77);
    assert_eq!(store.session_for_token(&token), Some(s));
    // a wrong secret, an unknown id or a malformed token open nothing
    let other = Session { extra_secret: 0x56, ..s };
    assert_eq!(store.session_for_token(&other.generate_token(0x77)), None);
    assert_eq!(store.session_for_token(&s.generate_token(0x78)), None);
    assert_eq!(store.session_for_token("no-bar-here"), None);
    assert_eq!(store.session_for_token("|"), None);
    assert_eq!(store.session_for_token(&format!("{}|", uuid_to_string(0x77))), None);
    // other UUID text forms are read as well
    let simple = format!("{:032x}|{:032x}", 0x77u128, 0x55u128);
    assert_eq!(store.session_for_token(&simple), Some(s));
}

#[test]
fn matchmaking_answers() {
    match matchmaking_reaction(MatchmakingEvent::Ping(vec![1, 2, 3])) {
        MatchmakingAction::Pong(p) => assert_eq!(p, vec![1, 2, 3]),
        other => panic!("unexpected {:?}", other),
    }
    match matchmaking_reaction(MatchmakingEvent::Idle) {
        MatchmakingAction::Ping(p) => assert!(p.is_empty()),
        other => panic!("unexpected {:?}", other),
    }
    assert!(matches!(matchmaking_reaction(MatchmakingEvent::OtherFrame), MatchmakingAction::Nothing));
}

#[test]
fn creation_instant_is_time_base_plus_held_seconds() {
    let store = SessionStore::new(10);
    let id = SessionStore::session_id_for(5, 0);
    assert_eq!(
        store.extract_creation_instant(id),
        Some(store.time_base + std::time::Duration::from_secs(5))
    );
}

#[test]
fn store_at_a_time_expires_by_the_lifetime() {
    let mut store = SessionStore::new(10);
    let old_id = SessionStore::session_id_for(50, 7);
    let young_id = SessionStore::session_id_for(95, 7);
    assert!(store.try_store_session(old_id, session(1, 0), 0));
    assert!(store.try_store_session(young_id, session(2, 0), 0));
    let now = store.time_base + std::time::Duration::from_secs(100);
    let id = store.store_new_session_at(session(3, 0), now).unwrap();
    assert_eq!(SessionStore::extract_creation_secs(id), 100);
    assert_eq!(store.get(id), Some(session(3, 0)));
    assert_eq!(store.get(young_id), Some(session(2, 0)));
    assert!(store.get(old_id).is_none());
    assert_eq!(store.map.len(), 2);
    let token = session(3, 0).generate_token(id);
    assert_eq!(store.session_for_token(&token), Some(session(3, 0)));
}

#[test]
fn store_refuses_when_the_clock_cannot_go_back_a_lifetime() {
    let mut store = SessionStore::new(u64::MAX);
    assert!(store.try_store_session(1, session(1, 0), 0));
    let now = std::time::Instant::now();
    assert_eq!(store.store_new_session_at(session(2, 0), now), None);
    assert_eq!(store.map.len(), 1);
    assert_eq!(store.get(1), Some(session(1, 0)));
}

#[test]
fn store_expires_exactly_one_lifetime_back() {
    // 9240 s after the time base, a lifetime of 5400 s: the cutoff is at 3840 s
    let mut store = SessionStore::new(5400);
    let older = SessionStore::session_id_for(3839, u64::MAX);
    let younger = SessionStore::session_id_for(3841, 0);
    let much_older = SessionStore::session_id_for(0x11800 - 0x11000, 3);
    assert!(store.try_store_session(older, session(1, 0), 0));
    assert!(store.try_store_session(younger, session(2, 0), 0));
    assert!(store.try_store_session(much_older, session(3, 0), 0));
    let now = store.time_base + std::time::Duration::from_secs(9240);
    let id = store.store_new_session_at(session(4, 0), now).unwrap();
    assert_eq!(SessionStore::extract_creation_secs(id), 9240);
    assert_eq!(store.get(id), Some(session(4, 0)));
    assert_eq!(store.get(younger), Some(session(2, 0)));
    assert!(store.get(older).is_none());
    assert!(store.get(much_older).is_none());
}

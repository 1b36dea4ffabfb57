//! Anonymous log-in: the account made for a new device, and the session
//! the client is given.

use crate::saved_data::UserAccount;
use crate::session::{
    lemma_stored_session_is_held, new_session_stored, session_expiry, session_of_token,
    spec_elapsed_secs, store_refused_at, Session, SessionStore,
};
use std::time::Instant;
use crate::text::{has_version_and_variant, hyphenated_text, new_random_uuid, uuid_to_string};
use vstd::prelude::*;

verus! {

broadcast use vstd::string::group_string_axioms;

/// Why a log-in is refused.
#[derive(Clone, Copy, Debug, PartialEq, Eq, Structural)]
pub enum LoginError {
    /// The device is not of a platform that accounts can be made for
    /// (HTTP 400, service 3, error 3).
    InvalidRequestDeviceId,
}

impl LoginError {
    /// The HTTP status, service code and error code the client is sent.
    pub fn codes(&self) -> (r: (u16, u64, u64))
        ensures
            r == (400u16, 3u64, 3u64),
    {
        match self {
            LoginError::InvalidRequestDeviceId => (400, 3, 3),
        }
    }
}

/// A feature the client may not use yet.
#[derive(Clone, Copy, Debug, PartialEq, Eq, Structural)]
pub struct DeniedFeatureResponse {
    pub deny_expired_secs: u64,
    pub deny_reason_code: u64,
}

/// The session part of the log-in answer. `denied_features` pairs each
/// feature's name with why it is denied.
#[derive(Debug)]
pub struct SessionResponseInner {
    pub session_id: String,
    pub user_id: String,
    pub token: String,
    pub schema: String,
    pub feature_status: u64,
    pub linked_accounts_status: u64,
    pub token_expiration_seconds: u64,
    pub denied_features: Vec<(String, DeniedFeatureResponse)>,
}

/// The log-in answer.
#[derive(Debug)]
pub struct SessionResponse {
    pub session: SessionResponseInner,
}

/// The account made when a device logs in for the first time, with the id
/// of its row: a new account that knows the device, when the device is of
/// the Google Play platform (`"gp"`).
pub fn new_anonymous_account(platform: &str, device_id: String) -> (r: Result<
    (u128, UserAccount),
    LoginError,
>)
    ensures
        r is Ok <==> platform@ == "gp"@,
        r is Err ==> r == Err::<(u128, UserAccount), LoginError>(
            LoginError::InvalidRequestDeviceId,
        ),
        r matches Ok((id, account)) ==> {
            &&& has_version_and_variant(id, 4)
            &&& account.well_formed()
            &&& account.gp_deviceids@.map_values(|s: String| s@) == seq![device_id@]
            &&& has_version_and_variant(account.secret_id, 4)
        },
{
    let mut account = UserAccount::create_new_user();
    let gp = "gp".to_string();
    let given = platform.to_string();
    if given != gp {
        return Err(LoginError::InvalidRequestDeviceId);
    }
    let ghost d = device_id@;
    account.gp_deviceids.push(device_id);
    assert(account.gp_deviceids@.map_values(|s: String| s@) =~= seq![d]);
    let id = new_random_uuid();
    Ok((id, account))
}

/// Whether `r` is the answer to a log-in for `session`, stored under
/// `session_id`: the two ids as text, the token `session-id|extra-secret`,
/// the schema `blade_v1`, feature status 7, linked-accounts status 4, the
/// session's expiry, and the one denied feature `e3_signup_bonus` (expired
/// 0 seconds, reason 1).
pub open spec fn is_anonymous_session_response(r: SessionResponse, session_id: u128, session: Session) -> bool {
    &&& r.session.session_id@ == hyphenated_text(session_id)
    &&& r.session.user_id@ == hyphenated_text(session.secret_user_id)
    &&& r.session.token@ == hyphenated_text(session_id) + seq!['|'] + hyphenated_text(
        session.extra_secret,
    )
    &&& r.session.schema@ == "blade_v1"@
    &&& r.session.feature_status == 7
    &&& r.session.linked_accounts_status == 4
    &&& r.session.token_expiration_seconds == session.expire_unix_timestamp
    &&& r.session.denied_features@.len() == 1
    &&& r.session.denied_features@[0].0@ == "e3_signup_bonus"@
    &&& r.session.denied_features@[0].1 == DeniedFeatureResponse {
        deny_expired_secs: 0,
        deny_reason_code: 1,
    }
}

/// The session part of the answer to a log-in, for a session stored under
/// `session_id`.
pub fn anonymous_session_response(session_id: u128, session: &Session) -> (r: SessionResponse)
    ensures
        is_anonymous_session_response(r, session_id, *session),
        r.session.schema@ == "blade_v1"@,
        r.session.feature_status == 7 && r.session.linked_accounts_status == 4,
        r.session.token_expiration_seconds == session.expire_unix_timestamp,
        r.session.denied_features@.len() == 1,
        r.session.denied_features@[0].0@ == "e3_signup_bonus"@,
        r.session.denied_features@[0].1.deny_expired_secs == 0,
        r.session.denied_features@[0].1.deny_reason_code == 1,
{
    let mut denied_features: Vec<(String, DeniedFeatureResponse)> = Vec::new();
    denied_features.push(
        (
            "e3_signup_bonus".to_string(),
            DeniedFeatureResponse { deny_expired_secs: 0, deny_reason_code: 1 },
        ),
    );
    SessionResponse {
        session: SessionResponseInner {
            session_id: uuid_to_string(session_id),
            user_id: uuid_to_string(session.secret_user_id),
            token: session.generate_token(session_id),
            schema: "blade_v1".to_string(),
            feature_status: 7,
            linked_accounts_status: 4,
            token_expiration_seconds: session.expire_unix_timestamp,
            denied_features,
        },
    }
}

/// The session opened for the user `user_id`, told the id `secret_user_id`,
/// with the random `extra_secret`, at `now_since_epoch`, in a store whose
/// sessions live `ttl_secs` seconds.
pub open spec fn opened_session_value(
    user_id: u128,
    secret_user_id: u128,
    extra_secret: u128,
    now_since_epoch: Option<(u64, u32)>,
    ttl_secs: u64,
) -> Session {
    Session {
        user_id,
        secret_user_id,
        extra_secret,
        expire_unix_timestamp: session_expiry(now_since_epoch, ttl_secs) as u64,
    }
}

/// Whether, at the time `now`, `session` was stored under `id` (see
/// `new_session_stored`) and `response` tells the client that session.
pub open spec fn opened_session(
    before: Map<u128, Session>,
    after: Map<u128, Session>,
    time_base: Instant,
    ttl_secs: u64,
    now: Instant,
    id: u128,
    session: Session,
    response: SessionResponse,
) -> bool {
    &&& new_session_stored(before, after, time_base, ttl_secs, now, session, Some(id))
    &&& has_version_and_variant(session.extra_secret, 4)
    &&& is_anonymous_session_response(response, id, session)
}

/// The token of an anonymous log-in opens the session it stored, when the
/// lifetime is at least a second and the log-in came at least a second
/// after the store's time base.
pub proof fn lemma_login_token_opens_session(
    before: Map<u128, Session>,
    after: Map<u128, Session>,
    time_base: Instant,
    ttl_secs: u64,
    now: Instant,
    id: u128,
    session: Session,
    response: SessionResponse,
)
    requires
        opened_session(before, after, time_base, ttl_secs, now, id, session, response),
        ttl_secs >= 1,
        spec_elapsed_secs(time_base, now) >= 1,
    ensures
        after.contains_key(id),
        after[id] == session,
        session_of_token(after, response.session.token@) == Some(session),
{
    lemma_stored_session_is_held(before, after, time_base, ttl_secs, now, session, id);
}

/// Whether `after` is the store `before` (time base `time_base`, lifetime
/// `ttl_secs`) with a new session of the user `user_id`, told the id
/// `secret_user_id`, opened at `now_since_epoch` and stored at some time,
/// and `response` tells the client that session.
pub open spec fn session_opened_for(
    before: Map<u128, Session>,
    after: Map<u128, Session>,
    time_base: Instant,
    ttl_secs: u64,
    user_id: u128,
    secret_user_id: u128,
    now_since_epoch: Option<(u64, u32)>,
    response: SessionResponse,
) -> bool {
    exists|now: Instant, id: u128, extra: u128|
        #[trigger] opened_session(
            before,
            after,
            time_base,
            ttl_secs,
            now,
            id,
            opened_session_value(user_id, secret_user_id, extra, now_since_epoch, ttl_secs),
            response,
        )
}

/// Opens a session for the user `user_id` of the account `account`, made at
/// `now_since_epoch` (seconds and nanoseconds since the Unix epoch, none
/// when the clock reads before it): the session is stored under a fresh id
/// for the current time (see `SessionStore::store_new_session_at`) and the
/// client is answered with it. `None`, with nothing stored, when the clock
/// cannot go back one lifetime or no free id was found.
pub fn open_anonymous_session(
    store: &mut SessionStore,
    user_id: u128,
    account: &UserAccount,
    now_since_epoch: Option<(u64, u32)>,
) -> (r: Option<SessionResponse>)
    requires
        now_since_epoch matches Some((secs, nanos)) ==> nanos < 1_000_000_000 && secs
            + old(store).ttl_secs <= u64::MAX,
    ensures
        r is None ==> exists|now: Instant|
            #[trigger] store_refused_at(
                old(store).map@,
                final(store).map@,
                old(store).time_base,
                old(store).ttl_secs,
                now,
            ),
        r matches Some(response) ==> session_opened_for(
            old(store).map@,
            final(store).map@,
            old(store).time_base,
            old(store).ttl_secs,
            user_id,
            account.secret_id,
            now_since_epoch,
            response,
        ),
        final(store).ttl_secs == old(store).ttl_secs,
        final(store).time_base == old(store).time_base,
{
    let session = Session::new(user_id, account.secret_id, store.ttl_secs, now_since_epoch);
    let stored = store.store_new_session(session);
    let ghost now = choose|now: Instant|
        #[trigger] new_session_stored(
            old(store).map@,
            store.map@,
            old(store).time_base,
            old(store).ttl_secs,
            now,
            session,
            stored,
        );
    match stored {
        None => {
            assert(store_refused_at(
                old(store).map@,
                store.map@,
                old(store).time_base,
                old(store).ttl_secs,
                now,
            ));
            None
        },
        Some(id) => {
            let response = anonymous_session_response(id, &session);
            proof {
                let value = opened_session_value(
                    user_id,
                    account.secret_id,
                    session.extra_secret,
                    now_since_epoch,
                    old(store).ttl_secs,
                );
                assert(value == session);
                assert(opened_session(
                    old(store).map@,
                    store.map@,
                    old(store).time_base,
                    old(store).ttl_secs,
                    now,
                    id,
                    value,
                    response,
                ));
            }
            Some(response)
        },
    }
}

} // verus!

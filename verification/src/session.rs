//! Player sessions: their expiry and token, and the store that hands out
//! session ids and forgets old sessions.
//!
//! A session id is a UUID whose high 64 bits hold the whole seconds since
//! the store's time base, big-endian, and whose low 64 bits are random, so
//! that ids sort by the time they were made.

use crate::database::ExInstant;
use crate::text::{
    chars_of, has_version_and_variant, hyphenated_text, lemma_hyphenated_chars,
    lemma_uuid_text_roundtrip, new_random_uuid, parse_uuid, string_of_range, string_push,
    uuid_text_value, uuid_to_string,
};
use std::collections::BTreeMap;
use std::time::Instant;
use vstd::prelude::*;
use vstd::std_specs::iter::IteratorSpec;
use crate::{keys_seen, lemma_iteration_keys, lemma_keys_seen_any_step};

verus! {

broadcast use {vstd::std_specs::btree::group_btree_axioms, vstd::laws_cmp::group_laws_cmp};

/// A logged-in player.
#[derive(Clone, Copy, Debug, PartialEq, Eq, Structural)]
pub struct Session {
    pub user_id: u128,
    pub secret_user_id: u128,
    /// A random UUID (version 4) that makes the token hard to guess.
    pub extra_secret: u128,
    pub expire_unix_timestamp: u64,
}

/// The expiry time, in seconds since the Unix epoch, of a session made at
/// `now` (seconds and nanoseconds since the epoch; none when the clock
/// reads before the epoch) with a lifetime of `ttl_secs` seconds: nine
/// tenths of the lifetime after `now`, rounded down to the second.
pub open spec fn session_expiry(now: Option<(u64, u32)>, ttl_secs: u64) -> int {
    match now {
        Some((secs, nanos)) => (secs * 1_000_000_000 + nanos + ttl_secs * 900_000_000)
            / 1_000_000_000,
        None => (ttl_secs * 900_000_000) / 1_000_000_000,
    }
}

/// A session expires nine tenths of its lifetime after it was made, to the
/// second: no earlier, and less than a second later.
pub proof fn lemma_expiry_is_nine_tenths_later(now: Option<(u64, u32)>, ttl_secs: u64)
    requires
        now matches Some((secs, nanos)) ==> nanos < 1_000_000_000,
    ensures
        now matches Some((secs, nanos)) ==> secs + ttl_secs * 9 / 10 <= session_expiry(now, ttl_secs)
            <= secs + ttl_secs * 9 / 10 + 1,
        now is None ==> session_expiry(now, ttl_secs) == ttl_secs * 9 / 10,
{
    let t = ttl_secs as int;
    assert((t * 900_000_000) / 1_000_000_000 == t * 9 / 10) by (nonlinear_arith);
    match now {
        Some((secs, nanos)) => {
            let s = secs as int;
            let n = nanos as int;
            assert(s + t * 9 / 10 <= (s * 1_000_000_000 + n + t * 900_000_000) / 1_000_000_000
                <= s + t * 9 / 10 + 1) by (nonlinear_arith)
                requires
                    0 <= n < 1_000_000_000,
                    0 <= t,
                    (t * 900_000_000) / 1_000_000_000 == t * 9 / 10,
            ;
        },
        None => {},
    }
}

/// Appends the characters of `s` to `out`.
pub fn push_str(out: &mut String, s: &str)
    ensures
        final(out)@ == old(out)@ + s@,
{
    let v = chars_of(s);
    let mut k: usize = 0;
    while k < v.len()
        invariant
            k <= v.len(),
            v@ == s@,
            out@ == old(out)@ + v@.take(k as int),
        decreases v.len() - k,
    {
        string_push(out, v[k]);
        assert(v@.take(k + 1) =~= v@.take(k as int).push(v@[k as int]));
        k = k + 1;
    }
    assert(v@.take(k as int) =~= v@);
}

impl Session {
    /// A session for a user, made at the time `now_since_epoch` (seconds and
    /// nanoseconds since the Unix epoch, none when the clock reads before
    /// it), that lives `ttl_secs` seconds; the expiry told to the client is
    /// a tenth of the lifetime earlier.
    pub fn new(
        user_id: u128,
        secret_user_id: u128,
        ttl_secs: u64,
        now_since_epoch: Option<(u64, u32)>,
    ) -> (r: Self)
        requires
            now_since_epoch matches Some((secs, nanos)) ==> nanos < 1_000_000_000 && secs
                + ttl_secs <= u64::MAX,
        ensures
            r.user_id == user_id,
            r.secret_user_id == secret_user_id,
            r.expire_unix_timestamp == session_expiry(now_since_epoch, ttl_secs),
            now_since_epoch matches Some((secs, nanos)) ==> secs + ttl_secs * 9 / 10
                <= r.expire_unix_timestamp <= secs + ttl_secs * 9 / 10 + 1,
            now_since_epoch is None ==> r.expire_unix_timestamp == ttl_secs * 9 / 10,
            has_version_and_variant(r.extra_secret, 4),
    {
        proof {
            lemma_expiry_is_nine_tenths_later(now_since_epoch, ttl_secs);
        }
        let expire_unix_timestamp = match now_since_epoch {
            Some((secs, nanos)) => {
                let total: u128 = (secs as u128) * 1_000_000_000 + (nanos as u128) + (ttl_secs as u128)
                    * 900_000_000;
                assert(total / 1_000_000_000 <= secs + ttl_secs);
                (total / 1_000_000_000) as u64
            },
            None => {
                let total: u128 = (ttl_secs as u128) * 900_000_000;
                (total / 1_000_000_000) as u64
            },
        };
        Self { user_id, secret_user_id, expire_unix_timestamp, extra_secret: new_random_uuid() }
    }

    /// The token of this session under the id `session_id`:
    /// `session-id|extra-secret`.
    pub fn generate_token(&self, session_id: u128) -> (r: String)
        ensures
            r@ == hyphenated_text(session_id) + seq!['|'] + hyphenated_text(self.extra_secret),
    {
        let mut token = uuid_to_string(session_id);
        string_push(&mut token, '|');
        let secret = uuid_to_string(self.extra_secret);
        push_str(&mut token, secret.as_str());
        token
    }
}

/// The session id made of `elapsed_secs` and the random bits `random`: the
/// seconds in the high 64 bits, the random bits in the low 64 bits.
pub open spec fn spec_session_id(elapsed_secs: u64, random: u64) -> u128 {
    (((elapsed_secs as u128) << 64u128) | (random as u128)) as u128
}

/// Eight random bytes read big-endian (`rand::random::<[u8; 8]>()`).
///
/// Nothing is claimed of the value: it is random.
#[verifier::external_body]
fn random_bits() -> (r: u64) {
    u64::from_be_bytes(rand::random::<[u8; 8]>())
}

/// The whole seconds from `base` to `t`, zero when `t` is before `base`:
/// what `Instant::duration_since` then `Duration::as_secs` give, a function
/// of the two instants alone.
pub uninterp spec fn spec_elapsed_secs(base: Instant, t: Instant) -> u64;

/// Whole seconds from `base` to `t` (`Instant::duration_since`, which
/// gives zero when `t` is before `base`).
///
/// Claimed of the outside code: the result is `spec_elapsed_secs` of the
/// two instants (it depends on nothing else). Its value is left unsaid:
/// `Instant` is opaque here.
#[verifier::external_body]
fn elapsed_secs(base: &Instant, t: &Instant) -> (secs: u64)
    ensures
        secs == spec_elapsed_secs(*base, *t),
{
    t.duration_since(*base).as_secs()
}

/// The instant `secs` seconds after `base`, or none when the clock cannot
/// represent it: what `Instant::checked_add` gives, a function of its two
/// arguments alone.
pub uninterp spec fn instant_plus_secs(base: Instant, secs: u64) -> Option<Instant>;

/// `base` plus `secs` seconds, when the clock can represent it
/// (`Instant::checked_add` with `Duration::from_secs`).
///
/// Claimed of the outside code: the result is `instant_plus_secs` of the
/// two arguments (the sum depends on nothing else). Which sums overflow is
/// left unsaid: `Instant` is opaque here.
#[verifier::external_body]
fn instant_after(base: &Instant, secs: u64) -> (t: Option<Instant>)
    ensures
        t == instant_plus_secs(*base, secs),
{
    base.checked_add(std::time::Duration::from_secs(secs))
}

/// The instant `secs` seconds before `t`, or none when the clock cannot
/// represent it: what `Instant::checked_sub` gives, a function of its two
/// arguments alone.
pub uninterp spec fn spec_instant_before(t: Instant, secs: u64) -> Option<Instant>;

/// `t` less `secs` seconds, when the clock can represent it
/// (`Instant::checked_sub` with `Duration::from_secs`).
///
/// Claimed of the outside code: the result is `spec_instant_before` of the
/// two arguments (it depends on nothing else); and, as `checked_sub` gives
/// exactly `t - secs` and `duration_since` gives the exact distance, or zero
/// for a later base, the whole seconds from any base to the result are
/// zero or those to `t` less `secs`. Which differences the clock cannot
/// represent is left unsaid: `Instant` is opaque here.
#[verifier::external_body]
fn instant_before(t: &Instant, secs: u64) -> (r: Option<Instant>)
    ensures
        r == spec_instant_before(*t, secs),
        r matches Some(c) ==> forall|base: Instant|
            #[trigger] spec_elapsed_secs(base, c) == 0 || spec_elapsed_secs(base, c) + secs
                == spec_elapsed_secs(base, *t),
{
    t.checked_sub(std::time::Duration::from_secs(secs))
}

/// The seconds since the store's time base that a session id holds.
pub open spec fn creation_secs(id: u128) -> u64 {
    (id >> 64u128) as u64
}

/// The sessions that remain after storing `session` under `id` and dropping
/// every session whose id is below `clear_before`.
pub open spec fn stored_and_expired(
    sessions: Map<u128, Session>,
    id: u128,
    session: Session,
    clear_before: u128,
) -> Map<u128, Session> {
    sessions.insert(id, session).restrict(Set::new(|k: u128| k >= clear_before))
}

/// Whether `i` is the position of the first `|` of `t`.
pub open spec fn is_first_bar(t: Seq<char>, i: int) -> bool {
    &&& 0 <= i < t.len()
    &&& t[i] == '|'
    &&& forall|j: int| 0 <= j < i ==> t[j] != '|'
}

/// The session id and extra secret that a token names: the UUID texts
/// before and after its first `|`.
pub open spec fn token_parts(t: Seq<char>) -> Option<(u128, u128)> {
    if exists|i: int| is_first_bar(t, i) {
        let i = choose|i: int| is_first_bar(t, i);
        match (uuid_text_value(t.take(i)), uuid_text_value(t.skip(i + 1))) {
            (Some(id), Some(secret)) => Some((id, secret)),
            _ => None,
        }
    } else {
        None
    }
}

/// The session of `sessions` that the token `t` opens: the one stored under
/// the token's session id, when its extra secret is the token's.
pub open spec fn session_of_token(sessions: Map<u128, Session>, t: Seq<char>) -> Option<Session> {
    match token_parts(t) {
        Some((id, secret)) => if sessions.contains_key(id) && sessions[id].extra_secret == secret {
            Some(sessions[id])
        } else {
            None
        },
        None => None,
    }
}

proof fn lemma_first_bar_unique(t: Seq<char>, i: int, k: int)
    requires
        is_first_bar(t, i),
        is_first_bar(t, k),
    ensures
        i == k,
{
    if i < k {
        assert(t[i] != '|');
    } else if k < i {
        assert(t[k] != '|');
    }
}

/// Tokens open their sessions: the token of a stored session, under the id
/// it is stored under, names that session.
pub proof fn lemma_token_opens_its_session(sessions: Map<u128, Session>, id: u128)
    requires
        sessions.contains_key(id),
    ensures
        session_of_token(
            sessions,
            hyphenated_text(id) + seq!['|'] + hyphenated_text(sessions[id].extra_secret),
        ) == Some(sessions[id]),
{
    let secret = sessions[id].extra_secret;
    let a = hyphenated_text(id);
    let b = hyphenated_text(secret);
    let t = a + seq!['|'] + b;
    lemma_hyphenated_chars(id);
    lemma_uuid_text_roundtrip(id);
    lemma_uuid_text_roundtrip(secret);
    crate::text::lemma_hyphenated_text(id);
    assert forall|j: int| 0 <= j < 36 implies t[j] != '|' by {
        assert(t[j] == a[j]);
        assert(a[j] == '-' || crate::text::is_hex_digit(a[j]));
    }
    assert(is_first_bar(t, 36));
    let i = choose|i: int| is_first_bar(t, i);
    lemma_first_bar_unique(t, i, 36);
    assert(t.take(36) =~= a);
    assert(t.skip(37) =~= b);
}

/// Whether every one of some `u64::MAX + 1` ids made of `secs` and random
/// bits was taken in `sessions`.
pub open spec fn ids_exhausted(sessions: Map<u128, Session>, secs: u64) -> bool {
    exists|drawn: Seq<u64>|
        #![trigger drawn.len()]
        drawn.len() == u64::MAX + 1 && forall|i: int|
            0 <= i < drawn.len() ==> #[trigger] sessions.contains_key(spec_session_id(secs, drawn[i]))
}

/// The seconds of the expiry cutoff of a store with time base `time_base`
/// and lifetime `ttl_secs`, at `now`.
pub open spec fn cutoff_secs(time_base: Instant, ttl_secs: u64, now: Instant) -> u64 {
    spec_elapsed_secs(time_base, spec_instant_before(now, ttl_secs).unwrap())
}

/// Whether the cutoff's seconds are those of `now` less the lifetime, or
/// zero (when that time is before the time base).
pub open spec fn cutoff_is_lifetime_back(time_base: Instant, ttl_secs: u64, now: Instant) -> bool {
    cutoff_secs(time_base, ttl_secs, now) == 0 || cutoff_secs(time_base, ttl_secs, now) + ttl_secs
        == spec_elapsed_secs(time_base, now)
}

/// `new_session_stored` for a stored id, from its parts: the id drawn with
/// the random bits `r_id`, and the cutoff drawn with the random bits `r_cut`.
proof fn lemma_new_session_stored_from_parts(
    before: Map<u128, Session>,
    after: Map<u128, Session>,
    time_base: Instant,
    ttl_secs: u64,
    now: Instant,
    session: Session,
    id: u128,
    r_id: u64,
    r_cut: u64,
)
    requires
        spec_instant_before(now, ttl_secs) is Some,
        cutoff_is_lifetime_back(time_base, ttl_secs, now),
        !before.contains_key(id),
        id == spec_session_id(spec_elapsed_secs(time_base, now), r_id),
        after == stored_and_expired(
            before,
            id,
            session,
            spec_session_id(cutoff_secs(time_base, ttl_secs, now), r_cut),
        ),
    ensures
        new_session_stored(before, after, time_base, ttl_secs, now, session, Some(id)),
{
    let e_now = spec_elapsed_secs(time_base, now);
    let e_cut = spec_elapsed_secs(time_base, spec_instant_before(now, ttl_secs).unwrap());
    assert(id == spec_session_id(e_now, r_id));
    assert(exists|rnd: u64| id == spec_session_id(e_now, rnd));
    assert(after == stored_and_expired(before, id, session, spec_session_id(e_cut, r_cut)));
    assert(exists|rnd: u64|
        after == #[trigger] stored_and_expired(before, id, session, spec_session_id(e_cut, rnd)));
}

/// Whether storing at the time `now` stored nothing, as it does when the
/// clock cannot go back one lifetime from `now` or every id drawn was
/// taken.
pub open spec fn store_refused_at(
    before: Map<u128, Session>,
    after: Map<u128, Session>,
    time_base: Instant,
    ttl_secs: u64,
    now: Instant,
) -> bool {
    &&& after == before
    &&& (spec_instant_before(now, ttl_secs) is None || ids_exhausted(
        before,
        spec_elapsed_secs(time_base, now),
    ))
}

/// What storing `session` at the time `now` in a store with time base
/// `time_base` and lifetime `ttl_secs` does, when it gives `r`.
///
/// With `Some(id)`: the clock could go back one lifetime from `now`; `id`
/// was free, and is made of the seconds from the time base to `now`; the
/// sessions kept are `before` with `session` under `id`, less those whose
/// id is below the cutoff, an id made of the seconds from the time base to
/// `now` less the lifetime. With `None`: nothing changed, and either the
/// clock could not go back one lifetime or every id drawn was taken.
pub open spec fn new_session_stored(
    before: Map<u128, Session>,
    after: Map<u128, Session>,
    time_base: Instant,
    ttl_secs: u64,
    now: Instant,
    session: Session,
    r: Option<u128>,
) -> bool {
    match r {
        None => store_refused_at(before, after, time_base, ttl_secs, now),
        Some(id) => {
            &&& spec_instant_before(now, ttl_secs) is Some
            &&& cutoff_is_lifetime_back(time_base, ttl_secs, now)
            &&& !before.contains_key(id)
            &&& exists|rnd: u64| id == spec_session_id(spec_elapsed_secs(time_base, now), rnd)
            &&& exists|rnd: u64|
                after == #[trigger] stored_and_expired(
                    before,
                    id,
                    session,
                    spec_session_id(
                        spec_elapsed_secs(time_base, spec_instant_before(now, ttl_secs).unwrap()),
                        rnd,
                    ),
                )
        },
    }
}

/// The store of open sessions, ordered by id. `ttl_secs` is the lifetime of
/// a session; it should be at least an hour and a half, the grace that
/// `Session::new` takes off the expiry it tells the client.
#[derive(Debug)]
pub struct SessionStore {
    pub map: BTreeMap<u128, Session>,
    pub ttl_secs: u64,
    pub time_base: Instant,
}

impl SessionStore {
    /// An empty store whose time base is now.
    pub fn new(ttl_secs: u64) -> (r: Self)
        ensures
            r.map@ == Map::<u128, Session>::empty(),
            r.ttl_secs == ttl_secs,
    {
        Self { map: BTreeMap::new(), ttl_secs, time_base: crate::database::instant_now() }
    }

    /// The session id made of `elapsed_secs` since the time base and the
    /// random bits `random`.
    pub fn session_id_for(elapsed_secs: u64, random: u64) -> (id: u128)
        ensures
            id == spec_session_id(elapsed_secs, random),
    {
        ((elapsed_secs as u128) << 64u128) | (random as u128)
    }

    /// A fresh session id for the time `future_instant`: its seconds since
    /// the time base, and random bits. It may, very rarely, be taken
    /// already; then another one is to be asked for.
    pub fn get_uuid_for_instant(&self, future_instant: &Instant) -> (id: u128)
        ensures
            exists|r: u64| id == spec_session_id(spec_elapsed_secs(self.time_base, *future_instant), r),
    {
        let secs = elapsed_secs(&self.time_base, future_instant);
        let random = random_bits();
        Self::session_id_for(secs, random)
    }

    /// The seconds since the time base that the session id `uuid` holds.
    pub fn extract_creation_secs(uuid: u128) -> (secs: u64)
        ensures
            secs == creation_secs(uuid),
    {
        (uuid >> 64u128) as u64
    }

    /// The time that the session id `uuid` holds: the time base plus the
    /// seconds of its high half, the seconds the id was made of (see
    /// `lemma_creation_secs_of_session_id`).
    pub fn extract_creation_instant(&self, uuid: u128) -> (r: Option<Instant>)
        ensures
            r == instant_plus_secs(self.time_base, creation_secs(uuid)),
    {
        instant_after(&self.time_base, Self::extract_creation_secs(uuid))
    }

    /// The session stored under `session_id`.
    pub fn get(&self, session_id: u128) -> (r: Option<Session>)
        ensures
            r == (if self.map@.contains_key(session_id) {
                Some(self.map@[session_id])
            } else {
                None
            }),
    {
        match self.map.get(&session_id) {
            Some(s) => Some(*s),
            None => None,
        }
    }

    /// The session that the token `token` (`session-id|extra-secret`)
    /// opens, if any.
    pub fn session_for_token(&self, token: &str) -> (r: Option<Session>)
        ensures
            r == session_of_token(self.map@, token@),
    {
        let v = chars_of(token);
        let mut i: usize = 0;
        while i < v.len() && v[i] != '|'
            invariant
                i <= v.len(),
                v@ == token@,
                forall|j: int| 0 <= j < i ==> v@[j] != '|',
            decreases v.len() - i,
        {
            i = i + 1;
        }
        if i == v.len() {
            assert(!exists|k: int| is_first_bar(token@, k));
            return None;
        }
        proof {
            assert(is_first_bar(token@, i as int));
            let k = choose|k: int| is_first_bar(token@, k);
            lemma_first_bar_unique(token@, k, i as int);
            assert(v@.subrange(0, i as int) =~= token@.take(i as int));
            assert(v@.subrange(i + 1, v@.len() as int) =~= token@.skip(i + 1));
        }
        let id_text = string_of_range(&v, 0, i);
        let secret_text = string_of_range(&v, i + 1, v.len());
        let id = match parse_uuid(id_text.as_str()) {
            Some(id) => id,
            None => {
                return None;
            },
        };
        let secret = match parse_uuid(secret_text.as_str()) {
            Some(secret) => secret,
            None => {
                return None;
            },
        };
        match self.map.get(&id) {
            Some(s) => if s.extra_secret == secret {
                Some(*s)
            } else {
                None
            },
            None => None,
        }
    }

    /// Stores `session` under a fresh session id for the current time and
    /// forgets the sessions older than the lifetime; gives the id. See
    /// `store_new_session_at`, which this calls with the current time.
    pub fn store_new_session(&mut self, session: Session) -> (r: Option<u128>)
        ensures
            exists|now: Instant|
                #[trigger] new_session_stored(
                    old(self).map@,
                    final(self).map@,
                    old(self).time_base,
                    old(self).ttl_secs,
                    now,
                    session,
                    r,
                ),
            final(self).ttl_secs == old(self).ttl_secs,
            final(self).time_base == old(self).time_base,
    {
        let now = crate::database::instant_now();
        self.store_new_session_at(session, now)
    }

    /// Stores `session` under a fresh session id for the time `now` and
    /// forgets the sessions older than the lifetime; gives the id.
    ///
    /// The id is made of the seconds from the time base to `now` and random
    /// bits; a taken id is replaced by another one with new random bits.
    /// The sessions forgotten are those whose id is below an id made, with
    /// random bits, of the seconds from the time base to `now` less the
    /// lifetime. Nothing is stored, and the result is `None`, when the clock
    /// cannot go back one lifetime from `now`, or when `u64::MAX + 1` ids
    /// drawn in a row were all taken.
    #[verifier::rlimit(40)]
    pub fn store_new_session_at(&mut self, session: Session, now: Instant) -> (r: Option<u128>)
        ensures
            new_session_stored(
                old(self).map@,
                final(self).map@,
                old(self).time_base,
                old(self).ttl_secs,
                now,
                session,
                r,
            ),
            final(self).ttl_secs == old(self).ttl_secs,
            final(self).time_base == old(self).time_base,
    {
        let clear_instant = match instant_before(&now, self.ttl_secs) {
            Some(t) => t,
            None => {
                return None;
            },
        };
        let clear_before = self.get_uuid_for_instant(&clear_instant);
        let secs = elapsed_secs(&self.time_base, &now);
        let ghost cut_secs = spec_elapsed_secs(self.time_base, clear_instant);
        let ghost mut drawn: Seq<u64> = Seq::empty();
        assert(cut_secs == 0 || cut_secs + self.ttl_secs == secs);
        let mut tries: u64 = 0;
        loop
            invariant
                self.map@ == old(self).map@,
                self.ttl_secs == old(self).ttl_secs,
                self.time_base == old(self).time_base,
                spec_instant_before(now, self.ttl_secs) == Some(clear_instant),
                cut_secs == spec_elapsed_secs(self.time_base, clear_instant),
                secs == spec_elapsed_secs(self.time_base, now),
                cut_secs == 0 || cut_secs + self.ttl_secs == secs,
                exists|rnd: u64| clear_before == spec_session_id(cut_secs, rnd),
                drawn.len() == tries,
                forall|i: int|
                    0 <= i < drawn.len() ==> #[trigger] old(self).map@.contains_key(
                        spec_session_id(secs, drawn[i]),
                    ),
            decreases u64::MAX - tries,
        {
            let random = random_bits();
            let id = Self::session_id_for(secs, random);
            if self.try_store_session(id, session, clear_before) {
                proof {
                    let rnd = choose|rnd: u64| clear_before == spec_session_id(cut_secs, rnd);
                    lemma_new_session_stored_from_parts(
                        old(self).map@,
                        self.map@,
                        old(self).time_base,
                        old(self).ttl_secs,
                        now,
                        session,
                        id,
                        random,
                        rnd,
                    );
                }
                return Some(id);
            }
            proof {
                drawn = drawn.push(random);
            }
            if tries == u64::MAX {
                assert(ids_exhausted(old(self).map@, secs)) by {
                    assert(drawn.len() == u64::MAX + 1);
                    assert forall|i: int| 0 <= i < drawn.len() implies #[trigger] old(self).map@.contains_key(
                        spec_session_id(secs, drawn[i]),
                    ) by {}
                }
                return None;
            }
            tries = tries + 1;
        }
    }

    /// Stores `session` under `id` and forgets every session whose id is
    /// below `clear_before` (whose time is older than the lifetime), when
    /// `id` is free. Gives `false`, and changes nothing, when `id` is taken.
    pub fn try_store_session(&mut self, id: u128, session: Session, clear_before: u128) -> (stored:
        bool)
        ensures
            stored == !old(self).map@.contains_key(id),
            stored ==> final(self).map@ == stored_and_expired(
                old(self).map@,
                id,
                session,
                clear_before,
            ),
            !stored ==> final(self).map@ == old(self).map@,
            final(self).ttl_secs == old(self).ttl_secs,
            final(self).time_base == old(self).time_base,
    {
        if self.map.contains_key(&id) {
            return false;
        }
        self.map.insert(id, session);
        let ghost full = self.map@;
        let ghost bound_keys = Set::new(|k: u128| k >= clear_before);
        let mut expired: Vec<u128> = Vec::new();
        let ghost mut done: Set<u128> = Set::empty();
        let entries = self.map.iter();
        proof {
            let s = self.map.iter().remaining();
            assert forall|k: u128| #[trigger] full.contains_key(k) implies s.contains(
                (&k, &full[k]),
            ) by {}
            lemma_iteration_keys(s, full);
        }
        for entry in it: entries
            invariant
                self.map@ == full,
                self.ttl_secs == old(self).ttl_secs,
                self.time_base == old(self).time_base,
                keys_seen(it.seq(), it.seq().len() as int) == full.dom(),
                forall|i: int| 0 <= i < it.seq().len() ==> #[trigger] full.contains_key(
                    *it.seq()[i].0,
                ),
                done == keys_seen(it.seq(), it.index()),
                forall|i: int|
                    0 <= i < expired@.len() ==> #[trigger] expired@[i] < clear_before
                        && full.contains_key(expired@[i]),
                forall|k: u128| done.contains(k) && k < clear_before ==> expired@.contains(k),
        {
            let (k, _v) = entry;
            proof {
                lemma_keys_seen_any_step(it.seq(), it.index());
            }
            let ghost before = expired@;
            if *k < clear_before {
                expired.push(*k);
                assert(expired@[expired@.len() - 1] == *k);
            }
            assert forall|x: u128| before.contains(x) implies expired@.contains(x) by {
                let j = choose|j: int| 0 <= j < before.len() && before[j] == x;
                assert(expired@[j] == before[j]);
            }
            proof {
                done = done.insert(*k);
            }
        }
        let mut i: usize = 0;
        while i < expired.len()
            invariant
                i <= expired.len(),
                self.ttl_secs == old(self).ttl_secs,
                self.time_base == old(self).time_base,
                forall|j: int|
                    0 <= j < expired@.len() ==> #[trigger] expired@[j] < clear_before
                        && full.contains_key(expired@[j]),
                forall|k: u128| full.contains_key(k) && k < clear_before ==> expired@.contains(k),
                self.map@ == full.remove_keys(expired@.take(i as int).to_set()),
            decreases expired.len() - i,
        {
            let k = expired[i];
            self.map.remove(&k);
            proof {
                assert(expired@.take(i + 1) =~= expired@.take(i as int).push(k));
                expired@.take(i as int).lemma_push_to_set_commute(k);
                assert(self.map@ =~= full.remove_keys(expired@.take(i + 1).to_set()));
            }
            i = i + 1;
        }
        proof {
            assert(expired@.take(i as int) =~= expired@);
            assert forall|k: u128| #[trigger] expired@.to_set().contains(k) <==> (full.contains_key(
                k,
            ) && k < clear_before) by {
                if expired@.to_set().contains(k) {
                    let j = choose|j: int| 0 <= j < expired@.len() && expired@[j] == k;
                    assert(expired@[j] < clear_before);
                }
            }
            assert(self.map@ =~= stored_and_expired(old(self).map@, id, session, clear_before));
        }
        true
    }
}

/// The seconds read back from a session id are those it was made of.
pub proof fn lemma_creation_secs_of_session_id(elapsed_secs: u64, random: u64)
    ensures
        creation_secs(spec_session_id(elapsed_secs, random)) == elapsed_secs,
{
    let id = spec_session_id(elapsed_secs, random);
    assert((id >> 64u128) as u64 == elapsed_secs) by (bit_vector)
        requires
            id == (((elapsed_secs as u128) << 64u128) | (random as u128)),
    ;
}

/// Session ids sort by the time they hold: an id made of fewer seconds is
/// below one made of more, whatever their random bits.
pub proof fn lemma_session_ids_order_by_time(e1: u64, r1: u64, e2: u64, r2: u64)
    requires
        e1 < e2,
    ensures
        spec_session_id(e1, r1) < spec_session_id(e2, r2),
{
    let id1 = spec_session_id(e1, r1);
    let id2 = spec_session_id(e2, r2);
    assert(id1 < id2) by (bit_vector)
        requires
            e1 < e2,
            id1 == (((e1 as u128) << 64u128) | (r1 as u128)),
            id2 == (((e2 as u128) << 64u128) | (r2 as u128)),
    ;
}

/// Expiry: after a session is stored, no session with an id below the
/// bound remains; the new session is found under its id when that id is at
/// least the bound; every other session at or above the bound is kept as it
/// was.
pub proof fn lemma_store_forgets_only_old_sessions(
    sessions: Map<u128, Session>,
    id: u128,
    session: Session,
    clear_before: u128,
)
    ensures
        ({
            let after = stored_and_expired(sessions, id, session, clear_before);
            &&& forall|k: u128| #[trigger] after.contains_key(k) ==> k >= clear_before
            &&& (id >= clear_before ==> after.contains_key(id) && after[id] == session)
            &&& forall|k: u128|
                k != id && k >= clear_before && sessions.contains_key(k) ==> #[trigger] after.contains_key(k)
                    && after[k] == sessions[k]
        }),
{
}


/// A session just stored is held, and its token opens it, when the
/// lifetime is at least a second and `now` is at least a second after the
/// time base.
pub proof fn lemma_stored_session_is_held(
    before: Map<u128, Session>,
    after: Map<u128, Session>,
    time_base: Instant,
    ttl_secs: u64,
    now: Instant,
    session: Session,
    id: u128,
)
    requires
        new_session_stored(before, after, time_base, ttl_secs, now, session, Some(id)),
        ttl_secs >= 1,
        spec_elapsed_secs(time_base, now) >= 1,
    ensures
        after.contains_key(id),
        after[id] == session,
        session_of_token(after, hyphenated_text(id) + seq!['|'] + hyphenated_text(session.extra_secret))
            == Some(session),
{
    let e_now = spec_elapsed_secs(time_base, now);
    let e_cut = cutoff_secs(time_base, ttl_secs, now);
    let r_now = choose|rnd: u64| id == spec_session_id(e_now, rnd);
    let r_cut = choose|rnd: u64|
        after == #[trigger] stored_and_expired(before, id, session, spec_session_id(e_cut, rnd));
    lemma_session_ids_order_by_time(e_cut, r_cut, e_now, r_now);
    lemma_store_forgets_only_old_sessions(before, id, session, spec_session_id(e_cut, r_cut));
    lemma_token_opens_its_session(after, id);
}

/// Expiry by time: storing a session drops every session made before the
/// cutoff second (now less the lifetime, in whole seconds since the time
/// base) and keeps, as it was, every session made after it; so no session
/// older than the lifetime plus a second remains.
pub proof fn lemma_store_expires_by_time(
    before: Map<u128, Session>,
    after: Map<u128, Session>,
    time_base: Instant,
    ttl_secs: u64,
    now: Instant,
    session: Session,
    id: u128,
    e: u64,
    rnd: u64,
)
    requires
        new_session_stored(before, after, time_base, ttl_secs, now, session, Some(id)),
        before.contains_key(spec_session_id(e, rnd)),
    ensures
        e < cutoff_secs(time_base, ttl_secs, now) ==> !after.contains_key(spec_session_id(e, rnd)),
        e > cutoff_secs(time_base, ttl_secs, now) ==> after.contains_key(spec_session_id(e, rnd))
            && after[spec_session_id(e, rnd)] == before[spec_session_id(e, rnd)],
{
    let e_cut = cutoff_secs(time_base, ttl_secs, now);
    let k = spec_session_id(e, rnd);
    let r_cut = choose|r: u64|
        after == #[trigger] stored_and_expired(before, id, session, spec_session_id(e_cut, r));
    lemma_store_forgets_only_old_sessions(before, id, session, spec_session_id(e_cut, r_cut));
    if e < e_cut {
        lemma_session_ids_order_by_time(e, rnd, e_cut, r_cut);
    }
    if e > e_cut {
        lemma_session_ids_order_by_time(e_cut, r_cut, e, rnd);
        assert(k != id);
    }
}

} // verus!

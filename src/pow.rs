//! The challenge manager: issues a proof-of-work challenge per session and
//! redeems a solution to it at most once, within its time to live.
use std::collections::HashMap;
use vstd::prelude::*;
use crate::errors::ServiceError;

verus! {

broadcast use vstd::std_specs::hash::group_hash_axioms;

/// Seconds for which an issued challenge can be redeemed.
pub const CHALLENGE_TTL: u64 = 300;

/// A challenge as held by the server for one session.
pub struct Challenge {
    pub salt: String,
    pub difficulty: u32,
    pub issued_at: u64,
    pub consumed: bool,
}

/// What a client is told so that it can solve its challenge.
pub struct ChallengeConfig {
    pub salt: String,
    pub difficulty: u32,
    pub algorithm: String,
}

/// The digest of `salt ‖ nonce` under the proof-of-work hash.
pub uninterp spec fn pow_digest_of(salt: Seq<char>, nonce: u64) -> Seq<u8>;

/// A salt that argon2 takes: at least 8 bytes, and at most 2^32 - 1 bytes
/// (a character takes at most 4 bytes).
pub open spec fn salt_ok(s: Seq<char>) -> bool {
    8 <= s.len() <= 0x3fff_ffff
}

/// The session's challenge, if any, has a salt that argon2 takes.
pub open spec fn hashable(m: Map<u64, Challenge>, session: u64) -> bool {
    m.contains_key(session) ==> salt_ok(m[session].salt@)
}

/// Relies on argon2::hash_raw (default configuration): the nonce, in decimal,
/// is hashed with the challenge's salt. With the default configuration it
/// fails only on a salt under 8 bytes or over 2^32 - 1 bytes.
#[verifier::external_body]
fn pow_digest(salt: &str, nonce: u64) -> (r: Option<Vec<u8>>)
    ensures
        r matches Some(d) ==> d@ == pow_digest_of(salt@, nonce),
        salt_ok(salt@) ==> r is Some,
{
    argon2::hash_raw(nonce.to_string().as_bytes(), salt.as_bytes(), &argon2::Config::default()).ok()
}

/// Relies on getrandom::getrandom: 16 bytes from the operating system's
/// random source, or `None` where that source fails.
#[verifier::external_body]
fn random_bytes() -> (r: Option<[u8; 16]>) {
    let mut b = [0u8; 16];
    match getrandom::getrandom(&mut b) {
        Ok(()) => Some(b),
        Err(_) => None,
    }
}

/// Relies on uuid::Uuid::from_bytes and its `Display`: the 16 bytes written
/// as a hyphenated UUID of 36 characters.
#[verifier::external_body]
fn uuid_text(b: [u8; 16]) -> (r: String)
    ensures
        r@.len() == 36,
{
    uuid::Uuid::from_bytes(b).to_string()
}

/// A fresh random salt of 36 characters, or `None` where the random source fails.
pub fn draw_salt() -> (r: Option<String>)
    ensures
        r matches Some(s) ==> s@.len() == 36,
{
    match random_bytes() {
        Some(b) => Some(uuid_text(b)),
        None => None,
    }
}

/// The largest value (exclusive) that a byte may hold when its `r` leading
/// bits must be zero.
pub open spec fn byte_limit(r: int) -> int {
    if r <= 0 {
        256
    } else if r == 1 {
        128
    } else if r == 2 {
        64
    } else if r == 3 {
        32
    } else if r == 4 {
        16
    } else if r == 5 {
        8
    } else if r == 6 {
        4
    } else {
        2
    }
}

/// The digest begins with at least `bits` zero bits.
pub open spec fn meets_target(d: Seq<u8>, bits: nat) -> bool {
    &&& bits <= 8 * d.len()
    &&& forall|j: int| 0 <= j < bits / 8 ==> d[j] == 0
    &&& bits % 8 != 0 ==> (d[(bits / 8) as int] as int) < byte_limit((bits % 8) as int)
}

/// The challenge can no longer be redeemed at time `now`.
pub open spec fn expired(c: Challenge, now: u64) -> bool {
    now as int > c.issued_at as int + CHALLENGE_TTL as int
}

/// The session holds a challenge that is neither consumed nor expired.
pub open spec fn redeemable(m: Map<u64, Challenge>, session: u64, now: u64) -> bool {
    &&& m.contains_key(session)
    &&& !m[session].consumed
    &&& !expired(m[session], now)
}

/// A digest is accepted for the session's current challenge.
pub open spec fn accepts_digest(m: Map<u64, Challenge>, session: u64, digest: Seq<u8>, now: u64) -> bool {
    redeemable(m, session, now) && meets_target(digest, m[session].difficulty as nat)
}

/// A nonce solves the session's current challenge, and that challenge can be redeemed.
pub open spec fn accepts_nonce(m: Map<u64, Challenge>, session: u64, nonce: u64, now: u64) -> bool {
    accepts_digest(m, session, pow_digest_of(m[session].salt@, nonce), now)
}

/// The store once the session's challenge is marked consumed.
pub open spec fn consumed_at(m: Map<u64, Challenge>, session: u64) -> Map<u64, Challenge> {
    m.insert(session, Challenge { consumed: true, ..m[session] })
}

/// The store once a fresh challenge replaces the session's previous one.
pub open spec fn issued_at(
    m: Map<u64, Challenge>,
    session: u64,
    salt: String,
    difficulty: u32,
    now: u64,
) -> Map<u64, Challenge> {
    m.insert(session, Challenge { salt, difficulty, issued_at: now, consumed: false })
}

fn byte_limit_exec(r: u32) -> (l: u16)
    requires
        r < 8,
    ensures
        l as int == byte_limit(r as int),
{
    if r == 0 {
        256
    } else if r == 1 {
        128
    } else if r == 2 {
        64
    } else if r == 3 {
        32
    } else if r == 4 {
        16
    } else if r == 5 {
        8
    } else if r == 6 {
        4
    } else {
        2
    }
}

/// Whether a digest begins with at least `difficulty` zero bits.
pub fn meets_difficulty(digest: &Vec<u8>, difficulty: u32) -> (r: bool)
    ensures
        r == meets_target(digest@, difficulty as nat),
{
    let full: u32 = difficulty / 8;
    let rem: u32 = difficulty % 8;
    if full as u64 > digest.len() as u64 || (full as u64 == digest.len() as u64 && rem != 0) {
        return false;
    }
    let full_len: usize = full as usize;
    let mut i: usize = 0;
    while i < full_len
        invariant
            full_len == difficulty / 8,
            full_len <= digest@.len(),
            i <= full_len,
            forall|j: int| 0 <= j < i ==> digest@[j] == 0,
        decreases full_len - i,
    {
        if digest[i] != 0 {
            return false;
        }
        i = i + 1;
    }
    if rem == 0 {
        true
    } else {
        (digest[full_len] as u16) < byte_limit_exec(rem)
    }
}

/// Per-session challenges, at most one for each session.
pub struct ChallengeStore {
    challenges: HashMap<u64, Challenge>,
    difficulty: u32,
}

impl View for ChallengeStore {
    type V = Map<u64, Challenge>;

    closed spec fn view(&self) -> Map<u64, Challenge> {
        self.challenges@
    }
}

impl ChallengeStore {
    /// The number of leading zero bits that challenges issued by this store ask for.
    pub closed spec fn spec_difficulty(&self) -> u32 {
        self.difficulty
    }

    /// An empty store whose challenges ask for `difficulty` leading zero bits.
    pub fn new(difficulty: u32) -> (r: ChallengeStore)
        ensures
            r@ == Map::<u64, Challenge>::empty(),
            r.spec_difficulty() == difficulty,
    {
        ChallengeStore { challenges: HashMap::new(), difficulty }
    }

    pub fn difficulty(&self) -> (r: u32)
        ensures
            r == self.spec_difficulty(),
    {
        self.difficulty
    }

    /// Issues a challenge with the given salt for `session`, replacing any
    /// challenge the session held.
    pub fn issue_with_salt(&mut self, session: u64, salt: String, now: u64) -> (r: ChallengeConfig)
        ensures
            final(self)@ == issued_at(old(self)@, session, salt, old(self).spec_difficulty(), now),
            final(self).spec_difficulty() == old(self).spec_difficulty(),
            r.salt == salt,
            r.difficulty == old(self).spec_difficulty(),
            r.algorithm@ == "argon2i"@,
    {
        let c = Challenge { salt: salt.clone(), difficulty: self.difficulty, issued_at: now, consumed: false };
        self.challenges.insert(session, c);
        ChallengeConfig { salt, difficulty: self.difficulty, algorithm: String::from_str("argon2i") }
    }

    /// Redeems the session's challenge with the digest of the client's solution.
    /// Succeeds, and consumes the challenge, exactly when the challenge is
    /// redeemable and the digest meets its difficulty; on failure nothing changes.
    pub fn verify_digest(&mut self, session: u64, digest: &Vec<u8>, now: u64) -> (r: Result<(), ServiceError>)
        ensures
            r is Ok <==> accepts_digest(old(self)@, session, digest@, now),
            r is Ok ==> final(self)@ == consumed_at(old(self)@, session),
            r is Err ==> r == Err::<(), ServiceError>(ServiceError::AuthorizationRequired)
                && final(self)@ == old(self)@,
            final(self).spec_difficulty() == old(self).spec_difficulty(),
    {
        let (salt, difficulty, issued) = match self.challenges.get(&session) {
            Some(c) => {
                if c.consumed || (now as u128) > (c.issued_at as u128) + (CHALLENGE_TTL as u128) {
                    return Err(ServiceError::AuthorizationRequired);
                }
                (c.salt.clone(), c.difficulty, c.issued_at)
            },
            None => {
                return Err(ServiceError::AuthorizationRequired);
            },
        };
        if !meets_difficulty(digest, difficulty) {
            return Err(ServiceError::AuthorizationRequired);
        }
        let c = Challenge { salt, difficulty, issued_at: issued, consumed: true };
        self.challenges.insert(session, c);
        proof {
            assert(final(self)@ =~= consumed_at(old(self)@, session));
        }
        Ok(())
    }
}

/// Issues a fresh challenge for `session` at time `now`, replacing any
/// challenge the session held, and returns what the client needs to solve it.
/// Where the random source fails, gives `InternalServerError` and changes nothing.
pub fn send_pow_config(store: &mut ChallengeStore, session: u64, now: u64) -> (r: Result<ChallengeConfig, ServiceError>)
    ensures
        r matches Ok(c) ==> final(store)@ == issued_at(old(store)@, session, c.salt, old(store).spec_difficulty(), now)
            && c.salt@.len() == 36 && c.difficulty == old(store).spec_difficulty() && c.algorithm@ == "argon2i"@,
        r matches Err(e) ==> e == ServiceError::InternalServerError && final(store)@ == old(store)@,
        final(store).spec_difficulty() == old(store).spec_difficulty(),
{
    match draw_salt() {
        Some(salt) => Ok(store.issue_with_salt(session, salt, now)),
        None => Err(ServiceError::InternalServerError),
    }
}

/// Redeems the session's challenge with a nonce: the nonce is hashed with the
/// challenge's salt and the digest must meet the challenge's difficulty.
/// A missing, consumed or expired challenge, or a digest short of the target,
/// gives `AuthorizationRequired`; a failure of the hash itself, on a
/// redeemable challenge whose salt argon2 refuses, gives `InternalServerError`.
/// Only success changes the store.
pub fn verify_pow(store: &mut ChallengeStore, session: u64, nonce: u64, now: u64) -> (r: Result<(), ServiceError>)
    ensures
        r is Ok ==> accepts_nonce(old(store)@, session, nonce, now)
            && final(store)@ == consumed_at(old(store)@, session),
        !accepts_nonce(old(store)@, session, nonce, now) ==> r is Err,
        !redeemable(old(store)@, session, now) ==> r == Err::<(), ServiceError>(ServiceError::AuthorizationRequired),
        r is Err ==> final(store)@ == old(store)@,
        r matches Err(e) ==> e == ServiceError::AuthorizationRequired || e == ServiceError::InternalServerError,
        r == Err::<(), ServiceError>(ServiceError::InternalServerError) ==> redeemable(old(store)@, session, now),
        r == Err::<(), ServiceError>(ServiceError::AuthorizationRequired) ==> !accepts_nonce(old(store)@, session, nonce, now),
        hashable(old(store)@, session) ==> (r is Ok <==> accepts_nonce(old(store)@, session, nonce, now)) && (r is Err
            ==> r == Err::<(), ServiceError>(ServiceError::AuthorizationRequired)),
        final(store).spec_difficulty() == old(store).spec_difficulty(),
{
    let salt = match store.challenges.get(&session) {
        Some(c) => c.salt.clone(),
        None => {
            return Err(ServiceError::AuthorizationRequired);
        },
    };
    match pow_digest(salt.as_str(), nonce) {
        Some(d) => store.verify_digest(session, &d, now),
        None => {
            if !store_redeemable(store, session, now) {
                return Err(ServiceError::AuthorizationRequired);
            }
            Err(ServiceError::InternalServerError)
        },
    }
}

fn store_redeemable(store: &ChallengeStore, session: u64, now: u64) -> (r: bool)
    ensures
        r == redeemable(store@, session, now),
{
    match store.challenges.get(&session) {
        Some(c) => !c.consumed && (now as u128) <= (c.issued_at as u128) + (CHALLENGE_TTL as u128),
        None => false,
    }
}

/// Issuing a challenge supersedes the session's previous one: afterwards a
/// nonce is accepted exactly when it solves the new challenge, whatever the
/// session held before.
pub proof fn lemma_issue_supersedes(
    m: Map<u64, Challenge>,
    session: u64,
    salt: String,
    difficulty: u32,
    issued: u64,
    nonce: u64,
    now: u64,
)
    ensures
        accepts_nonce(issued_at(m, session, salt, difficulty, issued), session, nonce, now) <==> (
            now as int <= issued as int + CHALLENGE_TTL as int
            && meets_target(pow_digest_of(salt@, nonce), difficulty as nat)),
{
}

/// A challenge is redeemed at most once: once consumed, no nonce and no
/// digest is accepted for the session at any time.
pub proof fn lemma_single_use(m: Map<u64, Challenge>, session: u64, nonce: u64, digest: Seq<u8>, now: u64)
    ensures
        !accepts_nonce(consumed_at(m, session), session, nonce, now),
        !accepts_digest(consumed_at(m, session), session, digest, now),
{
}

/// A challenge past its time to live is refused, even with a solving nonce.
pub proof fn lemma_expired_refused(m: Map<u64, Challenge>, session: u64, nonce: u64, now: u64)
    requires
        m.contains_key(session),
        expired(m[session], now),
    ensures
        !accepts_nonce(m, session, nonce, now),
{
}

} // verus!

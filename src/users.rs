//! The credential store, the username admissibility pipeline, and the
//! signup / signin orchestration on top of the challenge manager.
use vstd::prelude::*;
use crate::errors::{ServiceError, StoreError};
use crate::filters::{
    all_chars_allowed, ascii_fold, chars_allowed, fold_case, regex_compiles, regex_finds, same_chars, skeleton,
    skeleton_of, FilterRules,
};
use crate::pow::{accepts_nonce, consumed_at, hashable, redeemable, salt_ok, verify_pow, ChallengeStore};

verus! {

/// Whether `verify_encoded(encoded, password)` answers `Ok(true)`.
pub uninterp spec fn argon2_accepts(encoded: Seq<char>, password: Seq<char>) -> bool;

/// Relies on argon2::hash_encoded (default configuration): the encoded hash of
/// the password under the salt, which argon2::verify_encoded accepts for the
/// same password. With the default configuration it fails only on a salt
/// under 8 bytes or over 2^32 - 1 bytes, or a password over 2^32 - 1 bytes.
#[verifier::external_body]
fn hash_password(password: &str, salt: &str) -> (r: Option<String>)
    ensures
        r matches Some(h) ==> argon2_accepts(h@, password@),
        salt_ok(salt@) && password_ok(password@) ==> r is Some,
{
    argon2::hash_encoded(password.as_bytes(), salt.as_bytes(), &argon2::Config::default()).ok()
}

/// Relies on argon2::verify_encoded: true when it answers `Ok(true)`, false on
/// `Ok(false)` or on an encoded hash it cannot read.
#[verifier::external_body]
fn check_password(encoded: &str, password: &str) -> (r: bool)
    ensures
        r == argon2_accepts(encoded@, password@),
{
    argon2::verify_encoded(encoded, password.as_bytes()).unwrap_or(false)
}

/// A password that argon2 takes: at most 2^32 - 1 bytes (a character takes
/// at most 4 bytes).
pub open spec fn password_ok(p: Seq<char>) -> bool {
    p.len() <= 0x3fff_ffff
}

/// A stored user: the name as given, its case-folded form, and the
/// encoded password hash (which carries the hash parameters).
pub struct UserRecord {
    pub username: String,
    pub folded: Vec<char>,
    pub hash: String,
}

/// Some record holds this exact username.
pub open spec fn has_user(recs: Seq<UserRecord>, u: Seq<char>) -> bool {
    exists|i: int| 0 <= i < recs.len() && (#[trigger] recs[i]).username@ == u
}

/// Some record's case-folded name looks like `f`: both have the same
/// skeleton under the look-alike table `t`.
pub open spec fn has_lookalike(recs: Seq<UserRecord>, t: Seq<(char, char)>, f: Seq<char>) -> bool {
    exists|i: int| 0 <= i < recs.len() && skeleton((#[trigger] recs[i]).folded@, t) == skeleton(f, t)
}

/// Signin succeeds: a record holds the username and its hash accepts the password.
pub open spec fn signin_ok(recs: Seq<UserRecord>, u: Seq<char>, p: Seq<char>) -> bool {
    exists|i: int|
        0 <= i < recs.len() && (#[trigger] recs[i]).username@ == u && argon2_accepts(recs[i].hash@, p)
}

/// The last record is the user `u`, stored with its folded name and `hash`.
pub open spec fn appended(recs: Seq<UserRecord>, u: Seq<char>, hash: Seq<char>) -> bool {
    &&& recs.len() > 0
    &&& recs.last().username@ == u
    &&& recs.last().folded@ == ascii_fold(u)
    &&& recs.last().hash@ == hash
}

/// Why the pipeline rejects a username, given the outcome of each filter and
/// the look-alike table; `None` when it is admitted.
/// The checks run in a fixed order: characters, blacklist, profanity, case
/// and look-alike collision.
pub open spec fn rejection(
    recs: Seq<UserRecord>,
    u: Seq<char>,
    blacklisted: bool,
    profane: bool,
    t: Seq<(char, char)>,
) -> Option<ServiceError> {
    if !chars_allowed(u) {
        Some(ServiceError::CharError)
    } else if blacklisted {
        Some(ServiceError::CharError)
    } else if profane {
        Some(ServiceError::CharError)
    } else if has_lookalike(recs, t, ascii_fold(u)) {
        Some(ServiceError::UsernameExists)
    } else {
        None
    }
}

/// The pipeline's verdict under a rule set.
pub open spec fn rejection_under(rules: FilterRules, recs: Seq<UserRecord>, u: Seq<char>) -> Option<
    ServiceError,
> {
    rejection(
        recs,
        u,
        regex_finds(rules.blacklist@, u),
        regex_finds(rules.profanity@, u),
        rules.lookalikes@,
    )
}

/// The users known to the service.
pub struct UserStore {
    records: Vec<UserRecord>,
}

impl View for UserStore {
    type V = Seq<UserRecord>;

    closed spec fn view(&self) -> Seq<UserRecord> {
        self.records@
    }
}

impl UserStore {
    /// Usernames are unique, and each folded name is the fold of its username.
    pub open spec fn wf(&self) -> bool {
        &&& forall|i: int, j: int|
            0 <= i < self@.len() && 0 <= j < self@.len() && i != j ==> (#[trigger] self@[i]).username@
                != (#[trigger] self@[j]).username@
        &&& forall|i: int| 0 <= i < self@.len() ==> (#[trigger] self@[i]).folded@ == ascii_fold(self@[i].username@)
    }

    pub fn new() -> (r: UserStore)
        ensures
            r@ == Seq::<UserRecord>::empty(),
            r.wf(),
    {
        UserStore { records: Vec::new() }
    }

    pub fn len(&self) -> (r: usize)
        ensures
            r == self@.len(),
    {
        self.records.len()
    }

    /// Whether a user with exactly this name exists.
    pub fn contains(&self, username: &str) -> (r: bool)
        ensures
            r == has_user(self@, username@),
    {
        self.find(username).is_some()
    }

    fn find(&self, username: &str) -> (r: Option<usize>)
        ensures
            r matches Some(i) ==> i < self@.len() && self@[i as int].username@ == username@,
            r is None ==> !has_user(self@, username@),
    {
        let target = String::from_str(username);
        let mut i: usize = 0;
        while i < self.records.len()
            invariant
                i <= self@.len(),
                target@ == username@,
                forall|j: int| 0 <= j < i ==> (#[trigger] self@[j]).username@ != username@,
            decreases self@.len() - i,
        {
            if self.records[i].username.eq(&target) {
                return Some(i);
            }
            i = i + 1;
        }
        None
    }

    /// Whether some user's folded name looks like `folded` under the table `t`.
    pub fn contains_lookalike(&self, folded: &Vec<char>, t: &Vec<(char, char)>) -> (r: bool)
        ensures
            r == has_lookalike(self@, t@, folded@),
    {
        let target = skeleton_of(folded, t);
        let mut i: usize = 0;
        while i < self.records.len()
            invariant
                i <= self@.len(),
                target@ == skeleton(folded@, t@),
                forall|j: int| 0 <= j < i ==> skeleton((#[trigger] self@[j]).folded@, t@) != skeleton(folded@, t@),
            decreases self@.len() - i,
        {
            let other = skeleton_of(&self.records[i].folded, t);
            if same_chars(&other, &target) {
                return true;
            }
            i = i + 1;
        }
        false
    }

    /// Stores a user unless one with exactly this name exists, in which case
    /// the store reports a uniqueness violation and is left as it was.
    pub fn insert_if_absent(&mut self, username: &str, hash: String) -> (r: Result<(), StoreError>)
        requires
            old(self).wf(),
        ensures
            final(self).wf(),
            has_user(old(self)@, username@) ==> r == Err::<(), StoreError>(StoreError::UniqueViolation)
                && final(self)@ == old(self)@,
            !has_user(old(self)@, username@) ==> r is Ok && final(self)@.drop_last() == old(self)@
                && appended(final(self)@, username@, hash@),
    {
        if self.find(username).is_some() {
            return Err(StoreError::UniqueViolation);
        }
        let folded = fold_case(username);
        let rec = UserRecord { username: String::from_str(username), folded, hash };
        self.records.push(rec);
        proof {
            assert(final(self)@.drop_last() =~= old(self)@);
        }
        Ok(())
    }

    /// The admissibility verdict given the outcome of the blacklist and
    /// profanity filters and the look-alike table.
    pub fn screen_username(&self, username: &str, blacklisted: bool, profane: bool, t: &Vec<(char, char)>) -> (r:
        Result<(), ServiceError>)
        ensures
            r is Ok <==> rejection(self@, username@, blacklisted, profane, t@) is None,
            r matches Err(e) ==> rejection(self@, username@, blacklisted, profane, t@) == Some(e),
    {
        if !all_chars_allowed(username) {
            Err(ServiceError::CharError)
        } else if blacklisted {
            Err(ServiceError::CharError)
        } else if profane {
            Err(ServiceError::CharError)
        } else if self.contains_lookalike(&fold_case(username), t) {
            Err(ServiceError::UsernameExists)
        } else {
            Ok(())
        }
    }

    /// Runs the admissibility pipeline: characters, blacklist, profanity,
    /// then case and look-alike collision against the stored users, stopping
    /// at the first rejection. A filter pattern that does not compile gives
    /// `InternalServerError`.
    pub fn check_username(&self, rules: &FilterRules, username: &str) -> (r: Result<(), ServiceError>)
        ensures
            r is Ok ==> rejection_under(*rules, self@, username@) is None,
            r matches Err(e) ==> rejection_under(*rules, self@, username@) == Some(e) || (e
                == ServiceError::InternalServerError && chars_allowed(username@)),
            rejection_under(*rules, self@, username@) is Some ==> r is Err,
            !chars_allowed(username@) ==> r == Err::<(), ServiceError>(ServiceError::CharError),
            regex_compiles(rules.blacklist@) && regex_compiles(rules.profanity@) ==> (r is Ok <==> rejection_under(
                *rules,
                self@,
                username@,
            ) is None) && (r matches Err(e) ==> rejection_under(*rules, self@, username@) == Some(e)),
    {
        if !all_chars_allowed(username) {
            return Err(ServiceError::CharError);
        }
        let blacklisted = match rules.is_blacklisted(username) {
            Some(b) => b,
            None => {
                return Err(ServiceError::InternalServerError);
            },
        };
        if blacklisted {
            return Err(ServiceError::CharError);
        }
        let profane = match rules.is_profane(username) {
            Some(b) => b,
            None => {
                return Err(ServiceError::InternalServerError);
            },
        };
        if profane {
            return Err(ServiceError::CharError);
        }
        self.screen_username(username, false, false, &rules.lookalikes)
    }

    /// Hashes the password under `salt` and stores the user unless the exact
    /// name is taken, which gives `UsernameExists`. A salt or password that
    /// argon2 refuses gives `InternalServerError`.
    pub fn create_user(&mut self, username: &str, password: &str, salt: &str) -> (r: Result<(), ServiceError>)
        requires
            old(self).wf(),
        ensures
            final(self).wf(),
            r is Err ==> final(self)@ == old(self)@,
            r is Ok ==> !has_user(old(self)@, username@) && final(self)@.drop_last() == old(self)@
                && appended(final(self)@, username@, final(self)@.last().hash@)
                && argon2_accepts(final(self)@.last().hash@, password@),
            r == Err::<(), ServiceError>(ServiceError::InternalServerError) || (has_user(
                old(self)@,
                username@,
            ) <==> r == Err::<(), ServiceError>(ServiceError::UsernameExists)),
            r matches Err(e) ==> e == ServiceError::UsernameExists || e == ServiceError::InternalServerError,
            salt_ok(salt@) && password_ok(password@) ==> (r is Ok <==> !has_user(old(self)@, username@)),
    {
        let hash = match hash_password(password, salt) {
            Some(h) => h,
            None => {
                return Err(ServiceError::InternalServerError);
            },
        };
        match self.insert_if_absent(username, hash) {
            Ok(()) => Ok(()),
            Err(e) => Err(ServiceError::from_store(e)),
        }
    }
}

/// Everything that the outside calls of a signup need in order to succeed:
/// the challenge's salt and the password salt suit argon2, the password is
/// within argon2's bound, and both filter patterns compile.
pub open spec fn signup_ready(
    challenges: Map<u64, crate::pow::Challenge>,
    rules: FilterRules,
    session: u64,
    password: Seq<char>,
    salt: Seq<char>,
) -> bool {
    &&& hashable(challenges, session)
    &&& regex_compiles(rules.blacklist@)
    &&& regex_compiles(rules.profanity@)
    &&& salt_ok(salt)
    &&& password_ok(password)
}

/// Signup: redeems the session's challenge with the nonce, then runs the
/// username through the admissibility pipeline, then stores the user with
/// its password hashed under `salt`. The first failure is returned; the user
/// store changes only on success, and the challenge store only by consuming
/// the session's challenge.
pub fn sign_up(
    challenges: &mut ChallengeStore,
    users: &mut UserStore,
    rules: &FilterRules,
    session: u64,
    nonce: u64,
    now: u64,
    username: &str,
    password: &str,
    salt: &str,
) -> (r: Result<(), ServiceError>)
    requires
        old(users).wf(),
    ensures
        final(users).wf(),
        final(challenges).spec_difficulty() == old(challenges).spec_difficulty(),
        r is Ok ==> accepts_nonce(old(challenges)@, session, nonce, now) && rejection_under(
            *rules,
            old(users)@,
            username@,
        ) is None && !has_user(old(users)@, username@) && final(users)@.drop_last() == old(users)@
            && appended(final(users)@, username@, final(users)@.last().hash@) && argon2_accepts(
            final(users)@.last().hash@,
            password@,
        ),
        r is Ok ==> final(challenges)@ == consumed_at(old(challenges)@, session),
        r is Err ==> final(users)@ == old(users)@,
        final(challenges)@ == old(challenges)@ || (accepts_nonce(old(challenges)@, session, nonce, now)
            && final(challenges)@ == consumed_at(old(challenges)@, session)),
        !redeemable(old(challenges)@, session, now) ==> r == Err::<(), ServiceError>(
            ServiceError::AuthorizationRequired,
        ) && final(challenges)@ == old(challenges)@,
        !accepts_nonce(old(challenges)@, session, nonce, now) ==> r is Err && final(challenges)@ == old(challenges)@,
        !accepts_nonce(old(challenges)@, session, nonce, now) && hashable(old(challenges)@, session) ==> r
            == Err::<(), ServiceError>(ServiceError::AuthorizationRequired),
        accepts_nonce(old(challenges)@, session, nonce, now) && hashable(old(challenges)@, session) ==> final(challenges)@ == consumed_at(old(challenges)@, session),
        accepts_nonce(old(challenges)@, session, nonce, now) && hashable(old(challenges)@, session)
            && !chars_allowed(username@) ==> r == Err::<(), ServiceError>(ServiceError::CharError),
        !chars_allowed(username@) ==> r is Err && final(users)@ == old(users)@ && (r == Err::<(), ServiceError>(
            ServiceError::CharError,
        ) || final(challenges)@ == old(challenges)@),
        accepts_nonce(old(challenges)@, session, nonce, now) && signup_ready(
            old(challenges)@,
            *rules,
            session,
            password@,
            salt@,
        ) ==> (r is Ok <==> rejection_under(*rules, old(users)@, username@) is None) && (r matches Err(e)
            ==> rejection_under(*rules, old(users)@, username@) == Some(e)),
        r matches Err(e) ==> e == ServiceError::AuthorizationRequired || e == ServiceError::InternalServerError
            || e == ServiceError::UsernameExists || rejection_under(*rules, old(users)@, username@) == Some(e),
{
    verify_pow(challenges, session, nonce, now)?;
    users.check_username(rules, username)?;
    proof {
        if has_user(old(users)@, username@) {
            let i = choose|i: int| 0 <= i < old(users)@.len() && (#[trigger] old(users)@[i]).username@ == username@;
            assert(skeleton(old(users)@[i].folded@, rules.lookalikes@) == skeleton(ascii_fold(username@), rules.lookalikes@));
        }
    }
    users.create_user(username, password, salt)
}

/// Signin: succeeds exactly when a user with this name exists and its stored
/// hash accepts the password. Every failure is `AuthorizationRequired`, so a
/// wrong password and an unknown user cannot be told apart.
pub fn sign_in(users: &UserStore, username: &str, password: &str) -> (r: Result<(), ServiceError>)
    requires
        users.wf(),
    ensures
        r is Ok <==> signin_ok(users@, username@, password@),
        r is Err ==> r == Err::<(), ServiceError>(ServiceError::AuthorizationRequired),
        !has_user(users@, username@) ==> r == Err::<(), ServiceError>(ServiceError::AuthorizationRequired),
{
    match users.find(username) {
        Some(i) => {
            if check_password(users.records[i].hash.as_str(), password) {
                Ok(())
            } else {
                proof {
                    assert forall|j: int|
                        0 <= j < users@.len() && (#[trigger] users@[j]).username@ == username@ implies !argon2_accepts(
                        users@[j].hash@,
                        password@,
                    ) by {
                        assert(j == i as int);
                    }
                }
                Err(ServiceError::AuthorizationRequired)
            }
        },
        None => Err(ServiceError::AuthorizationRequired),
    }
}

/// Signout: forgets the caller's identity and returns the confirmation text.
pub fn sign_out(identity: &mut Option<String>) -> (r: String)
    ensures
        *final(identity) == None::<String>,
        r@ == "You are successfully signed out"@,
{
    *identity = None;
    String::from_str("You are successfully signed out")
}

/// Two names with one folded form collide: once a user is stored, another
/// name that folds alike (such as one differing only in letter case) and
/// passes the earlier filters is rejected with `UsernameExists`.
pub proof fn lemma_case_collision(
    rules: FilterRules,
    recs: Seq<UserRecord>,
    first: Seq<char>,
    hash: Seq<char>,
    second: Seq<char>,
)
    requires
        appended(recs, first, hash),
        ascii_fold(second) == ascii_fold(first),
        chars_allowed(second),
        !regex_finds(rules.blacklist@, second),
        !regex_finds(rules.profanity@, second),
    ensures
        rejection_under(rules, recs, second) == Some(ServiceError::UsernameExists),
{
    assert(recs[recs.len() - 1].folded@ == ascii_fold(second));
}

/// Of two signups with one username, exactly one succeeds: once the first
/// has passed the pipeline and stored the user, the name is taken and the
/// pipeline rejects it with `UsernameExists`.
pub proof fn lemma_one_signup_per_name(
    rules: FilterRules,
    before: Seq<UserRecord>,
    recs: Seq<UserRecord>,
    u: Seq<char>,
    hash: Seq<char>,
)
    requires
        rejection_under(rules, before, u) is None,
        appended(recs, u, hash),
    ensures
        has_user(recs, u),
        rejection_under(rules, recs, u) == Some(ServiceError::UsernameExists),
{
    assert(recs[recs.len() - 1].username@ == u);
    assert(recs[recs.len() - 1].folded@ == ascii_fold(u));
}

/// Round trip: a user just stored with a hash that accepts the password can
/// sign in with that name and password.
pub proof fn lemma_signup_then_signin(recs: Seq<UserRecord>, u: Seq<char>, hash: Seq<char>, password: Seq<char>)
    requires
        appended(recs, u, hash),
        argon2_accepts(hash, password),
    ensures
        signin_ok(recs, u, password),
{
    assert(recs[recs.len() - 1].username@ == u);
}

} // verus!

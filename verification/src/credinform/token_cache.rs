//! The cache of Credinform access tokens: at most one token per user is
//! added at a time, and a token is served for 23 hours after it was issued.
use vstd::prelude::*;
use super::models::AccessToken;
use crate::text::str_equal;

verus! {

/// How long a cached token stays usable, in hours.
pub const TOKEN_LIFETIME_HOURS: i64 = 23;

/// An instant, as whole seconds since the Unix epoch (UTC) and the
/// nanoseconds within that second.
#[derive(Debug, Clone, Copy, PartialEq, Eq, Structural)]
pub struct Timestamp {
    pub secs: i64,
    pub nanos: u32,
}

impl Timestamp {
    /// The instant in nanoseconds since the epoch.
    pub open spec fn nanos_since_epoch(self) -> int {
        self.secs * 1_000_000_000 + self.nanos
    }
}

/// The token lifetime in nanoseconds.
pub open spec fn lifetime_nanos() -> int {
    TOKEN_LIFETIME_HOURS * 3600 * 1_000_000_000
}

/// A token created at `created` may be used at `now`: less than the
/// lifetime has passed (a creation time in the future counts as valid).
/// For sub-second parts below one second this is exactly chrono's
/// `now.signed_duration_since(created).num_hours() < 23`.
pub open spec fn valid_at(created: Timestamp, now: Timestamp) -> bool {
    now.nanos_since_epoch() - created.nanos_since_epoch() < lifetime_nanos()
}

/// A reading of the system clock: how far from the Unix epoch it is, and on
/// which side.
#[derive(Debug, Clone, Copy)]
pub struct ClockReading {
    pub after_epoch: bool,
    pub secs: u64,
    pub nanos: u32,
}

/// The signed distance of a reading from the epoch, in nanoseconds.
pub open spec fn reading_nanos(r: ClockReading) -> int {
    if r.after_epoch {
        r.secs * 1_000_000_000 + r.nanos
    } else {
        -(r.secs * 1_000_000_000 + r.nanos)
    }
}

/// Calls `std::time::SystemTime::now` and measures it from `UNIX_EPOCH` with
/// `duration_since`; a clock before the epoch gives the distance back as the
/// error's `duration`, so this never fails. Nothing is promised of the time
/// read, only that the sub-second part is below one second, as `Duration`
/// documents for `subsec_nanos`.
#[verifier::external_body]
fn read_system_clock() -> (r: ClockReading)
    ensures
        r.nanos < 1_000_000_000,
{
    match std::time::SystemTime::now().duration_since(std::time::UNIX_EPOCH) {
        Ok(d) => ClockReading { after_epoch: true, secs: d.as_secs(), nanos: d.subsec_nanos() },
        Err(e) => ClockReading {
            after_epoch: false,
            secs: e.duration().as_secs(),
            nanos: e.duration().subsec_nanos(),
        },
    }
}

/// The instant of a clock reading. Readings beyond the range of `Timestamp`
/// (about 292 billion years from the epoch) are held at its ends.
pub fn timestamp_from_clock(r: ClockReading) -> (t: Timestamp)
    requires
        r.nanos < 1_000_000_000,
    ensures
        t.nanos < 1_000_000_000,
        r.secs <= i64::MAX ==> t.nanos_since_epoch() == reading_nanos(r),
        r.secs > i64::MAX && r.after_epoch ==> t == (Timestamp {
            secs: i64::MAX,
            nanos: 999_999_999,
        }),
        r.secs > i64::MAX && !r.after_epoch ==> t == (Timestamp { secs: i64::MIN, nanos: 0 }),
{
    if r.secs > i64::MAX as u64 {
        if r.after_epoch {
            Timestamp { secs: i64::MAX, nanos: 999_999_999 }
        } else {
            Timestamp { secs: i64::MIN, nanos: 0 }
        }
    } else if r.after_epoch {
        Timestamp { secs: r.secs as i64, nanos: r.nanos }
    } else if r.nanos == 0 {
        Timestamp { secs: -(r.secs as i64), nanos: 0 }
    } else {
        Timestamp { secs: -(r.secs as i64) - 1, nanos: 1_000_000_000 - r.nanos }
    }
}

/// The current time by the system clock.
fn utc_now() -> (t: Timestamp)
    ensures
        t.nanos < 1_000_000_000,
{
    let r = read_system_clock();
    timestamp_from_clock(r)
}

/// A token issued to a user, with the time it was stored.
#[derive(Debug, Clone)]
pub struct CachedToken {
    pub token: String,
    pub username: String,
    pub created_at: Timestamp,
}

impl CachedToken {
    /// A token stored now, by the system clock.
    pub fn new(token: String, username: String) -> (r: Self)
        ensures
            r.token == token,
            r.username == username,
    {
        let now = utc_now();
        CachedToken::new_at(token, username, now)
    }

    /// A token stored at `created_at`.
    pub fn new_at(token: String, username: String, created_at: Timestamp) -> (r: Self)
        ensures
            r == (CachedToken { token, username, created_at }),
    {
        CachedToken { token, username, created_at }
    }

    /// Whether the token is still usable now, by the system clock.
    pub fn is_valid(&self) -> (r: bool)
        ensures
            exists|now: Timestamp| r == valid_at(self.created_at, now),
    {
        let now = utc_now();
        self.is_valid_at(now)
    }

    /// Whether the token is still usable at `now`.
    pub fn is_valid_at(&self, now: Timestamp) -> (r: bool)
        ensures
            r == valid_at(self.created_at, now),
    {
        let age: i128 = (now.secs as i128 - self.created_at.secs as i128) * 1_000_000_000i128
            + (now.nanos as i128 - self.created_at.nanos as i128);
        age < (TOKEN_LIFETIME_HOURS as i128) * 3600i128 * 1_000_000_000i128
    }

    /// The stored token as an access key.
    pub fn to_access_token(&self) -> (r: AccessToken)
        ensures
            r@ == self.token@,
    {
        AccessToken::new(self.token.as_str())
    }
}

/// The token served for `username` at `now`: that of the first entry for
/// the user that is still valid.
pub open spec fn lookup(entries: Seq<CachedToken>, username: Seq<char>, now: Timestamp) -> Option<
    Seq<char>,
>
    decreases entries.len(),
{
    if entries.len() == 0 {
        None
    } else if entries[0].username@ == username && valid_at(entries[0].created_at, now) {
        Some(entries[0].token@)
    } else {
        lookup(entries.drop_first(), username, now)
    }
}

/// The entries that do not belong to `username`, in their order.
pub open spec fn without_user(entries: Seq<CachedToken>, username: Seq<char>) -> Seq<CachedToken>
    decreases entries.len(),
{
    if entries.len() == 0 {
        entries
    } else if entries[0].username@ == username {
        without_user(entries.drop_first(), username)
    } else {
        seq![entries[0]] + without_user(entries.drop_first(), username)
    }
}

/// The entries still valid at `now`, in their order.
pub open spec fn only_valid(entries: Seq<CachedToken>, now: Timestamp) -> Seq<CachedToken>
    decreases entries.len(),
{
    if entries.len() == 0 {
        entries
    } else if valid_at(entries[0].created_at, now) {
        seq![entries[0]] + only_valid(entries.drop_first(), now)
    } else {
        only_valid(entries.drop_first(), now)
    }
}

/// The entries after `entry` is added: earlier entries of the same user
/// are dropped and the new one goes last.
pub open spec fn with_token(entries: Seq<CachedToken>, entry: CachedToken) -> Seq<CachedToken> {
    without_user(entries, entry.username@).push(entry)
}

/// The cached tokens, oldest first.
#[derive(Debug, Clone)]
pub struct TokenCache {
    tokens: Vec<CachedToken>,
}

impl View for TokenCache {
    type V = Seq<CachedToken>;

    closed spec fn view(&self) -> Seq<CachedToken> {
        self.tokens@
    }
}

impl TokenCache {
    /// An empty cache.
    pub fn new() -> (r: Self)
        ensures
            r@ == Seq::<CachedToken>::empty(),
    {
        TokenCache { tokens: Vec::new() }
    }

    /// A cache holding `tokens` as they are (as read back from storage).
    pub fn from_tokens(tokens: Vec<CachedToken>) -> (r: Self)
        ensures
            r@ == tokens@,
    {
        TokenCache { tokens }
    }

    /// The cached entries, oldest first (for storage).
    pub fn into_tokens(self) -> (r: Vec<CachedToken>)
        ensures
            r@ == self@,
    {
        self.tokens
    }

    /// The token served for `username` now, by the system clock.
    pub fn get_token(&self, username: &str) -> (r: Option<AccessToken>)
        ensures
            exists|now: Timestamp|
                match r {
                    Some(t) => lookup(self@, username@, now) == Some(t@),
                    None => lookup(self@, username@, now) is None,
                },
    {
        let now = utc_now();
        self.get_token_at(username, now)
    }

    /// The token served for `username` at `now`: that of the first entry for
    /// the user that is still valid, if any.
    pub fn get_token_at(&self, username: &str, now: Timestamp) -> (r: Option<AccessToken>)
        ensures
            match r {
                Some(t) => lookup(self@, username@, now) == Some(t@),
                None => lookup(self@, username@, now) is None,
            },
    {
        let n: usize = self.tokens.len();
        let mut i: usize = 0;
        assert(self.tokens@.skip(0) =~= self.tokens@);
        while i < n
            invariant
                n == self.tokens@.len(),
                i <= n,
                lookup(self.tokens@, username@, now) == lookup(
                    self.tokens@.skip(i as int),
                    username@,
                    now,
                ),
            decreases n - i,
        {
            let entry = &self.tokens[i];
            assert(self.tokens@.skip(i as int)[0] == self.tokens@[i as int]);
            assert(self.tokens@.skip(i as int).drop_first() =~= self.tokens@.skip(i + 1));
            if str_equal(entry.username.as_str(), username) && entry.is_valid_at(now) {
                return Some(entry.to_access_token());
            }
            i = i + 1;
        }
        None
    }

    /// Stores `token` for `username` now, by the system clock, replacing the
    /// user's earlier tokens; returns the token as an access key.
    pub fn add_token(&mut self, token: String, username: String) -> (r: AccessToken)
        ensures
            r@ == token@,
            final(self)@.len() > 0,
            final(self)@.drop_last() == without_user(old(self)@, username@),
            final(self)@.last().token == token,
            final(self)@.last().username == username,
    {
        let now = utc_now();
        self.add_token_at(token, username, now)
    }

    /// Stores `token` for `username` as issued at `now`, replacing the user's
    /// earlier tokens; returns the token as an access key.
    pub fn add_token_at(&mut self, token: String, username: String, now: Timestamp) -> (r:
        AccessToken)
        ensures
            r@ == token@,
            final(self)@ == with_token(
                old(self)@,
                CachedToken { token, username, created_at: now },
            ),
    {
        self.clear_for_user(username.as_str());
        let cached = CachedToken::new_at(token, username, now);
        let access = cached.to_access_token();
        self.tokens.push(cached);
        access
    }

    /// Drops the tokens no longer valid now, by the system clock.
    pub fn clear_invalid_tokens(&mut self)
        ensures
            exists|now: Timestamp| final(self)@ == only_valid(old(self)@, now),
    {
        let now = utc_now();
        self.clear_invalid_tokens_at(now);
    }

    /// Drops the tokens no longer valid at `now`, keeping the order of the rest.
    pub fn clear_invalid_tokens_at(&mut self, now: Timestamp)
        ensures
            final(self)@ == only_valid(old(self)@, now),
    {
        let mut rest: Vec<CachedToken> = Vec::new();
        std::mem::swap(&mut rest, &mut self.tokens);
        let ghost orig = rest@;
        let mut kept: Vec<CachedToken> = Vec::new();
        assert(kept@ + only_valid(rest@, now) =~= only_valid(orig, now));
        while rest.len() > 0
            invariant
                only_valid(orig, now) == kept@ + only_valid(rest@, now),
            decreases rest.len(),
        {
            let ghost before = rest@;
            let ghost kept_before = kept@;
            let entry = rest.remove(0);
            assert(rest@ =~= before.drop_first());
            if entry.is_valid_at(now) {
                kept.push(entry);
                assert(kept@ + only_valid(rest@, now) =~= kept_before + (seq![entry]
                    + only_valid(rest@, now)));
            }
        }
        assert(kept@ + only_valid(rest@, now) =~= kept@);
        self.tokens = kept;
    }

    /// Drops every token of `username`, keeping the order of the rest.
    pub fn clear_for_user(&mut self, username: &str)
        ensures
            final(self)@ == without_user(old(self)@, username@),
    {
        let mut rest: Vec<CachedToken> = Vec::new();
        std::mem::swap(&mut rest, &mut self.tokens);
        let ghost orig = rest@;
        let mut kept: Vec<CachedToken> = Vec::new();
        assert(kept@ + without_user(rest@, username@) =~= without_user(orig, username@));
        while rest.len() > 0
            invariant
                without_user(orig, username@) == kept@ + without_user(rest@, username@),
            decreases rest.len(),
        {
            let ghost before = rest@;
            let ghost kept_before = kept@;
            let entry = rest.remove(0);
            assert(rest@ =~= before.drop_first());
            if !str_equal(entry.username.as_str(), username) {
                kept.push(entry);
                assert(kept@ + without_user(rest@, username@) =~= kept_before + (seq![entry]
                    + without_user(rest@, username@)));
            }
        }
        assert(kept@ + without_user(rest@, username@) =~= kept@);
        self.tokens = kept;
    }
}

impl Default for TokenCache {
    fn default() -> (r: Self)
        ensures
            r@ == Seq::<CachedToken>::empty(),
    {
        TokenCache::new()
    }
}

/// Looking up in a sequence extended by one entry: an earlier hit wins,
/// otherwise the new entry answers if it matches.
proof fn lemma_lookup_push(entries: Seq<CachedToken>, entry: CachedToken, username: Seq<char>, now: Timestamp)
    ensures
        lookup(entries.push(entry), username, now) == (if lookup(entries, username, now) is Some {
            lookup(entries, username, now)
        } else if entry.username@ == username && valid_at(entry.created_at, now) {
            Some(entry.token@)
        } else {
            None
        }),
    decreases entries.len(),
{
    if entries.len() > 0 {
        assert(entries.push(entry)[0] == entries[0]);
        assert(entries.push(entry).drop_first() =~= entries.drop_first().push(entry));
        lemma_lookup_push(entries.drop_first(), entry, username, now);
    } else {
        assert(entries.push(entry)[0] == entry);
        assert(entries.push(entry).drop_first() =~= Seq::<CachedToken>::empty());
        assert(lookup(Seq::<CachedToken>::empty(), username, now) is None);
    }
}

/// No entry of `without_user(entries, username)` belongs to `username`.
proof fn lemma_without_user_excludes(entries: Seq<CachedToken>, username: Seq<char>)
    ensures
        forall|i: int|
            0 <= i < without_user(entries, username).len() ==> (#[trigger] without_user(
                entries,
                username,
            )[i]).username@ != username,
    decreases entries.len(),
{
    if entries.len() > 0 {
        lemma_without_user_excludes(entries.drop_first(), username);
        let rest = without_user(entries.drop_first(), username);
        if entries[0].username@ != username {
            assert forall|i: int|
                0 <= i < without_user(entries, username).len() implies (#[trigger] without_user(
                entries,
                username,
            )[i]).username@ != username by {
                if i > 0 {
                    assert(without_user(entries, username)[i] == rest[i - 1]);
                }
            }
        }
    }
}

/// Dropping one user's entries leaves the lookups of every other user as they were.
proof fn lemma_lookup_without_other(entries: Seq<CachedToken>, username: Seq<char>, other: Seq<char>, now: Timestamp)
    requires
        other != username,
    ensures
        lookup(without_user(entries, username), other, now) == lookup(entries, other, now),
    decreases entries.len(),
{
    if entries.len() > 0 {
        lemma_lookup_without_other(entries.drop_first(), username, other, now);
        if entries[0].username@ != username {
            let w = without_user(entries, username);
            assert(w[0] == entries[0]);
            assert(w.drop_first() =~= without_user(entries.drop_first(), username));
        }
    }
}

/// A user has no token once all of the user's entries are dropped.
proof fn lemma_lookup_without_self(entries: Seq<CachedToken>, username: Seq<char>, now: Timestamp)
    ensures
        lookup(without_user(entries, username), username, now) is None,
    decreases entries.len(),
{
    if entries.len() > 0 {
        lemma_lookup_without_self(entries.drop_first(), username, now);
        if entries[0].username@ != username {
            let w = without_user(entries, username);
            assert(w[0] == entries[0]);
            assert(w.drop_first() =~= without_user(entries.drop_first(), username));
        }
    }
}

/// Law: a token just added for a user is the token served to that user for
/// as long as it is valid.
pub proof fn law_added_token_is_served(entries: Seq<CachedToken>, entry: CachedToken, now: Timestamp)
    requires
        valid_at(entry.created_at, now),
    ensures
        lookup(with_token(entries, entry), entry.username@, now) == Some(entry.token@),
{
    lemma_lookup_without_self(entries, entry.username@, now);
    lemma_lookup_push(without_user(entries, entry.username@), entry, entry.username@, now);
}

/// Law: once a user's newest token has expired, no token is served to that
/// user (older tokens of the user were dropped when it was added).
pub proof fn law_added_token_expires(entries: Seq<CachedToken>, entry: CachedToken, now: Timestamp)
    requires
        !valid_at(entry.created_at, now),
    ensures
        lookup(with_token(entries, entry), entry.username@, now) is None,
{
    lemma_lookup_without_self(entries, entry.username@, now);
    lemma_lookup_push(without_user(entries, entry.username@), entry, entry.username@, now);
}

/// Law: adding a token for one user changes nothing that is served to any
/// other user.
pub proof fn law_add_keeps_other_users(entries: Seq<CachedToken>, entry: CachedToken, other: Seq<char>, now: Timestamp)
    requires
        other != entry.username@,
    ensures
        lookup(with_token(entries, entry), other, now) == lookup(entries, other, now),
{
    lemma_lookup_without_other(entries, entry.username@, other, now);
    lemma_lookup_push(without_user(entries, entry.username@), entry, other, now);
}

/// Law: after a token is added, it is the only entry of its user, and it is last.
pub proof fn law_add_leaves_one_entry_per_user(entries: Seq<CachedToken>, entry: CachedToken)
    ensures
        with_token(entries, entry).last() == entry,
        forall|i: int|
            0 <= i < with_token(entries, entry).len() - 1 ==> (#[trigger] with_token(
                entries,
                entry,
            )[i]).username@ != entry.username@,
{
    lemma_without_user_excludes(entries, entry.username@);
    let w = without_user(entries, entry.username@);
    assert forall|i: int|
        0 <= i < with_token(entries, entry).len() - 1 implies (#[trigger] with_token(
        entries,
        entry,
    )[i]).username@ != entry.username@ by {
        assert(with_token(entries, entry)[i] == w[i]);
    }
}

/// Law: after a user's tokens are cleared, none is served to that user.
pub proof fn law_clear_for_user_forgets(entries: Seq<CachedToken>, username: Seq<char>, now: Timestamp)
    ensures
        lookup(without_user(entries, username), username, now) is None,
{
    lemma_lookup_without_self(entries, username, now);
}

/// Law: clearing one user's tokens changes nothing that is served to any
/// other user.
pub proof fn law_clear_for_user_keeps_others(entries: Seq<CachedToken>, username: Seq<char>, other: Seq<char>, now: Timestamp)
    requires
        other != username,
    ensures
        lookup(without_user(entries, username), other, now) == lookup(entries, other, now),
{
    lemma_lookup_without_other(entries, username, other, now);
}

/// Law: dropping the expired tokens at `now` changes nothing that is served at `now`.
pub proof fn law_clear_invalid_keeps_lookups(entries: Seq<CachedToken>, username: Seq<char>, now: Timestamp)
    ensures
        lookup(only_valid(entries, now), username, now) == lookup(entries, username, now),
    decreases entries.len(),
{
    if entries.len() > 0 {
        law_clear_invalid_keeps_lookups(entries.drop_first(), username, now);
        if valid_at(entries[0].created_at, now) {
            let o = only_valid(entries, now);
            assert(o[0] == entries[0]);
            assert(o.drop_first() =~= only_valid(entries.drop_first(), now));
        }
    }
}

/// Law: after the expired tokens are dropped at `now`, every remaining token
/// is valid at `now`.
pub proof fn law_clear_invalid_leaves_valid(entries: Seq<CachedToken>, now: Timestamp)
    ensures
        forall|i: int|
            0 <= i < only_valid(entries, now).len() ==> valid_at(
                (#[trigger] only_valid(entries, now)[i]).created_at,
                now,
            ),
    decreases entries.len(),
{
    if entries.len() > 0 {
        law_clear_invalid_leaves_valid(entries.drop_first(), now);
        let rest = only_valid(entries.drop_first(), now);
        if valid_at(entries[0].created_at, now) {
            assert forall|i: int|
                0 <= i < only_valid(entries, now).len() implies valid_at(
                (#[trigger] only_valid(entries, now)[i]).created_at,
                now,
            ) by {
                if i > 0 {
                    assert(only_valid(entries, now)[i] == rest[i - 1]);
                }
            }
        }
    }
}

/// Law: a token is valid from its creation until just before 23 hours have
/// passed, and never afterwards.
pub proof fn law_validity_window(created: Timestamp, now: Timestamp)
    ensures
        now.nanos_since_epoch() >= created.nanos_since_epoch() ==> (valid_at(created, now)
            <==> now.nanos_since_epoch() - created.nanos_since_epoch() < 23 * 3600
            * 1_000_000_000),
        valid_at(created, created),
{
}

} // verus!

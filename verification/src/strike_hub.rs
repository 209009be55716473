//! Rules of strike-hub, the account and matchmaking service: what it accepts,
//! what it refuses and with which error, and how friendships, presence, tickets
//! and roles evolve. Storage and HTTP are left to the service binary.
use vstd::prelude::*;
use crate::text::{
    ascii_alnum, contains_seq, contains_str, has_char, is_ascii_alnum, is_identifier_text,
    lemma_utf8_len_bound, lowercase, str_eq, to_lowercase, trim, trimmed, utf8_len, utf8_len_below,
};
use vstd::string::*;

verus! {

/// Sessions last thirty days.
pub const SESSION_TTL: i64 = 2592000;

/// Match tickets last ninety seconds.
pub const TICKET_TTL: i64 = 90;

/// A server that sent no heartbeat for this long is no longer listed.
pub const HEARTBEAT_TTL: i64 = 30;

/// Presence older than this reads as offline.
pub const PRESENCE_TTL: i64 = 90;

/// Usernames nobody can register (compared in lower case).
pub const RESERVED: [&'static str; 5] = ["admin", "server", "bot", "console", "system"];

pub open spec fn reserved_names() -> Seq<Seq<char>> {
    seq!["admin"@, "server"@, "bot"@, "console"@, "system"@]
}

/// An HTTP error answer: status, machine-readable code and message (and, for bans,
/// when the ban ends).
#[derive(Clone, Debug)]
pub struct ApiError {
    pub status: u16,
    pub code: &'static str,
    pub message: String,
    pub until: Option<i64>,
}

pub open spec fn is_error(e: ApiError, status: u16, code: Seq<char>, message: Seq<char>) -> bool {
    e.status == status && e.code@ == code && e.message@ == message && e.until is None
}

pub fn api_error(status: u16, code: &'static str, message: &str) -> (r: ApiError)
    ensures
        is_error(r, status, code@, message@),
{
    ApiError { status, code, message: String::from_str(message), until: None }
}

pub open spec fn valid_username(username: Seq<char>) -> bool {
    &&& 3 <= username.len() <= 20
    &&& is_identifier_text(username)
    &&& !reserved_names().contains(lowercase(username))
}

/// Usernames are 3 to 20 letters, digits or underscores and not a reserved name.
pub fn validate_username(username: &str) -> (r: Result<(), ApiError>)
    ensures
        r is Ok <==> valid_username(username@),
        r matches Err(e) ==> is_error(
            e,
            400,
            "invalid_username"@,
            "Usernames are 3 to 20 letters, digits or underscores"@,
        ),
{
    let n = username.unicode_len();
    let mut ok = 3 <= n && n <= 20;
    if ok {
        let mut i: usize = 0;
        while i < n
            invariant
                n == username@.len(),
                i <= n,
                ok == forall|k: int| 0 <= k < i ==> is_ascii_alnum(#[trigger] username@[k]) || username@[k] == '_',
            decreases n - i,
        {
            let c = username.get_char(i);
            if !(ascii_alnum(c) || c == '_') {
                ok = false;
            }
            i += 1;
        }
    }
    if ok {
        let lower = to_lowercase(username);
        let mut k: usize = 0;
        while k < 5
            invariant
                k <= 5,
                lower@ == lowercase(username@),
                ok ==> forall|j: int| 0 <= j < k ==> reserved_names()[j] != lower@,
                !ok ==> reserved_names().contains(lower@),
            decreases 5 - k,
        {
            let name = RESERVED[k];
            assert(name@ == reserved_names()[k as int]);
            if ok && str_eq(lower.as_str(), name) {
                ok = false;
            }
            k += 1;
        }
        proof {
            if ok {
                assert forall|j: int| 0 <= j < 5 implies reserved_names()[j] != lower@ by {}
            }
        }
    }
    if ok {
        Ok(())
    } else {
        Err(api_error(400, "invalid_username", "Usernames are 3 to 20 letters, digits or underscores"))
    }
}

/// Passwords are 8 to 128 characters and must not contain the username (compared
/// in lower case).
pub fn validate_password(password: &str, username: &str) -> (r: Result<(), ApiError>)
    ensures
        !(8 <= password@.len() <= 128) ==> (r matches Err(e) && is_error(
            e,
            400,
            "weak_password"@,
            "Passwords are 8 to 128 characters"@,
        )),
        8 <= password@.len() <= 128 && contains_seq(lowercase(password@), lowercase(username@)) ==> (
        r matches Err(e) && is_error(e, 400, "weak_password"@, "Password must not contain the username"@)),
        r is Ok <==> 8 <= password@.len() <= 128 && !contains_seq(
            lowercase(password@),
            lowercase(username@),
        ),
{
    let len = password.unicode_len();
    if len < 8 || len > 128 {
        return Err(api_error(400, "weak_password", "Passwords are 8 to 128 characters"));
    }
    let p = to_lowercase(password);
    let u = to_lowercase(username);
    if contains_str(p.as_str(), u.as_str()) {
        return Err(api_error(400, "weak_password", "Password must not contain the username"));
    }
    Ok(())
}

/// An email as stored: trimmed and lowercased.
pub open spec fn stored_email(email: Seq<char>) -> Seq<char> {
    lowercase(trimmed(email))
}

/// A stored email must hold an `@` and be at least five bytes long.
pub open spec fn plausible_email(stored: Seq<char>) -> bool {
    stored.contains('@') && utf8_len(stored) >= 5
}

pub open spec fn acceptable_password(password: Seq<char>, username: Seq<char>) -> bool {
    8 <= password.len() <= 128 && !contains_seq(lowercase(password), lowercase(username))
}

/// Checks a registration request, in order: the username, the email, the password.
/// Returns the email as it will be stored.
pub fn check_registration(username: &str, email: &str, password: &str) -> (r: Result<String, ApiError>)
    ensures
        !valid_username(username@) ==> (r matches Err(e) && is_error(
            e,
            400,
            "invalid_username"@,
            "Usernames are 3 to 20 letters, digits or underscores"@,
        )),
        valid_username(username@) && !plausible_email(stored_email(email@)) ==> (r matches Err(e)
            && is_error(e, 400, "invalid_email"@, "Enter a valid email"@)),
        valid_username(username@) && plausible_email(stored_email(email@)) && !acceptable_password(
            password@,
            username@,
        ) ==> (r matches Err(e) && is_error(
            e,
            400,
            "weak_password"@,
            if 8 <= password@.len() <= 128 {
                "Password must not contain the username"@
            } else {
                "Passwords are 8 to 128 characters"@
            },
        )),
        r is Ok <==> valid_username(username@) && plausible_email(stored_email(email@))
            && acceptable_password(password@, username@),
        r matches Ok(stored) ==> stored@ == stored_email(email@),
{
    validate_username(username)?;
    let trimmed = trim(email);
    let stored = to_lowercase(trimmed);
    if !has_char(stored.as_str(), '@') || utf8_len_below(stored.as_str(), 5) {
        return Err(api_error(400, "invalid_email", "Enter a valid email"));
    }
    validate_password(password, username)?;
    Ok(stored)
}

/// Checks a registration and hashes the password for storing: the checks of
/// `check_registration`, in order, and then the stored email with a hash that
/// accepts the password. Hashing fails only for passwords of more than 0xFFFFFFFF
/// bytes, which the checks never let through; its failure would be answered with
/// a 500 error.
pub fn prepare_registration(username: &str, email: &str, password: &str) -> (r: Result<(String, String), ApiError>)
    ensures
        !valid_username(username@) ==> (r matches Err(e) && is_error(
            e,
            400,
            "invalid_username"@,
            "Usernames are 3 to 20 letters, digits or underscores"@,
        )),
        valid_username(username@) && !plausible_email(stored_email(email@)) ==> (r matches Err(e)
            && is_error(e, 400, "invalid_email"@, "Enter a valid email"@)),
        valid_username(username@) && plausible_email(stored_email(email@)) && !acceptable_password(
            password@,
            username@,
        ) ==> (r matches Err(e) && is_error(
            e,
            400,
            "weak_password"@,
            if 8 <= password@.len() <= 128 {
                "Password must not contain the username"@
            } else {
                "Passwords are 8 to 128 characters"@
            },
        )),
        valid_username(username@) && plausible_email(stored_email(email@)) && acceptable_password(
            password@,
            username@,
        ) ==> (r matches Ok((stored, hash)) && stored@ == stored_email(email@)
            && crate::credentials::argon2_accepts(password@, hash@)),
{
    let stored = check_registration(username, email, password)?;
    proof {
        lemma_utf8_len_bound(password@);
    }
    match crate::credentials::hash_password(password) {
        Some(hash) => Ok((stored, hash)),
        None => Err(api_error(500, "internal", "Hashing failed")),
    }
}

/// The first account registered on a hub becomes its administrator.
pub fn first_account_role(existing_accounts: i64) -> (r: &'static str)
    ensures
        r@ == (if existing_accounts == 0 {
            "admin"@
        } else {
            "player"@
        }),
{
    if existing_accounts == 0 {
        "admin"
    } else {
        "player"
    }
}

/// A registration is refused when the username or the email is already in use,
/// the username being checked first.
pub fn check_unclaimed(username_taken: bool, email_taken: bool) -> (r: Result<(), ApiError>)
    ensures
        username_taken ==> (r matches Err(e) && is_error(
            e,
            409,
            "username_taken"@,
            "That username is taken"@,
        )),
        !username_taken && email_taken ==> (r matches Err(e) && is_error(
            e,
            409,
            "email_taken"@,
            "That email already has an account"@,
        )),
        !username_taken && !email_taken ==> r is Ok,
{
    if username_taken {
        return Err(api_error(409, "username_taken", "That username is taken"));
    }
    if email_taken {
        return Err(api_error(409, "email_taken", "That email already has an account"));
    }
    Ok(())
}

/// Whether `role` is one of `roles`.
pub fn require_role(role: &str, roles: &Vec<&str>) -> (r: Result<(), ApiError>)
    ensures
        r is Ok <==> exists|i: int| 0 <= i < roles@.len() && roles@[i]@ == role@,
        r matches Err(e) ==> is_error(e, 403, "forbidden"@, "Not allowed"@),
{
    let mut i: usize = 0;
    while i < roles.len()
        invariant
            i <= roles@.len(),
            forall|k: int| 0 <= k < i ==> roles@[k]@ != role@,
        decreases roles@.len() - i,
    {
        if str_eq(roles[i], role) {
            return Ok(());
        }
        i += 1;
    }
    Err(api_error(403, "forbidden", "Not allowed"))
}

/// Match servers authenticate with the hub's server key.
pub fn require_server_key(key: &str, expected: &str) -> (r: Result<(), ApiError>)
    ensures
        r is Ok <==> key@ == expected@,
        r matches Err(e) ==> is_error(e, 403, "forbidden"@, "Bad server key"@),
{
    if str_eq(key, expected) {
        Ok(())
    } else {
        Err(api_error(403, "forbidden", "Bad server key"))
    }
}

/// The token of an `Authorization: Bearer <token>` header.
pub fn bearer_token(header: Option<&str>) -> (r: Option<&str>)
    ensures
        match header {
            Some(h) => {
                if h@.len() >= 7 && h@.take(7) == "Bearer "@ {
                    r matches Some(t) && t@ == h@.skip(7)
                } else {
                    r is None
                }
            },
            None => r is None,
        },
{
    match header {
        Some(h) => {
            let n = h.unicode_len();
            if n >= 7 {
                let head = h.substring_char(0, 7);
                if str_eq(head, "Bearer ") {
                    let t = h.substring_char(7, n);
                    assert(t@ =~= h@.skip(7));
                    return Some(t);
                }
            }
            None
        },
        None => None,
    }
}

/// How a session token fares.
#[derive(Clone, Copy, Debug, PartialEq, Eq, Structural)]
pub enum SessionVerdict {
    /// No such session.
    Unknown,
    /// The session has expired; it is deleted.
    Expired,
    /// The account is banned.
    Banned,
    /// The session is good.
    Valid,
}

/// Judges a session from its expiry (`None` when the token is unknown) and the
/// account's ban.
pub fn session_verdict(expires_at: Option<i64>, banned_until: Option<i64>, now: i64) -> (r: SessionVerdict)
    ensures
        r == (match expires_at {
            None => SessionVerdict::Unknown,
            Some(e) => if e < now {
                SessionVerdict::Expired
            } else if banned_until matches Some(u) && u > now {
                SessionVerdict::Banned
            } else {
                SessionVerdict::Valid
            },
        }),
{
    match expires_at {
        None => SessionVerdict::Unknown,
        Some(e) => {
            if e < now {
                SessionVerdict::Expired
            } else {
                match banned_until {
                    Some(u) => if u > now {
                        SessionVerdict::Banned
                    } else {
                        SessionVerdict::Valid
                    },
                    None => SessionVerdict::Valid,
                }
            }
        },
    }
}

/// The answer to a request whose session is not valid.
pub fn session_error(verdict: SessionVerdict) -> (r: Option<ApiError>)
    ensures
        verdict == SessionVerdict::Valid ==> r is None,
        verdict == SessionVerdict::Banned ==> (r matches Some(e) && is_error(
            e,
            403,
            "banned"@,
            "This account is banned"@,
        )),
        (verdict == SessionVerdict::Unknown || verdict == SessionVerdict::Expired) ==> (r matches Some(
            e,
        ) && is_error(e, 401, "session_expired"@, "Session expired, sign in again"@)),
{
    match verdict {
        SessionVerdict::Valid => None,
        SessionVerdict::Banned => Some(api_error(403, "banned", "This account is banned")),
        _ => Some(api_error(401, "session_expired", "Session expired, sign in again")),
    }
}

} // verus!

verus! {

/// Who is signing in: an identifier holding `@` is an email, anything else a
/// username; both are looked up trimmed and in lower case.
pub fn login_key(identifier: &str) -> (r: (bool, String))
    ensures
        r.0 == trimmed(identifier@).contains('@'),
        r.1@ == lowercase(trimmed(identifier@)),
{
    let ident = trim(identifier);
    (has_char(ident, '@'), to_lowercase(ident))
}

/// The account row a login looks at.
#[derive(Clone, Debug)]
pub struct LoginRow {
    pub id: i64,
    pub password_hash: String,
    pub banned_until: Option<i64>,
    pub ban_reason: Option<String>,
}

/// Verified against when no account matches, so that a login costs the same
/// whether or not the account exists.
pub const DUMMY_HASH: &'static str = "$argon2id$v=19$m=19456,t=2,p=1$c29tZXNhbHRzb21lc2FsdA$4Q7c3F4C0f1rj4xQe2kZ5bZ4vXg1pUmkq3B2i1e7n2A";

/// Decides a login from the matching account (if any), the password given and the
/// time: wrong credentials are refused, banned accounts are refused with the ban's
/// reason and end, anyone else signs in with their account id.
pub fn login_decision(row: Option<LoginRow>, password: &str, now: i64) -> (r: Result<i64, ApiError>)
    ensures
        ({
            let (id, hash, banned) = match row {
                Some(a) => (a.id, a.password_hash@, a.banned_until),
                None => (0i64, DUMMY_HASH@, None::<i64>),
            };
            let granted = id != 0 && crate::credentials::argon2_accepts(password@, hash);
            &&& !granted ==> (r matches Err(e) && is_error(
                e,
                401,
                "invalid_credentials"@,
                "Wrong username, email or password"@,
            ))
            &&& granted && (banned matches Some(u) && u > now) ==> (r matches Err(e) && e.status == 403
                && e.code@ == "banned"@ && e.until == banned && e.message@ == (match row {
                Some(a) => match a.ban_reason {
                    Some(reason) => reason@,
                    None => "Banned"@,
                },
                None => "Banned"@,
            }))
            &&& granted && !(banned matches Some(u) && u > now) ==> r == Ok::<i64, ApiError>(id)
        }),
{
    let (id, valid, banned, reason) = match row {
        Some(a) => {
            let valid = crate::credentials::password_verifies(password, a.password_hash.as_str());
            (a.id, valid, a.banned_until, a.ban_reason)
        },
        None => {
            let valid = crate::credentials::password_verifies(password, DUMMY_HASH);
            (0i64, valid, None, None)
        },
    };
    if id == 0 || !valid {
        return Err(api_error(401, "invalid_credentials", "Wrong username, email or password"));
    }
    match banned {
        Some(until) => if until > now {
            let message = match reason {
                Some(m) => m,
                None => String::from_str("Banned"),
            };
            return Err(ApiError { status: 403, code: "banned", message, until: banned });
        },
        None => {},
    }
    Ok(id)
}

/// How two accounts relate, seen from `me`.
#[derive(Clone, Copy, Debug, PartialEq, Eq, Structural)]
pub enum Relationship {
    NoRelation,
    Friends,
    Blocked,
    PendingOut,
    PendingIn,
}

impl Relationship {
    pub open spec fn spec_key(self) -> Seq<char> {
        match self {
            Relationship::NoRelation => "none"@,
            Relationship::Friends => "friends"@,
            Relationship::Blocked => "blocked"@,
            Relationship::PendingOut => "pending_out"@,
            Relationship::PendingIn => "pending_in"@,
        }
    }

    /// The name the API uses.
    pub fn key(self) -> (r: &'static str)
        ensures
            r@ == self.spec_key(),
    {
        match self {
            Relationship::NoRelation => "none",
            Relationship::Friends => "friends",
            Relationship::Blocked => "blocked",
            Relationship::PendingOut => "pending_out",
            Relationship::PendingIn => "pending_in",
        }
    }
}

/// The relationship between `me` and another account, from the friendship row
/// between them (its requester and state), if there is one.
pub fn relationship(me: i64, row: Option<(i64, &str)>) -> (r: Relationship)
    ensures
        r == (match row {
            None => Relationship::NoRelation,
            Some((requester, state)) => if state@ == "accepted"@ {
                Relationship::Friends
            } else if state@ == "blocked"@ {
                Relationship::Blocked
            } else if requester == me {
                Relationship::PendingOut
            } else {
                Relationship::PendingIn
            },
        }),
{
    match row {
        None => Relationship::NoRelation,
        Some((requester, state)) => {
            if str_eq(state, "accepted") {
                Relationship::Friends
            } else if str_eq(state, "blocked") {
                Relationship::Blocked
            } else if requester == me {
                Relationship::PendingOut
            } else {
                Relationship::PendingIn
            }
        },
    }
}

/// Where a friendship row lists the other account.
#[derive(Clone, Copy, Debug, PartialEq, Eq, Structural)]
pub enum FriendList {
    Friends,
    PendingIn,
    PendingOut,
}

/// Sorts a friendship row of `me` (requester, addressee, state) into the friend list:
/// the other account, and whether it is a friend, an incoming or an outgoing request.
pub fn classify_friendship(me: i64, requester: i64, addressee: i64, state: &str) -> (r: (i64, FriendList))
    ensures
        r.0 == (if requester == me {
            addressee
        } else {
            requester
        }),
        r.1 == (if state@ == "accepted"@ {
            FriendList::Friends
        } else if requester == me {
            FriendList::PendingOut
        } else {
            FriendList::PendingIn
        }),
{
    let other = if requester == me {
        addressee
    } else {
        requester
    };
    let list = if str_eq(state, "accepted") {
        FriendList::Friends
    } else if requester == me {
        FriendList::PendingOut
    } else {
        FriendList::PendingIn
    };
    (other, list)
}

/// What a friend request does.
#[derive(Clone, Copy, Debug, PartialEq, Eq, Structural)]
pub enum FriendRequestOutcome {
    /// A new pending request from `me`.
    Requested,
    /// The other player had asked first: the request is accepted.
    Accepted,
    /// Nothing changes; the current relationship is answered.
    Unchanged(Relationship),
}

/// Decides a friend request from `me` to the account `other` (`None` when the
/// username is unknown), given their current relationship.
pub fn friend_request_decision(me: i64, other: Option<i64>, current: Relationship) -> (r: Result<
    FriendRequestOutcome,
    ApiError,
>)
    ensures
        other is None ==> (r matches Err(e) && is_error(e, 404, "not_found"@, "No such player"@)),
        other == Some(me) ==> (r matches Err(e) && is_error(e, 400, "invalid"@, "That is you"@)),
        other matches Some(o) && o != me ==> r == Ok::<FriendRequestOutcome, ApiError>(
            match current {
                Relationship::NoRelation => FriendRequestOutcome::Requested,
                Relationship::PendingIn => FriendRequestOutcome::Accepted,
                rel => FriendRequestOutcome::Unchanged(rel),
            },
        ),
{
    let other = match other {
        Some(o) => o,
        None => {
            return Err(api_error(404, "not_found", "No such player"));
        },
    };
    if other == me {
        return Err(api_error(400, "invalid", "That is you"));
    }
    match current {
        Relationship::NoRelation => Ok(FriendRequestOutcome::Requested),
        Relationship::PendingIn => Ok(FriendRequestOutcome::Accepted),
        rel => Ok(FriendRequestOutcome::Unchanged(rel)),
    }
}

/// The relationship a friend request answers with.
pub fn request_answer(outcome: FriendRequestOutcome) -> (r: Relationship)
    ensures
        r == (match outcome {
            FriendRequestOutcome::Requested => Relationship::PendingOut,
            FriendRequestOutcome::Accepted => Relationship::Friends,
            FriendRequestOutcome::Unchanged(rel) => rel,
        }),
{
    match outcome {
        FriendRequestOutcome::Requested => Relationship::PendingOut,
        FriendRequestOutcome::Accepted => Relationship::Friends,
        FriendRequestOutcome::Unchanged(rel) => rel,
    }
}

/// Accepting needs a pending request from that player.
pub fn accept_result(rows_changed: usize) -> (r: Result<Relationship, ApiError>)
    ensures
        rows_changed == 0 ==> (r matches Err(e) && is_error(
            e,
            404,
            "not_found"@,
            "No pending request from that player"@,
        )),
        rows_changed != 0 ==> r == Ok::<Relationship, ApiError>(Relationship::Friends),
{
    if rows_changed == 0 {
        return Err(api_error(404, "not_found", "No pending request from that player"));
    }
    Ok(Relationship::Friends)
}

} // verus!

verus! {

/// A presence row: state, the server the account is on, and when it was written.
#[derive(Clone, Debug)]
pub struct PresenceRow {
    pub state: String,
    pub server_id: Option<String>,
    pub updated_at: i64,
}

/// Presence as other players see it.
#[derive(Clone, Debug)]
pub enum PresenceView {
    /// Fresh presence: the stored state, and the server (id, mode, map) when the
    /// account is on one that is still registered.
    Fresh { state: String, server: Option<(String, String, String)> },
    /// Stale presence: offline, last seen at the given time.
    Stale { last_seen: i64 },
    /// No presence was ever recorded: offline.
    Unknown,
}

/// Presence of an account: fresh presence (written less than `PRESENCE_TTL` ago)
/// shows its state and server, older presence reads as offline with the time it was
/// last seen. `server_info` is the mode and map of the stored server, when that server
/// is registered.
pub fn presence_view(row: Option<PresenceRow>, server_info: Option<(String, String)>, now: i64) -> (r: PresenceView)
    requires
        row matches Some(p) ==> p.updated_at <= i64::MAX - PRESENCE_TTL,
    ensures
        match row {
            None => r is Unknown,
            Some(p) => if p.updated_at + PRESENCE_TTL > now {
                r matches PresenceView::Fresh { state, server } && state@ == p.state@ && match (
                    p.server_id,
                    server_info,
                ) {
                    (Some(id), Some((mode, map))) => server matches Some((i, m, g)) && i@ == id@ && m@
                        == mode@ && g@ == map@,
                    _ => server is None,
                }
            } else {
                r == PresenceView::Stale { last_seen: p.updated_at }
            },
        },
{
    match row {
        None => PresenceView::Unknown,
        Some(p) => {
            if p.updated_at + PRESENCE_TTL > now {
                let server = match (p.server_id, server_info) {
                    (Some(id), Some((mode, map))) => Some((id, mode, map)),
                    _ => None,
                };
                PresenceView::Fresh { state: p.state, server }
            } else {
                PresenceView::Stale { last_seen: p.updated_at }
            }
        },
    }
}

/// The presence a client's report leaves behind. A match server's heartbeat owns
/// `in_match`: a client report only leaves it for `in_menu`. Reporting `in_menu`
/// also forgets the server.
pub open spec fn spec_reported_presence(current: Option<(Seq<char>, Option<Seq<char>>)>, requested: Seq<char>) -> (
    Seq<char>,
    Option<Seq<char>>,
) {
    match current {
        None => (requested, None),
        Some((state, server)) => (
            if state == "in_match"@ && requested != "in_menu"@ {
                state
            } else {
                requested
            },
            if requested == "in_menu"@ {
                None
            } else {
                server
            },
        ),
    }
}

pub open spec fn opt_str(s: Option<String>) -> Option<Seq<char>> {
    match s {
        Some(v) => Some(v@),
        None => None,
    }
}

/// Applies a client's presence report to the stored presence (state, server).
pub fn reported_presence(current: Option<(String, Option<String>)>, requested: &str) -> (r: (String, Option<String>))
    ensures
        (r.0@, opt_str(r.1)) == spec_reported_presence(
            match current {
                Some((s, srv)) => Some((s@, opt_str(srv))),
                None => None,
            },
            requested@,
        ),
{
    let to_menu = str_eq(requested, "in_menu");
    match current {
        None => (String::from_str(requested), None),
        Some((state, server)) => {
            let keep = str_eq(state.as_str(), "in_match") && !to_menu;
            let new_state = if keep {
                state
            } else {
                String::from_str(requested)
            };
            let new_server = if to_menu {
                None
            } else {
                server
            };
            (new_state, new_server)
        },
    }
}

/// A heartbeat marks every listed player as in a match on that server; players no
/// longer listed who were on it return to plain online.
pub fn heartbeat_presence(current: Option<(String, Option<String>)>, listed: bool, server_id: &str) -> (r: Option<(String, Option<String>)>)
    ensures
        listed ==> (r matches Some((s, srv)) && s@ == "in_match"@ && (srv matches Some(id) && id@
            == server_id@)),
        !listed ==> match current {
            Some((s, Some(srv))) => if srv@ == server_id@ {
                (r matches Some((s2, srv2)) && s2@ == "online"@ && srv2 is None)
            } else {
                (r matches Some((s2, Some(srv2))) && s2@ == s@ && srv2@ == srv@)
            },
            Some((s, None)) => (r matches Some((s2, None)) && s2@ == s@),
            None => r is None,
        },
{
    if listed {
        return Some((String::from_str("in_match"), Some(String::from_str(server_id))));
    }
    match current {
        Some((state, Some(srv))) => {
            if str_eq(srv.as_str(), server_id) {
                Some((String::from_str("online"), None))
            } else {
                Some((state, Some(srv)))
            }
        },
        Some((state, None)) => Some((state, None)),
        None => None,
    }
}

/// The query a player search runs with: trimmed and lowercased; queries shorter than
/// two characters or holding `@` find nobody.
pub fn search_query(q: &str) -> (r: Option<String>)
    ensures
        ({
            let norm = lowercase(trimmed(q@));
            &&& (norm.len() < 2 || norm.contains('@')) ==> r is None
            &&& !(norm.len() < 2 || norm.contains('@')) ==> (r matches Some(s) && s@ == norm)
        }),
{
    let norm = to_lowercase(trim(q));
    if norm.as_str().unicode_len() < 2 || has_char(norm.as_str(), '@') {
        return None;
    }
    Some(norm)
}

/// A match ticket as stored.
#[derive(Clone, Copy, Debug, PartialEq, Eq, Structural)]
pub struct TicketRow {
    pub account_id: i64,
    pub expires_at: i64,
    pub consumed_at: Option<i64>,
}

/// A ticket is good when it was never redeemed and has not expired.
pub open spec fn ticket_good(t: TicketRow, now: i64) -> bool {
    t.consumed_at is None && t.expires_at >= now
}

/// Checks a ticket a match server presents: unknown tickets are refused, as are used
/// or expired ones; a good ticket names its account (and is then consumed).
pub fn ticket_verdict(row: Option<TicketRow>, now: i64) -> (r: Result<i64, ApiError>)
    ensures
        match row {
            None => (r matches Err(e) && is_error(e, 404, "not_found"@, "Unknown ticket"@)),
            Some(t) => if ticket_good(t, now) {
                r == Ok::<i64, ApiError>(t.account_id)
            } else {
                (r matches Err(e) && is_error(e, 410, "code_expired"@, "Ticket already used or expired"@))
            },
        },
{
    match row {
        None => Err(api_error(404, "not_found", "Unknown ticket")),
        Some(t) => {
            if t.consumed_at.is_some() || t.expires_at < now {
                Err(api_error(410, "code_expired", "Ticket already used or expired"))
            } else {
                Ok(t.account_id)
            }
        },
    }
}

/// The ticket after a server redeemed it.
pub fn consume_ticket(ticket: TicketRow, now: i64) -> (r: TicketRow)
    ensures
        r == (TicketRow { consumed_at: Some(now), ..ticket }),
{
    TicketRow { consumed_at: Some(now), ..ticket }
}

/// A ticket admits one player once: after it was redeemed it is refused whenever it
/// is presented again, and even an unused ticket is refused once it expired.
pub proof fn lemma_ticket_single_use(ticket: TicketRow, redeemed_at: i64, later: i64)
    ensures
        !ticket_good(TicketRow { consumed_at: Some(redeemed_at), ..ticket }, later),
        later > ticket.expires_at ==> !ticket_good(ticket, later),
{
}

/// A registered match server as listed to players.
#[derive(Clone, Debug)]
pub struct ServerRow {
    pub server_id: String,
    pub host: String,
    pub port: i64,
    pub mode: String,
    pub map: String,
    pub phase: String,
    pub players: i64,
    pub max_players: i64,
}

pub open spec fn open_for(row: ServerRow, mode: Seq<char>) -> bool {
    row.mode@ == mode && row.players < row.max_players && row.phase@ != "finished"@
}

/// The first listed server running `mode` with a free seat that has not finished.
pub fn find_open_server(rows: &Vec<ServerRow>, mode: &str) -> (r: Option<usize>)
    ensures
        match r {
            Some(i) => i < rows@.len() && open_for(rows@[i as int], mode@) && forall|j: int|
                0 <= j < i ==> !open_for(#[trigger] rows@[j], mode@),
            None => forall|j: int| 0 <= j < rows@.len() ==> !open_for(#[trigger] rows@[j], mode@),
        },
{
    let mut i: usize = 0;
    while i < rows.len()
        invariant
            i <= rows@.len(),
            forall|j: int| 0 <= j < i ==> !open_for(#[trigger] rows@[j], mode@),
        decreases rows@.len() - i,
    {
        let row = &rows[i];
        if str_eq(row.mode.as_str(), mode) && row.players < row.max_players && !str_eq(
            row.phase.as_str(),
            "finished",
        ) {
            return Some(i);
        }
        i += 1;
    }
    None
}

/// Joining a friend's match needs the server to be listed and to have a free seat.
pub fn join_check(found: bool, players: i64, max_players: i64) -> (r: Result<(), ApiError>)
    ensures
        !found ==> (r matches Err(e) && is_error(
            e,
            404,
            "not_found"@,
            "That match is no longer running"@,
        )),
        found && players >= max_players ==> (r matches Err(e) && is_error(
            e,
            409,
            "full"@,
            "That match is full"@,
        )),
        found && players < max_players ==> r is Ok,
{
    if !found {
        return Err(api_error(404, "not_found", "That match is no longer running"));
    }
    if players >= max_players {
        return Err(api_error(409, "full", "That match is full"));
    }
    Ok(())
}

pub open spec fn known_role(role: Seq<char>) -> bool {
    role == "player"@ || role == "moderator"@ || role == "admin"@
}

/// Checks a role change: the role must exist, and the last admin cannot be demoted.
pub fn role_change_check(new_role: &str, current_role: &str, admins: i64) -> (r: Result<(), ApiError>)
    ensures
        !known_role(new_role@) ==> (r matches Err(e) && is_error(e, 400, "invalid"@, "Unknown role"@)),
        known_role(new_role@) && current_role@ == "admin"@ && new_role@ != "admin"@ && admins <= 1
            ==> (r matches Err(e) && is_error(e, 409, "last_admin"@, "Cannot demote the last admin"@)),
        r is Ok <==> known_role(new_role@) && !(current_role@ == "admin"@ && new_role@ != "admin"@
            && admins <= 1),
{
    if !(str_eq(new_role, "player") || str_eq(new_role, "moderator") || str_eq(new_role, "admin")) {
        return Err(api_error(400, "invalid", "Unknown role"));
    }
    if str_eq(current_role, "admin") && !str_eq(new_role, "admin") && admins <= 1 {
        return Err(api_error(409, "last_admin", "Cannot demote the last admin"));
    }
    Ok(())
}

/// A hub with an admin keeps one: any role change that is allowed leaves at least
/// one admin.
pub proof fn lemma_admin_remains(new_role: Seq<char>, current_role: Seq<char>, admins: int)
    requires
        admins >= 1,
        known_role(new_role) && !(current_role == "admin"@ && new_role != "admin"@ && admins <= 1),
    ensures
        ({
            let after = if current_role == "admin"@ && new_role != "admin"@ {
                admins - 1
            } else if current_role != "admin"@ && new_role == "admin"@ {
                admins + 1
            } else {
                admins
            };
            after >= 1
        }),
{
}

/// Bans without a length last a hundred years.
pub open spec fn ban_hours(hours: Option<i64>) -> int {
    match hours {
        Some(h) => h as int,
        None => 24 * 365 * 100int,
    }
}

/// When a ban given now for `hours` hours ends.
pub fn ban_until(now: i64, hours: Option<i64>) -> (r: i64)
    requires
        i64::MIN <= ban_hours(hours) * 3600 <= i64::MAX,
        i64::MIN <= now + ban_hours(hours) * 3600 <= i64::MAX,
    ensures
        r == now + ban_hours(hours) * 3600,
{
    let h: i64 = match hours {
        Some(h) => h,
        None => 24 * 365 * 100,
    };
    now + h * 3600
}

/// Identifier of a match server the hub starts: its port and six characters of a
/// fresh token.
pub fn spawned_server_id(port: u16, token: &str) -> (r: String)
    requires
        token@.len() >= 6,
    ensures
        r@ == "srv-"@ + crate::text::spec_decimal(port as nat) + "-"@ + token@.take(6),
{
    let mut id = String::from_str("srv-");
    let digits = crate::text::decimal(port as u64);
    id.append(digits.as_str());
    id.append("-");
    id.append(token.substring_char(0, 6));
    id
}

/// The hub's own address when none is configured: the local host on the port of
/// the listen address (what follows its last `:`).
pub fn default_hub_url(listen: &str) -> (r: String)
    ensures
        exists|k: int|
            0 <= k <= listen@.len() && (k == 0 || listen@[k - 1] == ':') && !listen@.skip(k).contains(
                ':',
            ) && r@ == "http://127.0.0.1:"@ + listen@.skip(k),
{
    let n = listen.unicode_len();
    let mut k: usize = n;
    while k > 0 && listen.get_char(k - 1) != ':'
        invariant
            n == listen@.len(),
            k <= n,
            forall|i: int| k <= i < n ==> listen@[i] != ':',
        decreases k,
    {
        k -= 1;
    }
    let port = listen.substring_char(k, n);
    assert(port@ =~= listen@.skip(k as int));
    assert(!listen@.skip(k as int).contains(':')) by {
        assert forall|i: int| 0 <= i < listen@.skip(k as int).len() implies listen@.skip(k as int)[i]
            != ':' by {
            assert(listen@.skip(k as int)[i] == listen@[k + i]);
        }
    }
    let mut url = String::from_str("http://127.0.0.1:");
    url.append(port);
    url
}

/// What `bootstrap-admin` prints.
pub fn bootstrap_message(rows_changed: usize) -> (r: &'static str)
    ensures
        r@ == (if rows_changed == 1 {
            "promoted"@
        } else {
            "no such account"@
        }),
{
    if rows_changed == 1 {
        "promoted"
    } else {
        "no such account"
    }
}

/// A player's lifetime statistics.
#[derive(Clone, Copy, Debug, PartialEq, Eq, Structural)]
pub struct Stats {
    pub kills: i64,
    pub deaths: i64,
    pub matches: i64,
    pub wins: i64,
}

/// Statistics after a reported match.
pub fn apply_report(stats: Stats, kills: i64, deaths: i64, won: bool) -> (r: Stats)
    requires
        i64::MIN <= stats.kills + kills <= i64::MAX,
        i64::MIN <= stats.deaths + deaths <= i64::MAX,
        stats.matches < i64::MAX,
        stats.wins < i64::MAX,
    ensures
        r == (Stats {
            kills: (stats.kills + kills) as i64,
            deaths: (stats.deaths + deaths) as i64,
            matches: (stats.matches + 1) as i64,
            wins: (stats.wins + if won {
                1i64
            } else {
                0i64
            }) as i64,
        }),
{
    Stats {
        kills: stats.kills + kills,
        deaths: stats.deaths + deaths,
        matches: stats.matches + 1,
        wins: stats.wins + if won {
            1
        } else {
            0
        },
    }
}

} // verus!

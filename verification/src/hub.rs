//! Client side of the hub: session, friends, presence and matchmaking. The
//! transport runs elsewhere; replies come back here as plain values and this
//! module decides what the client state becomes and which requests follow.
use vstd::prelude::*;
use crate::config::{GameConfig, GameMode, MapId};
use crate::net::NetRole;
use crate::text_field::FieldId;
use crate::text::{
    decimal, spec_decimal,
    without_trailing_slashes, trim_trailing_slashes, identifier_chars, keep_identifier_chars, prefix_chars, str_eq, take_chars, to_uppercase, trim,
    trimmed, uppercase,
};

verus! {

/// The request a reply answers.
#[derive(Clone, Debug, PartialEq, Eq)]
pub enum HubRequest {
    Health,
    Register,
    Login,
    Me,
    Logout,
    Friends,
    Search,
    FriendRequest(String),
    Accept(String),
    Decline(String),
    Remove(String),
    Presence,
    FindMatch(GameMode),
    JoinMatch(String),
    Servers,
}

/// A failed request: the hub's error code and message, or an unreachable hub
/// (`transport`).
#[derive(Clone, Debug)]
pub struct HubError {
    pub code: String,
    pub message: String,
    pub transport: bool,
}

#[derive(Clone, Debug, PartialEq, Eq)]
pub struct Account {
    pub id: i64,
    pub username: String,
    pub display_name: String,
    pub role: String,
    pub email: Option<String>,
}

/// Where the client stands with the hub.
#[derive(Clone, Debug, PartialEq, Eq)]
pub enum HubSession {
    NoHub,
    LoggedOut,
    Connecting,
    LoggedIn(Account),
    Offline(Option<Account>),
}

impl Default for HubSession {
    fn default() -> (r: Self)
        ensures
            r is NoHub,
    {
        HubSession::NoHub
    }
}

impl HubSession {
    /// The account of a signed-in session, kept while the hub is unreachable.
    pub open spec fn spec_account(self) -> Option<Account> {
        match self {
            HubSession::LoggedIn(a) => Some(a),
            HubSession::Offline(Some(a)) => Some(a),
            _ => None,
        }
    }

    pub fn account(&self) -> (r: Option<&Account>)
        ensures
            match r {
                Some(a) => self.spec_account() == Some(*a),
                None => self.spec_account() is None,
            },
    {
        match self {
            HubSession::LoggedIn(a) => Some(a),
            HubSession::Offline(Some(a)) => Some(a),
            _ => None,
        }
    }

    pub fn logged_in(&self) -> (r: bool)
        ensures
            r == (self is LoggedIn),
    {
        match self {
            HubSession::LoggedIn(_) => true,
            _ => false,
        }
    }
}

/// Whether the hub answers, and how long to wait before asking again.
#[derive(Debug)]
pub struct HubHealth {
    pub online: bool,
    pub hub_name: String,
    /// Seconds to wait before the next health check after a failure.
    pub backoff_secs: u64,
    pub checking: bool,
}

/// Seconds the first health retry waits.
pub const FIRST_BACKOFF_SECS: u64 = 5;

/// Longest wait between health retries, in seconds.
pub const MAX_BACKOFF_SECS: u64 = 60;

impl Default for HubHealth {
    fn default() -> (r: Self)
        ensures
            r.online,
            r.hub_name@ == Seq::<char>::empty(),
            r.backoff_secs == FIRST_BACKOFF_SECS,
            !r.checking,
    {
        HubHealth { online: true, hub_name: String::new(), backoff_secs: FIRST_BACKOFF_SECS, checking: false }
    }
}

/// The server a friend is playing on.
#[derive(Clone, Debug, PartialEq)]
pub struct PresenceServer {
    pub server_id: String,
    pub mode: String,
    pub map: String,
}

#[derive(Clone, Debug, PartialEq)]
pub struct Presence {
    pub state: String,
    pub server: Option<PresenceServer>,
    pub last_seen: Option<i64>,
}

#[derive(Clone, Debug, PartialEq)]
pub struct FriendEntry {
    pub username: String,
    pub display_name: String,
    pub presence: Presence,
    pub relationship: String,
}

/// Friends, requests and search results as the hub last reported them.
#[derive(Debug)]
pub struct FriendsState {
    pub friends: Vec<FriendEntry>,
    pub pending_in: Vec<FriendEntry>,
    pub pending_out: Vec<FriendEntry>,
    pub search_results: Vec<FriendEntry>,
    pub search_query_sent: String,
    pub version: u64,
}

impl FriendsState {
    pub open spec fn is_empty_state(self) -> bool {
        &&& self.friends@.len() == 0
        &&& self.pending_in@.len() == 0
        &&& self.pending_out@.len() == 0
        &&& self.search_results@.len() == 0
        &&& self.search_query_sent@.len() == 0
        &&& self.version == 0
    }

    pub fn new() -> (r: Self)
        ensures
            r.is_empty_state(),
    {
        FriendsState {
            friends: Vec::new(),
            pending_in: Vec::new(),
            pending_out: Vec::new(),
            search_results: Vec::new(),
            search_query_sent: String::new(),
            version: 0,
        }
    }
}

#[derive(Clone, Copy, Debug, PartialEq, Eq, Structural)]
pub enum FormMode {
    Idle,
    Login,
    Register,
}

impl Default for FormMode {
    fn default() -> (r: Self)
        ensures
            r == FormMode::Idle,
    {
        FormMode::Idle
    }
}

/// Values behind the sidebar forms; the widgets are rebuilt from these.
#[derive(Debug)]
pub struct HubForms {
    pub mode: FormMode,
    pub identifier: String,
    pub password: String,
    pub username: String,
    pub email: String,
    pub confirm: String,
    pub search: String,
    pub error: Option<String>,
    pub notice: Option<String>,
    pub busy: bool,
    pub version: u64,
}

impl HubForms {
    pub fn new() -> (r: Self)
        ensures
            r.mode == FormMode::Idle,
            r.identifier@.len() == 0,
            r.password@.len() == 0,
            r.username@.len() == 0,
            r.email@.len() == 0,
            r.confirm@.len() == 0,
            r.search@.len() == 0,
            r.error is None,
            r.notice is None,
            !r.busy,
            r.version == 0,
    {
        HubForms {
            mode: FormMode::Idle,
            identifier: String::new(),
            password: String::new(),
            username: String::new(),
            email: String::new(),
            confirm: String::new(),
            search: String::new(),
            error: None,
            notice: None,
            busy: false,
            version: 0,
        }
    }
}

/// A match the hub told the client to join.
#[derive(Clone, Debug)]
pub struct PendingMatch {
    pub host: String,
    pub port: u16,
    pub ticket: String,
    pub mode: GameMode,
    pub map: MapId,
    pub server_id: String,
}

pub open spec fn opt_view(o: Option<String>) -> Option<Seq<char>> {
    match o {
        Some(s) => Some(s@),
        None => None,
    }
}

/// Checks the login form. On success the form turns busy and the trimmed
/// identifier to sign in with is returned; otherwise the form shows why.
pub fn submit_login(forms: &mut HubForms) -> (r: Option<String>)
    requires
        old(forms).version < u64::MAX,
    ensures
        final(forms).version == old(forms).version + 1,
        final(forms).mode == old(forms).mode,
        final(forms).identifier == old(forms).identifier,
        final(forms).password == old(forms).password,
        final(forms).username == old(forms).username,
        final(forms).email == old(forms).email,
        final(forms).confirm == old(forms).confirm,
        final(forms).search == old(forms).search,
        final(forms).notice == old(forms).notice,
        (trimmed(old(forms).identifier@).len() == 0 || old(forms).password@.len() == 0) ==> {
            &&& r is None
            &&& opt_view(final(forms).error) == Some("Enter your username or email and password"@)
            &&& final(forms).busy == old(forms).busy
        },
        !(trimmed(old(forms).identifier@).len() == 0 || old(forms).password@.len() == 0) ==> {
            &&& r matches Some(id) && id@ == trimmed(old(forms).identifier@)
            &&& final(forms).error is None
            &&& final(forms).busy
        },
{
    let identifier = trim(forms.identifier.as_str());
    if identifier.unicode_len() == 0 || forms.password.unicode_len() == 0 {
        forms.error = Some(String::from_str("Enter your username or email and password"));
        forms.version = forms.version + 1;
        return None;
    }
    let id = String::from_str(identifier);
    forms.busy = true;
    forms.error = None;
    forms.version = forms.version + 1;
    Some(id)
}

/// Checks the registration form. On success the form turns busy and the
/// trimmed username and email to register with are returned; otherwise the form
/// shows why: a missing field first, then a confirmation that differs.
pub fn submit_register(forms: &mut HubForms) -> (r: Option<(String, String)>)
    requires
        old(forms).version < u64::MAX,
    ensures
        final(forms).version == old(forms).version + 1,
        final(forms).mode == old(forms).mode,
        final(forms).identifier == old(forms).identifier,
        final(forms).password == old(forms).password,
        final(forms).username == old(forms).username,
        final(forms).email == old(forms).email,
        final(forms).confirm == old(forms).confirm,
        final(forms).search == old(forms).search,
        final(forms).notice == old(forms).notice,
        ({
            let missing = trimmed(old(forms).username@).len() == 0 || trimmed(old(forms).email@).len()
                == 0 || old(forms).password@.len() == 0;
            let mismatch = old(forms).password@ != old(forms).confirm@;
            &&& missing ==> r is None && opt_view(final(forms).error) == Some(
                "Fill in username, email and password"@,
            ) && final(forms).busy == old(forms).busy
            &&& (!missing && mismatch) ==> r is None && opt_view(final(forms).error) == Some(
                "Passwords do not match"@,
            ) && final(forms).busy == old(forms).busy
            &&& (!missing && !mismatch) ==> (r matches Some((u, e)) && u@ == trimmed(
                old(forms).username@,
            ) && e@ == trimmed(old(forms).email@)) && final(forms).error is None && final(forms).busy
        }),
{
    let username = trim(forms.username.as_str());
    let email = trim(forms.email.as_str());
    if username.unicode_len() == 0 || email.unicode_len() == 0 || forms.password.unicode_len() == 0 {
        forms.error = Some(String::from_str("Fill in username, email and password"));
    } else if !str_eq(forms.password.as_str(), forms.confirm.as_str()) {
        forms.error = Some(String::from_str("Passwords do not match"));
    } else {
        let u = String::from_str(username);
        let e = String::from_str(email);
        forms.busy = true;
        forms.error = None;
        forms.version = forms.version + 1;
        return Some((u, e));
    }
    forms.version = forms.version + 1;
    None
}

/// The query a search request sends: letters, digits and underscores only.
pub fn search_query(query: &str) -> (r: String)
    ensures
        r@ == identifier_chars(query@),
{
    keep_identifier_chars(query)
}

/// What the search box asks for once typing settles: the trimmed text when it
/// has at least two characters. Otherwise the last query and its results are
/// dropped.
pub fn settle_search(forms: &HubForms, friends: &mut FriendsState) -> (r: Option<String>)
    requires
        old(friends).version < u64::MAX,
    ensures
        trimmed(forms.search@).len() >= 2 ==> {
            &&& r matches Some(q) && q@ == trimmed(forms.search@)
            &&& final(friends).search_query_sent@ == trimmed(forms.search@)
            &&& final(friends).search_results == old(friends).search_results
            &&& final(friends).version == old(friends).version
        },
        trimmed(forms.search@).len() < 2 ==> {
            &&& r is None
            &&& final(friends).search_query_sent@.len() == 0
            &&& final(friends).search_results@.len() == 0
            &&& final(friends).version == old(friends).version + 1
        },
        final(friends).friends == old(friends).friends,
        final(friends).pending_in == old(friends).pending_in,
        final(friends).pending_out == old(friends).pending_out,
{
    let query = trim(forms.search.as_str());
    if query.unicode_len() >= 2 {
        friends.search_query_sent = String::from_str(query);
        Some(String::from_str(query))
    } else {
        friends.search_query_sent = String::new();
        friends.search_results = Vec::new();
        friends.version = friends.version + 1;
        None
    }
}

/// The two-letter mark on the profile button: the first two characters of the
/// username in capitals, or a dash when no account is known.
pub fn profile_initials(session: &HubSession) -> (r: String)
    ensures
        match session.spec_account() {
            Some(a) => r@ == uppercase(prefix_chars(a.username@, 2)),
            None => r@ == "—"@,
        },
{
    match session.account() {
        Some(account) => {
            let first = take_chars(account.username.as_str(), 2);
            to_uppercase(first.as_str())
        },
        None => String::from_str("—"),
    }
}

/// The hub is known to be down (and one is configured).
pub open spec fn spec_hub_offline(session: HubSession, health_online: bool) -> bool {
    !health_online && !(session is NoHub)
}

pub fn hub_offline(session: &HubSession, health: &HubHealth) -> (r: bool)
    ensures
        r == spec_hub_offline(*session, health.online),
{
    !health.online && !matches!(session, HubSession::NoHub)
}

/// Badges on the profile button.
#[derive(Clone, Copy, Debug, PartialEq, Eq, Structural)]
pub enum Badge {
    Offline,
    Requests,
}

/// Whether a badge shows: the offline badge while the hub is down, the request
/// badge while signed in with friend requests waiting and the hub up.
pub fn badge_shown(badge: Badge, session: &HubSession, health: &HubHealth, friends: &FriendsState) -> (r: bool)
    ensures
        r == match badge {
            Badge::Offline => spec_hub_offline(*session, health.online),
            Badge::Requests => !spec_hub_offline(*session, health.online) && *session is LoggedIn
                && friends.pending_in@.len() > 0,
        },
{
    let offline = hub_offline(session, health);
    match badge {
        Badge::Offline => offline,
        Badge::Requests => !offline && session.logged_in() && friends.pending_in.len() > 0,
    }
}

/// How a friend's presence reads in the drawer.
pub open spec fn spec_presence_status(presence: Presence, online: bool) -> Seq<char> {
    if !online {
        "unknown"@
    } else {
        match presence.server {
            Some(server) => {
                let mode = match GameMode::spec_from_key(server.mode@) {
                    Some(m) => m.spec_name(),
                    None => "match"@,
                };
                let map = match MapId::spec_from_key(server.map@) {
                    Some(m) => m.spec_name(),
                    None => Seq::<char>::empty(),
                };
                "In match · "@ + map + " "@ + mode
            },
            None => if presence.state@ == "online"@ || presence.state@ == "in_menu"@ {
                "Online"@
            } else if presence.state@ == "in_match"@ {
                "In match"@
            } else {
                "Offline"@
            },
        }
    }
}

pub fn presence_status(presence: &Presence, online: bool) -> (r: String)
    ensures
        r@ == spec_presence_status(*presence, online),
{
    if !online {
        return String::from_str("unknown");
    }
    match &presence.server {
        Some(server) => {
            let mode = match GameMode::from_key(server.mode.as_str()) {
                Some(m) => m.name(),
                None => "match",
            };
            let map = match MapId::from_key(server.map.as_str()) {
                Some(m) => m.name(),
                None => {
                    proof {
                        reveal_strlit("");
                    }
                    ""
                },
            };
            let mut r = String::from_str("In match · ");
            r.append(map);
            r.append(" ");
            r.append(mode);
            r
        },
        None => {
            let state = presence.state.as_str();
            if str_eq(state, "online") || str_eq(state, "in_menu") {
                String::from_str("Online")
            } else if str_eq(state, "in_match") {
                String::from_str("In match")
            } else {
                String::from_str("Offline")
            }
        },
    }
}

/// What a button in the friends drawer does.
#[derive(Clone, Debug, PartialEq, Eq)]
pub enum DrawerAction {
    ShowLogin,
    ShowRegister,
    Cancel,
    SubmitLogin,
    SubmitRegister,
    Logout,
    AddFriend(String),
    Accept(String),
    Decline(String),
    Remove(String),
    Join(String),
    DismissNotice,
}

/// Which list a person row belongs to.
#[derive(Clone, Copy, Debug, PartialEq, Eq, Structural)]
pub enum RowKind {
    Friend,
    PendingIn,
    PendingOut,
    Search,
}

/// A small button on a person row.
#[derive(Clone, Debug)]
pub struct RowButton {
    pub action: DrawerAction,
    pub label: &'static str,
    pub enabled: bool,
}

pub open spec fn button_is(b: RowButton, action: DrawerAction, label: Seq<char>, enabled: bool) -> bool {
    b.action == action && b.label@ == label && b.enabled == enabled
}

/// The buttons of a person row. Friends get a join button while on a server and a
/// remove button; incoming requests accept or decline; outgoing requests show as
/// sent; search results offer what the relationship allows. Buttons that reach the
/// hub are enabled only while it is up.
pub open spec fn spec_row_buttons(entry: FriendEntry, online: bool, kind: RowKind, b: Seq<RowButton>) -> bool {
    let name = entry.username;
    match kind {
        RowKind::Friend => match entry.presence.server {
            Some(server) => b.len() == 2 && button_is(b[0], DrawerAction::Join(server.server_id), "JOIN"@, online)
                && button_is(b[1], DrawerAction::Remove(name), "×"@, online),
            None => b.len() == 1 && button_is(b[0], DrawerAction::Remove(name), "×"@, online),
        },
        RowKind::PendingIn => b.len() == 2 && button_is(b[0], DrawerAction::Accept(name), "ACCEPT"@, online)
            && button_is(b[1], DrawerAction::Decline(name), "×"@, online),
        RowKind::PendingOut => b.len() == 1 && button_is(b[0], DrawerAction::Remove(name), "SENT"@, false),
        RowKind::Search => b.len() == 1 && if entry.relationship@ == "friends"@ {
            button_is(b[0], DrawerAction::DismissNotice, "FRIENDS"@, false)
        } else if entry.relationship@ == "pending_out"@ {
            button_is(b[0], DrawerAction::DismissNotice, "SENT"@, false)
        } else if entry.relationship@ == "pending_in"@ {
            button_is(b[0], DrawerAction::Accept(name), "ACCEPT"@, online)
        } else {
            button_is(b[0], DrawerAction::AddFriend(name), "ADD"@, online)
        },
    }
}

pub fn row_buttons(entry: FriendEntry, online: bool, kind: RowKind) -> (r: Vec<RowButton>)
    ensures
        spec_row_buttons(entry, online, kind, r@),
{
    let mut r: Vec<RowButton> = Vec::new();
    let name = entry.username;
    match kind {
        RowKind::Friend => {
            if let Some(server) = entry.presence.server {
                r.push(RowButton { action: DrawerAction::Join(server.server_id), label: "JOIN", enabled: online });
            }
            r.push(RowButton { action: DrawerAction::Remove(name), label: "×", enabled: online });
        },
        RowKind::PendingIn => {
            let accept = DrawerAction::Accept(name.clone());
            r.push(RowButton { action: accept, label: "ACCEPT", enabled: online });
            r.push(RowButton { action: DrawerAction::Decline(name), label: "×", enabled: online });
        },
        RowKind::PendingOut => {
            r.push(RowButton { action: DrawerAction::Remove(name), label: "SENT", enabled: false });
        },
        RowKind::Search => {
            let relationship = entry.relationship.as_str();
            if str_eq(relationship, "friends") {
                r.push(RowButton { action: DrawerAction::DismissNotice, label: "FRIENDS", enabled: false });
            } else if str_eq(relationship, "pending_out") {
                r.push(RowButton { action: DrawerAction::DismissNotice, label: "SENT", enabled: false });
            } else if str_eq(relationship, "pending_in") {
                r.push(RowButton { action: DrawerAction::Accept(name), label: "ACCEPT", enabled: online });
            } else {
                r.push(RowButton { action: DrawerAction::AddFriend(name), label: "ADD", enabled: online });
            }
        },
    }
    r
}

/// The server part of a match reply.
#[derive(Clone, Debug, Default)]
pub struct MatchOffer {
    pub host: Option<String>,
    pub port: Option<u64>,
    pub mode: Option<String>,
    pub map: Option<String>,
    pub server_id: Option<String>,
}

/// What a successful reply held; absent fields are `None` or empty.
#[derive(Clone, Debug, Default)]
pub struct HubReply {
    /// The hub's name, as a health reply gives it.
    pub name: Option<String>,
    /// The hub's name, as a sign-in reply gives it.
    pub hub_name: Option<String>,
    /// The session token a sign-in reply hands out.
    pub session: Option<String>,
    pub account: Option<Account>,
    pub first_admin: Option<bool>,
    pub friends: Vec<FriendEntry>,
    pub pending_in: Vec<FriendEntry>,
    pub pending_out: Vec<FriendEntry>,
    pub results: Vec<FriendEntry>,
    pub ticket: Option<String>,
    pub server: MatchOffer,
}

/// What the client does after a reply, in order.
#[derive(Clone, Debug)]
pub enum HubCall {
    Health,
    Me,
    Friends,
    /// Report the player as being in the menu.
    PresenceInMenu,
    /// Report the player as online outside the menu.
    PresenceOnline,
    Search(String),
    /// Write the session token and username to the local store.
    Persist,
    /// Check the hub's health again after this many seconds.
    RetryIn(u64),
    Join(PendingMatch),
    Login { identifier: String, password: String },
    Register { username: String, email: String, password: String },
    /// Sign out: the hub is told, the stored token is forgotten.
    Logout,
    FriendRequest(String),
    Accept(String),
    Decline(String),
    Remove(String),
    JoinMatch(String),
    FindMatch(GameMode),
}

/// Everything a reply can change on the client.
#[derive(Debug)]
pub struct HubState {
    pub session: HubSession,
    pub health: HubHealth,
    /// The session token sent with each request.
    pub token: Option<String>,
    pub username: Option<String>,
    pub friends: FriendsState,
    pub forms: HubForms,
}

pub type EntryView = (Seq<char>, Seq<char>, Seq<char>, Option<(Seq<char>, Seq<char>, Seq<char>)>, Option<i64>, Seq<char>);

pub open spec fn entry_view(e: FriendEntry) -> EntryView {
    (
        e.username@,
        e.display_name@,
        e.presence.state@,
        match e.presence.server {
            Some(s) => Some((s.server_id@, s.mode@, s.map@)),
            None => None,
        },
        e.presence.last_seen,
        e.relationship@,
    )
}

pub open spec fn entries_view(v: Seq<FriendEntry>) -> Seq<EntryView> {
    v.map_values(|e: FriendEntry| entry_view(e))
}

fn same_entry(a: &FriendEntry, b: &FriendEntry) -> (r: bool)
    ensures
        r == (entry_view(*a) == entry_view(*b)),
{
    let server_same = match (&a.presence.server, &b.presence.server) {
        (Some(x), Some(y)) => x.server_id == y.server_id && x.mode == y.mode && x.map == y.map,
        (None, None) => true,
        _ => false,
    };
    a.username == b.username && a.display_name == b.display_name && a.presence.state == b.presence.state
        && server_same && a.presence.last_seen == b.presence.last_seen && a.relationship == b.relationship
}

/// Whether two lists hold the same people with the same presence.
pub fn same_entries(a: &Vec<FriendEntry>, b: &Vec<FriendEntry>) -> (r: bool)
    ensures
        r == (entries_view(a@) == entries_view(b@)),
{
    if a.len() != b.len() {
        assert(entries_view(a@).len() != entries_view(b@).len());
        return false;
    }
    let mut i: usize = 0;
    while i < a.len()
        invariant
            a@.len() == b@.len(),
            i <= a@.len(),
            forall|k: int| 0 <= k < i ==> entry_view(#[trigger] a@[k]) == entry_view(b@[k]),
        decreases a@.len() - i,
    {
        if !same_entry(&a[i], &b[i]) {
            assert(entries_view(a@)[i as int] != entries_view(b@)[i as int]);
            return false;
        }
        i += 1;
    }
    assert(entries_view(a@) =~= entries_view(b@));
    true
}

pub open spec fn or_empty(o: Option<String>) -> Seq<char> {
    match o {
        Some(s) => s@,
        None => Seq::empty(),
    }
}

/// The wait after the next failure: twice this one, at most `MAX_BACKOFF_SECS`.
pub open spec fn next_backoff(b: u64) -> u64 {
    if 2 * b > MAX_BACKOFF_SECS {
        MAX_BACKOFF_SECS
    } else {
        (2 * b) as u64
    }
}

/// The session once the hub stops answering: a signed-in account is kept for
/// when it comes back; without a hub nothing changes.
pub open spec fn offline_session(s: HubSession) -> HubSession {
    match s {
        HubSession::LoggedIn(a) => HubSession::Offline(Some(a)),
        HubSession::Offline(Some(a)) => HubSession::Offline(Some(a)),
        HubSession::NoHub => HubSession::NoHub,
        _ => HubSession::Offline(None),
    }
}

/// Requests the forms wait on.
pub open spec fn waits_on_form(r: HubRequest) -> bool {
    r is Login || r is Register || r is FindMatch || r is JoinMatch
}

/// The form stops waiting and shows `message`.
pub open spec fn form_failed(pre: HubForms, post: HubForms, message: Seq<char>) -> bool {
    &&& post == HubForms { busy: false, error: post.error, version: (pre.version + 1) as u64, ..pre }
    &&& opt_view(post.error) == Some(message)
}

/// The forms only redraw.
pub open spec fn form_redrawn(pre: HubForms, post: HubForms) -> bool {
    post == HubForms { version: (pre.version + 1) as u64, ..pre }
}

/// A failure to reach the hub: it is marked down, the next check waits the
/// current backoff, which doubles up to its limit, and a form waiting on the
/// request says so.
pub open spec fn unreachable_step(pre: HubState, request: HubRequest, post: HubState, calls: Seq<HubCall>) -> bool {
    &&& post.session == offline_session(pre.session)
    &&& post.health == HubHealth {
        online: false,
        checking: false,
        backoff_secs: next_backoff(pre.health.backoff_secs),
        hub_name: pre.health.hub_name,
    }
    &&& post.token == pre.token
    &&& post.username == pre.username
    &&& post.friends == pre.friends
    &&& calls =~= seq![HubCall::RetryIn(pre.health.backoff_secs)]
    &&& waits_on_form(request) ==> form_failed(pre.forms, post.forms, "Hub unreachable, try again"@)
    &&& !waits_on_form(request) ==> post.forms == pre.forms
}

/// The account a sign-in reply names, or a placeholder when it names none.
pub open spec fn signed_account(given: Option<Account>, a: Account) -> bool {
    match given {
        Some(g) => a == g,
        None => a.id == 0 && a.username@ == "?"@ && a.display_name@ == "?"@ && a.role@ == "player"@
            && a.email is None,
    }
}

/// The match a reply points to: fields the reply lacks fall back to the local
/// address, the default port and map, and empty strings.
pub open spec fn offered_match(v: HubReply, mode: GameMode, p: PendingMatch) -> bool {
    &&& p.host@ == match v.server.host {
        Some(h) => h@,
        None => "127.0.0.1"@,
    }
    &&& p.port == match v.server.port {
        Some(n) => n as u16,
        None => 27015u16,
    }
    &&& p.ticket@ == or_empty(v.ticket)
    &&& p.mode == mode
    &&& p.map == match v.server.map {
        Some(k) => match MapId::spec_from_key(k@) {
            Some(m) => m,
            None => MapId::Dust2,
        },
        None => MapId::Dust2,
    }
    &&& p.server_id@ == or_empty(v.server.server_id)
}

/// The mode a join reply names, or the default mode.
pub open spec fn offered_mode(key: Option<String>) -> GameMode {
    match key {
        Some(k) => match GameMode::spec_from_key(k@) {
            Some(m) => m,
            None => GameMode::TeamDeathmatch,
        },
        None => GameMode::TeamDeathmatch,
    }
}

/// The stored session is dropped and the player asked to sign in again.
pub open spec fn expired(pre: HubState, post: HubState) -> bool {
    &&& post.token is None
    &&& post.session is LoggedOut
    &&& post.username == pre.username
    &&& post.friends == pre.friends
    &&& post.forms == HubForms { notice: post.forms.notice, version: (pre.forms.version + 1) as u64, ..pre.forms }
    &&& opt_view(post.forms.notice) == Some("Session expired, sign in again"@)
}

/// A sign-in that succeeded: the account, its token and the hub's name are
/// kept, the form closes and forgets the passwords, and the friends list and
/// presence are asked for.
pub open spec fn signed_in_step(pre: HubState, v: HubReply, post: HubState, calls: Seq<HubCall>) -> bool {
    let up = HubHealth { online: true, checking: false, backoff_secs: FIRST_BACKOFF_SECS, ..pre.health };
    &&& match post.session {
        HubSession::LoggedIn(a) => signed_account(v.account, a) && opt_view(post.username) == Some(
            a.username@,
        ),
        _ => false,
    }
    &&& post.token == v.session
    &&& post.health == HubHealth { hub_name: post.health.hub_name, ..up }
    &&& post.health.hub_name@ == or_empty(v.hub_name)
    &&& post.friends == pre.friends
    &&& post.forms == HubForms {
        busy: false,
        error: None,
        mode: FormMode::Idle,
        password: post.forms.password,
        confirm: post.forms.confirm,
        notice: post.forms.notice,
        version: (pre.forms.version + 1) as u64,
        ..pre.forms
    }
    &&& post.forms.password@.len() == 0 && post.forms.confirm@.len() == 0
    &&& v.first_admin == Some(true) ==> opt_view(post.forms.notice) == Some(
        "You are the administrator of this hub"@,
    )
    &&& v.first_admin != Some(true) ==> post.forms.notice is None
    &&& calls =~= seq![HubCall::Persist, HubCall::Friends, HubCall::PresenceInMenu]
}

/// A reply that arrived, successful or not: the hub is marked up again, then the
/// reply is applied according to the request it answers.
pub open spec fn reply_step(
    pre: HubState,
    request: HubRequest,
    result: Result<HubReply, HubError>,
    post: HubState,
    calls: Seq<HubCall>,
) -> bool {
    let up = HubHealth { online: true, checking: false, backoff_secs: FIRST_BACKOFF_SECS, ..pre.health };
    let same = post.session == pre.session && post.token == pre.token && post.username == pre.username;
    match (request, result) {
        (HubRequest::Health, Ok(v)) => {
            &&& post.health == HubHealth { hub_name: post.health.hub_name, ..up }
            &&& post.health.hub_name@ == or_empty(v.name)
            &&& post.token == pre.token && post.username == pre.username
            &&& post.friends == pre.friends && post.forms == pre.forms
            &&& (pre.session matches HubSession::Offline(Some(_)) && pre.token is Some) ==> post.session
                is Connecting && calls =~= seq![HubCall::Me]
            &&& (pre.session matches HubSession::Offline(a) && !(a is Some && pre.token is Some)) ==> post.session
                is LoggedOut && calls.len() == 0
            &&& !(pre.session is Offline) ==> post.session == pre.session && calls.len() == 0
        },
        (HubRequest::Register, Ok(v)) | (HubRequest::Login, Ok(v)) => signed_in_step(pre, v, post, calls),
        (HubRequest::Register, Err(e)) | (HubRequest::Login, Err(e)) => {
            &&& same && post.health == up && post.friends == pre.friends
            &&& form_failed(pre.forms, post.forms, e.message@) && post.forms.error == Some(e.message)
            &&& calls.len() == 0
        },
        (HubRequest::Me, Ok(v)) => match v.account {
            Some(a) => {
                &&& post.session == HubSession::LoggedIn(a)
                &&& opt_view(post.username) == Some(a.username@)
                &&& post.token == pre.token
                &&& post.health == HubHealth { hub_name: post.health.hub_name, ..up }
                &&& post.health.hub_name@ == or_empty(v.hub_name)
                &&& post.friends == pre.friends && post.forms == pre.forms
                &&& calls =~= seq![HubCall::Friends, HubCall::PresenceInMenu]
            },
            None => same && post.health == up && post.friends == pre.friends && post.forms == pre.forms
                && calls.len() == 0,
        },
        (HubRequest::Me, Err(_)) => {
            &&& expired(pre, post) && post.health == up
            &&& calls =~= seq![HubCall::Persist, HubCall::Health]
        },
        (HubRequest::Logout, _) => {
            &&& post.session is LoggedOut && post.token == pre.token && post.username == pre.username
            &&& post.health == up
            &&& post.friends.is_empty_state()
            &&& form_redrawn(pre.forms, post.forms)
            &&& calls.len() == 0
        },
        (HubRequest::Friends, Ok(v)) => {
            &&& same && post.health == up && post.forms == pre.forms
            &&& calls.len() == 0
            &&& if entries_view(v.friends@) == entries_view(pre.friends.friends@) && entries_view(v.pending_in@)
                == entries_view(pre.friends.pending_in@) && entries_view(v.pending_out@) == entries_view(
                pre.friends.pending_out@,
            ) {
                post.friends == pre.friends
            } else {
                post.friends == FriendsState {
                    friends: v.friends,
                    pending_in: v.pending_in,
                    pending_out: v.pending_out,
                    version: (pre.friends.version + 1) as u64,
                    ..pre.friends
                }
            }
        },
        (HubRequest::Search, Ok(v)) => {
            &&& same && post.health == up && post.forms == pre.forms
            &&& post.friends == FriendsState {
                search_results: v.results,
                version: (pre.friends.version + 1) as u64,
                ..pre.friends
            }
            &&& calls.len() == 0
        },
        (HubRequest::FriendRequest(_), _) | (HubRequest::Accept(_), _) | (HubRequest::Decline(_), _) | (
            HubRequest::Remove(_),
            _,
        ) => {
            &&& same && post.health == up && post.friends == pre.friends && post.forms == pre.forms
            &&& pre.friends.search_query_sent@.len() == 0 ==> calls =~= seq![HubCall::Friends]
            &&& pre.friends.search_query_sent@.len() > 0 ==> calls.len() == 2 && calls[0] is Friends
                && match calls[1] {
                HubCall::Search(q) => q@ == pre.friends.search_query_sent@,
                _ => false,
            }
        },
        (HubRequest::FindMatch(mode), Ok(v)) => {
            &&& same && post.health == up && post.friends == pre.friends
            &&& post.forms == HubForms { busy: false, version: (pre.forms.version + 1) as u64, ..pre.forms }
            &&& calls.len() == 1 && match calls[0] {
                HubCall::Join(p) => offered_match(v, mode, p),
                _ => false,
            }
        },
        (HubRequest::JoinMatch(_), Ok(v)) => {
            &&& same && post.health == up && post.friends == pre.friends
            &&& post.forms == HubForms { busy: false, version: (pre.forms.version + 1) as u64, ..pre.forms }
            &&& calls.len() == 1 && match calls[0] {
                HubCall::Join(p) => offered_match(v, offered_mode(v.server.mode), p),
                _ => false,
            }
        },
        (HubRequest::FindMatch(_), Err(e)) | (HubRequest::JoinMatch(_), Err(e)) => {
            &&& same && post.health == up && post.friends == pre.friends
            &&& form_failed(pre.forms, post.forms, e.message@) && post.forms.error == Some(e.message)
            &&& calls.len() == 0
        },
        (_, Err(e)) => if e.code@ == "session_expired"@ {
            &&& expired(pre, post) && post.health == up
            &&& calls =~= seq![HubCall::Persist]
        } else {
            same && post.health == up && post.friends == pre.friends && post.forms == pre.forms && calls.len() == 0
        },
        _ => same && post.health == up && post.friends == pre.friends && post.forms == pre.forms && calls.len() == 0,
    }
}

/// Counters that a reply may step stay below their limit.
pub open spec fn counters_in_range(state: HubState) -> bool {
    state.forms.version < u64::MAX && state.friends.version < u64::MAX
}

/// Whether a reply can be applied to `state` without a counter running out.
pub fn counters_fit(state: &HubState) -> (r: bool)
    ensures
        r == counters_in_range(*state),
{
    state.forms.version < u64::MAX && state.friends.version < u64::MAX
}

fn name_or_empty(o: Option<String>) -> (r: String)
    ensures
        r@ == or_empty(o),
{
    match o {
        Some(s) => s,
        None => String::new(),
    }
}

fn fail_form(forms: &mut HubForms, message: String)
    requires
        old(forms).version < u64::MAX,
    ensures
        form_failed(*old(forms), *final(forms), message@),
        final(forms).error == Some(message),
{
    forms.busy = false;
    forms.error = Some(message);
    forms.version = forms.version + 1;
}

fn expire(state: &mut HubState)
    requires
        old(state).forms.version < u64::MAX,
    ensures
        expired(*old(state), *final(state)),
        final(state).health == old(state).health,
{
    state.token = None;
    state.session = HubSession::LoggedOut;
    state.forms.notice = Some(String::from_str("Session expired, sign in again"));
    state.forms.version = state.forms.version + 1;
}

fn offered_mode_of(key: &Option<String>) -> (r: GameMode)
    ensures
        r == offered_mode(*key),
{
    match key {
        Some(k) => match GameMode::from_key(k.as_str()) {
            Some(m) => m,
            None => GameMode::TeamDeathmatch,
        },
        None => GameMode::TeamDeathmatch,
    }
}

fn offer(v: HubReply, mode: GameMode) -> (p: PendingMatch)
    ensures
        offered_match(v, mode, p),
{
    let host = match v.server.host {
        Some(h) => h,
        None => String::from_str("127.0.0.1"),
    };
    let port: u16 = match v.server.port {
        Some(n) => n as u16,
        None => 27015,
    };
    let map = match v.server.map {
        Some(k) => match MapId::from_key(k.as_str()) {
            Some(m) => m,
            None => MapId::Dust2,
        },
        None => MapId::Dust2,
    };
    PendingMatch {
        host,
        port,
        ticket: name_or_empty(v.ticket),
        mode,
        map,
        server_id: name_or_empty(v.server.server_id),
    }
}

fn go_offline(state: &mut HubState, request: &HubRequest) -> (calls: Vec<HubCall>)
    requires
        old(state).forms.version < u64::MAX,
    ensures
        unreachable_step(*old(state), *request, *final(state), calls@),
{
    let delay = state.health.backoff_secs;
    state.health.online = false;
    state.health.checking = false;
    state.health.backoff_secs = if delay > MAX_BACKOFF_SECS / 2 {
        MAX_BACKOFF_SECS
    } else {
        delay * 2
    };
    let mut session = HubSession::NoHub;
    std::mem::swap(&mut session, &mut state.session);
    state.session = match session {
        HubSession::LoggedIn(a) => HubSession::Offline(Some(a)),
        HubSession::Offline(Some(a)) => HubSession::Offline(Some(a)),
        HubSession::NoHub => HubSession::NoHub,
        _ => HubSession::Offline(None),
    };
    let waits = match request {
        HubRequest::Login | HubRequest::Register | HubRequest::FindMatch(_) | HubRequest::JoinMatch(_) => true,
        _ => false,
    };
    if waits {
        fail_form(&mut state.forms, String::from_str("Hub unreachable, try again"));
    }
    let mut calls: Vec<HubCall> = Vec::new();
    calls.push(HubCall::RetryIn(delay));
    calls
}

fn signed_in(state: &mut HubState, v: HubReply) -> (calls: Vec<HubCall>)
    requires
        old(state).forms.version < u64::MAX,
        old(state).health.online,
        !old(state).health.checking,
        old(state).health.backoff_secs == FIRST_BACKOFF_SECS,
    ensures
        signed_in_step(*old(state), v, *final(state), calls@),
{
    let account = match v.account {
        Some(a) => a,
        None => Account {
            id: 0,
            username: String::from_str("?"),
            display_name: String::from_str("?"),
            role: String::from_str("player"),
            email: None,
        },
    };
    state.token = v.session;
    state.username = Some(account.username.clone());
    let mut calls: Vec<HubCall> = Vec::new();
    calls.push(HubCall::Persist);
    state.health.hub_name = name_or_empty(v.hub_name);
    state.forms.busy = false;
    state.forms.error = None;
    state.forms.mode = FormMode::Idle;
    state.forms.password = String::new();
    state.forms.confirm = String::new();
    state.forms.notice = match v.first_admin {
        Some(true) => Some(String::from_str("You are the administrator of this hub")),
        _ => None,
    };
    state.forms.version = state.forms.version + 1;
    state.session = HubSession::LoggedIn(account);
    calls.push(HubCall::Friends);
    calls.push(HubCall::PresenceInMenu);
    calls
}

/// Applies one reply of the hub to the client: what the session, health,
/// friends and forms become, and the requests and other work that follow.
pub fn apply_event(state: &mut HubState, request: &HubRequest, result: Result<HubReply, HubError>) -> (calls: Vec<HubCall>)
    requires
        counters_in_range(*old(state)),
    ensures
        match result {
            Err(e) => if e.transport {
                unreachable_step(*old(state), *request, *final(state), calls@)
            } else {
                reply_step(*old(state), *request, result, *final(state), calls@)
            },
            Ok(_) => reply_step(*old(state), *request, result, *final(state), calls@),
        },
{
    let transport = match &result {
        Err(e) => e.transport,
        Ok(_) => false,
    };
    if transport {
        return go_offline(state, request);
    }
    answer(state, request, result)
}

#[verifier::rlimit(60)]
fn answer(state: &mut HubState, request: &HubRequest, result: Result<HubReply, HubError>) -> (calls: Vec<HubCall>)
    requires
        counters_in_range(*old(state)),
    ensures
        reply_step(*old(state), *request, result, *final(state), calls@),
{
    let ghost pre = *state;
    state.health.online = true;
    state.health.checking = false;
    state.health.backoff_secs = FIRST_BACKOFF_SECS;
    let mut calls: Vec<HubCall> = Vec::new();
    match (request, result) {
        (HubRequest::Health, Ok(v)) => {
            state.health.hub_name = name_or_empty(v.name);
            let offline = match &state.session {
                HubSession::Offline(_) => true,
                _ => false,
            };
            let keeps_account = match &state.session {
                HubSession::Offline(Some(_)) => true,
                _ => false,
            };
            if offline {
                if keeps_account && state.token.is_some() {
                    state.session = HubSession::Connecting;
                    calls.push(HubCall::Me);
                } else {
                    state.session = HubSession::LoggedOut;
                }
            }
        },
        (HubRequest::Register, Ok(v)) | (HubRequest::Login, Ok(v)) => {
            calls = signed_in(state, v);
        },
        (HubRequest::Register, Err(e)) | (HubRequest::Login, Err(e)) => {
            fail_form(&mut state.forms, e.message);
        },
        (HubRequest::Me, Ok(v)) => {
            match v.account {
                Some(account) => {
                    state.username = Some(account.username.clone());
                    state.health.hub_name = name_or_empty(v.hub_name);
                    state.session = HubSession::LoggedIn(account);
                    calls.push(HubCall::Friends);
                    calls.push(HubCall::PresenceInMenu);
                },
                None => {},
            }
        },
        (HubRequest::Me, Err(_)) => {
            expire(state);
            calls.push(HubCall::Persist);
            calls.push(HubCall::Health);
        },
        (HubRequest::Logout, _) => {
            state.session = HubSession::LoggedOut;
            state.friends = FriendsState::new();
            state.forms.version = state.forms.version + 1;
        },
        (HubRequest::Friends, Ok(v)) => {
            let unchanged = same_entries(&v.friends, &state.friends.friends) && same_entries(
                &v.pending_in,
                &state.friends.pending_in,
            ) && same_entries(&v.pending_out, &state.friends.pending_out);
            if !unchanged {
                state.friends.friends = v.friends;
                state.friends.pending_in = v.pending_in;
                state.friends.pending_out = v.pending_out;
                state.friends.version = state.friends.version + 1;
            }
        },
        (HubRequest::Search, Ok(v)) => {
            state.friends.search_results = v.results;
            state.friends.version = state.friends.version + 1;
        },
        (HubRequest::FriendRequest(_), _) | (HubRequest::Accept(_), _) | (HubRequest::Decline(_), _) | (
            HubRequest::Remove(_),
            _,
        ) => {
            calls.push(HubCall::Friends);
            if state.friends.search_query_sent.as_str().unicode_len() > 0 {
                calls.push(HubCall::Search(state.friends.search_query_sent.clone()));
            }
        },
        (HubRequest::FindMatch(mode), Ok(v)) => {
            state.forms.busy = false;
            state.forms.version = state.forms.version + 1;
            calls.push(HubCall::Join(offer(v, *mode)));
        },
        (HubRequest::JoinMatch(_), Ok(v)) => {
            state.forms.busy = false;
            state.forms.version = state.forms.version + 1;
            let mode = offered_mode_of(&v.server.mode);
            calls.push(HubCall::Join(offer(v, mode)));
        },
        (HubRequest::FindMatch(_), Err(e)) | (HubRequest::JoinMatch(_), Err(e)) => {
            fail_form(&mut state.forms, e.message);
        },
        (_, Err(e)) => {
            if str_eq(e.code.as_str(), "session_expired") {
                expire(state);
                calls.push(HubCall::Persist);
            }
        },
        _ => {},
    }
    calls
}

/// The hub connection the local store remembers.
#[derive(Clone, Debug)]
pub struct StoredHub {
    pub url: String,
    pub session: Option<String>,
    pub username: Option<String>,
}

/// The hub to talk to at start-up, with the session remembered for it.
#[derive(Clone, Debug)]
pub struct HubStart {
    pub url: String,
    pub token: Option<String>,
    pub username: Option<String>,
}

/// The address configured for the hub: the environment's when it sets one, the
/// stored one otherwise; an empty address means no hub.
pub open spec fn configured_url(env_url: Option<String>, stored: Option<StoredHub>) -> Option<Seq<char>> {
    let chosen = match env_url {
        Some(u) => Some(u@),
        None => match stored {
            Some(h) => Some(h.url@),
            None => None,
        },
    };
    match chosen {
        Some(u) => if u.len() == 0 {
            None
        } else {
            Some(u)
        },
        None => None,
    }
}

/// Picks the hub at start-up. Trailing slashes are dropped from the address; the
/// stored session and username are kept only when they were stored for the same
/// address.
pub fn hub_start(env_url: Option<String>, stored: Option<StoredHub>) -> (r: Option<HubStart>)
    ensures
        match configured_url(env_url, stored) {
            None => r is None,
            Some(u) => match r {
                Some(h) => {
                    &&& h.url@ == without_trailing_slashes(u)
                    &&& match stored {
                        Some(st) => if without_trailing_slashes(st.url@) == h.url@ {
                            h.token == st.session && h.username == st.username
                        } else {
                            h.token is None && h.username is None
                        },
                        None => h.token is None && h.username is None,
                    }
                },
                None => false,
            },
        },
{
    let chosen = match env_url {
        Some(u) => Some(u),
        None => match &stored {
            Some(h) => Some(h.url.clone()),
            None => None,
        },
    };
    let url = match chosen {
        Some(u) => {
            if u.as_str().unicode_len() == 0 {
                return None;
            }
            trim_trailing_slashes(u.as_str())
        },
        None => {
            return None;
        },
    };
    match stored {
        Some(st) => {
            let stored_url = trim_trailing_slashes(st.url.as_str());
            if stored_url == url {
                Some(HubStart { url, token: st.session, username: st.username })
            } else {
                Some(HubStart { url, token: None, username: None })
            }
        },
        None => Some(HubStart { url, token: None, username: None }),
    }
}

/// The session a client starts in, and its first request: with a remembered
/// token it signs in again, otherwise it checks the hub's health.
pub fn start_session(token: &Option<String>) -> (r: (HubSession, HubCall))
    ensures
        token is Some ==> r.0 is Connecting && r.1 is Me,
        token is None ==> r.0 is LoggedOut && r.1 is Health,
{
    if token.is_some() {
        (HubSession::Connecting, HubCall::Me)
    } else {
        (HubSession::LoggedOut, HubCall::Health)
    }
}

/// Starts a health check when the hub is down, none is running and the retry
/// time has come (`due`).
pub fn begin_health_check(health: &mut HubHealth, due: bool) -> (r: bool)
    ensures
        r == (!old(health).online && !old(health).checking && due),
        r ==> *final(health) == (HubHealth { checking: true, ..*old(health) }),
        !r ==> *final(health) == *old(health),
{
    if !health.online && !health.checking && due {
        health.checking = true;
        true
    } else {
        false
    }
}

/// The regular refreshes of a signed-in client while the hub is up: the friends
/// list when its timer fires in the menu, presence when its timer fires.
pub fn periodic_calls(
    session: &HubSession,
    health: &HubHealth,
    friends_due: bool,
    presence_due: bool,
    in_menu: bool,
) -> (r: Vec<HubCall>)
    ensures
        !(*session is LoggedIn && health.online) ==> r@.len() == 0,
        (*session is LoggedIn && health.online) ==> {
            let first = if friends_due && in_menu {
                seq![HubCall::Friends]
            } else {
                Seq::empty()
            };
            let second = if presence_due {
                if in_menu {
                    seq![HubCall::PresenceInMenu]
                } else {
                    seq![HubCall::PresenceOnline]
                }
            } else {
                Seq::empty()
            };
            r@ =~= first + second
        },
{
    let mut r: Vec<HubCall> = Vec::new();
    if !session.logged_in() || !health.online {
        return r;
    }
    if friends_due && in_menu {
        r.push(HubCall::Friends);
    }
    if presence_due {
        if in_menu {
            r.push(HubCall::PresenceInMenu);
        } else {
            r.push(HubCall::PresenceOnline);
        }
    }
    r
}

/// A signed-in client that loses the hub keeps its account; once a health check
/// answers again and the token is still there, it signs in again with it.
pub proof fn lemma_reconnect_resumes(
    s0: HubState,
    request: HubRequest,
    s1: HubState,
    c1: Seq<HubCall>,
    reply: HubReply,
    s2: HubState,
    c2: Seq<HubCall>,
)
    requires
        s0.session is LoggedIn,
        s0.token is Some,
        unreachable_step(s0, request, s1, c1),
        reply_step(s1, HubRequest::Health, Ok(reply), s2, c2),
    ensures
        s1.session == HubSession::Offline(s0.session.spec_account()),
        s2.session is Connecting,
        c2 =~= seq![HubCall::Me],
        s2.health.online,
{
}

/// The wait between health retries never passes its limit, and each failure at
/// least keeps it.
pub proof fn lemma_backoff_bounded(b: u64)
    requires
        b <= MAX_BACKOFF_SECS,
    ensures
        next_backoff(b) <= MAX_BACKOFF_SECS,
        b <= next_backoff(b),
{
}

/// The health bookkeeping of every hub event: failing to reach the hub marks it
/// down, keeps a signed-in account for later, asks for a retry after the current
/// wait and doubles the wait up to its limit; any answer marks the hub up and
/// resets the wait. So the wait always stays between its first value and its limit.
pub proof fn lemma_health_after_event(
    pre: HubState,
    request: HubRequest,
    result: Result<HubReply, HubError>,
    post: HubState,
    calls: Seq<HubCall>,
)
    requires
        FIRST_BACKOFF_SECS <= pre.health.backoff_secs <= MAX_BACKOFF_SECS,
        match result {
            Err(e) => if e.transport {
                unreachable_step(pre, request, post, calls)
            } else {
                reply_step(pre, request, result, post, calls)
            },
            Ok(_) => reply_step(pre, request, result, post, calls),
        },
    ensures
        FIRST_BACKOFF_SECS <= post.health.backoff_secs <= MAX_BACKOFF_SECS,
        (result matches Err(e) && e.transport) ==> {
            &&& !post.health.online
            &&& post.health.backoff_secs == next_backoff(pre.health.backoff_secs)
            &&& post.session == offline_session(pre.session)
            &&& calls == seq![HubCall::RetryIn(pre.health.backoff_secs)]
        },
        !(result matches Err(e) && e.transport) ==> post.health.online && post.health.backoff_secs
            == FIRST_BACKOFF_SECS,
{
}

/// The login form was submitted: a blank identifier or password is refused with a
/// message, otherwise the form waits and the trimmed identifier signs in.
pub open spec fn login_submitted(pre: HubForms, post: HubForms, calls: Seq<HubCall>) -> bool {
    &&& post.version == pre.version + 1
    &&& if trimmed(pre.identifier@).len() == 0 || pre.password@.len() == 0 {
        calls.len() == 0 && opt_view(post.error) == Some("Enter your username or email and password"@) && post
            == HubForms { error: post.error, version: post.version, ..pre }
    } else {
        calls.len() == 1 && post == HubForms { busy: true, error: None, version: post.version, ..pre } && match calls[0] {
            HubCall::Login { identifier, password } => identifier@ == trimmed(pre.identifier@) && password@
                == pre.password@,
            _ => false,
        }
    }
}

/// The registration form was submitted: a missing field, then a confirmation
/// that differs, is refused with a message; otherwise the form waits and the
/// trimmed username and email register.
pub open spec fn register_submitted(pre: HubForms, post: HubForms, calls: Seq<HubCall>) -> bool {
    let missing = trimmed(pre.username@).len() == 0 || trimmed(pre.email@).len() == 0 || pre.password@.len() == 0;
    let mismatch = pre.password@ != pre.confirm@;
    &&& post.version == pre.version + 1
    &&& post == HubForms { error: post.error, busy: post.busy, version: post.version, ..pre }
    &&& missing ==> calls.len() == 0 && post.busy == pre.busy && opt_view(post.error) == Some(
        "Fill in username, email and password"@,
    )
    &&& (!missing && mismatch) ==> calls.len() == 0 && post.busy == pre.busy && opt_view(post.error) == Some(
        "Passwords do not match"@,
    )
    &&& (!missing && !mismatch) ==> calls.len() == 1 && post.busy && post.error is None && match calls[0] {
        HubCall::Register { username, email, password } => username@ == trimmed(pre.username@) && email@
            == trimmed(pre.email@) && password@ == pre.password@,
        _ => false,
    }
}

/// What pressing a drawer button does to the forms, the focus and the friends
/// state, and which requests it sends. Every press redraws the forms.
pub open spec fn spec_drawer_action(
    action: DrawerAction,
    pre: HubForms,
    post: HubForms,
    focus: Option<FieldId>,
    post_focus: Option<FieldId>,
    friends: FriendsState,
    post_friends: FriendsState,
    calls: Seq<HubCall>,
) -> bool {
    let redrawn = post.version == pre.version + 1;
    match action {
        DrawerAction::ShowLogin => redrawn && post == HubForms {
            mode: FormMode::Login,
            error: None,
            version: post.version,
            ..pre
        } && post_focus == Some(FieldId::Identifier) && post_friends == friends && calls.len() == 0,
        DrawerAction::ShowRegister => redrawn && post == HubForms {
            mode: FormMode::Register,
            error: None,
            version: post.version,
            ..pre
        } && post_focus == Some(FieldId::Username) && post_friends == friends && calls.len() == 0,
        DrawerAction::Cancel => redrawn && post == HubForms {
            mode: FormMode::Idle,
            error: None,
            version: post.version,
            ..pre
        } && post_focus is None && post_friends == friends && calls.len() == 0,
        DrawerAction::SubmitLogin => post_focus == focus && post_friends == friends && post.version > 0
            && login_submitted(pre, HubForms { version: (post.version - 1) as u64, ..post }, calls),
        DrawerAction::SubmitRegister => post_focus == focus && post_friends == friends && post.version > 0
            && register_submitted(pre, HubForms { version: (post.version - 1) as u64, ..post }, calls),
        DrawerAction::Logout => {
            &&& redrawn && post == HubForms { search: post.search, version: post.version, ..pre }
            &&& post.search@.len() == 0
            &&& post_friends == FriendsState { search_results: post_friends.search_results, ..friends }
            &&& post_friends.search_results@.len() == 0
            &&& post_focus == focus
            &&& calls.len() == 1 && calls[0] is Logout
        },
        DrawerAction::AddFriend(name) => redrawn && post == HubForms { version: post.version, ..pre }
            && post_focus == focus && post_friends == friends && calls.len() == 1 && calls[0]
            == HubCall::FriendRequest(name),
        DrawerAction::Accept(name) => redrawn && post == HubForms { version: post.version, ..pre }
            && post_focus == focus && post_friends == friends && calls.len() == 1 && calls[0]
            == HubCall::Accept(name),
        DrawerAction::Decline(name) => redrawn && post == HubForms { version: post.version, ..pre }
            && post_focus == focus && post_friends == friends && calls.len() == 1 && calls[0]
            == HubCall::Decline(name),
        DrawerAction::Remove(name) => redrawn && post == HubForms { version: post.version, ..pre }
            && post_focus == focus && post_friends == friends && calls.len() == 1 && calls[0]
            == HubCall::Remove(name),
        DrawerAction::Join(server_id) => redrawn && post == HubForms {
            busy: true,
            error: None,
            version: post.version,
            ..pre
        } && post_focus == focus && post_friends == friends && calls.len() == 1 && calls[0]
            == HubCall::JoinMatch(server_id),
        DrawerAction::DismissNotice => redrawn && post == HubForms {
            notice: None,
            version: post.version,
            ..pre
        } && post_focus == focus && post_friends == friends && calls.len() == 0,
    }
}

fn login_call(forms: &mut HubForms) -> (calls: Vec<HubCall>)
    requires
        old(forms).version < u64::MAX,
    ensures
        login_submitted(*old(forms), *final(forms), calls@),
{
    let mut calls: Vec<HubCall> = Vec::new();
    if let Some(identifier) = submit_login(forms) {
        calls.push(HubCall::Login { identifier, password: forms.password.clone() });
    }
    calls
}

fn register_call(forms: &mut HubForms) -> (calls: Vec<HubCall>)
    requires
        old(forms).version < u64::MAX,
    ensures
        register_submitted(*old(forms), *final(forms), calls@),
{
    let mut calls: Vec<HubCall> = Vec::new();
    if let Some((username, email)) = submit_register(forms) {
        calls.push(HubCall::Register { username, email, password: forms.password.clone() });
    }
    calls
}

/// Handles a press of a drawer button.
pub fn drawer_action(
    action: DrawerAction,
    forms: &mut HubForms,
    focus: &mut Option<FieldId>,
    friends: &mut FriendsState,
) -> (calls: Vec<HubCall>)
    requires
        old(forms).version < u64::MAX - 1,
    ensures
        spec_drawer_action(action, *old(forms), *final(forms), *old(focus), *final(focus), *old(friends), *final(friends), calls@),
{
    let mut calls: Vec<HubCall> = Vec::new();
    match action {
        DrawerAction::ShowLogin => {
            forms.mode = FormMode::Login;
            forms.error = None;
            *focus = Some(FieldId::Identifier);
        },
        DrawerAction::ShowRegister => {
            forms.mode = FormMode::Register;
            forms.error = None;
            *focus = Some(FieldId::Username);
        },
        DrawerAction::Cancel => {
            forms.mode = FormMode::Idle;
            forms.error = None;
            *focus = None;
        },
        DrawerAction::SubmitLogin => {
            calls = login_call(forms);
        },
        DrawerAction::SubmitRegister => {
            calls = register_call(forms);
        },
        DrawerAction::Logout => {
            calls.push(HubCall::Logout);
            forms.search = String::new();
            friends.search_results = Vec::new();
        },
        DrawerAction::AddFriend(name) => {
            calls.push(HubCall::FriendRequest(name));
        },
        DrawerAction::Accept(name) => {
            calls.push(HubCall::Accept(name));
        },
        DrawerAction::Decline(name) => {
            calls.push(HubCall::Decline(name));
        },
        DrawerAction::Remove(name) => {
            calls.push(HubCall::Remove(name));
        },
        DrawerAction::Join(server_id) => {
            forms.busy = true;
            forms.error = None;
            calls.push(HubCall::JoinMatch(server_id));
        },
        DrawerAction::DismissNotice => {
            forms.notice = None;
        },
    }
    forms.version = forms.version + 1;
    calls
}

/// Handles enter in a field: it submits the login form from its fields, and the
/// registration form from any field but the search box.
pub fn field_submit(field: FieldId, forms: &mut HubForms) -> (calls: Vec<HubCall>)
    requires
        old(forms).version < u64::MAX,
    ensures
        (old(forms).mode == FormMode::Login && (field == FieldId::Identifier || field == FieldId::Password))
            ==> login_submitted(*old(forms), *final(forms), calls@),
        (old(forms).mode == FormMode::Register && field != FieldId::Search) ==> register_submitted(
            *old(forms),
            *final(forms),
            calls@,
        ),
        !(old(forms).mode == FormMode::Login && (field == FieldId::Identifier || field == FieldId::Password))
            && !(old(forms).mode == FormMode::Register && field != FieldId::Search) ==> *final(forms)
            == *old(forms) && calls@.len() == 0,
{
    if forms.mode == FormMode::Login && (field == FieldId::Identifier || field == FieldId::Password) {
        login_call(forms)
    } else if forms.mode == FormMode::Register && field != FieldId::Search {
        register_call(forms)
    } else {
        Vec::new()
    }
}

/// `s` without every leading copy of `p`.
pub open spec fn strip_prefixes(s: Seq<char>, p: Seq<char>) -> Seq<char>
    decreases s.len(),
{
    if p.len() > 0 && s.len() >= p.len() && s.take(p.len() as int) == p {
        strip_prefixes(s.skip(p.len() as int), p)
    } else {
        s
    }
}

fn strip_prefixes_of(s: &str, p: &str) -> (r: String)
    ensures
        r@ == strip_prefixes(s@, p@),
{
    let n = s.unicode_len();
    let m = p.unicode_len();
    let mut k: usize = 0;
    assert(s@.skip(0) =~= s@);
    while m > 0 && n - k >= m && str_eq(s.substring_char(k, k + m), p)
        invariant
            n == s@.len(),
            m == p@.len(),
            k <= n,
            strip_prefixes(s@, p@) == strip_prefixes(s@.skip(k as int), p@),
        decreases n - k,
    {
        proof {
            let rest = s@.skip(k as int);
            assert(rest.take(m as int) =~= s@.subrange(k as int, k + m));
            assert(rest.skip(m as int) =~= s@.skip(k + m));
        }
        k = k + m;
    }
    proof {
        let rest = s@.skip(k as int);
        if m > 0 && n - k >= m {
            assert(rest.take(m as int) =~= s@.subrange(k as int, k + m));
        }
    }
    String::from_str(s.substring_char(k, n))
}

/// The hub's name as the drawer shows it: the name it reported, or else its
/// address without the scheme.
pub open spec fn spec_hub_label(hub_name: Seq<char>, url: Option<Seq<char>>) -> Seq<char> {
    if hub_name.len() > 0 {
        hub_name
    } else {
        match url {
            Some(u) => strip_prefixes(strip_prefixes(u, "http://"@), "https://"@),
            None => Seq::empty(),
        }
    }
}

pub fn hub_label(hub_name: &str, url: Option<&str>) -> (r: String)
    ensures
        r@ == spec_hub_label(hub_name@, match url {
            Some(u) => Some(u@),
            None => None,
        }),
{
    if hub_name.unicode_len() > 0 {
        return String::from_str(hub_name);
    }
    match url {
        Some(u) => {
            let plain = strip_prefixes_of(u, "http://");
            strip_prefixes_of(plain.as_str(), "https://")
        },
        None => String::new(),
    }
}

/// Friends whose presence is not offline.
pub open spec fn online_friends(friends: Seq<FriendEntry>) -> nat
    decreases friends.len(),
{
    if friends.len() == 0 {
        0
    } else {
        online_friends(friends.drop_last()) + if friends.last().presence.state@ != "offline"@ {
            1nat
        } else {
            0nat
        }
    }
}

/// The online count is the number of friends whose presence is not "offline"
/// (a friend in a match counts as online).
pub proof fn lemma_online_count(friends: Seq<FriendEntry>)
    ensures
        online_friends(friends) == friends.filter(|e: FriendEntry| e.presence.state@ != "offline"@).len(),
    decreases friends.len(),
{
    reveal_with_fuel(Seq::<_>::filter, 1);
    if friends.len() > 0 {
        lemma_online_count(friends.drop_last());
    }
}

fn count_online(friends: &Vec<FriendEntry>) -> (r: usize)
    ensures
        r == online_friends(friends@),
        r == friends@.filter(|e: FriendEntry| e.presence.state@ != "offline"@).len(),
{
    proof {
        lemma_online_count(friends@);
    }
    let mut n: usize = 0;
    let mut i: usize = 0;
    while i < friends.len()
        invariant
            i <= friends@.len(),
            n == online_friends(friends@.take(i as int)),
            n <= i,
        decreases friends@.len() - i,
    {
        assert(friends@.take(i + 1).drop_last() =~= friends@.take(i as int));
        if !str_eq(friends[i].presence.state.as_str(), "offline") {
            n = n + 1;
        }
        i = i + 1;
    }
    assert(friends@.take(friends@.len() as int) =~= friends@);
    n
}

/// The top of the friends drawer.
#[derive(Clone, Debug)]
pub enum DrawerHeader {
    /// A known account: its name, a line with its role and the hub, and whether
    /// signing out is possible.
    Account { username: String, detail: String, can_log_out: bool },
    /// Signing in with a remembered token.
    SigningIn { hub: String },
    /// No hub is configured.
    NoHub,
    /// Signed out, with the hub's name.
    SignedOut { hub_line: String },
}

/// How the friends list part of the drawer reads.
#[derive(Clone, Debug)]
pub struct FriendsPanel {
    pub online: usize,
    pub error: Option<String>,
    /// The search box holds a query: results are shown instead of friends.
    pub searching: bool,
    /// A search found nobody.
    pub no_match: bool,
    /// No friends and no sent requests: a hint is shown.
    pub empty_hint: bool,
    /// Number of incoming requests, shown below friends when not searching.
    pub requests: usize,
}

/// The forms part of the drawer.
#[derive(Clone, Debug)]
pub enum DrawerBody {
    Friends(FriendsPanel),
    Nothing,
    /// The sign-in and create-account buttons.
    Choice { enabled: bool },
    LoginForm { error: Option<String>, submit: &'static str, enabled: bool, back_enabled: bool },
    RegisterForm { error: Option<String>, submit: &'static str, enabled: bool, back_enabled: bool },
}

/// The friends drawer as it is drawn.
#[derive(Clone, Debug)]
pub struct DrawerView {
    pub header: DrawerHeader,
    pub offline_banner: Option<String>,
    pub notice: Option<String>,
    pub body: DrawerBody,
}

/// The drawer's content for the current state. `hub` is the hub's label and
/// `retry_secs` the whole seconds until the next health check.
pub open spec fn spec_drawer_view(
    session: HubSession,
    online: bool,
    hub: Seq<char>,
    retry_secs: u64,
    friends: FriendsState,
    forms: HubForms,
    v: DrawerView,
) -> bool {
    let offline = spec_hub_offline(session, online);
    let enabled = !offline && !forms.busy;
    &&& match session {
        HubSession::LoggedIn(a) | HubSession::Offline(Some(a)) => match v.header {
            DrawerHeader::Account { username, detail, can_log_out } => username@ == a.username@ && detail@
                == a.role@ + " · "@ + hub && can_log_out == !offline,
            _ => false,
        },
        HubSession::Connecting => match v.header {
            DrawerHeader::SigningIn { hub: h } => h@ == hub,
            _ => false,
        },
        HubSession::NoHub => v.header is NoHub,
        _ => match v.header {
            DrawerHeader::SignedOut { hub_line } => hub_line@ == "Hub: "@ + hub,
            _ => false,
        },
    }
    &&& offline ==> opt_view(v.offline_banner) == Some(
        "HUB OFFLINE · retrying in "@ + spec_decimal(retry_secs as nat) + "s"@,
    )
    &&& !offline ==> v.offline_banner is None
    &&& opt_view(v.notice) == opt_view(forms.notice)
    &&& match session {
        HubSession::LoggedIn(_) | HubSession::Offline(Some(_)) => match v.body {
            DrawerBody::Friends(p) => {
                let searching = trimmed(forms.search@).len() >= 2;
                &&& p.online == online_friends(friends.friends@)
                &&& opt_view(p.error) == opt_view(forms.error)
                &&& p.searching == searching
                &&& p.no_match == (searching && friends.search_results@.len() == 0)
                &&& p.empty_hint == (!searching && friends.friends@.len() == 0 && friends.pending_out@.len() == 0)
                &&& p.requests == friends.pending_in@.len()
            },
            _ => false,
        },
        HubSession::NoHub | HubSession::Connecting => v.body is Nothing,
        _ => match forms.mode {
            FormMode::Idle => v.body == DrawerBody::Choice { enabled },
            FormMode::Login => match v.body {
                DrawerBody::LoginForm { error, submit, enabled: e, back_enabled } => opt_view(error) == opt_view(
                    forms.error,
                ) && submit@ == (if forms.busy {
                    "SIGNING IN…"@
                } else {
                    "LOG IN"@
                }) && e == enabled && back_enabled == !forms.busy,
                _ => false,
            },
            FormMode::Register => match v.body {
                DrawerBody::RegisterForm { error, submit, enabled: e, back_enabled } => opt_view(error)
                    == opt_view(forms.error) && submit@ == (if forms.busy {
                    "CREATING…"@
                } else {
                    "CREATE ACCOUNT"@
                }) && e == enabled && back_enabled == !forms.busy,
                _ => false,
            },
        },
    }
}

fn clone_opt(o: &Option<String>) -> (r: Option<String>)
    ensures
        opt_view(r) == opt_view(*o),
{
    match o {
        Some(s) => Some(s.clone()),
        None => None,
    }
}

fn joined(a: &str, b: &str, c: &str) -> (r: String)
    ensures
        r@ == a@ + b@ + c@,
{
    let mut r = String::from_str(a);
    r.append(b);
    r.append(c);
    r
}

/// Lays out the friends drawer.
pub fn drawer_view(
    session: &HubSession,
    health: &HubHealth,
    hub: &str,
    retry_secs: u64,
    friends: &FriendsState,
    forms: &HubForms,
) -> (v: DrawerView)
    ensures
        spec_drawer_view(*session, health.online, hub@, retry_secs, *friends, *forms, v),
{
    let offline = hub_offline(session, health);
    let enabled = !offline && !forms.busy;
    let header = match session {
        HubSession::LoggedIn(a) | HubSession::Offline(Some(a)) => DrawerHeader::Account {
            username: a.username.clone(),
            detail: joined(a.role.as_str(), " · ", hub),
            can_log_out: !offline,
        },
        HubSession::Connecting => DrawerHeader::SigningIn { hub: String::from_str(hub) },
        HubSession::NoHub => DrawerHeader::NoHub,
        _ => DrawerHeader::SignedOut { hub_line: joined("Hub: ", hub, "") },
    };
    let offline_banner = if offline {
        let secs = decimal(retry_secs);
        Some(joined("HUB OFFLINE · retrying in ", secs.as_str(), "s"))
    } else {
        None
    };
    let body = match session {
        HubSession::LoggedIn(_) | HubSession::Offline(Some(_)) => {
            let searching = trim(forms.search.as_str()).unicode_len() >= 2;
            DrawerBody::Friends(
                FriendsPanel {
                    online: count_online(&friends.friends),
                    error: clone_opt(&forms.error),
                    searching,
                    no_match: searching && friends.search_results.len() == 0,
                    empty_hint: !searching && friends.friends.len() == 0 && friends.pending_out.len() == 0,
                    requests: friends.pending_in.len(),
                },
            )
        },
        HubSession::NoHub | HubSession::Connecting => DrawerBody::Nothing,
        _ => match forms.mode {
            FormMode::Idle => DrawerBody::Choice { enabled },
            FormMode::Login => DrawerBody::LoginForm {
                error: clone_opt(&forms.error),
                submit: if forms.busy {
                    "SIGNING IN…"
                } else {
                    "LOG IN"
                },
                enabled,
                back_enabled: !forms.busy,
            },
            FormMode::Register => DrawerBody::RegisterForm {
                error: clone_opt(&forms.error),
                submit: if forms.busy {
                    "CREATING…"
                } else {
                    "CREATE ACCOUNT"
                },
                enabled,
                back_enabled: !forms.busy,
            },
        },
    };
    proof {
        reveal_strlit("");
    }
    DrawerView { header, offline_banner, notice: clone_opt(&forms.notice), body }
}

/// While the hub is down every social control in the drawer is disabled: the
/// person rows' buttons, signing out, and the sign-in forms' buttons.
pub proof fn lemma_offline_disables_social(
    session: HubSession,
    online: bool,
    hub: Seq<char>,
    retry_secs: u64,
    friends: FriendsState,
    forms: HubForms,
    view: DrawerView,
    entry: FriendEntry,
    kind: RowKind,
    buttons: Seq<RowButton>,
)
    requires
        spec_hub_offline(session, online),
        spec_drawer_view(session, online, hub, retry_secs, friends, forms, view),
        spec_row_buttons(entry, false, kind, buttons),
    ensures
        forall|i: int| 0 <= i < buttons.len() ==> !(#[trigger] buttons[i]).enabled,
        view.offline_banner is Some,
        view.header matches DrawerHeader::Account { can_log_out, .. } ==> !can_log_out,
        view.body matches DrawerBody::Choice { enabled } ==> !enabled,
        view.body matches DrawerBody::LoginForm { enabled, .. } ==> !enabled,
        view.body matches DrawerBody::RegisterForm { enabled, .. } ==> !enabled,
{
}

/// How the drawer was last asked to behave.
#[derive(Clone, Copy, Debug, PartialEq, Eq, Structural)]
pub struct DrawerFlags {
    /// Held open by a click or the keyboard.
    pub pinned: bool,
    /// Has keyboard focus.
    pub focused: bool,
    /// Closed on purpose; stays closed until the pointer leaves it.
    pub dismissed: bool,
}

/// The drawer's flags after one frame of input. Leaving the drawer with the
/// pointer forgets a dismissal; without a field being typed into, tab moves the
/// focus in or out, a click or (while focused) enter or space toggles pinning,
/// and escape closes it.
pub open spec fn spec_drawer_input(
    f: DrawerFlags,
    hover: bool,
    typing: bool,
    tab: bool,
    click: bool,
    confirm: bool,
    escape: bool,
) -> DrawerFlags {
    let f1 = if !hover {
        DrawerFlags { dismissed: false, ..f }
    } else {
        f
    };
    let f2 = if tab && !typing {
        DrawerFlags { focused: !f1.focused, dismissed: false, ..f1 }
    } else {
        f1
    };
    let f3 = if click || (f2.focused && !typing && confirm) {
        DrawerFlags { pinned: !f2.pinned, dismissed: f2.pinned, ..f2 }
    } else {
        f2
    };
    if escape && !typing {
        DrawerFlags { pinned: false, focused: false, dismissed: true }
    } else {
        f3
    }
}

pub fn drawer_input(
    flags: &mut DrawerFlags,
    hover: bool,
    typing: bool,
    tab: bool,
    click: bool,
    confirm: bool,
    escape: bool,
)
    ensures
        *final(flags) == spec_drawer_input(*old(flags), hover, typing, tab, click, confirm, escape),
{
    if !hover {
        flags.dismissed = false;
    }
    if tab && !typing {
        flags.focused = !flags.focused;
        flags.dismissed = false;
    }
    if click || (flags.focused && !typing && confirm) {
        flags.pinned = !flags.pinned;
        flags.dismissed = !flags.pinned;
    }
    if escape && !typing {
        flags.pinned = false;
        flags.focused = false;
        flags.dismissed = true;
    }
}

/// Whether the drawer opens: unless dismissed, while hovered or just left, pinned,
/// focused, or holding a field being typed into.
pub fn drawer_open(flags: &DrawerFlags, hover: bool, just_left: bool, typing: bool) -> (r: bool)
    ensures
        r == (!flags.dismissed && (hover || just_left || flags.pinned || flags.focused || typing)),
{
    !flags.dismissed && (hover || just_left || flags.pinned || flags.focused || typing)
}

/// The two profile lines of the home page: who plays, and where.
pub fn profile_lines(session: &HubSession, health: &HubHealth) -> (r: (String, String))
    ensures
        match *session {
            HubSession::LoggedIn(a) => r.0@ == uppercase(a.username@) && r.1@ == (if health.hub_name@.len() == 0 {
                "ONLINE"@
            } else {
                uppercase(health.hub_name@)
            }),
            HubSession::Offline(Some(a)) => r.0@ == uppercase(a.username@) && r.1@ == "HUB OFFLINE"@,
            _ => r.0@ == "LOCAL PLAYER"@ && r.1@ == "DUST 2"@,
        },
{
    match session {
        HubSession::LoggedIn(a) => {
            let name = to_uppercase(a.username.as_str());
            let line = if health.hub_name.as_str().unicode_len() == 0 {
                String::from_str("ONLINE")
            } else {
                to_uppercase(health.hub_name.as_str())
            };
            (name, line)
        },
        HubSession::Offline(Some(a)) => (to_uppercase(a.username.as_str()), String::from_str("HUB OFFLINE")),
        _ => (String::from_str("LOCAL PLAYER"), String::from_str("DUST 2")),
    }
}

/// The name a joining player asks the match server for: the hub username, or
/// `PLAYER` without one.
pub fn join_name(username: Option<&str>) -> (r: String)
    ensures
        r@ == match username {
            Some(u) => u@,
            None => "PLAYER"@,
        },
{
    match username {
        Some(u) => String::from_str(u),
        None => String::from_str("PLAYER"),
    }
}

/// What follows the attempt to open a connection to an offered match. Once it is
/// open the configuration takes the match's mode and map, this process becomes a
/// client and loading begins (`true`); otherwise the forms show why.
pub fn join_pending(
    pending: &PendingMatch,
    connection: Result<(), String>,
    config: &mut GameConfig,
    role: &mut NetRole,
    forms: &mut HubForms,
) -> (r: bool)
    requires
        old(forms).version < u64::MAX,
    ensures
        r == connection is Ok,
        r ==> final(config).mode == pending.mode && final(config).map == pending.map && *final(role)
            == NetRole::Client && *final(forms) == *old(forms),
        !r ==> *final(config) == *old(config) && *final(role) == *old(role) && final(forms).version == old(
            forms,
        ).version + 1 && opt_view(final(forms).error) == Some(
            ("Could not open a connection: "@ + connection->Err_0@),
        ) && final(forms).notice == old(forms).notice && final(forms).busy == old(forms).busy,
        final(config).match_settings == old(config).match_settings,
        final(config).bot_difficulty == old(config).bot_difficulty,
{
    match connection {
        Ok(()) => {
            config.mode = pending.mode;
            config.map = pending.map;
            *role = NetRole::Client;
            true
        },
        Err(error) => {
            let mut message = String::from_str("Could not open a connection: ");
            message.append(error.as_str());
            forms.error = Some(message);
            forms.version = forms.version + 1;
            false
        },
    }
}

} // verus!

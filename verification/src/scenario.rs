//! The end-to-end walkthrough of the online features, driven through the same
//! handlers the menus use: create or sign into an account, befriend another
//! player, start or join an online match, and capture screenshots along the way.
//! Each frame the walkthrough looks at the client state and says what to do next;
//! the caller takes the screenshots, sends the requests and ends the process.
use vstd::prelude::*;
use crate::config::GameMode;
use crate::game::GameState;
use crate::hub::{FriendEntry, FriendsState, FormMode, HubCall, HubError, HubForms, HubReply, HubRequest, HubSession};
use crate::text::{eq_ignore_ascii_case, same_ignoring_ascii_case, str_eq};

verus! {

/// Which player the walkthrough plays: the host starts the match, the friend
/// joins it.
#[derive(Clone, Copy, PartialEq, Eq, Debug, Structural)]
pub enum ScenarioRole {
    Host,
    Friend,
}

impl ScenarioRole {
    pub fn name(self) -> (r: &'static str)
        ensures
            r@ == (if self == ScenarioRole::Host {
                "host"@
            } else {
                "friend"@
            }),
    {
        match self {
            ScenarioRole::Host => "host",
            ScenarioRole::Friend => "friend",
        }
    }
}

/// The role named by the walkthrough's setting: `friend`, or the host otherwise.
pub fn scenario_role(key: Option<&str>) -> (r: ScenarioRole)
    ensures
        r == (if key matches Some(k) && k@ == "friend"@ {
            ScenarioRole::Friend
        } else {
            ScenarioRole::Host
        }),
{
    match key {
        Some(k) => if str_eq(k, "friend") {
            ScenarioRole::Friend
        } else {
            ScenarioRole::Host
        },
        None => ScenarioRole::Host,
    }
}

/// The screenshots the walkthrough takes, each at most once.
#[derive(Clone, Copy, PartialEq, Eq, Debug, Structural)]
pub enum Capture {
    SidebarRegister,
    SidebarSearch,
    SidebarRequest,
    SidebarFriends,
    SidebarJoin,
    Gameplay1,
    Gameplay2,
    Gameplay3,
    Finished,
}

impl Capture {
    pub open spec fn spec_name(self) -> Seq<char> {
        match self {
            Capture::SidebarRegister => "sidebar-register"@,
            Capture::SidebarSearch => "sidebar-search"@,
            Capture::SidebarRequest => "sidebar-request"@,
            Capture::SidebarFriends => "sidebar-friends"@,
            Capture::SidebarJoin => "sidebar-join"@,
            Capture::Gameplay1 => "gameplay-1"@,
            Capture::Gameplay2 => "gameplay-2"@,
            Capture::Gameplay3 => "gameplay-3"@,
            Capture::Finished => "finished"@,
        }
    }

    /// The file name stem of the screenshot.
    pub fn name(self) -> (r: &'static str)
        ensures
            r@ == self.spec_name(),
    {
        match self {
            Capture::SidebarRegister => "sidebar-register",
            Capture::SidebarSearch => "sidebar-search",
            Capture::SidebarRequest => "sidebar-request",
            Capture::SidebarFriends => "sidebar-friends",
            Capture::SidebarJoin => "sidebar-join",
            Capture::Gameplay1 => "gameplay-1",
            Capture::Gameplay2 => "gameplay-2",
            Capture::Gameplay3 => "gameplay-3",
            Capture::Finished => "finished",
        }
    }
}

/// What the walkthrough asks of its caller.
#[derive(Clone, Debug)]
pub enum ScenarioAction {
    /// End the process, successfully or not.
    Exit { success: bool },
    Shot(Capture),
    Hub(HubCall),
}

/// Where the walkthrough stands. Times are milliseconds since the client started.
#[derive(Debug)]
pub struct Scenario {
    pub role: ScenarioRole,
    pub user: String,
    pub pass: String,
    pub email: String,
    pub friend: String,
    pub mode: GameMode,
    pub exit_after_ms: u64,
    pub step: u32,
    pub step_at_ms: u64,
    pub last_poll_ms: u64,
    pub playing_since_ms: Option<u64>,
    pub captures: Vec<Capture>,
    pub started: bool,
}

/// Milliseconds from `since` to `now`, none when `now` is earlier.
pub open spec fn elapsed(now: u64, since: u64) -> int {
    if now >= since {
        now - since
    } else {
        0
    }
}

impl Scenario {
    /// A walkthrough at its start. Without an email, one is made from the user
    /// name; the mode is the one the key names, deathmatch otherwise.
    pub fn new(
        role: ScenarioRole,
        user: String,
        pass: String,
        email: Option<String>,
        friend: String,
        mode_key: Option<&str>,
        exit_after_ms: u64,
    ) -> (r: Self)
        ensures
            r.role == role,
            r.user == user,
            r.pass == pass,
            r.email@ == (match email {
                Some(e) => e@,
                None => user@ + "@example.com"@,
            }),
            r.friend == friend,
            r.mode == (match mode_key {
                Some(k) => match GameMode::spec_from_key(k@) {
                    Some(m) => m,
                    None => GameMode::Deathmatch,
                },
                None => GameMode::Deathmatch,
            }),
            r.exit_after_ms == exit_after_ms,
            r.step == 0,
            r.step_at_ms == 0,
            r.last_poll_ms == 0,
            r.playing_since_ms is None,
            r.captures@.len() == 0,
            !r.started,
    {
        let email = match email {
            Some(e) => e,
            None => {
                let mut e = String::from_str(user.as_str());
                e.append("@example.com");
                e
            },
        };
        let mode = match mode_key {
            Some(k) => match GameMode::from_key(k) {
                Some(m) => m,
                None => GameMode::Deathmatch,
            },
            None => GameMode::Deathmatch,
        };
        Scenario {
            role,
            user,
            pass,
            email,
            friend,
            mode,
            exit_after_ms,
            step: 0,
            step_at_ms: 0,
            last_poll_ms: 0,
            playing_since_ms: None,
            captures: Vec::new(),
            started: false,
        }
    }
}

/// Captures after asking for `c`: each screenshot is taken once.
pub open spec fn after_shot(caps: Seq<Capture>, c: Capture) -> Seq<Capture> {
    if caps.contains(c) {
        caps
    } else {
        caps.push(c)
    }
}

/// The action asking for `c`, if it was not taken yet.
pub open spec fn shot_actions(caps: Seq<Capture>, c: Capture) -> Seq<ScenarioAction> {
    if caps.contains(c) {
        Seq::empty()
    } else {
        seq![ScenarioAction::Shot(c)]
    }
}

/// Fields of the walkthrough that never change.
pub open spec fn same_setup(a: Scenario, b: Scenario) -> bool {
    a.role == b.role && a.user == b.user && a.pass == b.pass && a.email == b.email && a.friend == b.friend
        && a.mode == b.mode && a.exit_after_ms == b.exit_after_ms
}

fn shot(scn: &mut Scenario, c: Capture, actions: &mut Vec<ScenarioAction>)
    ensures
        final(scn).captures@ == after_shot(old(scn).captures@, c),
        final(actions)@ == old(actions)@ + shot_actions(old(scn).captures@, c),
        same_setup(*old(scn), *final(scn)),
        final(scn).step == old(scn).step,
        final(scn).step_at_ms == old(scn).step_at_ms,
        final(scn).last_poll_ms == old(scn).last_poll_ms,
        final(scn).playing_since_ms == old(scn).playing_since_ms,
        final(scn).started == old(scn).started,
{
    let mut i: usize = 0;
    while i < scn.captures.len()
        invariant
            i <= scn.captures@.len(),
            forall|k: int| 0 <= k < i ==> scn.captures@[k] != c,
        decreases scn.captures@.len() - i,
    {
        if scn.captures[i] == c {
            assert(scn.captures@[i as int] == c);
            assert(old(actions)@ + Seq::<ScenarioAction>::empty() =~= old(actions)@);
            return;
        }
        i += 1;
    }
    scn.captures.push(c);
    actions.push(ScenarioAction::Shot(c));
    assert(actions@ =~= old(actions)@ + seq![ScenarioAction::Shot(c)]);
}

/// Whether some entry's username is `name` up to ASCII case.
pub open spec fn names(entries: Seq<FriendEntry>, name: Seq<char>) -> bool {
    exists|i: int| 0 <= i < entries.len() && same_ignoring_ascii_case(#[trigger] entries[i].username@, name)
}

/// The first entry whose username is `name` up to ASCII case.
pub open spec fn first_named(entries: Seq<FriendEntry>, name: Seq<char>, i: int) -> bool {
    &&& 0 <= i < entries.len()
    &&& same_ignoring_ascii_case(entries[i].username@, name)
    &&& forall|j: int| 0 <= j < i ==> !same_ignoring_ascii_case(#[trigger] entries[j].username@, name)
}

fn find_named(entries: &Vec<FriendEntry>, name: &str) -> (r: Option<usize>)
    ensures
        match r {
            Some(i) => first_named(entries@, name@, i as int),
            None => !names(entries@, name@),
        },
{
    let mut i: usize = 0;
    while i < entries.len()
        invariant
            i <= entries@.len(),
            forall|j: int| 0 <= j < i ==> !same_ignoring_ascii_case(#[trigger] entries@[j].username@, name@),
        decreases entries@.len() - i,
    {
        if eq_ignore_ascii_case(entries[i].username.as_str(), name) {
            return Some(i);
        }
        i += 1;
    }
    None
}

/// The step where the walkthrough starts: signed in already, it skips ahead;
/// signed out, it fills in the registration form once.
pub open spec fn step0(
    pre: Scenario,
    post: Scenario,
    now: u64,
    session: HubSession,
    forms: HubForms,
    post_forms: HubForms,
    actions: Seq<ScenarioAction>,
) -> bool {
    &&& actions.len() == 0
    &&& post.captures == pre.captures && post.last_poll_ms == pre.last_poll_ms && post.playing_since_ms
        == pre.playing_since_ms
    &&& if session is LoggedIn {
        post.step == 2 && post.step_at_ms == now && post.started == pre.started && post_forms == forms
    } else if session is LoggedOut && !pre.started {
        &&& post.step == 1 && post.step_at_ms == now && post.started
        &&& post_forms == HubForms {
            username: post_forms.username,
            email: post_forms.email,
            password: post_forms.password,
            confirm: post_forms.confirm,
            mode: FormMode::Register,
            version: (forms.version + 1) as u64,
            ..forms
        }
        &&& post_forms.username@ == pre.user@ && post_forms.email@ == pre.email@
        &&& post_forms.password@ == pre.pass@ && post_forms.confirm@ == pre.pass@
    } else {
        post.step == pre.step && post.step_at_ms == pre.step_at_ms && post.started == pre.started
            && post_forms == forms
    }
}

/// Registration: after a moment the filled-in form is captured and submitted,
/// once; the walkthrough moves on when signed in.
pub open spec fn step1(
    pre: Scenario,
    post: Scenario,
    now: u64,
    session: HubSession,
    forms: HubForms,
    post_forms: HubForms,
    actions: Seq<ScenarioAction>,
) -> bool {
    let fire = elapsed(now, pre.step_at_ms) > 1500 && !pre.captures@.contains(Capture::SidebarRegister);
    &&& post.last_poll_ms == pre.last_poll_ms && post.playing_since_ms == pre.playing_since_ms && post.started
        == pre.started
    &&& fire ==> {
        &&& post.captures@ == pre.captures@.push(Capture::SidebarRegister)
        &&& post_forms == HubForms { busy: true, version: (forms.version + 1) as u64, ..forms }
        &&& actions.len() == 2 && actions[0] == ScenarioAction::Shot(Capture::SidebarRegister)
        &&& match actions[1] {
            ScenarioAction::Hub(HubCall::Register { username, email, password }) => username@ == pre.user@
                && email@ == pre.email@ && password@ == pre.pass@,
            _ => false,
        }
    }
    &&& !fire ==> post.captures@ == pre.captures@ && post_forms == forms && actions.len() == 0
    &&& session is LoggedIn ==> post.step == 2 && post.step_at_ms == now
    &&& !(session is LoggedIn) ==> post.step == pre.step && post.step_at_ms == pre.step_at_ms
}

fn step0_run(
    scn: &mut Scenario,
    now: u64,
    session: &HubSession,
    forms: &mut HubForms,
) -> (actions: Vec<ScenarioAction>)
    requires
        old(forms).version < u64::MAX,
    ensures
        same_setup(*old(scn), *final(scn)),
        step0(*old(scn), *final(scn), now, *session, *old(forms), *final(forms), actions@),
{
    match session {
        HubSession::LoggedIn(_) => {
            scn.step = 2;
            scn.step_at_ms = now;
        },
        HubSession::LoggedOut => {
            if !scn.started {
                scn.started = true;
                forms.username = scn.user.clone();
                forms.email = scn.email.clone();
                forms.password = scn.pass.clone();
                forms.confirm = scn.pass.clone();
                forms.mode = FormMode::Register;
                forms.version = forms.version + 1;
                scn.step = 1;
                scn.step_at_ms = now;
            }
        },
        _ => {},
    }
    Vec::new()
}

fn step1_run(
    scn: &mut Scenario,
    now: u64,
    session: &HubSession,
    forms: &mut HubForms,
) -> (actions: Vec<ScenarioAction>)
    requires
        old(forms).version < u64::MAX,
    ensures
        same_setup(*old(scn), *final(scn)),
        step1(*old(scn), *final(scn), now, *session, *old(forms), *final(forms), actions@),
{
    let mut actions: Vec<ScenarioAction> = Vec::new();
    let waited = now >= scn.step_at_ms && now - scn.step_at_ms > 1500;
    let mut taken = false;
    let mut i: usize = 0;
    while i < scn.captures.len()
        invariant
            i <= scn.captures@.len(),
            taken == (exists|k: int| 0 <= k < i && scn.captures@[k] == Capture::SidebarRegister),
        decreases scn.captures@.len() - i,
    {
        if scn.captures[i] == Capture::SidebarRegister {
            taken = true;
        }
        i += 1;
    }
    proof {
        if taken {
            let k = choose|k: int| 0 <= k < i && scn.captures@[k] == Capture::SidebarRegister;
            assert(scn.captures@.contains(Capture::SidebarRegister));
        } else {
            assert(!scn.captures@.contains(Capture::SidebarRegister)) by {
                if scn.captures@.contains(Capture::SidebarRegister) {
                    let k = choose|k: int| 0 <= k < scn.captures@.len() && scn.captures@[k] == Capture::SidebarRegister;
                    assert(0 <= k < i && scn.captures@[k] == Capture::SidebarRegister);
                }
            }
        }
    }
    if waited && !taken {
        scn.captures.push(Capture::SidebarRegister);
        actions.push(ScenarioAction::Shot(Capture::SidebarRegister));
        forms.busy = true;
        forms.version = forms.version + 1;
        actions.push(
            ScenarioAction::Hub(
                HubCall::Register { username: scn.user.clone(), email: scn.email.clone(), password: scn.pass.clone() },
            ),
        );
    }
    if session.logged_in() {
        scn.step = 2;
        scn.step_at_ms = now;
    }
    actions
}

/// What the host does when it polls: ask for the friend by name, then send the
/// request (capturing the search), unless they are friends or asked already.
pub open spec fn poll_host(s: Scenario, forms: HubForms, friends: FriendsState) -> (
    Seq<ScenarioAction>,
    HubForms,
    Seq<Capture>,
) {
    if names(friends.friends@ + friends.pending_out@, s.friend@) {
        (Seq::empty(), forms, s.captures@)
    } else if forms.search@.len() == 0 {
        (
            seq![ScenarioAction::Hub(HubCall::Search(s.friend))],
            HubForms { search: s.friend, version: (forms.version + 1) as u64, ..forms },
            s.captures@,
        )
    } else {
        (
            shot_actions(s.captures@, Capture::SidebarSearch).push(
                ScenarioAction::Hub(HubCall::FriendRequest(s.friend)),
            ),
            forms,
            after_shot(s.captures@, Capture::SidebarSearch),
        )
    }
}

/// What the friend does when it polls: accept the host's request once it is there
/// (capturing it).
pub open spec fn poll_friend(s: Scenario, friends: FriendsState) -> (Seq<ScenarioAction>, Seq<Capture>) {
    if names(friends.pending_in@, s.friend@) {
        let i = choose|i: int| first_named(friends.pending_in@, s.friend@, i);
        (
            shot_actions(s.captures@, Capture::SidebarRequest).push(
                ScenarioAction::Hub(HubCall::Accept(friends.pending_in@[i].username)),
            ),
            after_shot(s.captures@, Capture::SidebarRequest),
        )
    } else {
        (Seq::empty(), s.captures@)
    }
}

/// Befriending: every three seconds the friends list is refreshed and the role's
/// part done; once the other player is a friend the search box is cleared and the
/// walkthrough moves on.
pub open spec fn step2(
    pre: Scenario,
    post: Scenario,
    now: u64,
    friends: FriendsState,
    forms: HubForms,
    post_forms: HubForms,
    actions: Seq<ScenarioAction>,
) -> bool {
    let poll = elapsed(now, pre.last_poll_ms) > 3000;
    let (acts, forms1, caps1) = if !poll {
        (Seq::<ScenarioAction>::empty(), forms, pre.captures@)
    } else {
        match pre.role {
            ScenarioRole::Host => {
                let (a, f, c) = poll_host(pre, forms, friends);
                (seq![ScenarioAction::Hub(HubCall::Friends)] + a, f, c)
            },
            ScenarioRole::Friend => {
                let (a, c) = poll_friend(pre, friends);
                (seq![ScenarioAction::Hub(HubCall::Friends)] + a, forms, c)
            },
        }
    };
    &&& actions == acts
    &&& post.captures@ == caps1
    &&& post.last_poll_ms == (if poll {
        now
    } else {
        pre.last_poll_ms
    })
    &&& post.playing_since_ms == pre.playing_since_ms && post.started == pre.started
    &&& names(friends.friends@, pre.friend@) ==> {
        &&& post_forms == HubForms { search: post_forms.search, version: (forms1.version + 1) as u64, ..forms1 }
        &&& post_forms.search@.len() == 0
        &&& post.step == 3 && post.step_at_ms == now
    }
    &&& !names(friends.friends@, pre.friend@) ==> post_forms == forms1 && post.step == pre.step
        && post.step_at_ms == pre.step_at_ms
}

proof fn lemma_names_concat(a: Seq<FriendEntry>, b: Seq<FriendEntry>, name: Seq<char>)
    ensures
        names(a + b, name) == (names(a, name) || names(b, name)),
{
    let ab = a + b;
    if names(ab, name) {
        let i = choose|i: int| 0 <= i < ab.len() && same_ignoring_ascii_case(#[trigger] ab[i].username@, name);
        if i < a.len() {
            assert(ab[i] == a[i]);
        } else {
            assert(ab[i] == b[i - a.len()]);
        }
    }
    if names(a, name) {
        let i = choose|i: int| 0 <= i < a.len() && same_ignoring_ascii_case(#[trigger] a[i].username@, name);
        assert(ab[i] == a[i]);
    }
    if names(b, name) {
        let i = choose|i: int| 0 <= i < b.len() && same_ignoring_ascii_case(#[trigger] b[i].username@, name);
        assert(ab[i + a.len()] == b[i]);
    }
}

proof fn lemma_first_named_unique(e: Seq<FriendEntry>, name: Seq<char>, i: int, j: int)
    requires
        first_named(e, name, i),
        first_named(e, name, j),
    ensures
        i == j,
{
    if i < j {
        assert(!same_ignoring_ascii_case(e[i].username@, name));
    } else if j < i {
        assert(!same_ignoring_ascii_case(e[j].username@, name));
    }
}

fn step2_run(
    scn: &mut Scenario,
    now: u64,
    friends: &FriendsState,
    forms: &mut HubForms,
) -> (actions: Vec<ScenarioAction>)
    requires
        old(forms).version < u64::MAX - 1,
    ensures
        same_setup(*old(scn), *final(scn)),
        step2(*old(scn), *final(scn), now, *friends, *old(forms), *final(forms), actions@),
{
    let ghost pre = *scn;
    let mut actions: Vec<ScenarioAction> = Vec::new();
    let poll = now >= scn.last_poll_ms && now - scn.last_poll_ms > 3000;
    if poll {
        scn.last_poll_ms = now;
        actions.push(ScenarioAction::Hub(HubCall::Friends));
        match scn.role {
            ScenarioRole::Host => {
                let known = find_named(&friends.friends, scn.friend.as_str());
                let asked = find_named(&friends.pending_out, scn.friend.as_str());
                proof {
                    lemma_names_concat(friends.friends@, friends.pending_out@, pre.friend@);
                }
                if known.is_none() && asked.is_none() {
                    if forms.search.as_str().unicode_len() == 0 {
                        forms.search = scn.friend.clone();
                        forms.version = forms.version + 1;
                        actions.push(ScenarioAction::Hub(HubCall::Search(scn.friend.clone())));
                    } else {
                        shot(scn, Capture::SidebarSearch, &mut actions);
                        actions.push(ScenarioAction::Hub(HubCall::FriendRequest(scn.friend.clone())));
                    }
                }
            },
            ScenarioRole::Friend => {
                match find_named(&friends.pending_in, scn.friend.as_str()) {
                    Some(i) => {
                        proof {
                            let c = choose|c: int| first_named(friends.pending_in@, pre.friend@, c);
                            lemma_first_named_unique(friends.pending_in@, pre.friend@, i as int, c);
                        }
                        shot(scn, Capture::SidebarRequest, &mut actions);
                        actions.push(ScenarioAction::Hub(HubCall::Accept(friends.pending_in[i].username.clone())));
                    },
                    None => {},
                }
            },
        }
    }
    let ghost acts = actions@;
    assert(acts =~= step2_actions(pre, now, *friends, *old(forms)));
    if find_named(&friends.friends, scn.friend.as_str()).is_some() {
        forms.search = String::new();
        forms.version = forms.version + 1;
        scn.step = 3;
        scn.step_at_ms = now;
    }
    actions
}

/// The actions of the befriending step (see `step2`).
pub open spec fn step2_actions(pre: Scenario, now: u64, friends: FriendsState, forms: HubForms) -> Seq<ScenarioAction> {
    if !(elapsed(now, pre.last_poll_ms) > 3000) {
        Seq::empty()
    } else {
        match pre.role {
            ScenarioRole::Host => seq![ScenarioAction::Hub(HubCall::Friends)] + poll_host(pre, forms, friends).0,
            ScenarioRole::Friend => seq![ScenarioAction::Hub(HubCall::Friends)] + poll_friend(pre, friends).0,
        }
    }
}

/// Showing the friend: after a moment the drawer is captured.
pub open spec fn step3(pre: Scenario, post: Scenario, now: u64, actions: Seq<ScenarioAction>) -> bool {
    let fire = elapsed(now, pre.step_at_ms) > 2500;
    &&& post.last_poll_ms == pre.last_poll_ms && post.playing_since_ms == pre.playing_since_ms && post.started
        == pre.started
    &&& fire ==> post.captures@ == after_shot(pre.captures@, Capture::SidebarFriends) && actions == shot_actions(
        pre.captures@,
        Capture::SidebarFriends,
    ) && post.step == 4 && post.step_at_ms == now
    &&& !fire ==> post.captures@ == pre.captures@ && actions.len() == 0 && post.step == pre.step
        && post.step_at_ms == pre.step_at_ms
}

fn step3_run(scn: &mut Scenario, now: u64) -> (actions: Vec<ScenarioAction>)
    ensures
        same_setup(*old(scn), *final(scn)),
        step3(*old(scn), *final(scn), now, actions@),
{
    let mut actions: Vec<ScenarioAction> = Vec::new();
    if now >= scn.step_at_ms && now - scn.step_at_ms > 2500 {
        shot(scn, Capture::SidebarFriends, &mut actions);
        assert(actions@ =~= shot_actions(old(scn).captures@, Capture::SidebarFriends));
        scn.step = 4;
        scn.step_at_ms = now;
    }
    actions
}

/// The server the friend named `name` plays on, as the friends list shows it.
pub open spec fn friend_server(friends: Seq<FriendEntry>, name: Seq<char>) -> Option<String> {
    if names(friends, name) {
        let i = choose|i: int| first_named(friends, name, i);
        match friends[i].presence.server {
            Some(server) => Some(server.server_id),
            None => None,
        }
    } else {
        None
    }
}

/// Into a match: leaving the menu moves on; otherwise every four seconds the host
/// looks for a match, and the friend refreshes the list and joins the host's
/// match from it (captured), both only while no request is waiting.
pub open spec fn step4(
    pre: Scenario,
    post: Scenario,
    now: u64,
    in_menu: bool,
    friends: FriendsState,
    forms: HubForms,
    post_forms: HubForms,
    actions: Seq<ScenarioAction>,
) -> bool {
    let poll = elapsed(now, pre.last_poll_ms) > 4000;
    &&& post.playing_since_ms == pre.playing_since_ms && post.started == pre.started
    &&& !in_menu ==> post.step == 5 && post.step_at_ms == now && post.last_poll_ms == pre.last_poll_ms
        && post.captures == pre.captures && post_forms == forms && actions.len() == 0
    &&& (in_menu && !poll) ==> post.step == pre.step && post.step_at_ms == pre.step_at_ms && post.last_poll_ms
        == pre.last_poll_ms && post.captures == pre.captures && post_forms == forms && actions.len() == 0
    &&& (in_menu && poll) ==> {
        &&& post.step == pre.step && post.step_at_ms == pre.step_at_ms && post.last_poll_ms == now
        &&& match pre.role {
            ScenarioRole::Host => post.captures == pre.captures && if !forms.busy {
                post_forms == HubForms { busy: true, version: (forms.version + 1) as u64, ..forms } && actions
                    == seq![ScenarioAction::Hub(HubCall::FindMatch(pre.mode))]
            } else {
                post_forms == forms && actions.len() == 0
            },
            ScenarioRole::Friend => match friend_server(friends.friends@, pre.friend@) {
                Some(id) => if !forms.busy {
                    &&& post.captures@ == after_shot(pre.captures@, Capture::SidebarJoin)
                    &&& post_forms == HubForms { busy: true, version: (forms.version + 1) as u64, ..forms }
                    &&& actions == seq![ScenarioAction::Hub(HubCall::Friends)] + shot_actions(
                        pre.captures@,
                        Capture::SidebarJoin,
                    ) + seq![ScenarioAction::Hub(HubCall::JoinMatch(id))]
                } else {
                    post.captures == pre.captures && post_forms == forms && actions == seq![
                        ScenarioAction::Hub(HubCall::Friends),
                    ]
                },
                None => post.captures == pre.captures && post_forms == forms && actions == seq![
                    ScenarioAction::Hub(HubCall::Friends),
                ],
            },
        }
    }
}

fn step4_run(
    scn: &mut Scenario,
    now: u64,
    in_menu: bool,
    friends: &FriendsState,
    forms: &mut HubForms,
) -> (actions: Vec<ScenarioAction>)
    requires
        old(forms).version < u64::MAX,
    ensures
        same_setup(*old(scn), *final(scn)),
        step4(*old(scn), *final(scn), now, in_menu, *friends, *old(forms), *final(forms), actions@),
{
    let ghost pre = *scn;
    let mut actions: Vec<ScenarioAction> = Vec::new();
    if !in_menu {
        scn.step = 5;
        scn.step_at_ms = now;
        return actions;
    }
    if now >= scn.last_poll_ms && now - scn.last_poll_ms > 4000 {
        scn.last_poll_ms = now;
        match scn.role {
            ScenarioRole::Host => {
                if !forms.busy {
                    forms.busy = true;
                    forms.version = forms.version + 1;
                    actions.push(ScenarioAction::Hub(HubCall::FindMatch(scn.mode)));
                    assert(actions@ =~= seq![ScenarioAction::Hub(HubCall::FindMatch(pre.mode))]);
                }
            },
            ScenarioRole::Friend => {
                actions.push(ScenarioAction::Hub(HubCall::Friends));
                let server = match find_named(&friends.friends, scn.friend.as_str()) {
                    Some(i) => {
                        proof {
                            let c = choose|c: int| first_named(friends.friends@, pre.friend@, c);
                            lemma_first_named_unique(friends.friends@, pre.friend@, i as int, c);
                        }
                        match &friends.friends[i].presence.server {
                            Some(server) => Some(server.server_id.clone()),
                            None => None,
                        }
                    },
                    None => None,
                };
                assert(server == friend_server(friends.friends@, pre.friend@));
                assert(actions@ =~= seq![ScenarioAction::Hub(HubCall::Friends)]);
                match server {
                    Some(id) => {
                        if !forms.busy {
                            let ghost sid = id;
                            shot(scn, Capture::SidebarJoin, &mut actions);
                            forms.busy = true;
                            forms.version = forms.version + 1;
                            actions.push(ScenarioAction::Hub(HubCall::JoinMatch(id)));
                            assert(actions@ =~= seq![ScenarioAction::Hub(HubCall::Friends)] + shot_actions(
                                pre.captures@,
                                Capture::SidebarJoin,
                            ) + seq![ScenarioAction::Hub(HubCall::JoinMatch(sid))]);
                        }
                    },
                    None => {},
                }
            },
        }
    }
    actions
}

/// Playing: screenshots at six, twenty and forty seconds into play, then the
/// walkthrough moves on; a map that fails to load ends it with an error.
pub open spec fn step5(
    pre: Scenario,
    post: Scenario,
    now: u64,
    state: GameState,
    actions: Seq<ScenarioAction>,
) -> bool {
    &&& post.last_poll_ms == pre.last_poll_ms && post.started == pre.started
    &&& state == GameState::Playing ==> {
        let since = match pre.playing_since_ms {
            Some(t) => t,
            None => now,
        };
        let e = elapsed(now, since);
        let c1 = if e > 6000 {
            after_shot(pre.captures@, Capture::Gameplay1)
        } else {
            pre.captures@
        };
        let a1 = if e > 6000 {
            shot_actions(pre.captures@, Capture::Gameplay1)
        } else {
            Seq::empty()
        };
        let c2 = if e > 20000 {
            after_shot(c1, Capture::Gameplay2)
        } else {
            c1
        };
        let a2 = if e > 20000 {
            a1 + shot_actions(c1, Capture::Gameplay2)
        } else {
            a1
        };
        let c3 = if e > 40000 {
            after_shot(c2, Capture::Gameplay3)
        } else {
            c2
        };
        let a3 = if e > 40000 {
            a2 + shot_actions(c2, Capture::Gameplay3)
        } else {
            a2
        };
        &&& post.playing_since_ms == Some(since)
        &&& post.captures@ == c3 && actions == a3
        &&& e > 40000 ==> post.step == 6 && post.step_at_ms == now
        &&& !(e > 40000) ==> post.step == pre.step && post.step_at_ms == pre.step_at_ms
    }
    &&& state != GameState::Playing ==> {
        &&& post.playing_since_ms == pre.playing_since_ms && post.captures == pre.captures
        &&& post.step == pre.step && post.step_at_ms == pre.step_at_ms
        &&& state == GameState::LoadFailed ==> actions == seq![ScenarioAction::Exit { success: false }]
        &&& state != GameState::LoadFailed ==> actions.len() == 0
    }
}

fn step5_run(scn: &mut Scenario, now: u64, state: GameState) -> (actions: Vec<ScenarioAction>)
    ensures
        same_setup(*old(scn), *final(scn)),
        step5(*old(scn), *final(scn), now, state, actions@),
{
    let mut actions: Vec<ScenarioAction> = Vec::new();
    if state == GameState::Playing {
        let since = match scn.playing_since_ms {
            Some(t) => t,
            None => now,
        };
        scn.playing_since_ms = Some(since);
        let e: u64 = if now >= since {
            now - since
        } else {
            0
        };
        let ghost c0 = scn.captures@;
        if e > 6000 {
            shot(scn, Capture::Gameplay1, &mut actions);
        }
        let ghost c1 = scn.captures@;
        let ghost a1 = actions@;
        if e > 20000 {
            shot(scn, Capture::Gameplay2, &mut actions);
        }
        let ghost c2 = scn.captures@;
        if e > 40000 {
            shot(scn, Capture::Gameplay3, &mut actions);
            scn.step = 6;
            scn.step_at_ms = now;
        }
        proof {
            if e > 6000 {
                assert(a1 =~= shot_actions(c0, Capture::Gameplay1));
            } else {
                assert(a1 =~= Seq::<ScenarioAction>::empty());
            }
        }
    } else if state == GameState::LoadFailed {
        actions.push(ScenarioAction::Exit { success: false });
        assert(actions@ =~= seq![ScenarioAction::Exit { success: false }]);
    }
    actions
}

/// After the match: the result screen is captured once.
pub open spec fn step_after(pre: Scenario, post: Scenario, state: GameState, actions: Seq<ScenarioAction>) -> bool {
    &&& post.step == pre.step && post.step_at_ms == pre.step_at_ms && post.last_poll_ms == pre.last_poll_ms
        && post.playing_since_ms == pre.playing_since_ms && post.started == pre.started
    &&& state == GameState::Finished ==> post.captures@ == after_shot(pre.captures@, Capture::Finished) && actions
        == shot_actions(pre.captures@, Capture::Finished)
    &&& state != GameState::Finished ==> post.captures == pre.captures && actions.len() == 0
}

fn step_after_run(scn: &mut Scenario, state: GameState) -> (actions: Vec<ScenarioAction>)
    ensures
        same_setup(*old(scn), *final(scn)),
        step_after(*old(scn), *final(scn), state, actions@),
{
    let mut actions: Vec<ScenarioAction> = Vec::new();
    if state == GameState::Finished {
        shot(scn, Capture::Finished, &mut actions);
        assert(actions@ =~= shot_actions(old(scn).captures@, Capture::Finished));
    }
    actions
}

/// One frame of the walkthrough: past its time limit it ends successfully;
/// otherwise the drawer stays open in the menu until the match starts, and the
/// current step runs.
pub fn drive(
    scn: &mut Scenario,
    now: u64,
    state: GameState,
    session: &HubSession,
    friends: &FriendsState,
    forms: &mut HubForms,
    pinned: &mut bool,
) -> (actions: Vec<ScenarioAction>)
    requires
        old(forms).version < u64::MAX - 1,
    ensures
        same_setup(*old(scn), *final(scn)),
        now > old(scn).exit_after_ms ==> actions@ == seq![ScenarioAction::Exit { success: true }]
            && *final(scn) == *old(scn) && *final(forms) == *old(forms) && *final(pinned) == *old(pinned),
        now <= old(scn).exit_after_ms ==> {
            &&& *final(pinned) == (*old(pinned) || (state == GameState::MainMenu && old(scn).step < 6))
            &&& old(scn).step == 0 ==> step0(*old(scn), *final(scn), now, *session, *old(forms), *final(forms), actions@)
            &&& old(scn).step == 1 ==> step1(*old(scn), *final(scn), now, *session, *old(forms), *final(forms), actions@)
            &&& old(scn).step == 2 ==> step2(*old(scn), *final(scn), now, *friends, *old(forms), *final(forms), actions@)
            &&& old(scn).step == 3 ==> step3(*old(scn), *final(scn), now, actions@) && *final(forms) == *old(forms)
            &&& old(scn).step == 4 ==> step4(
                *old(scn),
                *final(scn),
                now,
                state == GameState::MainMenu,
                *friends,
                *old(forms),
                *final(forms),
                actions@,
            )
            &&& old(scn).step == 5 ==> step5(*old(scn), *final(scn), now, state, actions@) && *final(forms) == *old(forms)
            &&& old(scn).step > 5 ==> step_after(*old(scn), *final(scn), state, actions@) && *final(forms) == *old(forms)
        },
{
    if now > scn.exit_after_ms {
        let mut actions: Vec<ScenarioAction> = Vec::new();
        actions.push(ScenarioAction::Exit { success: true });
        assert(actions@ =~= seq![ScenarioAction::Exit { success: true }]);
        return actions;
    }
    let in_menu = state == GameState::MainMenu;
    if in_menu && scn.step < 6 {
        *pinned = true;
    }
    if scn.step == 0 {
        step0_run(scn, now, session, forms)
    } else if scn.step == 1 {
        step1_run(scn, now, session, forms)
    } else if scn.step == 2 {
        step2_run(scn, now, friends, forms)
    } else if scn.step == 3 {
        step3_run(scn, now)
    } else if scn.step == 4 {
        step4_run(scn, now, in_menu, friends, forms)
    } else if scn.step == 5 {
        step5_run(scn, now, state)
    } else {
        step_after_run(scn, state)
    }
}

/// How the walkthrough reacts to a failed request: a taken username means the
/// account exists, so it signs in instead; a failed match request is retried
/// at once.
pub fn scenario_reply(scn: &mut Scenario, request: &HubRequest, result: &Result<HubReply, HubError>) -> (actions: Vec<
    ScenarioAction,
>)
    ensures
        same_setup(*old(scn), *final(scn)),
        final(scn).captures == old(scn).captures && final(scn).step == old(scn).step && final(scn).last_poll_ms
            == old(scn).last_poll_ms && final(scn).playing_since_ms == old(scn).playing_since_ms
            && final(scn).started == old(scn).started,
        match (*request, *result) {
            (HubRequest::Register, Err(e)) => if e.code@ == "username_taken"@ {
                actions@.len() == 1 && final(scn).step_at_ms == old(scn).step_at_ms && match actions@[0] {
                    ScenarioAction::Hub(HubCall::Login { identifier, password }) => identifier == old(scn).user
                        && password == old(scn).pass,
                    _ => false,
                }
            } else {
                actions@.len() == 0 && final(scn).step_at_ms == old(scn).step_at_ms
            },
            (HubRequest::FindMatch(_), Err(_)) | (HubRequest::JoinMatch(_), Err(_)) => actions@.len() == 0
                && final(scn).step_at_ms == 0,
            _ => actions@.len() == 0 && final(scn).step_at_ms == old(scn).step_at_ms,
        },
{
    let mut actions: Vec<ScenarioAction> = Vec::new();
    match (request, result) {
        (HubRequest::Register, Err(e)) => {
            if str_eq(e.code.as_str(), "username_taken") {
                actions.push(
                    ScenarioAction::Hub(HubCall::Login { identifier: scn.user.clone(), password: scn.pass.clone() }),
                );
            }
        },
        (HubRequest::FindMatch(_), Err(_)) | (HubRequest::JoinMatch(_), Err(_)) => {
            scn.step_at_ms = 0;
        },
        _ => {},
    }
    actions
}

} // verus!

//! Which display server is actually reachable.
//!
//! Detection goes by what answers, not by a desktop name: the socket a
//! variable points at is resolved and a connection is tried.
//! `XDG_CURRENT_DESKTOP` is recorded as context for a human reading a report
//! and never decides anything. The environment and the socket layer are
//! handed in, so the logic runs without either.
use vstd::prelude::*;
use crate::paths::{join, joined};
use crate::text::{all_digits, debug_quoted, is_digit, quoted, same_text};

verus! {

/// The display server this process can actually talk to.
#[derive(Clone, Debug, PartialEq, Eq)]
pub enum SessionKind {
    /// A Wayland socket accepted a connection.
    Wayland { socket: String },
    /// An X11 display socket accepted a connection.
    X11 { display: String, socket: String },
    /// Nothing answered. `reasons` says what was tried and what happened; it
    /// is never empty.
    Unreachable { reasons: Vec<String> },
}

/// A session as text.
pub enum SessionView {
    Wayland(Seq<char>),
    X11(Seq<char>, Seq<char>),
    Unreachable(Seq<Seq<char>>),
}

impl View for SessionKind {
    type V = SessionView;

    open spec fn view(&self) -> SessionView {
        match self {
            SessionKind::Wayland { socket } => SessionView::Wayland(socket@),
            SessionKind::X11 { display, socket } => SessionView::X11(display@, socket@),
            SessionKind::Unreachable { reasons } => SessionView::Unreachable(reasons@.map_values(|r: String| r@)),
        }
    }
}

impl SessionKind {
    /// The backend's name in diagnostics.
    pub fn backend_name(&self) -> (name: &'static str)
        ensures
            name@ == match self@ {
                SessionView::Wayland(_) => "wayland"@,
                SessionView::X11(_, _) => "x11"@,
                SessionView::Unreachable(_) => "none"@,
            },
    {
        match self {
            SessionKind::Wayland { .. } => "wayland",
            SessionKind::X11 { .. } => "x11",
            SessionKind::Unreachable { .. } => "none",
        }
    }
}

/// The variables a list of pairs sets, a later pair for the same name
/// replacing an earlier one.
pub open spec fn variables(pairs: Seq<(Seq<char>, Seq<char>)>) -> Map<Seq<char>, Seq<char>>
    decreases pairs.len(),
{
    if pairs.len() == 0 {
        Map::empty()
    } else {
        variables(pairs.drop_last()).insert(pairs.last().0, pairs.last().1)
    }
}

/// The last pair naming `key` decides its value; with none, it is unset.
proof fn lemma_last_pair_decides(pairs: Seq<(Seq<char>, Seq<char>)>, key: Seq<char>, at: int)
    requires
        -1 <= at < pairs.len(),
        at >= 0 ==> pairs[at].0 == key,
        forall|j: int| at < j < pairs.len() ==> (#[trigger] pairs[j]).0 != key,
    ensures
        at >= 0 ==> variables(pairs).dom().contains(key) && variables(pairs)[key] == pairs[at].1,
        at < 0 ==> !variables(pairs).dom().contains(key),
    decreases pairs.len(),
{
    if pairs.len() > 0 {
        let shorter = pairs.drop_last();
        if at < pairs.len() - 1 {
            assert(pairs.last() == pairs[pairs.len() - 1]);
            assert forall|j: int| at < j < shorter.len() implies (#[trigger] shorter[j]).0 != key by {
                assert(shorter[j] == pairs[j]);
            }
            if at >= 0 {
                assert(shorter[at] == pairs[at]);
            }
            lemma_last_pair_decides(shorter, key, at);
        }
    }
}

/// The texts of owned name and value pairs.
pub open spec fn owned_texts(pairs: Seq<(String, String)>) -> Seq<(Seq<char>, Seq<char>)> {
    pairs.map_values(|p: (String, String)| (p.0@, p.1@))
}

/// The texts of borrowed name and value pairs.
pub open spec fn pair_texts(pairs: Seq<(&str, &str)>) -> Seq<(Seq<char>, Seq<char>)> {
    pairs.map_values(|p: (&str, &str)| (p.0@, p.1@))
}

/// A snapshot of the environment variables the probe is allowed to read.
#[derive(Clone, Debug)]
pub struct EnvSnapshot {
    vars: Vec<(String, String)>,
}

impl View for EnvSnapshot {
    type V = Map<Seq<char>, Seq<char>>;

    closed spec fn view(&self) -> Map<Seq<char>, Seq<char>> {
        variables(owned_texts(self.vars@))
    }
}

impl Default for EnvSnapshot {
    /// An environment with nothing set.
    fn default() -> (env: Self)
        ensures
            env@ == Map::<Seq<char>, Seq<char>>::empty(),
    {
        let env = EnvSnapshot { vars: Vec::new() };
        assert(owned_texts(env.vars@).len() == 0);
        env
    }
}

impl EnvSnapshot {
    /// Builds a snapshot from name and value pairs; a later pair for the same
    /// name wins.
    pub fn from_pairs(pairs: &[(&str, &str)]) -> (env: Self)
        ensures
            env@ == variables(pair_texts(pairs@)),
    {
        let ghost wanted = pair_texts(pairs@);
        let mut vars: Vec<(String, String)> = Vec::new();
        let n = pairs.len();
        let mut i: usize = 0;
        while i < n
            invariant
                n == pairs@.len(),
                wanted == pair_texts(pairs@),
                i <= n,
                owned_texts(vars@) == wanted.take(i as int),
            decreases n - i,
        {
            let (name, value) = pairs[i];
            assert(wanted[i as int] == (name@, value@));
            let pair = (String::from_str(name), String::from_str(value));
            let ghost before = vars@;
            vars.push(pair);
            assert(vars@ == before.push(pair));
            assert(owned_texts(vars@) =~= wanted.take(i + 1)) by {
                assert(owned_texts(before) == wanted.take(i as int));
                assert(wanted.len() == n);
                assert(owned_texts(before).len() == before.len());
                assert(before.len() == i);
                assert forall|j: int| 0 <= j < i implies #[trigger] vars@[j] == before[j] by {}
            }
            i = i + 1;
        }
        assert(wanted.take(n as int) =~= wanted);
        EnvSnapshot { vars }
    }

    /// The value of `key`, if it is set.
    pub fn get(&self, key: &str) -> (value: Option<&str>)
        ensures
            match value {
                Some(v) => self@.dom().contains(key@) && v@ == self@[key@],
                None => !self@.dom().contains(key@),
            },
    {
        let ghost texts = owned_texts(self.vars@);
        let mut i: usize = self.vars.len();
        while i > 0
            invariant
                i <= self.vars@.len(),
                texts == owned_texts(self.vars@),
                forall|j: int| i <= j < texts.len() ==> (#[trigger] texts[j]).0 != key@,
            decreases i,
        {
            i = i - 1;
            let (name, value) = &self.vars[i];
            assert(texts[i as int] == (name@, value@));
            if same_text(name.as_str(), key) {
                proof {
                    lemma_last_pair_decides(texts, key@, i as int);
                }
                return Some(value.as_str());
            }
        }
        proof {
            lemma_last_pair_decides(texts, key@, -1);
        }
        None
    }

    /// The desktop name, for display in a report only. Nothing branches on
    /// it.
    pub fn reported_desktop(&self) -> (desktop: Option<&str>)
        ensures
            match desktop {
                Some(v) => self@.dom().contains("XDG_CURRENT_DESKTOP"@)
                    && v@ == self@["XDG_CURRENT_DESKTOP"@],
                None => !self@.dom().contains("XDG_CURRENT_DESKTOP"@),
            },
    {
        self.get("XDG_CURRENT_DESKTOP")
    }

    /// What the session claims to be, for display only. The probe result may
    /// contradict it, and the probe result wins.
    pub fn claimed_session_type(&self) -> (claimed: Option<&str>)
        ensures
            match claimed {
                Some(v) => self@.dom().contains("XDG_SESSION_TYPE"@)
                    && v@ == self@["XDG_SESSION_TYPE"@],
                None => !self@.dom().contains("XDG_SESSION_TYPE"@),
            },
    {
        self.get("XDG_SESSION_TYPE")
    }
}

/// Can a socket path be connected to? Implemented over the platform's
/// socket layer in the program, and by fakes in tests.
pub trait SocketProbe {
    /// Whether `reply` is an answer this probe may give when asked to connect
    /// to `path`. Which answer comes rests on the machine, so a probe that
    /// says nothing more admits every answer; what a caller learns is which
    /// path was asked.
    open spec fn answered(&self, path: Seq<char>, reply: Result<(), Seq<char>>) -> bool {
        true
    }

    /// `Ok(())` when a connection was established and immediately dropped;
    /// otherwise why not.
    fn can_connect(&self, path: &str) -> (reply: Result<(), String>)
        ensures
            self.answered(path@, reply_view(&reply)),
    ;
}

/// A probe's answer, as text.
pub open spec fn reply_view(reply: &Result<(), String>) -> Result<(), Seq<char>> {
    match reply {
        Ok(()) => Ok(()),
        Err(reason) => Err(reason@),
    }
}

/// Whether `reply` is what `probe` answered for the route `path`, when the
/// route has a path to ask about; a route without one asks nothing.
pub open spec fn asked<P: SocketProbe>(probe: &P, path: Result<Seq<char>, Seq<char>>, reply: Result<(), Seq<char>>) -> bool {
    match path {
        Ok(p) => probe.answered(p, reply),
        Err(_) => reply == Ok::<(), Seq<char>>(()),
    }
}

/// Where `WAYLAND_DISPLAY` points: an absolute path as it is, a bare name
/// inside `XDG_RUNTIME_DIR`; or why there is no path to try.
pub open spec fn wayland_path(env: Map<Seq<char>, Seq<char>>) -> Result<Seq<char>, Seq<char>> {
    if env.dom().contains("WAYLAND_SOCKET"@) {
        Err("WAYLAND_SOCKET is set, so the display is an inherited fd this probe cannot reopen"@)
    } else if !env.dom().contains("WAYLAND_DISPLAY"@) {
        Err("WAYLAND_DISPLAY is not set"@)
    } else {
        let display = env["WAYLAND_DISPLAY"@];
        if display.len() == 0 {
            Err("WAYLAND_DISPLAY is empty"@)
        } else if display[0] == '/' {
            Ok(display)
        } else if !env.dom().contains("XDG_RUNTIME_DIR"@) {
            Err("WAYLAND_DISPLAY is the relative name "@ + debug_quoted(display)
                + " but XDG_RUNTIME_DIR is not set"@)
        } else {
            Ok(joined(env["XDG_RUNTIME_DIR"@], display))
        }
    }
}

/// How many characters of `s` come before its first `.`.
pub open spec fn before_dot(s: Seq<char>) -> int
    decreases s.len(),
{
    if s.len() == 0 || s[0] == '.' {
        0
    } else {
        1 + before_dot(s.drop_first())
    }
}

/// `before_dot` is the position of the first `.`, or the length.
proof fn lemma_before_dot(s: Seq<char>, at: int)
    requires
        0 <= at <= s.len(),
        at < s.len() ==> s[at] == '.',
        forall|j: int| 0 <= j < at ==> (#[trigger] s[j]) != '.',
    ensures
        before_dot(s) == at,
    decreases s.len(),
{
    if s.len() > 0 && s[0] != '.' {
        let rest = s.drop_first();
        assert forall|j: int| 0 <= j < at - 1 implies (#[trigger] rest[j]) != '.' by {
            assert(rest[j] == s[j + 1]);
        }
        if at - 1 < rest.len() {
            assert(rest[at - 1] == s[at]);
        }
        lemma_before_dot(rest, at - 1);
    }
}

/// The socket of a local `DISPLAY` such as `:0` or `:1.0`, with the display
/// itself; or why there is none. A remote display is refused: the probe
/// opens no network socket.
pub open spec fn x11_path(env: Map<Seq<char>, Seq<char>>) -> Result<(Seq<char>, Seq<char>), Seq<char>> {
    if !env.dom().contains("DISPLAY"@) {
        Err("DISPLAY is not set"@)
    } else {
        let display = env["DISPLAY"@];
        if display.len() == 0 || display[0] != ':' {
            Err("DISPLAY "@ + debug_quoted(display) + " is not a local display; this probe does not open TCP sockets"@)
        } else {
            let rest = display.drop_first();
            let number = rest.take(before_dot(rest));
            if number.len() == 0 || !all_digits(number) {
                Err("DISPLAY "@ + debug_quoted(display) + " has no usable display number"@)
            } else {
                Ok((display, "/tmp/.X11-unix/X"@ + number))
            }
        }
    }
}

/// Where `WAYLAND_DISPLAY` points, following the protocol's own rule.
pub fn wayland_socket_path(env: &EnvSnapshot) -> (path: Result<String, String>)
    ensures
        match path {
            Ok(p) => wayland_path(env@) == Ok::<Seq<char>, Seq<char>>(p@),
            Err(e) => wayland_path(env@) == Err::<Seq<char>, Seq<char>>(e@),
        },
{
    if env.get("WAYLAND_SOCKET").is_some() {
        return Err(String::from_str(
            "WAYLAND_SOCKET is set, so the display is an inherited fd this probe cannot reopen",
        ));
    }
    let display = match env.get("WAYLAND_DISPLAY") {
        Some(display) => display,
        None => {
            return Err(String::from_str("WAYLAND_DISPLAY is not set"));
        },
    };
    if display.unicode_len() == 0 {
        return Err(String::from_str("WAYLAND_DISPLAY is empty"));
    }
    if display.get_char(0) == '/' {
        return Ok(String::from_str(display));
    }
    match env.get("XDG_RUNTIME_DIR") {
        Some(runtime_dir) => Ok(join(runtime_dir, display)),
        None => {
            let mut message = String::from_str("WAYLAND_DISPLAY is the relative name ");
            let shown = quoted(display);
            message.append(shown.as_str());
            message.append(" but XDG_RUNTIME_DIR is not set");
            Err(message)
        },
    }
}

/// The Unix socket of a local `DISPLAY`, with the display itself.
pub fn x11_socket_path(env: &EnvSnapshot) -> (path: Result<(String, String), String>)
    ensures
        match path {
            Ok((display, socket)) => x11_path(env@) == Ok::<(Seq<char>, Seq<char>), Seq<char>>((display@, socket@)),
            Err(e) => x11_path(env@) == Err::<(Seq<char>, Seq<char>), Seq<char>>(e@),
        },
{
    let display = match env.get("DISPLAY") {
        Some(display) => display,
        None => {
            return Err(String::from_str("DISPLAY is not set"));
        },
    };
    let n = display.unicode_len();
    if n == 0 || display.get_char(0) != ':' {
        let mut message = String::from_str("DISPLAY ");
        let shown = quoted(display);
        message.append(shown.as_str());
        message.append(" is not a local display; this probe does not open TCP sockets");
        return Err(message);
    }
    let rest = display.substring_char(1, n);
    assert(rest@ =~= display@.drop_first());
    let m = rest.unicode_len();
    let mut end: usize = 0;
    let mut digits = true;
    while end < m && rest.get_char(end) != '.'
        invariant
            m == rest@.len(),
            end <= m,
            forall|j: int| 0 <= j < end ==> (#[trigger] rest@[j]) != '.',
            digits == all_digits(rest@.take(end as int)),
        decreases m - end,
    {
        let c = rest.get_char(end);
        assert(rest@.take(end + 1).drop_last() =~= rest@.take(end as int));
        assert forall|j: int| 0 <= j < end + 1 implies (#[trigger] rest@.take(end + 1)[j]) == rest@[j] by {}
        if !('0' <= c && c <= '9') {
            digits = false;
        }
        proof {
            if digits {
                assert forall|j: int| 0 <= j < end + 1 implies is_digit(#[trigger] rest@.take(end + 1)[j]) by {
                    if j < end {
                        assert(rest@.take(end as int)[j] == rest@[j]);
                    }
                }
            } else if all_digits(rest@.take(end + 1)) {
                assert forall|j: int| 0 <= j < end implies is_digit(#[trigger] rest@.take(end as int)[j]) by {
                    assert(rest@.take(end + 1)[j] == rest@[j]);
                }
                assert(is_digit(rest@.take(end + 1)[end as int]));
            }
        }
        end = end + 1;
    }
    proof {
        lemma_before_dot(rest@, end as int);
    }
    if end == 0 || !digits {
        let mut message = String::from_str("DISPLAY ");
        let shown = quoted(display);
        message.append(shown.as_str());
        message.append(" has no usable display number");
        return Err(message);
    }
    let number = rest.substring_char(0, end);
    assert(number@ =~= rest@.take(end as int));
    let mut socket = String::from_str("/tmp/.X11-unix/X");
    socket.append(number);
    Ok((String::from_str(display), socket))
}

/// An attempt on a route: the path that was tried and what the socket layer
/// answered, or why there was no path to try.
pub open spec fn tried(path: Result<Seq<char>, Seq<char>>, reply: Result<(), Seq<char>>) -> Result<(Seq<char>, Result<(), Seq<char>>), Seq<char>> {
    match path {
        Ok(p) => Ok((p, reply)),
        Err(reason) => Err(reason),
    }
}

/// What a route's failure is reported as.
pub open spec fn refusal(route: Seq<char>, attempt: Result<(Seq<char>, Result<(), Seq<char>>), Seq<char>>) -> Seq<char> {
    match attempt {
        Ok((path, Err(error))) => route + ": "@ + path + " did not accept a connection: "@ + error,
        Ok((path, Ok(()))) => route + ": "@ + path,
        Err(reason) => route + ": "@ + reason,
    }
}

/// The session the two attempts make: Wayland if its socket answered, else
/// X11 if its socket answered, else none, with both failures.
pub open spec fn session_from(
    wayland: Result<(Seq<char>, Result<(), Seq<char>>), Seq<char>>,
    display: Seq<char>,
    x11: Result<(Seq<char>, Result<(), Seq<char>>), Seq<char>>,
) -> SessionView {
    match wayland {
        Ok((path, Ok(()))) => SessionView::Wayland(path),
        _ => match x11 {
            Ok((path, Ok(()))) => SessionView::X11(display, path),
            _ => SessionView::Unreachable(seq![refusal("wayland"@, wayland), refusal("x11"@, x11)]),
        },
    }
}

/// The view of an attempt held in executable values.
pub open spec fn attempt_view(attempt: &Result<(String, Result<(), String>), String>) -> Result<(Seq<char>, Result<(), Seq<char>>), Seq<char>> {
    match attempt {
        Ok((path, Ok(()))) => Ok((path@, Ok(()))),
        Ok((path, Err(error))) => Ok((path@, Err(error@))),
        Err(reason) => Err(reason@),
    }
}

/// A route's failure as text.
fn refusal_text(route: &str, attempt: &Result<(String, Result<(), String>), String>) -> (text: String)
    ensures
        text@ == refusal(route@, attempt_view(attempt)),
{
    let mut text = String::from_str(route);
    text.append(": ");
    match attempt {
        Ok((path, Ok(()))) => {
            text.append(path.as_str());
        },
        Ok((path, Err(error))) => {
            text.append(path.as_str());
            text.append(" did not accept a connection: ");
            text.append(error.as_str());
        },
        Err(reason) => {
            text.append(reason.as_str());
        },
    }
    text
}

/// Settles the session from what the two routes gave: the Wayland attempt,
/// the X11 display with its attempt.
pub fn conclude_session(
    wayland: Result<(String, Result<(), String>), String>,
    display: String,
    x11: Result<(String, Result<(), String>), String>,
) -> (session: SessionKind)
    ensures
        session@ == session_from(attempt_view(&wayland), display@, attempt_view(&x11)),
{
    proof {
        reveal_strlit("wayland");
        reveal_strlit("x11");
    }
    if let Ok((path, Ok(()))) = &wayland {
        return SessionKind::Wayland { socket: path.clone() };
    }
    if let Ok((path, Ok(()))) = &x11 {
        return SessionKind::X11 { display, socket: path.clone() };
    }
    let first = refusal_text("wayland", &wayland);
    let second = refusal_text("x11", &x11);
    let ghost texts = seq![first@, second@];
    let mut reasons: Vec<String> = Vec::new();
    reasons.push(first);
    reasons.push(second);
    assert(reasons@.map_values(|r: String| r@) =~= texts);
    let session = SessionKind::Unreachable { reasons };
    assert(session@ == session_from(attempt_view(&wayland), display@, attempt_view(&x11)));
    session
}

/// Resolves the reachable display server.
///
/// Wayland is tried first: on a session that runs both, the Wayland socket
/// is the native one and XWayland a compatibility path. The socket layer's
/// answers are whatever they are; for every answer, the session is the one
/// `session_from` makes of them.
pub fn detect_session<P: SocketProbe>(env: &EnvSnapshot, probe: &P) -> (session: SessionKind)
    ensures
        exists|wayland_reply: Result<(), Seq<char>>, x11_reply: Result<(), Seq<char>>|
            {
                &&& asked(probe, wayland_path(env@), wayland_reply)
                &&& (wayland_path(env@) is Ok && wayland_reply is Ok) || asked(probe, socket_of(x11_path(env@)), x11_reply)
                &&& session@ == #[trigger] session_from(
                    tried(wayland_path(env@), wayland_reply),
                    display_of(x11_path(env@)),
                    tried(socket_of(x11_path(env@)), x11_reply),
                )
            },
{
    let wayland: Result<(String, Result<(), String>), String> = match wayland_socket_path(env) {
        Ok(path) => {
            let reply = probe.can_connect(path.as_str());
            Ok((path, reply))
        },
        Err(reason) => Err(reason),
    };
    let ghost wayland_reply = match attempt_view(&wayland) {
        Ok((_, reply)) => reply,
        Err(_) => Ok(()),
    };
    assert(attempt_view(&wayland) == tried(wayland_path(env@), wayland_reply));
    if let Ok((path, Ok(()))) = &wayland {
        let session = SessionKind::Wayland { socket: path.clone() };
        assert(session@ == session_from(
            tried(wayland_path(env@), wayland_reply),
            display_of(x11_path(env@)),
            tried(socket_of(x11_path(env@)), Ok(())),
        ));
        return session;
    }
    let (display, x11): (String, Result<(String, Result<(), String>), String>) = match x11_socket_path(env) {
        Ok((display, path)) => {
            let reply = probe.can_connect(path.as_str());
            (display, Ok((path, reply)))
        },
        Err(reason) => (String::new(), Err(reason)),
    };
    let ghost x11_reply = match attempt_view(&x11) {
        Ok((_, reply)) => reply,
        Err(_) => Ok(()),
    };
    assert(attempt_view(&x11) == tried(socket_of(x11_path(env@)), x11_reply));
    assert(display@ == display_of(x11_path(env@)));
    let session = conclude_session(wayland, display, x11);
    assert(session@ == session_from(
        tried(wayland_path(env@), wayland_reply),
        display_of(x11_path(env@)),
        tried(socket_of(x11_path(env@)), x11_reply),
    ));
    session
}

/// The display of an X11 route, empty when there is none.
pub open spec fn display_of(route: Result<(Seq<char>, Seq<char>), Seq<char>>) -> Seq<char> {
    match route {
        Ok((display, _)) => display,
        Err(_) => Seq::empty(),
    }
}

/// The socket of an X11 route, or why there is none.
pub open spec fn socket_of(route: Result<(Seq<char>, Seq<char>), Seq<char>>) -> Result<Seq<char>, Seq<char>> {
    match route {
        Ok((_, socket)) => Ok(socket),
        Err(reason) => Err(reason),
    }
}

/// Wayland is tried first: when its socket answers, the session is Wayland
/// whatever the X11 route gave.
pub proof fn law_wayland_is_tried_first(
    path: Seq<char>,
    display: Seq<char>,
    x11: Result<(Seq<char>, Result<(), Seq<char>>), Seq<char>>,
)
    ensures
        session_from(Ok((path, Ok(()))), display, x11) == SessionView::Wayland(path),
{
}

/// When nothing answers, the session says why for each route, Wayland's
/// first: the reasons are never empty.
pub proof fn law_no_session_explains_both_routes(
    wayland: Result<(Seq<char>, Result<(), Seq<char>>), Seq<char>>,
    display: Seq<char>,
    x11: Result<(Seq<char>, Result<(), Seq<char>>), Seq<char>>,
)
    ensures
        session_from(wayland, display, x11) matches SessionView::Unreachable(reasons)
            ==> reasons.len() == 2
                && reasons[0].take(9) == "wayland: "@
                && reasons[1].take(5) == "x11: "@,
{
    reveal_strlit("wayland");
    reveal_strlit("x11");
    reveal_strlit(": ");
    reveal_strlit("wayland: ");
    reveal_strlit("x11: ");
    if let SessionView::Unreachable(reasons) = session_from(wayland, display, x11) {
        let first = refusal("wayland"@, wayland);
        let second = refusal("x11"@, x11);
        assert(first.take(9) =~= "wayland: "@);
        assert(second.take(5) =~= "x11: "@);
    }
}

/// The desktop's name and the session type it claims are context for a
/// reader: setting them changes neither route the probe tries, so for the
/// same answers from the socket layer the session found is the same.
pub proof fn law_claimed_names_decide_nothing(
    env: Map<Seq<char>, Seq<char>>,
    key: Seq<char>,
    value: Seq<char>,
    wayland_reply: Result<(), Seq<char>>,
    x11_reply: Result<(), Seq<char>>,
)
    requires
        key == "XDG_CURRENT_DESKTOP"@ || key == "XDG_SESSION_TYPE"@,
    ensures
        wayland_path(env.insert(key, value)) == wayland_path(env),
        x11_path(env.insert(key, value)) == x11_path(env),
        session_from(
            tried(wayland_path(env.insert(key, value)), wayland_reply),
            display_of(x11_path(env.insert(key, value))),
            tried(socket_of(x11_path(env.insert(key, value))), x11_reply),
        ) == session_from(
            tried(wayland_path(env), wayland_reply),
            display_of(x11_path(env)),
            tried(socket_of(x11_path(env)), x11_reply),
        ),
{
    reveal_strlit("XDG_CURRENT_DESKTOP");
    reveal_strlit("XDG_SESSION_TYPE");
    reveal_strlit("WAYLAND_SOCKET");
    reveal_strlit("WAYLAND_DISPLAY");
    reveal_strlit("XDG_RUNTIME_DIR");
    reveal_strlit("DISPLAY");
    let changed = env.insert(key, value);
    assert(key != "WAYLAND_SOCKET"@ && key != "WAYLAND_DISPLAY"@ && key != "XDG_RUNTIME_DIR"@ && key != "DISPLAY"@) by {
        if key == "XDG_CURRENT_DESKTOP"@ {
            assert(key.len() == 19);
        } else {
            assert(key.len() == 16);
        }
    }
    assert(changed.dom().contains("WAYLAND_SOCKET"@) == env.dom().contains("WAYLAND_SOCKET"@));
    assert(changed.dom().contains("WAYLAND_DISPLAY"@) == env.dom().contains("WAYLAND_DISPLAY"@));
    assert(changed.dom().contains("XDG_RUNTIME_DIR"@) == env.dom().contains("XDG_RUNTIME_DIR"@));
    assert(changed.dom().contains("DISPLAY"@) == env.dom().contains("DISPLAY"@));
    assert(changed["WAYLAND_DISPLAY"@] == env["WAYLAND_DISPLAY"@] || !env.dom().contains("WAYLAND_DISPLAY"@));
    assert(changed["XDG_RUNTIME_DIR"@] == env["XDG_RUNTIME_DIR"@] || !env.dom().contains("XDG_RUNTIME_DIR"@));
    assert(changed["DISPLAY"@] == env["DISPLAY"@] || !env.dom().contains("DISPLAY"@));
}

} // verus!

//! The command model: panel state, descriptors and bus configuration.

use vstd::prelude::*;
use vstd::std_specs::convert::FromSpecImpl;
use vstd::std_specs::iter::IteratorSpec;
use tokio::sync::oneshot::Sender;
use crate::number::Number;
use crate::text::{ends_with, starts_with, str_eq};

verus! {

broadcast use vstd::string::group_string_axioms;

/// Session state of the displayed page, in the order in which a page advances
/// through it, plus the fallback for a code that names no state.
#[derive(Clone, Copy, Debug, PartialEq, Eq, Structural)]
pub enum State {
    Preparing,
    Loaded,
    Active,
    Unknown,
}

impl State {
    /// The state that a numeric code stands for.
    pub open spec fn of_code(code: u8) -> State {
        if code == 0 {
            State::Preparing
        } else if code == 1 {
            State::Loaded
        } else if code == 2 {
            State::Active
        } else {
            State::Unknown
        }
    }

    /// The numeric code of a state.
    pub open spec fn spec_code(self) -> u8 {
        match self {
            State::Preparing => 0,
            State::Loaded => 1,
            State::Active => 2,
            State::Unknown => 0xff,
        }
    }

    /// The numeric code of this state.
    #[verifier::when_used_as_spec(spec_code)]
    pub fn code(self) -> (code: u8)
        ensures
            code == self.spec_code(),
    {
        match self {
            State::Preparing => 0,
            State::Loaded => 1,
            State::Active => 2,
            State::Unknown => 0xff,
        }
    }

    /// Lower-case name of a state.
    pub open spec fn spec_name(self) -> Seq<char> {
        match self {
            State::Preparing => "preparing"@,
            State::Loaded => "loaded"@,
            State::Active => "active"@,
            State::Unknown => "unknown"@,
        }
    }

    /// Lower-case name of this state.
    pub fn as_str(self) -> (name: &'static str)
        ensures
            name@ == self.spec_name(),
    {
        match self {
            State::Preparing => "preparing",
            State::Loaded => "loaded",
            State::Active => "active",
            State::Unknown => "unknown",
        }
    }
}

impl From<u8> for State {
    fn from(code: u8) -> (state: State) {
        match code {
            0 => State::Preparing,
            1 => State::Loaded,
            2 => State::Active,
            _ => State::Unknown,
        }
    }
}

impl FromSpecImpl<u8> for State {
    open spec fn obeys_from_spec() -> bool {
        true
    }

    open spec fn from_spec(code: u8) -> State {
        State::of_code(code)
    }
}

/// Every state is the state of its own code, and only the codes 0, 1 and 2
/// name a state other than `Unknown`.
pub proof fn lemma_state_code_round_trip(state: State, code: u8)
    ensures
        State::of_code(state.spec_code()) == state,
        State::of_code(code) != State::Unknown <==> code <= 2,
        State::of_code(code) != State::Unknown ==> State::of_code(code).spec_code() == code,
{
}

/// Rendering engine of the displayed application.
#[derive(Clone, Copy, Debug, PartialEq, Eq, Structural)]
pub enum Engine {
    Wasm,
    Js,
}

impl Engine {
    /// Lower-case name of an engine.
    pub open spec fn spec_name(self) -> Seq<char> {
        match self {
            Engine::Wasm => "wasm"@,
            Engine::Js => "js"@,
        }
    }

    /// Lower-case name of this engine.
    pub fn as_str(self) -> (name: &'static str)
        ensures
            name@ == self.spec_name(),
    {
        match self {
            Engine::Wasm => "wasm",
            Engine::Js => "js",
        }
    }
}

impl Default for Engine {
    fn default() -> (engine: Engine)
        ensures
            engine == Engine::Wasm,
    {
        Engine::Wasm
    }
}

/// Role of the bridge on the message bus.
#[derive(Clone, Copy, Debug, PartialEq, Eq, Structural)]
pub enum BusMode {
    Server,
    Client,
}

impl BusMode {
    /// Lower-case name of a role.
    pub open spec fn spec_name(self) -> Seq<char> {
        match self {
            BusMode::Server => "server"@,
            BusMode::Client => "client"@,
        }
    }

    /// Lower-case name of this role.
    pub fn as_str(self) -> (name: &'static str)
        ensures
            name@ == self.spec_name(),
    {
        match self {
            BusMode::Server => "server",
            BusMode::Client => "client",
        }
    }
}

/// Severity with which an alert is shown.
#[derive(Clone, Copy, Debug, PartialEq, Eq, Structural)]
pub enum AlertLevel {
    Info,
    Warning,
}

impl AlertLevel {
    /// Lower-case name of a level.
    pub open spec fn spec_name(self) -> Seq<char> {
        match self {
            AlertLevel::Info => "info"@,
            AlertLevel::Warning => "warning"@,
        }
    }

    /// The level that a name stands for, if it stands for one.
    pub open spec fn of_name(name: Seq<char>) -> Option<AlertLevel> {
        if name == "info"@ {
            Some(AlertLevel::Info)
        } else if name == "warning"@ {
            Some(AlertLevel::Warning)
        } else {
            None
        }
    }

    /// Lower-case name of this level.
    pub fn as_str(self) -> (name: &'static str)
        ensures
            name@ == self.spec_name(),
    {
        match self {
            AlertLevel::Info => "info",
            AlertLevel::Warning => "warning",
        }
    }

    /// Reads a level from its lower-case name.
    pub fn from_name(name: &str) -> (level: Option<AlertLevel>)
        ensures
            level == AlertLevel::of_name(name@),
    {
        if str_eq(name, "info") {
            Some(AlertLevel::Info)
        } else if str_eq(name, "warning") {
            Some(AlertLevel::Warning)
        } else {
            None
        }
    }
}

impl Default for AlertLevel {
    fn default() -> (level: AlertLevel)
        ensures
            level == AlertLevel::Info,
    {
        AlertLevel::Info
    }
}

/// Every level is read back from its own name.
pub proof fn lemma_alert_level_name_round_trip(level: AlertLevel)
    ensures
        AlertLevel::of_name(level.spec_name()) == Some(level),
{
    reveal_strlit("info");
    reveal_strlit("warning");
    assert("info"@.len() != "warning"@.len());
}

/// What a panel is, fixed when the process starts.
#[derive(Clone, Debug, PartialEq, Eq)]
pub struct PanelInfo {
    pub home_url: String,
    pub agent: String,
    pub version: String,
    pub arch: String,
    pub engine: Engine,
    pub debug: bool,
}

/// Snapshot of a panel: its descriptor together with the state and the
/// location of the page at the time of a query.
#[derive(Clone, Copy, Debug, PartialEq, Eq)]
pub struct StateInfo<'a> {
    pub home_url: &'a str,
    pub current_url: Option<&'a str>,
    pub agent: &'a str,
    pub version: &'a str,
    pub arch: &'a str,
    pub engine: Engine,
    pub debug: bool,
    pub state: State,
}

/// The characters of an optional text.
pub open spec fn opt_text(text: Option<&str>) -> Option<Seq<char>> {
    match text {
        Some(t) => Some(t@),
        None => None,
    }
}

/// The characters of an optional owned text.
pub open spec fn opt_string(text: Option<String>) -> Option<Seq<char>> {
    match text {
        Some(t) => Some(t@),
        None => None,
    }
}

impl PanelInfo {
    /// Puts the state and the location of the page beside the descriptor.
    pub fn state_info<'a>(&'a self, state: State, current_url: Option<&'a str>) -> (info:
        StateInfo<'a>)
        ensures
            info.home_url@ == self.home_url@,
            opt_text(info.current_url) == opt_text(current_url),
            info.agent@ == self.agent@,
            info.version@ == self.version@,
            info.arch@ == self.arch@,
            info.engine == self.engine,
            info.debug == self.debug,
            info.state == state,
    {
        StateInfo {
            home_url: self.home_url.as_str(),
            current_url,
            agent: self.agent.as_str(),
            version: self.version.as_str(),
            arch: self.arch.as_str(),
            engine: self.engine,
            debug: self.debug,
            state,
        }
    }
}

/// Where the bridge meets the message bus, and in which role.
#[derive(Clone, Debug, PartialEq, Eq)]
pub struct BusConfig {
    mode: BusMode,
    path: String,
}

impl BusConfig {
    /// The role that a configuration declares.
    pub closed spec fn spec_mode(&self) -> BusMode {
        self.mode
    }

    /// The endpoint path that a configuration declares.
    pub closed spec fn spec_path(&self) -> Seq<char> {
        self.path@
    }

    /// A configuration with the given role and endpoint path.
    pub fn new(mode: BusMode, path: String) -> (config: BusConfig)
        ensures
            config.spec_mode() == mode,
            config.spec_path() == path@,
    {
        BusConfig { mode, path }
    }

    /// The endpoint path.
    pub fn path(&self) -> (path: &str)
        ensures
            path@ == self.spec_path(),
    {
        self.path.as_str()
    }

    /// The role.
    #[verifier::when_used_as_spec(spec_mode)]
    pub fn mode(&self) -> (mode: BusMode)
        ensures
            mode == self.spec_mode(),
    {
        self.mode
    }

    /// Whether a path names a socket in the file system: it is absolute, or
    /// ends in `.sock`, `.socket` or `.ipc`. Any other path is a network
    /// address.
    pub open spec fn names_unix_socket(path: Seq<char>) -> bool {
        ||| ".sock"@.is_suffix_of(path)
        ||| ".socket"@.is_suffix_of(path)
        ||| ".ipc"@.is_suffix_of(path)
        ||| "/"@.is_prefix_of(path)
    }

    /// Whether the endpoint is a socket in the file system.
    pub fn is_unix_sock(&self) -> (unix: bool)
        ensures
            unix == BusConfig::names_unix_socket(self.spec_path()),
    {
        let path = self.path.as_str();
        ends_with(path, ".sock") || ends_with(path, ".socket") || ends_with(path, ".ipc")
            || starts_with(path, "/")
    }
}

/// A command for the executor. The two queries carry the slot into which
/// the executor writes its reply; every other command is sent and forgotten.
#[derive(Debug)]
pub enum UEvent {
    Login(String, String),
    Logout,
    Eval(String),
    Zoom(Number),
    Navigate(Option<String>),
    Alert(String, AlertLevel, u16),
    Reload,
    OpenDevTools,
    CloseDevTools,
    GetState(Sender<State>),
    GetLocation(Sender<Option<String>>),
}

/// A command as contracts speak of it: the texts by their characters, a
/// query without its slot.
pub enum UEventView {
    Login(Seq<char>, Seq<char>),
    Logout,
    Eval(Seq<char>),
    Zoom(Number),
    Navigate(Option<Seq<char>>),
    Alert(Seq<char>, AlertLevel, u16),
    Reload,
    OpenDevTools,
    CloseDevTools,
    GetState,
    GetLocation,
}

impl View for UEvent {
    type V = UEventView;

    open spec fn view(&self) -> UEventView {
        match self {
            UEvent::Login(login, password) => UEventView::Login(login@, password@),
            UEvent::Logout => UEventView::Logout,
            UEvent::Eval(script) => UEventView::Eval(script@),
            UEvent::Zoom(level) => UEventView::Zoom(*level),
            UEvent::Navigate(url) => UEventView::Navigate(opt_string(*url)),
            UEvent::Alert(text, level, timeout) => UEventView::Alert(text@, *level, *timeout),
            UEvent::Reload => UEventView::Reload,
            UEvent::OpenDevTools => UEventView::OpenDevTools,
            UEvent::CloseDevTools => UEventView::CloseDevTools,
            UEvent::GetState(_) => UEventView::GetState,
            UEvent::GetLocation(_) => UEventView::GetLocation,
        }
    }
}

impl UEventView {
    /// Whether a command asks for a reply.
    pub open spec fn is_query(self) -> bool {
        self is GetState || self is GetLocation
    }
}

/// What stands in a script for one character of a text.
pub open spec fn js_escaped_char(c: char) -> Seq<char> {
    if c == '\\' {
        seq!['\\', '\\']
    } else if c == '"' {
        seq!['\\', '"']
    } else {
        seq![c]
    }
}

/// A text with a backslash before each backslash and each double quote.
pub open spec fn js_escaped(s: Seq<char>) -> Seq<char>
    decreases s.len(),
{
    if s.len() == 0 {
        Seq::empty()
    } else {
        js_escaped_char(s[0]) + js_escaped(s.drop_first())
    }
}

/// Escapes a text for a string literal of a script: a backslash goes before
/// each backslash and each double quote, nothing else changes.
pub fn prepare_js_str(s: &str) -> (escaped: String)
    ensures
        escaped@ == js_escaped(s@),
{
    let mut out = String::new();
    let mut it = s.chars();
    loop
        invariant
            it.obeys_prophetic_iter_laws(),
            it.decrease() is Some,
            js_escaped(s@) == out@ + js_escaped(it.remaining()),
        decreases it.decrease()->0,
    {
        match it.next() {
            None => {
                return out;
            },
            Some(c) => {
                if c == '\\' || c == '"' {
                    out.push('\\');
                }
                out.push(c);
            },
        }
    }
}

/// Whether a character ends a line of a script.
pub open spec fn is_line_terminator(c: char) -> bool {
    c == '\n' || c == '\r'
}

/// What a script reads from the body of a string literal that `quote`
/// delimits: a backslash gives the backslash or the quote character that
/// follows it, every other character gives itself. There is no reading where
/// the delimiter or the end of a line stands unescaped, nor where a backslash
/// is followed by anything else.
pub open spec fn js_literal_value(body: Seq<char>, quote: char) -> Option<Seq<char>>
    decreases body.len(),
{
    if body.len() == 0 {
        Some(Seq::empty())
    } else if body[0] == '\\' {
        if body.len() >= 2 && (body[1] == '\\' || body[1] == '"' || body[1] == '\'') {
            match js_literal_value(body.skip(2), quote) {
                Some(rest) => Some(seq![body[1]] + rest),
                None => None,
            }
        } else {
            None
        }
    } else if body[0] == quote || is_line_terminator(body[0]) {
        None
    } else {
        match js_literal_value(body.drop_first(), quote) {
            Some(rest) => Some(seq![body[0]] + rest),
            None => None,
        }
    }
}

/// Whether a text can stand escaped between two `quote` characters: it holds
/// no end of line and, where the delimiter is the single quote, no single
/// quote.
pub open spec fn js_embeddable(s: Seq<char>, quote: char) -> bool {
    forall|i: int|
        0 <= i < s.len() ==> !is_line_terminator(#[trigger] s[i]) && (quote == '\'' ==> s[i]
            != '\'')
}

/// Round trip of the escaping: a script that reads the escaped form of an
/// embeddable text as the body of a string literal reads the text itself,
/// whatever backslashes and double quotes it holds.
pub proof fn lemma_js_escape_round_trip(s: Seq<char>, quote: char)
    requires
        quote == '\'' || quote == '"',
        js_embeddable(s, quote),
    ensures
        js_literal_value(js_escaped(s), quote) == Some(s),
    decreases s.len(),
{
    if s.len() > 0 {
        let rest = s.drop_first();
        let c = s[0];
        lemma_js_escape_round_trip(rest, quote);
        let body = js_escaped(s);
        if c == '\\' || c == '"' {
            assert(body.skip(2) =~= js_escaped(rest));
        } else {
            assert(body.drop_first() =~= js_escaped(rest));
        }
    }
}

/// The escaping protects nothing else: the escaped form of a text that is not
/// embeddable is not read back as that text.
pub proof fn lemma_js_escape_needs_embeddable(s: Seq<char>, quote: char)
    requires
        quote == '\'' || quote == '"',
        !js_embeddable(s, quote),
    ensures
        js_literal_value(js_escaped(s), quote) != Some(s),
    decreases s.len(),
{
    if s.len() > 0 {
        let rest = s.drop_first();
        let c = s[0];
        let body = js_escaped(s);
        let bad = choose|i: int|
            0 <= i < s.len() && !(!is_line_terminator(#[trigger] s[i]) && (quote == '\''
                ==> s[i] != '\''));
        if bad != 0 {
            assert(rest[bad - 1] == s[bad]);
            lemma_js_escape_needs_embeddable(rest, quote);
            if c == '\\' || c == '"' {
                assert(body.skip(2) =~= js_escaped(rest));
            } else {
                assert(body.drop_first() =~= js_escaped(rest));
            }
            match js_literal_value(js_escaped(rest), quote) {
                Some(other) => {
                    if js_literal_value(body, quote) == Some(s) {
                        assert(other == rest);
                    }
                },
                None => {},
            }
        }
    }
}

} // verus!

//! The executor: what the UI thread does with each event that reaches it.
//! The decision is made here; the rendering surface that carries it out is
//! the caller's.

use vstd::prelude::*;
use vstd::string::StringExecFns;
use tokio::sync::oneshot::Sender;
use crate::common::{
    js_escaped, opt_string, opt_text, prepare_js_str, AlertLevel, BusConfig, BusMode, State,
    UEvent, UEventView,
};
use crate::number::Number;
use crate::reply::write_slot;
use crate::text::{decimal, parse_u8, parsed_u8, push_decimal};

verus! {

/// Script that gives the location of the page.
pub const LOCATION_SCRIPT: &'static str = "window.location.href";

/// Script that gives the code of the state of the page: 2 where a session
/// is open, 1 where the page can log in, 0 before that.
pub const STATE_SCRIPT: &'static str =
    "{ let result = 0; if (window.$eva.api_token) { result = 2; } else if (window.$eva.hmi.login) { result = 1; } result }";

/// An event of the UI thread.
#[derive(Debug)]
pub enum PanelEvent {
    /// A command came from the handler.
    Command(UEvent),
    /// The user asked to close the window.
    CloseRequested,
    /// The key F12 was released; `devtools_open` says whether the developer
    /// tools are open.
    F12Released { devtools_open: bool },
}

/// What the UI thread does next.
#[derive(Debug)]
pub enum UiAction {
    /// Nothing.
    Ignore,
    /// Run the script in the page, without waiting for its result.
    Evaluate(String),
    /// Set the zoom factor of the page.
    Zoom(Number),
    /// Open the developer tools.
    OpenDevTools,
    /// Close the developer tools.
    CloseDevTools,
    /// Clear the flag of the process and end the event loop; before that,
    /// remove the socket at this path if there is one.
    Shutdown { remove_socket: Option<String> },
    /// Run the script in the page and give its result, when it is there, to
    /// `resolve_state` together with the slot.
    AskState { script: String, state_slot: Sender<State> },
    /// Run the script in the page and give its result, when it is there, to
    /// `resolve_location` together with the slot.
    AskLocation { script: String, location_slot: Sender<Option<String>> },
}

/// An action as contracts speak of it.
pub enum UiActionView {
    Ignore,
    Evaluate(Seq<char>),
    Zoom(Number),
    OpenDevTools,
    CloseDevTools,
    Shutdown { remove_socket: Option<Seq<char>> },
    AskState { script: Seq<char> },
    AskLocation { script: Seq<char> },
}

impl View for UiAction {
    type V = UiActionView;

    open spec fn view(&self) -> UiActionView {
        match self {
            UiAction::Ignore => UiActionView::Ignore,
            UiAction::Evaluate(script) => UiActionView::Evaluate(script@),
            UiAction::Zoom(level) => UiActionView::Zoom(*level),
            UiAction::OpenDevTools => UiActionView::OpenDevTools,
            UiAction::CloseDevTools => UiActionView::CloseDevTools,
            UiAction::Shutdown { remove_socket } => UiActionView::Shutdown {
                remove_socket: opt_string(*remove_socket),
            },
            UiAction::AskState { script, state_slot } => UiActionView::AskState { script: script@ },
            UiAction::AskLocation { script, location_slot } => UiActionView::AskLocation {
                script: script@,
            },
        }
    }
}

/// The script that logs in.
pub open spec fn login_script(login: Seq<char>, password: Seq<char>) -> Seq<char> {
    "$eva.hmi.login('"@ + js_escaped(login) + "', '"@ + js_escaped(password) + "')"@
}

/// The script that shows an alert.
pub open spec fn alert_script(text: Seq<char>, level: AlertLevel, timeout: u16) -> Seq<char> {
    "$eva.hmi.display_alert('"@ + js_escaped(text) + "', '"@ + js_escaped(level.spec_name())
        + "', "@ + decimal(timeout as nat) + ")"@
}

/// The script that logs out.
pub open spec fn logout_script() -> Seq<char> {
    "$eva.hmi.logout()"@
}

/// The script that sets the location of the page.
pub open spec fn navigate_script(url: Seq<char>) -> Seq<char> {
    "document.location = \""@ + js_escaped(url) + "\""@
}

/// What a command makes the executor do. A navigation without target goes
/// to the home URL.
pub open spec fn command_action(command: UEventView, home_url: Seq<char>) -> UiActionView {
    match command {
        UEventView::Login(login, password) => UiActionView::Evaluate(
            login_script(login, password),
        ),
        UEventView::Logout => UiActionView::Evaluate(logout_script()),
        UEventView::Eval(script) => UiActionView::Evaluate(script),
        UEventView::Zoom(level) => UiActionView::Zoom(level),
        UEventView::Navigate(url) => UiActionView::Evaluate(
            navigate_script(
                match url {
                    Some(target) => target,
                    None => home_url,
                },
            ),
        ),
        UEventView::Alert(text, level, timeout) => UiActionView::Evaluate(
            alert_script(text, level, timeout),
        ),
        UEventView::Reload => UiActionView::Shutdown { remove_socket: None },
        UEventView::OpenDevTools => UiActionView::OpenDevTools,
        UEventView::CloseDevTools => UiActionView::CloseDevTools,
        UEventView::GetState => UiActionView::AskState { script: STATE_SCRIPT@ },
        UEventView::GetLocation => UiActionView::AskLocation { script: LOCATION_SCRIPT@ },
    }
}

/// The socket that the bridge owns in the file system, if it owns one: the
/// endpoint of a bridge in the server role whose path names such a socket.
pub open spec fn owned_socket(bus: Option<BusConfig>) -> Option<Seq<char>> {
    match bus {
        Some(config) => if config.spec_mode() == BusMode::Server
            && BusConfig::names_unix_socket(config.spec_path()) {
            Some(config.spec_path())
        } else {
            None
        },
        None => None,
    }
}

/// The event of a loop as contracts speak of it.
pub enum PanelEventView {
    Command(UEventView),
    CloseRequested,
    F12Released { devtools_open: bool },
}

impl View for PanelEvent {
    type V = PanelEventView;

    open spec fn view(&self) -> PanelEventView {
        match self {
            PanelEvent::Command(command) => PanelEventView::Command(command@),
            PanelEvent::CloseRequested => PanelEventView::CloseRequested,
            PanelEvent::F12Released { devtools_open } => PanelEventView::F12Released {
                devtools_open: *devtools_open,
            },
        }
    }
}

/// What an event makes the UI thread do.
pub open spec fn event_action(
    event: PanelEventView,
    home_url: Seq<char>,
    debug: bool,
    bus: Option<BusConfig>,
) -> UiActionView {
    match event {
        PanelEventView::Command(command) => command_action(command, home_url),
        PanelEventView::CloseRequested => UiActionView::Shutdown {
            remove_socket: owned_socket(bus),
        },
        PanelEventView::F12Released { devtools_open } => if !debug {
            UiActionView::Ignore
        } else if devtools_open {
            UiActionView::CloseDevTools
        } else {
            UiActionView::OpenDevTools
        },
    }
}

fn make_login_script(login: &str, password: &str) -> (script: String)
    ensures
        script@ == login_script(login@, password@),
{
    let mut script = String::from_str("$eva.hmi.login('");
    script.append(prepare_js_str(login).as_str());
    script.append("', '");
    script.append(prepare_js_str(password).as_str());
    script.append("')");
    script
}

fn make_alert_script(text: &str, level: AlertLevel, timeout: u16) -> (script: String)
    ensures
        script@ == alert_script(text@, level, timeout),
{
    let mut script = String::from_str("$eva.hmi.display_alert('");
    script.append(prepare_js_str(text).as_str());
    script.append("', '");
    script.append(prepare_js_str(level.as_str()).as_str());
    script.append("', ");
    push_decimal(&mut script, timeout as u64);
    script.append(")");
    script
}

fn make_navigate_script(url: &str) -> (script: String)
    ensures
        script@ == navigate_script(url@),
{
    let mut script = String::from_str("document.location = \"");
    script.append(prepare_js_str(url).as_str());
    script.append("\"");
    script
}

/// Decides what a command makes the executor do.
pub fn execute(command: UEvent, home_url: &str) -> (action: UiAction)
    ensures
        action@ == command_action(command@, home_url@),
        command matches UEvent::GetState(asked) ==> action matches UiAction::AskState {
            state_slot,
            ..
        } && state_slot == asked,
        command matches UEvent::GetLocation(asked) ==> action matches UiAction::AskLocation {
            location_slot,
            ..
        } && location_slot == asked,
{
    match command {
        UEvent::Login(login, password) => UiAction::Evaluate(
            make_login_script(login.as_str(), password.as_str()),
        ),
        UEvent::Logout => UiAction::Evaluate(String::from_str("$eva.hmi.logout()")),
        UEvent::Eval(script) => UiAction::Evaluate(script),
        UEvent::Zoom(level) => UiAction::Zoom(level),
        UEvent::Navigate(url) => {
            match url {
                Some(target) => UiAction::Evaluate(make_navigate_script(target.as_str())),
                None => UiAction::Evaluate(make_navigate_script(home_url)),
            }
        },
        UEvent::Alert(text, level, timeout) => UiAction::Evaluate(
            make_alert_script(text.as_str(), level, timeout),
        ),
        UEvent::Reload => UiAction::Shutdown { remove_socket: None },
        UEvent::OpenDevTools => UiAction::OpenDevTools,
        UEvent::CloseDevTools => UiAction::CloseDevTools,
        UEvent::GetState(state_slot) => UiAction::AskState {
            script: String::from_str(STATE_SCRIPT),
            state_slot,
        },
        UEvent::GetLocation(location_slot) => UiAction::AskLocation {
            script: String::from_str(LOCATION_SCRIPT),
            location_slot,
        },
    }
}

/// Decides what an event makes the UI thread do: a command is executed; a
/// request to close the window shuts the panel down and removes the socket
/// that the bridge owns; the key F12 toggles the developer tools while the
/// debug mode is on.
pub fn run(event: PanelEvent, home_url: &str, debug: bool, bus: &Option<BusConfig>) -> (action:
    UiAction)
    ensures
        action@ == event_action(event@, home_url@, debug, *bus),
{
    match event {
        PanelEvent::Command(command) => execute(command, home_url),
        PanelEvent::CloseRequested => {
            let remove_socket = match bus {
                Some(config) => {
                    match config.mode() {
                        BusMode::Server => {
                            if config.is_unix_sock() {
                                Some(String::from_str(config.path()))
                            } else {
                                None
                            }
                        },
                        BusMode::Client => None,
                    }
                },
                None => None,
            };
            UiAction::Shutdown { remove_socket }
        },
        PanelEvent::F12Released { devtools_open } => {
            if !debug {
                UiAction::Ignore
            } else if devtools_open {
                UiAction::CloseDevTools
            } else {
                UiAction::OpenDevTools
            }
        },
    }
}

/// The state that the result of the state script reports: the state of the
/// code that the result writes, `Unknown` where it writes no code, and
/// `Preparing` where the script gave no result at all.
pub open spec fn reported_state(result: Option<Seq<char>>) -> State {
    match result {
        None => State::Preparing,
        Some(text) => match parsed_u8(text) {
            Some(code) => State::of_code(code),
            None => State::Unknown,
        },
    }
}

/// Reads the state of the page from the result of the state script.
pub fn state_of_result(result: Option<&str>) -> (state: State)
    ensures
        state == reported_state(opt_text(result)),
{
    match result {
        None => State::Preparing,
        Some(text) => {
            match parse_u8(text) {
                Some(code) => State::from(code),
                None => State::Unknown,
            }
        },
    }
}

/// Answers a query for the state: writes the state that the result of the
/// state script reports into the slot, which is thereby used up. Where the
/// caller has given up waiting, the state comes back unwritten.
pub fn resolve_state(slot: Sender<State>, result: Option<&str>) -> (unread: Option<State>)
    ensures
        unread matches Some(state) ==> state == reported_state(opt_text(result)),
{
    write_slot(slot, state_of_result(result))
}

/// Answers a query for the location: writes the location, or its absence,
/// into the slot, which is thereby used up. Where the caller has given up
/// waiting, what was to be written comes back.
pub fn resolve_location(slot: Sender<Option<String>>, location: Option<String>) -> (unread:
    Option<Option<String>>)
    ensures
        unread matches Some(back) ==> back == location,
{
    write_slot(slot, location)
}

} // verus!

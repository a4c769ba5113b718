//! The RPC handler: which call is answered how. A call is judged here, by
//! its method name and payload alone; what the answer asks for (a command
//! for the executor, a query, external commands) is carried out by the
//! caller, one action at a time, as the module `call` lays out. The module
//! also decides how the bridge takes its place on the bus.

use vstd::prelude::*;
use tokio::sync::oneshot::Receiver;
use vstd::string::StringExecFns;
use crate::common::{
    opt_string, AlertLevel, BusConfig, BusMode, PanelInfo, State, UEvent, UEventView,
};
use crate::error::{Error, ErrorKind, ErrorView};
use crate::number::Number;
use crate::payload::{
    conforms, field_views, fields_conform, find, find_optional, lemma_lookup_finds, lookup,
    name_views, optional, Field, FieldView, Payload, PayloadView, Value, ValueView,
};
use crate::process::{
    display_command, reboot_command, set_display, shell_command, ExternalCommand,
    ExternalCommandView,
};
use crate::reply::open_slot;
use crate::text::str_eq;

verus! {

/// Seconds for which an alert stays where the call names no timeout.
pub open spec fn spec_default_alert_timeout() -> u16 {
    30
}

/// Seconds for which an alert stays where the call names no timeout.
#[verifier::when_used_as_spec(spec_default_alert_timeout)]
pub fn default_alert_timeout() -> (seconds: u16)
    ensures
        seconds == spec_default_alert_timeout(),
{
    30
}

/// Pause between switching a display off and on again, in milliseconds.
pub const DISPLAY_PAUSE_MS: u64 = 500;

/// Grace delay before the reboot command runs, in milliseconds.
pub const REBOOT_DELAY_MS: u64 = 2000;

/// The methods of the bridge.
#[derive(Clone, Copy, Debug, PartialEq, Eq, Structural)]
pub enum Method {
    Login,
    Logout,
    Test,
    Info,
    Alert,
    Eval,
    Navigate,
    Display,
    Zoom,
    Reload,
    Reboot,
    DevOpen,
    DevClose,
}

impl Method {
    /// The method that a name stands for, if it stands for one. A reload
    /// has two names.
    pub open spec fn of_name(name: Seq<char>) -> Option<Method> {
        if name == "login"@ {
            Some(Method::Login)
        } else if name == "logout"@ {
            Some(Method::Logout)
        } else if name == "test"@ {
            Some(Method::Test)
        } else if name == "info"@ {
            Some(Method::Info)
        } else if name == "alert"@ {
            Some(Method::Alert)
        } else if name == "eval"@ {
            Some(Method::Eval)
        } else if name == "navigate"@ {
            Some(Method::Navigate)
        } else if name == "display"@ {
            Some(Method::Display)
        } else if name == "zoom"@ {
            Some(Method::Zoom)
        } else if name == "reload"@ || name == "stop"@ {
            Some(Method::Reload)
        } else if name == "reboot"@ {
            Some(Method::Reboot)
        } else if name == "dev.open"@ {
            Some(Method::DevOpen)
        } else if name == "dev.close"@ {
            Some(Method::DevClose)
        } else {
            None
        }
    }

    /// Reads a method from its name.
    pub fn parse(name: &str) -> (method: Option<Method>)
        ensures
            method == Method::of_name(name@),
    {
        if str_eq(name, "login") {
            Some(Method::Login)
        } else if str_eq(name, "logout") {
            Some(Method::Logout)
        } else if str_eq(name, "test") {
            Some(Method::Test)
        } else if str_eq(name, "info") {
            Some(Method::Info)
        } else if str_eq(name, "alert") {
            Some(Method::Alert)
        } else if str_eq(name, "eval") {
            Some(Method::Eval)
        } else if str_eq(name, "navigate") {
            Some(Method::Navigate)
        } else if str_eq(name, "display") {
            Some(Method::Display)
        } else if str_eq(name, "zoom") {
            Some(Method::Zoom)
        } else if str_eq(name, "reload") || str_eq(name, "stop") {
            Some(Method::Reload)
        } else if str_eq(name, "reboot") {
            Some(Method::Reboot)
        } else if str_eq(name, "dev.open") {
            Some(Method::DevOpen)
        } else if str_eq(name, "dev.close") {
            Some(Method::DevClose)
        } else {
            None
        }
    }

    /// Whether a method reads fields from its payload. Every other method
    /// is called without payload.
    pub open spec fn reads_fields(self) -> bool {
        match self {
            Method::Login | Method::Alert | Method::Eval | Method::Navigate | Method::Display
            | Method::Zoom => true,
            _ => false,
        }
    }

    /// The fields without which a method cannot be called.
    pub open spec fn required_fields(self) -> Seq<Seq<char>> {
        match self {
            Method::Login => seq!["login"@, "password"@],
            Method::Alert => seq!["text"@],
            Method::Eval => seq!["code"@],
            Method::Zoom => seq!["level"@],
            _ => Seq::empty(),
        }
    }

    /// All the fields that a method knows.
    pub open spec fn known_fields(self) -> Seq<Seq<char>> {
        match self {
            Method::Login => seq!["login"@, "password"@],
            Method::Alert => seq!["text"@, "level"@, "timeout"@],
            Method::Eval => seq!["code"@],
            Method::Navigate => seq!["url"@],
            Method::Display => seq!["on"@, "brightness"@],
            Method::Zoom => seq!["level"@],
            _ => Seq::empty(),
        }
    }
}

/// One step of a change to the display.
#[derive(Clone, Debug, PartialEq, Eq)]
pub enum DisplayStep {
    /// Set the backlight to this level.
    Brightness(Number),
    /// Run this command; where it fails, the call fails and no later step
    /// is taken.
    Run(ExternalCommand),
    /// Wait for this many milliseconds.
    Pause(u64),
}

/// A step as contracts speak of it.
pub enum DisplayStepView {
    Brightness(Number),
    Run(ExternalCommandView),
    Pause(u64),
}

impl View for DisplayStep {
    type V = DisplayStepView;

    open spec fn view(&self) -> DisplayStepView {
        match self {
            DisplayStep::Brightness(level) => DisplayStepView::Brightness(*level),
            DisplayStep::Run(command) => DisplayStepView::Run(command@),
            DisplayStep::Pause(millis) => DisplayStepView::Pause(*millis),
        }
    }
}

/// The steps of a list as contracts speak of them.
pub open spec fn step_views(steps: Seq<DisplayStep>) -> Seq<DisplayStepView> {
    steps.map_values(|s: DisplayStep| s@)
}

/// What a call that was accepted asks its caller to do before it replies.
#[derive(Debug)]
pub enum Outcome {
    /// Nothing: reply at once.
    Done,
    /// Hand this command to the executor. The reply is empty; where the
    /// command cannot be handed over, the call fails.
    Enqueue(UEvent),
    /// Ask the executor for the state and then for the location of the page,
    /// and reply with the snapshot.
    Info,
    /// Take these steps in order, then reply.
    Display(Vec<DisplayStep>),
    /// Reply at once; run this command after the grace delay, detached from
    /// the call.
    Reboot(ExternalCommand),
}

/// An outcome as contracts speak of it.
pub enum OutcomeView {
    Done,
    Enqueue(UEventView),
    Info,
    Display(Seq<DisplayStepView>),
    Reboot(ExternalCommandView),
}

impl View for Outcome {
    type V = OutcomeView;

    open spec fn view(&self) -> OutcomeView {
        match self {
            Outcome::Done => OutcomeView::Done,
            Outcome::Enqueue(event) => OutcomeView::Enqueue(event@),
            Outcome::Info => OutcomeView::Info,
            Outcome::Display(steps) => OutcomeView::Display(step_views(steps@)),
            Outcome::Reboot(command) => OutcomeView::Reboot(command@),
        }
    }
}

/// The answer to a call as contracts speak of it.
pub open spec fn answer_view(answer: Result<Outcome, Error>) -> Result<OutcomeView, ErrorView> {
    match answer {
        Ok(outcome) => Ok(outcome@),
        Err(error) => Err(error@),
    }
}

/// The error for a payload that does not fit the method.
pub open spec fn invalid_params() -> ErrorView {
    ErrorView { kind: ErrorKind::InvalidParams, message: Seq::empty() }
}

/// The error for a method that the bridge does not have.
pub open spec fn method_not_found() -> ErrorView {
    ErrorView { kind: ErrorKind::MethodNotFound, message: Seq::empty() }
}

/// The error for a developer tools command while the debug mode is off.
pub open spec fn debug_required() -> ErrorView {
    ErrorView { kind: ErrorKind::AccessDenied, message: "debug mode is not enabled"@ }
}

/// The error for a brightness above 100.
pub open spec fn brightness_refused() -> ErrorView {
    ErrorView { kind: ErrorKind::InvalidParams, message: "brightness > 100%"@ }
}

/// The error for a display command on a host whose monitor is not known.
pub open spec fn monitor_missing() -> ErrorView {
    ErrorView { kind: ErrorKind::ExternalCommandFailed, message: "monitor not detected"@ }
}

/// The text of a required text field.
pub open spec fn text_field(fields: Seq<FieldView>, name: Seq<char>) -> Option<Seq<char>> {
    match lookup(fields, name) {
        Some(ValueView::Text(t)) => Some(t),
        _ => None,
    }
}

/// The number of a required number field.
pub open spec fn number_field(fields: Seq<FieldView>, name: Seq<char>) -> Option<Number> {
    match lookup(fields, name) {
        Some(ValueView::Number(n)) => Some(n),
        _ => None,
    }
}

/// An optional text field: the text if there is one, and no reading at all
/// where the field holds something else.
pub open spec fn opt_text_field(fields: Seq<FieldView>, name: Seq<char>) -> Option<
    Option<Seq<char>>,
> {
    match optional(fields, name) {
        None => Some(None),
        Some(ValueView::Text(t)) => Some(Some(t)),
        Some(_) => None,
    }
}

/// An optional truth value, read as `opt_text_field` reads a text.
pub open spec fn opt_bool_field(fields: Seq<FieldView>, name: Seq<char>) -> Option<Option<bool>> {
    match optional(fields, name) {
        None => Some(None),
        Some(ValueView::Bool(b)) => Some(Some(b)),
        Some(_) => None,
    }
}

/// An optional number, read as `opt_text_field` reads a text.
pub open spec fn opt_number_field(fields: Seq<FieldView>, name: Seq<char>) -> Option<
    Option<Number>,
> {
    match optional(fields, name) {
        None => Some(None),
        Some(ValueView::Number(n)) => Some(Some(n)),
        Some(_) => None,
    }
}

/// The level of an alert: `Info` where none is named, else the level of
/// that name.
pub open spec fn level_field(fields: Seq<FieldView>) -> Option<AlertLevel> {
    match opt_text_field(fields, "level"@) {
        Some(None) => Some(AlertLevel::Info),
        Some(Some(name)) => AlertLevel::of_name(name),
        None => None,
    }
}

/// The timeout of an alert in seconds: the default where none is named, else
/// a whole number from 0 to 65535.
pub open spec fn timeout_field(fields: Seq<FieldView>) -> Option<u16> {
    match opt_number_field(fields, "timeout"@) {
        Some(None) => Some(spec_default_alert_timeout()),
        Some(Some(Number::Unsigned(v))) => if v <= 0xffff {
            Some(v as u16)
        } else {
            None
        },
        Some(Some(Number::Signed(v))) => if 0 <= v <= 0xffff {
            Some(v as u16)
        } else {
            None
        },
        _ => None,
    }
}

/// The command that a payload asks for under a method that hands one
/// command to the executor, if the payload fits the method.
pub open spec fn command_of(method: Method, payload: PayloadView) -> Option<UEventView> {
    match payload {
        PayloadView::Fields(fields) => if conforms(fields, method.known_fields()) {
            match method {
                Method::Login => match (
                    text_field(fields, "login"@),
                    text_field(fields, "password"@),
                ) {
                    (Some(login), Some(password)) => Some(UEventView::Login(login, password)),
                    _ => None,
                },
                Method::Alert => match (
                    text_field(fields, "text"@),
                    level_field(fields),
                    timeout_field(fields),
                ) {
                    (Some(text), Some(level), Some(timeout)) => Some(
                        UEventView::Alert(text, level, timeout),
                    ),
                    _ => None,
                },
                Method::Eval => match text_field(fields, "code"@) {
                    Some(code) => Some(UEventView::Eval(code)),
                    None => None,
                },
                Method::Navigate => match opt_text_field(fields, "url"@) {
                    Some(url) => Some(UEventView::Navigate(url)),
                    None => None,
                },
                Method::Zoom => match number_field(fields, "level"@) {
                    Some(level) => Some(UEventView::Zoom(level)),
                    None => None,
                },
                _ => None,
            }
        } else {
            None
        },
        PayloadView::Absent => if method == Method::Navigate {
            Some(UEventView::Navigate(None))
        } else {
            None
        },
        PayloadView::Malformed => None,
    }
}

/// What a display call asks for: whether to switch the display on or off,
/// and the brightness to set, each if named.
pub open spec fn display_params(payload: PayloadView) -> Option<(Option<bool>, Option<Number>)> {
    match payload {
        PayloadView::Fields(fields) => if conforms(fields, Method::Display.known_fields()) {
            match (opt_bool_field(fields, "on"@), opt_number_field(fields, "brightness"@)) {
                (Some(on), Some(brightness)) => Some((on, brightness)),
                _ => None,
            }
        } else {
            None
        },
        _ => None,
    }
}

/// Whether a display call names a brightness above 100.
pub open spec fn brightness_too_high(payload: PayloadView) -> bool {
    match display_params(payload) {
        Some((_, Some(level))) => level.above_hundred(),
        _ => false,
    }
}

/// The steps of a display call: the brightness first, then the switch. A
/// display is switched on by switching it off, waiting, and switching it on,
/// which makes it negotiate its signal anew.
pub open spec fn display_steps(monitor: Seq<char>, on: Option<bool>, brightness: Option<Number>)
    -> Seq<DisplayStepView> {
    let first = match brightness {
        Some(level) => seq![DisplayStepView::Brightness(level)],
        None => Seq::empty(),
    };
    let then = match on {
        Some(true) => seq![
            DisplayStepView::Run(display_command(monitor, false)),
            DisplayStepView::Pause(DISPLAY_PAUSE_MS),
            DisplayStepView::Run(display_command(monitor, true)),
        ],
        Some(false) => seq![DisplayStepView::Run(display_command(monitor, false))],
        None => Seq::empty(),
    };
    first + then
}

/// What the handler needs to know of its host to judge a call.
#[derive(Clone, Debug, PartialEq, Eq)]
pub struct Handlers {
    /// The descriptor of the panel; its debug flag gates the developer tools.
    pub info: PanelInfo,
    /// Name of the monitor, where one was detected.
    pub monitor: Option<String>,
    /// Command line that reboots the host.
    pub reboot_cmd: String,
}

/// The answer to a call of a method that takes no payload.
pub open spec fn bare_call_result(handlers: Handlers, method: Method) -> Result<
    OutcomeView,
    ErrorView,
> {
    match method {
        Method::Test => Ok(OutcomeView::Done),
        Method::Logout => Ok(OutcomeView::Enqueue(UEventView::Logout)),
        Method::Reload => Ok(OutcomeView::Enqueue(UEventView::Reload)),
        Method::Info => Ok(OutcomeView::Info),
        Method::Reboot => Ok(OutcomeView::Reboot(shell_command(handlers.reboot_cmd@))),
        Method::DevOpen => if handlers.info.debug {
            Ok(OutcomeView::Enqueue(UEventView::OpenDevTools))
        } else {
            Err(debug_required())
        },
        Method::DevClose => if handlers.info.debug {
            Ok(OutcomeView::Enqueue(UEventView::CloseDevTools))
        } else {
            Err(debug_required())
        },
        _ => Err(invalid_params()),
    }
}

/// The answer to a display call.
pub open spec fn display_call_result(handlers: Handlers, payload: PayloadView) -> Result<
    OutcomeView,
    ErrorView,
> {
    match display_params(payload) {
        None => Err(invalid_params()),
        Some((on, brightness)) => if brightness_too_high(payload) {
            Err(brightness_refused())
        } else {
            match handlers.monitor {
                None => Err(monitor_missing()),
                Some(monitor) => Ok(
                    OutcomeView::Display(display_steps(monitor@, on, brightness)),
                ),
            }
        },
    }
}

/// The answer to a call: by the method table, with every payload that does
/// not fit its method refused.
pub open spec fn call_result(handlers: Handlers, method: Seq<char>, payload: PayloadView)
    -> Result<OutcomeView, ErrorView> {
    match Method::of_name(method) {
        None => Err(method_not_found()),
        Some(m) => if !m.reads_fields() {
            if payload is Absent {
                bare_call_result(handlers, m)
            } else {
                Err(invalid_params())
            }
        } else if m == Method::Display {
            display_call_result(handlers, payload)
        } else {
            match command_of(m, payload) {
                Some(command) => Ok(OutcomeView::Enqueue(command)),
                None => Err(invalid_params()),
            }
        },
    }
}

/// An optional text that may be unreadable, as contracts speak of it.
pub open spec fn opt_opt_string(text: Option<Option<String>>) -> Option<Option<Seq<char>>> {
    match text {
        Some(inner) => Some(opt_string(inner)),
        None => None,
    }
}

fn read_text(fields: &Vec<Field>, name: &str) -> (text: Option<String>)
    ensures
        opt_string(text) == text_field(field_views(fields@), name@),
{
    match find(fields, name) {
        Some(Value::Text(t)) => Some(t.clone()),
        _ => None,
    }
}

fn read_number(fields: &Vec<Field>, name: &str) -> (number: Option<Number>)
    ensures
        number == number_field(field_views(fields@), name@),
{
    match find(fields, name) {
        Some(Value::Number(n)) => Some(*n),
        _ => None,
    }
}

fn read_opt_text(fields: &Vec<Field>, name: &str) -> (text: Option<Option<String>>)
    ensures
        opt_opt_string(text) == opt_text_field(field_views(fields@), name@),
{
    match find_optional(fields, name) {
        None => Some(None),
        Some(Value::Text(t)) => Some(Some(t.clone())),
        Some(_) => None,
    }
}

fn read_opt_bool(fields: &Vec<Field>, name: &str) -> (flag: Option<Option<bool>>)
    ensures
        flag == opt_bool_field(field_views(fields@), name@),
{
    match find_optional(fields, name) {
        None => Some(None),
        Some(Value::Bool(b)) => Some(Some(*b)),
        Some(_) => None,
    }
}

fn read_opt_number(fields: &Vec<Field>, name: &str) -> (number: Option<Option<Number>>)
    ensures
        number == opt_number_field(field_views(fields@), name@),
{
    match find_optional(fields, name) {
        None => Some(None),
        Some(Value::Number(n)) => Some(Some(*n)),
        Some(_) => None,
    }
}

fn read_level(fields: &Vec<Field>) -> (level: Option<AlertLevel>)
    ensures
        level == level_field(field_views(fields@)),
{
    match find_optional(fields, "level") {
        None => Some(AlertLevel::default()),
        Some(Value::Text(name)) => AlertLevel::from_name(name.as_str()),
        Some(_) => None,
    }
}

fn read_timeout(fields: &Vec<Field>) -> (timeout: Option<u16>)
    ensures
        timeout == timeout_field(field_views(fields@)),
{
    match read_opt_number(fields, "timeout") {
        Some(None) => Some(default_alert_timeout()),
        Some(Some(Number::Unsigned(v))) => {
            if v <= 0xffff {
                Some(v as u16)
            } else {
                None
            }
        },
        Some(Some(Number::Signed(v))) => {
            if 0 <= v && v <= 0xffff {
                Some(v as u16)
            } else {
                None
            }
        },
        _ => None,
    }
}

/// Whether a list of fields fits the shape that a method knows.
fn fits(fields: &Vec<Field>, method: Method) -> (fits: bool)
    ensures
        fits == conforms(field_views(fields@), method.known_fields()),
{
    match method {
        Method::Login => {
            let known = ["login", "password"];
            assert(name_views(known@) =~= method.known_fields());
            fields_conform(fields, known.as_slice())
        },
        Method::Alert => {
            let known = ["text", "level", "timeout"];
            assert(name_views(known@) =~= method.known_fields());
            fields_conform(fields, known.as_slice())
        },
        Method::Eval => {
            let known = ["code"];
            assert(name_views(known@) =~= method.known_fields());
            fields_conform(fields, known.as_slice())
        },
        Method::Navigate => {
            let known = ["url"];
            assert(name_views(known@) =~= method.known_fields());
            fields_conform(fields, known.as_slice())
        },
        Method::Display => {
            let known = ["on", "brightness"];
            assert(name_views(known@) =~= method.known_fields());
            fields_conform(fields, known.as_slice())
        },
        Method::Zoom => {
            let known = ["level"];
            assert(name_views(known@) =~= method.known_fields());
            fields_conform(fields, known.as_slice())
        },
        _ => {
            let known: [&'static str; 0] = [];
            fields_conform(fields, known.as_slice())
        },
    }
}

/// The command that a payload asks for under a method that hands one
/// command to the executor, if the payload fits the method.
fn read_command(method: Method, payload: &Payload) -> (command: Option<UEvent>)
    ensures
        match command {
            Some(c) => command_of(method, payload@) == Some(c@),
            None => command_of(method, payload@) is None,
        },
{
    match payload {
        Payload::Fields(fields) => {
            if !fits(fields, method) {
                return None;
            }
            match method {
                Method::Login => {
                    match (read_text(fields, "login"), read_text(fields, "password")) {
                        (Some(login), Some(password)) => Some(UEvent::Login(login, password)),
                        _ => None,
                    }
                },
                Method::Alert => {
                    match (read_text(fields, "text"), read_level(fields), read_timeout(fields)) {
                        (Some(text), Some(level), Some(timeout)) => Some(
                            UEvent::Alert(text, level, timeout),
                        ),
                        _ => None,
                    }
                },
                Method::Eval => {
                    match read_text(fields, "code") {
                        Some(code) => Some(UEvent::Eval(code)),
                        None => None,
                    }
                },
                Method::Navigate => {
                    match read_opt_text(fields, "url") {
                        Some(url) => Some(UEvent::Navigate(url)),
                        None => None,
                    }
                },
                Method::Zoom => {
                    match read_number(fields, "level") {
                        Some(level) => Some(UEvent::Zoom(level)),
                        None => None,
                    }
                },
                _ => None,
            }
        },
        Payload::Absent => {
            match method {
                Method::Navigate => Some(UEvent::Navigate(None)),
                _ => None,
            }
        },
        Payload::Malformed => None,
    }
}

/// What a display call asks for, if its payload fits.
fn read_display(payload: &Payload) -> (params: Option<(Option<bool>, Option<Number>)>)
    ensures
        params == display_params(payload@),
{
    match payload {
        Payload::Fields(fields) => {
            if !fits(fields, Method::Display) {
                return None;
            }
            match (read_opt_bool(fields, "on"), read_opt_number(fields, "brightness")) {
                (Some(on), Some(brightness)) => Some((on, brightness)),
                _ => None,
            }
        },
        _ => None,
    }
}

/// The steps of a display call on the given monitor.
fn plan_display(monitor: &str, on: Option<bool>, brightness: Option<Number>) -> (steps: Vec<
    DisplayStep,
>)
    ensures
        step_views(steps@) == display_steps(monitor@, on, brightness),
{
    let mut steps: Vec<DisplayStep> = Vec::new();
    match brightness {
        Some(level) => {
            steps.push(DisplayStep::Brightness(level));
        },
        None => {},
    }
    match on {
        Some(true) => {
            steps.push(DisplayStep::Run(set_display(monitor, false)));
            steps.push(DisplayStep::Pause(DISPLAY_PAUSE_MS));
            steps.push(DisplayStep::Run(set_display(monitor, true)));
        },
        Some(false) => {
            steps.push(DisplayStep::Run(set_display(monitor, false)));
        },
        None => {},
    }
    steps
}

impl Handlers {
    /// Judges a call. The method name decides what the payload must hold:
    /// a method without parameters refuses any payload, a method with
    /// parameters refuses a payload that lacks a required field, holds an
    /// unknown field, a field twice or a value of the wrong kind. A name
    /// that is no method is refused whatever the payload. The developer
    /// tools are refused while the debug mode is off, and a brightness above
    /// 100 is refused before any step is planned. What is accepted comes
    /// back as the work that the caller has to do.
    pub fn handle_call(&self, method: &str, payload: &Payload) -> (answer: Result<Outcome, Error>)
        ensures
            answer_view(answer) == call_result(*self, method@, payload@),
    {
        let m = match Method::parse(method) {
            Some(m) => m,
            None => {
                return Err(Error::bare(ErrorKind::MethodNotFound));
            },
        };
        match m {
            Method::Login | Method::Alert | Method::Eval | Method::Navigate | Method::Zoom => {
                match read_command(m, payload) {
                    Some(command) => Ok(Outcome::Enqueue(command)),
                    None => Err(Error::bare(ErrorKind::InvalidParams)),
                }
            },
            Method::Display => {
                match read_display(payload) {
                    None => Err(Error::bare(ErrorKind::InvalidParams)),
                    Some((on, brightness)) => {
                        match brightness {
                            Some(level) => {
                                if level.exceeds_hundred() {
                                    return Err(
                                        Error::new(ErrorKind::InvalidParams, "brightness > 100%"),
                                    );
                                }
                            },
                            None => {},
                        }
                        match &self.monitor {
                            None => Err(
                                Error::new(
                                    ErrorKind::ExternalCommandFailed,
                                    "monitor not detected",
                                ),
                            ),
                            Some(monitor) => Ok(
                                Outcome::Display(plan_display(monitor.as_str(), on, brightness)),
                            ),
                        }
                    },
                }
            },
            _ => {
                match payload {
                    Payload::Absent => {},
                    _ => {
                        return Err(Error::bare(ErrorKind::InvalidParams));
                    },
                }
                match m {
                    Method::Test => Ok(Outcome::Done),
                    Method::Logout => Ok(Outcome::Enqueue(UEvent::Logout)),
                    Method::Reload => Ok(Outcome::Enqueue(UEvent::Reload)),
                    Method::Info => Ok(Outcome::Info),
                    Method::Reboot => Ok(
                        Outcome::Reboot(reboot_command(self.reboot_cmd.as_str())),
                    ),
                    Method::DevOpen => {
                        if self.info.debug {
                            Ok(Outcome::Enqueue(UEvent::OpenDevTools))
                        } else {
                            Err(Error::new(ErrorKind::AccessDenied, "debug mode is not enabled"))
                        }
                    },
                    Method::DevClose => {
                        if self.info.debug {
                            Ok(Outcome::Enqueue(UEvent::CloseDevTools))
                        } else {
                            Err(Error::new(ErrorKind::AccessDenied, "debug mode is not enabled"))
                        }
                    },
                    _ => Err(Error::bare(ErrorKind::InvalidParams)),
                }
            },
        }
    }
}

/// A name that is no method is refused whatever the payload, and nothing
/// is asked of the caller.
pub proof fn lemma_unknown_method_refused(
    handlers: Handlers,
    method: Seq<char>,
    payload: PayloadView,
)
    requires
        Method::of_name(method) is None,
    ensures
        call_result(handlers, method, payload) == Err::<OutcomeView, ErrorView>(
            method_not_found(),
        ),
{
}

/// A method without parameters refuses every payload.
pub proof fn lemma_payload_refused_without_parameters(
    handlers: Handlers,
    method: Seq<char>,
    payload: PayloadView,
)
    requires
        Method::of_name(method) matches Some(m) && !m.reads_fields(),
        !(payload is Absent),
    ensures
        call_result(handlers, method, payload) == Err::<OutcomeView, ErrorView>(invalid_params()),
{
}

/// A method with a required field refuses every payload that omits it:
/// that is no payload at all, is malformed, or holds no field of that name.
pub proof fn lemma_required_field_missing(
    handlers: Handlers,
    method: Seq<char>,
    payload: PayloadView,
    name: Seq<char>,
)
    requires
        Method::of_name(method) matches Some(m) && m.required_fields().contains(name),
        payload matches PayloadView::Fields(fields) ==> forall|i: int|
            0 <= i < fields.len() ==> (#[trigger] fields[i]).name != name,
    ensures
        call_result(handlers, method, payload) == Err::<OutcomeView, ErrorView>(invalid_params()),
{
    if let PayloadView::Fields(fields) = payload {
        lemma_lookup_finds(fields, name);
    }
}

/// The developer tools are refused while the debug mode is off, and their
/// command goes to the executor while it is on.
pub proof fn lemma_developer_tools_gated(
    handlers: Handlers,
    method: Seq<char>,
    payload: PayloadView,
)
    requires
        Method::of_name(method) matches Some(m) && (m == Method::DevOpen || m
            == Method::DevClose),
        payload is Absent,
    ensures
        !handlers.info.debug ==> call_result(handlers, method, payload) == Err::<
            OutcomeView,
            ErrorView,
        >(debug_required()),
        handlers.info.debug ==> call_result(handlers, method, payload) == Ok::<
            OutcomeView,
            ErrorView,
        >(
            OutcomeView::Enqueue(
                if Method::of_name(method) == Some(Method::DevOpen) {
                    UEventView::OpenDevTools
                } else {
                    UEventView::CloseDevTools
                },
            ),
        ),
{
}

/// A display call that names a brightness above 100 is refused for its
/// parameters, and no step is planned.
pub proof fn lemma_brightness_limit(handlers: Handlers, method: Seq<char>, payload: PayloadView)
    requires
        Method::of_name(method) == Some(Method::Display),
        payload matches PayloadView::Fields(fields) && optional(fields, "brightness"@)
            matches Some(ValueView::Number(level)) && level.above_hundred(),
    ensures
        call_result(handlers, method, payload) matches Err(error) && error.kind
            == ErrorKind::InvalidParams,
{
}

/// Which error a call is refused with: a name that is no method is not
/// found; the developer tools without the debug mode are denied; a display
/// call that is in order fails where no monitor is known; every other
/// refusal is for the parameters. Judging a call never times out and never
/// fails for an internal reason.
pub proof fn lemma_errors_of_judgement(
    handlers: Handlers,
    method: Seq<char>,
    payload: PayloadView,
)
    requires
        call_result(handlers, method, payload) is Err,
    ensures
        ({
            let kind = call_result(handlers, method, payload)->Err_0.kind;
            let m = Method::of_name(method);
            &&& kind == ErrorKind::MethodNotFound <==> m is None
            &&& kind == ErrorKind::AccessDenied <==> (m == Some(Method::DevOpen) || m == Some(
                Method::DevClose,
            )) && payload is Absent && !handlers.info.debug
            &&& kind == ErrorKind::ExternalCommandFailed <==> (m == Some(Method::Display)
                && display_params(payload) is Some && !brightness_too_high(payload)
                && handlers.monitor is None)
            &&& kind != ErrorKind::Timeout
            &&& kind != ErrorKind::Internal
        }),
{
}

/// A command goes to the executor only from a call that was accepted, and
/// it is never a query: the queries are made by `state_query` and
/// `location_query` alone.
pub proof fn lemma_enqueued_is_no_query(
    handlers: Handlers,
    method: Seq<char>,
    payload: PayloadView,
)
    ensures
        call_result(handlers, method, payload) matches Ok(OutcomeView::Enqueue(command))
            ==> !command.is_query(),
{
}

/// The query for the state of the page: the command to hand to the
/// executor, and the end of its slot on which the reply is awaited.
pub fn state_query() -> (query: (UEvent, Receiver<State>))
    ensures
        query.0@ == UEventView::GetState,
{
    let (slot, reply) = open_slot::<State>();
    (UEvent::GetState(slot), reply)
}

/// The query for the location of the page: the command to hand to the
/// executor, and the end of its slot on which the reply is awaited.
pub fn location_query() -> (query: (UEvent, Receiver<Option<String>>))
    ensures
        query.0@ == UEventView::GetLocation,
{
    let (slot, reply) = open_slot::<Option<String>>();
    (UEvent::GetLocation(slot), reply)
}

/// Bound of a call over the bus, in seconds.
pub const DEFAULT_BUS_TIMEOUT_SECS: u64 = 5;

/// Interval at which the endpoint looks whether it is to go on, in
/// milliseconds.
pub const BUS_POLL_MS: u64 = 200;

/// How the bridge takes its place on the bus.
#[derive(Clone, Debug, PartialEq, Eq)]
pub enum BusEndpoint {
    /// Own a broker that listens on a socket in the file system, and
    /// register with it under `name`.
    UnixServer { path: String, name: String },
    /// Own a broker that listens on a network address, and register with it
    /// under `name`.
    TcpServer { path: String, name: String },
    /// Connect to the broker at `path` under `name`.
    Client { path: String, name: String },
}

/// An endpoint as contracts speak of it.
pub enum BusEndpointView {
    UnixServer { path: Seq<char>, name: Seq<char> },
    TcpServer { path: Seq<char>, name: Seq<char> },
    Client { path: Seq<char>, name: Seq<char> },
}

impl View for BusEndpoint {
    type V = BusEndpointView;

    open spec fn view(&self) -> BusEndpointView {
        match self {
            BusEndpoint::UnixServer { path, name } => BusEndpointView::UnixServer {
                path: path@,
                name: name@,
            },
            BusEndpoint::TcpServer { path, name } => BusEndpointView::TcpServer {
                path: path@,
                name: name@,
            },
            BusEndpoint::Client { path, name } => BusEndpointView::Client {
                path: path@,
                name: name@,
            },
        }
    }
}

/// The name under which the bridge registers with its own broker.
pub open spec fn server_name() -> Seq<char> {
    ".panel"@
}

/// The name under which the bridge connects to a broker from the given
/// host.
pub open spec fn client_name(host: Seq<char>) -> Seq<char> {
    "eva.panel."@ + host
}

/// The endpoint that a configuration asks for. Only the client role needs
/// the name of the host, and fails without it.
pub open spec fn endpoint_of(bus: BusConfig, host: Result<String, String>) -> Result<
    BusEndpointView,
    ErrorView,
> {
    match bus.spec_mode() {
        BusMode::Server => if BusConfig::names_unix_socket(bus.spec_path()) {
            Ok(BusEndpointView::UnixServer { path: bus.spec_path(), name: server_name() })
        } else {
            Ok(BusEndpointView::TcpServer { path: bus.spec_path(), name: server_name() })
        },
        BusMode::Client => match host {
            Ok(name) => Ok(
                BusEndpointView::Client { path: bus.spec_path(), name: client_name(name@) },
            ),
            Err(detail) => Err(
                ErrorView { kind: ErrorKind::ExternalCommandFailed, message: detail@ },
            ),
        },
    }
}

/// An endpoint or the error in its place, as contracts speak of them.
pub open spec fn endpoint_view(endpoint: Result<BusEndpoint, Error>) -> Result<
    BusEndpointView,
    ErrorView,
> {
    match endpoint {
        Ok(e) => Ok(e@),
        Err(e) => Err(e@),
    }
}

/// `hostname::get`: the name of the host, the bytes that are no text
/// replaced, or the text of the error of the lookup. The name is what the
/// operating system gives at the time of the call; nothing is claimed of it.
#[verifier::external_body]
fn host_name() -> (name: Result<String, String>) {
    match hostname::get() {
        Ok(name) => Ok(name.to_string_lossy().into_owned()),
        Err(error) => Err(error.to_string()),
    }
}

/// The endpoint that a configuration asks for, given what the lookup of
/// the host's name gave.
pub fn endpoint_for(bus: &BusConfig, host: &Result<String, String>) -> (endpoint: Result<
    BusEndpoint,
    Error,
>)
    ensures
        endpoint_view(endpoint) == endpoint_of(*bus, *host),
{
    match bus.mode() {
        BusMode::Server => {
            let path = String::from_str(bus.path());
            let name = String::from_str(".panel");
            if bus.is_unix_sock() {
                Ok(BusEndpoint::UnixServer { path, name })
            } else {
                Ok(BusEndpoint::TcpServer { path, name })
            }
        },
        BusMode::Client => {
            match host {
                Ok(host) => {
                    let mut name = String::from_str("eva.panel.");
                    name.append(host.as_str());
                    Ok(BusEndpoint::Client { path: String::from_str(bus.path()), name })
                },
                Err(detail) => Err(
                    Error::new(ErrorKind::ExternalCommandFailed, detail.as_str()),
                ),
            }
        },
    }
}

/// The endpoint that a configuration asks for. In the server role it is
/// fixed by the configuration. In the client role the name holds the name
/// of the host as looked up now, and the launch fails where the lookup does.
pub fn launch_bus(bus: &BusConfig) -> (endpoint: Result<BusEndpoint, Error>)
    ensures
        bus.spec_mode() == BusMode::Server ==> forall|host: Result<String, String>|
            endpoint_view(endpoint) == endpoint_of(*bus, host),
        bus.spec_mode() == BusMode::Client ==> exists|host: Result<String, String>|
            endpoint_view(endpoint) == endpoint_of(*bus, host),
{
    match bus.mode() {
        BusMode::Server => endpoint_for(bus, &Err(String::new())),
        BusMode::Client => {
            let host = host_name();
            endpoint_for(bus, &host)
        },
    }
}

/// Where an endpoint stands when the bridge looks at it.
#[derive(Clone, Copy, Debug, PartialEq, Eq, Structural)]
pub enum BusStatus {
    /// The endpoint could not bind or connect.
    StartFailed,
    /// The broker of the bridge is serving; `active` is the flag of the
    /// process.
    Serving { active: bool },
    /// The bridge is a client; `connected` is what its connection reports.
    Joined { connected: bool },
}

/// What the bridge does with its endpoint next.
#[derive(Clone, Copy, Debug, PartialEq, Eq, Structural)]
pub enum BusStep {
    /// Look again after this many milliseconds.
    Wait { millis: u64 },
    /// Leave the endpoint; the process goes on to its own end.
    Finish,
    /// End the process with this status.
    Exit { code: i32 },
}

/// The next step of an endpoint.
pub open spec fn next_bus_step(status: BusStatus) -> BusStep {
    match status {
        BusStatus::StartFailed => BusStep::Exit { code: 1 },
        BusStatus::Serving { active } => if active {
            BusStep::Wait { millis: BUS_POLL_MS }
        } else {
            BusStep::Finish
        },
        BusStatus::Joined { connected } => if connected {
            BusStep::Wait { millis: BUS_POLL_MS }
        } else {
            BusStep::Exit { code: 0 }
        },
    }
}

/// Decides how an endpoint goes on: a server polls the flag of the process
/// and leaves once it is cleared; a client polls its connection and ends
/// the process cleanly once it is lost; a failed start ends the process
/// with a status that is not zero.
pub fn bus_step(status: BusStatus) -> (step: BusStep)
    ensures
        step == next_bus_step(status),
{
    match status {
        BusStatus::StartFailed => BusStep::Exit { code: 1 },
        BusStatus::Serving { active } => {
            if active {
                BusStep::Wait { millis: BUS_POLL_MS }
            } else {
                BusStep::Finish
            }
        },
        BusStatus::Joined { connected } => {
            if connected {
                BusStep::Wait { millis: BUS_POLL_MS }
            } else {
                BusStep::Exit { code: 0 }
            }
        },
    }
}

} // verus!

use evapanel::common::{
    AlertLevel, BusConfig, BusMode, Engine, PanelInfo, State, UEvent,
};
use evapanel::eapi::{
    bus_step, default_alert_timeout, endpoint_for, launch_bus, location_query,
    state_query, BusEndpoint, BusStatus, BusStep, DisplayStep, Handlers, Method, Outcome,
    BUS_POLL_MS, DEFAULT_BUS_TIMEOUT_SECS, DISPLAY_PAUSE_MS, REBOOT_DELAY_MS,
};
use evapanel::error::{Error, ErrorKind};
use evapanel::ev_loop::{execute, resolve_location, resolve_state, UiAction};
use evapanel::number::Number;
use evapanel::payload::{Field, Payload, Value};
use evapanel::process::set_display;
use evapanel::reply::{query_result, QueryReply, QUERY_TIMEOUT_MS};

fn handlers(debug: bool, monitor: Option<&str>) -> Handlers {
    Handlers {
        info: PanelInfo {
            home_url: "http://eva/ui/".to_owned(),
            agent: "EvaPanel".to_owned(),
            version: "0.1.2".to_owned(),
            arch: "x86_64".to_owned(),
            engine: Engine::Wasm,
            debug,
        },
        monitor: monitor.map(str::to_owned),
        reboot_cmd: "reboot".to_owned(),
    }
}

fn text(name: &str, value: &str) -> Field {
    Field { name: name.to_owned(), value: Value::Text(value.to_owned()) }
}

fn unsigned(name: &str, value: u64) -> Field {
    Field { name: name.to_owned(), value: Value::Number(Number::Unsigned(value)) }
}

fn float(name: &str, value: f64) -> Field {
    Field { name: name.to_owned(), value: Value::Number(Number::Float(value.to_bits())) }
}

fn flag(name: &str, value: bool) -> Field {
    Field { name: name.to_owned(), value: Value::Bool(value) }
}

fn nil(name: &str) -> Field {
    Field { name: name.to_owned(), value: Value::Nil }
}

fn call(h: &Handlers, method: &str, fields: Vec<Field>) -> Result<Outcome, Error> {
    h.handle_call(method, &Payload::Fields(fields))
}

fn kind_of(answer: Result<Outcome, Error>) -> ErrorKind {
    answer.unwrap_err().kind
}

fn enqueued(answer: Result<Outcome, Error>) -> UEvent {
    match answer {
        Ok(Outcome::Enqueue(event)) => event,
        other => panic!("no command: {:?}", other),
    }
}

const NO_PAYLOAD_METHODS: [&str; 8] =
    ["logout", "test", "info", "reload", "stop", "reboot", "dev.open", "dev.close"];

#[test]
fn constants_of_the_handler() {
    assert_eq!(default_alert_timeout(), 30);
    assert_eq!(DISPLAY_PAUSE_MS, 500);
    assert_eq!(REBOOT_DELAY_MS, 2000);
    assert_eq!(QUERY_TIMEOUT_MS, 1000);
    assert_eq!(DEFAULT_BUS_TIMEOUT_SECS, 5);
    assert_eq!(BUS_POLL_MS, 200);
}

#[test]
fn method_names() {
    assert_eq!(Method::parse("login"), Some(Method::Login));
    assert_eq!(Method::parse("logout"), Some(Method::Logout));
    assert_eq!(Method::parse("test"), Some(Method::Test));
    assert_eq!(Method::parse("info"), Some(Method::Info));
    assert_eq!(Method::parse("alert"), Some(Method::Alert));
    assert_eq!(Method::parse("eval"), Some(Method::Eval));
    assert_eq!(Method::parse("navigate"), Some(Method::Navigate));
    assert_eq!(Method::parse("display"), Some(Method::Display));
    assert_eq!(Method::parse("zoom"), Some(Method::Zoom));
    assert_eq!(Method::parse("reload"), Some(Method::Reload));
    assert_eq!(Method::parse("stop"), Some(Method::Reload));
    assert_eq!(Method::parse("reboot"), Some(Method::Reboot));
    assert_eq!(Method::parse("dev.open"), Some(Method::DevOpen));
    assert_eq!(Method::parse("dev.close"), Some(Method::DevClose));
    for name in ["", "Login", "dev", "dev.", "dev.opened", "log", "restart", " test"] {
        assert_eq!(Method::parse(name), None, "{:?}", name);
    }
}

#[test]
fn unknown_method_is_not_found() {
    let h = handlers(true, Some("HDMI-1"));
    for name in ["", "Login", "shutdown", "dev.toggle", "alert "] {
        for payload in [
            Payload::Absent,
            Payload::Malformed,
            Payload::Fields(vec![]),
            Payload::Fields(vec![text("login", "a")]),
        ] {
            let error = h.handle_call(name, &payload).unwrap_err();
            assert_eq!(error.kind, ErrorKind::MethodNotFound);
            assert_eq!(error.message, "");
        }
    }
}

#[test]
fn methods_without_parameters_refuse_a_payload() {
    let h = handlers(true, Some("HDMI-1"));
    for name in NO_PAYLOAD_METHODS {
        for payload in [
            Payload::Malformed,
            Payload::Fields(vec![]),
            Payload::Fields(vec![nil("x")]),
        ] {
            let error = h.handle_call(name, &payload).unwrap_err();
            assert_eq!(error.kind, ErrorKind::InvalidParams, "{}", name);
        }
    }
    let h = handlers(false, None);
    for name in ["dev.open", "dev.close"] {
        assert_eq!(kind_of(call(&h, name, vec![])), ErrorKind::InvalidParams);
    }
}

#[test]
fn methods_without_parameters_accept_no_payload() {
    let h = handlers(true, None);
    assert!(matches!(h.handle_call("test", &Payload::Absent), Ok(Outcome::Done)));
    assert!(matches!(enqueued(h.handle_call("logout", &Payload::Absent)), UEvent::Logout));
    assert!(matches!(enqueued(h.handle_call("reload", &Payload::Absent)), UEvent::Reload));
    assert!(matches!(enqueued(h.handle_call("stop", &Payload::Absent)), UEvent::Reload));
    assert!(matches!(h.handle_call("info", &Payload::Absent), Ok(Outcome::Info)));
}

#[test]
fn missing_required_field_is_refused() {
    let h = handlers(true, Some("HDMI-1"));
    assert_eq!(kind_of(call(&h, "login", vec![text("login", "a")])), ErrorKind::InvalidParams);
    assert_eq!(kind_of(call(&h, "login", vec![text("password", "a")])), ErrorKind::InvalidParams);
    assert_eq!(kind_of(call(&h, "login", vec![])), ErrorKind::InvalidParams);
    assert_eq!(kind_of(call(&h, "alert", vec![text("level", "info")])), ErrorKind::InvalidParams);
    assert_eq!(kind_of(call(&h, "alert", vec![])), ErrorKind::InvalidParams);
    assert_eq!(kind_of(call(&h, "eval", vec![])), ErrorKind::InvalidParams);
    assert_eq!(kind_of(call(&h, "zoom", vec![])), ErrorKind::InvalidParams);
    for name in ["login", "alert", "eval", "zoom", "display"] {
        assert_eq!(kind_of(h.handle_call(name, &Payload::Absent)), ErrorKind::InvalidParams);
        assert_eq!(kind_of(h.handle_call(name, &Payload::Malformed)), ErrorKind::InvalidParams);
    }
    assert_eq!(kind_of(h.handle_call("navigate", &Payload::Malformed)), ErrorKind::InvalidParams);
}

#[test]
fn unknown_and_repeated_fields_are_refused() {
    let h = handlers(true, Some("HDMI-1"));
    let answer = call(&h, "login", vec![text("login", "a"), text("password", "b"), nil("x")]);
    assert_eq!(kind_of(answer), ErrorKind::InvalidParams);
    let answer = call(&h, "login", vec![text("login", "a"), text("password", "b"), text("login", "a")]);
    assert_eq!(kind_of(answer), ErrorKind::InvalidParams);
    assert_eq!(kind_of(call(&h, "eval", vec![text("code", "1"), text("script", "1")])), ErrorKind::InvalidParams);
    assert_eq!(kind_of(call(&h, "navigate", vec![text("uri", "http://x/")])), ErrorKind::InvalidParams);
    assert_eq!(kind_of(call(&h, "display", vec![flag("on", true), flag("off", true)])), ErrorKind::InvalidParams);
    assert_eq!(kind_of(call(&h, "zoom", vec![float("level", 1.5), nil("factor")])), ErrorKind::InvalidParams);
}

#[test]
fn values_of_the_wrong_kind_are_refused() {
    let h = handlers(true, Some("HDMI-1"));
    assert_eq!(kind_of(call(&h, "login", vec![text("login", "a"), unsigned("password", 1)])), ErrorKind::InvalidParams);
    assert_eq!(kind_of(call(&h, "login", vec![text("login", "a"), nil("password")])), ErrorKind::InvalidParams);
    assert_eq!(kind_of(call(&h, "eval", vec![flag("code", true)])), ErrorKind::InvalidParams);
    assert_eq!(kind_of(call(&h, "zoom", vec![text("level", "2")])), ErrorKind::InvalidParams);
    assert_eq!(kind_of(call(&h, "zoom", vec![nil("level")])), ErrorKind::InvalidParams);
    assert_eq!(kind_of(call(&h, "navigate", vec![unsigned("url", 1)])), ErrorKind::InvalidParams);
    assert_eq!(kind_of(call(&h, "display", vec![text("on", "yes")])), ErrorKind::InvalidParams);
    assert_eq!(kind_of(call(&h, "display", vec![text("brightness", "50")])), ErrorKind::InvalidParams);
    let other = Field { name: "code".to_owned(), value: Value::Other };
    assert_eq!(kind_of(call(&h, "eval", vec![other])), ErrorKind::InvalidParams);
}

#[test]
fn login_enqueues_login() {
    let h = handlers(false, None);
    let event = enqueued(call(&h, "login", vec![text("password", "p\"w"), text("login", "op")]));
    match event {
        UEvent::Login(login, password) => {
            assert_eq!(login, "op");
            assert_eq!(password, "p\"w");
        }
        other => panic!("{:?}", other),
    }
}

#[test]
fn eval_enqueues_the_code() {
    let h = handlers(false, None);
    match enqueued(call(&h, "eval", vec![text("code", "alert(1)")])) {
        UEvent::Eval(code) => assert_eq!(code, "alert(1)"),
        other => panic!("{:?}", other),
    }
}

#[test]
fn zoom_enqueues_the_level() {
    let h = handlers(false, None);
    match enqueued(call(&h, "zoom", vec![float("level", 1.25)])) {
        UEvent::Zoom(Number::Float(bits)) => assert_eq!(f64::from_bits(bits), 1.25),
        other => panic!("{:?}", other),
    }
    match enqueued(call(&h, "zoom", vec![unsigned("level", 2)])) {
        UEvent::Zoom(level) => assert_eq!(level, Number::Unsigned(2)),
        other => panic!("{:?}", other),
    }
}

#[test]
fn alert_scenario() {
    let h = handlers(false, None);
    let fields = vec![text("text", "Hi"), text("level", "warning"), unsigned("timeout", 5)];
    let mut queue: Vec<UEvent> = vec![enqueued(h.handle_call("logout", &Payload::Absent))];
    queue.push(enqueued(call(&h, "alert", fields)));
    assert_eq!(queue.len(), 2);
    assert!(matches!(queue[0], UEvent::Logout));
    match &queue[1] {
        UEvent::Alert(text, level, timeout) => {
            assert_eq!(text, "Hi");
            assert_eq!(*level, AlertLevel::Warning);
            assert_eq!(*timeout, 5);
        }
        other => panic!("{:?}", other),
    }
}

#[test]
fn alert_defaults() {
    let h = handlers(false, None);
    match enqueued(call(&h, "alert", vec![text("text", "Hi")])) {
        UEvent::Alert(text, level, timeout) => {
            assert_eq!(text, "Hi");
            assert_eq!(level, AlertLevel::Info);
            assert_eq!(timeout, 30);
        }
        other => panic!("{:?}", other),
    }
    match enqueued(call(&h, "alert", vec![text("text", "Hi"), nil("level"), nil("timeout")])) {
        UEvent::Alert(_, level, timeout) => {
            assert_eq!(level, AlertLevel::Info);
            assert_eq!(timeout, 30);
        }
        other => panic!("{:?}", other),
    }
}

#[test]
fn alert_timeout_bounds() {
    let h = handlers(false, None);
    match enqueued(call(&h, "alert", vec![text("text", "x"), unsigned("timeout", 65535)])) {
        UEvent::Alert(_, _, timeout) => assert_eq!(timeout, 65535),
        other => panic!("{:?}", other),
    }
    let signed = Field { name: "timeout".to_owned(), value: Value::Number(Number::Signed(7)) };
    match enqueued(call(&h, "alert", vec![text("text", "x"), signed])) {
        UEvent::Alert(_, _, timeout) => assert_eq!(timeout, 7),
        other => panic!("{:?}", other),
    }
    let negative = Field { name: "timeout".to_owned(), value: Value::Number(Number::Signed(-1)) };
    assert_eq!(kind_of(call(&h, "alert", vec![text("text", "x"), negative])), ErrorKind::InvalidParams);
    assert_eq!(kind_of(call(&h, "alert", vec![text("text", "x"), unsigned("timeout", 65536)])), ErrorKind::InvalidParams);
    assert_eq!(kind_of(call(&h, "alert", vec![text("text", "x"), float("timeout", 5.0)])), ErrorKind::InvalidParams);
    assert_eq!(kind_of(call(&h, "alert", vec![text("text", "x"), text("level", "error")])), ErrorKind::InvalidParams);
    assert_eq!(kind_of(call(&h, "alert", vec![text("text", "x"), unsigned("level", 1)])), ErrorKind::InvalidParams);
}

#[test]
fn navigate_scenario() {
    let h = handlers(false, None);
    match enqueued(call(&h, "navigate", vec![text("url", "http://eva/other/")])) {
        UEvent::Navigate(url) => {
            assert_eq!(url.as_deref(), Some("http://eva/other/"));
        }
        other => panic!("{:?}", other),
    }
    for answer in [
        h.handle_call("navigate", &Payload::Absent),
        call(&h, "navigate", vec![]),
        call(&h, "navigate", vec![nil("url")]),
    ] {
        let event = enqueued(answer);
        assert!(matches!(event, UEvent::Navigate(None)));
        match execute(event, "http://eva/ui/") {
            UiAction::Evaluate(script) => {
                assert_eq!(script, "document.location = \"http://eva/ui/\"");
            }
            other => panic!("{:?}", other),
        }
    }
}

#[test]
fn developer_tools_need_debug() {
    let off = handlers(false, None);
    for name in ["dev.open", "dev.close"] {
        let error = off.handle_call(name, &Payload::Absent).unwrap_err();
        assert_eq!(error.kind, ErrorKind::AccessDenied);
        assert_eq!(error.message, "debug mode is not enabled");
    }
    let on = handlers(true, None);
    assert!(matches!(enqueued(on.handle_call("dev.open", &Payload::Absent)), UEvent::OpenDevTools));
    assert!(matches!(enqueued(on.handle_call("dev.close", &Payload::Absent)), UEvent::CloseDevTools));
}

#[test]
fn brightness_above_hundred_is_refused() {
    for monitor in [Some("HDMI-1"), None] {
        let h = handlers(false, monitor);
        for fields in [
            vec![float("brightness", 100.5)],
            vec![float("brightness", 1e9), flag("on", true)],
            vec![unsigned("brightness", 101)],
            vec![float("brightness", f64::INFINITY)],
        ] {
            let error = call(&h, "display", fields).unwrap_err();
            assert_eq!(error.kind, ErrorKind::InvalidParams);
            assert_eq!(error.message, "brightness > 100%");
        }
    }
}

#[test]
fn display_without_monitor_fails() {
    let h = handlers(false, None);
    let error = call(&h, "display", vec![flag("on", false)]).unwrap_err();
    assert_eq!(error.kind, ErrorKind::ExternalCommandFailed);
    assert_eq!(error.message, "monitor not detected");
}

#[test]
fn display_off_plans_one_command() {
    let h = handlers(false, Some("HDMI-1"));
    match call(&h, "display", vec![flag("on", false)]) {
        Ok(Outcome::Display(steps)) => {
            assert_eq!(steps, vec![DisplayStep::Run(set_display("HDMI-1", false))]);
        }
        other => panic!("{:?}", other),
    }
}

#[test]
fn display_on_switches_off_first() {
    let h = handlers(false, Some("HDMI-1"));
    match call(&h, "display", vec![flag("on", true), float("brightness", 100.0)]) {
        Ok(Outcome::Display(steps)) => {
            assert_eq!(
                steps,
                vec![
                    DisplayStep::Brightness(Number::Float(100.0f64.to_bits())),
                    DisplayStep::Run(set_display("HDMI-1", false)),
                    DisplayStep::Pause(500),
                    DisplayStep::Run(set_display("HDMI-1", true)),
                ]
            );
        }
        other => panic!("{:?}", other),
    }
}

#[test]
fn display_with_nothing_to_do() {
    let h = handlers(false, Some("HDMI-1"));
    for fields in [vec![], vec![nil("on"), nil("brightness")]] {
        match call(&h, "display", fields) {
            Ok(Outcome::Display(steps)) => assert!(steps.is_empty()),
            other => panic!("{:?}", other),
        }
    }
    match call(&h, "display", vec![unsigned("brightness", 40)]) {
        Ok(Outcome::Display(steps)) => {
            assert_eq!(steps, vec![DisplayStep::Brightness(Number::Unsigned(40))]);
        }
        other => panic!("{:?}", other),
    }
}

#[test]
fn reboot_hands_the_command_line_to_the_shell() {
    let mut h = handlers(false, None);
    h.reboot_cmd = "systemctl reboot".to_owned();
    match h.handle_call("reboot", &Payload::Absent) {
        Ok(Outcome::Reboot(command)) => {
            assert_eq!(command.program, "sh");
            assert_eq!(command.args, vec!["-c", "systemctl reboot"]);
            assert!(command.exit_ok.is_empty());
        }
        other => panic!("{:?}", other),
    }
}

#[test]
fn query_without_reply_times_out() {
    let (_event, mut reply) = state_query();
    assert!(reply.try_recv().is_err());
    let error = query_result(QueryReply::<State>::TimedOut).unwrap_err();
    assert_eq!(error.kind, ErrorKind::Timeout);
    assert_eq!(error.message, "");
}

#[test]
fn query_with_closed_slot_is_internal() {
    let (event, mut reply) = state_query();
    drop(event);
    assert!(reply.try_recv().is_err());
    let error = query_result(QueryReply::<State>::Closed).unwrap_err();
    assert_eq!(error.kind, ErrorKind::Internal);
    let error = query_result(QueryReply::<State>::NotSent).unwrap_err();
    assert_eq!(error.kind, ErrorKind::Internal);
    assert_eq!(query_result(QueryReply::Value(State::Loaded)), Ok(State::Loaded));
}

#[test]
fn queries_carry_their_slot() {
    let (event, _reply) = state_query();
    assert!(matches!(event, UEvent::GetState(_)));
    let (event, _reply) = location_query();
    assert!(matches!(event, UEvent::GetLocation(_)));
}

#[test]
fn info_with_fake_executor() {
    let h = handlers(true, None);
    assert!(matches!(h.handle_call("info", &Payload::Absent), Ok(Outcome::Info)));

    let (event, mut reply) = state_query();
    match execute(event, "http://eva/ui/") {
        UiAction::AskState { script: _, state_slot } => {
            assert_eq!(resolve_state(state_slot, Some("2")), None);
        }
        other => panic!("{:?}", other),
    }
    let state = query_result(match reply.try_recv() {
        Ok(state) => QueryReply::Value(state),
        Err(_) => QueryReply::Closed,
    })
    .unwrap();

    let (event, mut reply) = location_query();
    match execute(event, "http://eva/ui/") {
        UiAction::AskLocation { script: _, location_slot } => {
            assert_eq!(resolve_location(location_slot, Some("http://x/y".to_owned())), None);
        }
        other => panic!("{:?}", other),
    }
    let location = query_result(match reply.try_recv() {
        Ok(location) => QueryReply::Value(location),
        Err(_) => QueryReply::Closed,
    })
    .unwrap();

    let snapshot = h.info.state_info(state, location.as_deref());
    assert_eq!(snapshot.state, State::Active);
    assert_eq!(snapshot.current_url, Some("http://x/y"));
    assert_eq!(snapshot.agent, "EvaPanel");
    assert_eq!(snapshot.version, "0.1.2");
    assert_eq!(snapshot.arch, "x86_64");
    assert_eq!(snapshot.engine, Engine::Wasm);
    assert_eq!(snapshot.home_url, "http://eva/ui/");
    assert!(snapshot.debug);
}

#[test]
fn server_endpoints() {
    let host: Result<String, String> = Err("no host".to_owned());
    let unix = BusConfig::new(BusMode::Server, "/tmp/panel.sock".to_owned());
    let expected = BusEndpoint::UnixServer { path: "/tmp/panel.sock".to_owned(), name: ".panel".to_owned() };
    assert_eq!(endpoint_for(&unix, &host), Ok(expected.clone()));
    assert_eq!(launch_bus(&unix), Ok(expected));
    let tcp = BusConfig::new(BusMode::Server, "0.0.0.0:7777".to_owned());
    let expected = BusEndpoint::TcpServer { path: "0.0.0.0:7777".to_owned(), name: ".panel".to_owned() };
    assert_eq!(endpoint_for(&tcp, &Ok("kiosk".to_owned())), Ok(expected.clone()));
    assert_eq!(launch_bus(&tcp), Ok(expected));
}

#[test]
fn client_endpoint_is_named_after_the_host() {
    let bus = BusConfig::new(BusMode::Client, "/opt/eva4/var/bus.ipc".to_owned());
    assert_eq!(
        endpoint_for(&bus, &Ok("kiosk-7".to_owned())),
        Ok(BusEndpoint::Client {
            path: "/opt/eva4/var/bus.ipc".to_owned(),
            name: "eva.panel.kiosk-7".to_owned(),
        })
    );
    let error = endpoint_for(&bus, &Err("lookup failed".to_owned())).unwrap_err();
    assert_eq!(error.kind, ErrorKind::ExternalCommandFailed);
    assert_eq!(error.message, "lookup failed");
}

#[test]
fn client_endpoint_looks_the_host_up() {
    let bus = BusConfig::new(BusMode::Client, "10.0.0.1:7777".to_owned());
    match launch_bus(&bus) {
        Ok(BusEndpoint::Client { path, name }) => {
            assert_eq!(path, "10.0.0.1:7777");
            assert!(name.starts_with("eva.panel."));
            let host = hostname::get().unwrap().to_string_lossy().into_owned();
            assert_eq!(name, format!("eva.panel.{}", host));
        }
        Ok(other) => panic!("{:?}", other),
        Err(error) => assert_eq!(error.kind, ErrorKind::ExternalCommandFailed),
    }
}

#[test]
fn bus_steps() {
    assert_eq!(bus_step(BusStatus::StartFailed), BusStep::Exit { code: 1 });
    assert_eq!(bus_step(BusStatus::Serving { active: true }), BusStep::Wait { millis: 200 });
    assert_eq!(bus_step(BusStatus::Serving { active: false }), BusStep::Finish);
    assert_eq!(bus_step(BusStatus::Joined { connected: true }), BusStep::Wait { millis: 200 });
    assert_eq!(bus_step(BusStatus::Joined { connected: false }), BusStep::Exit { code: 0 });
}

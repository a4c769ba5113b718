use evapanel::common::{
    prepare_js_str, AlertLevel, BusConfig, BusMode, Engine, PanelInfo, State,
};

fn panel_info() -> PanelInfo {
    PanelInfo {
        home_url: "http://eva/ui/".to_owned(),
        agent: "EvaPanel".to_owned(),
        version: "0.1.2".to_owned(),
        arch: "x86_64".to_owned(),
        engine: Engine::Js,
        debug: true,
    }
}

// Reads the body of a script string literal the way a script engine does
// for the escapes that can occur: a backslash gives the character after it.
fn read_literal(body: &str, quote: char) -> Option<String> {
    let mut out = String::new();
    let mut chars = body.chars();
    while let Some(c) = chars.next() {
        if c == '\\' {
            match chars.next() {
                Some(n) if n == '\\' || n == '"' || n == '\'' => out.push(n),
                _ => return None,
            }
        } else if c == quote || c == '\n' || c == '\r' {
            return None;
        } else {
            out.push(c);
        }
    }
    Some(out)
}

#[test]
fn state_from_known_codes() {
    assert_eq!(State::from(0u8), State::Preparing);
    assert_eq!(State::from(1u8), State::Loaded);
    assert_eq!(State::from(2u8), State::Active);
}

#[test]
fn state_from_unknown_codes_falls_back() {
    assert_eq!(State::from(3u8), State::Unknown);
    assert_eq!(State::from(0x7fu8), State::Unknown);
    assert_eq!(State::from(0xffu8), State::Unknown);
}

#[test]
fn state_codes_are_fixed() {
    assert_eq!(State::Preparing.code(), 0);
    assert_eq!(State::Loaded.code(), 1);
    assert_eq!(State::Active.code(), 2);
    assert_eq!(State::Unknown.code(), 0xff);
}

#[test]
fn state_code_round_trip() {
    for state in [State::Preparing, State::Loaded, State::Active, State::Unknown] {
        assert_eq!(State::from(state.code()), state);
    }
    for code in 0u8..=255 {
        let state = State::from(code);
        assert_eq!(state != State::Unknown, code <= 2);
    }
}

#[test]
fn names_are_lower_case() {
    assert_eq!(State::Preparing.as_str(), "preparing");
    assert_eq!(State::Loaded.as_str(), "loaded");
    assert_eq!(State::Active.as_str(), "active");
    assert_eq!(State::Unknown.as_str(), "unknown");
    assert_eq!(Engine::Wasm.as_str(), "wasm");
    assert_eq!(Engine::Js.as_str(), "js");
    assert_eq!(BusMode::Server.as_str(), "server");
    assert_eq!(BusMode::Client.as_str(), "client");
    assert_eq!(AlertLevel::Info.as_str(), "info");
    assert_eq!(AlertLevel::Warning.as_str(), "warning");
}

#[test]
fn defaults_of_engine_and_level() {
    assert_eq!(Engine::default(), Engine::Wasm);
    assert_eq!(AlertLevel::default(), AlertLevel::Info);
}

#[test]
fn alert_level_from_name() {
    assert_eq!(AlertLevel::from_name("info"), Some(AlertLevel::Info));
    assert_eq!(AlertLevel::from_name("warning"), Some(AlertLevel::Warning));
    assert_eq!(AlertLevel::from_name("Warning"), None);
    assert_eq!(AlertLevel::from_name("error"), None);
    assert_eq!(AlertLevel::from_name(""), None);
    for level in [AlertLevel::Info, AlertLevel::Warning] {
        assert_eq!(AlertLevel::from_name(level.as_str()), Some(level));
    }
}

#[test]
fn state_info_combines_descriptor_and_query() {
    let info = panel_info();
    let snapshot = info.state_info(State::Active, Some("http://x/y"));
    assert_eq!(snapshot.home_url, "http://eva/ui/");
    assert_eq!(snapshot.current_url, Some("http://x/y"));
    assert_eq!(snapshot.agent, "EvaPanel");
    assert_eq!(snapshot.version, "0.1.2");
    assert_eq!(snapshot.arch, "x86_64");
    assert_eq!(snapshot.engine, Engine::Js);
    assert!(snapshot.debug);
    assert_eq!(snapshot.state, State::Active);
}

#[test]
fn state_info_without_location() {
    let info = panel_info();
    let snapshot = info.state_info(State::Preparing, None);
    assert_eq!(snapshot.current_url, None);
    assert_eq!(snapshot.state, State::Preparing);
}

#[test]
fn bus_config_getters() {
    let config = BusConfig::new(BusMode::Client, "/opt/eva4/var/bus.ipc".to_owned());
    assert_eq!(config.path(), "/opt/eva4/var/bus.ipc");
    assert_eq!(config.mode(), BusMode::Client);
    let config = BusConfig::new(BusMode::Server, "0.0.0.0:7777".to_owned());
    assert_eq!(config.path(), "0.0.0.0:7777");
    assert_eq!(config.mode(), BusMode::Server);
}

#[test]
fn unix_socket_paths() {
    let unix = ["/tmp/panel", "panel.sock", "var/panel.socket", "bus.ipc", "/", "/a.sock"];
    for path in unix {
        assert!(BusConfig::new(BusMode::Server, path.to_owned()).is_unix_sock(), "{}", path);
    }
    let network = ["127.0.0.1:7777", "localhost:9000", "", "sock", "panel.sock2", "a/b", ".ip"];
    for path in network {
        assert!(!BusConfig::new(BusMode::Server, path.to_owned()).is_unix_sock(), "{}", path);
    }
}

#[test]
fn prepare_js_str_exact_values() {
    assert_eq!(prepare_js_str(""), "");
    assert_eq!(prepare_js_str("plain"), "plain");
    assert_eq!(prepare_js_str("a\\b"), "a\\\\b");
    assert_eq!(prepare_js_str("say \"hi\""), "say \\\"hi\\\"");
    assert_eq!(prepare_js_str("\\\""), "\\\\\\\"");
    assert_eq!(prepare_js_str("it's"), "it's");
    assert_eq!(prepare_js_str("\u{e9}\u{1f600}\\"), "\u{e9}\u{1f600}\\\\");
}

#[test]
fn prepare_js_str_agrees_with_two_replacements() {
    let samples = ["", "a", "\\", "\"", "\\\\\"\"", "a\\\"b\\", "x'y", "\u{2028}\"", "line\nbreak"];
    for s in samples {
        assert_eq!(prepare_js_str(s), s.replace('\\', "\\\\").replace('\"', "\\\""));
    }
}

#[test]
fn escaped_pair_is_read_back() {
    let pairs = [
        ("admin", "secret"),
        ("dom\\user", "pa\"ss"),
        ("\\\\", "\"\""),
        ("a\\\"b", "\\\"\\\""),
        ("", "\\"),
    ];
    for (login, password) in pairs {
        assert_eq!(read_literal(&prepare_js_str(login), '\'').as_deref(), Some(login));
        assert_eq!(read_literal(&prepare_js_str(password), '\'').as_deref(), Some(password));
        assert_eq!(read_literal(&prepare_js_str(login), '"').as_deref(), Some(login));
    }
}

#[test]
fn single_quote_is_not_protected() {
    assert_eq!(read_literal(&prepare_js_str("it's"), '\''), None);
    assert_eq!(read_literal(&prepare_js_str("it's"), '"').as_deref(), Some("it's"));
    assert_eq!(read_literal(&prepare_js_str("a\nb"), '"'), None);
}

use evapanel::active::{is_active, new_flag, set_stopped};
use evapanel::common::Engine;
use evapanel::config::{
    default_home_url, default_reboot_cmd, default_title, default_zoom, url_allowed, user_agent,
    Commands, Config, Navigation, AGENT_NAME,
};
use evapanel::number::Number;

fn list(items: &[&str]) -> Vec<String> {
    items.iter().map(|item| item.to_string()).collect()
}

#[test]
fn defaults() {
    assert_eq!(default_title(), "EVA ICS Panel");
    assert_eq!(default_home_url(), "http://eva/ui/");
    assert_eq!(default_reboot_cmd(), "reboot");
    assert_eq!(default_zoom(), Number::Float(1.0f64.to_bits()));
    assert_eq!(Commands::default().reboot, "reboot");
}

#[test]
fn default_config() {
    let config = Config::default();
    assert_eq!(config.title, "EVA ICS Panel");
    assert_eq!(config.home_url, "http://eva/ui/");
    assert_eq!(config.zoom, Number::Float(1.0f64.to_bits()));
    assert_eq!(config.engine, Engine::Wasm);
    assert!(config.allowed_urls.is_empty());
    assert!(!config.fullscreen);
    assert!(!config.show_cursor);
    assert!(!config.debug);
    assert_eq!(config.sig, None);
    assert_eq!(config.bus, None);
    assert_eq!(config.commands.reboot, "reboot");
}

#[test]
fn url_allowed_by_prefix() {
    let allowed = list(&["http://eva/ui/", "https://docs.example/"]);
    assert!(url_allowed("http://eva/ui/", &allowed));
    assert!(url_allowed("http://eva/ui/index.html?x=1", &allowed));
    assert!(url_allowed("https://docs.example/a", &allowed));
    assert!(!url_allowed("http://eva/", &allowed));
    assert!(!url_allowed("http://evil/http://eva/ui/", &allowed));
    assert!(!url_allowed("", &allowed));
    assert!(!url_allowed("http://eva/ui/", &vec![]));
    assert!(url_allowed("anything", &list(&[""])));
}

#[test]
fn navigation_always_allows_home() {
    let rule = Navigation::new(vec![], "http://eva/ui/");
    assert!(!rule.allow_any);
    assert_eq!(rule.allowed_urls, list(&["http://eva/ui/"]));
    assert!(rule.permits("http://eva/ui/"));
    assert!(rule.permits("http://eva/ui/page"));
    assert!(!rule.permits("http://other/"));
}

#[test]
fn navigation_with_wildcard_allows_all() {
    let rule = Navigation::new(list(&["http://a/", "*"]), "http://eva/ui/");
    assert!(rule.allow_any);
    assert_eq!(rule.allowed_urls, list(&["http://a/", "*", "http://eva/ui/"]));
    assert!(rule.permits("http://other/"));
    assert!(rule.permits(""));
}

#[test]
fn navigation_with_prefixes() {
    let rule = Navigation::new(list(&["http://a/", "**"]), "http://eva/ui/");
    assert!(!rule.allow_any);
    assert!(rule.permits("http://a/b"));
    assert!(rule.permits("http://eva/ui/x"));
    assert!(!rule.permits("http://b/"));
}

#[test]
fn user_agent_exact() {
    assert_eq!(AGENT_NAME, "EvaPanel");
    assert_eq!(
        user_agent("0.1.2", "x86_64", Engine::Wasm, "WebKit", &None),
        "EvaPanel 0.1.2 x86_64/wasm (WebKit)"
    );
    assert_eq!(
        user_agent("1.0.0", "aarch64", Engine::Js, "Chrome", &Some("kiosk-7".to_owned())),
        "EvaPanel 1.0.0 aarch64/js (Chrome) kiosk-7"
    );
}

#[test]
fn flag_is_cleared_once() {
    let mut flag = new_flag();
    assert!(is_active(&flag));
    set_stopped(&mut flag);
    assert!(!is_active(&flag));
    set_stopped(&mut flag);
    assert!(!is_active(&flag));
}

#[test]
fn flag_shared_behind_a_lock() {
    let flag = std::sync::Arc::new(std::sync::Mutex::new(new_flag()));
    let seen = flag.clone();
    assert!(is_active(&seen.lock().unwrap()));
    let clearing = flag.clone();
    set_stopped(&mut clearing.lock().unwrap());
    assert!(!is_active(&seen.lock().unwrap()));
    assert!(!is_active(&flag.lock().unwrap()));
}

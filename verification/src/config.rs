//! The configuration of a panel: its defaults, the user agent that the
//! panel presents, and which locations the page may be sent to.

use vstd::prelude::*;
use vstd::string::StringExecFns;
use crate::common::{opt_string, BusConfig, Engine};
use crate::number::Number;
use crate::text::{starts_with, str_eq, views};

verus! {

/// Name under which the panel presents itself.
pub const AGENT_NAME: &'static str = "EvaPanel";

/// Bit pattern of the binary64 number 1.
pub const BITS_OF_ONE: u64 = 0x3ff0_0000_0000_0000;

/// Title of the window where none is configured.
pub fn default_title() -> (title: String)
    ensures
        title@ == "EVA ICS Panel"@,
{
    String::from_str("EVA ICS Panel")
}

/// Home URL where none is configured.
pub fn default_home_url() -> (url: String)
    ensures
        url@ == "http://eva/ui/"@,
{
    String::from_str("http://eva/ui/")
}

/// Zoom factor where none is configured: 1.
pub fn default_zoom() -> (zoom: Number)
    ensures
        zoom == Number::Float(BITS_OF_ONE),
{
    Number::Float(BITS_OF_ONE)
}

/// Command line that reboots the host where none is configured.
pub fn default_reboot_cmd() -> (line: String)
    ensures
        line@ == "reboot"@,
{
    String::from_str("reboot")
}

/// The command lines of external actions.
#[derive(Clone, Debug, PartialEq, Eq)]
pub struct Commands {
    pub reboot: String,
}

impl Default for Commands {
    fn default() -> (commands: Commands)
        ensures
            commands.reboot@ == "reboot"@,
    {
        Commands { reboot: default_reboot_cmd() }
    }
}

/// The configuration of a panel.
#[derive(Clone, Debug, PartialEq, Eq)]
pub struct Config {
    pub title: String,
    pub home_url: String,
    pub zoom: Number,
    pub engine: Engine,
    pub allowed_urls: Vec<String>,
    pub fullscreen: bool,
    pub show_cursor: bool,
    pub debug: bool,
    pub sig: Option<String>,
    pub bus: Option<BusConfig>,
    pub commands: Commands,
}

impl Default for Config {
    fn default() -> (config: Config)
        ensures
            config.title@ == "EVA ICS Panel"@,
            config.home_url@ == "http://eva/ui/"@,
            config.zoom == Number::Float(BITS_OF_ONE),
            config.engine == Engine::Wasm,
            config.allowed_urls@.len() == 0,
            !config.fullscreen,
            !config.show_cursor,
            !config.debug,
            config.sig is None,
            config.bus is None,
            config.commands.reboot@ == "reboot"@,
    {
        Config {
            title: default_title(),
            home_url: default_home_url(),
            zoom: default_zoom(),
            engine: Engine::default(),
            allowed_urls: Vec::new(),
            fullscreen: false,
            show_cursor: false,
            debug: false,
            sig: None,
            bus: None,
            commands: Commands::default(),
        }
    }
}

/// Whether a location begins with one of the allowed prefixes.
pub open spec fn has_allowed_prefix(url: Seq<char>, allowed: Seq<Seq<char>>) -> bool {
    exists|i: int| 0 <= i < allowed.len() && (#[trigger] allowed[i]).is_prefix_of(url)
}

/// Whether a location begins with one of the allowed prefixes.
pub fn url_allowed(url: &str, allowed_urls: &Vec<String>) -> (allowed: bool)
    ensures
        allowed == has_allowed_prefix(url@, views(allowed_urls@)),
{
    let mut i: usize = 0;
    while i < allowed_urls.len()
        invariant
            i <= allowed_urls.len(),
            forall|j: int| 0 <= j < i ==> !(#[trigger] views(allowed_urls@)[j]).is_prefix_of(url@),
        decreases allowed_urls.len() - i,
    {
        if starts_with(url, allowed_urls[i].as_str()) {
            assert(views(allowed_urls@)[i as int].is_prefix_of(url@));
            return true;
        }
        i = i + 1;
    }
    false
}

/// Which locations the page may be sent to.
#[derive(Clone, Debug, PartialEq, Eq)]
pub struct Navigation {
    /// Whether every location is allowed.
    pub allow_any: bool,
    /// The prefixes of the allowed locations.
    pub allowed_urls: Vec<String>,
}

impl Navigation {
    /// The rule of a configuration: every location where the configured
    /// prefixes hold the wildcard `*`; the configured prefixes and the home
    /// URL otherwise.
    pub fn new(allowed_urls: Vec<String>, home_url: &str) -> (rule: Navigation)
        ensures
            rule.allow_any == views(allowed_urls@).contains("*"@),
            views(rule.allowed_urls@) == views(allowed_urls@).push(home_url@),
    {
        let mut allow_any = false;
        let mut i: usize = 0;
        while i < allowed_urls.len()
            invariant
                i <= allowed_urls.len(),
                allow_any == views(allowed_urls@).take(i as int).contains("*"@),
            decreases allowed_urls.len() - i,
        {
            let ghost before = views(allowed_urls@).take(i as int);
            let ghost after = views(allowed_urls@).take(i + 1);
            assert(after =~= before.push(allowed_urls@[i as int]@));
            if str_eq(allowed_urls[i].as_str(), "*") {
                allow_any = true;
                assert(after[i as int] == "*"@);
            }
            i = i + 1;
        }
        assert(views(allowed_urls@).take(allowed_urls.len() as int) =~= views(allowed_urls@));
        let mut all = allowed_urls;
        all.push(String::from_str(home_url));
        Navigation { allow_any, allowed_urls: all }
    }

    /// Whether a rule lets the page go to a location.
    pub open spec fn lets(self, url: Seq<char>) -> bool {
        self.allow_any || has_allowed_prefix(url, views(self.allowed_urls@))
    }

    /// Whether the page may go to a location.
    pub fn permits(&self, url: &str) -> (allowed: bool)
        ensures
            allowed == self.lets(url@),
    {
        self.allow_any || url_allowed(url, &self.allowed_urls)
    }
}

/// A location that is itself one of the allowed prefixes is allowed: so the
/// page may always go to the home URL, which every rule holds.
pub proof fn lemma_home_url_allowed(rule: Navigation, home_url: Seq<char>)
    requires
        views(rule.allowed_urls@).contains(home_url),
    ensures
        rule.lets(home_url),
{
    let allowed = views(rule.allowed_urls@);
    let i = choose|i: int| 0 <= i < allowed.len() && allowed[i] == home_url;
    assert(allowed[i].is_prefix_of(home_url));
}

/// The user agent of a panel: name, version, architecture and engine, the
/// rendering engine in brackets, and the signature of the installation if
/// it has one.
pub open spec fn user_agent_text(
    version: Seq<char>,
    arch: Seq<char>,
    engine: Engine,
    web_engine: Seq<char>,
    sig: Option<Seq<char>>,
) -> Seq<char> {
    let base = AGENT_NAME@ + " "@ + version + " "@ + arch + "/"@ + engine.spec_name() + " ("@
        + web_engine + ")"@;
    match sig {
        Some(s) => base + " "@ + s,
        None => base,
    }
}

/// The user agent that the panel presents to the application.
pub fn user_agent(version: &str, arch: &str, engine: Engine, web_engine: &str, sig: &Option<String>)
    -> (agent: String)
    ensures
        agent@ == user_agent_text(version@, arch@, engine, web_engine@, opt_string(*sig)),
{
    let mut agent = String::from_str(AGENT_NAME);
    agent.append(" ");
    agent.append(version);
    agent.append(" ");
    agent.append(arch);
    agent.append("/");
    agent.append(engine.as_str());
    agent.append(" (");
    agent.append(web_engine);
    agent.append(")");
    match sig {
        Some(s) => {
            agent.append(" ");
            agent.append(s.as_str());
        },
        None => {},
    }
    agent
}

} // verus!

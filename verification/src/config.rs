//! The configuration file's model: its sections with their defaults, and the
//! lookups the rest of the program makes in it.
use std::collections::HashMap;
use std::path::PathBuf;

use vstd::prelude::*;

use crate::json::opt_view;
use crate::text::{ascii_lower, is_ascii_text, lower_case, str_eq, to_lowercase};

verus! {

/// The file name of the configuration.
pub const CONFIG_FILE_NAME: &'static str = "config.toml";

/// The configuration directory, relative to the home directory.
pub const DEFAULT_CONFIG_DIR: &'static str = ".config/nac";

/// The environment variable that names the configuration file.
pub const NAC_CONFIG_ENV: &'static str = "NAC_CONFIG";

/// A file system path, carried as the configuration gives it.
#[verifier::external_type_specification]
#[verifier::external_body]
pub struct ExPathBuf(PathBuf);

/// A TOML value, kept for keys this program does not know.
#[verifier::external_type_specification]
#[verifier::external_body]
pub struct ExTomlValue(toml::Value);

/// Per-backend API configuration.
#[derive(Debug)]
pub struct BackendApiConfig {
    /// API key for this backend
    pub api_key: Option<String>,
    /// Base URL for API requests (optional, for custom endpoints)
    pub base_url: Option<String>,
    /// Default model to use
    pub model: Option<String>,
    /// Request timeout in seconds
    pub timeout_secs: Option<u64>,
}

/// Configuration for API backends.
#[derive(Debug)]
pub struct ApiConfig {
    /// OpenAI API configuration
    pub openai: Option<BackendApiConfig>,
    /// Anthropic API configuration
    pub anthropic: Option<BackendApiConfig>,
    /// Google/Gemini API configuration
    pub google: Option<BackendApiConfig>,
    /// Ollama/local API configuration
    pub ollama: Option<BackendApiConfig>,
}

impl Default for ApiConfig {
    fn default() -> (r: Self)
        ensures
            r.openai is None && r.anthropic is None && r.google is None && r.ollama is None,
    {
        ApiConfig { openai: None, anthropic: None, google: None, ollama: None }
    }
}

/// Terminal configuration.
#[derive(Debug)]
pub struct TerminalConfig {
    /// Default terminal width (columns)
    pub default_cols: u16,
    /// Default terminal height (rows)
    pub default_rows: u16,
    /// Minimum terminal width
    pub min_width: u16,
    /// Minimum terminal height
    pub min_height: u16,
    /// Scrollback buffer size (lines)
    pub scrollback_lines: usize,
}

impl Default for TerminalConfig {
    fn default() -> (r: Self)
        ensures
            r.default_cols == 140 && r.default_rows == 50 && r.min_width == 72 && r.min_height == 22
                && r.scrollback_lines == 10000,
    {
        TerminalConfig { default_cols: 140, default_rows: 50, min_width: 72, min_height: 22, scrollback_lines: 10000 }
    }
}

/// UI/TUI configuration.
#[derive(Debug)]
pub struct UiConfig {
    /// Enable animations
    pub animations: Option<bool>,
    /// Color theme
    pub theme: Option<String>,
    /// Show timestamps in UI
    pub show_timestamps: Option<bool>,
    /// Default editor for external editing
    pub editor: Option<String>,
}

impl Default for UiConfig {
    fn default() -> (r: Self)
        ensures
            r.animations is None && r.theme is None && r.show_timestamps is None && r.editor is None,
    {
        UiConfig { animations: None, theme: None, show_timestamps: None, editor: None }
    }
}

/// Sandbox configuration.
#[derive(Debug)]
pub struct SandboxConfig {
    /// Default sandbox image
    pub default_image: String,
    /// Default working directory in sandbox
    pub workdir: String,
    /// Auto-mount current directory
    pub auto_mount_cwd: bool,
    /// Additional default mounts (host:guest format)
    pub mounts: Vec<String>,
    /// Default GPUs to expose
    pub gpus: Vec<String>,
}

impl Default for SandboxConfig {
    fn default() -> (r: Self)
        ensures
            r.default_image@ == "docker.io/library/alpine:latest"@,
            r.workdir@ == "/workspace"@,
            r.auto_mount_cwd,
            r.mounts@.len() == 0,
            r.gpus@.len() == 0,
    {
        SandboxConfig {
            default_image: String::from_str("docker.io/library/alpine:latest"),
            workdir: String::from_str("/workspace"),
            auto_mount_cwd: true,
            mounts: Vec::new(),
            gpus: Vec::new(),
        }
    }
}

/// Storage configuration.
#[derive(Debug)]
pub struct StoreConfig {
    /// Default store path (relative to home or absolute)
    pub path: Option<PathBuf>,
    /// Auto-save interval in seconds
    pub auto_save_secs: Option<u64>,
    /// Maximum retained episodes per session
    pub max_retained_episodes: Option<usize>,
}

impl Default for StoreConfig {
    fn default() -> (r: Self)
        ensures
            r.path is None,
            r.auto_save_secs == Some(30u64),
            r.max_retained_episodes == Some(100usize),
    {
        StoreConfig { path: None, auto_save_secs: Some(30), max_retained_episodes: Some(100) }
    }
}

/// What a flag that the file leaves out is: on.
pub fn default_true() -> (r: bool)
    ensures
        r,
{
    true
}

/// Single MCP server configuration.
#[derive(Debug)]
pub struct McpServerConfig {
    /// Command to run the server
    pub command: String,
    /// Arguments for the command
    pub args: Vec<String>,
    /// Environment variables
    pub env: HashMap<String, String>,
    /// Working directory
    pub cwd: Option<PathBuf>,
    /// Auto-connect on startup
    pub auto_connect: bool,
}

impl McpServerConfig {
    /// A server run by `command`, with the defaults of the fields the file may
    /// leave out: no arguments, no environment, no working directory, and
    /// connected on startup.
    pub fn with_command(command: String) -> (r: Self)
        ensures
            r.command@ == command@,
            r.args@.len() == 0,
            r.env@ == Map::<String, String>::empty(),
            r.cwd is None,
            r.auto_connect,
    {
        McpServerConfig { command, args: Vec::new(), env: HashMap::new(), cwd: None, auto_connect: default_true() }
    }
}

/// MCP (Model Context Protocol) configuration.
#[derive(Debug)]
pub struct McpConfig {
    /// MCP servers to connect to
    pub servers: HashMap<String, McpServerConfig>,
}

impl Default for McpConfig {
    fn default() -> (r: Self)
        ensures
            r.servers@ == Map::<String, McpServerConfig>::empty(),
    {
        McpConfig { servers: HashMap::new() }
    }
}

/// Agent behavior configuration.
#[derive(Debug)]
pub struct AgentConfig {
    /// Default backend to use
    pub default_backend: Option<String>,
    /// Default reasoning effort
    pub default_reasoning_effort: Option<String>,
    /// Max tool iterations per request
    pub max_tool_iterations: Option<u32>,
    /// Enable tool confirmation prompts
    pub confirm_tools: Option<bool>,
    /// Default system prompt additions
    pub system_prompt_extra: Option<String>,
    /// Default thread timeout in seconds
    pub thread_timeout_secs: Option<u64>,
}

impl Default for AgentConfig {
    fn default() -> (r: Self)
        ensures
            opt_view(r.default_backend) == Some("auto"@),
            r.default_reasoning_effort is None,
            r.max_tool_iterations == Some(50u32),
            r.confirm_tools == Some(true),
            r.system_prompt_extra is None,
            r.thread_timeout_secs == Some(3600u64),
    {
        AgentConfig {
            default_backend: Some(String::from_str("auto")),
            default_reasoning_effort: None,
            max_tool_iterations: Some(50),
            confirm_tools: Some(true),
            system_prompt_extra: None,
            thread_timeout_secs: Some(3600),
        }
    }
}

/// Logging configuration.
#[derive(Debug)]
pub struct LogConfig {
    /// Log level (error, warn, info, debug, trace)
    pub level: Option<String>,
    /// Log file path
    pub file: Option<PathBuf>,
    /// Enable console logging
    pub console: bool,
}

impl Default for LogConfig {
    fn default() -> (r: Self)
        ensures
            opt_view(r.level) == Some("info"@),
            r.file is None,
            r.console,
    {
        LogConfig { level: Some(String::from_str("info")), file: None, console: true }
    }
}

/// The whole configuration.
#[derive(Debug)]
pub struct Config {
    /// API backend configuration
    pub api: ApiConfig,
    /// Terminal settings
    pub terminal: TerminalConfig,
    /// UI settings
    pub ui: UiConfig,
    /// Sandbox settings
    pub sandbox: SandboxConfig,
    /// Storage settings
    pub store: StoreConfig,
    /// MCP server settings
    pub mcp: McpConfig,
    /// Agent behavior settings
    pub agent: AgentConfig,
    /// Logging settings
    pub log: LogConfig,
    /// Extra key-value pairs for future extensibility
    pub extra: HashMap<String, toml::Value>,
}

impl Default for Config {
    fn default() -> (r: Self)
        ensures
            r.api.openai is None && r.api.anthropic is None && r.api.google is None && r.api.ollama is None,
            r.terminal.default_cols == 140 && r.terminal.default_rows == 50,
            r.agent.thread_timeout_secs == Some(3600u64),
            r.log.console,
            r.mcp.servers@ == Map::<String, McpServerConfig>::empty(),
            r.extra@ == Map::<String, toml::Value>::empty(),
    {
        Config {
            api: ApiConfig::default(),
            terminal: TerminalConfig::default(),
            ui: UiConfig::default(),
            sandbox: SandboxConfig::default(),
            store: StoreConfig::default(),
            mcp: McpConfig::default(),
            agent: AgentConfig::default(),
            log: LogConfig::default(),
            extra: HashMap::new(),
        }
    }
}

/// Which section of `[api]` a backend name selects, by its lowercase form:
/// "openai", "anthropic", "google" or "gemini", "ollama" or "local".
pub open spec fn section_of(api: ApiConfig, lower: Seq<char>) -> Option<BackendApiConfig> {
    if lower == "openai"@ {
        api.openai
    } else if lower == "anthropic"@ {
        api.anthropic
    } else if lower == "google"@ || lower == "gemini"@ {
        api.google
    } else if lower == "ollama"@ || lower == "local"@ {
        api.ollama
    } else {
        None
    }
}

/// The section of `[api]` that a backend name selects, if it is configured.
pub open spec fn backend_section(config: Option<&Config>, backend: Seq<char>) -> Option<BackendApiConfig> {
    match config {
        Some(c) => section_of(c.api, lower_case(backend)),
        None => None,
    }
}

fn section<'a>(api: &'a ApiConfig, backend: &str) -> (r: Option<&'a BackendApiConfig>)
    ensures
        match r {
            Some(b) => section_of(*api, lower_case(backend@)) == Some(*b),
            None => section_of(*api, lower_case(backend@)) is None,
        },
{
    let lower = to_lowercase(backend);
    let name = lower.as_str();
    if str_eq(name, "openai") {
        api.openai.as_ref()
    } else if str_eq(name, "anthropic") {
        api.anthropic.as_ref()
    } else if str_eq(name, "google") || str_eq(name, "gemini") {
        api.google.as_ref()
    } else if str_eq(name, "ollama") || str_eq(name, "local") {
        api.ollama.as_ref()
    } else {
        None
    }
}

fn clone_text(o: &Option<String>) -> (r: Option<String>)
    ensures
        opt_view(r) == opt_view(*o),
{
    match o {
        Some(s) => Some(s.clone()),
        None => None,
    }
}

/// The API key configured for a backend in `config`, the configuration in
/// force, if there is one.
pub fn get_api_key(config: Option<&Config>, backend: &str) -> (r: Option<String>)
    ensures
        opt_view(r) == match backend_section(config, backend@) {
            Some(b) => opt_view(b.api_key),
            None => None,
        },
{
    match config {
        Some(c) => match section(&c.api, backend) {
            Some(b) => clone_text(&b.api_key),
            None => None,
        },
        None => None,
    }
}

/// The base URL configured for a backend in `config`, if there is one.
pub fn get_base_url(config: Option<&Config>, backend: &str) -> (r: Option<String>)
    ensures
        opt_view(r) == match backend_section(config, backend@) {
            Some(b) => opt_view(b.base_url),
            None => None,
        },
{
    match config {
        Some(c) => match section(&c.api, backend) {
            Some(b) => clone_text(&b.base_url),
            None => None,
        },
        None => None,
    }
}

/// The default model configured for a backend in `config`, if there is one.
pub fn get_default_model(config: Option<&Config>, backend: &str) -> (r: Option<String>)
    ensures
        opt_view(r) == match backend_section(config, backend@) {
            Some(b) => opt_view(b.model),
            None => None,
        },
{
    match config {
        Some(c) => match section(&c.api, backend) {
            Some(b) => clone_text(&b.model),
            None => None,
        },
        None => None,
    }
}

/// Which section a backend name selects, once lowercased (for an ASCII
/// name, its ASCII lowercase, so that `OpenAI` selects `openai`): `openai`,
/// `anthropic`, `google` or `gemini`, `ollama` or `local`; any other name
/// selects none, and without a configuration no name selects any. The
/// lookups of key, base URL and default model all go through this choice.
pub proof fn law_backend_names(config: Option<&Config>, backend: Seq<char>)
    ensures
        config is None ==> backend_section(config, backend) is None,
        config matches Some(c) ==> {
            let lower = lower_case(backend);
            &&& is_ascii_text(backend) ==> lower == ascii_lower(backend)
            &&& lower == "openai"@ ==> backend_section(config, backend) == c.api.openai
            &&& lower == "anthropic"@ ==> backend_section(config, backend) == c.api.anthropic
            &&& (lower == "google"@ || lower == "gemini"@) ==> backend_section(config, backend) == c.api.google
            &&& (lower == "ollama"@ || lower == "local"@) ==> backend_section(config, backend) == c.api.ollama
            &&& !(lower == "openai"@ || lower == "anthropic"@ || lower == "google"@ || lower == "gemini"@
                || lower == "ollama"@ || lower == "local"@) ==> backend_section(config, backend) is None
        },
{
    reveal_strlit("openai");
    reveal_strlit("anthropic");
    reveal_strlit("google");
    reveal_strlit("gemini");
    reveal_strlit("ollama");
    reveal_strlit("local");
    assert("openai"@[1] != "google"@[1] && "openai"@[1] != "gemini"@[1] && "openai"@[1] != "ollama"@[1]);
    assert("google"@[1] != "gemini"@[1] && "google"@[1] != "ollama"@[1] && "gemini"@[1] != "ollama"@[1]);
    assert("openai"@.len() != "anthropic"@.len() && "openai"@.len() != "local"@.len());
    assert("anthropic"@.len() != "google"@.len() && "anthropic"@.len() != "local"@.len());
    assert("google"@.len() != "local"@.len() && "ollama"@.len() != "local"@.len());
}

/// Backend names are matched without regard to ASCII case: two ASCII names
/// that differ only in case select the same section.
pub proof fn law_backend_names_ignore_case(config: Option<&Config>, a: Seq<char>, b: Seq<char>)
    requires
        is_ascii_text(a),
        is_ascii_text(b),
        ascii_lower(a) == ascii_lower(b),
    ensures
        backend_section(config, a) == backend_section(config, b),
{
}

/// The timeout of the thread tool in seconds: the configured one, else an hour.
pub fn get_thread_timeout(config: Option<&Config>) -> (r: u64)
    ensures
        r == match config {
            Some(c) => match c.agent.thread_timeout_secs {
                Some(t) => t,
                None => 3600,
            },
            None => 3600,
        },
{
    match config {
        Some(c) => match c.agent.thread_timeout_secs {
            Some(t) => t,
            None => 3600,
        },
        None => 3600,
    }
}

/// Which configuration file is used: the one `NAC_CONFIG` names; else
/// `nac/config.toml` under `XDG_CONFIG_HOME` when it exists; else
/// `.config/nac/config.toml` under the home directory, whether it exists or
/// not; and none when there is no home directory either. Each candidate comes
/// with whether the file exists.
pub fn choose_config_path(
    from_env: Option<String>,
    under_xdg: Option<(String, bool)>,
    under_home: Option<(String, bool)>,
) -> (r: Option<String>)
    ensures
        opt_view(r) == match from_env {
            Some(p) => Some(p@),
            None => match under_xdg {
                Some((p, true)) => Some(p@),
                _ => match under_home {
                    Some((p, _)) => Some(p@),
                    None => None,
                },
            },
        },
{
    match from_env {
        Some(p) => Some(p),
        None => match under_xdg {
            Some((p, true)) => Some(p),
            _ => match under_home {
                Some((p, _)) => Some(p),
                None => None,
            },
        },
    }
}

/// The text of the sample configuration file.
pub open spec fn sample_config_text() -> Seq<char> {
    r#"# NAC Configuration File
# Place this file at ~/.config/nac/config.toml
# or set NAC_CONFIG environment variable to point to your config file

[api.openai]
api_key = "sk-..."
base_url = "https://api.openai.com/v1"  # Optional: custom endpoint
model = "gpt-4o"  # Optional: default model

[api.anthropic]
api_key = "sk-ant-..."
model = "model-name"  # Optional: default model

[terminal]
default_cols = 140
default_rows = 50
min_width = 72
min_height = 22
scrollback_lines = 10000

[ui]
animations = true
theme = "default"
show_timestamps = true
editor = "vim"  # Default editor for external editing

[sandbox]
default_image = "docker.io/library/alpine:latest"
workdir = "/workspace"
auto_mount_cwd = true
mounts = []
gpus = []

[store]
# path = ".nac/store.db"  # Relative to home or absolute path
auto_save_secs = 30
max_retained_episodes = 100

[agent]
default_backend = "auto"
# default_reasoning_effort = "medium"
max_tool_iterations = 50
confirm_tools = true
thread_timeout_secs = 3600  # Default timeout for thread tool

[log]
level = "info"
# file = "/var/log/nac.log"
console = true

# MCP Servers - uncomment and configure as needed
# [mcp.servers.filesystem]
# command = "npx"
# args = ["-y", "@modelcontextprotocol/server-filesystem", "/home/user"]
# auto_connect = true

# [mcp.servers.git]
# command = "uvx"
# args = ["mcp-server-git", "--repository", "/path/to/repo"]
# auto_connect = true
"#@
}

/// A commented sample configuration file, with every section and its usual values.
pub fn generate_sample_config() -> (r: String)
    ensures
        r@ == sample_config_text(),
{
    String::from_str(
        r#"# NAC Configuration File
# Place this file at ~/.config/nac/config.toml
# or set NAC_CONFIG environment variable to point to your config file

[api.openai]
api_key = "sk-..."
base_url = "https://api.openai.com/v1"  # Optional: custom endpoint
model = "gpt-4o"  # Optional: default model

[api.anthropic]
api_key = "sk-ant-..."
model = "model-name"  # Optional: default model

[terminal]
default_cols = 140
default_rows = 50
min_width = 72
min_height = 22
scrollback_lines = 10000

[ui]
animations = true
theme = "default"
show_timestamps = true
editor = "vim"  # Default editor for external editing

[sandbox]
default_image = "docker.io/library/alpine:latest"
workdir = "/workspace"
auto_mount_cwd = true
mounts = []
gpus = []

[store]
# path = ".nac/store.db"  # Relative to home or absolute path
auto_save_secs = 30
max_retained_episodes = 100

[agent]
default_backend = "auto"
# default_reasoning_effort = "medium"
max_tool_iterations = 50
confirm_tools = true
thread_timeout_secs = 3600  # Default timeout for thread tool

[log]
level = "info"
# file = "/var/log/nac.log"
console = true

# MCP Servers - uncomment and configure as needed
# [mcp.servers.filesystem]
# command = "npx"
# args = ["-y", "@modelcontextprotocol/server-filesystem", "/home/user"]
# auto_connect = true

# [mcp.servers.git]
# command = "uvx"
# args = ["mcp-server-git", "--repository", "/path/to/repo"]
# auto_connect = true
"#,
    )
}

} // verus!


use nac::config::{
    choose_config_path, default_true, generate_sample_config, get_api_key, get_base_url,
    get_default_model, get_thread_timeout, AgentConfig, ApiConfig, BackendApiConfig, Config,
    LogConfig, McpServerConfig, SandboxConfig, StoreConfig, TerminalConfig, UiConfig,
    CONFIG_FILE_NAME, DEFAULT_CONFIG_DIR, NAC_CONFIG_ENV,
};

fn section(key: &str, url: Option<&str>, model: Option<&str>) -> BackendApiConfig {
    BackendApiConfig {
        api_key: Some(key.to_string()),
        base_url: url.map(|u| u.to_string()),
        model: model.map(|m| m.to_string()),
        timeout_secs: Some(60),
    }
}

fn configured() -> Config {
    let mut config = Config::default();
    config.api.openai = Some(section("test-key", Some("https://api.openai.com"), Some("gpt-4")));
    config.api.google = Some(section("g-key", None, Some("gemini-pro")));
    config.api.ollama = Some(section("local-key", Some("http://localhost:11434"), None));
    config
}

#[test]
fn test_parse_sample_config() {
    let sample = generate_sample_config();
    let config: toml::Value = toml::from_str(&sample).expect("Should parse sample config");

    assert!(config.get("api").and_then(|a| a.get("openai")).is_some());
    assert!(
        config
            .get("terminal")
            .and_then(|t| t.get("default_cols"))
            .and_then(|c| c.as_integer())
            .unwrap()
            > 0
    );
}

#[test]
fn sample_config_matches_the_defaults() {
    let config: toml::Value = toml::from_str(&generate_sample_config()).unwrap();
    let terminal = TerminalConfig::default();
    let t = config.get("terminal").unwrap();
    assert_eq!(t.get("default_cols").unwrap().as_integer(), Some(terminal.default_cols as i64));
    assert_eq!(t.get("default_rows").unwrap().as_integer(), Some(terminal.default_rows as i64));
    assert_eq!(t.get("scrollback_lines").unwrap().as_integer(), Some(terminal.scrollback_lines as i64));
    let agent = config.get("agent").unwrap();
    assert_eq!(agent.get("thread_timeout_secs").unwrap().as_integer(), Some(3600));
    assert!(generate_sample_config().starts_with("# NAC Configuration File\n"));
}

#[test]
fn section_defaults() {
    let terminal = TerminalConfig::default();
    assert_eq!(
        (terminal.default_cols, terminal.default_rows, terminal.min_width, terminal.min_height),
        (140, 50, 72, 22)
    );
    assert_eq!(terminal.scrollback_lines, 10000);
    let sandbox = SandboxConfig::default();
    assert_eq!(sandbox.default_image, "docker.io/library/alpine:latest");
    assert_eq!(sandbox.workdir, "/workspace");
    assert!(sandbox.auto_mount_cwd && sandbox.mounts.is_empty() && sandbox.gpus.is_empty());
    let store = StoreConfig::default();
    assert!(store.path.is_none());
    assert_eq!((store.auto_save_secs, store.max_retained_episodes), (Some(30), Some(100)));
    let agent = AgentConfig::default();
    assert_eq!(agent.default_backend.as_deref(), Some("auto"));
    assert_eq!(agent.max_tool_iterations, Some(50));
    assert_eq!(agent.confirm_tools, Some(true));
    assert_eq!(agent.thread_timeout_secs, Some(3600));
    let log = LogConfig::default();
    assert_eq!(log.level.as_deref(), Some("info"));
    assert!(log.console && log.file.is_none());
    let ui = UiConfig::default();
    assert!(ui.theme.is_none() && ui.animations.is_none());
    let api = ApiConfig::default();
    assert!(api.openai.is_none() && api.anthropic.is_none());
    let server = McpServerConfig::with_command("npx".to_string());
    assert!(server.auto_connect && server.args.is_empty() && server.env.is_empty());
    assert!(default_true());
    assert!(Config::default().mcp.servers.is_empty());
    assert_eq!((CONFIG_FILE_NAME, DEFAULT_CONFIG_DIR, NAC_CONFIG_ENV), ("config.toml", ".config/nac", "NAC_CONFIG"));
}

#[test]
fn lookups_by_backend_name() {
    let config = configured();
    assert_eq!(get_api_key(Some(&config), "openai"), Some("test-key".to_string()));
    assert_eq!(get_api_key(Some(&config), "OpenAI"), Some("test-key".to_string()));
    assert_eq!(get_api_key(Some(&config), "gemini"), Some("g-key".to_string()));
    assert_eq!(get_api_key(Some(&config), "GOOGLE"), Some("g-key".to_string()));
    assert_eq!(get_api_key(Some(&config), "local"), Some("local-key".to_string()));
    assert_eq!(get_api_key(Some(&config), "anthropic"), None);
    assert_eq!(get_api_key(Some(&config), "mistral"), None);
    assert_eq!(get_api_key(None, "openai"), None);
    assert_eq!(get_base_url(Some(&config), "Ollama"), Some("http://localhost:11434".to_string()));
    assert_eq!(get_base_url(Some(&config), "google"), None);
    assert_eq!(get_default_model(Some(&config), "openai"), Some("gpt-4".to_string()));
    assert_eq!(get_default_model(Some(&config), "gemini"), Some("gemini-pro".to_string()));
}

#[test]
fn thread_timeout_defaults_to_an_hour() {
    assert_eq!(get_thread_timeout(None), 3600);
    let mut config = Config::default();
    assert_eq!(get_thread_timeout(Some(&config)), 3600);
    config.agent.thread_timeout_secs = Some(60);
    assert_eq!(get_thread_timeout(Some(&config)), 60);
    config.agent.thread_timeout_secs = None;
    assert_eq!(get_thread_timeout(Some(&config)), 3600);
}

#[test]
fn config_path_choice() {
    let p = |s: &str| s.to_string();
    assert_eq!(
        choose_config_path(Some(p("/env.toml")), Some((p("/xdg.toml"), true)), Some((p("/home.toml"), true))),
        Some(p("/env.toml"))
    );
    assert_eq!(
        choose_config_path(None, Some((p("/xdg.toml"), true)), Some((p("/home.toml"), true))),
        Some(p("/xdg.toml"))
    );
    assert_eq!(
        choose_config_path(None, Some((p("/xdg.toml"), false)), Some((p("/home.toml"), false))),
        Some(p("/home.toml"))
    );
    assert_eq!(choose_config_path(None, Some((p("/xdg.toml"), false)), None), None);
}

fn table<'a>(v: &'a toml::Value, key: &str) -> &'a toml::Value {
    let t = v.get(key).unwrap_or_else(|| panic!("missing [{}]", key));
    assert!(t.is_table(), "[{}] is not a table", key);
    t
}

fn opt_str(t: &toml::Value, key: &str) -> Option<String> {
    t.get(key).map(|v| v.as_str().unwrap_or_else(|| panic!("{} is not a string", key)).to_string())
}

fn opt_int(t: &toml::Value, key: &str) -> Option<i64> {
    t.get(key).map(|v| v.as_integer().unwrap_or_else(|| panic!("{} is not an integer", key)))
}

fn opt_bool(t: &toml::Value, key: &str) -> Option<bool> {
    t.get(key).map(|v| v.as_bool().unwrap_or_else(|| panic!("{} is not a boolean", key)))
}

fn strings(t: &toml::Value, key: &str) -> Vec<String> {
    t.get(key)
        .unwrap_or_else(|| panic!("missing {}", key))
        .as_array()
        .unwrap_or_else(|| panic!("{} is not an array", key))
        .iter()
        .map(|v| v.as_str().unwrap().to_string())
        .collect()
}

fn backend(t: &toml::Value) -> BackendApiConfig {
    BackendApiConfig {
        api_key: opt_str(t, "api_key"),
        base_url: opt_str(t, "base_url"),
        model: opt_str(t, "model"),
        timeout_secs: opt_int(t, "timeout_secs").map(|n| u64::try_from(n).unwrap()),
    }
}

/// Reads the sample into the typed configuration field by field, with the
/// types and requirements of each field: a required field that is missing or
/// of the wrong type fails the test.
#[test]
fn sample_config_reads_as_a_typed_config() {
    let v: toml::Value = toml::from_str(&generate_sample_config()).expect("Should parse sample config");
    let api = table(&v, "api");
    let openai = backend(table(api, "openai"));
    let anthropic = backend(table(api, "anthropic"));
    assert!(api.get("google").is_none() && api.get("ollama").is_none());
    let t = table(&v, "terminal");
    let req = |k: &str| opt_int(t, k).unwrap_or_else(|| panic!("missing terminal.{}", k));
    let terminal = TerminalConfig {
        default_cols: u16::try_from(req("default_cols")).unwrap(),
        default_rows: u16::try_from(req("default_rows")).unwrap(),
        min_width: u16::try_from(req("min_width")).unwrap(),
        min_height: u16::try_from(req("min_height")).unwrap(),
        scrollback_lines: usize::try_from(req("scrollback_lines")).unwrap(),
    };
    let u = table(&v, "ui");
    let ui = UiConfig {
        animations: opt_bool(u, "animations"),
        theme: opt_str(u, "theme"),
        show_timestamps: opt_bool(u, "show_timestamps"),
        editor: opt_str(u, "editor"),
    };
    let s = table(&v, "sandbox");
    let sandbox = SandboxConfig {
        default_image: opt_str(s, "default_image").expect("missing sandbox.default_image"),
        workdir: opt_str(s, "workdir").expect("missing sandbox.workdir"),
        auto_mount_cwd: opt_bool(s, "auto_mount_cwd").expect("missing sandbox.auto_mount_cwd"),
        mounts: strings(s, "mounts"),
        gpus: strings(s, "gpus"),
    };
    let st = table(&v, "store");
    assert!(st.get("path").is_none());
    let store_save = opt_int(st, "auto_save_secs").map(|n| u64::try_from(n).unwrap());
    let store_retained = opt_int(st, "max_retained_episodes").map(|n| usize::try_from(n).unwrap());
    let a = table(&v, "agent");
    let agent = AgentConfig {
        default_backend: opt_str(a, "default_backend"),
        default_reasoning_effort: opt_str(a, "default_reasoning_effort"),
        max_tool_iterations: opt_int(a, "max_tool_iterations").map(|n| u32::try_from(n).unwrap()),
        confirm_tools: opt_bool(a, "confirm_tools"),
        system_prompt_extra: opt_str(a, "system_prompt_extra"),
        thread_timeout_secs: opt_int(a, "thread_timeout_secs").map(|n| u64::try_from(n).unwrap()),
    };
    let l = table(&v, "log");
    let log_level = opt_str(l, "level");
    assert!(l.get("file").is_none());
    let log_console = opt_bool(l, "console").unwrap_or(true);
    assert!(v.get("mcp").is_none());
    let known = ["api", "terminal", "ui", "sandbox", "store", "agent", "log"];
    assert!(v.as_table().unwrap().keys().all(|k| known.contains(&k.as_str())));

    assert_eq!(openai.api_key.as_deref(), Some("sk-..."));
    assert_eq!(openai.base_url.as_deref(), Some("https://api.openai.com/v1"));
    assert_eq!(openai.model.as_deref(), Some("gpt-4o"));
    assert_eq!(anthropic.api_key.as_deref(), Some("sk-ant-..."));
    assert_eq!(
        (terminal.default_cols, terminal.default_rows, terminal.min_width, terminal.min_height, terminal.scrollback_lines),
        (140, 50, 72, 22, 10000)
    );
    assert_eq!(ui.animations, Some(true));
    assert_eq!(ui.theme.as_deref(), Some("default"));
    assert_eq!(ui.show_timestamps, Some(true));
    assert_eq!(ui.editor.as_deref(), Some("vim"));
    assert_eq!(sandbox.default_image, "docker.io/library/alpine:latest");
    assert_eq!(sandbox.workdir, "/workspace");
    assert!(sandbox.auto_mount_cwd && sandbox.mounts.is_empty() && sandbox.gpus.is_empty());
    assert_eq!((store_save, store_retained), (Some(30), Some(100)));
    assert_eq!(agent.default_backend.as_deref(), Some("auto"));
    assert_eq!(agent.default_reasoning_effort, None);
    assert_eq!(agent.max_tool_iterations, Some(50));
    assert_eq!(agent.confirm_tools, Some(true));
    assert_eq!(agent.thread_timeout_secs, Some(3600));
    assert_eq!(log_level.as_deref(), Some("info"));
    assert!(log_console);
}

#[test]
fn backend_names_ignore_case() {
    let config = configured();
    assert_eq!(get_default_model(Some(&config), "OpenAI").as_deref(), Some("gpt-4"));
    assert_eq!(get_api_key(Some(&config), "GEMINI").as_deref(), Some("g-key"));
    assert_eq!(get_default_model(Some(&config), "unknown-backend"), None);
    assert_eq!(get_default_model(None, "openai"), None);
}

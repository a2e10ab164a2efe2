use pake::config::{PakeConfig, UserAgent, WindowConfig};
use pake::data_dir::{get_data_dir, resolve_data_dir};
use pake::error::PakeError;
use pake::os::Os;
use pake::window::{get_window, NavigationTarget};

fn ua(macos: &str, linux: &str, windows: &str) -> UserAgent {
    UserAgent {
        macos: macos.to_string(),
        linux: linux.to_string(),
        windows: windows.to_string(),
    }
}

fn window(url: &str, url_type: &str, width: u32, height: u32) -> WindowConfig {
    WindowConfig {
        url: url.to_string(),
        transparent: false,
        fullscreen: false,
        width,
        height,
        resizable: true,
        url_type: url_type.to_string(),
    }
}

fn config_of(windows: Vec<WindowConfig>) -> PakeConfig {
    PakeConfig {
        windows,
        user_agent: ua("MacUA/1.0", "LinuxUA/1.0", "CustomUA/1.0"),
    }
}

#[test]
fn web_config_creates_external_window_of_configured_size() {
    let cfg = config_of(vec![window("https://example.com", "web", 800, 600)]);
    let plan = get_window(cfg, vec!["home".to_string()], Os::Linux).unwrap();
    assert_eq!(plan.label, "pake");
    assert_eq!(plan.title, "");
    assert_eq!(plan.width, 800);
    assert_eq!(plan.height, 600);
    assert!(plan.resizable);
    assert!(!plan.fullscreen);
    assert!(!plan.transparent);
    assert!(plan.inject_bootstrap_script);
    match plan.target {
        NavigationTarget::External { url } => assert_eq!(url, "https://example.com"),
        NavigationTarget::App { .. } => panic!("web url must resolve to an external target"),
    }
}

#[test]
fn windows_build_uses_windows_user_agent() {
    let cfg = config_of(vec![window("https://example.com", "web", 800, 600)]);
    let plan = get_window(cfg, vec!["home".to_string()], Os::Windows).unwrap();
    assert_eq!(plan.user_agent.as_deref(), Some("CustomUA/1.0"));
}

#[test]
fn macos_build_uses_macos_user_agent_and_no_data_dir() {
    let mut w = window("https://example.com", "web", 640, 480);
    w.transparent = true;
    let cfg = config_of(vec![w]);
    let plan = get_window(cfg, vec!["home".to_string()], Os::MacOs).unwrap();
    assert_eq!(plan.user_agent.as_deref(), Some("MacUA/1.0"));
    assert!(plan.data_dir.is_none());
    assert!(plan.transparent);
}

#[test]
fn linux_build_carries_the_data_dir() {
    let cfg = config_of(vec![window("https://example.com", "web", 800, 600)]);
    let dd = vec!["home".to_string(), ".config".to_string(), "app".to_string()];
    let plan = get_window(cfg, dd.clone(), Os::Linux).unwrap();
    assert_eq!(plan.data_dir, Some(dd));
}

#[test]
fn only_the_first_window_entry_is_consumed() {
    let cfg = config_of(vec![
        window("https://example.com", "web", 800, 600),
        window("https://other.example", "web", 1, 1),
    ]);
    let plan = get_window(cfg, vec![], Os::Linux).unwrap();
    assert_eq!(plan.width, 800);
    match plan.target {
        NavigationTarget::External { url } => assert_eq!(url, "https://example.com"),
        NavigationTarget::App { .. } => panic!("web url must resolve to an external target"),
    }
}

#[test]
fn local_url_accepts_any_string() {
    let cfg = config_of(vec![window("not a url at all ///", "local", 10, 10)]);
    let plan = get_window(cfg, vec![], Os::Linux).unwrap();
    match plan.target {
        NavigationTarget::App { path } => assert_eq!(path, "not a url at all ///"),
        NavigationTarget::External { .. } => panic!("local url must resolve to an app target"),
    }
}

#[test]
fn malformed_web_url_is_rejected_with_invalid_url() {
    let cfg = config_of(vec![window("example.com/no-scheme", "web", 800, 600)]);
    let err = get_window(cfg, vec![], Os::Linux).unwrap_err();
    assert_eq!(err, PakeError::InvalidUrl);
}

#[test]
fn unknown_url_type_is_rejected_as_config_error() {
    let cfg = config_of(vec![window("https://example.com", "remote", 800, 600)]);
    let err = get_window(cfg, vec![], Os::Linux).unwrap_err();
    assert_eq!(err, PakeError::ConfigParseError);
}

#[test]
fn validate_accepts_a_well_formed_document() {
    let cfg = config_of(vec![
        window("https://example.com", "web", 800, 600),
        window("index.html", "local", 1, 1),
    ]);
    assert!(cfg.validate().is_ok());
}

#[test]
fn validate_rejects_an_empty_window_list() {
    let cfg = config_of(vec![]);
    assert_eq!(cfg.validate().unwrap_err(), PakeError::ConfigParseError);
}

#[test]
fn validate_rejects_a_zero_dimension() {
    let cfg = config_of(vec![window("https://example.com", "web", 0, 600)]);
    assert_eq!(cfg.validate().unwrap_err(), PakeError::ConfigParseError);
}

#[test]
fn validate_rejects_an_unknown_url_type() {
    let cfg = config_of(vec![window("https://example.com", "ftp", 800, 600)]);
    assert_eq!(cfg.validate().unwrap_err(), PakeError::ConfigParseError);
}

#[test]
fn validate_rejects_a_malformed_web_url() {
    let cfg = config_of(vec![window("::not-a-url::", "web", 800, 600)]);
    assert_eq!(cfg.validate().unwrap_err(), PakeError::InvalidUrl);
}

#[test]
fn linux_data_dir_is_dot_config_under_home() {
    let d = resolve_data_dir(Some("/home/me".to_string()), "myapp", Os::Linux).unwrap();
    assert_eq!(
        d,
        vec!["/home/me".to_string(), ".config".to_string(), "myapp".to_string()]
    );
}

#[test]
fn windows_data_dir_is_appdata_roaming_under_home() {
    let d = resolve_data_dir(Some("C:/Users/me".to_string()), "myapp", Os::Windows).unwrap();
    assert_eq!(
        d,
        vec![
            "C:/Users/me".to_string(),
            "AppData".to_string(),
            "Roaming".to_string(),
            "myapp".to_string(),
        ]
    );
}

#[test]
fn missing_home_dir_aborts_with_home_dir_not_found() {
    let err = resolve_data_dir(None, "myapp", Os::Linux).unwrap_err();
    assert_eq!(err, PakeError::HomeDirNotFound);
}

#[test]
fn get_data_dir_derives_from_the_real_home_dir() {
    match get_data_dir("myapp", Os::Linux) {
        Ok(d) => {
            assert_eq!(d.len(), 3);
            assert_eq!(d[1], ".config");
            assert_eq!(d[2], "myapp");
        }
        Err(e) => assert_eq!(e, PakeError::HomeDirNotFound),
    }
}

#[test]
fn error_names_are_stable() {
    assert_eq!(PakeError::ConfigParseError.name(), "ConfigParseError");
    assert_eq!(PakeError::InvalidUrl.name(), "InvalidUrl");
    assert_eq!(PakeError::HomeDirNotFound.name(), "HomeDirNotFound");
    assert_eq!(PakeError::DirectoryCreateError.name(), "DirectoryCreateError");
    assert_eq!(PakeError::WindowOperationError.name(), "WindowOperationError");
    assert_eq!(PakeError::ZoomApplyError.name(), "ZoomApplyError");
}

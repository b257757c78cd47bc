use packet_sniffer::installer::{InstallError, InstallerConfig, ModularInstaller, ToolModule};

fn module(name: &str, enabled: bool, version: &str) -> ToolModule {
    ToolModule {
        name: name.to_string(),
        description: format!("{} tool", name),
        install_script: format!("scripts/{}.sh", name),
        dependencies: vec!["curl".to_string()],
        category: "net".to_string(),
        enabled,
        version: version.to_string(),
    }
}

fn installer() -> ModularInstaller {
    ModularInstaller::new(InstallerConfig {
        modules: vec![
            module("nmap", true, "1"),
            module("hydra", false, "1"),
            module("hydra", true, "2"),
            module("sqlmap", true, "1"),
        ],
        base_path: "/opt/tools".to_string(),
        log_file: "install.log".to_string(),
    })
}

#[test]
fn list_modules_keeps_catalogue_order() {
    let i = installer();
    let names: Vec<&str> = i.list_modules().iter().map(|m| m.name.as_str()).collect();
    assert_eq!(names, vec!["nmap", "hydra", "hydra", "sqlmap"]);
    assert_eq!(i.config().log_file, "install.log");
}

#[test]
fn get_module_finds_first_by_name() {
    let i = installer();
    let m = i.get_module("hydra").unwrap();
    assert!(!m.enabled);
    assert!(i.get_module("john").is_none());
    assert!(i.get_module("NMAP").is_none());
}

#[test]
fn module_to_install_skips_disabled() {
    let i = installer();
    assert_eq!(i.module_to_install("hydra").unwrap().version, "2");
    assert_eq!(i.module_to_install("nmap").unwrap().name, "nmap");
    assert_eq!(i.module_to_install("john").unwrap_err(), InstallError::ModuleUnavailable);
}

#[test]
fn disabled_only_module_is_unavailable() {
    let i = ModularInstaller::new(InstallerConfig {
        modules: vec![module("hydra", false, "1")],
        base_path: String::new(),
        log_file: String::new(),
    });
    assert_eq!(i.module_to_install("hydra").unwrap_err(), InstallError::ModuleUnavailable);
    assert!(i.enabled_modules().is_empty());
}

#[test]
fn enabled_modules_in_order() {
    let i = installer();
    let picked: Vec<(&str, &str)> = i
        .enabled_modules()
        .iter()
        .map(|m| (m.name.as_str(), m.version.as_str()))
        .collect();
    assert_eq!(picked, vec![("nmap", "1"), ("hydra", "2"), ("sqlmap", "1")]);
}

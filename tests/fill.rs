use hyprstash::data::Monitor;
use hyprstash::fill::{decimal_text, validate_fill, Config, FillError, WorkspaceConfig, WorkspaceFill};

fn monitor(id: i128, name: &str, description: &str) -> Monitor {
    Monitor {
        id,
        name: name.to_string(),
        description: description.to_string(),
        focused: id == 0,
        active_workspace: 1,
    }
}

fn monitors() -> Vec<Monitor> {
    vec![
        monitor(0, "eDP-1", "Laptop panel"),
        monitor(2, "DP-3", "Microstep MSI MP275Q PC3M255201432"),
    ]
}

fn entry(id: usize) -> WorkspaceConfig {
    WorkspaceConfig {
        id,
        monitorbyid: None,
        monitorbyname: None,
        monitorbydesc: None,
        commands: None,
    }
}

fn config(workspaces: Vec<WorkspaceConfig>) -> Config {
    Config { defaultcommand: None, workspaces }
}

fn by_id(id: usize, monitor: usize) -> WorkspaceConfig {
    WorkspaceConfig { monitorbyid: Some(monitor), ..entry(id) }
}

fn by_name(id: usize, name: &str) -> WorkspaceConfig {
    WorkspaceConfig { monitorbyname: Some(name.to_string()), ..entry(id) }
}

fn by_desc(id: usize, desc: &str) -> WorkspaceConfig {
    WorkspaceConfig { monitorbydesc: Some(desc.to_string()), ..entry(id) }
}

#[test]
fn fill_resolves_each_kind_of_monitor_reference() {
    let mut named = by_name(2, "eDP-1");
    named.commands = Some(vec!["alacritty".to_string(), "-T".to_string(), "hello".to_string()]);
    let c = config(vec![
        by_id(1, 2),
        named,
        by_desc(3, "Microstep MSI MP275Q PC3M255201432"),
    ]);
    let r = validate_fill(&c, &monitors()).unwrap();
    let pairs: Vec<(i32, i128)> = r.iter().map(|w| (w.id, w.monitor)).collect();
    assert_eq!(pairs, vec![(1, 2), (2, 0), (3, 2)]);
    assert_eq!(r[1].command.as_ref().unwrap().len(), 3);
    assert!(r[0].command.is_none());
}

#[test]
fn fill_prefers_description_over_name_and_id() {
    let mut w = by_desc(4, "Laptop panel");
    w.monitorbyname = Some("DP-3".to_string());
    w.monitorbyid = Some(2);
    let r = validate_fill(&config(vec![w]), &monitors()).unwrap();
    assert_eq!(r[0].monitor, 0);
}

#[test]
fn fill_refuses_empty_command() {
    let mut w = by_id(1, 0);
    w.commands = Some(vec![]);
    // The empty command is reported before the entry without a monitor.
    let c = config(vec![entry(2), w]);
    assert!(matches!(validate_fill(&c, &monitors()), Err(FillError::EmptyCommand)));
}

#[test]
fn fill_refuses_entry_without_monitor() {
    let c = config(vec![by_name(1, "nowhere"), entry(2)]);
    assert!(matches!(validate_fill(&c, &monitors()), Err(FillError::MissingMonitor)));
}

#[test]
fn fill_lists_every_missing_monitor() {
    let c = config(vec![
        by_name(1, "HDMI-9"),
        by_id(2, 0),
        by_id(3, 7),
        by_desc(4, "Unknown screen"),
    ]);
    match validate_fill(&c, &monitors()) {
        Err(FillError::FollowingNotFound(text)) => {
            assert_eq!(text, "Unknown screen, id:7, HDMI-9, ");
        }
        _ => panic!("expected the missing monitors"),
    }
}

#[test]
fn fill_refuses_duplicate_workspaces() {
    let c = config(vec![by_id(1, 0), by_name(5, "DP-3"), by_id(1, 2)]);
    assert!(matches!(validate_fill(&c, &monitors()), Err(FillError::DuplicateWorkspaces)));
}

#[test]
fn fill_of_nothing_is_empty() {
    assert!(validate_fill(&config(vec![]), &monitors()).unwrap().is_empty());
}

#[test]
fn default_command_checks_and_choice() {
    let mut c = config(vec![]);
    assert!(c.check_default_command().is_ok());
    let plain = WorkspaceFill { id: 1, monitor: 0, command: None };
    assert_eq!(c.command_for(&plain), vec!["sinkgui".to_string()]);
    c.defaultcommand = Some(vec!["kitty".to_string()]);
    assert!(c.check_default_command().is_ok());
    assert_eq!(c.command_for(&plain), vec!["kitty".to_string()]);
    let own = WorkspaceFill { id: 2, monitor: 0, command: Some(vec!["foot".to_string()]) };
    assert_eq!(c.command_for(&own), vec!["foot".to_string()]);
    c.defaultcommand = Some(vec![]);
    assert!(matches!(c.check_default_command(), Err(FillError::EmptyCommand)));
}

#[test]
fn decimal_text_digits() {
    assert_eq!(decimal_text(0), "0");
    assert_eq!(decimal_text(7), "7");
    assert_eq!(decimal_text(10), "10");
    assert_eq!(decimal_text(1234567), "1234567");
    assert_eq!(decimal_text(usize::MAX), usize::MAX.to_string());
}

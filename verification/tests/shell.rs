use plato_shell::{Shell, ShellConfig};

fn basic_config() -> ShellConfig {
    ShellConfig {
        loaded_modules: vec!["tick".to_string(), "fleet".to_string(), "puppeteer".to_string()],
        agent_name: "test-agent".to_string(),
        model: "test-model".to_string(),
        max_history: 100,
    }
}

fn empty_config() -> ShellConfig {
    ShellConfig {
        loaded_modules: vec![],
        agent_name: "bare-agent".to_string(),
        model: "bare".to_string(),
        max_history: 50,
    }
}

#[test]
fn new_creates_shell_with_config() {
    let shell = Shell::new(basic_config());
    assert_eq!(shell.current_room().title, "Central Hub");
    assert_eq!(shell.history().len(), 0);
}

#[test]
fn look_describes_current_room() {
    let mut shell = Shell::new(basic_config());
    let resp = shell.process("look");
    assert!(resp.text.contains("Central Hub"));
    assert!(!resp.room_changed);
}

#[test]
fn go_navigates_to_new_room() {
    let mut shell = Shell::new(basic_config());
    let resp = shell.process("go puppeteer");
    assert!(resp.room_changed);
    assert!(resp.new_room.is_some());
    assert_eq!(resp.new_room.unwrap().title, "Puppeteer Chamber");
    assert_eq!(shell.current_room().title, "Puppeteer Chamber");
}

#[test]
fn unknown_command_returns_help_hint() {
    let mut shell = Shell::new(basic_config());
    let resp = shell.process("foobar");
    assert!(resp.text.contains("Unknown command"));
    assert!(resp.text.contains("help"));
}

#[test]
fn help_lists_available_commands() {
    let mut shell = Shell::new(basic_config());
    let resp = shell.process("help");
    assert!(resp.text.contains("look"));
    assert!(resp.text.contains("go"));
    assert!(resp.text.contains("tick"));
    assert!(resp.text.contains("fleet"));
}

#[test]
fn status_returns_system_info() {
    let mut shell = Shell::new(basic_config());
    let resp = shell.process("status");
    assert!(resp.text.contains("test-agent"));
    assert!(resp.text.contains("test-model"));
    assert!(resp.text.contains("Central Hub"));
}

#[test]
fn load_module_adds_module() {
    let mut shell = Shell::new(empty_config());
    assert!(shell.load_module("tick").is_ok());
    let resp = shell.process("tick hello");
    assert!(resp.text.contains("Tick sent"));
}

#[test]
fn unload_module_removes_module() {
    let mut shell = Shell::new(basic_config());
    assert!(shell.has_module("tick"));
    shell.unload_module("tick");
    assert!(!shell.has_module("tick"));
}

#[test]
fn history_tracks_commands() {
    let mut shell = Shell::new(basic_config());
    shell.process("look");
    shell.process("status");
    shell.process("help");
    assert_eq!(shell.history().len(), 3);
    assert_eq!(shell.history()[0], "look");
    assert_eq!(shell.history()[2], "help");
}

#[test]
fn module_specific_commands_delegated() {
    let mut shell = Shell::new(basic_config());
    let resp = shell.process("puppeteer");
    assert!(resp.module_output.is_some());
    assert!(resp.module_output.unwrap().contains("puppeteer"));
}

#[test]
fn tick_command_creates_a_tick() {
    let mut shell = Shell::new(basic_config());
    let resp = shell.process("tick hello world");
    assert!(resp.text.contains("Tick sent"));
    assert!(resp.text.contains("hello world"));
    assert!(resp.events.iter().any(|e| e.contains("tick:")));
}

#[test]
fn fleet_command_shows_fleet_status() {
    let mut shell = Shell::new(basic_config());
    let resp = shell.process("fleet");
    assert!(resp.text.contains("Fleet topology"));
    assert!(resp.module_output.is_some());
}

#[test]
fn shell_works_with_zero_modules() {
    let mut shell = Shell::new(empty_config());
    let resp = shell.process("look");
    assert!(resp.text.contains("Central Hub"));
    let resp = shell.process("help");
    assert!(resp.text.contains("look"));
    // tick should fail gracefully
    let resp = shell.process("tick hi");
    assert!(resp.text.contains("not loaded"));
    // fleet should fail gracefully
    let resp = shell.process("fleet");
    assert!(resp.text.contains("not loaded"));
    // but basic MUD navigation still works
    let resp = shell.process("go puppeteer");
    assert!(resp.room_changed);
}

#[test]
fn examine_specific_object() {
    let mut shell = Shell::new(basic_config());
    let resp = shell.process("examine status terminal");
    assert!(resp.text.contains("status terminal"));
}

#[test]
fn go_back_to_hub() {
    let mut shell = Shell::new(basic_config());
    shell.process("go puppeteer");
    assert_eq!(shell.current_room().title, "Puppeteer Chamber");
    let _resp = shell.process("go hub");
    assert_eq!(shell.current_room().title, "Central Hub");
}

#[test]
fn go_invalid_exit() {
    let mut shell = Shell::new(basic_config());
    let resp = shell.process("go nowhere");
    assert!(resp.text.contains("can't go"));
}

#[test]
fn load_duplicate_module_fails() {
    let mut shell = Shell::new(basic_config());
    assert!(shell.load_module("tick").is_err());
}

#[test]
fn load_unknown_module_fails() {
    let mut shell = Shell::new(empty_config());
    assert!(shell.load_module("nonexistent").is_err());
}

#[test]
fn use_existing_object() {
    let mut shell = Shell::new(basic_config());
    let resp = shell.process("use status terminal");
    assert!(resp.text.contains("status terminal"));
}

#[test]
fn use_nonexistent_object() {
    let mut shell = Shell::new(basic_config());
    let resp = shell.process("use magic wand");
    assert!(resp.text.contains("no 'magic wand'"));
}

#[test]
fn modules_command() {
    let mut shell = Shell::new(basic_config());
    let resp = shell.process("modules");
    assert!(resp.text.contains("tick"));
    assert!(resp.text.contains("fleet"));
}

use plato_shell::{PlatoModule, Shell, ShellConfig, ShellResponse, ShellRoom};

fn config(modules: &[&str], max_history: usize) -> ShellConfig {
    ShellConfig {
        loaded_modules: modules.iter().map(|m| m.to_string()).collect(),
        agent_name: "test-agent".to_string(),
        model: "test-model".to_string(),
        max_history,
    }
}

fn full() -> Shell {
    Shell::new(config(&["tick", "fleet", "puppeteer"], 100))
}

const HUB_TEXT: &str = "📍 Central Hub\nYou stand in the Central Hub of Plato Shell. A soft hum of computation fills the air. Passages lead to various module rooms.\n\nExits: puppeteer, manus, vision\nObjects: status terminal, help crystal\n";

#[test]
fn blank_input_is_answered_and_not_recorded() {
    let mut shell = full();
    let resp = shell.process("   \t\n ");
    assert_eq!(resp.text, "...");
    assert!(!resp.room_changed);
    assert_eq!(shell.history().len(), 0);
    let resp = shell.process("");
    assert_eq!(resp.text, "...");
    assert_eq!(shell.history().len(), 0);
}

#[test]
fn input_is_trimmed_before_recording() {
    let mut shell = full();
    shell.process("   look   ");
    shell.process("\u{3000}status\u{a0}");
    assert_eq!(shell.history(), &["look".to_string(), "status".to_string()]);
}

#[test]
fn history_keeps_only_the_newest_entries() {
    let mut shell = Shell::new(config(&[], 2));
    shell.process("look");
    shell.process("status");
    shell.process("help");
    assert_eq!(shell.history(), &["status".to_string(), "help".to_string()]);
}

#[test]
fn look_text_is_the_room_text() {
    let mut shell = full();
    let resp = shell.process("look");
    assert_eq!(resp.text, HUB_TEXT);
    assert_eq!(shell.current_room().to_string(), HUB_TEXT);
    assert_eq!(resp.events.len(), 0);
    assert!(resp.module_output.is_none());
}

#[test]
fn look_at_missing_object() {
    let mut shell = full();
    let resp = shell.process("look lamp");
    assert_eq!(resp.text, "You don't see 'lamp' here.");
    let resp = shell.process("examine help crystal");
    assert_eq!(resp.text, "You examine the help crystal. It seems ordinary... for now.");
}

#[test]
fn status_text_exact() {
    let mut shell = full();
    let resp = shell.process("status");
    assert_eq!(
        resp.text,
        "🟢 Plato Shell Status\nAgent: test-agent\nModel: test-model\nRoom: Central Hub\nModules: tick, fleet, puppeteer\nHistory: 1 commands\nTicks: 0 pending"
    );
}

#[test]
fn status_counts_in_decimal() {
    let mut shell = Shell::new(config(&["tick"], 100));
    for _ in 0..11 {
        shell.process("tick x");
    }
    let resp = shell.process("status");
    assert!(resp.text.ends_with("Modules: tick\nHistory: 12 commands\nTicks: 11 pending"));
}

#[test]
fn status_without_modules() {
    let mut shell = Shell::new(config(&[], 10));
    let resp = shell.process("status");
    assert!(resp.text.contains("\nModules: none\n"));
}

#[test]
fn help_text_exact() {
    let mut shell = full();
    let resp = shell.process("help");
    assert_eq!(
        resp.text,
        "Available commands:\n  look\n  go <exit>\n  use <object>\n  status\n  help\n  modules\n  tick <message>\n  fleet"
    );
    let bare = Shell::new(config(&[], 10));
    assert_eq!(
        bare.available_commands(),
        vec!["look", "go <exit>", "use <object>", "status", "help", "modules"]
    );
}

#[test]
fn modules_text() {
    let mut shell = full();
    assert_eq!(shell.process("modules").text, "Loaded modules: tick, fleet, puppeteer");
    let mut bare = Shell::new(config(&[], 10));
    assert_eq!(bare.process("modules").text, "No modules loaded. The shell is in basic MUD mode.");
}

#[test]
fn configured_names_create_modules_in_order() {
    let mut shell = Shell::new(config(&["fleet", "bogus", "tick", "tick"], 10));
    assert_eq!(shell.process("modules").text, "Loaded modules: fleet, tick, tick");
    assert!(!shell.has_module("bogus"));
}

#[test]
fn tick_without_message() {
    let mut shell = full();
    let resp = shell.process("tick");
    assert_eq!(resp.text, "⏱️ Tick sent: (no message)");
    assert_eq!(resp.events, vec!["tick:(no message)".to_string()]);
    assert!(resp.module_output.is_none());
}

#[test]
fn tick_message_is_trimmed() {
    let mut shell = full();
    let resp = shell.process("tick    hello world   ");
    assert_eq!(resp.text, "⏱️ Tick sent: hello world");
    assert_eq!(resp.events, vec!["tick:hello world".to_string()]);
    assert!(shell.process("status").text.ends_with("Ticks: 1 pending"));
}

#[test]
fn tick_not_loaded_records_nothing() {
    let mut shell = Shell::new(config(&["fleet"], 10));
    let resp = shell.process("tick hi");
    assert_eq!(resp.text, "Tick module not loaded. Use 'modules' to see what's available.");
    assert!(shell.process("status").text.ends_with("Ticks: 0 pending"));
}

#[test]
fn fleet_text_exact() {
    let mut shell = full();
    let resp = shell.process("fleet");
    assert_eq!(
        resp.text,
        "🚢 Fleet topology:\n└── plato-hub (this node)\n├── puppeteer-agent [idle]\n├── manus-agent [active]\n└── vision-agent [idle]"
    );
    assert_eq!(resp.module_output, Some("fleet:topology".to_string()));
    let mut bare = Shell::new(config(&[], 10));
    assert_eq!(
        bare.process("fleet").text,
        "Fleet module not loaded. Use 'modules' to see what's available."
    );
}

#[test]
fn use_browser_goes_to_puppeteer() {
    let mut shell = full();
    let resp = shell.process("use the browser tab");
    assert_eq!(resp.text, "🎭 Puppeteer: Browser session active.");
    assert_eq!(resp.module_output, Some("puppeteer:active".to_string()));
    let resp = shell.process("use help crystal");
    assert_eq!(resp.text, "You use the help crystal. Nothing happens... yet.");
    let resp = shell.process("use");
    assert_eq!(resp.text, "Use what? Specify an object.");
}

#[test]
fn use_browser_without_puppeteer() {
    let mut shell = Shell::new(config(&["tick"], 10));
    let resp = shell.process("use browser");
    assert_eq!(resp.text, "There is no 'browser' to use here.");
}

#[test]
fn go_to_generic_room() {
    let mut shell = full();
    let resp = shell.process("go    manus   ");
    assert_eq!(resp.text, "You head manus.");
    assert!(resp.room_changed);
    let room = resp.new_room.unwrap();
    assert_eq!(room.title, "manus Chamber");
    assert_eq!(room.description, "A room belonging to the manus module. It's quiet here.");
    assert_eq!(room.exits, vec!["hub".to_string()]);
    assert_eq!(room.module_source, "manus");
    assert_eq!(
        room.to_string(),
        "📍 manus Chamber\nA room belonging to the manus module. It's quiet here.\n\nExits: hub\n[manus]\n"
    );
    assert_eq!(shell.current_room(), &room);
}

#[test]
fn go_puppeteer_without_module_gives_generic_room() {
    let mut shell = Shell::new(config(&[], 10));
    let resp = shell.process("go puppeteer");
    assert_eq!(resp.new_room.unwrap().title, "puppeteer Chamber");
}

#[test]
fn go_errors() {
    let mut shell = full();
    assert_eq!(shell.process("go").text, "Go where? Specify an exit.");
    let resp = shell.process("go nowhere");
    assert_eq!(resp.text, "You can't go 'nowhere'. Try: puppeteer, manus, vision");
    assert!(!resp.room_changed);
    assert_eq!(shell.current_room().title, "Central Hub");
}

#[test]
fn go_hub_from_hub() {
    let mut shell = full();
    let resp = shell.process("go hub");
    assert_eq!(resp.text, "You return to the Central Hub.");
    assert!(resp.room_changed);
    assert_eq!(resp.new_room.unwrap().to_string(), HUB_TEXT);
}

#[test]
fn puppeteer_room_exact() {
    let mut shell = full();
    let resp = shell.process("go puppeteer");
    assert_eq!(resp.text, "You head puppeteer.");
    let room = shell.current_room();
    assert_eq!(room.objects, vec!["browser console".to_string(), "dom inspector".to_string()]);
    assert_eq!(
        room.to_string(),
        "📍 Puppeteer Chamber\nRows of browser windows shimmer in the digital ether. Tabs flicker with activity.\n\nExits: hub\nObjects: browser console, dom inspector\n[puppeteer]\n"
    );
    // the puppeteer chamber has no exit back to itself
    assert!(shell.process("go puppeteer").text.starts_with("You can't go 'puppeteer'"));
}

#[test]
fn unknown_command_text_exact() {
    let mut shell = Shell::new(config(&["tick"], 10));
    assert_eq!(
        shell.process("puppeteer").text,
        "Unknown command 'puppeteer'. Type 'help' for available commands."
    );
}

#[test]
fn load_errors_exact() {
    let mut shell = full();
    assert_eq!(shell.load_module("tick"), Err("module 'tick' already loaded".to_string()));
    assert_eq!(shell.load_module("radar"), Err("unknown module 'radar'".to_string()));
}

#[test]
fn unload_then_load_again() {
    let mut shell = full();
    shell.unload_module("tick");
    assert_eq!(shell.process("modules").text, "Loaded modules: fleet, puppeteer");
    assert!(shell.load_module("tick").is_ok());
    assert_eq!(shell.process("modules").text, "Loaded modules: fleet, puppeteer, tick");
    shell.unload_module("tick");
    assert_eq!(shell.process("modules").text, "Loaded modules: fleet, puppeteer");
}

#[test]
fn unload_removes_every_copy() {
    let mut shell = Shell::new(config(&["tick", "fleet", "tick"], 10));
    shell.unload_module("tick");
    assert!(!shell.has_module("tick"));
    assert!(shell.has_module("fleet"));
    shell.unload_module("nothing");
    assert_eq!(shell.process("modules").text, "Loaded modules: fleet");
}

#[test]
fn room_and_response_builders() {
    let room = ShellRoom::new("Lab", "A lab.");
    assert_eq!(room.title, "Lab");
    assert_eq!(room.description, "A lab.");
    assert!(room.exits.is_empty() && room.objects.is_empty() && room.agents_present.is_empty());
    assert_eq!(room.module_source, "shell");
    assert_eq!(room.to_string(), "📍 Lab\nA lab.\n");
    let mut with_agents = room.clone();
    with_agents.agents_present = vec!["ann".to_string(), "bo".to_string()];
    assert_eq!(with_agents.to_string(), "📍 Lab\nA lab.\nAgents here: ann, bo\n");

    let resp = ShellResponse::simple("hi").with_event("a").with_event("b").with_module_output("m");
    assert_eq!(resp.text, "hi");
    assert!(!resp.room_changed);
    assert_eq!(resp.events, vec!["a".to_string(), "b".to_string()]);
    assert_eq!(resp.module_output, Some("m".to_string()));
    let moved = ShellResponse::with_room("go", room.clone());
    assert!(moved.room_changed);
    assert_eq!(moved.new_room, Some(room));
}

#[test]
fn default_config() {
    let c = ShellConfig::default();
    assert!(c.loaded_modules.is_empty());
    assert_eq!(c.agent_name, "agent");
    assert_eq!(c.model, "default");
    assert_eq!(c.max_history, 1000);
}

#[test]
fn builtin_modules_answer_their_commands() {
    let room = ShellRoom::default_entry();
    let tick = plato_shell::modules::TickModule;
    assert_eq!(tick.name(), "tick");
    assert!(tick.handle_command("fleet", "", &room).is_none());
    assert!(tick.room_for("puppeteer").is_none());
    let pup = plato_shell::modules::PuppeteerModule;
    assert_eq!(pup.room_for("puppeteer").unwrap().title, "Puppeteer Chamber");
    assert!(pup.handle_command("use", "a browsers", &room).is_some());
    assert!(pup.handle_command("use", "brow ser", &room).is_none());
    let fleet = plato_shell::modules::FleetModule;
    assert_eq!(fleet.handle_command("fleet", "x", &room).unwrap().module_output, Some("fleet:topology".to_string()));
}

#[test]
fn readme_quick_start_vision_lab() {
    let mut shell = Shell::new(ShellConfig::default());
    let resp = shell.process("look");
    assert!(resp.text.contains("Central Hub"));
    assert!(resp.text.contains("vision"));
    let resp = shell.process("go vision");
    assert!(resp.room_changed);
    assert_eq!(resp.text, "You head vision.");
    let lab = ShellRoom::new(
        "Vision Lab",
        "Camera feeds stream as text descriptions. Objects detected: person, desk, laptop.",
    );
    assert_eq!(resp.new_room, Some(lab.clone()));
    assert_eq!(shell.current_room(), &lab);
    // the hub is always reachable
    assert_eq!(shell.process("go hub").text, "You return to the Central Hub.");
}

#[test]
fn vision_lab_with_all_modules() {
    let mut shell = full();
    assert_eq!(shell.process("go vision").new_room.unwrap().title, "Vision Lab");
}

#[test]
fn surrounding_white_space_changes_nothing() {
    let mut a = full();
    let mut b = full();
    for (padded, plain) in [(" \t go puppeteer \n", "go puppeteer"), ("\u{2003}tick hi\u{3000}", "tick hi"), (" status ", "status")] {
        assert_eq!(a.process(padded), b.process(plain));
        assert_eq!(a.history(), b.history());
        assert_eq!(a.current_room(), b.current_room());
    }
}

#[test]
fn repeated_spaces_after_command() {
    let mut a = full();
    let mut b = full();
    assert_eq!(a.process("examine    help crystal"), b.process("examine help crystal"));
    assert_eq!(a.process("go  \t manus"), b.process("go manus"));
    assert_eq!(a.current_room(), b.current_room());
    assert_eq!(a.history()[1], "go  \t manus");
    assert_eq!(b.history()[1], "go manus");
}

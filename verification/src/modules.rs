//! The built-in modules and the trait they share.

use vstd::prelude::*;
use vstd::string::*;
use crate::text::{contains_text, str_contains, str_eq};
use crate::room::{RoomModel, ShellRoom, puppeteer_room, make_puppeteer_room, room_opt};
use crate::response::{
    ResponseModel,
    ShellResponse,
    simple_response,
    add_event,
    set_module_output,
    response_opt,
};

verus! {

/// Simple module trait for extensibility.
pub trait PlatoModule {
    /// The module's name, by which it is loaded and unloaded.
    fn name(&self) -> &str;

    /// The module's answer to `command` with `args` in `room`, if it has one.
    fn handle_command(&self, command: &str, args: &str, room: &ShellRoom) -> Option<
        ShellResponse,
    >;

    /// The room the module provides behind `exit`, if any.
    fn room_for(&self, exit: &str) -> Option<ShellRoom>;
}

/// The modules the shell knows how to create.
#[derive(Clone, Copy, Debug, PartialEq, Eq, Structural)]
pub enum ModuleKind {
    Tick,
    Fleet,
    Puppeteer,
}

/// A module's name.
pub open spec fn module_name(m: ModuleKind) -> Seq<char> {
    match m {
        ModuleKind::Tick => "tick"@,
        ModuleKind::Fleet => "fleet"@,
        ModuleKind::Puppeteer => "puppeteer"@,
    }
}

/// The module that `name` creates, if any.
pub open spec fn module_named(name: Seq<char>) -> Option<ModuleKind> {
    if name == "tick"@ {
        Some(ModuleKind::Tick)
    } else if name == "fleet"@ {
        Some(ModuleKind::Fleet)
    } else if name == "puppeteer"@ {
        Some(ModuleKind::Puppeteer)
    } else {
        None
    }
}

/// What a tick carries: its arguments, or "(no message)" where there are none.
pub open spec fn tick_message(args: Seq<char>) -> Seq<char> {
    if args.len() == 0 {
        "(no message)"@
    } else {
        args
    }
}

/// The fleet module's picture of the fleet.
pub open spec fn fleet_topology() -> Seq<char> {
    "🚢 Fleet topology:\n└── plato-hub (this node)\n├── puppeteer-agent [idle]\n├── manus-agent [active]\n└── vision-agent [idle]"@
}

/// The answer of module `m` to `command` with `args`, if it has one.
pub open spec fn module_handle(m: ModuleKind, command: Seq<char>, args: Seq<char>) -> Option<
    ResponseModel,
> {
    match m {
        ModuleKind::Tick => if command == "tick"@ {
            Some(
                add_event(
                    simple_response("⏱️ Tick sent: "@ + tick_message(args)),
                    "tick:"@ + tick_message(args),
                ),
            )
        } else {
            None
        },
        ModuleKind::Fleet => if command == "fleet"@ {
            Some(set_module_output(simple_response(fleet_topology()), "fleet:topology"@))
        } else {
            None
        },
        ModuleKind::Puppeteer => if command == "puppeteer"@ || (command == "use"@ && contains_text(
            args,
            "browser"@,
        )) {
            Some(
                set_module_output(
                    simple_response("🎭 Puppeteer: Browser session active."@),
                    "puppeteer:active"@,
                ),
            )
        } else {
            None
        },
    }
}

/// The room module `m` provides behind `exit`, if any.
pub open spec fn module_room(m: ModuleKind, exit: Seq<char>) -> Option<RoomModel> {
    if m == ModuleKind::Puppeteer && exit == "puppeteer"@ {
        Some(puppeteer_room())
    } else {
        None
    }
}

/// The answer of the first module in `mods` that has one.
pub open spec fn first_handled(mods: Seq<ModuleKind>, command: Seq<char>, args: Seq<char>) -> Option<
    ResponseModel,
>
    decreases mods.len(),
{
    if mods.len() == 0 {
        None
    } else {
        match module_handle(mods[0], command, args) {
            Some(r) => Some(r),
            None => first_handled(mods.drop_first(), command, args),
        }
    }
}

/// The room of the first module in `mods` that provides one behind `exit`.
pub open spec fn first_room(mods: Seq<ModuleKind>, exit: Seq<char>) -> Option<RoomModel>
    decreases mods.len(),
{
    if mods.len() == 0 {
        None
    } else {
        match module_room(mods[0], exit) {
            Some(r) => Some(r),
            None => first_room(mods.drop_first(), exit),
        }
    }
}

/// Sends timed messages to other agents.
#[derive(Debug)]
pub struct TickModule;

/// Reports the fleet of agents.
#[derive(Debug)]
pub struct FleetModule;

/// Drives a browser; provides the Puppeteer Chamber.
#[derive(Debug)]
pub struct PuppeteerModule;

impl PlatoModule for TickModule {
    fn name(&self) -> (r: &str)
        ensures
            r@ == module_name(ModuleKind::Tick),
    {
        "tick"
    }

    fn handle_command(&self, command: &str, args: &str, room: &ShellRoom) -> (r: Option<
        ShellResponse,
    >)
        ensures
            response_opt(r) == module_handle(ModuleKind::Tick, command@, args@),
    {
        if str_eq(command, "tick") {
            let msg = if args.is_empty() {
                "(no message)"
            } else {
                args
            };
            let text = String::from_str("⏱️ Tick sent: ").concat(msg);
            let event = String::from_str("tick:").concat(msg);
            Some(ShellResponse::simple(text.as_str()).with_event(event.as_str()))
        } else {
            None
        }
    }

    fn room_for(&self, exit: &str) -> (r: Option<ShellRoom>)
        ensures
            room_opt(r) == module_room(ModuleKind::Tick, exit@),
    {
        None
    }
}

impl PlatoModule for FleetModule {
    fn name(&self) -> (r: &str)
        ensures
            r@ == module_name(ModuleKind::Fleet),
    {
        "fleet"
    }

    fn handle_command(&self, command: &str, args: &str, room: &ShellRoom) -> (r: Option<
        ShellResponse,
    >)
        ensures
            response_opt(r) == module_handle(ModuleKind::Fleet, command@, args@),
    {
        if str_eq(command, "fleet") {
            Some(
                ShellResponse::simple(
                    "🚢 Fleet topology:\n\
                     └── plato-hub (this node)\n\
                         ├── puppeteer-agent [idle]\n\
                         ├── manus-agent [active]\n\
                         └── vision-agent [idle]",
                ).with_module_output("fleet:topology"),
            )
        } else {
            None
        }
    }

    fn room_for(&self, exit: &str) -> (r: Option<ShellRoom>)
        ensures
            room_opt(r) == module_room(ModuleKind::Fleet, exit@),
    {
        None
    }
}

impl PlatoModule for PuppeteerModule {
    fn name(&self) -> (r: &str)
        ensures
            r@ == module_name(ModuleKind::Puppeteer),
    {
        "puppeteer"
    }

    fn handle_command(&self, command: &str, args: &str, room: &ShellRoom) -> (r: Option<
        ShellResponse,
    >)
        ensures
            response_opt(r) == module_handle(ModuleKind::Puppeteer, command@, args@),
    {
        if str_eq(command, "puppeteer") || (str_eq(command, "use") && str_contains(args, "browser")) {
            Some(
                ShellResponse::simple("🎭 Puppeteer: Browser session active.").with_module_output(
                    "puppeteer:active",
                ),
            )
        } else {
            None
        }
    }

    fn room_for(&self, exit: &str) -> (r: Option<ShellRoom>)
        ensures
            room_opt(r) == module_room(ModuleKind::Puppeteer, exit@),
    {
        if str_eq(exit, "puppeteer") {
            Some(make_puppeteer_room())
        } else {
            None
        }
    }
}

impl PlatoModule for ModuleKind {
    fn name(&self) -> (r: &str)
        ensures
            r@ == module_name(*self),
    {
        match self {
            ModuleKind::Tick => TickModule.name(),
            ModuleKind::Fleet => FleetModule.name(),
            ModuleKind::Puppeteer => PuppeteerModule.name(),
        }
    }

    fn handle_command(&self, command: &str, args: &str, room: &ShellRoom) -> (r: Option<
        ShellResponse,
    >)
        ensures
            response_opt(r) == module_handle(*self, command@, args@),
    {
        match self {
            ModuleKind::Tick => TickModule.handle_command(command, args, room),
            ModuleKind::Fleet => FleetModule.handle_command(command, args, room),
            ModuleKind::Puppeteer => PuppeteerModule.handle_command(command, args, room),
        }
    }

    fn room_for(&self, exit: &str) -> (r: Option<ShellRoom>)
        ensures
            room_opt(r) == module_room(*self, exit@),
    {
        match self {
            ModuleKind::Tick => TickModule.room_for(exit),
            ModuleKind::Fleet => FleetModule.room_for(exit),
            ModuleKind::Puppeteer => PuppeteerModule.room_for(exit),
        }
    }
}

/// The module that `name` creates, if any (`module_named`).
pub fn create_module(name: &str) -> (r: Option<ModuleKind>)
    ensures
        r == module_named(name@),
{
    if str_eq(name, "tick") {
        Some(ModuleKind::Tick)
    } else if str_eq(name, "fleet") {
        Some(ModuleKind::Fleet)
    } else if str_eq(name, "puppeteer") {
        Some(ModuleKind::Puppeteer)
    } else {
        None
    }
}

} // verus!

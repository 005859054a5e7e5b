//! The shell: the agent's home environment, which reads commands and answers them.

use vstd::prelude::*;
use vstd::string::*;
use crate::text::{
    trim,
    trim_str,
    find_char,
    find_char_from,
    join,
    join_strings,
    str_eq,
    strings_contain,
    decimal,
    decimal_string,
};
use crate::room::{
    RoomModel,
    ShellRoom,
    hub_room,
    room_text,
    generic_room,
    generic_room_model,
    vision_lab,
    make_vision_lab,
    room_opt,
};
use crate::response::{
    ResponseModel,
    ShellResponse,
    simple_response,
    room_response,
    response_opt,
};
use crate::config::{ConfigModel, ShellConfig};
use crate::modules::{
    ModuleKind,
    PlatoModule,
    module_name,
    module_named,
    first_handled,
    first_room,
    create_module,
};

verus! {

/// A shell as plain values.
pub struct ShellModel {
    pub config: ConfigModel,
    pub room: RoomModel,
    pub history: Seq<Seq<char>>,
    pub modules: Seq<ModuleKind>,
    pub ticks: Seq<Seq<char>>,
}

/// The main shell: the agent's home environment.
pub struct Shell {
    config: ShellConfig,
    room: ShellRoom,
    history: Vec<String>,
    modules: Vec<ModuleKind>,
    ticks: Vec<String>,
}

impl View for Shell {
    type V = ShellModel;

    closed spec fn view(&self) -> ShellModel {
        ShellModel {
            config: self.config@,
            room: self.room@,
            history: self.history.deep_view(),
            modules: self.modules@,
            ticks: self.ticks.deep_view(),
        }
    }
}

// ---------------------------------------------------------------------------
// What each command does, over plain values
// ---------------------------------------------------------------------------

/// The modules that a list of names creates, in order; names that create none are skipped.
pub open spec fn modules_from(names: Seq<Seq<char>>) -> Seq<ModuleKind>
    decreases names.len(),
{
    if names.len() == 0 {
        Seq::empty()
    } else {
        let rest = modules_from(names.drop_last());
        match module_named(names.last()) {
            Some(m) => rest.push(m),
            None => rest,
        }
    }
}

/// Some module in `mods` is named `name`.
pub open spec fn modules_have(mods: Seq<ModuleKind>, name: Seq<char>) -> bool {
    exists|i: int| 0 <= i < mods.len() && module_name(#[trigger] mods[i]) == name
}

/// The names of `mods`, in order.
pub open spec fn module_names(mods: Seq<ModuleKind>) -> Seq<Seq<char>> {
    mods.map_values(|m: ModuleKind| module_name(m))
}

/// Whether a module other than one named `name` stays on unloading `name`.
pub open spec fn module_stays(name: Seq<char>) -> spec_fn(ModuleKind) -> bool {
    |m: ModuleKind| module_name(m) != name
}

/// Whether a configured name other than `name` stays on unloading `name`.
pub open spec fn name_stays(name: Seq<char>) -> spec_fn(Seq<char>) -> bool {
    |n: Seq<char>| n != name
}

/// The history after recording `entry`: the oldest entry goes first where the
/// history already holds `max` entries or more.
pub open spec fn record_history(history: Seq<Seq<char>>, entry: Seq<char>, max: nat) -> Seq<
    Seq<char>,
> {
    if history.len() >= max {
        history.drop_first().push(entry)
    } else {
        history.push(entry)
    }
}

/// The commands that `help` lists.
pub open spec fn command_list(mods: Seq<ModuleKind>) -> Seq<Seq<char>> {
    seq!["look"@, "go <exit>"@, "use <object>"@, "status"@, "help"@, "modules"@] + (if modules_have(
        mods,
        "tick"@,
    ) {
        seq!["tick <message>"@]
    } else {
        Seq::empty()
    }) + (if modules_have(mods, "fleet"@) {
        seq!["fleet"@]
    } else {
        Seq::empty()
    })
}

/// The command word of a trimmed input: what stands before its first space.
pub open spec fn command_of(t: Seq<char>) -> Seq<char> {
    let i = find_char_from(t, ' ', 0);
    if i >= 0 {
        t.subrange(0, i)
    } else {
        t
    }
}

/// The arguments of a trimmed input: what follows its first space, trimmed.
pub open spec fn args_of(t: Seq<char>) -> Seq<char> {
    let i = find_char_from(t, ' ', 0);
    if i >= 0 {
        trim(t.subrange(i + 1, t.len() as int))
    } else {
        Seq::empty()
    }
}

/// `look` (or `examine`).
pub open spec fn look_response(room: RoomModel, args: Seq<char>) -> ResponseModel {
    if args.len() == 0 {
        simple_response(room_text(room))
    } else if room.objects.contains(args) {
        simple_response("You examine the "@ + args + ". It seems ordinary... for now."@)
    } else {
        simple_response("You don't see '"@ + args + "' here."@)
    }
}

/// `go`: the shell after it and the answer. `hub` always leads back to the hub;
/// another exit of the room leads into the room a loaded module provides behind
/// it, else, for `vision`, into the Vision Lab, else into a generic room.
pub open spec fn go_result(s: ShellModel, args: Seq<char>) -> (ShellModel, ResponseModel) {
    if args.len() == 0 {
        (s, simple_response("Go where? Specify an exit."@))
    } else if args == "hub"@ {
        (ShellModel { room: hub_room(), ..s }, room_response("You return to the Central Hub."@, hub_room()))
    } else if s.room.exits.contains(args) {
        let room = match first_room(s.modules, args) {
            Some(r) => r,
            None => if args == "vision"@ {
                vision_lab()
            } else {
                generic_room_model(args)
            },
        };
        (ShellModel { room, ..s }, room_response("You head "@ + args + "."@, room))
    } else {
        (
            s,
            simple_response(
                "You can't go '"@ + args + "'. Try: "@ + join(s.room.exits, ", "@),
            ),
        )
    }
}

/// `use`.
pub open spec fn use_response(s: ShellModel, args: Seq<char>) -> ResponseModel {
    if args.len() == 0 {
        simple_response("Use what? Specify an object."@)
    } else {
        match first_handled(s.modules, "use"@, args) {
            Some(r) => r,
            None => if s.room.objects.contains(args) {
                simple_response("You use the "@ + args + ". Nothing happens... yet."@)
            } else {
                simple_response("There is no '"@ + args + "' to use here."@)
            },
        }
    }
}

/// `tick`: the shell after it and the answer.
pub open spec fn tick_result(s: ShellModel, args: Seq<char>) -> (ShellModel, ResponseModel) {
    match first_handled(s.modules, "tick"@, args) {
        Some(r) => (ShellModel { ticks: s.ticks.push(args), ..s }, r),
        None => (
            s,
            simple_response("Tick module not loaded. Use 'modules' to see what's available."@),
        ),
    }
}

/// `fleet`.
pub open spec fn fleet_response(mods: Seq<ModuleKind>) -> ResponseModel {
    match first_handled(mods, "fleet"@, Seq::empty()) {
        Some(r) => r,
        None => simple_response(
            "Fleet module not loaded. Use 'modules' to see what's available."@,
        ),
    }
}

/// The loaded modules as `status` lists them.
pub open spec fn modules_summary(mods: Seq<ModuleKind>) -> Seq<char> {
    if mods.len() == 0 {
        "none"@
    } else {
        join(module_names(mods), ", "@)
    }
}

/// `status`.
pub open spec fn status_response(s: ShellModel) -> ResponseModel {
    simple_response(
        "🟢 Plato Shell Status\nAgent: "@ + s.config.agent_name + "\nModel: "@ + s.config.model
            + "\nRoom: "@ + s.room.title + "\nModules: "@ + modules_summary(s.modules)
            + "\nHistory: "@ + decimal(s.history.len()) + " commands\nTicks: "@ + decimal(
            s.ticks.len(),
        ) + " pending"@,
    )
}

/// `help`.
pub open spec fn help_response(mods: Seq<ModuleKind>) -> ResponseModel {
    simple_response("Available commands:\n  "@ + join(command_list(mods), "\n  "@))
}

/// `modules`.
pub open spec fn modules_response(mods: Seq<ModuleKind>) -> ResponseModel {
    if mods.len() == 0 {
        simple_response("No modules loaded. The shell is in basic MUD mode."@)
    } else {
        simple_response("Loaded modules: "@ + join(module_names(mods), ", "@))
    }
}

/// Any other command: the first module that answers it, else a hint.
pub open spec fn delegate_response(mods: Seq<ModuleKind>, command: Seq<char>, args: Seq<char>) -> ResponseModel {
    match first_handled(mods, command, args) {
        Some(r) => r,
        None => simple_response(
            "Unknown command '"@ + command + "'. Type 'help' for available commands."@,
        ),
    }
}

/// A command word with its arguments: the shell after it and the answer.
pub open spec fn dispatch(s: ShellModel, command: Seq<char>, args: Seq<char>) -> (ShellModel, ResponseModel) {
    if command == "look"@ || command == "examine"@ {
        (s, look_response(s.room, args))
    } else if command == "go"@ {
        go_result(s, args)
    } else if command == "use"@ {
        (s, use_response(s, args))
    } else if command == "tick"@ {
        tick_result(s, args)
    } else if command == "status"@ {
        (s, status_response(s))
    } else if command == "fleet"@ {
        (s, fleet_response(s.modules))
    } else if command == "help"@ {
        (s, help_response(s.modules))
    } else if command == "modules"@ {
        (s, modules_response(s.modules))
    } else {
        (s, delegate_response(s.modules, command, args))
    }
}

/// An input line: blank input is answered "..." and leaves the shell as it was;
/// any other is recorded in the history, trimmed, then split at its first space
/// into a command word and (trimmed) arguments and dispatched.
pub open spec fn process_result(s: ShellModel, input: Seq<char>) -> (ShellModel, ResponseModel) {
    let t = trim(input);
    if t.len() == 0 {
        (s, simple_response("..."@))
    } else {
        let recorded = ShellModel {
            history: record_history(s.history, t, s.config.max_history),
            ..s
        };
        dispatch(recorded, command_of(t), args_of(t))
    }
}

/// `load_module`: the shell after it and its outcome, the error's text on failure.
pub open spec fn load_result(s: ShellModel, name: Seq<char>) -> (ShellModel, Result<(), Seq<char>>) {
    if modules_have(s.modules, name) {
        (s, Err("module '"@ + name + "' already loaded"@))
    } else {
        match module_named(name) {
            Some(m) => (
                ShellModel {
                    modules: s.modules.push(m),
                    config: ConfigModel {
                        loaded_modules: if s.config.loaded_modules.contains(name) {
                            s.config.loaded_modules
                        } else {
                            s.config.loaded_modules.push(name)
                        },
                        ..s.config
                    },
                    ..s
                },
                Ok(()),
            ),
            None => (s, Err("unknown module '"@ + name + "'"@)),
        }
    }
}

/// `unload_module`: every module named `name`, and the name itself, leave.
pub open spec fn unload_result(s: ShellModel, name: Seq<char>) -> ShellModel {
    ShellModel {
        modules: s.modules.filter(module_stays(name)),
        config: ConfigModel {
            loaded_modules: s.config.loaded_modules.filter(name_stays(name)),
            ..s.config
        },
        ..s
    }
}

/// A `Result<(), String>` taken by its view.
pub open spec fn outcome(r: Result<(), String>) -> Result<(), Seq<char>> {
    match r {
        Ok(()) => Ok(()),
        Err(e) => Err(e@),
    }
}

impl Shell {
    /// A new shell with the given configuration, standing in the Central Hub,
    /// with the modules that the configured names create.
    pub fn new(config: ShellConfig) -> (r: Self)
        ensures
            r@ == (ShellModel {
                config: config@,
                room: hub_room(),
                history: Seq::empty(),
                modules: modules_from(config@.loaded_modules),
                ticks: Seq::empty(),
            }),
    {
        let ghost names = config@.loaded_modules;
        let mut modules: Vec<ModuleKind> = Vec::new();
        let n = config.loaded_modules.len();
        let mut i: usize = 0;
        while i < n
            invariant
                n == config.loaded_modules.len(),
                names == config@.loaded_modules,
                i <= n,
                modules@ == modules_from(names.take(i as int)),
            decreases n - i,
        {
            assert(names.take(i + 1).drop_last() =~= names.take(i as int));
            assert(names.take(i + 1).last() == config.loaded_modules[i as int]@);
            if let Some(m) = create_module(config.loaded_modules[i].as_str()) {
                modules.push(m);
            }
            i = i + 1;
        }
        assert(names.take(n as int) =~= names);
        let history: Vec<String> = Vec::new();
        let ticks: Vec<String> = Vec::new();
        assert(history.deep_view() =~= Seq::<Seq<char>>::empty());
        assert(ticks.deep_view() =~= Seq::<Seq<char>>::empty());
        Shell { config, room: ShellRoom::default_entry(), history, modules, ticks }
    }

    /// The room the agent stands in.
    pub fn current_room(&self) -> (r: &ShellRoom)
        ensures
            r@ == self@.room,
    {
        &self.room
    }

    /// The commands recorded so far, oldest first.
    pub fn history(&self) -> (r: &[String])
        ensures
            r.deep_view() == self@.history,
    {
        let r = self.history.as_slice();
        assert(r.deep_view() =~= self.history.deep_view());
        r
    }

    /// Whether a module named `name` is loaded.
    pub fn has_module(&self, name: &str) -> (r: bool)
        ensures
            r == modules_have(self@.modules, name@),
    {
        let n = self.modules.len();
        let mut i: usize = 0;
        while i < n
            invariant
                n == self.modules@.len(),
                i <= n,
                forall|k: int| 0 <= k < i ==> module_name(#[trigger] self.modules@[k]) != name@,
            decreases n - i,
        {
            if str_eq(self.modules[i].name(), name) {
                return true;
            }
            i = i + 1;
        }
        false
    }

    /// The commands that `help` lists: the basic ones, then `tick <message>`
    /// and `fleet` where those modules are loaded.
    pub fn available_commands(&self) -> (r: Vec<String>)
        ensures
            r.deep_view() == command_list(self@.modules),
    {
        let mut cmds: Vec<String> = Vec::new();
        cmds.push(String::from_str("look"));
        cmds.push(String::from_str("go <exit>"));
        cmds.push(String::from_str("use <object>"));
        cmds.push(String::from_str("status"));
        cmds.push(String::from_str("help"));
        cmds.push(String::from_str("modules"));
        let ghost basic = cmds.deep_view();
        assert(basic =~= seq!["look"@, "go <exit>"@, "use <object>"@, "status"@, "help"@, "modules"@]);
        let has_tick = self.has_module("tick");
        if has_tick {
            cmds.push(String::from_str("tick <message>"));
        }
        let ghost with_tick = cmds.deep_view();
        assert(with_tick =~= basic + (if has_tick {
            seq!["tick <message>"@]
        } else {
            Seq::empty()
        }));
        let has_fleet = self.has_module("fleet");
        if has_fleet {
            cmds.push(String::from_str("fleet"));
        }
        assert(cmds.deep_view() =~= with_tick + (if has_fleet {
            seq!["fleet"@]
        } else {
            Seq::empty()
        }));
        cmds
    }

    /// The names of the loaded modules, in order.
    fn module_name_list(&self) -> (r: Vec<String>)
        ensures
            r.deep_view() == module_names(self@.modules),
    {
        let mut names: Vec<String> = Vec::new();
        let n = self.modules.len();
        let mut i: usize = 0;
        while i < n
            invariant
                n == self.modules@.len(),
                i <= n,
                names.deep_view() =~= module_names(self@.modules.take(i as int)),
            decreases n - i,
        {
            let ghost before = names.deep_view();
            let nm = String::from_str(self.modules[i].name());
            names.push(nm);
            assert(names.deep_view() =~= before.push(nm@));
            assert(self@.modules.take(i + 1) =~= self@.modules.take(i as int).push(
                self.modules@[i as int],
            ));
            i = i + 1;
        }
        assert(self@.modules.take(n as int) =~= self@.modules);
        names
    }

    /// The answer of the first loaded module that answers `command` with `args`.
    fn first_module_response(&self, command: &str, args: &str) -> (r: Option<ShellResponse>)
        ensures
            response_opt(r) == first_handled(self@.modules, command@, args@),
    {
        let ghost mods = self@.modules;
        let n = self.modules.len();
        let mut i: usize = 0;
        assert(mods.skip(0) =~= mods);
        while i < n
            invariant
                n == mods.len(),
                mods == self@.modules,
                i <= n,
                first_handled(mods, command@, args@) == first_handled(mods.skip(i as int), command@, args@),
            decreases n - i,
        {
            let resp = self.modules[i].handle_command(command, args, &self.room);
            assert(mods.skip(i as int)[0] == mods[i as int]);
            assert(mods.skip(i as int).drop_first() =~= mods.skip(i + 1));
            if resp.is_some() {
                return resp;
            }
            i = i + 1;
        }
        assert(mods.skip(n as int).len() == 0);
        None
    }

    /// The room of the first loaded module that provides one behind `exit`.
    fn first_module_room(&self, exit: &str) -> (r: Option<ShellRoom>)
        ensures
            room_opt(r) == first_room(self@.modules, exit@),
    {
        let ghost mods = self@.modules;
        let n = self.modules.len();
        let mut i: usize = 0;
        assert(mods.skip(0) =~= mods);
        while i < n
            invariant
                n == mods.len(),
                mods == self@.modules,
                i <= n,
                first_room(mods, exit@) == first_room(mods.skip(i as int), exit@),
            decreases n - i,
        {
            let room = self.modules[i].room_for(exit);
            assert(mods.skip(i as int)[0] == mods[i as int]);
            assert(mods.skip(i as int).drop_first() =~= mods.skip(i + 1));
            if room.is_some() {
                return room;
            }
            i = i + 1;
        }
        assert(mods.skip(n as int).len() == 0);
        None
    }
}

impl Shell {
    fn cmd_look(&self, args: &str) -> (r: ShellResponse)
        ensures
            r@ == look_response(self@.room, args@),
    {
        if args.is_empty() {
            let text = self.room.to_string();
            ShellResponse::simple(text.as_str())
        } else if strings_contain(&self.room.objects, args) {
            let text = String::from_str("You examine the ").concat(args).concat(
                ". It seems ordinary... for now.",
            );
            ShellResponse::simple(text.as_str())
        } else {
            let text = String::from_str("You don't see '").concat(args).concat("' here.");
            ShellResponse::simple(text.as_str())
        }
    }

    fn cmd_go(&mut self, args: &str) -> (r: ShellResponse)
        ensures
            (final(self)@, r@) == go_result(old(self)@, args@),
    {
        if args.is_empty() {
            return ShellResponse::simple("Go where? Specify an exit.");
        }
        if str_eq(args, "hub") {
            let hub = ShellRoom::default_entry();
            self.room = hub.duplicate();
            return ShellResponse::with_room("You return to the Central Hub.", hub);
        }
        if strings_contain(&self.room.exits, args) {
            let text = String::from_str("You head ").concat(args).concat(".");
            let room = match self.first_module_room(args) {
                Some(room) => room,
                None => if str_eq(args, "vision") {
                    make_vision_lab()
                } else {
                    generic_room(args)
                },
            };
            self.room = room.duplicate();
            return ShellResponse::with_room(text.as_str(), room);
        }
        let exits = join_strings(&self.room.exits, ", ");
        let text = String::from_str("You can't go '").concat(args).concat("'. Try: ").concat(
            exits.as_str(),
        );
        ShellResponse::simple(text.as_str())
    }

    fn cmd_use(&self, args: &str) -> (r: ShellResponse)
        ensures
            r@ == use_response(self@, args@),
    {
        if args.is_empty() {
            return ShellResponse::simple("Use what? Specify an object.");
        }
        match self.first_module_response("use", args) {
            Some(resp) => resp,
            None => if strings_contain(&self.room.objects, args) {
                let text = String::from_str("You use the ").concat(args).concat(
                    ". Nothing happens... yet.",
                );
                ShellResponse::simple(text.as_str())
            } else {
                let text = String::from_str("There is no '").concat(args).concat(
                    "' to use here.",
                );
                ShellResponse::simple(text.as_str())
            },
        }
    }

    fn cmd_tick(&mut self, args: &str) -> (r: ShellResponse)
        ensures
            (final(self)@, r@) == tick_result(old(self)@, args@),
    {
        match self.first_module_response("tick", args) {
            Some(resp) => {
                let ghost before = self.ticks.deep_view();
                self.ticks.push(String::from_str(args));
                assert(self.ticks.deep_view() =~= before.push(args@));
                resp
            },
            None => ShellResponse::simple(
                "Tick module not loaded. Use 'modules' to see what's available.",
            ),
        }
    }

    fn cmd_fleet(&self) -> (r: ShellResponse)
        ensures
            r@ == fleet_response(self@.modules),
    {
        let none = "";
        proof {
            reveal_strlit("");
        }
        assert(none@ =~= Seq::<char>::empty());
        match self.first_module_response("fleet", none) {
            Some(resp) => resp,
            None => ShellResponse::simple(
                "Fleet module not loaded. Use 'modules' to see what's available.",
            ),
        }
    }

    fn cmd_status(&self) -> (r: ShellResponse)
        ensures
            r@ == status_response(self@),
    {
        let modules = if self.modules.len() == 0 {
            String::from_str("none")
        } else {
            let names = self.module_name_list();
            join_strings(&names, ", ")
        };
        let history = decimal_string(self.history.len());
        let ticks = decimal_string(self.ticks.len());
        let text = String::from_str("🟢 Plato Shell Status\nAgent: ").concat(
            self.config.agent_name.as_str(),
        ).concat("\nModel: ").concat(self.config.model.as_str()).concat("\nRoom: ").concat(
            self.room.title.as_str(),
        ).concat("\nModules: ").concat(modules.as_str()).concat("\nHistory: ").concat(
            history.as_str(),
        ).concat(" commands\nTicks: ").concat(ticks.as_str()).concat(" pending");
        ShellResponse::simple(text.as_str())
    }

    fn cmd_help(&self) -> (r: ShellResponse)
        ensures
            r@ == help_response(self@.modules),
    {
        let cmds = self.available_commands();
        let listed = join_strings(&cmds, "\n  ");
        let text = String::from_str("Available commands:\n  ").concat(listed.as_str());
        ShellResponse::simple(text.as_str())
    }

    fn cmd_modules(&self) -> (r: ShellResponse)
        ensures
            r@ == modules_response(self@.modules),
    {
        if self.modules.len() == 0 {
            return ShellResponse::simple("No modules loaded. The shell is in basic MUD mode.");
        }
        let names = self.module_name_list();
        let listed = join_strings(&names, ", ");
        let text = String::from_str("Loaded modules: ").concat(listed.as_str());
        ShellResponse::simple(text.as_str())
    }

    fn cmd_delegate(&self, command: &str, args: &str) -> (r: ShellResponse)
        ensures
            r@ == delegate_response(self@.modules, command@, args@),
    {
        match self.first_module_response(command, args) {
            Some(resp) => resp,
            None => {
                let text = String::from_str("Unknown command '").concat(command).concat(
                    "'. Type 'help' for available commands.",
                );
                ShellResponse::simple(text.as_str())
            },
        }
    }
}

impl Shell {
    /// Records `entry`, dropping the oldest entry first where the history is full.
    fn push_history(&mut self, entry: String)
        requires
            old(self)@.config.max_history > 0,
        ensures
            final(self)@ == (ShellModel {
                history: record_history(old(self)@.history, entry@, old(self)@.config.max_history),
                ..old(self)@
            }),
    {
        let ghost before = self.history.deep_view();
        if self.history.len() >= self.config.max_history {
            self.history.remove(0);
            assert(self.history.deep_view() =~= before.drop_first());
        }
        let ghost mid = self.history.deep_view();
        self.history.push(entry);
        assert(self.history.deep_view() =~= mid.push(entry@));
    }

    /// Answers one input line (`process_result`).
    pub fn process(&mut self, input: &str) -> (r: ShellResponse)
        requires
            old(self)@.config.max_history > 0 || trim(input@).len() == 0,
        ensures
            (final(self)@, r@) == process_result(old(self)@, input@),
    {
        let trimmed = trim_str(input);
        if trimmed.is_empty() {
            return ShellResponse::simple("...");
        }
        self.push_history(String::from_str(trimmed));
        let n = trimmed.unicode_len();
        let (command, args) = match find_char(trimmed, ' ') {
            Some(i) => (trimmed.substring_char(0, i), trim_str(trimmed.substring_char(i + 1, n))),
            None => {
                let none = "";
                proof {
                    reveal_strlit("");
                }
                assert(none@ =~= Seq::<char>::empty());
                (trimmed, none)
            },
        };
        if str_eq(command, "look") || str_eq(command, "examine") {
            self.cmd_look(args)
        } else if str_eq(command, "go") {
            self.cmd_go(args)
        } else if str_eq(command, "use") {
            self.cmd_use(args)
        } else if str_eq(command, "tick") {
            self.cmd_tick(args)
        } else if str_eq(command, "status") {
            self.cmd_status()
        } else if str_eq(command, "fleet") {
            self.cmd_fleet()
        } else if str_eq(command, "help") {
            self.cmd_help()
        } else if str_eq(command, "modules") {
            self.cmd_modules()
        } else {
            self.cmd_delegate(command, args)
        }
    }

    /// Loads the module named `name` (`load_result`): refused where one of that
    /// name is loaded already or where no module has that name.
    pub fn load_module(&mut self, name: &str) -> (r: Result<(), String>)
        ensures
            (final(self)@, outcome(r)) == load_result(old(self)@, name@),
    {
        if self.has_module(name) {
            let e = String::from_str("module '").concat(name).concat("' already loaded");
            return Err(e);
        }
        match create_module(name) {
            Some(m) => {
                self.modules.push(m);
                if !strings_contain(&self.config.loaded_modules, name) {
                    let ghost before = self.config.loaded_modules.deep_view();
                    self.config.loaded_modules.push(String::from_str(name));
                    assert(self.config.loaded_modules.deep_view() =~= before.push(name@));
                }
                Ok(())
            },
            None => {
                let e = String::from_str("unknown module '").concat(name).concat("'");
                Err(e)
            },
        }
    }

    /// Unloads every module named `name`, and drops `name` from the configured modules.
    pub fn unload_module(&mut self, name: &str)
        ensures
            final(self)@ == unload_result(old(self)@, name@),
    {
        let ghost mods = self.modules@;
        let mut kept: Vec<ModuleKind> = Vec::new();
        let n = self.modules.len();
        let mut i: usize = 0;
        while i < n
            invariant
                n == mods.len(),
                mods == self.modules@,
                i <= n,
                kept@ == mods.take(i as int).filter(module_stays(name@)),
            decreases n - i,
        {
            proof {
                reveal_with_fuel(Seq::<ModuleKind>::filter, 1);
                assert(mods.take(i + 1).drop_last() =~= mods.take(i as int));
            }
            let m = self.modules[i];
            if !str_eq(m.name(), name) {
                kept.push(m);
            }
            i = i + 1;
        }
        assert(mods.take(n as int) =~= mods);
        self.modules = kept;
        let ghost names = self.config.loaded_modules.deep_view();
        let mut kept_names: Vec<String> = Vec::new();
        let k = self.config.loaded_modules.len();
        let mut j: usize = 0;
        while j < k
            invariant
                k == names.len(),
                names == self.config.loaded_modules.deep_view(),
                j <= k,
                kept_names.deep_view() == names.take(j as int).filter(name_stays(name@)),
            decreases k - j,
        {
            proof {
                reveal_with_fuel(Seq::<Seq<char>>::filter, 1);
                assert(names.take(j + 1).drop_last() =~= names.take(j as int));
            }
            if !str_eq(self.config.loaded_modules[j].as_str(), name) {
                let ghost before = kept_names.deep_view();
                let c = self.config.loaded_modules[j].clone();
                kept_names.push(c);
                assert(kept_names.deep_view() =~= before.push(c@));
            }
            j = j + 1;
        }
        assert(names.take(k as int) =~= names);
        self.config.loaded_modules = kept_names;
    }
}

} // verus!

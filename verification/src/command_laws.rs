//! What each command is for, stated over the shell before and after a call.

use vstd::prelude::*;
use crate::text::trim;
use crate::room::{room_text, generic_room_model, vision_lab};
use crate::response::simple_response;
use crate::modules::{ModuleKind, module_name, module_room, module_handle, first_handled, first_room};
use crate::shell::{
    ShellModel,
    process_result,
    dispatch,
    tick_result,
    record_history,
    command_of,
    args_of,
    command_list,
    modules_have,
};

verus! {

/// The first module in load order that provides a room behind `exit` is the one asked.
pub proof fn lemma_first_room_is_first(mods: Seq<ModuleKind>, exit: Seq<char>, i: int)
    requires
        0 <= i < mods.len(),
        module_room(mods[i], exit) is Some,
        forall|j: int| 0 <= j < i ==> module_room(#[trigger] mods[j], exit) is None,
    ensures
        first_room(mods, exit) == module_room(mods[i], exit),
    decreases i,
{
    if i > 0 {
        assert(module_room(mods[0], exit) is None);
        let rest = mods.drop_first();
        assert forall|j: int| 0 <= j < i - 1 implies module_room(#[trigger] rest[j], exit) is None by {
            assert(rest[j] == mods[j + 1]);
        }
        assert(rest[i - 1] == mods[i]);
        lemma_first_room_is_first(rest, exit, i - 1);
    }
}

/// Where no module provides a room behind `exit`, none is taken.
pub proof fn lemma_first_room_none(mods: Seq<ModuleKind>, exit: Seq<char>)
    requires
        forall|j: int| 0 <= j < mods.len() ==> module_room(#[trigger] mods[j], exit) is None,
    ensures
        first_room(mods, exit) is None,
    decreases mods.len(),
{
    if mods.len() > 0 {
        assert(module_room(mods[0], exit) is None);
        let rest = mods.drop_first();
        assert forall|j: int| 0 <= j < rest.len() implies module_room(#[trigger] rest[j], exit) is None by {
            assert(rest[j] == mods[j + 1]);
        }
        lemma_first_room_none(rest, exit);
    }
}

/// The first module in load order that answers a command is the one that answers.
pub proof fn lemma_first_handled_is_first(mods: Seq<ModuleKind>, command: Seq<char>, args: Seq<char>, i: int)
    requires
        0 <= i < mods.len(),
        module_handle(mods[i], command, args) is Some,
        forall|j: int| 0 <= j < i ==> module_handle(#[trigger] mods[j], command, args) is None,
    ensures
        first_handled(mods, command, args) == module_handle(mods[i], command, args),
    decreases i,
{
    if i > 0 {
        assert(module_handle(mods[0], command, args) is None);
        let rest = mods.drop_first();
        assert forall|j: int| 0 <= j < i - 1 implies module_handle(#[trigger] rest[j], command, args) is None by {
            assert(rest[j] == mods[j + 1]);
        }
        assert(rest[i - 1] == mods[i]);
        lemma_first_handled_is_first(rest, command, args, i - 1);
    }
}

/// Where no module answers a command, none answers.
pub proof fn lemma_first_handled_none(mods: Seq<ModuleKind>, command: Seq<char>, args: Seq<char>)
    requires
        forall|j: int| 0 <= j < mods.len() ==> module_handle(#[trigger] mods[j], command, args) is None,
    ensures
        first_handled(mods, command, args) is None,
    decreases mods.len(),
{
    if mods.len() > 0 {
        assert(module_handle(mods[0], command, args) is None);
        let rest = mods.drop_first();
        assert forall|j: int| 0 <= j < rest.len() implies module_handle(#[trigger] rest[j], command, args) is None by {
            assert(rest[j] == mods[j + 1]);
        }
        lemma_first_handled_none(rest, command, args);
    }
}

/// `go` through an exit of the current room (other than `hub`) enters the room
/// of the first loaded module, in load order, that provides one behind that exit,
/// and answers with that room.
pub proof fn law_go_enters_first_module_room(s: ShellModel, input: Seq<char>, i: int)
    requires
        trim(input).len() > 0,
        command_of(trim(input)) == "go"@,
        args_of(trim(input)) != "hub"@,
        args_of(trim(input)).len() > 0,
        s.room.exits.contains(args_of(trim(input))),
        0 <= i < s.modules.len(),
        module_room(s.modules[i], args_of(trim(input))) is Some,
        forall|j: int| 0 <= j < i ==> module_room(#[trigger] s.modules[j], args_of(trim(input))) is None,
    ensures
        process_result(s, input).0.room == module_room(s.modules[i], args_of(trim(input)))->0,
        process_result(s, input).1.room_changed,
        process_result(s, input).1.new_room == module_room(s.modules[i], args_of(trim(input))),
{
    reveal_strlit("look");
    reveal_strlit("examine");
    reveal_strlit("go");
    reveal_strlit("use");
    reveal_strlit("tick");
    reveal_strlit("status");
    reveal_strlit("hub");
    let e = args_of(trim(input));
    lemma_first_room_is_first(s.modules, e, i);
}

/// `go` through an exit of the current room (other than `hub`) that no loaded
/// module provides a room behind enters the Vision Lab for `vision`, and the
/// generic room of that exit otherwise.
pub proof fn law_go_without_module_room(s: ShellModel, input: Seq<char>)
    requires
        trim(input).len() > 0,
        command_of(trim(input)) == "go"@,
        args_of(trim(input)) != "hub"@,
        s.room.exits.contains(args_of(trim(input))),
        args_of(trim(input)).len() > 0,
        forall|j: int| 0 <= j < s.modules.len() ==> module_room(#[trigger] s.modules[j], args_of(trim(input))) is None,
    ensures
        process_result(s, input).0.room == (if args_of(trim(input)) == "vision"@ {
            vision_lab()
        } else {
            generic_room_model(args_of(trim(input)))
        }),
        process_result(s, input).1.new_room == Some(process_result(s, input).0.room),
{
    reveal_strlit("look");
    reveal_strlit("examine");
    reveal_strlit("go");
    reveal_strlit("use");
    reveal_strlit("tick");
    reveal_strlit("status");
    reveal_strlit("hub");
    lemma_first_room_none(s.modules, args_of(trim(input)));
}

/// `use` with arguments: where a loaded module answers, the first such module in
/// load order gives the answer, whatever objects the room holds; only where none
/// answers do the room's objects decide.
pub proof fn law_use_asks_modules_first(s: ShellModel, input: Seq<char>, i: int)
    requires
        trim(input).len() > 0,
        command_of(trim(input)) == "use"@,
        args_of(trim(input)).len() > 0,
        0 <= i < s.modules.len(),
        module_handle(s.modules[i], "use"@, args_of(trim(input))) is Some,
        forall|j: int| 0 <= j < i ==> module_handle(#[trigger] s.modules[j], "use"@, args_of(trim(input))) is None,
    ensures
        process_result(s, input).1 == module_handle(s.modules[i], "use"@, args_of(trim(input)))->0,
        process_result(s, input).0.room == s.room,
{
    reveal_strlit("look");
    reveal_strlit("examine");
    reveal_strlit("go");
    reveal_strlit("use");
    reveal_strlit("tick");
    reveal_strlit("status");
    reveal_strlit("hub");
    lemma_first_handled_is_first(s.modules, "use"@, args_of(trim(input)), i);
}

/// `use` with arguments that no loaded module answers: the room's object of that
/// name is used where there is one, else there is nothing to use.
pub proof fn law_use_room_objects(s: ShellModel, input: Seq<char>)
    requires
        trim(input).len() > 0,
        command_of(trim(input)) == "use"@,
        args_of(trim(input)).len() > 0,
        forall|j: int| 0 <= j < s.modules.len() ==> module_handle(#[trigger] s.modules[j], "use"@, args_of(trim(input))) is None,
    ensures
        process_result(s, input).1 == simple_response(if s.room.objects.contains(args_of(trim(input))) {
            "You use the "@ + args_of(trim(input)) + ". Nothing happens... yet."@
        } else {
            "There is no '"@ + args_of(trim(input)) + "' to use here."@
        }),
{
    reveal_strlit("look");
    reveal_strlit("examine");
    reveal_strlit("go");
    reveal_strlit("use");
    reveal_strlit("tick");
    reveal_strlit("status");
    reveal_strlit("hub");
    lemma_first_handled_none(s.modules, "use"@, args_of(trim(input)));
}

/// `look` (or `examine`) without arguments reads out the room the shell stands in,
/// and leaves it there.
pub proof fn law_look_reads_current_room(s: ShellModel, input: Seq<char>)
    requires
        trim(input).len() > 0,
        command_of(trim(input)) == "look"@ || command_of(trim(input)) == "examine"@,
        args_of(trim(input)).len() == 0,
    ensures
        process_result(s, input).1 == simple_response(room_text(s.room)),
        process_result(s, input).0.room == s.room,
{
}

/// After any command, `look` reads out the room that command left the agent in;
/// where the command's answer carried a room, that is the room read out.
pub proof fn law_look_after_command(s: ShellModel, first: Seq<char>, look: Seq<char>)
    requires
        trim(look).len() > 0,
        command_of(trim(look)) == "look"@,
        args_of(trim(look)).len() == 0,
    ensures
        process_result(process_result(s, first).0, look).1.text == room_text(process_result(s, first).0.room),
        process_result(s, first).1.new_room matches Some(r) ==> process_result(
            process_result(s, first).0,
            look,
        ).1.text == room_text(r),
{
    crate::laws::law_answer_reports_room(s, first);
    law_look_reads_current_room(process_result(s, first).0, look);
}

/// `status` names the agent, the model and the title of the room the shell stands
/// in, in that order, before the list of modules.
pub proof fn law_status_names_current_room(s: ShellModel, input: Seq<char>)
    requires
        trim(input).len() > 0,
        command_of(trim(input)) == "status"@,
    ensures
        exists|rest: Seq<char>|
            process_result(s, input).1.text == "🟢 Plato Shell Status\nAgent: "@ + s.config.agent_name
                + "\nModel: "@ + s.config.model + "\nRoom: "@ + s.room.title + "\nModules: "@ + rest,
        process_result(s, input).0.room == s.room,
{
    reveal_strlit("look");
    reveal_strlit("examine");
    reveal_strlit("go");
    reveal_strlit("use");
    reveal_strlit("tick");
    reveal_strlit("status");
    reveal_strlit("hub");
    let t = process_result(s, input).1.text;
    let head = "🟢 Plato Shell Status\nAgent: "@ + s.config.agent_name + "\nModel: "@ + s.config.model
        + "\nRoom: "@ + s.room.title + "\nModules: "@;
    let rest = t.subrange(head.len() as int, t.len() as int);
    assert(t =~= head + rest);
}

/// The listed commands always hold the basic ones; they hold `tick <message>`
/// exactly when a tick module is loaded, and `fleet` exactly when a fleet module
/// is loaded, each whatever else is loaded.
pub proof fn law_commands_follow_modules(mods: Seq<ModuleKind>)
    ensures
        command_list(mods).contains("look"@),
        command_list(mods).contains("go <exit>"@),
        command_list(mods).contains("use <object>"@),
        command_list(mods).contains("status"@),
        command_list(mods).contains("help"@),
        command_list(mods).contains("modules"@),
        command_list(mods).contains("tick <message>"@) <==> mods.contains(ModuleKind::Tick),
        command_list(mods).contains("fleet"@) <==> mods.contains(ModuleKind::Fleet),
{
    reveal_strlit("look");
    reveal_strlit("go <exit>");
    reveal_strlit("use <object>");
    reveal_strlit("status");
    reveal_strlit("help");
    reveal_strlit("modules");
    reveal_strlit("tick <message>");
    reveal_strlit("fleet");
    reveal_strlit("tick");
    reveal_strlit("puppeteer");
    let l = command_list(mods);
    assert(l[0] == "look"@);
    assert(l[1] == "go <exit>"@);
    assert(l[2] == "use <object>"@);
    assert(l[3] == "status"@);
    assert(l[4] == "help"@);
    assert(l[5] == "modules"@);
    // a module is named "tick" exactly when it is the tick module, likewise for fleet
    assert(modules_have(mods, "tick"@) <==> mods.contains(ModuleKind::Tick)) by {
        if modules_have(mods, "tick"@) {
            let k = choose|k: int| 0 <= k < mods.len() && module_name(#[trigger] mods[k]) == "tick"@;
            assert("fleet"@.len() != "tick"@.len());
            assert("puppeteer"@.len() != "tick"@.len());
            assert(mods[k] == ModuleKind::Tick);
        }
        if mods.contains(ModuleKind::Tick) {
            let k = choose|k: int| 0 <= k < mods.len() && mods[k] == ModuleKind::Tick;
            assert(module_name(mods[k]) == "tick"@);
        }
    }
    assert(modules_have(mods, "fleet"@) <==> mods.contains(ModuleKind::Fleet)) by {
        if modules_have(mods, "fleet"@) {
            let k = choose|k: int| 0 <= k < mods.len() && module_name(#[trigger] mods[k]) == "fleet"@;
            assert("fleet"@.len() != "tick"@.len());
            assert("puppeteer"@.len() != "fleet"@.len());
            assert(mods[k] == ModuleKind::Fleet);
        }
        if mods.contains(ModuleKind::Fleet) {
            let k = choose|k: int| 0 <= k < mods.len() && mods[k] == ModuleKind::Fleet;
            assert(module_name(mods[k]) == "fleet"@);
        }
    }
    if mods.contains(ModuleKind::Tick) {
        assert(l[6] == "tick <message>"@);
    }
    if mods.contains(ModuleKind::Fleet) {
        assert(l[l.len() - 1] == "fleet"@);
    }
    if l.contains("tick <message>"@) {
        let k = choose|k: int| 0 <= k < l.len() && l[k] == "tick <message>"@;
        if !mods.contains(ModuleKind::Tick) {
            assert(l[k].len() != "tick <message>"@.len());
        }
    }
    if l.contains("fleet"@) {
        let k = choose|k: int| 0 <= k < l.len() && l[k] == "fleet"@;
        if !mods.contains(ModuleKind::Fleet) {
            assert(l[k].len() != "fleet"@.len());
        }
    }
}

/// `tick` that a loaded module answers: the first such module, in load order,
/// gives the answer, and the tick (the command's arguments) is kept.
pub proof fn law_tick_sent_by_first_module(s: ShellModel, input: Seq<char>, i: int)
    requires
        trim(input).len() > 0,
        command_of(trim(input)) == "tick"@,
        0 <= i < s.modules.len(),
        module_handle(s.modules[i], "tick"@, args_of(trim(input))) is Some,
        forall|j: int| 0 <= j < i ==> module_handle(#[trigger] s.modules[j], "tick"@, args_of(trim(input))) is None,
    ensures
        process_result(s, input).1 == module_handle(s.modules[i], "tick"@, args_of(trim(input)))->0,
        process_result(s, input).0.ticks == s.ticks.push(args_of(trim(input))),
        process_result(s, input).0.room == s.room,
{
    reveal_strlit("look");
    reveal_strlit("examine");
    reveal_strlit("go");
    reveal_strlit("use");
    reveal_strlit("tick");
    let t = trim(input);
    let a = args_of(t);
    let rec = ShellModel { history: record_history(s.history, t, s.config.max_history), ..s };
    assert(process_result(s, input) == dispatch(rec, "tick"@, a));
    assert("tick"@[0] != "look"@[0]);
    assert(dispatch(rec, "tick"@, a) == tick_result(rec, a));
    lemma_first_handled_is_first(s.modules, "tick"@, args_of(trim(input)), i);
}

/// `tick` that no loaded module answers: the shell says the tick module is not
/// loaded, and keeps no tick.
pub proof fn law_tick_without_module(s: ShellModel, input: Seq<char>)
    requires
        trim(input).len() > 0,
        command_of(trim(input)) == "tick"@,
        forall|j: int| 0 <= j < s.modules.len() ==> module_handle(#[trigger] s.modules[j], "tick"@, args_of(trim(input))) is None,
    ensures
        process_result(s, input).1 == simple_response(
            "Tick module not loaded. Use 'modules' to see what's available."@,
        ),
        process_result(s, input).0.ticks == s.ticks,
        process_result(s, input).0.room == s.room,
{
    reveal_strlit("look");
    reveal_strlit("examine");
    reveal_strlit("go");
    reveal_strlit("use");
    reveal_strlit("tick");
    let t = trim(input);
    let a = args_of(t);
    let rec = ShellModel { history: record_history(s.history, t, s.config.max_history), ..s };
    assert(process_result(s, input) == dispatch(rec, "tick"@, a));
    assert("tick"@[0] != "look"@[0]);
    assert(dispatch(rec, "tick"@, a) == tick_result(rec, a));
    lemma_first_handled_none(s.modules, "tick"@, args_of(trim(input)));
}

/// A command word the shell does not know itself is answered by the first loaded
/// module, in load order, that answers it; where none does, by a hint naming the
/// command and `help`.
pub proof fn law_other_commands_go_to_modules(s: ShellModel, input: Seq<char>)
    requires
        trim(input).len() > 0,
        command_of(trim(input)) != "look"@,
        command_of(trim(input)) != "examine"@,
        command_of(trim(input)) != "go"@,
        command_of(trim(input)) != "use"@,
        command_of(trim(input)) != "tick"@,
        command_of(trim(input)) != "status"@,
        command_of(trim(input)) != "fleet"@,
        command_of(trim(input)) != "help"@,
        command_of(trim(input)) != "modules"@,
    ensures
        forall|i: int|
            #![trigger s.modules[i]]
            0 <= i < s.modules.len() && module_handle(s.modules[i], command_of(trim(input)), args_of(trim(input))) is Some
                && (forall|j: int| 0 <= j < i ==> module_handle(#[trigger] s.modules[j], command_of(trim(input)), args_of(trim(input))) is None)
                ==> process_result(s, input).1 == module_handle(s.modules[i], command_of(trim(input)), args_of(trim(input)))->0,
        (forall|i: int| 0 <= i < s.modules.len() ==> module_handle(#[trigger] s.modules[i], command_of(trim(input)), args_of(trim(input))) is None)
            ==> process_result(s, input).1 == simple_response(
            "Unknown command '"@ + command_of(trim(input)) + "'. Type 'help' for available commands."@,
        ),
        process_result(s, input).0.room == s.room,
        process_result(s, input).0.ticks == s.ticks,
{
    let c = command_of(trim(input));
    let a = args_of(trim(input));
    if forall|i: int| 0 <= i < s.modules.len() ==> module_handle(#[trigger] s.modules[i], c, a) is None {
        lemma_first_handled_none(s.modules, c, a);
    }
    assert forall|i: int|
        #![trigger s.modules[i]]
        0 <= i < s.modules.len() && module_handle(s.modules[i], c, a) is Some
            && (forall|j: int| 0 <= j < i ==> module_handle(#[trigger] s.modules[j], c, a) is None)
        implies process_result(s, input).1 == module_handle(s.modules[i], c, a)->0 by {
        lemma_first_handled_is_first(s.modules, c, a, i);
    }
}

} // verus!

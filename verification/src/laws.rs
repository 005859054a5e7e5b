//! Properties of the shell that span commands and calls.

use vstd::prelude::*;
use crate::text::{
    trim,
    is_white_space,
    all_white,
    find_char_from,
    lemma_trim_around,
    lemma_trim_keeps_trimmed,
    lemma_find_after_prefix,
    lemma_skip_white_bounds,
    lemma_trim_end_bounds,
};
use crate::room::{hub_room, vision_lab};
use crate::response::{simple_response, room_response};
use crate::modules::{ModuleKind, module_name, module_named, first_handled, first_room};
use crate::shell::{
    ShellModel,
    process_result,
    dispatch,
    command_of,
    args_of,
    load_result,
    unload_result,
    modules_have,
    modules_from,
    module_stays,
    record_history,
};

verus! {

/// No module answer moves the agent.
pub proof fn lemma_module_answers_stay(mods: Seq<ModuleKind>, command: Seq<char>, args: Seq<char>)
    ensures
        first_handled(mods, command, args) matches Some(r) ==> !r.room_changed && r.new_room
            is None,
    decreases mods.len(),
{
    if mods.len() > 0 {
        lemma_module_answers_stay(mods.drop_first(), command, args);
    }
}

/// A command changes neither the configuration, the loaded modules nor the history.
pub proof fn lemma_dispatch_keeps(s: ShellModel, command: Seq<char>, args: Seq<char>)
    ensures
        dispatch(s, command, args).0.config == s.config,
        dispatch(s, command, args).0.modules == s.modules,
        dispatch(s, command, args).0.history == s.history,
{
}

/// Blank input is answered "..." and leaves the shell exactly as it was.
pub proof fn law_blank_input_changes_nothing(s: ShellModel, input: Seq<char>)
    requires
        trim(input).len() == 0,
    ensures
        process_result(s, input) == (s, simple_response("..."@)),
{
}

/// Every other input is recorded, trimmed, as the newest history entry; the
/// history never grows past `max_history`, and grows by one until it is full.
pub proof fn law_history_records_input(s: ShellModel, input: Seq<char>)
    requires
        trim(input).len() > 0,
        s.config.max_history > 0,
        s.history.len() <= s.config.max_history,
    ensures
        process_result(s, input).0.history.last() == trim(input),
        process_result(s, input).0.history.len() <= s.config.max_history,
        s.history.len() < s.config.max_history ==> process_result(s, input).0.history.len()
            == s.history.len() + 1,
        s.history.len() < s.config.max_history ==> process_result(s, input).0.history.drop_last()
            == s.history,
        s.history.len() == s.config.max_history ==> process_result(s, input).0.history.drop_last()
            == s.history.drop_first(),
{
    let t = trim(input);
    let recorded = ShellModel { history: crate::shell::record_history(s.history, t, s.config.max_history), ..s };
    lemma_dispatch_keeps(recorded, command_of(t), args_of(t));
    assert(recorded.history.drop_last() =~= (if s.history.len() >= s.config.max_history {
        s.history.drop_first()
    } else {
        s.history
    }));
}

/// Commands never change the configuration or the loaded modules.
pub proof fn law_commands_keep_configuration(s: ShellModel, input: Seq<char>)
    ensures
        process_result(s, input).0.config == s.config,
        process_result(s, input).0.modules == s.modules,
{
    let t = trim(input);
    if t.len() > 0 {
        let recorded = ShellModel { history: crate::shell::record_history(s.history, t, s.config.max_history), ..s };
        lemma_dispatch_keeps(recorded, command_of(t), args_of(t));
    }
}

/// An answer reports a room change exactly when it carries a room, and the agent
/// then stands in that room; otherwise the agent stays where it was.
pub proof fn law_answer_reports_room(s: ShellModel, input: Seq<char>)
    ensures
        process_result(s, input).1.room_changed <==> process_result(s, input).1.new_room is Some,
        process_result(s, input).1.new_room matches Some(room) ==> process_result(s, input).0.room
            == room,
        process_result(s, input).1.new_room is None ==> process_result(s, input).0.room == s.room,
{
    let t = trim(input);
    let c = command_of(t);
    let a = args_of(t);
    lemma_module_answers_stay(s.modules, "use"@, a);
    lemma_module_answers_stay(s.modules, "tick"@, a);
    lemma_module_answers_stay(s.modules, "fleet"@, Seq::empty());
    lemma_module_answers_stay(s.modules, c, a);
}

/// Only `go` moves the agent.
pub proof fn law_only_go_moves(s: ShellModel, input: Seq<char>)
    requires
        process_result(s, input).0.room != s.room,
    ensures
        trim(input).len() > 0,
        command_of(trim(input)) == "go"@,
{
}

/// `go hub` leads back to the Central Hub from anywhere.
pub proof fn law_go_hub_returns_to_hub(s: ShellModel, input: Seq<char>)
    requires
        trim(input).len() > 0,
        command_of(trim(input)) == "go"@,
        args_of(trim(input)) == "hub"@,
    ensures
        process_result(s, input).0.room == hub_room(),
        process_result(s, input).1 == room_response("You return to the Central Hub."@, hub_room()),
{
    reveal_strlit("hub");
    reveal_strlit("go");
    reveal_strlit("look");
    reveal_strlit("examine");
}

/// Ticks are recorded only by a `tick` that a module answered, one per command,
/// carrying the command's arguments.
pub proof fn law_ticks_only_from_tick(s: ShellModel, input: Seq<char>)
    ensures
        process_result(s, input).0.ticks == s.ticks || (command_of(trim(input)) == "tick"@
            && process_result(s, input).0.ticks == s.ticks.push(args_of(trim(input)))),
{
}

/// Filtering keeps a list of modules whole when every item passes.
pub proof fn lemma_filter_keeps_all(s: Seq<ModuleKind>, pred: spec_fn(ModuleKind) -> bool)
    requires
        forall|i: int| 0 <= i < s.len() ==> pred(s[i]),
    ensures
        s.filter(pred) == s,
    decreases s.len(),
{
    reveal_with_fuel(Seq::<ModuleKind>::filter, 1);
    if s.len() > 0 {
        lemma_filter_keeps_all(s.drop_last(), pred);
        assert(s.drop_last().push(s.last()) =~= s);
    }
}

/// A module's name picks that module out again.
pub proof fn lemma_named_module_has_name(name: Seq<char>)
    ensures
        module_named(name) matches Some(m) ==> module_name(m) == name,
{
}

/// Loading is refused exactly where a module of that name is loaded already or
/// no module has that name, and a refused load changes nothing.
pub proof fn law_load_refusals(s: ShellModel, name: Seq<char>)
    ensures
        load_result(s, name).1 is Err <==> (modules_have(s.modules, name) || module_named(name)
            is None),
        load_result(s, name).1 is Err ==> load_result(s, name).0 == s,
{
}

/// After a successful load a module of that name is loaded, after the ones before.
pub proof fn law_load_then_loaded(s: ShellModel, name: Seq<char>)
    requires
        load_result(s, name).1 is Ok,
    ensures
        modules_have(load_result(s, name).0.modules, name),
        load_result(s, name).0.modules.drop_last() == s.modules,
        load_result(s, name).0.config.loaded_modules.contains(name),
{
    lemma_named_module_has_name(name);
    let mods = load_result(s, name).0.modules;
    assert(module_name(mods[s.modules.len() as int]) == name);
    assert(mods.drop_last() =~= s.modules);
    if !s.config.loaded_modules.contains(name) {
        assert(s.config.loaded_modules.push(name)[s.config.loaded_modules.len() as int] == name);
    }
}

/// After unloading a name no module of that name is loaded and the name is not configured.
pub proof fn law_unload_removes(s: ShellModel, name: Seq<char>)
    ensures
        !modules_have(unload_result(s, name).modules, name),
        !unload_result(s, name).config.loaded_modules.contains(name),
{
    let pred = module_stays(name);
    s.modules.filter_lemma(pred);
    s.config.loaded_modules.filter_lemma(crate::shell::name_stays(name));
    let kept = unload_result(s, name).modules;
    assert forall|i: int| 0 <= i < kept.len() implies module_name(#[trigger] kept[i]) != name by {
        assert(pred(kept[i]));
    }
    let names = unload_result(s, name).config.loaded_modules;
    assert forall|i: int| 0 <= i < names.len() implies names[i] != name by {
        assert(crate::shell::name_stays(name)(names[i]));
    }
}

/// Unloading a name leaves every module of another name loaded.
pub proof fn law_unload_keeps_others(s: ShellModel, name: Seq<char>, other: Seq<char>)
    requires
        modules_have(s.modules, other),
        other != name,
    ensures
        modules_have(unload_result(s, name).modules, other),
{
    let pred = module_stays(name);
    s.modules.filter_lemma(pred);
    let i = choose|i: int| 0 <= i < s.modules.len() && module_name(#[trigger] s.modules[i]) == other;
    assert(pred(s.modules[i]));
    let kept = unload_result(s, name).modules;
    assert(kept.contains(s.modules[i]));
    let j = choose|j: int| 0 <= j < kept.len() && kept[j] == s.modules[i];
    assert(module_name(kept[j]) == other);
}

/// Unloading a name right after loading it gives back the modules loaded before.
pub proof fn law_unload_undoes_load(s: ShellModel, name: Seq<char>)
    requires
        load_result(s, name).1 is Ok,
    ensures
        unload_result(load_result(s, name).0, name).modules == s.modules,
{
    lemma_named_module_has_name(name);
    let pred = module_stays(name);
    let loaded = load_result(s, name).0.modules;
    assert forall|i: int| 0 <= i < s.modules.len() implies pred(s.modules[i]) by {
        if module_name(s.modules[i]) == name {
            assert(modules_have(s.modules, name));
        }
    }
    lemma_filter_keeps_all(s.modules, pred);
    reveal_with_fuel(Seq::<ModuleKind>::filter, 1);
    assert(loaded.drop_last() =~= s.modules);
    assert(!pred(loaded.last()));
}

/// A new shell loads a module for each configured name that creates one, and no other.
pub proof fn law_new_loads_configured(names: Seq<Seq<char>>, name: Seq<char>)
    ensures
        modules_have(modules_from(names), name) <==> (names.contains(name) && module_named(name)
            is Some),
    decreases names.len(),
{
    if names.len() > 0 {
        let init = names.drop_last();
        law_new_loads_configured(init, name);
        lemma_named_module_has_name(names.last());
        lemma_named_module_has_name(name);
        let rest = modules_from(init);
        let all = modules_from(names);
        if modules_have(all, name) {
            let i = choose|i: int| 0 <= i < all.len() && module_name(#[trigger] all[i]) == name;
            if i < rest.len() {
                assert(rest[i] == all[i]);
                assert(modules_have(rest, name));
                let k = choose|k: int| 0 <= k < init.len() && init[k] == name;
                assert(names[k] == name);
            } else {
                assert(names[names.len() - 1] == names.last());
                assert(module_named(names.last()) matches Some(m) && module_name(m) == name);
                assert(names.last() == name);
            }
        }
        if names.contains(name) && module_named(name) is Some {
            let k = choose|k: int| 0 <= k < names.len() && names[k] == name;
            if k < init.len() {
                assert(init[k] == name);
                assert(modules_have(rest, name));
                let i = choose|i: int| 0 <= i < rest.len() && module_name(#[trigger] rest[i]) == name;
                assert(all[i] == rest[i]);
            } else {
                assert(module_name(all[rest.len() as int]) == name);
            }
        }
    } else {
    }
}

/// White space around an input changes neither the answer nor the shell.
pub proof fn law_surrounding_white_space(s: ShellModel, w1: Seq<char>, t: Seq<char>, w2: Seq<char>)
    requires
        all_white(w1),
        all_white(w2),
    ensures
        process_result(s, w1 + t + w2) == process_result(s, t),
{
    lemma_trim_around(w1, t, w2);
}

/// A text that is its own trim starts and ends with a character other than white space.
pub proof fn lemma_trimmed_ends(a: Seq<char>)
    requires
        trim(a) == a,
        a.len() > 0,
    ensures
        !is_white_space(a[0]),
        !is_white_space(a.last()),
{
    lemma_skip_white_bounds(a, 0);
    lemma_trim_end_bounds(a, a.len() as int);
}

/// No built-in module provides a room behind any exit but `puppeteer`.
pub proof fn lemma_module_rooms_only_puppeteer(mods: Seq<ModuleKind>, exit: Seq<char>)
    ensures
        first_room(mods, exit) is Some ==> exit == "puppeteer"@,
    decreases mods.len(),
{
    if mods.len() > 0 {
        lemma_module_rooms_only_puppeteer(mods.drop_first(), exit);
    }
}

/// From the hub, `go vision` leads into the Vision Lab, whatever modules are loaded.
pub proof fn law_go_vision_from_hub(s: ShellModel, input: Seq<char>)
    requires
        s.room == hub_room(),
        trim(input).len() > 0,
        command_of(trim(input)) == "go"@,
        args_of(trim(input)) == "vision"@,
    ensures
        process_result(s, input).0.room == vision_lab(),
        process_result(s, input).1 == room_response("You head vision."@, vision_lab()),
{
    reveal_strlit("vision");
    reveal_strlit("hub");
    reveal_strlit("go");
    reveal_strlit("look");
    reveal_strlit("examine");
    reveal_strlit("puppeteer");
    reveal_strlit("You head ");
    reveal_strlit(".");
    reveal_strlit("You head vision.");
    lemma_module_rooms_only_puppeteer(s.modules, "vision"@);
    assert(hub_room().exits[2] == "vision"@);
    assert("You head "@ + "vision"@ + "."@ =~= "You head vision."@);
}

/// How a command word, a run of white space that starts with a space, and
/// trimmed arguments split.
pub proof fn lemma_split_spaced(c: Seq<char>, ws: Seq<char>, a: Seq<char>)
    requires
        c.len() > 0,
        forall|k: int| 0 <= k < c.len() ==> !is_white_space(#[trigger] c[k]),
        ws.len() > 0,
        ws[0] == ' ',
        all_white(ws),
        trim(a) == a,
    ensures
        a.len() > 0 ==> trim(c + ws + a) == c + ws + a,
        a.len() > 0 ==> command_of(trim(c + ws + a)) == c,
        a.len() > 0 ==> args_of(trim(c + ws + a)) == a,
        a.len() == 0 ==> trim(c + ws + a) == c,
{
    let t = c + ws + a;
    assert(!is_white_space(c[0]));
    assert(!is_white_space(c.last()));
    if a.len() > 0 {
        lemma_trimmed_ends(a);
        assert(t[0] == c[0]);
        assert(t.last() == a.last());
        lemma_trim_keeps_trimmed(t);
        assert forall|k: int| 0 <= k < c.len() implies c[k] != ' ' by {
            assert(!is_white_space(c[k]));
        }
        assert(t =~= c + (ws + a));
        lemma_find_after_prefix(c, ws + a, ' ', 0);
        assert(find_char_from(t, ' ', 0) == c.len());
        assert(t.subrange(0, c.len() as int) =~= c);
        let rest = t.subrange(c.len() as int + 1, t.len() as int);
        assert(rest =~= ws.drop_first() + a + Seq::<char>::empty());
        assert(all_white(ws.drop_first()));
        assert(all_white(Seq::<char>::empty()));
        lemma_trim_around(ws.drop_first(), a, Seq::<char>::empty());
    } else {
        assert(t =~= Seq::<char>::empty() + c + ws);
        assert(all_white(Seq::<char>::empty()));
        lemma_trim_around(Seq::<char>::empty(), c, ws);
        lemma_trim_keeps_trimmed(c);
    }
}

/// More white space between a command word and its arguments changes neither the
/// answer nor anything in the shell but the wording of the newest history entry.
pub proof fn law_spaces_after_command(s: ShellModel, c: Seq<char>, ws: Seq<char>, a: Seq<char>)
    requires
        c.len() > 0,
        forall|k: int| 0 <= k < c.len() ==> !is_white_space(#[trigger] c[k]),
        ws.len() > 0,
        ws[0] == ' ',
        all_white(ws),
        trim(a) == a,
    ensures
        process_result(s, c + ws + a).1 == process_result(s, c + " "@ + a).1,
        process_result(s, c + ws + a).0.room == process_result(s, c + " "@ + a).0.room,
        process_result(s, c + ws + a).0.ticks == process_result(s, c + " "@ + a).0.ticks,
        process_result(s, c + ws + a).0.modules == process_result(s, c + " "@ + a).0.modules,
        process_result(s, c + ws + a).0.config == process_result(s, c + " "@ + a).0.config,
        process_result(s, c + ws + a).0.history.len() == process_result(s, c + " "@ + a).0.history.len(),
{
    reveal_strlit(" ");
    let one = " "@;
    assert(one[0] == ' ');
    assert(all_white(one));
    lemma_split_spaced(c, ws, a);
    lemma_split_spaced(c, one, a);
    if a.len() > 0 {
        let t1 = trim(c + ws + a);
        let t2 = trim(c + one + a);
        let r1 = ShellModel { history: record_history(s.history, t1, s.config.max_history), ..s };
        let r2 = ShellModel { history: record_history(s.history, t2, s.config.max_history), ..s };
        lemma_dispatch_keeps(r1, c, a);
        lemma_dispatch_keeps(r2, c, a);
        assert(r1.history.len() == r2.history.len());
    }
}

} // verus!

//! Shell configuration: which modules to load, who the agent is, how much history to keep.

use vstd::prelude::*;
use vstd::string::*;

verus! {

/// A configuration as plain values.
pub struct ConfigModel {
    pub loaded_modules: Seq<Seq<char>>,
    pub agent_name: Seq<char>,
    pub model: Seq<char>,
    pub max_history: nat,
}

/// Configuration for the shell: which modules are loaded, agent identity, etc.
#[derive(Clone, Debug)]
pub struct ShellConfig {
    pub loaded_modules: Vec<String>,
    pub agent_name: String,
    pub model: String,
    pub max_history: usize,
}

impl View for ShellConfig {
    type V = ConfigModel;

    open spec fn view(&self) -> ConfigModel {
        ConfigModel {
            loaded_modules: self.loaded_modules.deep_view(),
            agent_name: self.agent_name@,
            model: self.model@,
            max_history: self.max_history as nat,
        }
    }
}

impl Default for ShellConfig {
    /// No modules, agent "agent", model "default", 1000 commands of history.
    fn default() -> (r: Self)
        ensures
            r@ == (ConfigModel {
                loaded_modules: Seq::empty(),
                agent_name: "agent"@,
                model: "default"@,
                max_history: 1000,
            }),
    {
        let loaded_modules: Vec<String> = Vec::new();
        assert(loaded_modules.deep_view() =~= Seq::<Seq<char>>::empty());
        ShellConfig {
            loaded_modules,
            agent_name: String::from_str("agent"),
            model: String::from_str("default"),
            max_history: 1000,
        }
    }
}

} // verus!

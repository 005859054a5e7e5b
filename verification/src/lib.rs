//! A MUD-like text shell: rooms to move between, objects to look at and use,
//! and built-in modules (tick, fleet, puppeteer) that answer their own commands.

pub mod text;
pub mod room;
pub mod response;
pub mod config;
pub mod modules;
pub mod shell;
pub mod laws;
pub mod command_laws;

pub use config::ShellConfig;
pub use modules::PlatoModule;
pub use response::ShellResponse;
pub use room::ShellRoom;
pub use shell::Shell;

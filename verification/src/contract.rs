//! The contract between the core and its plugins.
use vstd::prelude::*;

verus! {

/// The version of this contract. A plugin built against a contract with
/// another major version is not loaded.
pub const SHARED_VERSION: &'static str = "0.1.0";

/// How one flag of a plugin command is described in the help.
pub struct FlagHelp {
    pub name: String,
    pub description: String,
}

/// How one command is described in the help.
pub struct CommandHelp {
    pub name: String,
    pub description: String,
    pub flags: Vec<FlagHelp>,
}

/// What every plugin offers the core.
pub trait BasaltoPlugin {
    /// The plugin's unique name.
    fn name(&self) -> &str;

    /// Prepares the plugin's resources.
    fn on_load(&self);

    /// Runs the plugin's main task.
    fn execute(&self);

    /// The commands that the plugin answers.
    fn plugin_commands(&self) -> Vec<String>;

    /// Runs one of the plugin's commands with its arguments.
    fn execute_command(&self, command: &str, args: &[&str]);

    /// How the plugin's commands are described in the help.
    fn command_help(&self) -> Vec<CommandHelp>;
}

} // verus!

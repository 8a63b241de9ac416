//! The subcommands of the command line.

use vstd::prelude::*;

verus! {

/// A subcommand of the command line.
#[derive(Debug, Clone, Copy, PartialEq, Eq, Structural)]
pub enum CliCommands {
    /// Print the configuration.
    Config,
    /// Print the version ledger.
    Vstores,
    /// Update every configured repository.
    Update,
}

/// The name of a subcommand.
pub open spec fn command_name(c: CliCommands) -> Seq<char> {
    match c {
        CliCommands::Config => "config"@,
        CliCommands::Vstores => "vstores"@,
        CliCommands::Update => "update"@,
    }
}

impl CliCommands {
    /// The name of the subcommand as typed on the command line.
    pub fn to_str(&self) -> (r: &'static str)
        ensures
            r@ == command_name(*self),
    {
        match self {
            CliCommands::Config => "config",
            CliCommands::Vstores => "vstores",
            CliCommands::Update => "update",
        }
    }

    /// The subcommand named `name`, if any.
    pub fn from_name(name: &str) -> (r: Option<CliCommands>)
        ensures
            r matches Some(c) ==> command_name(c) == name@,
            r is None ==> forall|c: CliCommands| command_name(c) != name@,
    {
        let s = String::from_str(name);
        if s == String::from_str("config") {
            Some(CliCommands::Config)
        } else if s == String::from_str("vstores") {
            Some(CliCommands::Vstores)
        } else if s == String::from_str("update") {
            Some(CliCommands::Update)
        } else {
            None
        }
    }
}

} // verus!

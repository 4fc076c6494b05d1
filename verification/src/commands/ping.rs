//! The `/ping` command.

use vstd::prelude::*;

use crate::commands::CommandSpec;

verus! {

/// Slash command that responds with "Pong! 🏓" to verify bot responsiveness.
#[derive(Clone, Copy, Debug)]
pub struct PingCommand;

impl PingCommand {
    /// The command name.
    pub fn name(&self) -> (n: String)
        ensures
            n@ == "ping"@,
    {
        String::from_str("ping")
    }

    /// The command as registered with Discord.
    pub fn register(&self) -> (c: CommandSpec)
        ensures
            c@.name == "ping"@,
            c@.description == "Check if the bot is responsive"@,
            c@.options.len() == 0,
    {
        let c = CommandSpec {
            name: self.name(),
            description: String::from_str("Check if the bot is responsive"),
            options: Vec::new(),
        };
        assert(c@.options =~= Seq::empty());
        c
    }

    /// The reply to an invocation.
    pub fn reply(&self) -> (r: String)
        ensures
            r@ == "Pong! 🏓"@,
    {
        String::from_str("Pong! 🏓")
    }
}

} // verus!

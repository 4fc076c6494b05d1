//! Slash commands: what each registers with Discord and which one handles an
//! invocation.

use vstd::prelude::*;

pub mod ping;
pub mod votekick;

verus! {

/// The type of a command option.
#[derive(Clone, Copy, Debug, PartialEq, Eq, Structural)]
pub enum OptionKind {
    User,
    Integer,
}

/// An option of a slash command.
#[derive(Clone, Debug)]
pub struct CommandOptionSpec {
    pub kind: OptionKind,
    pub name: String,
    pub description: String,
    pub required: bool,
    /// Smallest value accepted, for integer options.
    pub min_value: Option<u64>,
    /// Largest value accepted, for integer options.
    pub max_value: Option<u64>,
}

/// A slash command as it is registered with Discord.
#[derive(Clone, Debug)]
pub struct CommandSpec {
    pub name: String,
    pub description: String,
    pub options: Vec<CommandOptionSpec>,
}

pub ghost struct OptionView {
    pub kind: OptionKind,
    pub name: Seq<char>,
    pub description: Seq<char>,
    pub required: bool,
    pub min_value: Option<u64>,
    pub max_value: Option<u64>,
}

pub ghost struct CommandView {
    pub name: Seq<char>,
    pub description: Seq<char>,
    pub options: Seq<OptionView>,
}

impl View for CommandOptionSpec {
    type V = OptionView;

    open spec fn view(&self) -> OptionView {
        OptionView {
            kind: self.kind,
            name: self.name@,
            description: self.description@,
            required: self.required,
            min_value: self.min_value,
            max_value: self.max_value,
        }
    }
}

impl View for CommandSpec {
    type V = CommandView;

    open spec fn view(&self) -> CommandView {
        CommandView {
            name: self.name@,
            description: self.description@,
            options: self.options@.map_values(|o: CommandOptionSpec| o@),
        }
    }
}

/// The required option naming the user to votekick.
pub open spec fn user_option_view(description: Seq<char>) -> OptionView {
    OptionView {
        kind: OptionKind::User,
        name: "user"@,
        description,
        required: true,
        min_value: None,
        max_value: None,
    }
}

/// The optional poll duration, bounded by the configured minimum and maximum.
pub open spec fn duration_option_view(description: Seq<char>, min: u64, max: u64) -> OptionView {
    OptionView {
        kind: OptionKind::Integer,
        name: "duration"@,
        description,
        required: false,
        min_value: Some(min),
        max_value: Some(max),
    }
}

pub fn user_option(description: &str) -> (o: CommandOptionSpec)
    ensures
        o@ == user_option_view(description@),
{
    CommandOptionSpec {
        kind: OptionKind::User,
        name: String::from_str("user"),
        description: String::from_str(description),
        required: true,
        min_value: None,
        max_value: None,
    }
}

pub fn duration_option(description: String, min: u64, max: u64) -> (o: CommandOptionSpec)
    ensures
        o@ == duration_option_view(description@, min, max),
{
    CommandOptionSpec {
        kind: OptionKind::Integer,
        name: String::from_str("duration"),
        description,
        required: false,
        min_value: Some(min),
        max_value: Some(max),
    }
}

/// The commands the bot handles.
#[derive(Clone, Copy, Debug, PartialEq, Eq, Structural)]
pub enum CommandKind {
    Ping,
    Votekick,
}

/// The command that handles an invocation by name: `ping`, and `votekick`
/// with its alias `vk`; any other name is unknown.
pub open spec fn spec_command_for(name: Seq<char>) -> Option<CommandKind> {
    if name == "ping"@ {
        Some(CommandKind::Ping)
    } else if name == "votekick"@ || name == "vk"@ {
        Some(CommandKind::Votekick)
    } else {
        None
    }
}

pub fn command_for(name: &String) -> (kind: Option<CommandKind>)
    ensures
        kind == spec_command_for(name@),
{
    if *name == String::from_str("ping") {
        Some(CommandKind::Ping)
    } else if *name == String::from_str("votekick") || *name == String::from_str("vk") {
        Some(CommandKind::Votekick)
    } else {
        None
    }
}

/// The reply to an invocation of an unknown command.
pub fn unknown_command_message() -> (m: String)
    ensures
        m@ == "Unknown command"@,
{
    String::from_str("Unknown command")
}

} // verus!

//! The full list of slash commands the bot offers.

use vstd::prelude::*;

use crate::commands::{
    duration_option, duration_option_view, user_option, user_option_view, CommandSpec,
    CommandView,
};
use crate::config::Config;
use crate::text::{decimal, push_decimal, push_str};

verus! {

/// Utility struct for common Discord bot operations
#[derive(Clone, Copy, Debug)]
pub struct Utils;

pub open spec fn duration_description(default_secs: u64) -> Seq<char> {
    "Poll duration in seconds (default: "@ + decimal(default_secs as nat) + ")"@
}

/// A command that takes a user and an optional duration.
pub open spec fn votekick_like_view(name: Seq<char>, description: Seq<char>, config: Config) -> CommandView {
    CommandView {
        name,
        description,
        options: seq![
            user_option_view("User to votekick"@),
            duration_option_view(
                duration_description(config.default_votekick_duration),
                config.min_votekick_duration,
                config.max_votekick_duration,
            ),
        ],
    }
}

/// `ping`, `votekick`, and `vk` as an alias of `votekick`.
pub open spec fn command_list_view(config: Config) -> Seq<CommandView> {
    seq![
        CommandView {
            name: "ping"@,
            description: "Check if bot is responsive"@,
            options: Seq::<crate::commands::OptionView>::empty(),
        },
        votekick_like_view("votekick"@, "Start a votekick"@, config),
        votekick_like_view("vk"@, "Alias for votekick"@, config),
    ]
}

fn votekick_like(name: &str, description: &str, config: &Config) -> (c: CommandSpec)
    ensures
        c@ == votekick_like_view(name@, description@, *config),
{
    let mut text = String::from_str("Poll duration in seconds (default: ");
    push_decimal(&mut text, config.default_votekick_duration);
    push_str(&mut text, ")");
    let mut options = Vec::new();
    options.push(user_option("User to votekick"));
    options.push(
        duration_option(text, config.min_votekick_duration, config.max_votekick_duration),
    );
    let c = CommandSpec {
        name: String::from_str(name),
        description: String::from_str(description),
        options,
    };
    assert(c@.options =~= votekick_like_view(name@, description@, *config).options);
    c
}

impl Utils {
    /// Create a standard set of bot commands using config values
    pub fn create_command_list(config: &Config) -> (list: Vec<CommandSpec>)
        ensures
            list@.map_values(|c: CommandSpec| c@) == command_list_view(*config),
    {
        let mut list = Vec::new();
        let ping = CommandSpec {
            name: String::from_str("ping"),
            description: String::from_str("Check if bot is responsive"),
            options: Vec::new(),
        };
        assert(ping@.options =~= Seq::<crate::commands::OptionView>::empty());
        list.push(ping);
        list.push(votekick_like("votekick", "Start a votekick", config));
        list.push(votekick_like("vk", "Alias for votekick", config));
        assert(list@.map_values(|c: CommandSpec| c@) =~= command_list_view(*config));
        list
    }
}

} // verus!

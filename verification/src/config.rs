//! Configuration of the bot: its settings, their defaults, the check made
//! after loading them, and the text of the default configuration file.

use vstd::prelude::*;

use crate::text::{decimal, push_decimal, push_str};

verus! {

/// Bot configuration
#[derive(Clone, Debug)]
pub struct Config {
    /// Discord bot token (required)
    pub discord_token: String,
    /// Optional guild ID for instant command registration
    pub guild_id: Option<u64>,
    /// Log level filter (default: info)
    pub log_level: String,
    /// Log output format (default: pretty)
    pub log_format: String,
    /// Default votekick duration in seconds (default: 60)
    pub default_votekick_duration: u64,
    /// Minimum votekick duration in seconds (default: 10)
    pub min_votekick_duration: u64,
    /// Maximum votekick duration in seconds (default: 300)
    pub max_votekick_duration: u64,
    /// Results message deletion delay in seconds (default: 10)
    pub results_delete_delay: u64,
    /// Minimum yes votes needed for a votekick to pass (default: 2)
    pub min_votekick_yes_votes: u32,
}

/// Why a loaded configuration was refused.
#[derive(Clone, Copy, Debug, PartialEq, Eq, Structural)]
pub enum ConfigError {
    /// The Discord token is empty.
    MissingToken,
}

/// The default settings.
pub open spec fn is_default_config(c: Config) -> bool {
    &&& c.discord_token@ == Seq::<char>::empty()
    &&& c.guild_id is None
    &&& c.log_level@ == "info"@
    &&& c.log_format@ == "pretty"@
    &&& c.default_votekick_duration == 60
    &&& c.min_votekick_duration == 10
    &&& c.max_votekick_duration == 300
    &&& c.results_delete_delay == 10
    &&& c.min_votekick_yes_votes == 2
}

impl Default for Config {
    fn default() -> (c: Self)
        ensures
            is_default_config(c),
    {
        Config {
            discord_token: String::new(),
            guild_id: None,
            log_level: String::from_str("info"),
            log_format: String::from_str("pretty"),
            default_votekick_duration: 60,
            min_votekick_duration: 10,
            max_votekick_duration: 300,
            results_delete_delay: 10,
            min_votekick_yes_votes: 2,
        }
    }
}

/// The text of the configuration file written when none exists.
pub open spec fn config_file_text(c: Config) -> Seq<char> {
    "# Streamocracy Bot Configuration\n# Place this file in the same directory as the executable\n\n# Discord bot token (required)\n# Get this from https://discord.com/developers/applications\ndiscord_token = \""@
        + c.discord_token@
        + "\"\n\n# Optional guild ID for instant command registration during testing\n# If set, commands register immediately in this guild\n# If unset, commands register globally (takes up to 1 hour)\n# guild_id = 1234567890123456789\n\nlog_level = \""@
        + c.log_level@ + "\"\ndefault_votekick_duration = "@
        + decimal(c.default_votekick_duration as nat) + "\nmin_votekick_duration = "@
        + decimal(c.min_votekick_duration as nat) + "\nmax_votekick_duration = "@
        + decimal(c.max_votekick_duration as nat) + "\nresults_delete_delay = "@
        + decimal(c.results_delete_delay as nat) + "\n"@
}

impl Config {
    /// Accepts a loaded configuration only when it names a Discord token.
    pub fn validate(self) -> (res: Result<Config, ConfigError>)
        ensures
            self.discord_token@.len() == 0 ==> res == Err::<Config, ConfigError>(
                ConfigError::MissingToken,
            ),
            self.discord_token@.len() > 0 ==> res == Ok::<Config, ConfigError>(self),
    {
        if self.discord_token.as_str().is_empty() {
            Err(ConfigError::MissingToken)
        } else {
            Ok(self)
        }
    }

    /// The configuration file that shows these settings, with comments that
    /// explain them (written with the defaults when no file exists).
    pub fn file_contents(&self) -> (text: String)
        ensures
            text@ == config_file_text(*self),
    {
        let mut s = String::from_str(
            "# Streamocracy Bot Configuration\n# Place this file in the same directory as the executable\n\n# Discord bot token (required)\n# Get this from https://discord.com/developers/applications\ndiscord_token = \"",
        );
        push_str(&mut s, self.discord_token.as_str());
        push_str(
            &mut s,
            "\"\n\n# Optional guild ID for instant command registration during testing\n# If set, commands register immediately in this guild\n# If unset, commands register globally (takes up to 1 hour)\n# guild_id = 1234567890123456789\n\nlog_level = \"",
        );
        push_str(&mut s, self.log_level.as_str());
        push_str(&mut s, "\"\ndefault_votekick_duration = ");
        push_decimal(&mut s, self.default_votekick_duration);
        push_str(&mut s, "\nmin_votekick_duration = ");
        push_decimal(&mut s, self.min_votekick_duration);
        push_str(&mut s, "\nmax_votekick_duration = ");
        push_decimal(&mut s, self.max_votekick_duration);
        push_str(&mut s, "\nresults_delete_delay = ");
        push_decimal(&mut s, self.results_delete_delay);
        push_str(&mut s, "\n");
        s
    }
}

} // verus!

use streamocracy::config::{Config, ConfigError};

#[test]
fn config_defaults() {
    let c = Config::default();
    assert_eq!(c.discord_token, "");
    assert_eq!(c.guild_id, None);
    assert_eq!(c.log_level, "info");
    assert_eq!(c.log_format, "pretty");
    assert_eq!(c.default_votekick_duration, 60);
    assert_eq!(c.min_votekick_duration, 10);
    assert_eq!(c.max_votekick_duration, 300);
    assert_eq!(c.results_delete_delay, 10);
    assert_eq!(c.min_votekick_yes_votes, 2);
}

#[test]
fn empty_token_is_refused() {
    assert_eq!(Config::default().validate().err(), Some(ConfigError::MissingToken));
    let mut c = Config::default();
    c.discord_token = "abc".to_string();
    let ok = c.validate().unwrap();
    assert_eq!(ok.discord_token, "abc");
}

#[test]
fn default_file_text() {
    let expected = r#"# Streamocracy Bot Configuration
# Place this file in the same directory as the executable

# Discord bot token (required)
# Get this from https://discord.com/developers/applications
discord_token = ""

# Optional guild ID for instant command registration during testing
# If set, commands register immediately in this guild
# If unset, commands register globally (takes up to 1 hour)
# guild_id = 1234567890123456789

log_level = "info"
default_votekick_duration = 60
min_votekick_duration = 10
max_votekick_duration = 300
results_delete_delay = 10
"#;
    assert_eq!(Config::default().file_contents(), expected);
}

#[test]
fn file_text_shows_settings() {
    let mut c = Config::default();
    c.discord_token = "tok".to_string();
    c.max_votekick_duration = 18446744073709551615;
    let text = c.file_contents();
    assert!(text.contains("discord_token = \"tok\"\n"));
    assert!(text.contains("max_votekick_duration = 18446744073709551615\n"));
}

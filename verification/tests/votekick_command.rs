use streamocracy::commands::votekick::{VotekickCommand, VotekickRejection, VotekickRequest};
use streamocracy::commands::{command_for, unknown_command_message, CommandKind, OptionKind};
use streamocracy::commands::ping::PingCommand;
use streamocracy::config::Config;
use streamocracy::utils::Utils;
use streamocracy::voice::VoiceState;

fn test_config() -> Config {
    Config {
        discord_token: "test".to_string(),
        guild_id: None,
        log_level: "info".to_string(),
        log_format: "pretty".to_string(),
        default_votekick_duration: 60,
        min_votekick_duration: 10,
        max_votekick_duration: 300,
        results_delete_delay: 10,
        min_votekick_yes_votes: 2,
    }
}

#[test]
fn resolve_duration_uses_default_when_missing() {
    let config = test_config();
    assert_eq!(VotekickCommand::resolve_duration(None, &config), 60);
}

#[test]
fn resolve_duration_clamps_to_minimum() {
    let config = test_config();
    assert_eq!(VotekickCommand::resolve_duration(Some(5), &config), 10);
    assert_eq!(VotekickCommand::resolve_duration(Some(0), &config), 10);
    assert_eq!(VotekickCommand::resolve_duration(Some(-5), &config), 10);
}

#[test]
fn resolve_duration_clamps_to_maximum() {
    let config = test_config();
    assert_eq!(VotekickCommand::resolve_duration(Some(500), &config), 300);
}

#[test]
fn resolve_duration_keeps_values_in_range() {
    let config = test_config();
    assert_eq!(VotekickCommand::resolve_duration(Some(30), &config), 30);
    assert_eq!(VotekickCommand::resolve_duration(Some(10), &config), 10);
    assert_eq!(VotekickCommand::resolve_duration(Some(300), &config), 300);
}

#[test]
fn resolve_duration_extremes() {
    let config = test_config();
    assert_eq!(VotekickCommand::resolve_duration(Some(i64::MIN), &config), 10);
    assert_eq!(VotekickCommand::resolve_duration(Some(i64::MAX), &config), 300);
    let mut odd = test_config();
    odd.min_votekick_duration = 400;
    odd.max_votekick_duration = 300;
    // No clamping happens without an argument, whatever the bounds.
    assert_eq!(VotekickCommand::resolve_duration(None, &odd), 60);
}

fn in_channel(channel: u64, streaming: Option<bool>) -> Option<VoiceState> {
    Some(VoiceState { channel_id: Some(channel), self_stream: streaming })
}

#[test]
fn voice_channel_lookup() {
    assert_eq!(VotekickCommand::get_user_voice_channel(None), None);
    assert_eq!(
        VotekickCommand::get_user_voice_channel(Some(VoiceState { channel_id: None, self_stream: None })),
        None
    );
    assert_eq!(VotekickCommand::get_user_voice_channel(in_channel(7, None)), Some(7));
}

#[test]
fn target_check() {
    assert_eq!(VotekickCommand::check_target_user(None, 7), (false, false));
    assert_eq!(VotekickCommand::check_target_user(in_channel(7, Some(true)), 7), (true, true));
    assert_eq!(VotekickCommand::check_target_user(in_channel(8, Some(true)), 7), (false, true));
    assert_eq!(VotekickCommand::check_target_user(in_channel(7, None), 7), (true, false));
}

#[test]
fn plan_rejections_in_order() {
    let c = test_config();
    assert_eq!(
        VotekickCommand::plan(None, 5, None, in_channel(7, None), in_channel(7, Some(true)), &c),
        Err(VotekickRejection::NotInGuild)
    );
    assert_eq!(
        VotekickCommand::plan(Some(1), 5, None, None, in_channel(7, Some(true)), &c),
        Err(VotekickRejection::InvokerNotInVoice)
    );
    assert_eq!(
        VotekickCommand::plan(Some(1), 5, None, in_channel(7, None), in_channel(8, Some(true)), &c),
        Err(VotekickRejection::TargetNotInSameChannel)
    );
    assert_eq!(
        VotekickCommand::plan(Some(1), 5, None, in_channel(7, None), in_channel(7, Some(false)), &c),
        Err(VotekickRejection::TargetNotScreensharing)
    );
    assert_eq!(
        VotekickCommand::plan(Some(1), 5, Some(1000), in_channel(7, None), in_channel(7, Some(true)), &c),
        Ok(VotekickRequest {
            guild_id: 1,
            target_user_id: 5,
            channel_id: 7,
            duration_secs: 300,
            results_delete_delay_secs: 10,
            min_yes_votes: 2,
        })
    );
}

#[test]
fn rejection_messages() {
    assert_eq!(VotekickRejection::NotInGuild.message(), "This command can only be used in a server.");
    assert_eq!(
        VotekickRejection::InvokerNotInVoice.message(),
        "You must be in a voice channel to use this command."
    );
    assert_eq!(
        VotekickRejection::TargetNotInSameChannel.message(),
        "The target user must be in the same voice channel as you."
    );
    assert_eq!(
        VotekickRejection::TargetNotScreensharing.message(),
        "The target user must be screensharing to start a votekick."
    );
    assert_eq!(
        VotekickCommand::failure_message(),
        "Failed to start the votekick. Please try again later."
    );
}

#[test]
fn command_dispatch() {
    assert_eq!(command_for(&"ping".to_string()), Some(CommandKind::Ping));
    assert_eq!(command_for(&"votekick".to_string()), Some(CommandKind::Votekick));
    assert_eq!(command_for(&"vk".to_string()), Some(CommandKind::Votekick));
    assert_eq!(command_for(&"kick".to_string()), None);
    assert_eq!(unknown_command_message(), "Unknown command");
}

#[test]
fn registered_commands() {
    let ping = PingCommand.register();
    assert_eq!(ping.name, "ping");
    assert_eq!(ping.description, "Check if the bot is responsive");
    assert!(ping.options.is_empty());
    assert_eq!(PingCommand.reply(), "Pong! 🏓");

    let vk = VotekickCommand.register(&test_config());
    assert_eq!(vk.name, "votekick");
    assert_eq!(vk.description, "Start a votekick poll against a user");
    assert_eq!(vk.options.len(), 2);
    assert_eq!(vk.options[0].kind, OptionKind::User);
    assert_eq!(vk.options[0].name, "user");
    assert!(vk.options[0].required);
    assert_eq!(vk.options[1].kind, OptionKind::Integer);
    assert_eq!(vk.options[1].name, "duration");
    assert!(!vk.options[1].required);
    assert_eq!(vk.options[1].min_value, Some(10));
    assert_eq!(vk.options[1].max_value, Some(300));
}

#[test]
fn command_list() {
    let list = Utils::create_command_list(&test_config());
    let names: Vec<&str> = list.iter().map(|c| c.name.as_str()).collect();
    assert_eq!(names, vec!["ping", "votekick", "vk"]);
    assert_eq!(list[0].description, "Check if bot is responsive");
    assert_eq!(list[2].description, "Alias for votekick");
    assert_eq!(list[1].options[0].description, "User to votekick");
    assert_eq!(list[1].options[1].description, "Poll duration in seconds (default: 60)");
    assert_eq!(list[2].options[1].min_value, Some(10));
    assert_eq!(list[2].options[1].max_value, Some(300));
}

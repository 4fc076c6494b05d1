//! The `/votekick` command: what it registers, how it reads its duration,
//! and which invocations may start a votekick.

use vstd::prelude::*;

use crate::commands::{
    duration_option, duration_option_view, user_option, user_option_view, CommandSpec,
};
use crate::config::Config;
use crate::voice::VoiceState;

verus! {

/// Slash command for starting a votekick poll against a user.
#[derive(Clone, Copy, Debug)]
pub struct VotekickCommand;

/// Why an invocation of `/votekick` starts no poll.
#[derive(Clone, Copy, Debug, PartialEq, Eq, Structural)]
pub enum VotekickRejection {
    /// The command was used outside a server.
    NotInGuild,
    /// The invoker is not in a voice channel.
    InvokerNotInVoice,
    /// The target is not in the invoker's voice channel.
    TargetNotInSameChannel,
    /// The target is not screensharing.
    TargetNotScreensharing,
}

pub open spec fn rejection_text(r: VotekickRejection) -> Seq<char> {
    match r {
        VotekickRejection::NotInGuild => "This command can only be used in a server."@,
        VotekickRejection::InvokerNotInVoice => "You must be in a voice channel to use this command."@,
        VotekickRejection::TargetNotInSameChannel => "The target user must be in the same voice channel as you."@,
        VotekickRejection::TargetNotScreensharing => "The target user must be screensharing to start a votekick."@,
    }
}

impl VotekickRejection {
    /// The ephemeral reply that tells the invoker why.
    pub fn message(&self) -> (m: String)
        ensures
            m@ == rejection_text(*self),
    {
        match self {
            VotekickRejection::NotInGuild => String::from_str("This command can only be used in a server."),
            VotekickRejection::InvokerNotInVoice => String::from_str(
                "You must be in a voice channel to use this command.",
            ),
            VotekickRejection::TargetNotInSameChannel => String::from_str(
                "The target user must be in the same voice channel as you.",
            ),
            VotekickRejection::TargetNotScreensharing => String::from_str(
                "The target user must be screensharing to start a votekick.",
            ),
        }
    }
}

/// A votekick that may start.
#[derive(Clone, Copy, Debug, PartialEq, Eq, Structural)]
pub struct VotekickRequest {
    pub guild_id: u64,
    pub target_user_id: u64,
    /// The voice channel shared by the invoker and the target.
    pub channel_id: u64,
    pub duration_secs: u64,
    pub results_delete_delay_secs: u64,
    pub min_yes_votes: u32,
}

/// The poll duration for an optional duration argument: the configured
/// default when it is missing, otherwise the argument (a negative one read as
/// zero) clamped to the configured bounds.
pub open spec fn spec_resolve_duration(raw: Option<i64>, default: u64, min: u64, max: u64) -> u64 {
    match raw {
        None => default,
        Some(v) => {
            let w: int = if v < 0 { 0 } else { v as int };
            if w < min {
                min
            } else if w > max {
                max
            } else {
                w as u64
            }
        },
    }
}

/// The voice channel of a member, from the member's voice state.
pub open spec fn spec_voice_channel(voice: Option<VoiceState>) -> Option<u64> {
    match voice {
        None => None,
        Some(vs) => vs.channel_id,
    }
}

/// Whether the target is in the given channel, and whether it screenshares.
pub open spec fn spec_check_target(target: Option<VoiceState>, channel_id: u64) -> (bool, bool) {
    match target {
        None => (false, false),
        Some(vs) => (
            vs.channel_id == Some(channel_id),
            match vs.self_stream {
                Some(b) => b,
                None => false,
            },
        ),
    }
}

/// The checks made on an invocation, in order: it happens in a server; the
/// invoker is in a voice channel; the target is in that channel; the target
/// is screensharing.
pub open spec fn spec_plan(
    guild_id: Option<u64>,
    target_user_id: u64,
    raw_duration: Option<i64>,
    invoker: Option<VoiceState>,
    target: Option<VoiceState>,
    config: Config,
) -> Result<VotekickRequest, VotekickRejection> {
    match guild_id {
        None => Err(VotekickRejection::NotInGuild),
        Some(guild) => match spec_voice_channel(invoker) {
            None => Err(VotekickRejection::InvokerNotInVoice),
            Some(channel) => {
                let (same, streaming) = spec_check_target(target, channel);
                if !same {
                    Err(VotekickRejection::TargetNotInSameChannel)
                } else if !streaming {
                    Err(VotekickRejection::TargetNotScreensharing)
                } else {
                    Ok(
                        VotekickRequest {
                            guild_id: guild,
                            target_user_id,
                            channel_id: channel,
                            duration_secs: spec_resolve_duration(
                                raw_duration,
                                config.default_votekick_duration,
                                config.min_votekick_duration,
                                config.max_votekick_duration,
                            ),
                            results_delete_delay_secs: config.results_delete_delay,
                            min_yes_votes: config.min_votekick_yes_votes,
                        },
                    )
                }
            },
        },
    }
}

impl VotekickCommand {
    /// The command name.
    pub fn name(&self) -> (n: String)
        ensures
            n@ == "votekick"@,
    {
        String::from_str("votekick")
    }

    /// The command as registered with Discord: a required user and an
    /// optional duration within the configured bounds.
    pub fn register(&self, config: &Config) -> (c: CommandSpec)
        ensures
            c@.name == "votekick"@,
            c@.description == "Start a votekick poll against a user"@,
            c@.options == seq![
                user_option_view("The user to votekick"@),
                duration_option_view(
                    "Poll duration in seconds"@,
                    config.min_votekick_duration,
                    config.max_votekick_duration,
                ),
            ],
    {
        let mut options = Vec::new();
        options.push(user_option("The user to votekick"));
        options.push(
            duration_option(
                String::from_str("Poll duration in seconds"),
                config.min_votekick_duration,
                config.max_votekick_duration,
            ),
        );
        let c = CommandSpec {
            name: self.name(),
            description: String::from_str("Start a votekick poll against a user"),
            options,
        };
        assert(c@.options =~= seq![
            user_option_view("The user to votekick"@),
            duration_option_view(
                "Poll duration in seconds"@,
                config.min_votekick_duration,
                config.max_votekick_duration,
            ),
        ]);
        c
    }

    /// Resolve the poll duration from the optional integer command argument.
    /// Falls back to the configured default and clamps to [min, max].
    pub fn resolve_duration(raw: Option<i64>, config: &Config) -> (d: u64)
        requires
            raw is Some ==> config.min_votekick_duration <= config.max_votekick_duration,
        ensures
            d == spec_resolve_duration(
                raw,
                config.default_votekick_duration,
                config.min_votekick_duration,
                config.max_votekick_duration,
            ),
            raw is None ==> d == config.default_votekick_duration,
            raw is Some ==> config.min_votekick_duration <= d <= config.max_votekick_duration,
            (raw matches Some(v) && config.min_votekick_duration <= v
                <= config.max_votekick_duration) ==> d == raw->0,
    {
        match raw {
            None => config.default_votekick_duration,
            Some(v) => {
                let w: u64 = if v < 0 { 0 } else { v as u64 };
                if w < config.min_votekick_duration {
                    config.min_votekick_duration
                } else if w > config.max_votekick_duration {
                    config.max_votekick_duration
                } else {
                    w
                }
            },
        }
    }

    /// The voice channel of a user, from the user's voice state in the guild
    /// (`None` when the guild or the state is not cached).
    pub fn get_user_voice_channel(voice: Option<VoiceState>) -> (c: Option<u64>)
        ensures
            c == spec_voice_channel(voice),
    {
        match voice {
            None => None,
            Some(vs) => vs.channel_id,
        }
    }

    /// Check if the target user is in the given channel and screensharing.
    /// Returns (`in_same_channel`, `is_screensharing`).
    pub fn check_target_user(target: Option<VoiceState>, user_channel_id: u64) -> (r: (bool, bool))
        ensures
            r == spec_check_target(target, user_channel_id),
    {
        match target {
            None => (false, false),
            Some(vs) => {
                let in_same = match vs.channel_id {
                    Some(c) => c == user_channel_id,
                    None => false,
                };
                let streaming = match vs.self_stream {
                    Some(b) => b,
                    None => false,
                };
                (in_same, streaming)
            },
        }
    }

    /// Decides an invocation: `guild_id` is the server it was used in,
    /// `invoker` and `target` the voice states of the invoker and the target
    /// in that server, `raw_duration` the optional duration argument.
    pub fn plan(
        guild_id: Option<u64>,
        target_user_id: u64,
        raw_duration: Option<i64>,
        invoker: Option<VoiceState>,
        target: Option<VoiceState>,
        config: &Config,
    ) -> (res: Result<VotekickRequest, VotekickRejection>)
        requires
            raw_duration is Some ==> config.min_votekick_duration <= config.max_votekick_duration,
        ensures
            res == spec_plan(guild_id, target_user_id, raw_duration, invoker, target, *config),
            guild_id is None ==> res == Err::<VotekickRequest, VotekickRejection>(
                VotekickRejection::NotInGuild,
            ),
            res is Ok <==> {
                &&& guild_id is Some
                &&& invoker matches Some(i) && i.channel_id is Some
                &&& target matches Some(t) && t.channel_id == invoker->0.channel_id && t.self_stream
                    == Some(true)
            },
            res matches Ok(r) ==> {
                &&& Some(r.guild_id) == guild_id
                &&& r.target_user_id == target_user_id
                &&& invoker->0.channel_id == Some(r.channel_id)
                &&& raw_duration is None ==> r.duration_secs == config.default_votekick_duration
                &&& raw_duration matches Some(v) ==> {
                    &&& v < config.min_votekick_duration ==> r.duration_secs
                        == config.min_votekick_duration
                    &&& v > config.max_votekick_duration ==> r.duration_secs
                        == config.max_votekick_duration
                    &&& config.min_votekick_duration <= v <= config.max_votekick_duration
                        ==> r.duration_secs == v
                }
                &&& r.results_delete_delay_secs == config.results_delete_delay
                &&& r.min_yes_votes == config.min_votekick_yes_votes
            },
    {
        let guild = match guild_id {
            None => return Err(VotekickRejection::NotInGuild),
            Some(g) => g,
        };
        let duration_secs = Self::resolve_duration(raw_duration, config);
        let channel = match Self::get_user_voice_channel(invoker) {
            None => return Err(VotekickRejection::InvokerNotInVoice),
            Some(c) => c,
        };
        let (same, streaming) = Self::check_target_user(target, channel);
        if !same {
            return Err(VotekickRejection::TargetNotInSameChannel);
        }
        if !streaming {
            return Err(VotekickRejection::TargetNotScreensharing);
        }
        Ok(
            VotekickRequest {
                guild_id: guild,
                target_user_id,
                channel_id: channel,
                duration_secs,
                results_delete_delay_secs: config.results_delete_delay,
                min_yes_votes: config.min_votekick_yes_votes,
            },
        )
    }

    /// The reply when starting the poll failed.
    pub fn failure_message() -> (m: String)
        ensures
            m@ == "Failed to start the votekick. Please try again later."@,
    {
        String::from_str("Failed to start the votekick. Please try again later.")
    }
}

/// A votekick starts only when used in a server by a member in a voice
/// channel, against a target in that same channel who is screensharing; the
/// poll then runs in that channel for a duration within the configured
/// bounds (or the default one when none was given), with the configured
/// minimum of yes votes and delay before result messages are deleted.
pub proof fn lemma_votekick_preconditions(
    guild_id: Option<u64>,
    target_user_id: u64,
    raw_duration: Option<i64>,
    invoker: Option<VoiceState>,
    target: Option<VoiceState>,
    config: Config,
)
    requires
        config.min_votekick_duration <= config.max_votekick_duration,
    ensures
        spec_plan(guild_id, target_user_id, raw_duration, invoker, target, config) matches Ok(req)
            ==> {
            &&& guild_id == Some(req.guild_id)
            &&& invoker matches Some(i) && i.channel_id == Some(req.channel_id)
            &&& target matches Some(t) && t.channel_id == Some(req.channel_id) && t.self_stream
                == Some(true)
            &&& req.target_user_id == target_user_id
            &&& req.min_yes_votes == config.min_votekick_yes_votes
            &&& req.results_delete_delay_secs == config.results_delete_delay
            &&& raw_duration is Some ==> config.min_votekick_duration <= req.duration_secs
                <= config.max_votekick_duration
            &&& raw_duration is None ==> req.duration_secs == config.default_votekick_duration
        },
{
}

} // verus!

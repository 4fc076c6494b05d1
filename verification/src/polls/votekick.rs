//! The votekick poll: its content, its verdict, and the steps that follow a
//! finished vote, each with the result message the channel is sent.

use vstd::prelude::*;

use crate::polls::{spec_decide, decide, PollInfo, VoteOutcome};
use crate::voice::VoiceState;
use crate::text::{decimal, push_decimal, push_str};

verus! {

/// Metadata kept for a running votekick.
#[derive(Clone, Debug)]
pub struct VotekickMetadata {
    /// Target user ID
    pub target_user_id: u64,
    /// Guild where the votekick was started
    pub guild_id: u64,
    /// Voice channel the target was in
    pub channel_id: u64,
    /// Name of the votekick initiator
    pub initiator_name: String,
    /// Name of the target user
    pub target_name: String,
    /// Poll duration in seconds
    pub duration_secs: u64,
    /// How long result messages remain before deletion, in seconds
    pub results_delete_delay_secs: u64,
    /// Minimum yes votes needed for the votekick to pass
    pub min_yes_votes: u32,
}


// ---------------------------------------------------------------------------
// Result messages
// ---------------------------------------------------------------------------

/// How a user is mentioned in a message.
pub open spec fn mention_text(user_id: u64) -> Seq<char> {
    "<@"@ + decimal(user_id as nat) + ">"@
}

pub open spec fn not_enough_yes_text(min_yes: nat, yes: nat, no: nat) -> Seq<char> {
    "📊 Votekick results: **Did not pass**\nNeed at least "@ + decimal(min_yes)
        + " ✅ votes.\nResults: ✅ "@ + decimal(yes) + " | ❌ "@ + decimal(no)
        + " (Total votes: "@ + decimal(yes + no) + ")"@
}

pub open spec fn no_majority_text(yes: nat, no: nat) -> Seq<char> {
    "📊 Votekick results: **Did not pass**\n✅ "@ + decimal(yes) + " | ❌ "@ + decimal(no)
        + " (Total votes: "@ + decimal(yes + no) + ")\n\nYes votes needed to exceed No votes."@
}

pub open spec fn member_unavailable_text() -> Seq<char> {
    "📊 Votekick passed but I couldn't fetch the target member. Please verify my permissions."@
}

pub open spec fn no_permission_text(yes: nat, no: nat) -> Seq<char> {
    "📊 Votekick passed (✅ "@ + decimal(yes) + " | ❌ "@ + decimal(no)
        + ") but I don't have permission to disconnect members. An admin needs to grant me **Move Members**."@
}

pub open spec fn left_voice_text(yes: nat, no: nat, target: u64) -> Seq<char> {
    "📊 Votekick passed (✅ "@ + decimal(yes) + " | ❌ "@ + decimal(no) + ") but "@
        + mention_text(target) + " is no longer in the voice channel."@
}

pub open spec fn kick_failed_text(yes: nat, no: nat, target: u64, error: Seq<char>) -> Seq<char> {
    "📊 Votekick passed (✅ "@ + decimal(yes) + " | ❌ "@ + decimal(no) + ") but failed to kick "@
        + mention_text(target) + ": "@ + error
}

pub open spec fn kicked_text(yes: nat, no: nat, target: u64) -> Seq<char> {
    "👢 **"@ + mention_text(target) + "** was kicked from the voice channel!\n\n📊 Results: ✅ "@
        + decimal(yes) + " | ❌ "@ + decimal(no) + " (Total votes: "@ + decimal(yes + no) + ")"@
}

fn push_mention(s: &mut String, user_id: u64)
    ensures
        final(s)@ == old(s)@ + mention_text(user_id),
{
    let ghost s0 = s@;
    push_str(s, "<@");
    push_decimal(s, user_id);
    push_str(s, ">");
    assert(s@ =~= s0 + mention_text(user_id));
}

/// Appends "(✅ {yes} | ❌ {no}" style counts: `lead` + yes + " | ❌ " + no.
fn push_counts(s: &mut String, lead: &str, yes: u32, no: u32)
    ensures
        final(s)@ == old(s)@ + lead@ + decimal(yes as nat) + " | ❌ "@ + decimal(no as nat),
{
    push_str(s, lead);
    push_decimal(s, yes as u64);
    push_str(s, " | ❌ ");
    push_decimal(s, no as u64);
}

fn not_enough_yes_message(min_yes: u32, yes: u32, no: u32) -> (m: String)
    requires
        yes + no <= u32::MAX,
    ensures
        m@ == not_enough_yes_text(min_yes as nat, yes as nat, no as nat),
{
    let mut s = String::from_str("📊 Votekick results: **Did not pass**\nNeed at least ");
    push_decimal(&mut s, min_yes as u64);
    push_counts(&mut s, " ✅ votes.\nResults: ✅ ", yes, no);
    push_str(&mut s, " (Total votes: ");
    push_decimal(&mut s, (yes + no) as u64);
    push_str(&mut s, ")");
    s
}

fn no_majority_message(yes: u32, no: u32) -> (m: String)
    requires
        yes + no <= u32::MAX,
    ensures
        m@ == no_majority_text(yes as nat, no as nat),
{
    let mut s = String::new();
    push_counts(&mut s, "📊 Votekick results: **Did not pass**\n✅ ", yes, no);
    push_str(&mut s, " (Total votes: ");
    push_decimal(&mut s, (yes + no) as u64);
    push_str(&mut s, ")\n\nYes votes needed to exceed No votes.");
    assert(s@ =~= no_majority_text(yes as nat, no as nat));
    s
}

fn member_unavailable_message() -> (m: String)
    ensures
        m@ == member_unavailable_text(),
{
    String::from_str(
        "📊 Votekick passed but I couldn't fetch the target member. Please verify my permissions.",
    )
}

fn no_permission_message(yes: u32, no: u32) -> (m: String)
    ensures
        m@ == no_permission_text(yes as nat, no as nat),
{
    let mut s = String::new();
    push_counts(&mut s, "📊 Votekick passed (✅ ", yes, no);
    push_str(
        &mut s,
        ") but I don't have permission to disconnect members. An admin needs to grant me **Move Members**.",
    );
    assert(s@ =~= no_permission_text(yes as nat, no as nat));
    s
}

fn left_voice_message(yes: u32, no: u32, target: u64) -> (m: String)
    ensures
        m@ == left_voice_text(yes as nat, no as nat, target),
{
    let mut s = String::new();
    push_counts(&mut s, "📊 Votekick passed (✅ ", yes, no);
    push_str(&mut s, ") but ");
    push_mention(&mut s, target);
    push_str(&mut s, " is no longer in the voice channel.");
    assert(s@ =~= left_voice_text(yes as nat, no as nat, target));
    s
}

fn kick_failed_message(yes: u32, no: u32, target: u64, error: &String) -> (m: String)
    ensures
        m@ == kick_failed_text(yes as nat, no as nat, target, error@),
{
    let mut s = String::new();
    push_counts(&mut s, "📊 Votekick passed (✅ ", yes, no);
    push_str(&mut s, ") but failed to kick ");
    push_mention(&mut s, target);
    push_str(&mut s, ": ");
    push_str(&mut s, error.as_str());
    assert(s@ =~= kick_failed_text(yes as nat, no as nat, target, error@));
    s
}

fn kicked_message(yes: u32, no: u32, target: u64) -> (m: String)
    requires
        yes + no <= u32::MAX,
    ensures
        m@ == kicked_text(yes as nat, no as nat, target),
{
    let mut s = String::from_str("👢 **");
    push_mention(&mut s, target);
    push_counts(&mut s, "** was kicked from the voice channel!\n\n📊 Results: ✅ ", yes, no);
    push_str(&mut s, " (Total votes: ");
    push_decimal(&mut s, (yes + no) as u64);
    push_str(&mut s, ")");
    s
}


// ---------------------------------------------------------------------------
// The poll
// ---------------------------------------------------------------------------

/// A poll for voting to kick a user from a voice channel.
#[derive(Clone, Debug)]
pub struct VotekickPoll {
    /// The user who initiated the votekick
    pub initiator_name: String,
    /// Target user's display name
    pub target_name: String,
    /// Poll duration in seconds
    pub duration_secs: u64,
    /// How long result messages remain before deletion, in seconds
    pub results_delete_delay_secs: u64,
    /// Target user ID
    pub target_user_id: u64,
    /// Guild where the votekick was started
    pub guild_id: u64,
    /// Voice channel the target was in
    pub channel_id: u64,
    /// Minimum yes votes needed for the votekick to pass
    pub min_yes_votes: u32,
}

/// A field of an embed.
#[derive(Clone, Debug)]
pub struct EmbedField {
    pub name: String,
    pub value: String,
    pub inline: bool,
}

/// The content of the embed that shows a poll.
#[derive(Clone, Debug)]
pub struct EmbedSpec {
    pub title: String,
    pub description: String,
    pub fields: Vec<EmbedField>,
    pub footer: Option<String>,
}

pub open spec fn votekick_title() -> Seq<char> {
    "📊 Votekick Started"@
}

pub open spec fn votekick_description(target_name: Seq<char>) -> Seq<char> {
    "Vote to kick **"@ + target_name
        + "** from the voice channel?\n\nReact with ✅ to vote **Yes**\nReact with ❌ to vote **No**"@
}

pub open spec fn duration_text(secs: u64) -> Seq<char> {
    decimal(secs as nat) + " seconds"@
}

pub open spec fn initiated_by_text(initiator: Seq<char>) -> Seq<char> {
    "Initiated by "@ + initiator
}

/// The emoji of the yes reaction.
pub fn yes_reaction() -> (r: String)
    ensures
        r@ == "✅"@,
{
    String::from_str("✅")
}

/// The emoji of the no reaction.
pub fn no_reaction() -> (r: String)
    ensures
        r@ == "❌"@,
{
    String::from_str("❌")
}

impl VotekickPoll {
    /// Create a new votekick poll.
    pub fn new(
        initiator_name: String,
        target_name: String,
        duration_secs: u64,
        results_delete_delay_secs: u64,
        target_user_id: u64,
        guild_id: u64,
        channel_id: u64,
        min_yes_votes: u32,
    ) -> (poll: VotekickPoll)
        ensures
            poll == (VotekickPoll {
                initiator_name,
                target_name,
                duration_secs,
                results_delete_delay_secs,
                target_user_id,
                guild_id,
                channel_id,
                min_yes_votes,
            }),
    {
        VotekickPoll {
            initiator_name,
            target_name,
            duration_secs,
            results_delete_delay_secs,
            target_user_id,
            guild_id,
            channel_id,
            min_yes_votes,
        }
    }

    /// Reconstruct a votekick poll from its metadata; the delay before result
    /// messages are deleted is the one given, not the one in the metadata.
    pub fn from_metadata(metadata: &VotekickMetadata, results_delete_delay_secs: u64) -> (poll:
        VotekickPoll)
        ensures
            poll == (VotekickPoll {
                initiator_name: metadata.initiator_name,
                target_name: metadata.target_name,
                duration_secs: metadata.duration_secs,
                results_delete_delay_secs,
                target_user_id: metadata.target_user_id,
                guild_id: metadata.guild_id,
                channel_id: metadata.channel_id,
                min_yes_votes: metadata.min_yes_votes,
            }),
    {
        VotekickPoll::new(
            metadata.initiator_name.clone(),
            metadata.target_name.clone(),
            metadata.duration_secs,
            results_delete_delay_secs,
            metadata.target_user_id,
            metadata.guild_id,
            metadata.channel_id,
            metadata.min_yes_votes,
        )
    }

    /// The metadata stored with the running poll.
    pub fn metadata(&self) -> (meta: Option<VotekickMetadata>)
        ensures
            meta == Some(
                VotekickMetadata {
                    target_user_id: self.target_user_id,
                    guild_id: self.guild_id,
                    channel_id: self.channel_id,
                    initiator_name: self.initiator_name,
                    target_name: self.target_name,
                    duration_secs: self.duration_secs,
                    results_delete_delay_secs: self.results_delete_delay_secs,
                    min_yes_votes: self.min_yes_votes,
                },
            ),
    {
        Some(
            VotekickMetadata {
                target_user_id: self.target_user_id,
                guild_id: self.guild_id,
                channel_id: self.channel_id,
                initiator_name: self.initiator_name.clone(),
                target_name: self.target_name.clone(),
                duration_secs: self.duration_secs,
                results_delete_delay_secs: self.results_delete_delay_secs,
                min_yes_votes: self.min_yes_votes,
            },
        )
    }

    /// The poll title displayed in the embed.
    pub fn title(&self) -> (t: String)
        ensures
            t@ == votekick_title(),
    {
        String::from_str("📊 Votekick Started")
    }

    /// The question the poll asks.
    pub fn description(&self) -> (d: String)
        ensures
            d@ == votekick_description(self.target_name@),
    {
        let mut d = String::from_str("Vote to kick **");
        push_str(&mut d, self.target_name.as_str());
        push_str(
            &mut d,
            "** from the voice channel?\n\nReact with ✅ to vote **Yes**\nReact with ❌ to vote **No**",
        );
        d
    }

    /// Duration of the poll in seconds.
    pub fn duration(&self) -> (secs: u64)
        ensures
            secs == self.duration_secs,
    {
        self.duration_secs
    }

    /// The embed shown for the poll: title, question, the duration as a field
    /// and who started it as the footer.
    pub fn build_embed(&self) -> (e: EmbedSpec)
        ensures
            e.title@ == votekick_title(),
            e.description@ == votekick_description(self.target_name@),
            e.fields@.len() == 1,
            e.fields@[0].name@ == "Duration"@,
            e.fields@[0].value@ == duration_text(self.duration_secs),
            !e.fields@[0].inline,
            e.footer is Some,
            e.footer->0@ == initiated_by_text(self.initiator_name@),
    {
        let mut value = String::new();
        push_decimal(&mut value, self.duration());
        push_str(&mut value, " seconds");
        assert(value@ =~= duration_text(self.duration_secs));
        let mut footer = String::from_str("Initiated by ");
        push_str(&mut footer, self.initiator_name.as_str());
        let mut fields: Vec<EmbedField> = Vec::new();
        fields.push(EmbedField { name: String::from_str("Duration"), value, inline: false });
        EmbedSpec { title: self.title(), description: self.description(), fields, footer: Some(footer) }
    }
}

// ---------------------------------------------------------------------------
// Who may vote, and whether the bot may kick
// ---------------------------------------------------------------------------

/// Only users in the votekick's voice channel may vote; a poll without
/// votekick metadata lets no one vote.
pub open spec fn spec_is_eligible_voter(info: PollInfo, voter: Option<VoiceState>) -> bool {
    match info.votekick {
        None => false,
        Some(meta) => match voter {
            None => false,
            Some(vs) => vs.channel_id == Some(meta.channel_id),
        },
    }
}

/// The Move Members permission bit.
pub const MOVE_MEMBERS: u64 = 16777216;

impl VotekickPoll {
    /// Whether a user may vote in the poll; `voter` is the user's voice state
    /// in the votekick's guild (`None` when the guild or the user's voice
    /// state is not in the cache).
    pub fn is_eligible_voter(&self, info: &PollInfo, voter: Option<VoiceState>) -> (res: bool)
        ensures
            res == spec_is_eligible_voter(*info, voter),
    {
        match &info.votekick {
            None => false,
            Some(meta) => match voter {
                None => false,
                Some(vs) => match vs.channel_id {
                    Some(c) => c == meta.channel_id,
                    None => false,
                },
            },
        }
    }

    /// Whether the bot may disconnect members: `permissions` are the bot's
    /// permission bits in the voice channel, `None` when the bot's member,
    /// the guild or the channel could not be looked up.
    pub fn can_disconnect_member(permissions: Option<u64>) -> (res: bool)
        ensures
            res == match permissions {
                Some(bits) => bits & MOVE_MEMBERS == MOVE_MEMBERS,
                None => false,
            },
    {
        match permissions {
            Some(bits) => bits & MOVE_MEMBERS == MOVE_MEMBERS,
            None => false,
        }
    }
}

// ---------------------------------------------------------------------------
// Completion: what follows the end of the vote
// ---------------------------------------------------------------------------

/// Where a finished votekick stands.
#[derive(Clone, Copy, Debug, PartialEq, Eq, Structural)]
pub enum CompletionStage {
    /// The vote passed; the target member is being fetched.
    AwaitTargetMember,
    /// The member was fetched; the bot's Move Members permission is checked.
    AwaitMovePermission,
    /// The bot may move members; the target's presence in voice is checked.
    AwaitTargetInVoice,
    /// The target is being disconnected.
    AwaitDisconnect,
    /// Nothing more happens.
    Finished,
}

/// The state of a finished votekick while its outcome is carried out.
#[derive(Clone, Copy, Debug, PartialEq, Eq, Structural)]
pub struct VotekickCompletion {
    pub stage: CompletionStage,
    pub yes_votes: u32,
    pub no_votes: u32,
    pub min_yes_votes: u32,
    pub guild_id: u64,
    pub target_user_id: u64,
    /// The voice channel, whose chat receives the result message.
    pub channel_id: u64,
    pub results_delete_delay_secs: u64,
    /// The user ID of the fetched target member, mentioned in the messages.
    pub target_mention_id: u64,
}

/// What the bot does next.
pub enum CompletionAction {
    /// Post `text` in the channel and delete it after `delete_after_secs`.
    Announce { channel_id: u64, text: String, delete_after_secs: u64 },
    /// Fetch the target's guild member.
    FetchTargetMember { guild_id: u64, user_id: u64 },
    /// Check whether the bot may move members in the voice channel.
    CheckMovePermission { guild_id: u64, channel_id: u64 },
    /// Check whether the target is still in a voice channel of the guild.
    CheckTargetInVoice { guild_id: u64, user_id: u64 },
    /// Disconnect the target from voice.
    DisconnectTarget { guild_id: u64, user_id: u64 },
    /// Nothing is left to do.
    Stop,
}

pub ghost enum ActionView {
    Announce { channel_id: u64, text: Seq<char>, delete_after_secs: u64 },
    FetchTargetMember { guild_id: u64, user_id: u64 },
    CheckMovePermission { guild_id: u64, channel_id: u64 },
    CheckTargetInVoice { guild_id: u64, user_id: u64 },
    DisconnectTarget { guild_id: u64, user_id: u64 },
    Stop,
}

impl View for CompletionAction {
    type V = ActionView;

    open spec fn view(&self) -> ActionView {
        match self {
            CompletionAction::Announce { channel_id, text, delete_after_secs } => ActionView::Announce {
                channel_id: *channel_id,
                text: text@,
                delete_after_secs: *delete_after_secs,
            },
            CompletionAction::FetchTargetMember { guild_id, user_id } => ActionView::FetchTargetMember {
                guild_id: *guild_id,
                user_id: *user_id,
            },
            CompletionAction::CheckMovePermission { guild_id, channel_id } => ActionView::CheckMovePermission {
                guild_id: *guild_id,
                channel_id: *channel_id,
            },
            CompletionAction::CheckTargetInVoice { guild_id, user_id } => ActionView::CheckTargetInVoice {
                guild_id: *guild_id,
                user_id: *user_id,
            },
            CompletionAction::DisconnectTarget { guild_id, user_id } => ActionView::DisconnectTarget {
                guild_id: *guild_id,
                user_id: *user_id,
            },
            CompletionAction::Stop => ActionView::Stop,
        }
    }
}

/// What the bot learned from the action it carried out.
pub enum CompletionEvent {
    /// The user ID of the fetched target member, or `None` when it could not
    /// be fetched.
    TargetMember(Option<u64>),
    /// Whether the bot may move members in the voice channel.
    MovePermission(bool),
    /// Whether the target is still in a voice channel of the guild.
    TargetInVoice(bool),
    /// The result of the disconnect, with the error's text on failure.
    Disconnected(Result<(), String>),
}

pub ghost enum EventView {
    TargetMember(Option<u64>),
    MovePermission(bool),
    TargetInVoice(bool),
    Disconnected(Result<(), Seq<char>>),
}

impl View for CompletionEvent {
    type V = EventView;

    open spec fn view(&self) -> EventView {
        match self {
            CompletionEvent::TargetMember(m) => EventView::TargetMember(*m),
            CompletionEvent::MovePermission(b) => EventView::MovePermission(*b),
            CompletionEvent::TargetInVoice(b) => EventView::TargetInVoice(*b),
            CompletionEvent::Disconnected(r) => EventView::Disconnected(
                match r {
                    Ok(()) => Ok(()),
                    Err(e) => Err(e@),
                },
            ),
        }
    }
}

pub open spec fn announce(c: VotekickCompletion, text: Seq<char>) -> ActionView {
    ActionView::Announce {
        channel_id: c.channel_id,
        text,
        delete_after_secs: c.results_delete_delay_secs,
    }
}

pub open spec fn finished(c: VotekickCompletion) -> VotekickCompletion {
    VotekickCompletion { stage: CompletionStage::Finished, ..c }
}

/// How a finished vote is first handled: without votekick metadata nothing
/// happens; a vote that did not pass is answered with its results; a vote
/// that passed goes on to fetch the target member.
pub open spec fn spec_begin(
    min_yes: u32,
    delete_delay: u64,
    yes: u32,
    no: u32,
    info: PollInfo,
) -> (VotekickCompletion, ActionView) {
    match info.votekick {
        None => (
            VotekickCompletion {
                stage: CompletionStage::Finished,
                yes_votes: yes,
                no_votes: no,
                min_yes_votes: min_yes,
                guild_id: 0,
                target_user_id: 0,
                channel_id: 0,
                results_delete_delay_secs: delete_delay,
                target_mention_id: 0,
            },
            ActionView::Stop,
        ),
        Some(meta) => {
            let c = VotekickCompletion {
                stage: CompletionStage::AwaitTargetMember,
                yes_votes: yes,
                no_votes: no,
                min_yes_votes: min_yes,
                guild_id: meta.guild_id,
                target_user_id: meta.target_user_id,
                channel_id: meta.channel_id,
                results_delete_delay_secs: delete_delay,
                target_mention_id: 0,
            };
            match spec_decide(yes as nat, no as nat, min_yes as nat) {
                VoteOutcome::NotEnoughYes => (
                    finished(c),
                    announce(c, not_enough_yes_text(min_yes as nat, yes as nat, no as nat)),
                ),
                VoteOutcome::NoMajority => (
                    finished(c),
                    announce(c, no_majority_text(yes as nat, no as nat)),
                ),
                VoteOutcome::Passed => (
                    c,
                    ActionView::FetchTargetMember { guild_id: c.guild_id, user_id: c.target_user_id },
                ),
            }
        },
    }
}

/// One step of carrying out a passed votekick: the target member is
/// fetched, then the bot's permission is checked, then the target's presence
/// in voice, then the target is disconnected; a failure at any step is
/// answered with its message, and so is the disconnect. An event that does
/// not fit the stage, or any event once finished, ends everything silently.
pub open spec fn spec_advance(c: VotekickCompletion, e: EventView) -> (
    VotekickCompletion,
    ActionView,
) {
    let y = c.yes_votes as nat;
    let n = c.no_votes as nat;
    match (c.stage, e) {
        (CompletionStage::AwaitTargetMember, EventView::TargetMember(None)) => (
            finished(c),
            announce(c, member_unavailable_text()),
        ),
        (CompletionStage::AwaitTargetMember, EventView::TargetMember(Some(member))) => (
            VotekickCompletion {
                stage: CompletionStage::AwaitMovePermission,
                target_mention_id: member,
                ..c
            },
            ActionView::CheckMovePermission { guild_id: c.guild_id, channel_id: c.channel_id },
        ),
        (CompletionStage::AwaitMovePermission, EventView::MovePermission(false)) => (
            finished(c),
            announce(c, no_permission_text(y, n)),
        ),
        (CompletionStage::AwaitMovePermission, EventView::MovePermission(true)) => (
            VotekickCompletion { stage: CompletionStage::AwaitTargetInVoice, ..c },
            ActionView::CheckTargetInVoice { guild_id: c.guild_id, user_id: c.target_user_id },
        ),
        (CompletionStage::AwaitTargetInVoice, EventView::TargetInVoice(false)) => (
            finished(c),
            announce(c, left_voice_text(y, n, c.target_mention_id)),
        ),
        (CompletionStage::AwaitTargetInVoice, EventView::TargetInVoice(true)) => (
            VotekickCompletion { stage: CompletionStage::AwaitDisconnect, ..c },
            ActionView::DisconnectTarget { guild_id: c.guild_id, user_id: c.target_user_id },
        ),
        (CompletionStage::AwaitDisconnect, EventView::Disconnected(Err(err))) => (
            finished(c),
            announce(c, kick_failed_text(y, n, c.target_mention_id, err)),
        ),
        (CompletionStage::AwaitDisconnect, EventView::Disconnected(Ok(()))) => (
            finished(c),
            announce(c, kicked_text(y, n, c.target_mention_id)),
        ),
        _ => (finished(c), ActionView::Stop),
    }
}

/// A completion in progress belongs to a vote that passed, and its counts add
/// up within `u32`.
pub open spec fn completion_wf(c: VotekickCompletion) -> bool {
    &&& c.yes_votes + c.no_votes <= u32::MAX
    &&& c.stage != CompletionStage::Finished ==> spec_decide(
        c.yes_votes as nat,
        c.no_votes as nat,
        c.min_yes_votes as nat,
    ) == VoteOutcome::Passed
}

impl VotekickPoll {
    /// Called when the poll ends with its counts (the bot excluded): decides
    /// the vote and says what to do first.
    pub fn begin_completion(&self, yes_votes: u32, no_votes: u32, info: &PollInfo) -> (res: (
        VotekickCompletion,
        CompletionAction,
    ))
        requires
            yes_votes + no_votes <= u32::MAX,
        ensures
            (res.0, res.1@) == spec_begin(
                self.min_yes_votes,
                self.results_delete_delay_secs,
                yes_votes,
                no_votes,
                *info,
            ),
            completion_wf(res.0),
            info.votekick is None ==> res.1@ == ActionView::Stop && res.0.stage
                == CompletionStage::Finished,
            info.votekick matches Some(meta) ==> {
                &&& yes_votes < self.min_yes_votes ==> {
                    &&& res.0.stage == CompletionStage::Finished
                    &&& res.1@ == ActionView::Announce {
                        channel_id: meta.channel_id,
                        text: not_enough_yes_text(
                            self.min_yes_votes as nat,
                            yes_votes as nat,
                            no_votes as nat,
                        ),
                        delete_after_secs: self.results_delete_delay_secs,
                    }
                }
                &&& (yes_votes >= self.min_yes_votes && yes_votes <= no_votes) ==> {
                    &&& res.0.stage == CompletionStage::Finished
                    &&& res.1@ == ActionView::Announce {
                        channel_id: meta.channel_id,
                        text: no_majority_text(yes_votes as nat, no_votes as nat),
                        delete_after_secs: self.results_delete_delay_secs,
                    }
                }
                &&& (yes_votes >= self.min_yes_votes && yes_votes > no_votes) ==> {
                    &&& res.0.stage == CompletionStage::AwaitTargetMember
                    &&& res.1@ == ActionView::FetchTargetMember {
                        guild_id: meta.guild_id,
                        user_id: meta.target_user_id,
                    }
                }
                &&& res.0.yes_votes == yes_votes
                &&& res.0.no_votes == no_votes
                &&& res.0.min_yes_votes == self.min_yes_votes
                &&& res.0.guild_id == meta.guild_id
                &&& res.0.target_user_id == meta.target_user_id
                &&& res.0.channel_id == meta.channel_id
                &&& res.0.results_delete_delay_secs == self.results_delete_delay_secs
            },
    {
        let delay = self.results_delete_delay_secs;
        match &info.votekick {
            None => (
                VotekickCompletion {
                    stage: CompletionStage::Finished,
                    yes_votes,
                    no_votes,
                    min_yes_votes: self.min_yes_votes,
                    guild_id: 0,
                    target_user_id: 0,
                    channel_id: 0,
                    results_delete_delay_secs: delay,
                    target_mention_id: 0,
                },
                CompletionAction::Stop,
            ),
            Some(meta) => {
                let c = VotekickCompletion {
                    stage: CompletionStage::AwaitTargetMember,
                    yes_votes,
                    no_votes,
                    min_yes_votes: self.min_yes_votes,
                    guild_id: meta.guild_id,
                    target_user_id: meta.target_user_id,
                    channel_id: meta.channel_id,
                    results_delete_delay_secs: delay,
                    target_mention_id: 0,
                };
                match decide(yes_votes, no_votes, self.min_yes_votes) {
                    VoteOutcome::NotEnoughYes => {
                        let text = not_enough_yes_message(self.min_yes_votes, yes_votes, no_votes);
                        (
                            VotekickCompletion { stage: CompletionStage::Finished, ..c },
                            CompletionAction::Announce {
                                channel_id: c.channel_id,
                                text,
                                delete_after_secs: delay,
                            },
                        )
                    },
                    VoteOutcome::NoMajority => {
                        let text = no_majority_message(yes_votes, no_votes);
                        (
                            VotekickCompletion { stage: CompletionStage::Finished, ..c },
                            CompletionAction::Announce {
                                channel_id: c.channel_id,
                                text,
                                delete_after_secs: delay,
                            },
                        )
                    },
                    VoteOutcome::Passed => (
                        c,
                        CompletionAction::FetchTargetMember {
                            guild_id: c.guild_id,
                            user_id: c.target_user_id,
                        },
                    ),
                }
            },
        }
    }
}

impl VotekickCompletion {
    fn announce(&self, text: String) -> (a: CompletionAction)
        ensures
            a@ == announce(*self, text@),
    {
        CompletionAction::Announce {
            channel_id: self.channel_id,
            text,
            delete_after_secs: self.results_delete_delay_secs,
        }
    }

    /// Takes in what the last action found out and says what to do next.
    pub fn advance(self, event: CompletionEvent) -> (res: (VotekickCompletion, CompletionAction))
        requires
            completion_wf(self),
        ensures
            (res.0, res.1@) == spec_advance(self, event@),
            completion_wf(res.0),
    {
        let y = self.yes_votes;
        let n = self.no_votes;
        let done = VotekickCompletion { stage: CompletionStage::Finished, ..self };
        match (self.stage, event) {
            (CompletionStage::AwaitTargetMember, CompletionEvent::TargetMember(None)) => {
                (done, self.announce(member_unavailable_message()))
            },
            (CompletionStage::AwaitTargetMember, CompletionEvent::TargetMember(Some(member))) => (
                VotekickCompletion {
                    stage: CompletionStage::AwaitMovePermission,
                    target_mention_id: member,
                    ..self
                },
                CompletionAction::CheckMovePermission {
                    guild_id: self.guild_id,
                    channel_id: self.channel_id,
                },
            ),
            (CompletionStage::AwaitMovePermission, CompletionEvent::MovePermission(allowed)) => {
                if allowed {
                    (
                        VotekickCompletion { stage: CompletionStage::AwaitTargetInVoice, ..self },
                        CompletionAction::CheckTargetInVoice {
                            guild_id: self.guild_id,
                            user_id: self.target_user_id,
                        },
                    )
                } else {
                    (done, self.announce(no_permission_message(y, n)))
                }
            },
            (CompletionStage::AwaitTargetInVoice, CompletionEvent::TargetInVoice(present)) => {
                if present {
                    (
                        VotekickCompletion { stage: CompletionStage::AwaitDisconnect, ..self },
                        CompletionAction::DisconnectTarget {
                            guild_id: self.guild_id,
                            user_id: self.target_user_id,
                        },
                    )
                } else {
                    (done, self.announce(left_voice_message(y, n, self.target_mention_id)))
                }
            },
            (CompletionStage::AwaitDisconnect, CompletionEvent::Disconnected(result)) => {
                match result {
                    Ok(()) => (done, self.announce(kicked_message(y, n, self.target_mention_id))),
                    Err(err) => (
                        done,
                        self.announce(kick_failed_message(y, n, self.target_mention_id, &err)),
                    ),
                }
            },
            _ => (done, CompletionAction::Stop),
        }
    }
}


/// A target is only ever disconnected after a vote that passed, once its
/// member was fetched, the bot's permission to move members was confirmed
/// and the target was found still in voice: the first step never
/// disconnects, and a later step disconnects only when it learns, while
/// waiting for it, that the target is in voice. Every announcement ends the
/// completion, and once finished nothing more happens.
pub proof fn lemma_disconnect_only_after_all_checks(
    c: VotekickCompletion,
    e: EventView,
    min_yes: u32,
    delete_delay: u64,
    yes: u32,
    no: u32,
    info: PollInfo,
)
    requires
        completion_wf(c),
    ensures
        !(spec_begin(min_yes, delete_delay, yes, no, info).1 is DisconnectTarget),
        spec_begin(min_yes, delete_delay, yes, no, info).0.stage != CompletionStage::Finished
            ==> spec_decide(yes as nat, no as nat, min_yes as nat) == VoteOutcome::Passed,
        spec_advance(c, e).1 is DisconnectTarget ==> {
            &&& spec_decide(c.yes_votes as nat, c.no_votes as nat, c.min_yes_votes as nat)
                == VoteOutcome::Passed
            &&& c.stage == CompletionStage::AwaitTargetInVoice
            &&& e == EventView::TargetInVoice(true)
        },
        spec_advance(c, e).0.stage == CompletionStage::AwaitTargetInVoice ==> {
            &&& c.stage == CompletionStage::AwaitMovePermission
            &&& e == EventView::MovePermission(true)
        },
        spec_advance(c, e).0.stage == CompletionStage::AwaitMovePermission ==> {
            &&& c.stage == CompletionStage::AwaitTargetMember
            &&& e is TargetMember
            &&& e->TargetMember_0 is Some
        },
        spec_advance(c, e).1 is Announce ==> spec_advance(c, e).0.stage
            == CompletionStage::Finished,
        c.stage == CompletionStage::Finished ==> spec_advance(c, e).1 == ActionView::Stop,
{
}

/// Every result message goes to the chat of the votekick's voice channel and
/// is deleted after the poll's configured delay.
pub proof fn lemma_results_use_channel_and_delay(
    c: VotekickCompletion,
    e: EventView,
    min_yes: u32,
    delete_delay: u64,
    yes: u32,
    no: u32,
    info: PollInfo,
)
    ensures
        spec_begin(min_yes, delete_delay, yes, no, info).1 matches ActionView::Announce {
            channel_id,
            delete_after_secs,
            ..
        } ==> info.votekick is Some && channel_id == info.votekick->0.channel_id
            && delete_after_secs == delete_delay,
        spec_advance(c, e).1 matches ActionView::Announce { channel_id, delete_after_secs, .. }
            ==> channel_id == c.channel_id && delete_after_secs == c.results_delete_delay_secs,
{
}

/// A finished vote is answered from the counts it ended with: too few yes
/// votes is announced with the required minimum, the yes and no counts and
/// their sum; enough yes votes without a majority is announced with the yes
/// and no counts and their sum; a passed vote goes on to fetch its target.
pub proof fn lemma_verdict_announced_with_counts(
    min_yes: u32,
    delete_delay: u64,
    yes: u32,
    no: u32,
    info: PollInfo,
)
    requires
        info.votekick is Some,
    ensures
        yes < min_yes ==> spec_begin(min_yes, delete_delay, yes, no, info).1 == (ActionView::Announce {
            channel_id: info.votekick->0.channel_id,
            text: not_enough_yes_text(min_yes as nat, yes as nat, no as nat),
            delete_after_secs: delete_delay,
        }),
        yes >= min_yes && yes <= no ==> spec_begin(min_yes, delete_delay, yes, no, info).1
            == (ActionView::Announce {
            channel_id: info.votekick->0.channel_id,
            text: no_majority_text(yes as nat, no as nat),
            delete_after_secs: delete_delay,
        }),
        yes >= min_yes && yes > no ==> spec_begin(min_yes, delete_delay, yes, no, info).1
            == (ActionView::FetchTargetMember {
            guild_id: info.votekick->0.guild_id,
            user_id: info.votekick->0.target_user_id,
        }),
{
}

} // verus!

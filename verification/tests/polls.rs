use streamocracy::polls::votekick::{
    no_reaction, yes_reaction, CompletionAction, CompletionEvent, CompletionStage,
    VotekickMetadata, VotekickPoll, MOVE_MEMBERS,
};
use streamocracy::polls::{
    decide, ActivePolls, CountAction, PollInfo, VoteCount, VoteOutcome,
    VoteSide, VoteTally,
};
use streamocracy::voice::VoiceState;

fn poll(min_yes: u32) -> VotekickPoll {
    VotekickPoll::new("alice".to_string(), "bob".to_string(), 60, 15, 42, 1, 7, min_yes)
}

fn info_for(p: &VotekickPoll) -> PollInfo {
    PollInfo { channel_id: 99, votekick: p.metadata() }
}

fn announced(a: &CompletionAction) -> Option<(u64, String, u64)> {
    match a {
        CompletionAction::Announce { channel_id, text, delete_after_secs } => {
            Some((*channel_id, text.clone(), *delete_after_secs))
        }
        _ => None,
    }
}

#[test]
fn registry_hands_back_each_poll_once() {
    let mut active = ActivePolls::new();
    let p = poll(2);
    active.register(500, info_for(&p));
    active.register(501, PollInfo { channel_id: 3, votekick: None });
    assert!(active.is_active(500));
    let taken = active.take(500).expect("registered");
    assert_eq!(taken.channel_id, 99);
    assert_eq!(taken.votekick.unwrap().target_name, "bob");
    assert!(active.take(500).is_none());
    assert!(!active.is_active(500));
    assert!(active.is_active(501));
    assert!(active.take(777).is_none());
}

#[test]
fn tally_counts_each_user_once() {
    let bot = 1;
    let mut t = VoteTally::new(bot);
    assert!(!t.record(bot, VoteSide::Yes, true));
    assert!(t.record(10, VoteSide::Yes, true));
    assert!(!t.record(10, VoteSide::Yes, true));
    assert!(t.record(11, VoteSide::Yes, true));
    assert!(!t.record(12, VoteSide::Yes, false));
    // 10 also reacted with no: the yes reaction was looked at first and wins.
    assert!(!t.record(10, VoteSide::No, true));
    assert!(t.record(13, VoteSide::No, true));
    assert!(!t.record(bot, VoteSide::No, true));
    assert_eq!(t.yes_votes(), 2);
    assert_eq!(t.no_votes(), 1);
    assert!(!t.is_new_voter(10));
    assert!(!t.is_new_voter(bot));
    assert!(t.is_new_voter(12));
}

#[test]
fn eligibility_follows_the_voice_channel() {
    let p = poll(2);
    let info = info_for(&p);
    let there = Some(VoiceState { channel_id: Some(7), self_stream: None });
    let elsewhere = Some(VoiceState { channel_id: Some(8), self_stream: None });
    assert!(p.is_eligible_voter(&info, there));
    assert!(!p.is_eligible_voter(&info, elsewhere));
    assert!(!p.is_eligible_voter(&info, None));
    assert!(!p.is_eligible_voter(&info, Some(VoiceState { channel_id: None, self_stream: None })));
    let plain = PollInfo { channel_id: 7, votekick: None };
    assert!(!p.is_eligible_voter(&plain, there));
}

#[test]
fn move_members_permission() {
    assert_eq!(MOVE_MEMBERS, 1 << 24);
    assert!(VotekickPoll::can_disconnect_member(Some(1 << 24)));
    assert!(VotekickPoll::can_disconnect_member(Some(u64::MAX)));
    assert!(!VotekickPoll::can_disconnect_member(Some((1 << 24) - 1)));
    assert!(!VotekickPoll::can_disconnect_member(None));
}

#[test]
fn pass_rule() {
    assert_eq!(decide(1, 0, 2), VoteOutcome::NotEnoughYes);
    assert_eq!(decide(2, 2, 2), VoteOutcome::NoMajority);
    assert_eq!(decide(3, 2, 2), VoteOutcome::Passed);
    assert_eq!(decide(2, 1, 2), VoteOutcome::Passed);
    assert_eq!(decide(0, 0, 0), VoteOutcome::NoMajority);
}

#[test]
fn poll_content() {
    let p = poll(2);
    assert_eq!(p.title(), "📊 Votekick Started");
    assert_eq!(
        p.description(),
        "Vote to kick **bob** from the voice channel?\n\nReact with ✅ to vote **Yes**\nReact with ❌ to vote **No**"
    );
    assert_eq!(p.duration(), 60);
    let e = p.build_embed();
    assert_eq!(e.fields.len(), 1);
    assert_eq!(e.fields[0].name, "Duration");
    assert_eq!(e.fields[0].value, "60 seconds");
    assert!(!e.fields[0].inline);
    assert_eq!(e.footer.as_deref(), Some("Initiated by alice"));
    assert_eq!(yes_reaction(), "✅");
    assert_eq!(no_reaction(), "❌");
}

#[test]
fn metadata_round_trip() {
    let p = poll(3);
    let m: VotekickMetadata = p.metadata().unwrap();
    assert_eq!(m.target_user_id, 42);
    assert_eq!(m.guild_id, 1);
    assert_eq!(m.channel_id, 7);
    assert_eq!(m.results_delete_delay_secs, 15);
    let q = VotekickPoll::from_metadata(&m, 99);
    assert_eq!(q.results_delete_delay_secs, 99);
    assert_eq!(q.initiator_name, "alice");
    assert_eq!(q.target_name, "bob");
    assert_eq!(q.min_yes_votes, 3);
    assert_eq!(q.duration_secs, 60);
}

#[test]
fn not_enough_yes_is_announced() {
    let p = poll(2);
    let (c, a) = p.begin_completion(1, 0, &info_for(&p));
    assert_eq!(c.stage, CompletionStage::Finished);
    assert_eq!(
        announced(&a),
        Some((
            7,
            "📊 Votekick results: **Did not pass**\nNeed at least 2 ✅ votes.\nResults: ✅ 1 | ❌ 0 (Total votes: 1)".to_string(),
            15
        ))
    );
}

#[test]
fn no_majority_is_announced() {
    let p = poll(2);
    let (_, a) = p.begin_completion(3, 4, &info_for(&p));
    assert_eq!(
        announced(&a).unwrap().1,
        "📊 Votekick results: **Did not pass**\n✅ 3 | ❌ 4 (Total votes: 7)\n\nYes votes needed to exceed No votes."
    );
}

#[test]
fn missing_metadata_stops_silently() {
    let p = poll(2);
    let (c, a) = p.begin_completion(5, 0, &PollInfo { channel_id: 1, votekick: None });
    assert_eq!(c.stage, CompletionStage::Finished);
    assert!(matches!(a, CompletionAction::Stop));
}

#[test]
fn passed_vote_disconnects_after_all_checks() {
    let p = poll(2);
    let (c, a) = p.begin_completion(3, 1, &info_for(&p));
    assert!(matches!(a, CompletionAction::FetchTargetMember { guild_id: 1, user_id: 42 }));
    let (c, a) = c.advance(CompletionEvent::TargetMember(Some(42)));
    assert!(matches!(a, CompletionAction::CheckMovePermission { guild_id: 1, channel_id: 7 }));
    let (c, a) = c.advance(CompletionEvent::MovePermission(true));
    assert!(matches!(a, CompletionAction::CheckTargetInVoice { guild_id: 1, user_id: 42 }));
    let (c, a) = c.advance(CompletionEvent::TargetInVoice(true));
    assert!(matches!(a, CompletionAction::DisconnectTarget { guild_id: 1, user_id: 42 }));
    let (c2, a2) = c.advance(CompletionEvent::Disconnected(Ok(())));
    assert_eq!(
        announced(&a2).unwrap().1,
        "👢 **<@42>** was kicked from the voice channel!\n\n📊 Results: ✅ 3 | ❌ 1 (Total votes: 4)"
    );
    assert_eq!(c2.stage, CompletionStage::Finished);
    let (_, a3) = c2.advance(CompletionEvent::Disconnected(Ok(())));
    assert!(matches!(a3, CompletionAction::Stop));
    let (_, a4) = c.advance(CompletionEvent::Disconnected(Err("Missing Permissions".to_string())));
    assert_eq!(
        announced(&a4).unwrap().1,
        "📊 Votekick passed (✅ 3 | ❌ 1) but failed to kick <@42>: Missing Permissions"
    );
}

#[test]
fn passed_vote_failures_are_announced() {
    let p = poll(2);
    let (c, _) = p.begin_completion(3, 1, &info_for(&p));
    let (_, a) = c.advance(CompletionEvent::TargetMember(None));
    assert_eq!(
        announced(&a).unwrap().1,
        "📊 Votekick passed but I couldn't fetch the target member. Please verify my permissions."
    );
    let (c, _) = c.advance(CompletionEvent::TargetMember(Some(42)));
    let (_, a) = c.advance(CompletionEvent::MovePermission(false));
    assert_eq!(
        announced(&a).unwrap().1,
        "📊 Votekick passed (✅ 3 | ❌ 1) but I don't have permission to disconnect members. An admin needs to grant me **Move Members**."
    );
    let (c, _) = c.advance(CompletionEvent::MovePermission(true));
    let (_, a) = c.advance(CompletionEvent::TargetInVoice(false));
    assert_eq!(
        announced(&a).unwrap().1,
        "📊 Votekick passed (✅ 3 | ❌ 1) but <@42> is no longer in the voice channel."
    );
    // An event that does not fit the stage ends the completion silently.
    let (done, a) = c.advance(CompletionEvent::MovePermission(true));
    assert_eq!(done.stage, CompletionStage::Finished);
    assert!(matches!(a, CompletionAction::Stop));
}

#[test]
fn count_runs_yes_pages_then_no_pages() {
    let bot = 1;
    let (mut count, a) = VoteCount::start(bot);
    assert_eq!(a, CountAction::FetchPage { side: VoteSide::Yes, after: None });
    // A full page of yes reactions: the bot and users 2..=100.
    let page: Vec<u64> = (1..=100).collect();
    let eligible: Vec<bool> = page.iter().map(|u| u % 2 == 0).collect();
    let a = count.page(&page, &eligible);
    assert_eq!(a, CountAction::FetchPage { side: VoteSide::Yes, after: Some(100) });
    assert_eq!(count.voters_counted(), 50);
    let a = count.page(&vec![], &vec![]);
    assert_eq!(a, CountAction::FetchPage { side: VoteSide::No, after: None });
    // User 2 already voted yes; user 3 was not eligible then and still is not;
    // user 101 votes no.
    let a = count.page(&vec![2, 3, 101], &vec![true, false, true]);
    assert_eq!(a, CountAction::Finished { yes: 50, no: 1 });
}

#[test]
fn count_skips_a_side_that_cannot_be_listed() {
    let (mut count, _) = VoteCount::start(9);
    assert_eq!(count.page_failed(), CountAction::FetchPage { side: VoteSide::No, after: None });
    assert_eq!(count.page(&vec![4, 9], &vec![true, true]), CountAction::Finished { yes: 0, no: 1 });
}

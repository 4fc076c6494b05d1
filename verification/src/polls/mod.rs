//! Reaction polls: the registry of running polls, the tally of eligible votes,
//! and the votekick poll with its verdict and completion steps.

use std::collections::HashMap;
use vstd::prelude::*;

pub mod votekick;

use votekick::VotekickMetadata;

verus! {

broadcast use vstd::std_specs::hash::group_hash_axioms;

/// What is kept of a poll while it runs.
#[derive(Clone, Debug)]
pub struct PollInfo {
    /// Channel where the poll message was posted
    pub channel_id: u64,
    /// Votekick-specific metadata, if this poll is a votekick
    pub votekick: Option<VotekickMetadata>,
}

// ---------------------------------------------------------------------------
// Registry of running polls
// ---------------------------------------------------------------------------

/// The running polls, keyed by the ID of the poll message.
pub struct ActivePolls {
    polls: HashMap<u64, PollInfo>,
}

impl View for ActivePolls {
    type V = Map<u64, PollInfo>;

    closed spec fn view(&self) -> Map<u64, PollInfo> {
        self.polls@
    }
}

impl ActivePolls {
    /// No poll is running.
    pub fn new() -> (polls: ActivePolls)
        ensures
            polls@ == Map::<u64, PollInfo>::empty(),
    {
        ActivePolls { polls: HashMap::new() }
    }

    /// Records a poll that has just been posted; a poll already recorded under
    /// the same message is replaced.
    pub fn register(&mut self, message_id: u64, info: PollInfo)
        ensures
            final(self)@ == old(self)@.insert(message_id, info),
    {
        self.polls.insert(message_id, info);
    }

    /// Removes the poll of a message and hands back what was recorded of it;
    /// `None` when no poll runs under that message.
    pub fn take(&mut self, message_id: u64) -> (info: Option<PollInfo>)
        ensures
            final(self)@ == old(self)@.remove(message_id),
            match info {
                Some(i) => old(self)@.contains_key(message_id) && i == old(self)@[message_id],
                None => !old(self)@.contains_key(message_id),
            },
    {
        self.polls.remove(&message_id)
    }

    /// Whether a poll runs under the message.
    pub fn is_active(&self, message_id: u64) -> (res: bool)
        ensures
            res == self@.contains_key(message_id),
    {
        self.polls.contains_key(&message_id)
    }
}

/// A poll that was registered is taken back exactly as it was recorded, and
/// only once: after it was taken, taking it again finds nothing, while the
/// other running polls are left as they were.
pub proof fn lemma_poll_completes_once(
    running: Map<u64, PollInfo>,
    message_id: u64,
    info: PollInfo,
    other: u64,
)
    requires
        other != message_id,
    ensures
        running.insert(message_id, info).contains_key(message_id),
        running.insert(message_id, info)[message_id] == info,
        !running.insert(message_id, info).remove(message_id).contains_key(message_id),
        running.insert(message_id, info).remove(message_id).contains_key(other)
            == running.contains_key(other),
        running.contains_key(other) ==> running.insert(message_id, info).remove(message_id)[other]
            == running[other],
{
}

// ---------------------------------------------------------------------------
// Tally of eligible votes
// ---------------------------------------------------------------------------

/// The number of reacting users that one page of the reaction listing holds
/// at most.
pub const REACTION_PAGE_SIZE: u8 = 100;

/// The two reactions of a poll.
#[derive(Clone, Copy, Debug, PartialEq, Eq, Structural)]
pub enum VoteSide {
    Yes,
    No,
}

/// The abstract state of a tally.
pub ghost struct TallyView {
    pub bot_id: u64,
    pub voters: Seq<u64>,
    pub yes: nat,
    pub no: nat,
}

/// One reaction looked at by the tally: the bot and users who already voted
/// are passed over; an eligible newcomer is counted on the side of the
/// reaction, and a user that is not eligible is not counted.
pub open spec fn tally_step(t: TallyView, user: u64, side: VoteSide, eligible: bool) -> TallyView {
    if user == t.bot_id || t.voters.contains(user) || !eligible {
        t
    } else {
        TallyView {
            voters: t.voters.push(user),
            yes: if side == VoteSide::Yes { t.yes + 1 } else { t.yes },
            no: if side == VoteSide::No { t.no + 1 } else { t.no },
            ..t
        }
    }
}

/// The tally's consistency: each voter appears once, the bot is no voter,
/// and the two counts add up to the number of voters.
pub open spec fn tally_wf(t: TallyView) -> bool {
    &&& t.voters.no_duplicates()
    &&& !t.voters.contains(t.bot_id)
    &&& t.yes + t.no == t.voters.len()
}

/// Counts yes and no votes of a poll message, each user at most once,
/// never the bot that posted the poll.
pub struct VoteTally {
    bot_id: u64,
    voters: Vec<u64>,
    yes: u32,
    no: u32,
}

impl View for VoteTally {
    type V = TallyView;

    closed spec fn view(&self) -> TallyView {
        TallyView { bot_id: self.bot_id, voters: self.voters@, yes: self.yes as nat, no: self.no as nat }
    }
}

impl VoteTally {
    /// An empty tally for a poll posted by `bot_id`.
    pub fn new(bot_id: u64) -> (t: VoteTally)
        ensures
            t@ == (TallyView { bot_id, voters: Seq::<u64>::empty(), yes: 0, no: 0 }),
            tally_wf(t@),
    {
        VoteTally { bot_id, voters: Vec::new(), yes: 0, no: 0 }
    }

    /// The yes votes counted so far.
    pub fn yes_votes(&self) -> (n: u32)
        ensures
            n == self@.yes,
    {
        self.yes
    }

    /// The no votes counted so far.
    pub fn no_votes(&self) -> (n: u32)
        ensures
            n == self@.no,
    {
        self.no
    }

    /// Whether a reaction of `user` would still be looked at: the user is
    /// neither the bot nor someone who already voted.
    pub fn is_new_voter(&self, user: u64) -> (res: bool)
        ensures
            res == (user != self@.bot_id && !self@.voters.contains(user)),
    {
        if user == self.bot_id {
            return false;
        }
        let mut i: usize = 0;
        while i < self.voters.len()
            invariant
                i <= self.voters@.len(),
                forall|k: int| 0 <= k < i ==> self.voters@[k] != user,
            decreases self.voters.len() - i,
        {
            if self.voters[i] == user {
                return false;
            }
            i = i + 1;
        }
        true
    }

    /// Looks at one reaction of `user` on the `side` reaction; `eligible`
    /// says whether the poll lets that user vote.
    pub fn record(&mut self, user: u64, side: VoteSide, eligible: bool) -> (counted: bool)
        requires
            tally_wf(old(self)@),
            old(self)@.voters.len() < u32::MAX,
        ensures
            final(self)@ == tally_step(old(self)@, user, side, eligible),
            tally_wf(final(self)@),
            counted == (final(self)@ != old(self)@),
    {
        let fresh = self.is_new_voter(user);
        if !fresh || !eligible {
            return false;
        }
        self.voters.push(user);
        match side {
            VoteSide::Yes => {
                self.yes = self.yes + 1;
            },
            VoteSide::No => {
                self.no = self.no + 1;
            },
        }
        proof {
            let o = old(self)@;
            assert(self.voters@ == o.voters.push(user));
            assert forall|a: int, b: int|
                0 <= a < b < self.voters@.len() implies self.voters@[a] != self.voters@[b] by {
                if b == self.voters@.len() - 1 {
                    assert(o.voters.contains(o.voters[a]));
                }
            }
            assert forall|x: u64| self.voters@.contains(x) implies x != self.bot_id by {
                let k = choose|k: int| 0 <= k < self.voters@.len() && self.voters@[k] == x;
                if k < o.voters.len() {
                    assert(o.voters.contains(x));
                }
            }
            assert(self@.voters.len() == o.voters.len() + 1);
        }
        true
    }
}

/// Each user counts at most once: a reaction of someone who already voted,
/// on either side, leaves the tally as it was; so does a reaction of the
/// bot; and the yes and no counts together never exceed the number of
/// distinct users that reacted.
pub proof fn lemma_one_vote_per_user(t: TallyView, user: u64, side: VoteSide, eligible: bool)
    requires
        tally_wf(t),
        t.voters.contains(user) || user == t.bot_id,
    ensures
        tally_step(t, user, side, eligible) == t,
        t.yes + t.no == t.voters.len(),
        t.voters.no_duplicates(),
{
}

/// One page of reactions looked at in order; `eligible[k]` says whether the
/// `k`-th user may vote.
pub open spec fn tally_page(t: TallyView, users: Seq<u64>, eligible: Seq<bool>, side: VoteSide) -> TallyView
    decreases users.len(),
{
    if users.len() == 0 || eligible.len() < users.len() {
        t
    } else {
        tally_step(
            tally_page(t, users.drop_last(), eligible.take(users.len() - 1), side),
            users.last(),
            side,
            eligible[users.len() - 1],
        )
    }
}

/// What the count of a poll's votes needs next.
#[derive(Clone, Copy, Debug, PartialEq, Eq, Structural)]
pub enum CountAction {
    /// Fetch the page of users who reacted on `side`, starting after the
    /// user `after` (from the start when `None`).
    FetchPage { side: VoteSide, after: Option<u64> },
    /// Counting is over.
    Finished { yes: u32, no: u32 },
}

/// The count of a poll's votes, page by page: first the yes reactions, then
/// the no reactions, each user counted at most once over both.
pub struct VoteCount {
    tally: VoteTally,
    side: VoteSide,
    finished: bool,
}

pub ghost struct CountView {
    pub tally: TallyView,
    pub side: VoteSide,
    pub finished: bool,
}

impl View for VoteCount {
    type V = CountView;

    closed spec fn view(&self) -> CountView {
        CountView { tally: self.tally@, side: self.side, finished: self.finished }
    }
}

/// What follows the end of the reactions on one side: the no reactions after
/// the yes reactions, and the result after the no reactions.
pub open spec fn after_side(c: CountView) -> (CountView, CountAction) {
    if c.side == VoteSide::Yes {
        (
            CountView { side: VoteSide::No, ..c },
            CountAction::FetchPage { side: VoteSide::No, after: None },
        )
    } else {
        (
            CountView { finished: true, ..c },
            CountAction::Finished { yes: c.tally.yes as u32, no: c.tally.no as u32 },
        )
    }
}

/// A page of reactions: an empty page ends the side; otherwise its users are
/// tallied, and a full page asks for the next one while a shorter page ends
/// the side.
pub open spec fn count_page(c: CountView, users: Seq<u64>, eligible: Seq<bool>) -> (CountView, CountAction) {
    if users.len() == 0 {
        after_side(c)
    } else {
        let c2 = CountView { tally: tally_page(c.tally, users, eligible, c.side), ..c };
        if users.len() < REACTION_PAGE_SIZE {
            after_side(c2)
        } else {
            (c2, CountAction::FetchPage { side: c.side, after: Some(users.last()) })
        }
    }
}

pub open spec fn count_wf(c: CountView) -> bool {
    &&& tally_wf(c.tally)
    &&& c.tally.yes <= u32::MAX
    &&& c.tally.no <= u32::MAX
}

impl VoteCount {
    /// Starts counting the votes of a poll posted by `bot_id`.
    pub fn start(bot_id: u64) -> (res: (VoteCount, CountAction))
        ensures
            res.0@ == (CountView {
                tally: TallyView { bot_id, voters: Seq::<u64>::empty(), yes: 0, no: 0 },
                side: VoteSide::Yes,
                finished: false,
            }),
            res.1 == (CountAction::FetchPage { side: VoteSide::Yes, after: None }),
            count_wf(res.0@),
    {
        (
            VoteCount { tally: VoteTally::new(bot_id), side: VoteSide::Yes, finished: false },
            CountAction::FetchPage { side: VoteSide::Yes, after: None },
        )
    }

    /// How many users were counted so far, over both sides.
    pub fn voters_counted(&self) -> (n: usize)
        ensures
            n == self@.tally.voters.len(),
    {
        self.tally.voters.len()
    }

    fn end_side(&mut self) -> (a: CountAction)
        requires
            count_wf(old(self)@),
        ensures
            (final(self)@, a) == after_side(old(self)@),
            count_wf(final(self)@),
    {
        match self.side {
            VoteSide::Yes => {
                self.side = VoteSide::No;
                CountAction::FetchPage { side: VoteSide::No, after: None }
            },
            VoteSide::No => {
                self.finished = true;
                CountAction::Finished { yes: self.tally.yes_votes(), no: self.tally.no_votes() }
            },
        }
    }

    /// Takes in one page of the users who reacted on the current side, with
    /// whether each may vote, and says what to fetch next.
    pub fn page(&mut self, users: &Vec<u64>, eligible: &Vec<bool>) -> (a: CountAction)
        requires
            count_wf(old(self)@),
            !old(self)@.finished,
            eligible@.len() == users@.len(),
            old(self)@.tally.voters.len() + users@.len() < u32::MAX,
        ensures
            (final(self)@, a) == count_page(old(self)@, users@, eligible@),
            count_wf(final(self)@),
            final(self)@.tally.bot_id == old(self)@.tally.bot_id,
            final(self)@.tally.voters.len() >= old(self)@.tally.voters.len(),
            final(self)@.tally.voters.len() <= old(self)@.tally.voters.len() + users@.len(),
            old(self)@.side == VoteSide::Yes ==> {
                &&& final(self)@.tally.no == old(self)@.tally.no
                &&& final(self)@.tally.yes == old(self)@.tally.yes + (final(self)@.tally.voters.len()
                    - old(self)@.tally.voters.len())
            },
            old(self)@.side == VoteSide::No ==> {
                &&& final(self)@.tally.yes == old(self)@.tally.yes
                &&& final(self)@.tally.no == old(self)@.tally.no + (final(self)@.tally.voters.len()
                    - old(self)@.tally.voters.len())
            },
            forall|k: int|
                0 <= k < users@.len() && eligible@[k] && users@[k] != old(self)@.tally.bot_id
                    ==> #[trigger] final(self)@.tally.voters.contains(users@[k]),
            a matches CountAction::Finished { yes, no } ==> {
                &&& old(self)@.side == VoteSide::No
                &&& yes == final(self)@.tally.yes
                &&& no == final(self)@.tally.no
            },
            a matches CountAction::FetchPage { side, after } ==> {
                &&& !final(self)@.finished
                &&& side == final(self)@.side
                &&& (users@.len() >= REACTION_PAGE_SIZE ==> side == old(self)@.side && after == Some(
                    users@.last(),
                ))
                &&& (users@.len() < REACTION_PAGE_SIZE ==> old(self)@.side == VoteSide::Yes && side
                    == VoteSide::No && after is None)
            },
    {
        proof {
            lemma_tally_page_sides(old(self)@.tally, users@, eligible@, old(self)@.side);
            assert forall|k: int|
                0 <= k < users@.len() && eligible@[k] && users@[k] != old(self)@.tally.bot_id
                    implies #[trigger] tally_page(old(self)@.tally, users@, eligible@, old(self)@.side).voters.contains(users@[k]) by {
                lemma_page_counts_eligible_users(old(self)@.tally, users@, eligible@, old(self)@.side, k);
            }
        }
        if users.len() == 0 {
            return self.end_side();
        }
        let ghost t0 = self.tally@;
        let mut i: usize = 0;
        while i < users.len()
            invariant
                i <= users@.len(),
                eligible@.len() == users@.len(),
                t0.voters.len() + users@.len() < u32::MAX,
                self.tally@ == tally_page(t0, users@.take(i as int), eligible@.take(i as int), self.side),
                self.tally@.voters.len() <= t0.voters.len() + i,
                self.tally@.bot_id == t0.bot_id,
                tally_wf(self.tally@),
                self.side == old(self)@.side,
                self.finished == old(self)@.finished,
                t0 == old(self)@.tally,
            decreases users.len() - i,
        {
            proof {
                assert(users@.take(i + 1).drop_last() =~= users@.take(i as int));
                assert(eligible@.take(i + 1).take(i as int) =~= eligible@.take(i as int));
            }
            self.tally.record(users[i], self.side, eligible[i]);
            i = i + 1;
        }
        assert(users@.take(users@.len() as int) =~= users@);
        assert(eligible@.take(users@.len() as int) =~= eligible@);
        if users.len() < REACTION_PAGE_SIZE as usize {
            self.end_side()
        } else {
            CountAction::FetchPage { side: self.side, after: Some(users[users.len() - 1]) }
        }
    }

    /// The listing of the current side could not be fetched: the count goes
    /// on with the next side, as when the side ended.
    pub fn page_failed(&mut self) -> (a: CountAction)
        requires
            count_wf(old(self)@),
        ensures
            (final(self)@, a) == after_side(old(self)@),
            count_wf(final(self)@),
    {
        self.end_side()
    }
}

/// Tallying a page of the reactions on one side only ever adds to the count
/// of that side: the other side's count stays as it was, and the side's
/// count grows by exactly the number of newly counted users, who are at most
/// the users on the page.
pub proof fn lemma_tally_page_sides(t: TallyView, users: Seq<u64>, eligible: Seq<bool>, side: VoteSide)
    ensures
        tally_page(t, users, eligible, side).voters.len() >= t.voters.len(),
        tally_page(t, users, eligible, side).voters.len() <= t.voters.len() + users.len(),
        side == VoteSide::Yes ==> {
            &&& tally_page(t, users, eligible, side).no == t.no
            &&& tally_page(t, users, eligible, side).yes == t.yes + (tally_page(t, users, eligible, side).voters.len() - t.voters.len())
        },
        side == VoteSide::No ==> {
            &&& tally_page(t, users, eligible, side).yes == t.yes
            &&& tally_page(t, users, eligible, side).no == t.no + (tally_page(t, users, eligible, side).voters.len() - t.voters.len())
        },
        tally_page(t, users, eligible, side).bot_id == t.bot_id,
    decreases users.len(),
{
    if users.len() > 0 && eligible.len() >= users.len() {
        let n = users.len() - 1;
        lemma_tally_page_sides(t, users.drop_last(), eligible.take(n), side);
    }
}

/// A page of the yes reaction never changes the no count, and a page of the
/// no reaction never changes the yes count; the count of the page's own side
/// grows by the number of users newly counted.
pub proof fn lemma_count_page_sides(c: CountView, users: Seq<u64>, eligible: Seq<bool>)
    ensures
        c.side == VoteSide::Yes ==> {
            &&& count_page(c, users, eligible).0.tally.no == c.tally.no
            &&& count_page(c, users, eligible).0.tally.yes == c.tally.yes + (count_page(
                c,
                users,
                eligible,
            ).0.tally.voters.len() - c.tally.voters.len())
        },
        c.side == VoteSide::No ==> {
            &&& count_page(c, users, eligible).0.tally.yes == c.tally.yes
            &&& count_page(c, users, eligible).0.tally.no == c.tally.no + (count_page(
                c,
                users,
                eligible,
            ).0.tally.voters.len() - c.tally.voters.len())
        },
{
    lemma_tally_page_sides(c.tally, users, eligible, c.side);
}

/// Once a page is tallied, each user on it who is not the bot and may vote
/// has been counted, on this side or, if it voted before, on an earlier one.
pub proof fn lemma_page_counts_eligible_users(
    t: TallyView,
    users: Seq<u64>,
    eligible: Seq<bool>,
    side: VoteSide,
    k: int,
)
    requires
        eligible.len() == users.len(),
        0 <= k < users.len(),
        eligible[k],
        users[k] != t.bot_id,
    ensures
        tally_page(t, users, eligible, side).voters.contains(users[k]),
        tally_page(t, users, eligible, side).bot_id == t.bot_id,
    decreases users.len(),
{
    lemma_tally_page_keeps(t, users, eligible, side);
    let n = users.len() - 1;
    let before = tally_page(t, users.drop_last(), eligible.take(n), side);
    if k < n {
        lemma_page_counts_eligible_users(t, users.drop_last(), eligible.take(n), side, k);
        lemma_step_keeps_voters(before, users.last(), side, eligible[n]);
    } else {
        lemma_tally_page_keeps(t, users.drop_last(), eligible.take(n), side);
        lemma_step_keeps_voters(before, users.last(), side, eligible[n]);
    }
}

proof fn lemma_step_keeps_voters(t: TallyView, user: u64, side: VoteSide, eligible: bool)
    ensures
        forall|x: u64| t.voters.contains(x) ==> tally_step(t, user, side, eligible).voters.contains(x),
        tally_step(t, user, side, eligible).bot_id == t.bot_id,
        (user != t.bot_id && eligible) ==> tally_step(t, user, side, eligible).voters.contains(user),
{
    let r = tally_step(t, user, side, eligible);
    if !(user == t.bot_id || t.voters.contains(user) || !eligible) {
        assert forall|x: u64| t.voters.contains(x) implies r.voters.contains(x) by {
            let j = choose|j: int| 0 <= j < t.voters.len() && t.voters[j] == x;
            assert(r.voters[j] == x);
        }
        assert(r.voters[r.voters.len() - 1] == user);
    }
}

proof fn lemma_tally_page_keeps(t: TallyView, users: Seq<u64>, eligible: Seq<bool>, side: VoteSide)
    ensures
        tally_page(t, users, eligible, side).bot_id == t.bot_id,
    decreases users.len(),
{
    if users.len() > 0 && eligible.len() >= users.len() {
        let n = users.len() - 1;
        lemma_tally_page_keeps(t, users.drop_last(), eligible.take(n), side);
    }
}

// ---------------------------------------------------------------------------
// Verdict
// ---------------------------------------------------------------------------

/// The verdict of a finished votekick.
#[derive(Clone, Copy, Debug, PartialEq, Eq, Structural)]
pub enum VoteOutcome {
    /// Fewer yes votes than the required minimum.
    NotEnoughYes,
    /// Enough yes votes, but not more yes than no votes.
    NoMajority,
    /// The votekick passed.
    Passed,
}

pub open spec fn spec_decide(yes: nat, no: nat, min_yes: nat) -> VoteOutcome {
    if yes < min_yes {
        VoteOutcome::NotEnoughYes
    } else if yes <= no {
        VoteOutcome::NoMajority
    } else {
        VoteOutcome::Passed
    }
}

/// Decides a votekick: it passes when it has at least `min_yes` yes votes and
/// more yes than no votes.
pub fn decide(yes: u32, no: u32, min_yes: u32) -> (outcome: VoteOutcome)
    ensures
        outcome == spec_decide(yes as nat, no as nat, min_yes as nat),
        (outcome == VoteOutcome::NotEnoughYes) <==> yes < min_yes,
        (outcome == VoteOutcome::NoMajority) <==> (yes >= min_yes && yes <= no),
        (outcome == VoteOutcome::Passed) <==> (yes >= min_yes && yes > no),
{
    if yes < min_yes {
        VoteOutcome::NotEnoughYes
    } else if yes <= no {
        VoteOutcome::NoMajority
    } else {
        VoteOutcome::Passed
    }
}

/// The minimum of yes votes is checked first: a votekick with too few yes
/// votes fails for that reason whatever the no votes; one with enough yes
/// votes but not more yes than no votes fails for lack of a majority; and it
/// passes exactly when it has at least the minimum of yes votes and strictly
/// more yes than no votes; one more yes vote never turns a
/// passing votekick into a failing one.
pub proof fn lemma_pass_rule(yes: nat, no: nat, min_yes: nat)
    ensures
        (spec_decide(yes, no, min_yes) == VoteOutcome::NotEnoughYes) <==> yes < min_yes,
        (spec_decide(yes, no, min_yes) == VoteOutcome::NoMajority) <==> (yes >= min_yes && yes
            <= no),
        (spec_decide(yes, no, min_yes) == VoteOutcome::Passed) <==> (yes >= min_yes && yes > no),
        spec_decide(yes, no, min_yes) == VoteOutcome::Passed ==> spec_decide(yes + 1, no, min_yes)
            == VoteOutcome::Passed,
        yes == no ==> spec_decide(yes, no, min_yes) != VoteOutcome::Passed,
{
}

} // verus!

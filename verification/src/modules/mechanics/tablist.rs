//! Tablist module - custom header/footer with dynamic placeholders.
//!
//! | Placeholder | Description                    |
//! |-------------|--------------------------------|
//! | `{player}`  | Current player's name          |
//! | `{online}`  | Number of online players       |
//! | `{tps}`     | Server TPS (ticks per second)  |
//! | `{mspt}`    | Milliseconds per tick          |

use vstd::prelude::*;

use crate::text::{decimal, decimal_string, replace_all, replace_all_str, string_views};

verus! {

/// Handles tab-list mechanics, including custom messages.
#[derive(Clone, Copy, Debug, Default)]
pub struct Tablist;

/// Configuration for the tablist mechanics module.
#[derive(Clone, Debug)]
pub struct Config {
    /// Whether this module is active.
    pub enabled: bool,
    /// Header text displayed at the top of the tab list. Leave empty to disable.
    pub header: String,
    /// Footer text displayed at the bottom of the tab list. Leave empty to disable.
    pub footer: String,
}

/// Configuration for the tablist mechanics module.
pub type TablistConfig = Config;

impl Default for Config {
    fn default() -> (c: Self)
        ensures
            !c.enabled,
            c.header@ == Seq::<char>::empty(),
            c.footer@ == Seq::<char>::empty(),
    {
        Config { enabled: false, header: String::new(), footer: String::new() }
    }
}

/// The text with `{player}`, `{online}`, `{tps}` and `{mspt}` replaced, in
/// that order, by the player's name, the number of online players, and the
/// already formatted tick rate and tick time.
pub open spec fn placeholder_text(
    text: Seq<char>,
    player: Seq<char>,
    online: u64,
    tps: Seq<char>,
    mspt: Seq<char>,
) -> Seq<char> {
    replace_all(
        replace_all(
            replace_all(replace_all(text, "{player}"@, player), "{online}"@, decimal(online as nat)),
            "{tps}"@,
            tps,
        ),
        "{mspt}"@,
        mspt,
    )
}

/// The indices of the players, other than the one who joined, whose tab list
/// is refreshed when someone joins: those with another name.
pub open spec fn other_players(joiner: Seq<char>, names: Seq<Seq<char>>) -> Seq<usize>
    decreases names.len(),
{
    if names.len() == 0 {
        Seq::<usize>::empty()
    } else {
        let rest = other_players(joiner, names.drop_last());
        if names.last() != joiner {
            rest.push((names.len() - 1) as usize)
        } else {
            rest
        }
    }
}

impl Tablist {
    /// Whether the module is active: as configured, and active when no
    /// configuration is available.
    pub fn enabled(&self, config: Option<&Config>) -> (res: bool)
        ensures
            res == match config {
                Some(c) => c.enabled,
                None => true,
            },
    {
        match config {
            Some(c) => c.enabled,
            None => true,
        }
    }

    /// Fills the placeholders of a header or footer.
    pub fn replace_placeholders(
        text: &str,
        player_name: &str,
        online: u64,
        tps: &str,
        mspt: &str,
    ) -> (res: String)
        ensures
            res@ == placeholder_text(text@, player_name@, online, tps@, mspt@),
    {
        proof {
            reveal_strlit("{player}");
            reveal_strlit("{online}");
            reveal_strlit("{tps}");
            reveal_strlit("{mspt}");
        }
        let online_text = decimal_string(online);
        let a = replace_all_str(text, "{player}", player_name);
        let b = replace_all_str(a.as_str(), "{online}", online_text.as_str());
        let c = replace_all_str(b.as_str(), "{tps}", tps);
        replace_all_str(c.as_str(), "{mspt}", mspt)
    }

    /// The header and footer shown to a player, with their placeholders
    /// filled.
    pub fn header_footer(
        config: &Config,
        player_name: &str,
        online: u64,
        tps: &str,
        mspt: &str,
    ) -> (res: (String, String))
        ensures
            res.0@ == placeholder_text(config.header@, player_name@, online, tps@, mspt@),
            res.1@ == placeholder_text(config.footer@, player_name@, online, tps@, mspt@),
    {
        let header = Self::replace_placeholders(config.header.as_str(), player_name, online, tps, mspt);
        let footer = Self::replace_placeholders(config.footer.as_str(), player_name, online, tps, mspt);
        (header, footer)
    }

    /// The configuration to apply when a player joins, or `None` when the
    /// module is off; without a configuration the defaults are applied.
    pub fn join_config(&self, config: Option<Config>) -> (res: Option<Config>)
        ensures
            match config {
                Some(c) => if c.enabled { res == Some(c) } else { res is None },
                None => res matches Some(d) && !d.enabled && d.header@.len() == 0
                    && d.footer@.len() == 0,
            },
    {
        match config {
            Some(c) => if c.enabled { Some(c) } else { None },
            None => Some(Config::default()),
        }
    }

    /// The players, among those online, whose tab list is refreshed after the
    /// joining player's own: everyone whose name differs from the joiner's.
    pub fn join_update_targets(joiner: &String, players: &Vec<String>) -> (res: Vec<usize>)
        ensures
            res@ == other_players(joiner@, string_views(players@)),
            forall|k: int|
                0 <= k < players@.len() ==> (res@.contains(k as usize) <==> players@[k]@ != joiner@),
            forall|j: int| 0 <= j < res@.len() ==> res@[j] < players@.len(),
            forall|a: int, b: int| 0 <= a < b < res@.len() ==> res@[a] < res@[b],
    {
        let mut res: Vec<usize> = Vec::new();
        let mut i: usize = 0;
        while i < players.len()
            invariant
                i <= players@.len(),
                res@ == other_players(joiner@, string_views(players@).take(i as int)),
            decreases players.len() - i,
        {
            let ghost names = string_views(players@).take(i + 1);
            assert(names.drop_last() =~= string_views(players@).take(i as int));
            assert(names.last() == players@[i as int]@);
            if !(players[i] == *joiner) {
                res.push(i);
            }
            i = i + 1;
        }
        assert(string_views(players@).take(players@.len() as int) =~= string_views(players@));
        proof {
            lemma_other_players(joiner@, string_views(players@));
            let names = string_views(players@);
            assert forall|k: int| 0 <= k < players@.len() implies (res@.contains(k as usize)
                <==> players@[k]@ != joiner@) by {
                assert(names[k] == players@[k]@);
                assert(res@ == other_players(joiner@, names));
                assert(0 <= k < names.len() ==> (other_players(joiner@, names).contains(k as usize)
                    <==> names[k] != joiner@));
            }
        }
        res
    }

    /// Whether every online player's tab list is refreshed when a player
    /// leaves: only when a configuration is available and enables the module.
    pub fn refresh_on_leave(&self, config: Option<&Config>) -> (res: bool)
        ensures
            res == match config {
                Some(c) => c.enabled,
                None => false,
            },
    {
        if !self.enabled(config) {
            return false;
        }
        match config {
            Some(c) => c.enabled,
            None => false,
        }
    }
}

/// When a player joins, the players refreshed after it are exactly those
/// whose name differs from the joiner's, each once, in the order they are
/// listed.
pub proof fn lemma_other_players(joiner: Seq<char>, names: Seq<Seq<char>>)
    requires
        names.len() <= usize::MAX,
    ensures
        forall|k: int|
            0 <= k < names.len() ==> (other_players(joiner, names).contains(k as usize) <==> names[k]
                != joiner),
        forall|j: int|
            0 <= j < other_players(joiner, names).len() ==> other_players(joiner, names)[j]
                < names.len(),
        forall|a: int, b: int|
            0 <= a < b < other_players(joiner, names).len() ==> other_players(joiner, names)[a]
                < other_players(joiner, names)[b],
    decreases names.len(),
{
    if names.len() > 0 {
        let init = names.drop_last();
        let rest = other_players(joiner, init);
        lemma_other_players(joiner, init);
        let res = other_players(joiner, names);
        let last = (names.len() - 1) as usize;
        assert forall|k: int| 0 <= k < names.len() implies (res.contains(k as usize) <==> names[k]
            != joiner) by {
            if k < names.len() - 1 {
                assert(init[k] == names[k]);
                if rest.contains(k as usize) {
                    let j = choose|j: int| 0 <= j < rest.len() && rest[j] == k as usize;
                    assert(res[j] == k as usize);
                }
                if res.contains(k as usize) {
                    let j = choose|j: int| 0 <= j < res.len() && res[j] == k as usize;
                    if j < rest.len() {
                        assert(rest[j] == k as usize);
                    }
                }
            } else {
                if names.last() != joiner {
                    assert(res[res.len() - 1] == last);
                } else {
                    if res.contains(k as usize) {
                        let j = choose|j: int| 0 <= j < res.len() && res[j] == k as usize;
                        assert(rest[j] < init.len());
                    }
                }
            }
        }
    }
}

/// A header or footer without placeholders is shown as written.
pub proof fn lemma_plain_text_unchanged(
    text: Seq<char>,
    player: Seq<char>,
    online: u64,
    tps: Seq<char>,
    mspt: Seq<char>,
)
    requires
        !text.contains('{'),
    ensures
        placeholder_text(text, player, online, tps, mspt) == text,
{
    reveal_strlit("{player}");
    reveal_strlit("{online}");
    reveal_strlit("{tps}");
    reveal_strlit("{mspt}");
    crate::text::lemma_replace_absent(text, "{player}"@, player);
    crate::text::lemma_replace_absent(text, "{online}"@, decimal(online as nat));
    crate::text::lemma_replace_absent(text, "{tps}"@, tps);
    crate::text::lemma_replace_absent(text, "{mspt}"@, mspt);
}

} // verus!

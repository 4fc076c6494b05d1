//! The server plugin: its metadata and the count of enabled modules at load.

use vstd::prelude::*;

use crate::text::{split_on, split_str, string_views};

verus! {

/// PumpkinPlus plugin implementation.
#[derive(Clone, Copy, Debug)]
pub struct PumpkinPlus {}

/// The metadata the plugin announces to the server.
#[derive(Clone, Debug)]
pub struct PluginInfo {
    pub name: String,
    pub version: String,
    pub authors: Vec<String>,
    pub description: String,
}

/// The number of `true` entries.
pub open spec fn count_true(flags: Seq<bool>) -> nat
    decreases flags.len(),
{
    if flags.len() == 0 {
        0
    } else {
        count_true(flags.drop_last()) + if flags.last() { 1nat } else { 0nat }
    }
}

proof fn lemma_count_true_bound(flags: Seq<bool>)
    ensures
        count_true(flags) <= flags.len(),
    decreases flags.len(),
{
    if flags.len() > 0 {
        lemma_count_true_bound(flags.drop_last());
    }
}

impl PumpkinPlus {
    pub fn new() -> (p: PumpkinPlus) {
        PumpkinPlus {}
    }

    /// The plugin's metadata; the package authors come as one text with the
    /// names separated by `:`.
    pub fn metadata(&self, name: &str, version: &str, authors: &str, description: &str) -> (info:
        PluginInfo)
        ensures
            info.name@ == name@,
            info.version@ == version@,
            string_views(info.authors@) == split_on(authors@, ':'),
            info.description@ == description@,
    {
        PluginInfo {
            name: String::from_str(name),
            version: String::from_str(version),
            authors: split_str(authors, ':'),
            description: String::from_str(description),
        }
    }

    /// How many of the plugin's modules are enabled.
    pub fn enabled_count(enabled: &Vec<bool>) -> (n: usize)
        ensures
            n == count_true(enabled@),
    {
        let mut n: usize = 0;
        let mut i: usize = 0;
        while i < enabled.len()
            invariant
                i <= enabled@.len(),
                n == count_true(enabled@.take(i as int)),
            decreases enabled.len() - i,
        {
            proof {
                assert(enabled@.take(i + 1).drop_last() =~= enabled@.take(i as int));
                lemma_count_true_bound(enabled@.take(i as int));
            }
            if enabled[i] {
                n = n + 1;
            }
            i = i + 1;
        }
        assert(enabled@.take(enabled@.len() as int) =~= enabled@);
        n
    }
}

} // verus!

//! The list of subscriptions to ingest.
use vstd::prelude::*;

verus! {

/// Default of a subscription's `enabled` field.
pub fn default_enabled() -> (r: bool)
    ensures
        r,
{
    true
}

/// Default of a subscription's `use-rules` field.
pub fn default_use_rules() -> (r: bool)
    ensures
        !r,
{
    false
}

/// One subscription: where to fetch it, whether to, and whether its groups
/// and rules are wanted.
#[derive(Debug)]
pub struct Subscribe {
    pub name: String,
    pub url: String,
    pub enabled: bool,
    /// `use-rules` in the settings file.
    pub use_rules: bool,
}

impl Subscribe {
    /// A subscription that gives only its name and URL: enabled, without rules.
    pub fn new(name: String, url: String) -> (r: Subscribe)
        ensures
            r.name == name,
            r.url == url,
            r.enabled,
            !r.use_rules,
    {
        Subscribe { name, url, enabled: default_enabled(), use_rules: default_use_rules() }
    }
}

/// The settings: the subscriptions, in the order given.
#[derive(Debug)]
pub struct Config {
    /// `subscribe` in the settings file.
    pub subscribes: Vec<Subscribe>,
}

impl Config {
    /// The positions of the enabled subscriptions, in order: these alone are
    /// fetched.
    pub fn enabled_indices(&self) -> (r: Vec<usize>)
        ensures
            forall|k: int| 0 <= k < r@.len() ==> r@[k] < self.subscribes@.len() && self.subscribes@[r@[k] as int].enabled,
            forall|k: int, l: int| 0 <= k < l < r@.len() ==> r@[k] < r@[l],
            forall|i: int| 0 <= i < self.subscribes@.len() && #[trigger] self.subscribes@[i].enabled ==> r@.contains(i as usize),
    {
        let mut out: Vec<usize> = Vec::new();
        let mut i: usize = 0;
        while i < self.subscribes.len()
            invariant
                i <= self.subscribes@.len(),
                forall|k: int| 0 <= k < out@.len() ==> out@[k] < i && self.subscribes@[out@[k] as int].enabled,
                forall|k: int, l: int| 0 <= k < l < out@.len() ==> out@[k] < out@[l],
                forall|j: int| 0 <= j < i && #[trigger] self.subscribes@[j].enabled ==> out@.contains(j as usize),
            decreases self.subscribes@.len() - i,
        {
            let ghost before = out@;
            if self.subscribes[i].enabled {
                out.push(i);
                assert(out@[out@.len() - 1] == i);
            }
            assert forall|j: int| 0 <= j < i && #[trigger] self.subscribes@[j].enabled implies out@.contains(j as usize) by {
                let k = choose|k: int| 0 <= k < before.len() && before[k] == j as usize;
                assert(out@[k] == j as usize);
            }
            i = i + 1;
        }
        out
    }
}

} // verus!

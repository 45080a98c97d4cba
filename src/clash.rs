//! Mapping of the loosely typed Clash schema into validated domain records.
use vstd::prelude::*;

verus! {

/// Selection policy of a proxy group.
#[derive(Debug, Clone, Copy, PartialEq, Eq, Structural)]
pub enum ProxyGroupType {
    Select,
    URLTest,
    Fallback,
    LoadBalance,
    Relay,
}

/// Load-distribution policy of a load-balancing group.
#[derive(Debug, Clone, Copy, PartialEq, Eq, Structural)]
pub enum BalanceStrategy {
    RoundRobin,
    ConsistentHashing,
}

/// The Clash spelling of each group type.
pub open spec fn group_type_name(t: ProxyGroupType) -> Seq<char> {
    match t {
        ProxyGroupType::Select => "select"@,
        ProxyGroupType::URLTest => "url-test"@,
        ProxyGroupType::Fallback => "fallback"@,
        ProxyGroupType::LoadBalance => "load-balance"@,
        ProxyGroupType::Relay => "relay"@,
    }
}

/// The group type spelled exactly (case-sensitively) by `s`, if any.
pub open spec fn group_type_of(s: Seq<char>) -> Option<ProxyGroupType> {
    if s == "select"@ {
        Some(ProxyGroupType::Select)
    } else if s == "url-test"@ {
        Some(ProxyGroupType::URLTest)
    } else if s == "fallback"@ {
        Some(ProxyGroupType::Fallback)
    } else if s == "load-balance"@ {
        Some(ProxyGroupType::LoadBalance)
    } else if s == "relay"@ {
        Some(ProxyGroupType::Relay)
    } else {
        None
    }
}

/// The strategy named by `s`; every unrecognized spelling, the empty one
/// included, means consistent hashing.
pub open spec fn strategy_of(s: Seq<char>) -> BalanceStrategy {
    if s == "round-robin"@ {
        BalanceStrategy::RoundRobin
    } else {
        BalanceStrategy::ConsistentHashing
    }
}

impl ProxyGroupType {
    /// Parses a Clash group-type spelling.
    pub fn from_name(s: &str) -> (r: Option<ProxyGroupType>)
        ensures
            r == group_type_of(s@),
    {
        let s = String::from_str(s);
        if s == String::from_str("select") {
            Some(ProxyGroupType::Select)
        } else if s == String::from_str("url-test") {
            Some(ProxyGroupType::URLTest)
        } else if s == String::from_str("fallback") {
            Some(ProxyGroupType::Fallback)
        } else if s == String::from_str("load-balance") {
            Some(ProxyGroupType::LoadBalance)
        } else if s == String::from_str("relay") {
            Some(ProxyGroupType::Relay)
        } else {
            None
        }
    }

    /// The Clash spelling of this group type.
    pub fn as_str(&self) -> (r: &'static str)
        ensures
            r@ == group_type_name(*self),
    {
        match self {
            ProxyGroupType::Select => "select",
            ProxyGroupType::URLTest => "url-test",
            ProxyGroupType::Fallback => "fallback",
            ProxyGroupType::LoadBalance => "load-balance",
            ProxyGroupType::Relay => "relay",
        }
    }
}

impl BalanceStrategy {
    /// Parses a strategy spelling, falling back to consistent hashing.
    pub fn from_name(s: &str) -> (r: BalanceStrategy)
        ensures
            r == strategy_of(s@),
    {
        if String::from_str(s) == String::from_str("round-robin") {
            BalanceStrategy::RoundRobin
        } else {
            BalanceStrategy::ConsistentHashing
        }
    }
}

/// A recognized group type is spelled back exactly as it was read, and every
/// group type is recognized from its own spelling.
pub proof fn lemma_group_type_round_trip(s: Seq<char>, t: ProxyGroupType)
    ensures
        group_type_of(s) matches Some(u) ==> group_type_name(u) == s,
        group_type_of(group_type_name(t)) == Some(t),
{
    reveal_strlit("select");
    reveal_strlit("url-test");
    reveal_strlit("fallback");
    reveal_strlit("load-balance");
    reveal_strlit("relay");
    let names = seq!["select"@, "url-test"@, "fallback"@, "load-balance"@, "relay"@];
    assert forall|i: int, j: int| 0 <= i < j < 5 implies names[i] != names[j] by {
        if names[i].len() == names[j].len() {
            assert(names[i][0] != names[j][0]);
        }
    }
    assert(names[0] == "select"@ && names[1] == "url-test"@ && names[2] == "fallback"@);
    assert(names[3] == "load-balance"@ && names[4] == "relay"@);
}

/// Default of the `lazy` field.
pub fn default_true() -> (r: bool)
    ensures
        r,
{
    true
}

/// Default of the `disable-udp`, `persistent` and `evaluate-before-use` fields.
pub fn default_false() -> (r: bool)
    ensures
        !r,
{
    false
}

/// Default of the `interval`, `timeout` and `tolerance` fields.
pub fn default_u32_zero() -> (r: u32)
    ensures
        r == 0,
{
    0
}

/// One `proxy-groups` entry as the Clash document spells it.
#[derive(Debug)]
pub struct ClashProxyGroup {
    pub name: String,
    /// `type` in the document.
    pub group_type: String,
    pub proxies: Vec<String>,
    /// `use` in the document.
    pub using_provider: Vec<String>,
    pub url: String,
    pub interval: u32,
    pub timeout: u32,
    pub tolerance: u32,
    pub strategy: String,
    pub lazy: bool,
    /// `disable-udp` in the document.
    pub disable_udp: bool,
    pub persistent: bool,
    /// `evaluate-before-use` in the document.
    pub evaluate_before_use: bool,
}

impl ClashProxyGroup {
    /// An entry that gives only its name and type: every other field takes
    /// its default.
    pub fn new(name: String, group_type: String) -> (r: ClashProxyGroup)
        ensures
            r.name == name,
            r.group_type == group_type,
            r.proxies@.len() == 0,
            r.using_provider@.len() == 0,
            r.url@.len() == 0,
            r.interval == 0,
            r.timeout == 0,
            r.tolerance == 0,
            r.strategy@.len() == 0,
            r.lazy,
            !r.disable_udp,
            !r.persistent,
            !r.evaluate_before_use,
    {
        ClashProxyGroup {
            name,
            group_type,
            proxies: Vec::new(),
            using_provider: Vec::new(),
            url: String::new(),
            interval: default_u32_zero(),
            timeout: default_u32_zero(),
            tolerance: default_u32_zero(),
            strategy: String::new(),
            lazy: default_true(),
            disable_udp: default_false(),
            persistent: default_false(),
            evaluate_before_use: default_false(),
        }
    }
}

/// The top level of a Clash document: its groups and its rule lines.
#[derive(Debug)]
pub struct ClashProxyGroupAndRules {
    /// `proxy-groups` in the document.
    pub proxy_groups: Vec<ClashProxyGroup>,
    pub rules: Vec<String>,
}

/// A validated proxy group.
#[derive(Debug)]
pub struct ProxyGroupConfig {
    pub name: String,
    pub group_type: ProxyGroupType,
    pub proxies: Vec<String>,
    pub using_provider: Vec<String>,
    pub url: String,
    pub interval: u32,
    pub timeout: u32,
    pub tolerance: u32,
    pub strategy: BalanceStrategy,
    pub lazy: bool,
    pub disable_udp: bool,
    pub persistent: bool,
    pub evaluate_before_use: bool,
}

/// The validated group that `group` becomes once its type is known to be `t`.
pub open spec fn group_model(group: ClashProxyGroup, t: ProxyGroupType) -> ProxyGroupConfig {
    ProxyGroupConfig {
        name: group.name,
        group_type: t,
        proxies: group.proxies,
        using_provider: group.using_provider,
        url: group.url,
        interval: group.interval,
        timeout: group.timeout,
        tolerance: group.tolerance,
        strategy: strategy_of(group.strategy@),
        lazy: group.lazy,
        disable_udp: group.disable_udp,
        persistent: group.persistent,
        evaluate_before_use: group.evaluate_before_use,
    }
}

/// The validated group of `group`, or `None` where its type is unrecognized.
pub open spec fn mapped_group(group: ClashProxyGroup) -> Option<ProxyGroupConfig> {
    match group_type_of(group.group_type@) {
        Some(t) => Some(group_model(group, t)),
        None => None,
    }
}

/// Maps one document entry to a validated group. The only failure is an
/// unrecognized group type.
pub fn transform_to_model_proxy_group(group: ClashProxyGroup) -> (r: Result<ProxyGroupConfig, String>)
    ensures
        r is Ok <==> mapped_group(group) is Some,
        r matches Ok(c) ==> mapped_group(group) == Some(c),
        r matches Err(e) ==> e@ == "Unknown group type: "@ + group.group_type@,
{
    let group_type = match ProxyGroupType::from_name(group.group_type.as_str()) {
        Some(t) => t,
        None => {
            let msg = String::from_str("Unknown group type: ").concat(group.group_type.as_str());
            return Err(msg);
        },
    };
    let strategy = BalanceStrategy::from_name(group.strategy.as_str());
    Ok(
        ProxyGroupConfig {
            name: group.name,
            group_type,
            proxies: group.proxies,
            using_provider: group.using_provider,
            url: group.url,
            interval: group.interval,
            timeout: group.timeout,
            tolerance: group.tolerance,
            strategy,
            lazy: group.lazy,
            disable_udp: group.disable_udp,
            persistent: group.persistent,
            evaluate_before_use: group.evaluate_before_use,
        },
    )
}

/// The validated groups of `groups`, in document order, with every entry of
/// unrecognized type left out.
pub open spec fn mapped_groups(groups: Seq<ClashProxyGroup>) -> Seq<ProxyGroupConfig>
    decreases groups.len(),
{
    if groups.len() == 0 {
        Seq::empty()
    } else {
        let front = mapped_groups(groups.drop_last());
        match mapped_group(groups.last()) {
            Some(c) => front.push(c),
            None => front,
        }
    }
}

/// Mapping a batch is mapping each part of it: an entry's outcome depends
/// on that entry alone.
pub proof fn lemma_mapped_groups_concat(a: Seq<ClashProxyGroup>, b: Seq<ClashProxyGroup>)
    ensures
        mapped_groups(a + b) == mapped_groups(a) + mapped_groups(b),
    decreases b.len(),
{
    if b.len() == 0 {
        assert(a + b == a);
    } else {
        assert((a + b).drop_last() == a + b.drop_last());
        assert((a + b).last() == b.last());
        lemma_mapped_groups_concat(a, b.drop_last());
    }
}

/// An entry of unrecognized type between two valid ones is dropped, and the
/// two valid ones keep their order.
pub proof fn lemma_bad_group_dropped(first: ClashProxyGroup, bad: ClashProxyGroup, last: ClashProxyGroup)
    requires
        mapped_group(first) is Some,
        mapped_group(bad) is None,
        mapped_group(last) is Some,
    ensures
        mapped_groups(seq![first, bad, last]) == seq![mapped_group(first)->0, mapped_group(last)->0],
{
    let s = seq![first, bad, last];
    assert(s.drop_last() == seq![first, bad]);
    assert(seq![first, bad].drop_last() == seq![first]);
    assert(seq![first].drop_last() == Seq::<ClashProxyGroup>::empty());
    let m0 = mapped_groups(Seq::<ClashProxyGroup>::empty());
    let m1 = mapped_groups(seq![first]);
    let m2 = mapped_groups(seq![first, bad]);
    assert(m0 == Seq::<ProxyGroupConfig>::empty());
    assert(m1 == seq![mapped_group(first)->0]);
    assert(m2 == m1);
    assert(mapped_groups(s) == m2.push(mapped_group(last)->0));
    assert(mapped_groups(s) =~= seq![mapped_group(first)->0, mapped_group(last)->0]);
}

/// Maps every entry of `groups`, dropping those whose type is unrecognized
/// and keeping the order of the rest.
pub fn transform_to_model_proxy_groups(groups: Vec<ClashProxyGroup>) -> (r: Vec<ProxyGroupConfig>)
    ensures
        r@ == mapped_groups(groups@),
{
    let ghost all = groups@;
    let mut out: Vec<ProxyGroupConfig> = Vec::with_capacity(groups.len());
    for group in iter: groups
        invariant
            iter.seq() == all,
            out@ == mapped_groups(all.subrange(0, iter.index() as int)),
    {
        proof {
            let k = iter.index() as int;
            assert(all.subrange(0, k + 1).drop_last() == all.subrange(0, k));
            assert(all.subrange(0, k + 1).last() == group);
        }
        match transform_to_model_proxy_group(group) {
            Ok(c) => out.push(c),
            Err(_) => {},
        }
    }
    assert(all.subrange(0, all.len() as int) == all);
    out
}

/// The format of a ruleset's text.
#[derive(Debug, Clone, Copy, PartialEq, Eq, Structural)]
pub enum RulesetType {
    Surge,
    Quanx,
    ClashDomain,
    ClashIpcidr,
    ClashClassical,
}

impl Default for RulesetType {
    fn default() -> (r: RulesetType)
        ensures
            r == RulesetType::Surge,
    {
        RulesetType::Surge
    }
}

/// The routing rules of one subscription.
#[derive(Debug)]
pub struct RulesetContent {
    /// The subscription the rules belong to.
    pub group: String,
    /// Where the rules were loaded from: empty for inline rules.
    pub rule_path: String,
    pub rule_path_typed: String,
    pub rule_type: RulesetType,
    /// The rule text itself.
    pub rule_content: String,
    /// Seconds between refreshes; zero for none.
    pub update_interval: u32,
}

/// The line ending that separates rule lines.
pub open spec fn crlf() -> Seq<char> {
    seq!['\r', '\n']
}

/// The lines joined with a CR LF between each two, with no trailing line ending.
pub open spec fn join_crlf(lines: Seq<Seq<char>>) -> Seq<char>
    decreases lines.len(),
{
    if lines.len() == 0 {
        Seq::empty()
    } else if lines.len() == 1 {
        lines[0]
    } else {
        join_crlf(lines.drop_last()) + crlf() + lines.last()
    }
}

/// The character sequences of a list of strings.
pub open spec fn lines_of(lines: Seq<String>) -> Seq<Seq<char>> {
    lines.map_values(|l: String| l@)
}

/// Joins rule lines with CR LF.
pub fn join_rules(rules: &Vec<String>) -> (r: String)
    ensures
        r@ == join_crlf(lines_of(rules@)),
{
    let mut content = String::new();
    let mut i: usize = 0;
    while i < rules.len()
        invariant
            i <= rules@.len(),
            content@ == join_crlf(lines_of(rules@.subrange(0, i as int))),
        decreases rules@.len() - i,
    {
        proof {
            reveal_strlit("\r\n");
            let next = lines_of(rules@.subrange(0, i + 1));
            assert(next.drop_last() == lines_of(rules@.subrange(0, i as int)));
            assert(next.last() == rules@[i as int]@);
        }
        if i > 0 {
            content.append("\r\n");
        }
        content.append(rules[i].as_str());
        i = i + 1;
    }
    assert(rules@.subrange(0, i as int) == rules@);
    content
}

/// `rs` is the inline ruleset of subscription `group` holding `rules`: no
/// path, the default type, no refresh, and the lines joined with CR LF.
pub open spec fn is_inline_ruleset(rs: RulesetContent, group: Seq<char>, rules: Seq<String>) -> bool {
    &&& rs.group@ == group
    &&& rs.rule_content@ == join_crlf(lines_of(rules))
    &&& rs.rule_path@.len() == 0
    &&& rs.rule_path_typed@.len() == 0
    &&& rs.rule_type == RulesetType::Surge
    &&& rs.update_interval == 0
}

/// Builds the single inline ruleset of subscription `group` from its rule
/// lines. It does not fail.
pub fn transform_to_model_ruleset(group: &str, rules: Vec<String>) -> (r: Result<RulesetContent, String>)
    ensures
        r matches Ok(rs) && is_inline_ruleset(rs, group@, rules@),
{
    let content = join_rules(&rules);
    Ok(
        RulesetContent {
            group: String::from_str(group),
            rule_path: String::new(),
            rule_path_typed: String::new(),
            rule_type: RulesetType::default(),
            rule_content: content,
            update_interval: 0,
        },
    )
}

} // verus!

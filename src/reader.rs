//! The fetched subscription document and the pipeline over it.
use vstd::prelude::*;

use crate::clash::{
    ClashProxyGroupAndRules,
    ProxyGroupConfig,
    RulesetContent,
    mapped_groups,
    transform_to_model_proxy_groups,
    transform_to_model_ruleset,
    is_inline_ruleset,
};

verus! {

/// `needle` occurs in `hay` as a contiguous run.
pub open spec fn contains_seq(hay: Seq<char>, needle: Seq<char>) -> bool {
    exists|i: int| 0 <= i <= hay.len() - needle.len() && #[trigger] hay.subrange(i, i + needle.len()) == needle
}

/// The characters of `s`, one by one.
fn chars_of(s: &str) -> (r: Vec<char>)
    ensures
        r@ == s@,
{
    broadcast use vstd::string::axiom_spec_iter;
    let mut out: Vec<char> = Vec::new();
    for c in iter: s.chars()
        invariant
            iter.seq() == s@,
            out@ == s@.subrange(0, iter.index() as int),
    {
        out.push(c);
    }
    assert(s@.subrange(0, s@.len() as int) == s@);
    out
}

/// Whether `needle` occurs in `hay`.
fn find_in(hay: &Vec<char>, needle: &Vec<char>) -> (r: bool)
    ensures
        r == contains_seq(hay@, needle@),
{
    let n = needle.len();
    if n > hay.len() {
        assert forall|i: int| 0 <= i <= hay@.len() - n implies #[trigger] hay@.subrange(i, i + n) != needle@ by {}
        return false;
    }
    let last = hay.len() - n;
    let mut i: usize = 0;
    while i <= last
        invariant
            n == needle@.len(),
            last == hay@.len() - n,
            i <= last + 1,
            forall|k: int| 0 <= k < i ==> #[trigger] hay@.subrange(k, k + n) != needle@,
        decreases last + 1 - i,
    {
        let mut j: usize = 0;
        let mut same = true;
        while j < n
            invariant
                n == needle@.len(),
                i + n <= hay@.len(),
                hay@.len() == hay.len(),
                j <= n,
                same ==> forall|t: int| 0 <= t < j ==> hay@[i + t] == needle@[t],
                !same ==> hay@.subrange(i as int, i + n) != needle@,
            decreases n - j,
        {
            if hay[i + j] != needle[j] {
                assert(hay@.subrange(i as int, i + n)[j as int] == hay@[i + j]);
                same = false;
            }
            j = j + 1;
        }
        if same {
            assert(hay@.subrange(i as int, i + n) == needle@);
            return true;
        }
        if i == last {
            return false;
        }
        i = i + 1;
    }
    false
}

/// Whether the text `needle` occurs in the text `hay`.
pub fn str_contains(hay: &str, needle: &str) -> (r: bool)
    ensures
        r == contains_seq(hay@, needle@),
{
    let h = chars_of(hay);
    let n = chars_of(needle);
    find_in(&h, &n)
}

/// The text looks like a Clash document: it holds a top-level proxy list
/// marker in one of its two spellings.
pub open spec fn is_clash_candidate_text(content: Seq<char>) -> bool {
    contains_seq(content, "proxies:"@) || contains_seq(content, "Proxy:"@)
}

/// What a failed download reports.
#[derive(Debug)]
pub struct HttpError {
    /// The response status, where a response came.
    pub status: Option<u16>,
    pub message: String,
}

/// A fetched subscription document: its name and its text, fixed once made.
#[derive(Debug)]
pub struct Reader {
    name: String,
    content: String,
}

impl Reader {
    /// The subscription's name.
    pub closed spec fn spec_name(&self) -> Seq<char> {
        self.name@
    }

    /// The document's text.
    pub closed spec fn spec_content(&self) -> Seq<char> {
        self.content@
    }

    /// A document named `name` holding `content`.
    pub fn new(name: &str, content: String) -> (r: Reader)
        ensures
            r.spec_name() == name@,
            r.spec_content() == content@,
    {
        Reader { name: String::from_str(name), content }
    }

    /// The outcome of a download that got a response: the document where the
    /// status is a success (200 to 299), else an error carrying the status
    /// and the body.
    pub fn from_response(name: &str, status: u16, body: String) -> (r: Result<Reader, HttpError>)
        ensures
            r is Ok <==> 200 <= status < 300,
            r matches Ok(d) ==> d.spec_name() == name@ && d.spec_content() == body@,
            r matches Err(e) ==> e.status == Some(status) && e.message@ == "Failed to download file: "@
                + body@,
    {
        if 200 <= status && status < 300 {
            Ok(Reader::new(name, body))
        } else {
            let message = String::from_str("Failed to download file: ").concat(body.as_str());
            Err(HttpError { status: Some(status), message })
        }
    }

    pub fn name(&self) -> (r: &str)
        ensures
            r@ == self.spec_name(),
    {
        self.name.as_str()
    }

    pub fn content(&self) -> (r: &str)
        ensures
            r@ == self.spec_content(),
    {
        self.content.as_str()
    }

    /// Whether the text may be a Clash document and is worth a structural
    /// parse.
    pub fn is_clash_candidate(&self) -> (r: bool)
        ensures
            r == is_clash_candidate_text(self.spec_content()),
    {
        str_contains(self.content.as_str(), "proxies:") || str_contains(self.content.as_str(), "Proxy:")
    }

    /// The groups and the ruleset of this subscription, from `document`, the
    /// structural parse of its text (`None` where that parse failed or was
    /// not made). Nothing comes where the text is no Clash candidate or the
    /// parse failed; otherwise every group of recognized type, in order, and
    /// exactly one ruleset.
    pub fn parse_groups(&self, document: Option<ClashProxyGroupAndRules>) -> (r: Option<(Vec<ProxyGroupConfig>, Vec<RulesetContent>)>)
        ensures
            r is Some <==> is_clash_candidate_text(self.spec_content()) && document is Some,
            r matches Some((groups, rulesets)) ==> {
                &&& groups@ == mapped_groups(document->0.proxy_groups@)
                &&& rulesets@.len() == 1
                &&& is_inline_ruleset(rulesets@[0], self.spec_name(), document->0.rules@)
            },
    {
        if !self.is_clash_candidate() {
            return None;
        }
        match document {
            Some(data) => Some(self.parse_groups_and_ruleset_from_clash(data)),
            None => None,
        }
    }

    /// The groups and the ruleset of a parsed Clash document.
    fn parse_groups_and_ruleset_from_clash(&self, data: ClashProxyGroupAndRules) -> (r: (Vec<ProxyGroupConfig>, Vec<RulesetContent>))
        ensures
            r.0@ == mapped_groups(data.proxy_groups@),
            r.1@.len() == 1,
            is_inline_ruleset(r.1@[0], self.spec_name(), data.rules@),
    {
        let groups = transform_to_model_proxy_groups(data.proxy_groups);
        let mut rulesets: Vec<RulesetContent> = Vec::with_capacity(1);
        match transform_to_model_ruleset(self.name.as_str(), data.rules) {
            Ok(rs) => rulesets.push(rs),
            Err(_) => {},
        }
        (groups, rulesets)
    }
}

} // verus!

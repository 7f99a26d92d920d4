//! Reverse-proxy location matching: find the rule a request is routed by,
//! from its domain key and path.
//!
//! Within one host's bucket the rules are tried in insertion order and the
//! first whose `location` is a prefix of the request path wins; this order
//! is a configuration contract, there is no longest-prefix preference.

use vstd::prelude::*;
use crate::host::RequestDomain;
use crate::text::{starts_with_str, str_eq};

verus! {

/// The host key consulted when no exact host match exists.
pub const DEFAULT_HOST: &'static str = "default_host";

/// One reverse-proxy rule: requests whose path starts with `location` are
/// sent to the upstream rooted at `upstream_url_base`.
#[derive(Clone, Debug)]
pub struct LocationRule {
    pub location: String,
    pub upstream_url_base: String,
}

pub struct LocationView {
    pub location: Seq<char>,
    pub upstream_url_base: Seq<char>,
}

impl View for LocationRule {
    type V = LocationView;

    open spec fn view(&self) -> LocationView {
        LocationView { location: self.location@, upstream_url_base: self.upstream_url_base@ }
    }
}

/// The views of a bucket of rules.
pub open spec fn rules_view(rules: Seq<LocationRule>) -> Seq<LocationView> {
    Seq::new(rules.len(), |i: int| rules[i]@)
}

/// The reverse-proxy configuration: each host key owns an ordered bucket
/// of rules. The parser that builds it keeps host keys unique.
#[derive(Clone, Debug)]
pub struct ReverseProxyConfig {
    pub locations: Vec<(String, Vec<LocationRule>)>,
}

/// The view of the configuration: host keys and their buckets.
pub open spec fn config_view(cfg: ReverseProxyConfig) -> Seq<(Seq<char>, Seq<LocationView>)> {
    Seq::new(
        cfg.locations@.len(),
        |i: int| (cfg.locations@[i].0@, rules_view(cfg.locations@[i].1@)),
    )
}

/// The bucket of the first entry keyed `key`, if any.
pub open spec fn spec_bucket(
    entries: Seq<(Seq<char>, Seq<LocationView>)>,
    key: Seq<char>,
) -> Option<Seq<LocationView>>
    decreases entries.len(),
{
    if entries.len() == 0 {
        None
    } else if entries[0].0 == key {
        Some(entries[0].1)
    } else {
        spec_bucket(entries.drop_first(), key)
    }
}

/// Whether a rule matches a path: its location is a prefix of the path.
pub open spec fn spec_rule_matches(rule: LocationView, path: Seq<char>) -> bool {
    rule.location.is_prefix_of(path)
}

/// The first rule of the bucket that matches the path.
pub open spec fn spec_first_rule(rules: Seq<LocationView>, path: Seq<char>) -> Option<LocationView>
    decreases rules.len(),
{
    if rules.len() == 0 {
        None
    } else if spec_rule_matches(rules[0], path) {
        Some(rules[0])
    } else {
        spec_first_rule(rules.drop_first(), path)
    }
}

/// What the matcher selects: the domain's bucket when one exists, else the
/// `DEFAULT_HOST` bucket, and within it the first matching rule.
pub open spec fn spec_find_location(
    entries: Seq<(Seq<char>, Seq<LocationView>)>,
    domain: Seq<char>,
    path: Seq<char>,
) -> Option<LocationView> {
    match spec_bucket(entries, domain) {
        Some(rules) => spec_first_rule(rules, path),
        None => (match spec_bucket(entries, DEFAULT_HOST@) {
            Some(rules) => spec_first_rule(rules, path),
            None => None,
        }),
    }
}

/// The bucket stored under `key`, cloned.
fn bucket_of(cfg: &ReverseProxyConfig, key: &str) -> (r: Option<Vec<LocationRule>>)
    ensures
        (r matches Some(rules) ==> spec_bucket(config_view(*cfg), key@) == Some(
            rules_view(rules@),
        )),
        (r is None ==> spec_bucket(config_view(*cfg), key@) is None),
{
    let n = cfg.locations.len();
    let mut i: usize = 0;
    proof {
        assert(config_view(*cfg).skip(0) =~= config_view(*cfg));
    }
    while i < n
        invariant
            0 <= i <= n,
            n == cfg.locations@.len(),
            spec_bucket(config_view(*cfg), key@) == spec_bucket(
                config_view(*cfg).skip(i as int),
                key@,
            ),
        decreases n - i,
    {
        proof {
            assert(config_view(*cfg).skip(i as int)[0] == config_view(*cfg)[i as int]);
            assert(config_view(*cfg).skip(i as int).drop_first() =~= config_view(*cfg).skip(
                i + 1,
            ));
        }
        if str_eq(cfg.locations[i].0.as_str(), key) {
            let bucket = clone_rules(&cfg.locations[i].1);
            return Some(bucket);
        }
        i = i + 1;
    }
    proof {
        assert(config_view(*cfg).skip(n as int) =~= Seq::<(Seq<char>, Seq<LocationView>)>::empty());
    }
    None
}

/// A clone of a bucket, element for element.
fn clone_rules(rules: &Vec<LocationRule>) -> (r: Vec<LocationRule>)
    ensures
        rules_view(r@) == rules_view(rules@),
{
    let n = rules.len();
    let mut out: Vec<LocationRule> = Vec::new();
    let mut i: usize = 0;
    while i < n
        invariant
            0 <= i <= n,
            n == rules@.len(),
            out@.len() == i,
            forall|j: int| 0 <= j < i ==> (#[trigger] out@[j])@ == rules@[j]@,
        decreases n - i,
    {
        out.push(
            LocationRule {
                location: rules[i].location.clone(),
                upstream_url_base: rules[i].upstream_url_base.clone(),
            },
        );
        i = i + 1;
    }
    proof {
        assert(rules_view(out@) =~= rules_view(rules@));
    }
    out
}

/// Find the rule routing a request with this domain key and path, if any.
pub fn find_location(cfg: &ReverseProxyConfig, domain: &RequestDomain, path: &str) -> (r: Option<
    LocationRule,
>)
    ensures
        (r matches Some(rule) ==> spec_find_location(config_view(*cfg), domain@, path@) == Some(
            rule@,
        )),
        (r is None ==> spec_find_location(config_view(*cfg), domain@, path@) is None),
{
    let bucket = match bucket_of(cfg, domain.0.as_str()) {
        Some(b) => Some(b),
        None => bucket_of(cfg, DEFAULT_HOST),
    };
    match bucket {
        None => None,
        Some(rules) => {
            let n = rules.len();
            let mut i: usize = 0;
            proof {
                assert(rules_view(rules@).skip(0) =~= rules_view(rules@));
            }
            while i < n
                invariant
                    0 <= i <= n,
                    n == rules@.len(),
                    spec_find_location(config_view(*cfg), domain@, path@) == spec_first_rule(
                        rules_view(rules@),
                        path@,
                    ),
                    spec_first_rule(rules_view(rules@), path@) == spec_first_rule(
                        rules_view(rules@).skip(i as int),
                        path@,
                    ),
                decreases n - i,
            {
                proof {
                    assert(rules_view(rules@).skip(i as int)[0] == rules_view(rules@)[i as int]);
                    assert(rules_view(rules@).skip(i as int).drop_first() =~= rules_view(
                        rules@,
                    ).skip(i + 1));
                }
                if starts_with_str(path, rules[i].location.as_str()) {
                    return Some(
                        LocationRule {
                            location: rules[i].location.clone(),
                            upstream_url_base: rules[i].upstream_url_base.clone(),
                        },
                    );
                }
                i = i + 1;
            }
            proof {
                assert(rules_view(rules@).skip(n as int) =~= Seq::<LocationView>::empty());
            }
            None
        },
    }
}

/// Order decides: when two adjacent rules both match a path and nothing
/// before them matches, the earlier one is selected, and swapping the two
/// selects the other.
pub proof fn lemma_first_rule_order_sensitive(
    rules: Seq<LocationView>,
    path: Seq<char>,
    i: int,
)
    requires
        0 <= i,
        i + 1 < rules.len(),
        forall|j: int| 0 <= j < i ==> !spec_rule_matches(#[trigger] rules[j], path),
        spec_rule_matches(rules[i], path),
        spec_rule_matches(rules[i + 1], path),
    ensures
        spec_first_rule(rules, path) == Some(rules[i]),
        spec_first_rule(rules.update(i, rules[i + 1]).update(i + 1, rules[i]), path) == Some(
            rules[i + 1],
        ),
{
    lemma_first_rule_at(rules, path, i);
    let swapped = rules.update(i, rules[i + 1]).update(i + 1, rules[i]);
    assert forall|j: int| 0 <= j < i implies !spec_rule_matches(#[trigger] swapped[j], path) by {
        assert(swapped[j] == rules[j]);
    }
    assert(swapped[i] == rules[i + 1]);
    lemma_first_rule_at(swapped, path, i);
}

/// The first match is at `k` when nothing earlier matches and `k` does.
pub proof fn lemma_first_rule_at(rules: Seq<LocationView>, path: Seq<char>, k: int)
    requires
        0 <= k < rules.len(),
        forall|j: int| 0 <= j < k ==> !spec_rule_matches(#[trigger] rules[j], path),
        spec_rule_matches(rules[k], path),
    ensures
        spec_first_rule(rules, path) == Some(rules[k]),
    decreases k,
{
    if k > 0 {
        assert forall|j: int|
            0 <= j < k - 1 implies !spec_rule_matches(#[trigger] rules.drop_first()[j], path) by {
            assert(rules.drop_first()[j] == rules[j + 1]);
        }
        assert(rules.drop_first()[k - 1] == rules[k]);
        lemma_first_rule_at(rules.drop_first(), path, k - 1);
    }
}

} // verus!

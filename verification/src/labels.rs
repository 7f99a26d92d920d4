//! Label sets used to tag per-connection traffic counters. The metrics
//! registry itself lives outside the library; these types only carry the
//! plain values the counters are keyed by.

use vstd::prelude::*;
use vstd::string::StringExecFns;

verus! {

/// Labels of the request counter: where a request came from and what it
/// asked for.
#[derive(Clone, Debug, Hash, PartialEq, Eq)]
pub struct ReqLabels {
    pub referer: String,
    pub path: String,
}

/// Labels of a forward-proxy connection's byte counter.
#[derive(Clone, Debug, Hash, PartialEq, Eq, PartialOrd, Ord)]
pub struct AccessLabel {
    pub client: String,
    pub target: String,
    pub username: String,
}

pub struct AccessLabelView {
    pub client: Seq<char>,
    pub target: Seq<char>,
    pub username: Seq<char>,
}

impl View for AccessLabel {
    type V = AccessLabelView;

    open spec fn view(&self) -> AccessLabelView {
        AccessLabelView {
            client: self.client@,
            target: self.target@,
            username: self.username@,
        }
    }
}

impl AccessLabel {
    /// The `client -> target` text, as the server logs it.
    pub fn display_string(&self) -> (r: String)
        ensures
            r@ == self@.client + " -> "@ + self@.target,
    {
        let mut s = self.client.clone();
        s.append(" -> ");
        s.append(self.target.as_str());
        s
    }
}

/// Labels of a reverse-proxy request counter.
#[derive(Clone, Debug, Hash, PartialEq, Eq, PartialOrd, Ord)]
pub struct ReverseProxyReqLabel {
    pub client: String,
    pub origin: String,
    pub upstream: String,
}

/// Label of the per-direction byte counters.
#[derive(Clone, Debug, Hash, PartialEq, Eq)]
pub struct NetDirectionLabel {
    pub direction: &'static str,
}

} // verus!

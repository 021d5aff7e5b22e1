//! Runtime configuration for the development server, and the proxy rules
//! it routes by. Configuration is built once at startup and only shared
//! afterwards; rule order decides routing precedence, first match wins,
//! with the single-backend form, when present, standing before the rule
//! list.

use vstd::prelude::*;

use crate::bytes::{concat_bytes, is_prefix_of, starts_with, suffix_from};

verus! {

/// One path-prefix-to-backend forwarding rule: requests under `prefix` are
/// forwarded to `backend`, with the matched prefix stripped and, when a
/// rewrite is configured, replaced by the rewrite value.
pub struct ProxyRule {
    pub prefix: Vec<u8>,
    pub backend: Vec<u8>,
    pub rewrite: Option<Vec<u8>>,
}

/// A rule matches a request path that equals its prefix or continues it at
/// a path-segment boundary.
pub open spec fn rule_matches(rule: ProxyRule, path: Seq<u8>) -> bool {
    is_prefix_of(rule.prefix@, path) && (path.len() == rule.prefix@.len() || path[rule.prefix@.len() as int]
        == 47)
}

/// The path sent to the backend: the configured rewrite (or nothing) in
/// place of the stripped prefix, then the rest of the request path.
pub open spec fn rewritten_path(rule: ProxyRule, path: Seq<u8>) -> Seq<u8> {
    (match rule.rewrite {
        Some(rw) => rw@,
        None => Seq::empty(),
    }) + path.skip(rule.prefix@.len() as int)
}

/// The full backend URL a matching request is forwarded to.
pub open spec fn target_url(rule: ProxyRule, path: Seq<u8>) -> Seq<u8> {
    rule.backend@ + rewritten_path(rule, path)
}

impl ProxyRule {
    /// Does this rule claim the request path?
    pub fn matches(&self, path: &Vec<u8>) -> (r: bool)
        ensures
            r == rule_matches(*self, path@),
    {
        if !starts_with(path, &self.prefix) {
            return false;
        }
        if path.len() == self.prefix.len() {
            return true;
        }
        path[self.prefix.len()] == 47
    }

    /// The backend URL for a request this rule claims: backend origin,
    /// then the rewrite (or nothing) in place of the stripped prefix, then
    /// the rest of the path.
    pub fn target(&self, path: &Vec<u8>) -> (r: Vec<u8>)
        requires
            rule_matches(*self, path@),
        ensures
            r@ == target_url(*self, path@),
    {
        let rest = suffix_from(path, self.prefix.len());
        let tail = match &self.rewrite {
            Some(rw) => concat_bytes(rw, &rest),
            None => rest,
        };
        let r = concat_bytes(&self.backend, &tail);
        proof {
            assert(path@.subrange(self.prefix@.len() as int, path@.len() as int) =~= path@.skip(
                self.prefix@.len() as int,
            ));
        }
        r
    }
}

/// Immutable runtime configuration: where the finished output tree lives,
/// the public URL prefix it is served under, the listening port, whether a
/// browser is opened, whether hot reload is enabled, and the proxy setup
/// in both supported shapes.
pub struct ServeConfig {
    pub dist: Vec<u8>,
    pub public_url: Vec<u8>,
    pub port: u16,
    pub open: bool,
    pub hot_reload: bool,
    pub proxy_backend: Option<ProxyRule>,
    pub proxies: Vec<ProxyRule>,
}

/// The proxy rules in routing order: the single-backend rule, when
/// present, takes precedence; the rule list follows in configuration
/// order.
pub open spec fn effective_rules(cfg: ServeConfig) -> Seq<ProxyRule> {
    match cfg.proxy_backend {
        Some(r) => seq![r] + cfg.proxies@,
        None => cfg.proxies@,
    }
}

/// An earlier rule shadows a later one when it would claim every request
/// path the later one claims; such a setup makes routing ambiguous.
pub open spec fn shadows(earlier: ProxyRule, later: ProxyRule) -> bool {
    rule_matches(earlier, later.prefix@)
}

/// Whether no configured rule shadows a later one.
pub open spec fn rules_unambiguous(rules: Seq<ProxyRule>) -> bool {
    forall|i: int, j: int| 0 <= i < j < rules.len() ==> !shadows(rules[i], rules[j])
}

/// Check that no rule shadows a later one, so first-match routing gives
/// every rule a path of its own.
#[verifier::loop_isolation(false)]
pub fn check_rules_unambiguous(rules: &Vec<ProxyRule>) -> (r: bool)
    ensures
        r == rules_unambiguous(rules@),
{
    let n = rules.len();
    let mut i: usize = 0;
    while i < n
        invariant
            i <= n,
            forall|a: int, b: int| 0 <= a < b < n && a < i ==> !shadows(rules@[a], rules@[b]),
        decreases n - i,
    {
        let mut j: usize = i + 1;
        while j < n
            invariant
                i < j ==> i <= n,
                i + 1 <= j <= n,
                forall|b: int| i < b < j ==> !shadows(rules@[i as int], rules@[b]),
            decreases n - j,
        {
            if rules[i].matches(&rules[j].prefix) {
                proof {
                    assert(shadows(rules@[i as int], rules@[j as int]));
                    assert(!rules_unambiguous(rules@));
                }
                return false;
            }
            j += 1;
        }
        i += 1;
    }
    true
}

} // verus!

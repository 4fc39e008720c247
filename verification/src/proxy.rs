use vstd::prelude::*;
use vstd::string::StringExecFns;

use crate::permissions::{enabled_network_profile, NetworkSandboxPolicy, PermissionProfile};
use crate::strings::{clone_strings, same_strings, strings_view};

verus! {

/// The restrictions a network proxy enforces.
///
/// This holds the part of a proxy configuration that decides whether two
/// proxies restrict alike: whether the proxy is on, and the domains it lets
/// through and refuses. Listen addresses, upstream settings and any other
/// field a full proxy configuration carries are not part of this type.
#[derive(Debug, PartialEq, Eq)]
pub struct NetworkProxyConfig {
    pub enabled: bool,
    pub allowed_domains: Vec<String>,
    pub denied_domains: Vec<String>,
}

/// The restrictions of a proxy, as values.
pub struct ProxyRestrictions {
    pub enabled: bool,
    pub allowed_domains: Seq<Seq<char>>,
    pub denied_domains: Seq<Seq<char>>,
}

impl NetworkProxyConfig {
    /// A disabled proxy that allows and denies nothing.
    pub fn new() -> (config: NetworkProxyConfig)
        ensures
            config.restrictions() == (ProxyRestrictions {
                enabled: false,
                allowed_domains: Seq::empty(),
                denied_domains: Seq::empty(),
            }),
    {
        let config = NetworkProxyConfig { enabled: false, allowed_domains: Vec::new(), denied_domains: Vec::new() };
        assert(strings_view(config.allowed_domains@) =~= Seq::empty());
        assert(strings_view(config.denied_domains@) =~= Seq::empty());
        config
    }

    pub open spec fn restrictions(&self) -> ProxyRestrictions {
        ProxyRestrictions {
            enabled: self.enabled,
            allowed_domains: strings_view(self.allowed_domains@),
            denied_domains: strings_view(self.denied_domains@),
        }
    }

    /// Replaces the domains the proxy lets through.
    pub fn set_allowed_domains(&mut self, domains: Vec<String>)
        ensures
            final(self).enabled == old(self).enabled,
            final(self).allowed_domains@ == domains@,
            final(self).denied_domains@ == old(self).denied_domains@,
    {
        self.allowed_domains = domains;
    }
}

/// A proxy configuration, resolved for the permission profile it serves.
///
/// Resolving records the profile's network policy beside the configuration.
/// Administrator requirements that a full resolution also merges in are not
/// modelled: a spec is its configuration plus that policy, and resolving
/// cannot fail.
#[derive(Debug, PartialEq, Eq)]
pub struct NetworkProxySpec {
    config: NetworkProxyConfig,
    network: NetworkSandboxPolicy,
}

impl NetworkProxySpec {
    /// What the proxy restricts.
    pub closed spec fn restrictions(&self) -> ProxyRestrictions {
        self.config.restrictions()
    }

    /// The network policy of the profile the proxy was resolved for.
    pub closed spec fn network(&self) -> NetworkSandboxPolicy {
        self.network
    }

    /// Resolves `config` for `profile`.
    pub fn from_config(config: NetworkProxyConfig, profile: &PermissionProfile) -> (spec: NetworkProxySpec)
        ensures
            spec.restrictions() == config.restrictions(),
            spec.network() == profile.network,
    {
        NetworkProxySpec { config, network: profile.network }
    }

    /// The same restrictions, resolved for `profile`.
    pub fn recompute_for_permission_profile(&self, profile: &PermissionProfile) -> (spec: NetworkProxySpec)
        ensures
            spec.restrictions() == self.restrictions(),
            spec.network() == profile.network,
    {
        NetworkProxySpec {
            config: NetworkProxyConfig {
                enabled: self.config.enabled,
                allowed_domains: clone_strings(&self.config.allowed_domains),
                denied_domains: clone_strings(&self.config.denied_domains),
            },
            network: profile.network,
        }
    }

    /// Whether the proxy restricts anything: a disabled proxy lets every
    /// request through, as if there were none.
    pub fn is_restrictive(&self) -> (restrictive: bool)
        ensures
            restrictive == self.restrictions().enabled,
    {
        self.config.enabled
    }

    /// Whether two proxies enforce the same restrictions.
    pub fn same_restrictions(&self, other: &NetworkProxySpec) -> (same: bool)
        ensures
            same == (self.restrictions() == other.restrictions()),
    {
        self.config.enabled == other.config.enabled && same_strings(
            &self.config.allowed_domains,
            &other.config.allowed_domains,
        ) && same_strings(&self.config.denied_domains, &other.config.denied_domains)
    }
}

/// Why two proxies could not be combined.
pub open spec fn incompatible_proxies_message() -> Seq<char> {
    "parent and role network proxy policies cannot be safely intersected"@
}

/// What `meet_network_proxy_specs` yields, as values: no proxy when neither
/// side has one; the one side's restrictions when only one has; the common
/// restrictions when both agree; `None` (the meet fails) when they disagree.
pub open spec fn spec_proxy_meet(parent: Option<ProxyRestrictions>, role: Option<ProxyRestrictions>) -> Option<
    Option<ProxyRestrictions>,
> {
    match (parent, role) {
        (None, None) => Some(None),
        (Some(p), None) => Some(Some(p)),
        (None, Some(r)) => Some(Some(r)),
        (Some(p), Some(r)) => if p == r {
            Some(Some(p))
        } else {
            None
        },
    }
}

/// The restrictions of an optional proxy, if it is there and enabled.
pub open spec fn restrictive(spec: Option<&NetworkProxySpec>) -> Option<ProxyRestrictions> {
    match spec {
        Some(s) => if s.restrictions().enabled {
            Some(s.restrictions())
        } else {
            None
        },
        None => None,
    }
}

/// Combines the proxy a parent agent runs behind with the one its spawned
/// role asks for, for a child that runs with `profile`. A disabled proxy
/// restricts nothing and counts as none. A single restrictive proxy is kept,
/// resolved for `profile`; two that restrict alike give that proxy; two that
/// restrict differently cannot be intersected safely, and the spawn fails
/// closed.
pub fn meet_network_proxy_specs(
    parent: Option<&NetworkProxySpec>,
    role: Option<&NetworkProxySpec>,
    profile: &PermissionProfile,
) -> (met: Result<Option<NetworkProxySpec>, String>)
    ensures
        match spec_proxy_meet(restrictive(parent), restrictive(role)) {
            Some(expected) => met matches Ok(proxy) && match proxy {
                Some(proxy) => expected == Some(proxy.restrictions()) && proxy.network()
                    == profile.network,
                None => expected is None,
            },
            None => met matches Err(message) && message@ == incompatible_proxies_message(),
        },
{
    let parent = match parent {
        Some(spec) => if spec.is_restrictive() {
            Some(spec)
        } else {
            None
        },
        None => None,
    };
    let role = match role {
        Some(spec) => if spec.is_restrictive() {
            Some(spec)
        } else {
            None
        },
        None => None,
    };
    match (parent, role) {
        (None, None) => Ok(None),
        (Some(only), None) => Ok(Some(only.recompute_for_permission_profile(profile))),
        (None, Some(only)) => Ok(Some(only.recompute_for_permission_profile(profile))),
        (Some(p), Some(r)) => {
            if p.same_restrictions(r) {
                Ok(Some(p.recompute_for_permission_profile(profile)))
            } else {
                Err(String::from_str("parent and role network proxy policies cannot be safely intersected"))
            }
        },
    }
}

/// An enabled proxy that lets through `domain` alone, resolved for a
/// workspace-write profile with network access.
pub fn proxy_spec_for_domain(domain: &str) -> (spec: NetworkProxySpec)
    ensures
        spec.restrictions().enabled,
        spec.restrictions().allowed_domains == seq![domain@],
        spec.restrictions().denied_domains == Seq::<Seq<char>>::empty(),
        spec.network() == NetworkSandboxPolicy::Enabled,
{
    let mut config = NetworkProxyConfig::new();
    config.enabled = true;
    config.set_allowed_domains(vec![String::from_str(domain)]);
    assert(strings_view(config.allowed_domains@) =~= seq![domain@]);
    NetworkProxySpec::from_config(config, &enabled_network_profile())
}

/// A disabled proxy restricts nothing and counts as none in a meet; an
/// enabled one counts with all its restrictions.
pub proof fn lemma_disabled_proxy_counts_as_none(spec: &NetworkProxySpec)
    ensures
        !spec.restrictions().enabled ==> restrictive(Some(spec)) is None,
        spec.restrictions().enabled ==> restrictive(Some(spec)) == Some(spec.restrictions()),
        restrictive(None) is None,
{
}

/// Combining proxies does not depend on which side is the parent; a proxy met
/// with itself or with no proxy stays as it is; and two proxies that restrict
/// differently never combine.
pub proof fn lemma_proxy_meet_laws(a: Option<ProxyRestrictions>, b: Option<ProxyRestrictions>)
    ensures
        spec_proxy_meet(a, b) == spec_proxy_meet(b, a),
        spec_proxy_meet(a, a) == Some(a),
        spec_proxy_meet(a, None) == Some(a),
        (a matches Some(x) && b matches Some(y) && x != y) ==> spec_proxy_meet(a, b) is None,
{
}

} // verus!

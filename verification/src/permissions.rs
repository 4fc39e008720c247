use vstd::prelude::*;

use crate::strings::{clone_strings, common_strings, keep_common, lemma_keep_common_is_common, lemma_keep_common_keeps, lemma_keep_common_of_superset, same_strings, strings_view};

verus! {

/// How much of the file system a sandboxed agent may write.
#[derive(Debug, Clone, Copy, PartialEq, Eq, Structural)]
pub enum SandboxMode {
    ReadOnly,
    WorkspaceWrite,
    DangerFullAccess,
}

/// Whether sandboxed commands may reach the network.
#[derive(Debug, Clone, Copy, PartialEq, Eq, Structural)]
pub enum NetworkSandboxPolicy {
    Restricted,
    Enabled,
}

/// The permissions an agent runs with.
///
/// A profile is a sandbox mode, a network policy, the extra roots that a
/// workspace-write sandbox may write under (besides the workspace roots), and
/// whether the `$TMPDIR` directory and `/tmp` are kept out of the writable
/// set. Only the workspace-write mode uses the roots and the two flags.
#[derive(Debug, PartialEq, Eq)]
pub struct PermissionProfile {
    pub sandbox: SandboxMode,
    pub network: NetworkSandboxPolicy,
    pub writable_roots: Vec<String>,
    pub exclude_tmpdir_env_var: bool,
    pub exclude_slash_tmp: bool,
}

/// A permission profile, as values.
pub struct ProfileView {
    pub sandbox: SandboxMode,
    pub network: NetworkSandboxPolicy,
    pub writable_roots: Seq<Seq<char>>,
    pub exclude_tmpdir_env_var: bool,
    pub exclude_slash_tmp: bool,
}

impl View for PermissionProfile {
    type V = ProfileView;

    open spec fn view(&self) -> ProfileView {
        ProfileView {
            sandbox: self.sandbox,
            network: self.network,
            writable_roots: strings_view(self.writable_roots@),
            exclude_tmpdir_env_var: self.exclude_tmpdir_env_var,
            exclude_slash_tmp: self.exclude_slash_tmp,
        }
    }
}

/// Sandbox modes from the narrowest up.
pub open spec fn sandbox_rank(mode: SandboxMode) -> int {
    match mode {
        SandboxMode::ReadOnly => 0,
        SandboxMode::WorkspaceWrite => 1,
        SandboxMode::DangerFullAccess => 2,
    }
}

/// Network policies from the narrowest up.
pub open spec fn network_rank(policy: NetworkSandboxPolicy) -> int {
    match policy {
        NetworkSandboxPolicy::Restricted => 0,
        NetworkSandboxPolicy::Enabled => 1,
    }
}

/// Only a workspace-write profile names writable roots.
pub open spec fn profile_well_formed(p: ProfileView) -> bool {
    p.sandbox != SandboxMode::WorkspaceWrite ==> p.writable_roots.len() == 0
}

/// `narrow` grants nothing that `wide` does not: a mode and network policy no
/// wider, every writable root of a workspace-write `narrow` writable under a
/// workspace-write `wide`, and, in the same mode, every temporary directory
/// that `wide` keeps out kept out.
pub open spec fn profile_within(narrow: ProfileView, wide: ProfileView) -> bool {
    &&& sandbox_rank(narrow.sandbox) <= sandbox_rank(wide.sandbox)
    &&& network_rank(narrow.network) <= network_rank(wide.network)
    &&& (narrow.sandbox == SandboxMode::WorkspaceWrite && wide.sandbox == SandboxMode::WorkspaceWrite)
        ==> forall|i: int|
        0 <= i < narrow.writable_roots.len() ==> wide.writable_roots.contains(
            #[trigger] narrow.writable_roots[i],
        )
    &&& narrow.sandbox == wide.sandbox ==> (wide.exclude_tmpdir_env_var ==> narrow.exclude_tmpdir_env_var)
        && (wide.exclude_slash_tmp ==> narrow.exclude_slash_tmp)
}

/// The narrower of two sandbox modes.
pub open spec fn spec_sandbox_meet(a: SandboxMode, b: SandboxMode) -> SandboxMode {
    if sandbox_rank(a) <= sandbox_rank(b) {
        a
    } else {
        b
    }
}

/// The narrower of two network policies.
pub open spec fn spec_network_meet(a: NetworkSandboxPolicy, b: NetworkSandboxPolicy) -> NetworkSandboxPolicy {
    if network_rank(a) <= network_rank(b) {
        a
    } else {
        b
    }
}

/// The writable roots of the meet of two profiles: none unless the meet is
/// workspace-write; the common roots when both are; else the roots of the
/// workspace-write side (full access writes everywhere).
pub open spec fn spec_roots_meet(a: ProfileView, b: ProfileView) -> Seq<Seq<char>> {
    if spec_sandbox_meet(a.sandbox, b.sandbox) != SandboxMode::WorkspaceWrite {
        Seq::empty()
    } else if a.sandbox == SandboxMode::WorkspaceWrite && b.sandbox == SandboxMode::WorkspaceWrite {
        keep_common(a.writable_roots, b.writable_roots)
    } else if a.sandbox == SandboxMode::WorkspaceWrite {
        a.writable_roots
    } else {
        b.writable_roots
    }
}

/// The widest profile that both `a` and `b` allow.
pub open spec fn spec_profile_meet(a: ProfileView, b: ProfileView) -> ProfileView {
    ProfileView {
        sandbox: spec_sandbox_meet(a.sandbox, b.sandbox),
        network: spec_network_meet(a.network, b.network),
        writable_roots: spec_roots_meet(a, b),
        exclude_tmpdir_env_var: spec_exclusion_meet(
            a.sandbox,
            a.exclude_tmpdir_env_var,
            b.sandbox,
            b.exclude_tmpdir_env_var,
        ),
        exclude_slash_tmp: spec_exclusion_meet(a.sandbox, a.exclude_slash_tmp, b.sandbox, b.exclude_slash_tmp),
    }
}

/// An exclusion of the meet: what the side (or sides) whose mode the meet
/// takes exclude.
pub open spec fn spec_exclusion_meet(a: SandboxMode, a_excludes: bool, b: SandboxMode, b_excludes: bool) -> bool {
    let m = spec_sandbox_meet(a, b);
    (a == m && a_excludes) || (b == m && b_excludes)
}

impl PermissionProfile {
    /// Read-only file system, no network.
    pub fn read_only() -> (profile: PermissionProfile)
        ensures
            profile@ == (ProfileView {
                sandbox: SandboxMode::ReadOnly,
                network: NetworkSandboxPolicy::Restricted,
                writable_roots: Seq::empty(),
                exclude_tmpdir_env_var: false,
                exclude_slash_tmp: false,
            }),
    {
        let profile = PermissionProfile {
            sandbox: SandboxMode::ReadOnly,
            network: NetworkSandboxPolicy::Restricted,
            writable_roots: Vec::new(),
            exclude_tmpdir_env_var: false,
            exclude_slash_tmp: false,
        };
        assert(profile@.writable_roots =~= Seq::empty());
        profile
    }

    /// Writes inside the workspace and the temporary directories, no network.
    pub fn workspace_write() -> (profile: PermissionProfile)
        ensures
            profile@ == (ProfileView {
                sandbox: SandboxMode::WorkspaceWrite,
                network: NetworkSandboxPolicy::Restricted,
                writable_roots: Seq::empty(),
                exclude_tmpdir_env_var: false,
                exclude_slash_tmp: false,
            }),
    {
        let profile = Self::workspace_write_with(Vec::new(), NetworkSandboxPolicy::Restricted, false, false);
        assert(profile@.writable_roots =~= Seq::empty());
        profile
    }

    /// Writes inside the workspace and under `writable_roots`, with the given
    /// network policy; `$TMPDIR` and `/tmp` stay writable unless excluded.
    pub fn workspace_write_with(
        writable_roots: Vec<String>,
        network: NetworkSandboxPolicy,
        exclude_tmpdir_env_var: bool,
        exclude_slash_tmp: bool,
    ) -> (profile: PermissionProfile)
        ensures
            profile@ == (ProfileView {
                sandbox: SandboxMode::WorkspaceWrite,
                network,
                writable_roots: strings_view(writable_roots@),
                exclude_tmpdir_env_var,
                exclude_slash_tmp,
            }),
    {
        PermissionProfile {
            sandbox: SandboxMode::WorkspaceWrite,
            network,
            writable_roots,
            exclude_tmpdir_env_var,
            exclude_slash_tmp,
        }
    }

    /// A copy of the profile.
    pub fn duplicate(&self) -> (copy: PermissionProfile)
        ensures
            copy@ == self@,
    {
        PermissionProfile {
            sandbox: self.sandbox,
            network: self.network,
            writable_roots: clone_strings(&self.writable_roots),
            exclude_tmpdir_env_var: self.exclude_tmpdir_env_var,
            exclude_slash_tmp: self.exclude_slash_tmp,
        }
    }

    /// Whether two profiles grant the same.
    pub fn same_as(&self, other: &PermissionProfile) -> (same: bool)
        ensures
            same == (self@ == other@),
    {
        self.sandbox == other.sandbox && self.network == other.network
            && self.exclude_tmpdir_env_var == other.exclude_tmpdir_env_var
            && self.exclude_slash_tmp == other.exclude_slash_tmp && same_strings(
            &self.writable_roots,
            &other.writable_roots,
        )
    }
}

/// Writes inside the workspace with network access; no extra writable roots,
/// and neither `$TMPDIR` nor `/tmp` excluded.
pub fn enabled_network_profile() -> (profile: PermissionProfile)
    ensures
        profile@ == (ProfileView {
            sandbox: SandboxMode::WorkspaceWrite,
            network: NetworkSandboxPolicy::Enabled,
            writable_roots: Seq::empty(),
            exclude_tmpdir_env_var: false,
            exclude_slash_tmp: false,
        }),
{
    let profile = PermissionProfile::workspace_write_with(Vec::new(), NetworkSandboxPolicy::Enabled, false, false);
    assert(profile@.writable_roots =~= Seq::empty());
    profile
}

fn sandbox_meet(a: SandboxMode, b: SandboxMode) -> (m: SandboxMode)
    ensures
        m == spec_sandbox_meet(a, b),
{
    let rank_a: u8 = match a {
        SandboxMode::ReadOnly => 0,
        SandboxMode::WorkspaceWrite => 1,
        SandboxMode::DangerFullAccess => 2,
    };
    let rank_b: u8 = match b {
        SandboxMode::ReadOnly => 0,
        SandboxMode::WorkspaceWrite => 1,
        SandboxMode::DangerFullAccess => 2,
    };
    if rank_a <= rank_b {
        a
    } else {
        b
    }
}

fn network_meet(a: NetworkSandboxPolicy, b: NetworkSandboxPolicy) -> (m: NetworkSandboxPolicy)
    ensures
        m == spec_network_meet(a, b),
{
    match a {
        NetworkSandboxPolicy::Restricted => a,
        NetworkSandboxPolicy::Enabled => b,
    }
}

/// The widest profile that both `a` and `b` allow.
pub fn profile_meet(a: &PermissionProfile, b: &PermissionProfile) -> (m: PermissionProfile)
    ensures
        m@ == spec_profile_meet(a@, b@),
{
    let sandbox = sandbox_meet(a.sandbox, b.sandbox);
    let writable_roots = match sandbox {
        SandboxMode::WorkspaceWrite => match (a.sandbox, b.sandbox) {
            (SandboxMode::WorkspaceWrite, SandboxMode::WorkspaceWrite) => common_strings(
                &a.writable_roots,
                &b.writable_roots,
            ),
            (SandboxMode::WorkspaceWrite, _) => clone_strings(&a.writable_roots),
            _ => clone_strings(&b.writable_roots),
        },
        _ => Vec::new(),
    };
    let m = PermissionProfile {
        sandbox,
        network: network_meet(a.network, b.network),
        writable_roots,
        exclude_tmpdir_env_var: (a.sandbox == sandbox && a.exclude_tmpdir_env_var) || (b.sandbox == sandbox
            && b.exclude_tmpdir_env_var),
        exclude_slash_tmp: (a.sandbox == sandbox && a.exclude_slash_tmp) || (b.sandbox == sandbox
            && b.exclude_slash_tmp),
    };
    assert(m@.writable_roots =~= spec_roots_meet(a@, b@));
    m
}

/// The profile a spawned child agent runs with: the parent's, narrowed by the
/// role's when the role's config sets one. A role can take permissions away
/// from its parent, never add any.
pub fn narrow_permission_profile(parent: &PermissionProfile, role: Option<&PermissionProfile>) -> (child:
    PermissionProfile)
    ensures
        child@ == match role {
            Some(role) => spec_profile_meet(parent@, role@),
            None => parent@,
        },
{
    match role {
        Some(role) => profile_meet(parent, role),
        None => parent.duplicate(),
    }
}

/// A child never runs with more than its parent or its role allows.
pub proof fn lemma_child_profile_is_within_parent_and_role(parent: ProfileView, role: ProfileView)
    ensures
        profile_within(spec_profile_meet(parent, role), parent),
        profile_within(spec_profile_meet(parent, role), role),
        profile_well_formed(spec_profile_meet(parent, role)),
{
    lemma_keep_common_is_common(parent.writable_roots, role.writable_roots);
}

/// Narrowing a well-formed profile by itself changes nothing, and which side
/// is the parent does not change the mode, the network policy or the
/// temporary-directory exclusions.
pub proof fn lemma_profile_meet_is_idempotent_and_symmetric(a: ProfileView, b: ProfileView)
    requires
        profile_well_formed(a),
    ensures
        spec_profile_meet(a, a) == a,
        spec_profile_meet(a, b).sandbox == spec_profile_meet(b, a).sandbox,
        spec_profile_meet(a, b).network == spec_profile_meet(b, a).network,
        spec_profile_meet(a, b).exclude_tmpdir_env_var == spec_profile_meet(b, a).exclude_tmpdir_env_var,
        spec_profile_meet(a, b).exclude_slash_tmp == spec_profile_meet(b, a).exclude_slash_tmp,
{
    assert forall|i: int| 0 <= i < a.writable_roots.len() implies a.writable_roots.contains(
        #[trigger] a.writable_roots[i],
    ) by {}
    lemma_keep_common_of_superset(a.writable_roots, a.writable_roots);
    assert(spec_profile_meet(a, a).writable_roots =~= a.writable_roots);
}

/// The meet is the greatest profile within both sides: any profile within the
/// parent and within the role is within their meet.
pub proof fn lemma_profile_meet_is_greatest(a: ProfileView, b: ProfileView, c: ProfileView)
    requires
        profile_within(c, a),
        profile_within(c, b),
    ensures
        profile_within(c, spec_profile_meet(a, b)),
{
    let m = spec_profile_meet(a, b);
    if c.sandbox == SandboxMode::WorkspaceWrite && m.sandbox == SandboxMode::WorkspaceWrite {
        assert forall|i: int| 0 <= i < c.writable_roots.len() implies m.writable_roots.contains(
            #[trigger] c.writable_roots[i],
        ) by {
            if a.sandbox == SandboxMode::WorkspaceWrite && b.sandbox == SandboxMode::WorkspaceWrite {
                lemma_keep_common_keeps(a.writable_roots, b.writable_roots, c.writable_roots[i]);
            }
        }
    }
}

/// Narrowing by a side that is at least as wide changes nothing: a
/// well-formed profile met with a wider one (a full-access role, say) keeps
/// its mode, network policy, every writable root and its exclusions.
pub proof fn lemma_profile_meet_with_wider_is_identity(a: ProfileView, b: ProfileView)
    requires
        profile_well_formed(a),
        profile_within(a, b),
    ensures
        spec_profile_meet(a, b) == a,
{
    if a.sandbox == SandboxMode::WorkspaceWrite && b.sandbox == SandboxMode::WorkspaceWrite {
        lemma_keep_common_of_superset(a.writable_roots, b.writable_roots);
    }
    if a.sandbox != SandboxMode::WorkspaceWrite {
        assert(a.writable_roots =~= Seq::<Seq<char>>::empty());
    }
    assert(spec_profile_meet(a, b).writable_roots =~= a.writable_roots);
}

} // verus!

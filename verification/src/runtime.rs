use vstd::prelude::*;
use vstd::string::StringExecFns;

use crate::permissions::{
    lemma_child_profile_is_within_parent_and_role, lemma_profile_meet_is_idempotent_and_symmetric,
    narrow_permission_profile, profile_meet, profile_well_formed, profile_within, spec_profile_meet,
    PermissionProfile, ProfileView, SandboxMode,
};
use crate::strings::{clone_strings, same_strings, strings_view};

verus! {

/// When the agent asks the user before running a command.
#[derive(Debug, Clone, Copy, PartialEq, Eq, Structural)]
pub enum ApprovalPolicy {
    UnlessTrusted,
    OnFailure,
    OnRequest,
    Never,
}

/// Who reviews the approval requests an agent raises.
#[derive(Debug, Clone, Copy, PartialEq, Eq, Structural)]
pub enum ApprovalsReviewer {
    /// The user answers each request.
    User,
    /// A reviewing agent answers on the user's behalf.
    Agent,
}

/// The permission part of an agent's configuration.
#[derive(Debug, PartialEq, Eq)]
pub struct Permissions {
    pub permission_profile: PermissionProfile,
    /// The name of the permission profile the session selected, if any.
    pub active_permission_profile: Option<String>,
    pub workspace_roots: Vec<String>,
    /// Workspace roots that the active profile itself declares.
    pub profile_workspace_roots: Vec<String>,
    pub approval_policy: ApprovalPolicy,
}

/// The runtime part of an agent's configuration that a role may change.
#[derive(Debug, PartialEq, Eq)]
pub struct AgentConfig {
    pub cwd: String,
    pub approvals_reviewer: ApprovalsReviewer,
    pub workspace_roots: Vec<String>,
    pub workspace_roots_explicit: bool,
    pub permissions: Permissions,
}

/// The permissions an agent actually runs with: its profile, and every root it
/// may write under.
#[derive(Debug, PartialEq, Eq)]
pub struct EffectivePermissionProfile {
    pub profile: PermissionProfile,
    pub writable_roots: Vec<String>,
}

/// The characters of an optional string.
pub open spec fn optional_text(s: Option<String>) -> Option<Seq<char>> {
    match s {
        Some(s) => Some(s@),
        None => None,
    }
}

/// The characters of an optional string slice.
pub open spec fn optional_str(s: Option<&str>) -> Option<Seq<char>> {
    match s {
        Some(s) => Some(s@),
        None => None,
    }
}

/// The temporary directories a workspace-write profile leaves writable:
/// `/tmp` unless excluded, then the `$TMPDIR` directory (when the environment
/// names one) unless excluded.
pub open spec fn temporary_roots(profile: ProfileView, tmpdir: Option<Seq<char>>) -> Seq<Seq<char>> {
    (if profile.exclude_slash_tmp {
        Seq::empty()
    } else {
        seq!["/tmp"@]
    }) + (match tmpdir {
        Some(dir) => if profile.exclude_tmpdir_env_var {
            Seq::empty()
        } else {
            seq![dir]
        },
        None => Seq::empty(),
    })
}

/// The roots a sandbox may write under: with workspace write, the profile's
/// own writable roots, the runtime workspace roots, the roots the active
/// profile declares, and the temporary directories it does not exclude;
/// none otherwise.
pub open spec fn effective_writable_roots(permissions: Permissions, tmpdir: Option<Seq<char>>) -> Seq<
    Seq<char>,
> {
    let profile = permissions.permission_profile@;
    if profile.sandbox == SandboxMode::WorkspaceWrite {
        profile.writable_roots + strings_view(permissions.workspace_roots@) + strings_view(
            permissions.profile_workspace_roots@,
        ) + temporary_roots(profile, tmpdir)
    } else {
        Seq::empty()
    }
}

/// An effective profile, as values.
pub open spec fn effective_view(effective: EffectivePermissionProfile) -> (ProfileView, Seq<Seq<char>>) {
    (effective.profile@, strings_view(effective.writable_roots@))
}

impl Permissions {
    /// The effective profile these permissions give, where `tmpdir` is the
    /// `$TMPDIR` directory of the environment, if it names one.
    pub fn effective_permission_profile(&self, tmpdir: Option<&str>) -> (effective: EffectivePermissionProfile)
        ensures
            effective_view(effective) == (
                self.permission_profile@,
                effective_writable_roots(*self, optional_str(tmpdir)),
            ),
    {
        let profile = &self.permission_profile;
        let mut writable_roots: Vec<String> = Vec::new();
        if profile.sandbox == SandboxMode::WorkspaceWrite {
            writable_roots = clone_strings(&profile.writable_roots);
            let mut more = clone_strings(&self.workspace_roots);
            writable_roots.append(&mut more);
            let mut more = clone_strings(&self.profile_workspace_roots);
            writable_roots.append(&mut more);
            let ghost before_tmp = writable_roots@;
            if !profile.exclude_slash_tmp {
                writable_roots.push(String::from_str("/tmp"));
            }
            let ghost before_env = writable_roots@;
            match tmpdir {
                Some(dir) => if !profile.exclude_tmpdir_env_var {
                    writable_roots.push(String::from_str(dir));
                },
                None => {},
            }
            assert(strings_view(writable_roots@) =~= effective_writable_roots(*self, optional_str(tmpdir)))
                by {
                assert(strings_view(before_tmp) =~= profile@.writable_roots + strings_view(
                    self.workspace_roots@,
                ) + strings_view(self.profile_workspace_roots@));
            }
        } else {
            assert(strings_view(writable_roots@) =~= Seq::<Seq<char>>::empty());
        }
        EffectivePermissionProfile { profile: profile.duplicate(), writable_roots }
    }
}

/// Whether two effective profiles grant the same.
pub fn same_effective_profile(a: &EffectivePermissionProfile, b: &EffectivePermissionProfile) -> (same: bool)
    ensures
        same == (effective_view(*a) == effective_view(*b)),
{
    a.profile.same_as(&b.profile) && same_strings(&a.writable_roots, &b.writable_roots)
}

/// The runtime permission boundary of a parent agent, taken before a role's
/// configuration is applied to a child.
pub struct RuntimePermissionBaseline {
    permission_profile: PermissionProfile,
    active_permission_profile: Option<String>,
    workspace_roots: Vec<String>,
    workspace_roots_explicit: bool,
    permission_workspace_roots: Vec<String>,
    profile_workspace_roots: Vec<String>,
}

/// The runtime permission boundary, as values.
pub struct BoundaryView {
    pub permission_profile: ProfileView,
    pub active_permission_profile: Option<Seq<char>>,
    pub workspace_roots: Seq<Seq<char>>,
    pub workspace_roots_explicit: bool,
    pub permission_workspace_roots: Seq<Seq<char>>,
    pub profile_workspace_roots: Seq<Seq<char>>,
}

/// The runtime permission boundary of `config`.
pub open spec fn boundary_of(config: AgentConfig) -> BoundaryView {
    BoundaryView {
        permission_profile: config.permissions.permission_profile@,
        active_permission_profile: optional_text(config.permissions.active_permission_profile),
        workspace_roots: strings_view(config.workspace_roots@),
        workspace_roots_explicit: config.workspace_roots_explicit,
        permission_workspace_roots: strings_view(config.permissions.workspace_roots@),
        profile_workspace_roots: strings_view(config.permissions.profile_workspace_roots@),
    }
}

/// The boundary a child gets when the parent's `baseline` is reapplied over a
/// config whose role left the profile `role_profile`: the parent's roots, the
/// parent's profile narrowed by the role's, and the parent's active profile
/// name only while the role did not narrow the profile it names.
pub open spec fn reapplied_boundary(baseline: BoundaryView, role_profile: ProfileView) -> BoundaryView {
    let profile = spec_profile_meet(baseline.permission_profile, role_profile);
    BoundaryView {
        permission_profile: profile,
        active_permission_profile: if profile == baseline.permission_profile {
            baseline.active_permission_profile
        } else {
            None
        },
        ..baseline
    }
}

impl RuntimePermissionBaseline {
    /// The boundary the baseline holds.
    pub closed spec fn boundary(&self) -> BoundaryView {
        BoundaryView {
            permission_profile: self.permission_profile@,
            active_permission_profile: optional_text(self.active_permission_profile),
            workspace_roots: strings_view(self.workspace_roots@),
            workspace_roots_explicit: self.workspace_roots_explicit,
            permission_workspace_roots: strings_view(self.permission_workspace_roots@),
            profile_workspace_roots: strings_view(self.profile_workspace_roots@),
        }
    }
}

fn clone_optional_text(s: &Option<String>) -> (copy: Option<String>)
    ensures
        optional_text(copy) == optional_text(*s),
{
    match s {
        Some(s) => Some(s.clone()),
        None => None,
    }
}

/// Takes the parent's runtime permission boundary.
pub fn runtime_permission_baseline(config: &AgentConfig) -> (baseline: RuntimePermissionBaseline)
    ensures
        baseline.boundary() == boundary_of(*config),
{
    RuntimePermissionBaseline {
        permission_profile: config.permissions.permission_profile.duplicate(),
        active_permission_profile: clone_optional_text(&config.permissions.active_permission_profile),
        workspace_roots: clone_strings(&config.workspace_roots),
        workspace_roots_explicit: config.workspace_roots_explicit,
        permission_workspace_roots: clone_strings(&config.permissions.workspace_roots),
        profile_workspace_roots: clone_strings(&config.permissions.profile_workspace_roots),
    }
}

/// After a role's configuration was layered onto a child's config, puts the
/// parent's runtime boundary back: its workspace roots (and whether they were
/// explicit) and the roots its active profile declares, its approval policy,
/// who reviews its approvals, and its working directory. The profile becomes
/// the parent's narrowed by what the role left, so a role can take
/// permissions away but never widen what the parent runs with; the parent's
/// active profile name comes back only when the role narrowed nothing.
pub fn reapply_runtime_permissions_after_role(
    config: &mut AgentConfig,
    parent_approval_policy: ApprovalPolicy,
    parent_approvals_reviewer: ApprovalsReviewer,
    parent_cwd: String,
    baseline: RuntimePermissionBaseline,
)
    ensures
        boundary_of(*final(config)) == reapplied_boundary(
            baseline.boundary(),
            old(config).permissions.permission_profile@,
        ),
        final(config).permissions.approval_policy == parent_approval_policy,
        final(config).approvals_reviewer == parent_approvals_reviewer,
        final(config).cwd@ == parent_cwd@,
        (final(config).permissions.active_permission_profile is Some) ==> final(config).permissions.permission_profile@
            == baseline.boundary().permission_profile,
{
    let ghost parent_boundary = baseline.boundary();
    let RuntimePermissionBaseline {
        permission_profile,
        active_permission_profile,
        workspace_roots,
        workspace_roots_explicit,
        permission_workspace_roots,
        profile_workspace_roots,
    } = baseline;
    let narrowed = profile_meet(&permission_profile, &config.permissions.permission_profile);
    let keeps_identity = narrowed.same_as(&permission_profile);
    config.cwd = parent_cwd;
    config.approvals_reviewer = parent_approvals_reviewer;
    config.workspace_roots = workspace_roots;
    config.workspace_roots_explicit = workspace_roots_explicit;
    config.permissions.permission_profile = narrowed;
    config.permissions.active_permission_profile = if keeps_identity {
        active_permission_profile
    } else {
        None
    };
    config.permissions.workspace_roots = permission_workspace_roots;
    config.permissions.profile_workspace_roots = profile_workspace_roots;
    config.permissions.approval_policy = parent_approval_policy;
}

/// The profile a child spawned with an optional role profile runs with.
pub open spec fn spawned_profile(turn: ProfileView, role: Option<ProfileView>) -> ProfileView {
    match role {
        Some(role) => spec_profile_meet(turn, role),
        None => turn,
    }
}

/// The characters of an optional profile.
pub open spec fn optional_profile(p: Option<&PermissionProfile>) -> Option<ProfileView> {
    match p {
        Some(p) => Some(p@),
        None => None,
    }
}

/// The permissions a spawned agent starts from: the profile of the turn that
/// spawns it, narrowed by the role's profile when the role sets one; the
/// parent's workspace roots and profile roots; the parent's approval policy;
/// and the parent's active profile name only while the parent's effective
/// profile is the one the turn runs with and the role narrowed nothing
/// (otherwise that name would label permissions it does not describe).
/// `tmpdir` is the `$TMPDIR` directory of the environment, if any.
pub fn spawn_permissions(
    parent: &Permissions,
    turn: &EffectivePermissionProfile,
    role: Option<&PermissionProfile>,
    tmpdir: Option<&str>,
) -> (child: Permissions)
    ensures
        child.permission_profile@ == spawned_profile(turn.profile@, optional_profile(role)),
        optional_text(child.active_permission_profile) == (if effective_view(*turn) == (
            parent.permission_profile@,
            effective_writable_roots(*parent, optional_str(tmpdir)),
        ) && child.permission_profile@ == turn.profile@ {
            optional_text(parent.active_permission_profile)
        } else {
            None
        }),
        strings_view(child.workspace_roots@) == strings_view(parent.workspace_roots@),
        strings_view(child.profile_workspace_roots@) == strings_view(parent.profile_workspace_roots@),
        child.approval_policy == parent.approval_policy,
{
    let parent_effective = parent.effective_permission_profile(tmpdir);
    let profile = narrow_permission_profile(&turn.profile, role);
    let active_permission_profile = if same_effective_profile(&parent_effective, turn) && profile.same_as(
        &turn.profile,
    ) {
        clone_optional_text(&parent.active_permission_profile)
    } else {
        None
    };
    Permissions {
        permission_profile: profile,
        active_permission_profile,
        workspace_roots: clone_strings(&parent.workspace_roots),
        profile_workspace_roots: clone_strings(&parent.profile_workspace_roots),
        approval_policy: parent.approval_policy,
    }
}

/// A spawned child never runs with more than the spawning turn or its role
/// allows.
pub proof fn lemma_spawned_child_is_narrowed_by_role(turn: ProfileView, role: ProfileView)
    ensures
        profile_within(spawned_profile(turn, Some(role)), turn),
        profile_within(spawned_profile(turn, Some(role)), role),
{
    lemma_child_profile_is_within_parent_and_role(turn, role);
}

/// When the role left the parent's own profile in place, reapplying the
/// parent's baseline gives back exactly the parent's boundary, active profile
/// name included; whatever the role left, the reapplied profile is never
/// wider than the parent's or the role's.
pub proof fn lemma_reapply_restores_or_narrows(baseline: BoundaryView, role_profile: ProfileView)
    requires
        profile_well_formed(baseline.permission_profile),
    ensures
        role_profile == baseline.permission_profile ==> reapplied_boundary(baseline, role_profile)
            == baseline,
        profile_within(reapplied_boundary(baseline, role_profile).permission_profile, baseline.permission_profile),
        profile_within(reapplied_boundary(baseline, role_profile).permission_profile, role_profile),
        reapplied_boundary(baseline, role_profile).workspace_roots == baseline.workspace_roots,
        reapplied_boundary(baseline, role_profile).profile_workspace_roots == baseline.profile_workspace_roots,
{
    lemma_profile_meet_is_idempotent_and_symmetric(baseline.permission_profile, role_profile);
    lemma_child_profile_is_within_parent_and_role(baseline.permission_profile, role_profile);
}

/// The parent's active profile name labels exactly the parent's profile: after
/// reapplying, the child carries a name only when it runs with the parent's
/// profile in every respect (mode, network, writable roots, exclusions), and
/// the name it carries is the parent's.
pub proof fn lemma_reapplied_name_labels_its_profile(baseline: BoundaryView, role_profile: ProfileView)
    ensures
        reapplied_boundary(baseline, role_profile).active_permission_profile is Some ==> {
            &&& reapplied_boundary(baseline, role_profile).permission_profile == baseline.permission_profile
            &&& reapplied_boundary(baseline, role_profile).active_permission_profile
                == baseline.active_permission_profile
        },
        reapplied_boundary(baseline, role_profile).permission_profile != baseline.permission_profile
            ==> reapplied_boundary(baseline, role_profile).active_permission_profile is None,
{
}

proof fn lemma_contains_concat(a: Seq<Seq<char>>, b: Seq<Seq<char>>, x: Seq<char>)
    ensures
        (a + b).contains(x) <==> (a.contains(x) || b.contains(x)),
{
    if (a + b).contains(x) {
        let k = choose|k: int| 0 <= k < (a + b).len() && (a + b)[k] == x;
        if k < a.len() {
            assert(a[k] == x);
        } else {
            assert(b[k - a.len()] == x);
        }
    }
    if a.contains(x) {
        let k = choose|k: int| 0 <= k < a.len() && a[k] == x;
        assert((a + b)[k] == x);
    }
    if b.contains(x) {
        let k = choose|k: int| 0 <= k < b.len() && b[k] == x;
        assert((a + b)[a.len() + k] == x);
    }
}

/// Each exclusion flag governs its own directory: for a workspace-write
/// profile whose other roots name neither directory, `/tmp` is writable
/// exactly when `exclude_slash_tmp` is off, and the `$TMPDIR` directory
/// exactly when `exclude_tmpdir_env_var` is off.
pub proof fn lemma_exclusions_govern_their_own_directory(permissions: Permissions, tmpdir: Seq<char>)
    requires
        permissions.permission_profile.sandbox == SandboxMode::WorkspaceWrite,
        tmpdir != "/tmp"@,
        !(permissions.permission_profile@.writable_roots + strings_view(permissions.workspace_roots@)
            + strings_view(permissions.profile_workspace_roots@)).contains("/tmp"@),
        !(permissions.permission_profile@.writable_roots + strings_view(permissions.workspace_roots@)
            + strings_view(permissions.profile_workspace_roots@)).contains(tmpdir),
    ensures
        effective_writable_roots(permissions, Some(tmpdir)).contains("/tmp"@)
            <==> !permissions.permission_profile.exclude_slash_tmp,
        effective_writable_roots(permissions, Some(tmpdir)).contains(tmpdir)
            <==> !permissions.permission_profile.exclude_tmpdir_env_var,
        effective_writable_roots(permissions, None).contains("/tmp"@)
            <==> !permissions.permission_profile.exclude_slash_tmp,
{
    let profile = permissions.permission_profile@;
    let base = profile.writable_roots + strings_view(permissions.workspace_roots@) + strings_view(
        permissions.profile_workspace_roots@,
    );
    let slash: Seq<Seq<char>> = if profile.exclude_slash_tmp {
        Seq::empty()
    } else {
        seq!["/tmp"@]
    };
    let env: Seq<Seq<char>> = if profile.exclude_tmpdir_env_var {
        Seq::empty()
    } else {
        seq![tmpdir]
    };
    assert(temporary_roots(profile, Some(tmpdir)) == slash + env);
    assert(temporary_roots(profile, None) =~= slash);
    lemma_contains_concat(base, slash + env, "/tmp"@);
    lemma_contains_concat(base, slash + env, tmpdir);
    lemma_contains_concat(slash, env, "/tmp"@);
    lemma_contains_concat(slash, env, tmpdir);
    lemma_contains_concat(base, slash, "/tmp"@);
    if !profile.exclude_slash_tmp {
        assert(slash[0] == "/tmp"@);
    }
    if !profile.exclude_tmpdir_env_var {
        assert(env[0] == tmpdir);
    }
    if slash.contains(tmpdir) {
        let k = choose|k: int| 0 <= k < slash.len() && slash[k] == tmpdir;
        assert(slash[k] == "/tmp"@);
    }
    if env.contains("/tmp"@) {
        let k = choose|k: int| 0 <= k < env.len() && env[k] == "/tmp"@;
        assert(env[k] == tmpdir);
    }
}

/// A workspace-write sandbox may write under every root its profile, the
/// runtime and the active profile name; any other sandbox mode names no
/// writable root.
pub proof fn lemma_effective_roots_cover_all_roots(permissions: Permissions, tmpdir: Option<Seq<char>>, root: Seq<char>)
    ensures
        permissions.permission_profile.sandbox != SandboxMode::WorkspaceWrite ==> effective_writable_roots(
            permissions,
            tmpdir,
        ).len() == 0,
        permissions.permission_profile.sandbox == SandboxMode::WorkspaceWrite && (
        permissions.permission_profile@.writable_roots.contains(root) || strings_view(
            permissions.workspace_roots@,
        ).contains(root) || strings_view(permissions.profile_workspace_roots@).contains(root))
            ==> effective_writable_roots(permissions, tmpdir).contains(root),
{
    let profile = permissions.permission_profile@;
    let a = profile.writable_roots;
    let b = strings_view(permissions.workspace_roots@);
    let c = strings_view(permissions.profile_workspace_roots@);
    let t = temporary_roots(profile, tmpdir);
    lemma_contains_concat(a, b, root);
    lemma_contains_concat(a + b, c, root);
    lemma_contains_concat(a + b + c, t, root);
}

} // verus!

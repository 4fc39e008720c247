use codex_runtime_policy::agents::AgentThreadBudget;
use codex_runtime_policy::agents::SpawnError;
use codex_runtime_policy::permissions::enabled_network_profile;
use codex_runtime_policy::permissions::narrow_permission_profile;
use codex_runtime_policy::permissions::NetworkSandboxPolicy;
use codex_runtime_policy::permissions::PermissionProfile;
use codex_runtime_policy::permissions::SandboxMode;
use codex_runtime_policy::proxy::meet_network_proxy_specs;
use codex_runtime_policy::proxy::proxy_spec_for_domain;
use codex_runtime_policy::proxy::NetworkProxyConfig;
use codex_runtime_policy::proxy::NetworkProxySpec;
use codex_runtime_policy::runtime::reapply_runtime_permissions_after_role;
use codex_runtime_policy::runtime::runtime_permission_baseline;
use codex_runtime_policy::runtime::spawn_permissions;
use codex_runtime_policy::runtime::AgentConfig;
use codex_runtime_policy::runtime::ApprovalPolicy;
use codex_runtime_policy::runtime::ApprovalsReviewer;
use codex_runtime_policy::runtime::Permissions;

#[test]
fn network_proxy_meet_rejects_incompatible_restrictions() {
    let parent = proxy_spec_for_domain("parent.example");
    let role = proxy_spec_for_domain("role.example");

    let error = meet_network_proxy_specs(Some(&parent), Some(&role), &enabled_network_profile())
        .expect_err("different proxy restrictions must fail closed");

    assert_eq!(
        error,
        "parent and role network proxy policies cannot be safely intersected"
    );
}

#[test]
fn network_proxy_meet_keeps_the_only_restrictive_proxy() {
    let parent = proxy_spec_for_domain("parent.example");
    let permission_profile = enabled_network_profile();

    let actual = meet_network_proxy_specs(Some(&parent), None, &permission_profile)
        .expect("a single restrictive proxy should be retained");

    assert_eq!(
        actual,
        Some(parent.recompute_for_permission_profile(&permission_profile))
    );
}

#[test]
fn network_proxy_meet_keeps_the_role_proxy_alone() {
    let role = proxy_spec_for_domain("role.example");
    let profile = PermissionProfile::read_only();
    let actual = meet_network_proxy_specs(None, Some(&role), &profile).expect("one proxy");
    assert_eq!(actual, Some(role.recompute_for_permission_profile(&profile)));
    assert_ne!(actual, Some(role));
}

#[test]
fn network_proxy_meet_of_agreeing_proxies_keeps_them() {
    let parent = proxy_spec_for_domain("same.example");
    let role = proxy_spec_for_domain("same.example");
    let profile = enabled_network_profile();
    let actual = meet_network_proxy_specs(Some(&parent), Some(&role), &profile).expect("agree");
    assert_eq!(actual, Some(parent.recompute_for_permission_profile(&profile)));
}

#[test]
fn network_proxy_meet_without_proxies_is_empty() {
    let actual = meet_network_proxy_specs(None, None, &enabled_network_profile()).expect("none");
    assert_eq!(actual, None);
}

#[test]
fn network_proxy_meet_treats_disabled_proxy_as_none() {
    let parent = proxy_spec_for_domain("parent.example");
    let mut config = NetworkProxyConfig::new();
    config.set_allowed_domains(vec!["role.example".to_string()]);
    let role = NetworkProxySpec::from_config(config, &enabled_network_profile());
    assert!(!role.is_restrictive());
    let profile = enabled_network_profile();
    let actual = meet_network_proxy_specs(Some(&parent), Some(&role), &profile)
        .expect("a disabled proxy restricts nothing");
    assert_eq!(actual, Some(parent.recompute_for_permission_profile(&profile)));
    let none = meet_network_proxy_specs(Some(&role), None, &profile).expect("nothing restricts");
    assert_eq!(none, None);
}

#[test]
fn proxy_spec_for_domain_allows_only_that_domain() {
    let spec = proxy_spec_for_domain("only.example");
    let mut config = NetworkProxyConfig::new();
    config.enabled = true;
    config.set_allowed_domains(vec!["only.example".to_string()]);
    assert_eq!(spec, NetworkProxySpec::from_config(config, &enabled_network_profile()));
    assert!(spec.is_restrictive());
    assert!(!spec.same_restrictions(&proxy_spec_for_domain("other.example")));
}

fn parent_config(root: &str, profile_root: &str) -> AgentConfig {
    AgentConfig {
        cwd: "/parent-cwd".to_string(),
        approvals_reviewer: ApprovalsReviewer::User,
        workspace_roots: vec![root.to_string()],
        workspace_roots_explicit: true,
        permissions: Permissions {
            permission_profile: PermissionProfile::workspace_write(),
            active_permission_profile: Some("parent-profile".to_string()),
            workspace_roots: vec![root.to_string()],
            profile_workspace_roots: vec![profile_root.to_string()],
            approval_policy: ApprovalPolicy::OnRequest,
        },
    }
}

#[test]
fn runtime_permission_reapply_restores_parent_workspace_roots_and_identity() {
    let mut config = parent_config("/parent-root", "/profile-root");
    let expected_effective_profile = config.permissions.effective_permission_profile(None);
    let parent_baseline = runtime_permission_baseline(&config);

    config.workspace_roots = vec!["/role-root".to_string()];
    config.workspace_roots_explicit = false;
    config.permissions.workspace_roots = vec!["/role-root".to_string()];

    reapply_runtime_permissions_after_role(
        &mut config,
        ApprovalPolicy::OnRequest,
        ApprovalsReviewer::User,
        "/parent-cwd".to_string(),
        parent_baseline,
    );

    assert_eq!(config.workspace_roots, vec!["/parent-root".to_string()]);
    assert!(config.workspace_roots_explicit);
    assert_eq!(config.permissions.workspace_roots, vec!["/parent-root".to_string()]);
    assert_eq!(
        config.permissions.profile_workspace_roots,
        vec!["/profile-root".to_string()]
    );
    assert_eq!(
        config.permissions.active_permission_profile,
        Some("parent-profile".to_string())
    );
    assert_eq!(
        config.permissions.effective_permission_profile(None),
        expected_effective_profile
    );
    assert_eq!(config, parent_config("/parent-root", "/profile-root"));
}

#[test]
fn reapply_keeps_a_narrowing_role_profile() {
    let mut config = parent_config("/parent-root", "/profile-root");
    let parent_baseline = runtime_permission_baseline(&config);
    config.permissions.permission_profile = PermissionProfile::read_only();
    config.workspace_roots = vec!["/role-root".to_string()];
    config.cwd = "/role-cwd".to_string();
    config.approvals_reviewer = ApprovalsReviewer::Agent;
    config.permissions.approval_policy = ApprovalPolicy::Never;

    reapply_runtime_permissions_after_role(
        &mut config,
        ApprovalPolicy::OnRequest,
        ApprovalsReviewer::User,
        "/parent-cwd".to_string(),
        parent_baseline,
    );

    assert_eq!(config.permissions.permission_profile, PermissionProfile::read_only());
    assert_eq!(config.permissions.active_permission_profile, None);
    assert_eq!(config.workspace_roots, vec!["/parent-root".to_string()]);
    assert_eq!(config.cwd, "/parent-cwd");
    assert_eq!(config.approvals_reviewer, ApprovalsReviewer::User);
    assert_eq!(config.permissions.approval_policy, ApprovalPolicy::OnRequest);
}

#[test]
fn reapply_cannot_widen_the_parent_profile() {
    let mut config = parent_config("/parent-root", "/profile-root");
    let parent_baseline = runtime_permission_baseline(&config);
    config.permissions.permission_profile = PermissionProfile {
        sandbox: SandboxMode::DangerFullAccess,
        network: NetworkSandboxPolicy::Enabled,
        writable_roots: vec![],
        exclude_tmpdir_env_var: false,
        exclude_slash_tmp: false,
    };
    reapply_runtime_permissions_after_role(
        &mut config,
        ApprovalPolicy::OnRequest,
        ApprovalsReviewer::User,
        "/parent-cwd".to_string(),
        parent_baseline,
    );
    assert_eq!(config, parent_config("/parent-root", "/profile-root"));
}

#[test]
fn spawn_config_preserves_matching_active_profile_identity() {
    let parent = parent_config("/runtime-root", "/profile-root");
    let turn_profile = parent.permissions.effective_permission_profile(Some("/var/tmp"));
    let child = spawn_permissions(&parent.permissions, &turn_profile, None, Some("/var/tmp"));
    assert_eq!(
        child.active_permission_profile,
        Some("parent-profile".to_string())
    );
    assert_eq!(child.workspace_roots, vec!["/runtime-root".to_string()]);
    assert_eq!(child.profile_workspace_roots, vec!["/profile-root".to_string()]);
    assert_eq!(
        child.effective_permission_profile(Some("/var/tmp")),
        turn_profile
    );
}

#[test]
fn spawn_config_drops_identity_of_a_different_profile() {
    let parent = parent_config("/runtime-root", "/profile-root");
    let other = Permissions {
        permission_profile: PermissionProfile::read_only(),
        active_permission_profile: None,
        workspace_roots: vec![],
        profile_workspace_roots: vec![],
        approval_policy: ApprovalPolicy::Never,
    };
    let child = spawn_permissions(
        &parent.permissions,
        &other.effective_permission_profile(None),
        None,
        None,
    );
    assert_eq!(child.active_permission_profile, None);
    assert_eq!(child.permission_profile, PermissionProfile::read_only());
}

#[test]
fn effective_profile_writes_under_roots_and_temporary_directories() {
    let parent = parent_config("/runtime-root", "/profile-root");
    let effective = parent.permissions.effective_permission_profile(Some("/var/tmp"));
    assert_eq!(
        effective.writable_roots,
        vec![
            "/runtime-root".to_string(),
            "/profile-root".to_string(),
            "/tmp".to_string(),
            "/var/tmp".to_string(),
        ]
    );
    let mut excluded = parent.permissions;
    excluded.permission_profile = PermissionProfile::workspace_write_with(
        vec!["/extra".to_string()],
        NetworkSandboxPolicy::Restricted,
        true,
        true,
    );
    assert_eq!(
        excluded.effective_permission_profile(Some("/var/tmp")).writable_roots,
        vec![
            "/extra".to_string(),
            "/runtime-root".to_string(),
            "/profile-root".to_string(),
        ]
    );
    excluded.permission_profile = PermissionProfile::read_only();
    assert!(excluded
        .effective_permission_profile(Some("/var/tmp"))
        .writable_roots
        .is_empty());
}

#[test]
fn enabled_network_profile_keeps_temporary_directories_writable() {
    let profile = enabled_network_profile();
    assert_eq!(profile.sandbox, SandboxMode::WorkspaceWrite);
    assert_eq!(profile.network, NetworkSandboxPolicy::Enabled);
    assert!(profile.writable_roots.is_empty());
    assert!(!profile.exclude_tmpdir_env_var);
    assert!(!profile.exclude_slash_tmp);
    assert_eq!(profile, enabled_network_profile());
}

#[test]
fn v2_nested_spawn_checks_shared_active_execution_capacity() {
    let mut budget = AgentThreadBudget::new(2);
    budget.try_reserve().expect("root thread");
    budget.try_reserve().expect("first worker");
    let error = budget.try_reserve().expect_err("nested worker exceeds the session budget");
    assert_eq!(
        error.collab_spawn_failure(),
        "collab spawn failed: agent thread limit reached"
    );
    assert_eq!(budget.active_threads(), 2);
}

#[test]
fn released_thread_can_be_reserved_again() {
    let mut budget = AgentThreadBudget::new(1);
    budget.try_reserve().expect("first");
    assert_eq!(budget.try_reserve(), Err(SpawnError::AgentThreadLimitReached));
    budget.release();
    assert_eq!(budget.active_threads(), 0);
    assert_eq!(budget.try_reserve(), Ok(()));
    assert_eq!(SpawnError::AgentThreadLimitReached.message(), "agent thread limit reached");
}

#[test]
fn v2_spawn_role_narrows_permissions() {
    let parent = parent_config("/runtime-root", "/profile-root");
    let turn_profile = parent.permissions.effective_permission_profile(None);
    let role = PermissionProfile::read_only();
    let child = spawn_permissions(&parent.permissions, &turn_profile, Some(&role), None);
    assert_eq!(child.permission_profile, PermissionProfile::read_only());
    assert_ne!(child.permission_profile, parent.permissions.permission_profile);
    assert_eq!(child.active_permission_profile, None);
}

#[test]
fn role_cannot_widen_parent_permissions() {
    let parent = PermissionProfile::read_only();
    let role = PermissionProfile {
        sandbox: SandboxMode::DangerFullAccess,
        network: NetworkSandboxPolicy::Enabled,
        writable_roots: vec![],
        exclude_tmpdir_env_var: false,
        exclude_slash_tmp: false,
    };
    assert_eq!(narrow_permission_profile(&parent, Some(&role)), parent);
    assert_eq!(narrow_permission_profile(&parent, None), parent);
    let mixed = narrow_permission_profile(
        &PermissionProfile::workspace_write_with(
            vec!["/a".to_string(), "/b".to_string()],
            NetworkSandboxPolicy::Enabled,
            false,
            true,
        ),
        Some(&PermissionProfile::workspace_write_with(
            vec!["/b".to_string(), "/c".to_string()],
            NetworkSandboxPolicy::Restricted,
            true,
            false,
        )),
    );
    assert_eq!(
        mixed,
        PermissionProfile::workspace_write_with(
            vec!["/b".to_string()],
            NetworkSandboxPolicy::Restricted,
            true,
            true,
        )
    );
}

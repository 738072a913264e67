use gitlab_mirror::clone_run::CloneRun;
use gitlab_mirror::credentials::{
    credential_for, expand_tilde, AllowedCredentialTypes, Credential,
};
use gitlab_mirror::errors::{ConfigError, CredentialError};
use gitlab_mirror::materialize::DirTree;
use gitlab_mirror::model::{into_access_level, AccessLevel, Group, Namespace, Project, User};
use gitlab_mirror::namespace::{join_path, plan_clones, plan_namespaces};
use gitlab_mirror::paging::Paginator;
use gitlab_mirror::progress::{progress_update, ProgressPhase};

fn group(path: &str) -> Group {
    Group { full_path: path.to_string() }
}

fn project(ns: &str, name: &str, url: &str) -> Project {
    Project {
        http_url_to_repo: url.to_string(),
        name: name.to_string(),
        namespace: Namespace { full_path: ns.to_string() },
    }
}

fn user(name: &str) -> User {
    User { username: name.to_string() }
}

#[test]
fn namespace_plan_adds_fresh_username() {
    let groups = vec![group("alpha"), group("beta/gamma")];
    let plan = plan_namespaces(&groups, &user("carol"));
    assert_eq!(plan.len(), 3);
    assert!(plan.contains(&"alpha".to_string()));
    assert!(plan.contains(&"beta/gamma".to_string()));
    assert!(plan.contains(&"carol".to_string()));
}

#[test]
fn namespace_plan_collapses_matching_username() {
    let groups = vec![group("alpha"), group("beta")];
    let plan = plan_namespaces(&groups, &user("alpha"));
    assert_eq!(plan.len(), 2);
    assert!(plan.contains(&"alpha".to_string()));
    assert!(plan.contains(&"beta".to_string()));
}

#[test]
fn namespace_plan_collapses_duplicate_groups() {
    let groups = vec![group("alpha"), group("alpha")];
    let plan = plan_namespaces(&groups, &user("bob"));
    assert_eq!(plan.len(), 2);
    assert!(plan.contains(&"alpha".to_string()));
    assert!(plan.contains(&"bob".to_string()));
}

#[test]
fn namespace_plan_is_deterministic_for_equal_catalogs() {
    let groups = vec![group("a"), group("b/c"), group("a")];
    let first = plan_namespaces(&groups, &user("u"));
    let second = plan_namespaces(&groups, &user("u"));
    assert_eq!(first, second);
}

#[test]
fn namespace_plan_of_empty_catalog_is_the_personal_namespace() {
    let plan = plan_namespaces(&Vec::new(), &user("solo"));
    assert_eq!(plan, vec!["solo".to_string()]);
}

#[test]
fn clone_plan_keeps_colliding_projects() {
    let projects = vec![
        project("ns", "repo", "https://host/ns/repo.git"),
        project("ns", "repo", "https://host/other/repo.git"),
    ];
    let plan = plan_clones(&projects, &"root".to_string());
    assert_eq!(plan.len(), 2);
    assert_eq!(plan[0].destination, "root/ns/repo");
    assert_eq!(plan[1].destination, "root/ns/repo");
    assert_eq!(plan[0].url, "https://host/ns/repo.git");
    assert_eq!(plan[1].url, "https://host/other/repo.git");
}

#[test]
fn clone_plan_builds_destination_paths() {
    let projects = vec![project("beta/gamma", "tool", "https://host/beta/gamma/tool.git")];
    let plan = plan_clones(&projects, &".".to_string());
    assert_eq!(plan[0].destination, "./beta/gamma/tool");
}

#[test]
fn join_path_inserts_one_separator() {
    assert_eq!(join_path(&"root".to_string(), &"ns".to_string()), "root/ns");
}

#[test]
fn clone_failure_does_not_stop_the_run() {
    let projects = vec![
        project("ns", "one", "u1"),
        project("ns", "two", "u2"),
        project("ns", "three", "u3"),
    ];
    let mut run = CloneRun::new(plan_clones(&projects, &"root".to_string()));
    let mut attempted = Vec::new();
    while let Some(dest) = run.next_target().map(|t| t.destination.clone()) {
        attempted.push(dest.clone());
        if dest == "root/ns/two" {
            run.record(Some("simulated network error".to_string()));
        } else {
            run.record(None);
        }
    }
    assert_eq!(
        attempted,
        vec!["root/ns/one".to_string(), "root/ns/two".to_string(), "root/ns/three".to_string()]
    );
    let reports = run.into_reports();
    assert_eq!(reports.len(), 3);
    assert_eq!(reports[1].destination, "root/ns/two");
    assert_eq!(reports[1].error, Some("simulated network error".to_string()));
    assert_eq!(reports[0].error, None);
    assert_eq!(reports[2].error, None);
}

#[test]
fn paginated_fetch_keeps_every_page() {
    let mut paginator: Paginator<Group> = Paginator::new(50);
    let mut page1 = Vec::new();
    for i in 0..50 {
        page1.push(group(&format!("g{}", i)));
    }
    assert!(paginator.push_page(page1));
    let mut page2 = Vec::new();
    for i in 50..100 {
        page2.push(group(&format!("g{}", i)));
    }
    assert!(paginator.push_page(page2));
    let mut page3 = Vec::new();
    for i in 100..107 {
        page3.push(group(&format!("g{}", i)));
    }
    assert!(!paginator.push_page(page3));
    let all = paginator.into_items();
    assert_eq!(all.len(), 107);
    assert_eq!(all[0].full_path, "g0");
    assert_eq!(all[106].full_path, "g106");
}

#[test]
fn access_level_clamps_into_the_ordinal_range() {
    assert_eq!(into_access_level(0).unwrap(), AccessLevel::Guest);
    assert_eq!(into_access_level(1).unwrap(), AccessLevel::Guest);
    assert_eq!(into_access_level(5).unwrap(), AccessLevel::Owner);
    assert_eq!(into_access_level(9).unwrap(), AccessLevel::Owner);
}

#[test]
fn access_level_maps_each_count_in_range() {
    assert_eq!(into_access_level(2).unwrap(), AccessLevel::Reporter);
    assert_eq!(into_access_level(3).unwrap(), AccessLevel::Developer);
    assert_eq!(into_access_level(4).unwrap(), AccessLevel::Maintainer);
}

#[test]
fn plaintext_credential_uses_username_and_token() {
    let allowed = AllowedCredentialTypes { user_pass_plaintext: true, ssh_key: false };
    let cred = credential_for(
        allowed,
        &Some("git".to_string()),
        &user("carol"),
        &"tok".to_string(),
        &"/home/carol/.ssh/id_rsa".to_string(),
    )
    .unwrap();
    assert_eq!(
        cred,
        Credential::UserPass { username: "carol".to_string(), password: "tok".to_string() }
    );
}

#[test]
fn ssh_credential_uses_url_username_and_key_path() {
    let allowed = AllowedCredentialTypes { user_pass_plaintext: false, ssh_key: true };
    let cred = credential_for(
        allowed,
        &Some("git".to_string()),
        &user("carol"),
        &"tok".to_string(),
        &"/home/carol/.ssh/id_rsa".to_string(),
    )
    .unwrap();
    assert_eq!(
        cred,
        Credential::SshKey {
            username: "git".to_string(),
            key_path: "/home/carol/.ssh/id_rsa".to_string(),
        }
    );
}

#[test]
fn ssh_credential_needs_a_url_username() {
    let allowed = AllowedCredentialTypes { user_pass_plaintext: false, ssh_key: true };
    let err = credential_for(allowed, &None, &user("carol"), &"tok".to_string(), &"k".to_string())
        .unwrap_err();
    assert_eq!(err, CredentialError::NoUsernameInUrl);
    assert_eq!(err.text(), "No username in URL for SSH");
}

#[test]
fn other_credential_types_are_rejected_by_name() {
    let allowed = AllowedCredentialTypes { user_pass_plaintext: false, ssh_key: false };
    let err = credential_for(
        allowed,
        &Some("git".to_string()),
        &user("carol"),
        &"tok".to_string(),
        &"k".to_string(),
    )
    .unwrap_err();
    assert_eq!(err, CredentialError::UnsupportedCredentialType);
    assert_eq!(err.text(), "Unsupported requested credential type");
}

#[test]
fn tilde_path_expands_against_the_home_directory() {
    let expanded =
        expand_tilde(&"~/.ssh/id_rsa".to_string(), &Some("/home/carol".to_string())).unwrap();
    assert_eq!(expanded, "/home/carol/.ssh/id_rsa");
}

#[test]
fn bare_tilde_expands_to_the_home_directory() {
    let expanded = expand_tilde(&"~".to_string(), &Some("/home/carol".to_string())).unwrap();
    assert_eq!(expanded, "/home/carol");
}

#[test]
fn tilde_path_without_home_directory_is_a_config_error() {
    let err = expand_tilde(&"~/.ssh/id_rsa".to_string(), &None).unwrap_err();
    assert_eq!(err, ConfigError::HomeDirUnavailable);
    assert_eq!(err.text(), "Can't find home directory to locate SSH private key");
}

#[test]
fn paths_without_a_tilde_component_pass_through() {
    assert_eq!(expand_tilde(&"/etc/key".to_string(), &None).unwrap(), "/etc/key");
    assert_eq!(
        expand_tilde(&"~backup/key".to_string(), &Some("/home/carol".to_string())).unwrap(),
        "~backup/key"
    );
}

#[test]
fn progress_counts_objects_until_all_received() {
    let update = progress_update(3, 10, 0, 0);
    assert_eq!(update.phase, ProgressPhase::ReceivingObjects);
    assert_eq!(update.total, 10);
    assert_eq!(update.position, 3);
}

#[test]
fn progress_switches_to_deltas_when_objects_are_done() {
    let update = progress_update(10, 10, 4, 9);
    assert_eq!(update.phase, ProgressPhase::ResolvingDeltas);
    assert_eq!(update.total, 9);
    assert_eq!(update.position, 4);
}

#[test]
fn materialization_is_idempotent() {
    let plan = vec!["root/alpha".to_string(), "root/beta/gamma".to_string()];
    let mut tree = DirTree::new();
    tree.materialize(&plan);
    assert!(tree.contains(&"root/alpha".to_string()));
    assert!(tree.contains(&"root/beta/gamma".to_string()));
    tree.materialize(&plan);
    assert!(tree.contains(&"root/alpha".to_string()));
    assert!(tree.contains(&"root/beta/gamma".to_string()));
    assert!(!tree.contains(&"root/delta".to_string()));
}

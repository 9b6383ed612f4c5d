use n8n_supervisor::launch::{
    bundle_dir, bundled_executable, interpreter_name, interpreter_or_name, launch_environment,
    plan_launch, prepare_launch, resolve_executable, resolve_interpreter, workspace_executable,
    EnvVar,
    LaunchError, StreamPlan, SETTLE_DELAY_MS,
};
use n8n_supervisor::paths::{data_dir_in, home_or_current, join_path, n8n_data_dir, user_home};

fn var(name: &str, value: &str) -> EnvVar {
    EnvVar { name: name.to_string(), value: value.to_string() }
}

#[test]
fn join_puts_one_separator_between() {
    assert_eq!(join_path("/opt/app", "compiled"), "/opt/app/compiled");
    assert_eq!(join_path("rel", "a/b"), "rel/a/b");
}

#[test]
fn join_adds_no_separator_after_one() {
    assert_eq!(join_path("/", "compiled"), "/compiled");
    assert_eq!(join_path("/opt/app/", "compiled"), "/opt/app/compiled");
}

#[test]
fn join_onto_empty_base() {
    assert_eq!(join_path("", "compiled"), "compiled");
}

#[test]
fn join_agrees_with_std_paths() {
    let bases = ["/opt/app", "/", "", ".", "/home/alice/", "répertoire"];
    let rels = [".n8n", "compiled", "node_modules/.bin/n8n", "packages/cli/bin/n8n"];
    for base in bases {
        for rel in rels {
            let expected = std::path::Path::new(base).join(rel);
            assert_eq!(join_path(base, rel), expected.to_string_lossy());
        }
    }
}

#[test]
fn home_is_the_found_directory() {
    assert_eq!(home_or_current(Some("/home/alice".to_string())), "/home/alice");
}

#[test]
fn home_falls_back_to_current_directory() {
    assert_eq!(home_or_current(None), ".");
}

#[test]
fn data_dir_is_below_home() {
    assert_eq!(data_dir_in("/home/alice"), "/home/alice/.n8n");
    assert_eq!(data_dir_in("."), "./.n8n");
    assert_eq!(data_dir_in("/"), "/.n8n");
}

#[test]
fn n8n_data_dir_is_below_user_home() {
    let home = user_home();
    assert!(!home.is_empty());
    assert_eq!(n8n_data_dir(), data_dir_in(&home));
    assert!(n8n_data_dir().ends_with(".n8n"));
}

#[test]
fn candidate_locations() {
    assert_eq!(bundle_dir("/repo"), "/repo/compiled");
    assert_eq!(bundled_executable("/repo"), "/repo/compiled/node_modules/.bin/n8n");
    assert_eq!(workspace_executable("/repo"), "/repo/packages/cli/bin/n8n");
}

#[test]
fn bundle_is_preferred() {
    assert_eq!(
        resolve_executable("/repo", true, true),
        Ok("/repo/compiled/node_modules/.bin/n8n".to_string())
    );
    assert_eq!(
        resolve_executable("/repo", true, false),
        Ok("/repo/compiled/node_modules/.bin/n8n".to_string())
    );
}

#[test]
fn workspace_is_the_fallback() {
    assert_eq!(
        resolve_executable("/repo", false, true),
        Ok("/repo/packages/cli/bin/n8n".to_string())
    );
}

#[test]
fn no_candidate_is_an_error() {
    assert_eq!(resolve_executable("/repo", false, false), Err(LaunchError::ExecutableNotFound));
}

#[test]
fn interpreter_is_the_found_path() {
    assert_eq!(interpreter_or_name(Some("/usr/bin/node".to_string()), "node"), "/usr/bin/node");
}

#[test]
fn interpreter_falls_back_to_bare_name() {
    assert_eq!(interpreter_or_name(None, "node"), "node");
    assert_eq!(interpreter_name(), "node");
}

#[test]
fn resolve_interpreter_gives_a_path_or_the_name() {
    let program = resolve_interpreter();
    assert!(program.ends_with("node"));
}

#[test]
fn environment_has_the_five_variables_in_order() {
    let env = launch_environment(15000, "c2VjcmV0");
    assert_eq!(
        env,
        vec![
            var("N8N_PORT", "15000"),
            var("N8N_LISTEN_ADDRESS", "127.0.0.1"),
            var("N8N_HOST", "localhost"),
            var("N8N_PROTOCOL", "http"),
            var("N8N_ENCRYPTION_KEY", "c2VjcmV0"),
        ]
    );
}

#[test]
fn plan_for_bundled_backend() {
    let plan =
        plan_launch("/repo", true, false, "/usr/bin/node".to_string(), 5678, "key").unwrap();
    assert_eq!(plan.program, "/usr/bin/node");
    assert_eq!(
        plan.args,
        vec!["/repo/compiled/node_modules/.bin/n8n".to_string(), "start".to_string()]
    );
    assert_eq!(plan.env, launch_environment(5678, "key"));
    assert_eq!(plan.working_dir, "/repo");
    assert_eq!(plan.stdin, StreamPlan::Closed);
    assert_eq!(plan.stdout, StreamPlan::Drained);
    assert_eq!(plan.stderr, StreamPlan::Drained);
    assert_eq!(plan.settle_delay_ms, 200);
    assert_eq!(SETTLE_DELAY_MS, 200);
}

#[test]
fn plan_for_workspace_backend() {
    let plan = plan_launch("/repo", false, true, "node".to_string(), 15000, "key").unwrap();
    assert_eq!(plan.program, "node");
    assert_eq!(
        plan.args,
        vec!["/repo/packages/cli/bin/n8n".to_string(), "start".to_string()]
    );
    assert_eq!(plan.env[0], var("N8N_PORT", "15000"));
    assert_eq!(plan.env[4], var("N8N_ENCRYPTION_KEY", "key"));
}

#[test]
fn no_plan_without_an_executable() {
    assert_eq!(
        plan_launch("/repo", false, false, "node".to_string(), 5678, "key"),
        Err(LaunchError::ExecutableNotFound)
    );
}

#[test]
fn prepared_plan_runs_the_resolved_interpreter() {
    let plan = prepare_launch("/repo", false, true, 15000, "key").unwrap();
    assert_eq!(plan.program, resolve_interpreter());
    assert_eq!(
        plan,
        plan_launch("/repo", false, true, resolve_interpreter(), 15000, "key").unwrap()
    );
}

#[test]
fn nothing_is_prepared_without_an_executable() {
    assert_eq!(
        prepare_launch("/repo", false, false, 15000, "key"),
        Err(LaunchError::ExecutableNotFound)
    );
}

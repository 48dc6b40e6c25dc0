use flutter_checker::plan::{channel_name, reconcile_plan, workaround_for, Step};
use flutter_checker::platform::Platform;
use flutter_checker::status::Status;

fn sample_status() -> Status {
    Status {
        project_version: Some("3.19.0".to_string()),
        sdk_version: Some("3.16.0".to_string()),
        sdk_bin_path: Some("/opt/flutter/bin".to_string()),
        sdk_root_path: Some("/opt/flutter".to_string()),
    }
}

fn lines(plan: &[Step]) -> Vec<String> {
    plan.iter().map(|s| s.command.line.clone()).collect()
}

#[test]
fn every_channel_is_one_switch() {
    for channel in ["stable", "beta", "main", "master"] {
        let plan = reconcile_plan(Platform::Linux, channel, &sample_status());
        assert_eq!(lines(&plan), vec![format!("flutter channel {channel}")]);
        assert_eq!(plan[0].command.cwd, None);
        assert!(plan[0].command.echo);
        assert!(!plan[0].best_effort);
    }
}

#[test]
fn channel_names_are_exact() {
    assert!(channel_name("beta"));
    assert!(!channel_name("Stable"));
    assert!(!channel_name("stable "));
    assert!(!channel_name("3.19.0"));
}

#[test]
fn pinned_version_on_linux() {
    let plan = reconcile_plan(Platform::Linux, "3.19.0", &sample_status());
    assert_eq!(
        lines(&plan),
        vec!["git reset --hard", "git fetch", "git checkout 3.19.0", "git reset --hard", "flutter doctor", "flutter clean", "flutter pub upgrade"]
    );
    for step in &plan[..4] {
        assert_eq!(step.command.cwd, Some("/opt/flutter/bin".to_string()));
    }
    for step in &plan[4..] {
        assert_eq!(step.command.cwd, None);
    }
    assert!(plan.iter().all(|s| !s.best_effort && s.command.echo));
}

#[test]
fn pinned_version_on_macos_installs_pods() {
    let plan = reconcile_plan(Platform::MacOs, "3.19.0", &sample_status());
    assert_eq!(plan.len(), 8);
    assert_eq!(plan[7].command.line, "pod install");
    assert_eq!(plan[7].command.cwd, Some("./ios".to_string()));
}

#[test]
fn release_with_fix_gets_best_effort_step() {
    let plan = reconcile_plan(Platform::Linux, "3.29.0", &sample_status());
    assert_eq!(plan.len(), 8);
    assert_eq!(plan[2].command.line, "git checkout 3.29.0");
    assert_eq!(plan[4].command.line, "rm -rf ./engine/src/.gn");
    assert_eq!(plan[4].command.cwd, Some("/opt/flutter".to_string()));
    assert!(plan[4].best_effort);
    assert_eq!(plan[5].command.line, "flutter doctor");
}

#[test]
fn fix_on_windows_uses_del() {
    let plan = reconcile_plan(Platform::Windows, "3.29.0", &sample_status());
    assert_eq!(plan[4].command.line, "del .\\engine\\src\\.gn");
    assert_eq!(plan.len(), 8);
}

#[test]
fn fix_registry_is_exact() {
    assert_eq!(workaround_for(Platform::MacOs, "3.29.0"), Some("rm -rf ./engine/src/.gn".to_string()));
    assert_eq!(workaround_for(Platform::Linux, "3.29.1"), None);
    assert_eq!(workaround_for(Platform::Linux, "v3.29.0"), None);
    assert_eq!(workaround_for(Platform::Other, "3.29.0"), None);
    let plan = reconcile_plan(Platform::Linux, "3.29.1", &sample_status());
    assert!(plan.iter().all(|s| !s.best_effort));
}

#[test]
fn checkout_without_known_bin_path_uses_current_directory() {
    let plan = reconcile_plan(Platform::Linux, "3.19.0", &Status::new());
    assert_eq!(plan[0].command.cwd, None);
}

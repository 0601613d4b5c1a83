use kilo_executor::command::{apply_overrides, AppendPrompt, CmdOverrides, CommandBuildError, CommandBuilder};
use kilo_executor::kilo::{join_path, AvailabilityInfo, KiloCode};

fn no_overrides() -> CmdOverrides {
    CmdOverrides { base_command_override: None, additional_params: None, env: None }
}

fn kilo(mode: Option<&str>, model: Option<&str>, yolo: Option<bool>, cmd: CmdOverrides) -> KiloCode {
    KiloCode {
        append_prompt: AppendPrompt(None),
        mode: mode.map(|m| m.to_string()),
        model: model.map(|m| m.to_string()),
        yolo,
        cmd,
    }
}

fn strings(v: &[&str]) -> Vec<String> {
    v.iter().map(|s| s.to_string()).collect()
}

#[test]
fn default_builder_uses_npx_with_json_and_auto() {
    let b = kilo(None, None, None, no_overrides()).build_command_builder().unwrap();
    assert_eq!(b.base, "npx -y @kilocode/cli@latest");
    assert_eq!(b.params, Some(strings(&["--json", "--auto"])));
}

#[test]
fn builder_adds_mode_model_and_yolo() {
    let b = kilo(Some("orchestrator"), Some("z-ai/glm-4.7"), Some(true), no_overrides())
        .build_command_builder()
        .unwrap();
    assert_eq!(
        b.params,
        Some(strings(&["--json", "--auto", "--mode", "orchestrator", "--model", "z-ai/glm-4.7", "--yolo"]))
    );
}

#[test]
fn yolo_false_adds_no_flag() {
    let b = kilo(None, None, Some(false), no_overrides()).build_command_builder().unwrap();
    assert_eq!(b.params, Some(strings(&["--json", "--auto"])));
}

#[test]
fn overrides_replace_base_and_append_params() {
    let cmd = CmdOverrides {
        base_command_override: Some("kilocode".to_string()),
        additional_params: Some(strings(&["--workspace", "/tmp/w"])),
        env: None,
    };
    let b = kilo(Some("code"), None, None, cmd).build_command_builder().unwrap();
    assert_eq!(b.base, "kilocode");
    assert_eq!(b.params, Some(strings(&["--json", "--auto", "--mode", "code", "--workspace", "/tmp/w"])));
}

#[test]
fn spawn_command_splits_base_command() {
    let parts = kilo(Some("code"), None, Some(true), no_overrides()).spawn_command().unwrap();
    assert_eq!(parts.program, "npx");
    assert_eq!(parts.args, strings(&["-y", "@kilocode/cli@latest", "--json", "--auto", "--mode", "code", "--yolo"]));
}

#[test]
fn follow_up_command_ends_with_continue() {
    let k = kilo(None, Some("m"), None, no_overrides());
    let first = k.spawn_command().unwrap();
    let follow = k.follow_up_command().unwrap();
    assert_eq!(follow.program, first.program);
    let mut expected = first.args.clone();
    expected.push("--continue".to_string());
    assert_eq!(follow.args, expected);
}

#[test]
fn blank_base_override_still_builds_from_flags() {
    let cmd = CmdOverrides { base_command_override: Some("   ".to_string()), additional_params: None, env: None };
    let parts = kilo(None, None, None, cmd).spawn_command().unwrap();
    assert_eq!(parts.program, "--json");
    assert_eq!(parts.args, strings(&["--auto"]));
}

#[test]
fn empty_builder_is_refused() {
    let b = CommandBuilder::new(" ".to_string());
    assert!(matches!(b.build_initial(), Err(CommandBuildError::EmptyCommand)));
}

#[test]
fn builder_params_and_follow_up_args() {
    let b = CommandBuilder::new("tool run".to_string()).params(strings(&["-a"])).extend_params(strings(&["-b"]));
    let parts = b.build_follow_up(&strings(&["x y"])).unwrap();
    assert_eq!(parts.program, "tool");
    assert_eq!(parts.args, strings(&["run", "-a", "-b", "x y"]));
}

#[test]
fn apply_overrides_without_overrides_keeps_builder() {
    let b = CommandBuilder::new("a b".to_string()).params(strings(&["c"]));
    let out = apply_overrides(b, &no_overrides()).unwrap();
    assert_eq!(out.base, "a b");
    assert_eq!(out.params, Some(strings(&["c"])));
}

#[test]
fn append_prompt_is_added_after_prompt() {
    let mut k = kilo(None, None, None, no_overrides());
    assert_eq!(k.combined_prompt("do it"), "do it");
    k.append_prompt = AppendPrompt(Some("\nBe brief.".to_string()));
    assert_eq!(k.combined_prompt("do it"), "do it\nBe brief.");
}

#[test]
fn process_env_quiets_npm_and_node() {
    assert_eq!(
        KiloCode::process_env(),
        vec![
            ("NPM_CONFIG_LOGLEVEL".to_string(), "error".to_string()),
            ("NODE_NO_WARNINGS".to_string(), "1".to_string()),
            ("NO_COLOR".to_string(), "1".to_string()),
        ]
    );
}

#[test]
fn join_path_follows_path_join() {
    for (base, part) in [("/home/a", "x"), ("/home/a/", "x"), ("", "x"), ("/home", "/abs"), ("rel", ".kilocode")] {
        let expected = std::path::Path::new(base).join(part).to_string_lossy().into_owned();
        assert_eq!(join_path(base, part), expected, "joining {:?} and {:?}", base, part);
    }
}

#[test]
fn kilo_files_live_under_dot_kilocode() {
    assert_eq!(KiloCode::mcp_config_path_in("/home/alice"), "/home/alice/.kilocode/config.json");
    let (id, config) = KiloCode::availability_files_in("/Users/bob/");
    assert_eq!(id, "/Users/bob/.kilocode/installation_id");
    assert_eq!(config, "/Users/bob/.kilocode/config.json");
}

#[test]
fn default_mcp_config_path_is_config_json() {
    if let Some(p) = kilo(None, None, None, no_overrides()).default_mcp_config_path() {
        assert!(p.ends_with("/.kilocode/config.json") || p == ".kilocode/config.json");
    }
}

#[test]
fn availability_from_files() {
    assert!(matches!(KiloCode::availability_from(false, None, false), AvailabilityInfo::NotFound));
    assert!(matches!(
        KiloCode::availability_from(true, Some(1_700_000_000), false),
        AvailabilityInfo::LoginDetected { last_auth_timestamp: 1_700_000_000 }
    ));
    assert!(matches!(
        KiloCode::availability_from(true, Some(5), true),
        AvailabilityInfo::LoginDetected { last_auth_timestamp: 5 }
    ));
    assert!(matches!(KiloCode::availability_from(true, None, false), AvailabilityInfo::InstallationFound));
    assert!(matches!(KiloCode::availability_from(false, None, true), AvailabilityInfo::InstallationFound));
}

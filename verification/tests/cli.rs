use runtime_override::cli::{
    build_path, cache_step, built_wasm_path, command_line, digest_path, exit_code, name_prefix, plan,
    repository_name, wasm_path, Cli, Command, Step,
};

fn options(cache: bool, no_digest: bool) -> Cli {
    Cli {
        github: "https://github.com/darwinia-network/darwinia-common".to_string(),
        target: "v2.7.0".to_string(),
        manifest: "runtime/pangolin/Cargo.toml".to_string(),
        runtime: "pangolin".to_string(),
        output: "out".to_string(),
        no_digest,
        cache,
    }
}

fn strings(v: &[&str]) -> Vec<String> {
    v.iter().map(|s| s.to_string()).collect()
}

fn assert_command(c: &Command, program: &str, args: &[&str], exclude: &[&str]) {
    assert_eq!(c.program, program);
    assert_eq!(c.args, strings(args));
    assert_eq!(c.exclude_envs, strings(exclude));
}

#[test]
fn repository_name_is_the_last_component() {
    assert_eq!(
        repository_name("https://github.com/darwinia-network/darwinia-common"),
        Some("darwinia-common".to_string())
    );
    assert_eq!(repository_name("a/b/c"), Some("c".to_string()));
    assert_eq!(repository_name("/x"), Some("x".to_string()));
    assert_eq!(repository_name("ends-with/"), Some(String::new()));
    assert_eq!(repository_name("no-slash"), None);
    assert_eq!(repository_name(""), None);
    assert_eq!(repository_name("héllo/wörld"), Some("wörld".to_string()));
}

#[test]
fn paths() {
    assert_eq!(build_path("darwinia-common"), "build/darwinia-common");
    let prefix = name_prefix("pangolin", "main");
    assert_eq!(prefix, "pangolin-main-tracing-runtime");
    assert_eq!(
        wasm_path("overridden-runtimes", &prefix),
        "overridden-runtimes/pangolin-main-tracing-runtime.compact.compressed.wasm"
    );
    assert_eq!(
        digest_path("overridden-runtimes", &prefix),
        "overridden-runtimes/pangolin-main-tracing-runtime.json"
    );
    assert_eq!(
        built_wasm_path("darwinia-common", "pangolin"),
        "build/darwinia-common/target/release/wbuild/pangolin-runtime/pangolin_runtime.compact.compressed.wasm"
    );
}

#[test]
fn plan_without_cache_with_digest() {
    let steps = plan(&options(false, false));
    assert_eq!(steps.len(), 12);
    match &steps[0] {
        Step::CleanCache { dir } => assert_eq!(dir, "build"),
        _ => panic!("clean cache expected"),
    }
    match &steps[1] {
        Step::CloneIfMissing { dir, clone } => {
            assert_eq!(dir, "build/darwinia-common");
            assert_command(
                clone,
                "git",
                &["clone", "https://github.com/darwinia-network/darwinia-common", "build/darwinia-common"],
                &[],
            );
        }
        _ => panic!("clone expected"),
    }
    match &steps[2] {
        Step::EnterDirectory { dir } => assert_eq!(dir, "build/darwinia-common"),
        _ => panic!("enter expected"),
    }
    match &steps[3] {
        Step::Run(c) => assert_command(c, "git", &["fetch", "--all"], &[]),
        _ => panic!("fetch expected"),
    }
    match &steps[4] {
        Step::Run(c) => assert_command(c, "git", &["checkout", "v2.7.0"], &[]),
        _ => panic!("checkout expected"),
    }
    match &steps[5] {
        Step::Run(c) => assert_command(c, "rustup", &["show"], &["RUSTUP_TOOLCHAIN"]),
        _ => panic!("rustup expected"),
    }
    match &steps[6] {
        Step::Run(c) => assert_command(
            c,
            "cargo",
            &["build", "--release", "--manifest-path", "runtime/pangolin/Cargo.toml", "--features", "evm-tracing"],
            &["RUSTUP_TOOLCHAIN"],
        ),
        _ => panic!("cargo expected"),
    }
    match &steps[7] {
        Step::ReturnToDirectory { dir } => assert_eq!(dir, "../../"),
        _ => panic!("return expected"),
    }
    match &steps[8] {
        Step::CreateDirIfMissing { dir } => assert_eq!(dir, "out"),
        _ => panic!("create dir expected"),
    }
    match &steps[9] {
        Step::MoveWasm { from, to } => {
            assert_eq!(
                from,
                "build/darwinia-common/target/release/wbuild/pangolin-runtime/pangolin_runtime.compact.compressed.wasm"
            );
            assert_eq!(to, "out/pangolin-v2.7.0-tracing-runtime.compact.compressed.wasm");
        }
        _ => panic!("move expected"),
    }
    match &steps[10] {
        Step::InspectRuntime { wasm } => {
            assert_eq!(wasm, "out/pangolin-v2.7.0-tracing-runtime.compact.compressed.wasm")
        }
        _ => panic!("inspect expected"),
    }
    match &steps[11] {
        Step::WriteDigest { path } => assert_eq!(path, "out/pangolin-v2.7.0-tracing-runtime.json"),
        _ => panic!("digest expected"),
    }
}

#[test]
fn plan_with_cache_without_digest() {
    let steps = plan(&options(true, true));
    assert_eq!(steps.len(), 11);
    assert!(matches!(steps[0], Step::UseCache));
    assert!(matches!(steps[10], Step::InspectRuntime { .. }));
    assert!(!steps.iter().any(|s| matches!(s, Step::WriteDigest { .. } | Step::CleanCache { .. })));
}

#[test]
fn command_line_joins_with_spaces() {
    let c = Command {
        program: "git".to_string(),
        args: strings(&["clone", "a", "b"]),
        exclude_envs: vec![],
    };
    assert_eq!(command_line(&c), "git clone a b");
    let c = Command { program: "rustup".to_string(), args: strings(&["show"]), exclude_envs: vec![] };
    assert_eq!(command_line(&c), "rustup show");
    let c = Command { program: "ls".to_string(), args: vec![], exclude_envs: vec![] };
    assert_eq!(command_line(&c), "ls ");
}

#[test]
fn exit_code_of_failed_commands() {
    assert_eq!(exit_code(true, Some(0)), None);
    assert_eq!(exit_code(true, None), None);
    assert_eq!(exit_code(false, Some(101)), Some(101));
    assert_eq!(exit_code(false, None), Some(-1));
}

#[test]
fn defaults_follow_the_usage_text() {
    let c = Cli::with_defaults(
        "https://github.com/darwinia-network/darwinia-common".to_string(),
        "runtime/pangolin/Cargo.toml".to_string(),
        "pangolin".to_string(),
    );
    assert_eq!(c.target, "main");
    assert_eq!(c.output, "overridden-runtimes");
    assert!(!c.no_digest);
    assert!(!c.cache);
    assert_eq!(runtime_override::cli::default_target(), "main");
    assert_eq!(runtime_override::cli::default_output(), "overridden-runtimes");
    let steps = plan(&c);
    match &steps[9] {
        Step::MoveWasm { to, .. } => assert_eq!(
            to,
            "overridden-runtimes/pangolin-main-tracing-runtime.compact.compressed.wasm"
        ),
        _ => panic!("move expected"),
    }
}

#[test]
fn cache_step_cleans_or_keeps() {
    assert!(matches!(cache_step(true), Step::UseCache));
    match cache_step(false) {
        Step::CleanCache { dir } => assert_eq!(dir, "build"),
        _ => panic!("clean cache expected"),
    }
}

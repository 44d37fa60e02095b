use bazel_run::config::{build_run_config, CACHE_DIR, CACHE_ROOT_FLAG, IMAGE, WORKSPACE_DIR};

fn strings(v: &[&str]) -> Vec<String> {
    v.iter().map(|s| s.to_string()).collect()
}

#[test]
fn workspace_is_mounted_and_arguments_follow_cache_flag() {
    let cfg = build_run_config("/home/u/proj", &strings(&["build", "//foo"]));
    assert_eq!(cfg.volumes[0], "/home/u/proj:/src/workspace");
    assert_eq!(cfg.cmd, strings(&["--output_user_root=/tmp/build_output", "build", "//foo"]));
    assert_eq!(cfg.cmd[0], CACHE_ROOT_FLAG);
    assert_eq!(cfg.working_dir, WORKSPACE_DIR);
}

#[test]
fn scratch_directory_is_mounted_at_its_own_path() {
    let cfg = build_run_config("/home/u/proj", &strings(&["build", "//foo"]));
    assert_eq!(cfg.volumes.len(), 2);
    assert_eq!(cfg.volumes[1], format!("{}:{}", CACHE_DIR, CACHE_DIR));
    assert_eq!(cfg.volumes[1], "/tmp/build_output:/tmp/build_output");
}

#[test]
fn container_is_interactive_and_uses_the_build_image() {
    let cfg = build_run_config("/w", &Vec::new());
    assert!(cfg.attach_stdin && cfg.attach_stdout && cfg.attach_stderr);
    assert!(cfg.tty);
    assert!(cfg.privileged);
    assert_eq!(cfg.image, IMAGE);
    assert_eq!(cfg.image, "l.gcr.io/google/bazel:latest");
}

#[test]
fn no_arguments_gives_only_the_cache_flag() {
    let cfg = build_run_config("/w", &Vec::new());
    assert_eq!(cfg.cmd, strings(&[CACHE_ROOT_FLAG]));
    assert_eq!(cfg.volumes[0], "/w:/src/workspace");
}

#[test]
fn malformed_arguments_pass_through_verbatim() {
    let args = strings(&["", "--weird=\"x y\"", "build", "  //a:b  ", "ünïcode"]);
    let cfg = build_run_config("/tmp/some dir", &args);
    assert_eq!(&cfg.cmd[1..], &args[..]);
    assert_eq!(cfg.volumes[0], "/tmp/some dir:/src/workspace");
}

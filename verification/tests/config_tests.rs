use bti::config::{
    git_clone_args, help_message, install_base_under_home, plan_build_path, scan_arguments,
    install_base_under_local_app_data, version_message, ApplicationConfig, ArgDirective, ArgState,
    BuildPathPlan, ScanEnd, Setting,
};
use bti::error::CliError;
use bti::paths::expand_home;

fn strings(items: &[&str]) -> Vec<String> {
    items.iter().map(|s| s.to_string()).collect()
}

/// The directory the program is started in.
fn current_dir_text() -> String {
    String::from("/work/bti")
}

fn home_install_base() -> Result<String, std::io::Error> {
    Ok(install_base_under_home("/home/user"))
}

#[test]
fn valid_application_config_builds() {
    let test_args: Vec<String> = vec![];
    let scan = scan_arguments(&test_args);
    assert!(scan.directives.is_empty());
    assert!(matches!(scan.end, ScanEnd::Exhausted));
    let result = ArgState::new(current_dir_text()).finish(home_install_base());
    assert!(
        matches!(result, Ok(ApplicationConfig { .. })),
        "ApplicationConfig should build with valid args."
    );
}

#[test]
fn invalid_application_config_build() {
    let test_args = vec![String::from("--bti"), String::from("--isbest")];
    let scan = scan_arguments(&test_args);
    assert!(
        matches!(scan.end, ScanEnd::Failed(_)),
        "ApplicationConfig should not build with invalid args."
    );
    match scan.end {
        ScanEnd::Failed(CliError::UnknownArgument { arg }) => assert_eq!(arg, "--bti"),
        other => panic!("unexpected end {other:?}"),
    }
}

#[test]
fn scan_reads_value_flags_in_order() {
    let scan = scan_arguments(&strings(&[
        "--bp",
        "/tmp/proj",
        "--ba",
        "  build   --release ",
        "--cp",
        "~/bin",
    ]));
    assert!(matches!(scan.end, ScanEnd::Exhausted));
    assert_eq!(scan.directives.len(), 3);
    assert!(matches!(&scan.directives[0], ArgDirective::BuildPath(p) if p == "/tmp/proj"));
    assert!(
        matches!(&scan.directives[1], ArgDirective::BuildArgs(w) if *w == strings(&["build", "--release"]))
    );
    assert!(matches!(&scan.directives[2], ArgDirective::CompiledPath(p) if p == "~/bin"));
}

#[test]
fn scan_stops_at_help_version_and_list() {
    let scan = scan_arguments(&strings(&["--bp", "x", "--help", "--nonsense"]));
    assert_eq!(scan.directives.len(), 1);
    assert!(matches!(scan.end, ScanEnd::Help));
    let scan = scan_arguments(&strings(&["--v", "--bp"]));
    assert!(scan.directives.is_empty());
    assert!(matches!(scan.end, ScanEnd::Version));
    let scan = scan_arguments(&strings(&["--lb", "--whatever"]));
    assert!(matches!(scan.end, ScanEnd::ListBinaries));
}

#[test]
fn scan_reports_missing_value() {
    let scan = scan_arguments(&strings(&["--ba", "x", "--compiled-path"]));
    assert_eq!(scan.directives.len(), 1);
    assert!(matches!(
        scan.end,
        ScanEnd::Failed(CliError::MissingFlagValue { flag: "--compiled-path" })
    ));
    let scan = scan_arguments(&strings(&["--bp"]));
    assert!(matches!(
        scan.end,
        ScanEnd::Failed(CliError::MissingFlagValue { flag: "--build-path" })
    ));
}

#[test]
fn binary_name_is_not_a_flag() {
    let scan = scan_arguments(&strings(&["--binary-name", "tool"]));
    assert!(scan.directives.is_empty());
    match scan.end {
        ScanEnd::Failed(CliError::UnknownArgument { arg }) => assert_eq!(arg, "--binary-name"),
        other => panic!("unexpected end {other:?}"),
    }
}

#[test]
fn scan_of_joined_command_lines_joins_their_settings() {
    let first = strings(&["--bp", "a", "--ba", "x y"]);
    let rest = strings(&["--cp", "b", "--help"]);
    let mut all = first.clone();
    all.extend(rest.clone());
    let joined = scan_arguments(&all);
    assert_eq!(joined.directives.len(), 3);
    assert!(matches!(joined.end, ScanEnd::Help));
    assert!(matches!(&joined.directives[2], ArgDirective::CompiledPath(p) if p == "b"));
}

#[test]
fn state_refuses_paths_that_are_not_directories() {
    let mut state = ArgState::new(String::from("/work/proj"));
    let r = state.apply(Setting::BuildPath { path: String::from("/nope"), is_dir: false });
    match r {
        Err(e) => assert_eq!(e.message(), "Input --build-path is not a directory: /nope"),
        Ok(()) => panic!("should be refused"),
    }
    assert_eq!(state.build_file_path, "/work/proj");
    let r = state.apply(Setting::CompiledPath { path: String::from("/bin2"), is_dir: false });
    assert!(matches!(
        r,
        Err(CliError::PathNotADirectory { flag: "--compiled-path", .. })
    ));
    assert!(state.custom_install_base.is_none());
}

#[test]
fn build_args_accumulate_and_paths_replace() {
    let mut state = ArgState::new(String::from("/work/proj"));
    assert!(state.apply(Setting::BuildArgs(strings(&["build"]))).is_ok());
    assert!(state.apply(Setting::BuildPath { path: String::from("/work/a"), is_dir: true }).is_ok());
    assert!(state.apply(Setting::BuildArgs(strings(&["--release", "-v"]))).is_ok());
    assert!(state.apply(Setting::BuildPath { path: String::from("/work/b"), is_dir: true }).is_ok());
    assert_eq!(state.build_args, strings(&["build", "--release", "-v"]));
    assert_eq!(state.build_file_path, "/work/b");
}

#[test]
fn finish_installs_under_project_name() {
    let mut state = ArgState::new(String::from("/work/proj"));
    assert!(state.apply(Setting::BuildArgs(strings(&["build"]))).is_ok());
    assert!(state.apply(Setting::CompiledPath { path: String::from("/opt/bin"), is_dir: true }).is_ok());
    let config = state.finish(Ok(String::from("/home/u/.local/bin"))).unwrap();
    assert_eq!(config.binary_install_path, "/opt/bin/proj");
    assert_eq!(config.build_args, strings(&["build"]));
    assert!(config.binary_name.is_none());

    let state = ArgState::new(String::from("/work/proj"));
    let config = state.finish(Ok(String::from("/home/u/.local/bin"))).unwrap();
    assert_eq!(config.binary_install_path, "/home/u/.local/bin/proj");
    assert!(config.binary_name.is_none());
}

#[test]
fn finish_errors() {
    let state = ArgState::new(String::new());
    assert!(matches!(
        state.finish(Ok(String::from("/x"))),
        Err(CliError::InvalidBuildPath)
    ));
    let state = ArgState::new(String::from("/work/proj"));
    let missing = std::io::Error::new(std::io::ErrorKind::NotFound, "no home");
    assert!(matches!(state.finish(Err(missing)), Err(CliError::Io(_))));
    let mut state = ArgState::new(String::from("/work/proj"));
    assert!(state.apply(Setting::CompiledPath { path: String::from("/opt"), is_dir: true }).is_ok());
    let missing = std::io::Error::new(std::io::ErrorKind::NotFound, "no home");
    assert!(state.finish(Err(missing)).is_ok());
}

#[test]
fn build_path_plans() {
    let home = Some(String::from("/home/u"));
    assert!(matches!(plan_build_path("~/code/app", &home, "/tmp"), BuildPathPlan::Expanded(p) if p == "/home/u/code/app"));
    match plan_build_path("/", &home, "/tmp") {
        BuildPathPlan::NoFileName(m) => assert_eq!(m, "Could not determine filename from path: /"),
        other => panic!("unexpected plan {other:?}"),
    }
    match plan_build_path("https://github.com/u/repo.git", &home, "/tmp") {
        BuildPathPlan::Scratch { scratch, clone: Some(args), project } => {
            assert_eq!(scratch, "/tmp/repo");
            assert_eq!(project, "/tmp/repo");
            assert_eq!(
                args,
                strings(&[
                    "clone",
                    "--depth",
                    "1",
                    "--recurse-submodules",
                    "--shallow-submodules",
                    "https://github.com/u/repo.git",
                    "/tmp/repo",
                ])
            );
        }
        other => panic!("unexpected plan {other:?}"),
    }
    assert!(matches!(
        plan_build_path("git@host:u/tool", &None, "/var/tmp"),
        BuildPathPlan::Scratch { scratch, clone: Some(_), project } if scratch == "/var/tmp/tool" && project == scratch
    ));
    assert!(matches!(
        plan_build_path("projects/app.v2", &home, "/tmp"),
        BuildPathPlan::Scratch { scratch, clone: None, project } if scratch == "/tmp/app" && project == "projects/app.v2"
    ));
    assert!(matches!(
        plan_build_path("~/x", &None, "/tmp"),
        BuildPathPlan::Scratch { scratch, clone: None, project } if scratch == "/tmp/x" && project == "~/x"
    ));
}

#[test]
fn home_expansion() {
    let home = Some(String::from("/home/u"));
    assert_eq!(expand_home("~/bin", &home), "/home/u/bin");
    assert_eq!(expand_home("~", &home), "/home/u");
    assert_eq!(expand_home("/opt/~bin", &home), "/opt/~bin");
    assert_eq!(expand_home("~/bin", &None), "~/bin");
}

#[test]
fn messages() {
    assert_eq!(version_message("0.1.0"), "bti version 0.1.0");
    assert_eq!(
        help_message(),
        "Commandlist\n--build-path (or --bp)\n--build-args (or --ba)\n--compiled-path (or --cp)\n--list-binaries (or --lb)\n--version (or --v)\n--help (or -h)"
    );
    assert_eq!(install_base_under_home("/home/u"), "/home/u/.local/bin");
    assert_eq!(
        install_base_under_local_app_data("/data"),
        "/data/Microsoft/WindowsApps"
    );
    assert_eq!(
        git_clone_args("url", "/tmp/x"),
        strings(&["clone", "--depth", "1", "--recurse-submodules", "--shallow-submodules", "url", "/tmp/x"])
    );
}

use bti::build_plan::{binary_name_for, detect_build_command, BuildCommand, BuildConfig, BuildError, Platform};
use bti::config::ApplicationConfig;

fn strings(items: &[&str]) -> Vec<String> {
    items.iter().map(|s| s.to_string()).collect()
}

fn app(path: &str, args: &[&str], install: &str, name: Option<&str>) -> ApplicationConfig {
    ApplicationConfig {
        build_file_path: path.to_string(),
        build_args: strings(args),
        binary_install_path: install.to_string(),
        binary_name: name.map(|n| n.to_string()),
    }
}

/// The listing of a Rust project directory like the one the tests run in.
fn project_listing() -> Result<Vec<String>, std::io::Error> {
    Ok(strings(&["src", "Cargo.toml", "tests", "README.md"]))
}

fn cores() -> Result<usize, std::io::Error> {
    Ok(8)
}

#[test]
fn valid_build_config_builds() {
    let build_file_path = String::from("/work/bti");
    let test_application_config = ApplicationConfig {
        build_file_path: build_file_path.clone(),
        build_args: Vec::new(),
        binary_install_path: build_file_path.clone(),
        binary_name: None,
    };
    let result = BuildConfig::build(test_application_config, project_listing(), cores(), Platform::Unix);
    assert!(result.is_ok(), "BuildConfig should build with valid args.");
}

#[test]
fn invalid_build_config_build() {
    let test_application_config = ApplicationConfig {
        build_file_path: String::new(),
        build_args: Vec::new(),
        binary_install_path: String::new(),
        binary_name: None,
    };
    let not_found = std::io::Error::new(std::io::ErrorKind::NotFound, "No such file or directory");
    let result = BuildConfig::build(test_application_config, Err(not_found), cores(), Platform::Unix);
    assert!(result.is_err(), "BuildConfig should not build with invalid args.");
}

#[test]
fn detection_is_case_insensitive_and_first_match_wins() {
    assert_eq!(detect_build_command(&strings(&["README.md", "CMakeLists.txt", "Cargo.toml"])), Some(BuildCommand::Cmake));
    assert_eq!(detect_build_command(&strings(&["CARGO.TOML"])), Some(BuildCommand::Cargo));
    assert_eq!(detect_build_command(&strings(&["gradlew.bat"])), Some(BuildCommand::GradleW));
    assert_eq!(detect_build_command(&strings(&["build.gradle.kts"])), Some(BuildCommand::Gradle));
    assert_eq!(detect_build_command(&strings(&["mvnw.cmd"])), Some(BuildCommand::MavenW));
    assert_eq!(detect_build_command(&strings(&["pom.xml"])), Some(BuildCommand::Maven));
    assert_eq!(detect_build_command(&strings(&["bun.lockb", "package.json"])), Some(BuildCommand::Bun));
    assert_eq!(detect_build_command(&strings(&["build.zig"])), Some(BuildCommand::Zig));
    assert_eq!(detect_build_command(&strings(&["go.mod"])), Some(BuildCommand::Go));
    assert_eq!(detect_build_command(&strings(&["Makefile", "src"])), None);
    assert_eq!(detect_build_command(&strings(&[])), None);
}

#[test]
fn cargo_defaults() {
    let config = BuildConfig::build(app("/w/proj", &[], "/home/u/.local/bin/proj", None), Ok(strings(&["Cargo.toml"])), Ok(8), Platform::Unix).unwrap();
    assert_eq!(config.command, BuildCommand::Cargo);
    assert_eq!(config.args, strings(&["build", "--release", "-j", "8"]));
    assert!(config.configure_args.is_none());
    assert_eq!(config.target_release_path, "/w/proj/target/release/proj");
    assert_eq!(config.binary_name, "proj");
    assert_eq!(config.target_binary_install_path, "/home/u/.local/bin/proj");
    assert_eq!(config.build_file_path, "/w/proj");
}

#[test]
fn cmake_defaults_have_a_configure_step() {
    let config = BuildConfig::build(app("/w/cm", &[], "/i/cm", None), Ok(strings(&["CMakeLists.txt"])), Ok(12), Platform::Unix).unwrap();
    assert_eq!(
        config.configure_args,
        Some(strings(&["-S", ".", "-B", "build", "-DCMAKE_BUILD_TYPE=Release"]))
    );
    assert_eq!(config.args, strings(&["--build", "build", "--config", "Release", "-j", "12"]));
    assert_eq!(config.target_release_path, "/w/cm/build/cm");
    let runs = config.invocations();
    assert_eq!(runs.len(), 2);
    assert_eq!(runs[0].command, BuildCommand::Cmake);
    assert_eq!(runs[0].args, strings(&["-S", ".", "-B", "build", "-DCMAKE_BUILD_TYPE=Release"]));
    assert_eq!(runs[1].args, config.args);
    assert_eq!(runs[1].current_dir, "/w/cm");
}

#[test]
fn other_tool_defaults() {
    let c = BuildConfig::build(app("/w/z", &[], "/i", None), Ok(strings(&["build.zig"])), Ok(4), Platform::Unix).unwrap();
    assert_eq!(c.args, strings(&["build", "-Doptimize=ReleaseSafe", "-j", "4"]));
    assert_eq!(c.target_release_path, "/w/z/zig-out/bin/z");
    let c = BuildConfig::build(app("/w/m", &[], "/i", None), Ok(strings(&["pom.xml"])), Ok(2), Platform::Unix).unwrap();
    assert_eq!(c.args, strings(&["clean", "verify", "-T", "2", "-DskipTests", "-P", "release"]));
    assert_eq!(c.target_release_path, "/w/m/m");
    let c = BuildConfig::build(app("/w/g", &[], "/i", None), Ok(strings(&["gradlew"])), Ok(16), Platform::Unix).unwrap();
    assert_eq!(c.args, strings(&["clean", "build", "--configuration-cache", "--parallel", "--max-workers=16", "-PbuildType=release"]));
    let c = BuildConfig::build(app("/w/n", &[], "/i", None), Ok(strings(&["package.json"])), Ok(3), Platform::Unix).unwrap();
    assert_eq!(c.args, strings(&["run", "build"]));
    assert_eq!(c.target_release_path, "/w/n/dist/n");
    let c = BuildConfig::build(app("/w/gop", &[], "/i", Some("other")), Ok(strings(&["go.mod"])), Ok(1), Platform::Unix).unwrap();
    assert_eq!(c.args, strings(&["build", "-p", "1", "-ldflags=-s -w", "-o", "bin/gop", "."]));
    assert_eq!(c.target_release_path, "/w/gop/bin/other");
    assert_eq!(c.binary_name, "other");
    assert_eq!(c.command.program(), "go");
}

#[test]
fn user_build_args_replace_the_defaults() {
    let c = BuildConfig::build(app("/w/cm", &["--build", "out"], "/i", None), Ok(strings(&["CMakeLists.txt"])), Ok(12), Platform::Unix).unwrap();
    assert_eq!(c.args, strings(&["--build", "out"]));
    assert!(c.configure_args.is_none());
    assert_eq!(c.invocations().len(), 1);
}

#[test]
fn build_errors_in_order() {
    let io = || std::io::Error::new(std::io::ErrorKind::Other, "x");
    assert!(matches!(BuildConfig::build(app("", &[], "/i", None), Err(io()), Err(io()), Platform::Unix), Err(BuildError::InvalidPath)));
    assert!(matches!(BuildConfig::build(app("/w/p", &[], "/i", None), Err(io()), Ok(1), Platform::Unix), Err(BuildError::Io(_))));
    match BuildConfig::build(app("/w/p", &[], "/i", None), Ok(strings(&["notes.txt"])), Err(io()), Platform::Unix) {
        Err(BuildError::UnsupportedBuildSystem(p)) => assert_eq!(p, "/w/p"),
        other => panic!("unexpected {other:?}"),
    }
    assert!(matches!(BuildConfig::build(app("/w/p", &[], "/i", None), Ok(strings(&["go.mod"])), Err(io()), Platform::Unix), Err(BuildError::Io(_))));
}

#[test]
fn windows_binaries_get_an_exe_suffix() {
    assert_eq!(binary_name_for(Platform::Windows, "proj"), "proj.exe");
    assert_eq!(binary_name_for(Platform::Windows, "proj.bin"), "proj.bin");
    assert_eq!(binary_name_for(Platform::Windows, ".hidden"), ".hidden.exe");
    assert_eq!(binary_name_for(Platform::Unix, "proj"), "proj");
    let c = BuildConfig::build(app("/w/cm", &[], "/i", None), Ok(strings(&["CMakeLists.txt"])), Ok(2), Platform::Windows).unwrap();
    assert_eq!(c.binary_name, "cm.exe");
    assert_eq!(c.target_release_path, "/w/cm/build/Release/cm.exe");
    let c = BuildConfig::build(app("/w/gop", &[], "/i", None), Ok(strings(&["go.mod"])), Ok(1), Platform::Windows).unwrap();
    assert_eq!(c.args[5], "bin/gop.exe");
}

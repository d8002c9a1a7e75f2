use bti::build_plan::{BuildCommand, BuildConfig, Platform};
use bti::config::ApplicationConfig;
use bti::install::{
    choose_executable, cmake_install_args, cmake_install_prefix, cmake_install_target,
    is_skipped_dir, is_skipped_file, mode_is_executable, plan_install, score_cmake_candidate,
    Candidate, EntryInfo, ExecutableSearch, InstallPlan, MAX_DISCOVERY_DEPTH,
};

fn cmake_config(path: &str, install: &str, name: Option<&str>) -> BuildConfig {
    let app = ApplicationConfig {
        build_file_path: path.to_string(),
        build_args: Vec::new(),
        binary_install_path: install.to_string(),
        binary_name: name.map(|n| n.to_string()),
    };
    BuildConfig::build(app, Ok(vec![String::from("CMakeLists.txt")]), Ok(2), Platform::Unix).unwrap()
}

#[test]
fn scores_prefer_rundir_bin_and_shallow_paths() {
    assert_eq!(score_cmake_candidate("/p/build/rundir/app"), 1000 - 4);
    assert_eq!(score_cmake_candidate("/p/build/bin/app"), 200 - 4);
    assert_eq!(score_cmake_candidate("/p/build/rundir/bin/app"), 1200 - 5);
    assert_eq!(score_cmake_candidate("/p/build/app"), -3);
    assert_eq!(score_cmake_candidate("app"), 0);
}

#[test]
fn choice_is_best_ranked_and_earliest() {
    let c = |p: &str, m: i128| Candidate { path: p.to_string(), modified: m };
    assert_eq!(choose_executable(&vec![]), None);
    let cands = vec![c("/b/x", 5), c("/b/bin/y", 1), c("/b/bin/z", 1), c("/b/bin/w", 0)];
    assert_eq!(choose_executable(&cands), Some(1));
    let cands = vec![c("/b/x", 5), c("/b/y", 9), c("/b/z", 9)];
    assert_eq!(choose_executable(&cands), Some(1));
    let cands = vec![c("/b/rundir/x", -3), c("/b/bin/y", 100)];
    assert_eq!(choose_executable(&cands), Some(0));
}

#[test]
fn skipped_names() {
    for name in ["CMakeFiles", ".git", "Testing", "_deps", "deps"] {
        assert!(is_skipped_dir(name));
    }
    assert!(!is_skipped_dir("bin"));
    for name in ["a.o", "lib.a", "x.so", "x.so.1.2", "m.dylib", "w.dll", "cmake_install.cmake", "CMakeCache.txt"] {
        assert!(is_skipped_file(name), "{name}");
    }
    for name in ["app", "app.sh", "so", "a.out"] {
        assert!(!is_skipped_file(name), "{name}");
    }
}

#[test]
fn executable_modes() {
    assert!(mode_is_executable(0o755));
    assert!(mode_is_executable(0o001));
    assert!(!mode_is_executable(0o644));
}

#[test]
fn install_plans() {
    let config = cmake_config("/w/cm", "/home/u/.local/bin/cm", None);
    match plan_install(&config, true) {
        InstallPlan::CopyRelease { from, to } => {
            assert_eq!(from, "/w/cm/build/cm");
            assert_eq!(to, "/home/u/.local/bin/cm");
        }
        other => panic!("unexpected {other:?}"),
    }
    match plan_install(&config, false) {
        InstallPlan::CmakeFallback { prefix, build_dir } => {
            assert_eq!(prefix.as_deref(), Some("/home/u/.local"));
            assert_eq!(build_dir, "/w/cm/build");
        }
        other => panic!("unexpected {other:?}"),
    }
    let mut cargo = cmake_config("/w/cm", "/i/cm", None);
    cargo.command = BuildCommand::Cargo;
    assert!(matches!(plan_install(&cargo, false), InstallPlan::CopyRelease { .. }));
    assert_eq!(cmake_install_prefix("cm"), None);
    assert_eq!(cmake_install_prefix("bin/cm").as_deref(), Some(""));
    assert_eq!(
        cmake_install_args("/home/u/.local"),
        vec!["--install", "build", "--prefix", "/home/u/.local"]
    );
}

#[test]
fn cmake_install_targets() {
    let config = cmake_config("/w/cm", "/home/u/.local/bin/cm", None);
    assert_eq!(cmake_install_target(&config, "/w/cm/build/bin/cm-gui", Platform::Unix), "/home/u/.local/bin/cm-gui");
    let named = cmake_config("/w/cm", "/home/u/.local/bin/tool", Some("tool"));
    assert_eq!(cmake_install_target(&named, "/w/cm/build/bin/cm-gui", Platform::Unix), "/home/u/.local/bin/tool");
}

fn entry(path: &str, is_dir: bool, meta: Option<(bool, i128)>) -> EntryInfo {
    EntryInfo {
        path: path.to_string(),
        name: path.rsplit('/').next().unwrap().to_string(),
        is_dir,
        is_file: !is_dir,
        meta,
    }
}

#[test]
fn search_visits_roots_in_turn_breadth_first() {
    let mut search = ExecutableSearch::new(String::from("/b"), Some(String::from("/b/rundir")));
    assert_eq!(search.next_directory(), Some((String::from("/b/rundir"), 0)));
    search.visit(0, entry("/b/rundir/one", true, None));
    search.visit(0, entry("/b/rundir/CMakeFiles", true, None));
    search.visit(0, entry("/b/rundir/two", true, None));
    search.visit(0, entry("/b/rundir/tool", false, Some((true, 5))));
    search.visit(0, entry("/b/rundir/lib.so", false, Some((true, 9))));
    search.visit(0, entry("/b/rundir/notes", false, Some((false, 9))));
    search.visit(0, entry("/b/rundir/nometa", false, None));
    assert_eq!(search.next_directory(), Some((String::from("/b/rundir/one"), 1)));
    search.visit(1, entry("/b/rundir/one/deeper", true, None));
    assert_eq!(search.next_directory(), Some((String::from("/b/rundir/two"), 1)));
    assert_eq!(search.next_directory(), Some((String::from("/b/rundir/one/deeper"), 2)));
    assert_eq!(search.next_directory(), Some((String::from("/b"), 0)));
    search.visit(MAX_DISCOVERY_DEPTH, entry("/b/too-deep", true, None));
    search.visit(0, entry("/b/bin/x", false, Some((true, 100))));
    assert_eq!(search.next_directory(), None);
    assert_eq!(search.next_directory(), None);
    assert_eq!(search.finish(), Some(String::from("/b/rundir/tool")));
}

#[test]
fn search_without_executables_finds_nothing() {
    let mut search = ExecutableSearch::new(String::from("/b"), None);
    assert_eq!(search.next_directory(), Some((String::from("/b"), 0)));
    search.visit(0, entry("/b/a.o", false, Some((true, 1))));
    assert_eq!(search.next_directory(), None);
    assert_eq!(search.finish(), None);
}

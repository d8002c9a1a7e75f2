//! Build-system detection and construction of the build commands.
use vstd::prelude::*;

use crate::config::ApplicationConfig;
use crate::error::io_error_text;
use crate::paths::{file_name, has_extension, join, spec_file_name, spec_join, spec_last_dot};
use crate::text::{decimal, lowercase, spec_decimal, spec_lowercase, str_equal};

verus! {

/// A build tool that `bti` knows how to drive.
#[derive(Debug, Clone, Copy, PartialEq, Eq, Structural)]
pub enum BuildCommand {
    Cargo,
    Cmake,
    Npm,
    Bun,
    Zig,
    Maven,
    MavenW,
    Gradle,
    GradleW,
    Go,
}

impl BuildCommand {
    /// The program that is run for this build tool.
    pub open spec fn spec_program(self) -> Seq<char> {
        match self {
            BuildCommand::Cargo => "cargo"@,
            BuildCommand::Cmake => "cmake"@,
            BuildCommand::Npm => "npm"@,
            BuildCommand::Bun => "bun"@,
            BuildCommand::Zig => "zig"@,
            BuildCommand::Maven => "mvn"@,
            BuildCommand::MavenW => "mvnw"@,
            BuildCommand::Gradle => "gradle"@,
            BuildCommand::GradleW => "gradlew"@,
            BuildCommand::Go => "go"@,
        }
    }

    /// The program that is run for this build tool.
    pub fn program(&self) -> (r: &'static str)
        ensures
            r@ == self.spec_program(),
    {
        match self {
            BuildCommand::Cargo => "cargo",
            BuildCommand::Cmake => "cmake",
            BuildCommand::Npm => "npm",
            BuildCommand::Bun => "bun",
            BuildCommand::Zig => "zig",
            BuildCommand::Maven => "mvn",
            BuildCommand::MavenW => "mvnw",
            BuildCommand::Gradle => "gradle",
            BuildCommand::GradleW => "gradlew",
            BuildCommand::Go => "go",
        }
    }
}

/// The kind of system the binary is built for.
#[derive(Debug, Clone, Copy, PartialEq, Eq, Structural)]
pub enum Platform {
    Windows,
    Unix,
}

/// The name of the binary a project builds: the project name, and on
/// Windows with `.exe` added when the name has no extension.
pub open spec fn spec_binary_name(platform: Platform, project: Seq<char>) -> Seq<char> {
    match platform {
        Platform::Unix => project,
        Platform::Windows => if spec_file_name(project) matches Some(name) && spec_last_dot(name)
            > 0 {
            project
        } else {
            project + ".exe"@
        },
    }
}

/// The name of the binary a project builds.
pub fn binary_name_for(platform: Platform, project: &str) -> (r: String)
    ensures
        r@ == spec_binary_name(platform, project@),
{
    match platform {
        Platform::Unix => String::from_str(project),
        Platform::Windows => if has_extension(project) {
            String::from_str(project)
        } else {
            String::from_str(project).concat(".exe")
        },
    }
}

/// Errors while planning or running a build.
#[derive(Debug)]
pub enum BuildError {
    InvalidPath,
    Io(std::io::Error),
    BuildFailed { command: String, status: String },
    UnsupportedBuildSystem(String),
}

impl BuildError {
    /// The message shown for every error that does not wrap an I/O error.
    pub open spec fn spec_message(&self) -> Seq<char> {
        match self {
            BuildError::InvalidPath => "The provided path is not a valid directory."@,
            BuildError::Io(_) => Seq::empty(),
            BuildError::BuildFailed { command, status } => "Build command '"@ + command@
                + "' failed with "@ + status@,
            BuildError::UnsupportedBuildSystem(p) => "No supported build system found in "@
                + p@,
        }
    }

    /// The message, given the text of the wrapped I/O error where there is
    /// one: "Build I/O error: " followed by that text.
    pub open spec fn spec_message_with(&self, io_text: Seq<char>) -> Seq<char> {
        match self {
            BuildError::Io(_) => "Build I/O error: "@ + io_text,
            _ => self.spec_message(),
        }
    }

    /// The message of this error when the wrapped I/O error, if any, reads
    /// `io_text`.
    pub fn message_with_io_text(&self, io_text: &str) -> (r: String)
        ensures
            r@ == self.spec_message_with(io_text@),
    {
        match self {
            BuildError::InvalidPath => String::from_str(
                "The provided path is not a valid directory.",
            ),
            BuildError::Io(_) => {
                let r = String::from_str("Build I/O error: ").concat(io_text);
                assert(r@ == "Build I/O error: "@ + io_text@);
                r
            },
            BuildError::BuildFailed { command, status } => String::from_str(
                "Build command '",
            ).concat(command.as_str()).concat("' failed with ").concat(status.as_str()),
            BuildError::UnsupportedBuildSystem(p) => String::from_str(
                "No supported build system found in ",
            ).concat(p.as_str()),
        }
    }

    /// The user-facing message of this error; for `Io` it is
    /// "Build I/O error: " followed by the I/O error's text, which the
    /// platform supplies.
    pub fn message(&self) -> (r: String)
        ensures
            exists|t: Seq<char>| r@ == self.spec_message_with(t),
            !(self is Io) ==> r@ == self.spec_message(),
            self is Io ==> exists|t: Seq<char>| r@ == "Build I/O error: "@ + t,
    {
        let text = match self {
            BuildError::Io(e) => io_error_text(e),
            _ => String::new(),
        };
        self.message_with_io_text(text.as_str())
    }
}

impl From<std::io::Error> for BuildError {
    fn from(e: std::io::Error) -> (r: BuildError) {
        BuildError::Io(e)
    }
}

impl vstd::std_specs::convert::FromSpecImpl<std::io::Error> for BuildError {
    open spec fn obeys_from_spec() -> bool {
        true
    }

    open spec fn from_spec(v: std::io::Error) -> BuildError {
        BuildError::Io(v)
    }
}

/// The build tool that a (lower-cased) file name announces, if any.
pub open spec fn spec_command_for_file(lower: Seq<char>) -> Option<BuildCommand> {
    if lower == "cargo.toml"@ {
        Some(BuildCommand::Cargo)
    } else if lower == "cmakelists.txt"@ {
        Some(BuildCommand::Cmake)
    } else if lower == "pom.xml"@ {
        Some(BuildCommand::Maven)
    } else if lower == "mvnw"@ || lower == "mvnw.cmd"@ {
        Some(BuildCommand::MavenW)
    } else if lower == "build.gradle"@ || lower == "build.gradle.kts"@ {
        Some(BuildCommand::Gradle)
    } else if lower == "gradlew"@ || lower == "gradlew.bat"@ {
        Some(BuildCommand::GradleW)
    } else if lower == "package.json"@ {
        Some(BuildCommand::Npm)
    } else if lower == "bun.lockb"@ {
        Some(BuildCommand::Bun)
    } else if lower == "build.zig"@ {
        Some(BuildCommand::Zig)
    } else if lower == "go.mod"@ {
        Some(BuildCommand::Go)
    } else {
        None
    }
}

/// The build files and the tools they announce: `Cargo.toml` is Cargo,
/// `CMakeLists.txt` CMake, `pom.xml` Maven, `mvnw`/`mvnw.cmd` the Maven
/// wrapper, `build.gradle`/`build.gradle.kts` Gradle, `gradlew`/`gradlew.bat`
/// the Gradle wrapper, `package.json` npm, `bun.lockb` Bun, `build.zig` Zig
/// and `go.mod` Go (names compared in lower case); no other name announces
/// a tool.
pub proof fn lemma_build_file_table(lower: Seq<char>)
    ensures
        spec_command_for_file(lower) == Some(BuildCommand::Cargo) <==> lower == "cargo.toml"@,
        spec_command_for_file(lower) == Some(BuildCommand::Cmake) <==> lower == "cmakelists.txt"@,
        spec_command_for_file(lower) == Some(BuildCommand::Maven) <==> lower == "pom.xml"@,
        spec_command_for_file(lower) == Some(BuildCommand::MavenW) <==> (lower == "mvnw"@ || lower
            == "mvnw.cmd"@),
        spec_command_for_file(lower) == Some(BuildCommand::Gradle) <==> (lower == "build.gradle"@
            || lower == "build.gradle.kts"@),
        spec_command_for_file(lower) == Some(BuildCommand::GradleW) <==> (lower == "gradlew"@
            || lower == "gradlew.bat"@),
        spec_command_for_file(lower) == Some(BuildCommand::Npm) <==> lower == "package.json"@,
        spec_command_for_file(lower) == Some(BuildCommand::Bun) <==> lower == "bun.lockb"@,
        spec_command_for_file(lower) == Some(BuildCommand::Zig) <==> lower == "build.zig"@,
        spec_command_for_file(lower) == Some(BuildCommand::Go) <==> lower == "go.mod"@,
{
    reveal_strlit("cargo.toml");
    reveal_strlit("cmakelists.txt");
    reveal_strlit("pom.xml");
    reveal_strlit("mvnw");
    reveal_strlit("mvnw.cmd");
    reveal_strlit("build.gradle");
    reveal_strlit("build.gradle.kts");
    reveal_strlit("gradlew");
    reveal_strlit("gradlew.bat");
    reveal_strlit("package.json");
    reveal_strlit("bun.lockb");
    reveal_strlit("build.zig");
    reveal_strlit("go.mod");
    assert("cargo.toml"@.len() == 10);
    assert("cmakelists.txt"@.len() == 14);
    assert("pom.xml"@.len() == 7);
    assert("mvnw"@.len() == 4);
    assert("mvnw.cmd"@.len() == 8);
    assert("build.gradle"@.len() == 12);
    assert("build.gradle.kts"@.len() == 16);
    assert("gradlew"@.len() == 7);
    assert("gradlew.bat"@.len() == 11);
    assert("package.json"@.len() == 12);
    assert("bun.lockb"@.len() == 9);
    assert("build.zig"@.len() == 9);
    assert("go.mod"@.len() == 6);
    assert("pom.xml"@[0] != "gradlew"@[0]);
    assert("build.gradle"@[0] != "package.json"@[0]);
    assert("bun.lockb"@[2] != "build.zig"@[2]);
}

/// The build tool of the first directory entry, in listing order, whose
/// lower-cased name announces one.
pub open spec fn spec_detect(names: Seq<Seq<char>>) -> Option<BuildCommand>
    decreases names.len(),
{
    if names.len() == 0 {
        None
    } else {
        match spec_command_for_file(spec_lowercase(names[0])) {
            Some(c) => Some(c),
            None => spec_detect(names.drop_first()),
        }
    }
}

/// Detection finds a build tool exactly when some entry's lower-cased name
/// announces one, and then it is the tool of the first such entry.
pub proof fn lemma_detect_first_match(names: Seq<Seq<char>>)
    ensures
        spec_detect(names) is Some <==> exists|i: int|
            0 <= i < names.len() && (#[trigger] spec_command_for_file(
                spec_lowercase(names[i]),
            )) is Some,
        spec_detect(names) matches Some(c) ==> exists|i: int|
            0 <= i < names.len() && #[trigger] spec_command_for_file(spec_lowercase(names[i]))
                == Some(c) && forall|j: int|
                0 <= j < i ==> (#[trigger] spec_command_for_file(
                    spec_lowercase(names[j]),
                )) is None,
    decreases names.len(),
{
    if names.len() > 0 {
        let rest = names.drop_first();
        lemma_detect_first_match(rest);
        if spec_command_for_file(spec_lowercase(names[0])) is None {
            if spec_detect(rest) is Some {
                let k = choose|i: int|
                    0 <= i < rest.len() && #[trigger] spec_command_for_file(spec_lowercase(rest[i]))
                        == spec_detect(rest) && forall|j: int|
                        0 <= j < i ==> (#[trigger] spec_command_for_file(
                            spec_lowercase(rest[j]),
                        )) is None;
                assert(names[k + 1] == rest[k]);
                assert forall|j: int| 0 <= j < k + 1 implies (#[trigger] spec_command_for_file(
                    spec_lowercase(names[j]),
                )) is None by {
                    if j > 0 {
                        assert(names[j] == rest[j - 1]);
                    }
                }
            } else {
                assert forall|i: int| 0 <= i < names.len() implies (#[trigger] spec_command_for_file(
                    spec_lowercase(names[i]),
                )) is None by {
                    if i > 0 {
                        assert(names[i] == rest[i - 1]);
                    }
                }
            }
        }
    }
}

/// Once an entry announces a build tool, entries listed after it do not
/// change what is detected.
pub proof fn lemma_detect_ignores_later_entries(names: Seq<Seq<char>>, later: Seq<Seq<char>>)
    requires
        spec_detect(names) is Some,
    ensures
        spec_detect(names + later) == spec_detect(names),
    decreases names.len(),
{
    assert((names + later)[0] == names[0]);
    if spec_command_for_file(spec_lowercase(names[0])) is None {
        assert((names + later).drop_first() =~= names.drop_first() + later);
        lemma_detect_ignores_later_entries(names.drop_first(), later);
    }
}

/// The arguments passed to the build tool when the user gave none.
pub open spec fn spec_default_args(cmd: BuildCommand, cores: Seq<char>, project: Seq<char>) -> Seq<
    Seq<char>,
> {
    match cmd {
        BuildCommand::Cargo => seq!["build"@, "--release"@, "-j"@, cores],
        BuildCommand::Cmake => seq!["--build"@, "build"@, "--config"@, "Release"@, "-j"@, cores],
        BuildCommand::Zig => seq!["build"@, "-Doptimize=ReleaseSafe"@, "-j"@, cores],
        BuildCommand::Maven | BuildCommand::MavenW => seq![
            "clean"@,
            "verify"@,
            "-T"@,
            cores,
            "-DskipTests"@,
            "-P"@,
            "release"@,
        ],
        BuildCommand::Gradle | BuildCommand::GradleW => seq![
            "clean"@,
            "build"@,
            "--configuration-cache"@,
            "--parallel"@,
            "--max-workers="@ + cores,
            "-PbuildType=release"@,
        ],
        BuildCommand::Npm | BuildCommand::Bun => seq!["run"@, "build"@],
        BuildCommand::Go => seq![
            "build"@,
            "-p"@,
            cores,
            "-ldflags=-s -w"@,
            "-o"@,
            "bin/"@ + project,
            "."@,
        ],
    }
}

/// The arguments of the CMake configure step that precedes a default CMake build.
pub open spec fn spec_cmake_configure_args() -> Seq<Seq<char>> {
    seq!["-S"@, "."@, "-B"@, "build"@, "-DCMAKE_BUILD_TYPE=Release"@]
}

/// Where, relative to the project directory, the build tool leaves its output.
pub open spec fn spec_output_dir(cmd: BuildCommand, platform: Platform, project_dir: Seq<char>) -> Seq<
    char,
> {
    match cmd {
        BuildCommand::Cargo => "target/release"@,
        BuildCommand::Cmake => match platform {
            Platform::Windows => spec_join("build"@, "Release"@),
            Platform::Unix => "build"@,
        },
        BuildCommand::Zig => "zig-out/bin"@,
        BuildCommand::Maven | BuildCommand::MavenW => project_dir,
        BuildCommand::Gradle | BuildCommand::GradleW => project_dir,
        BuildCommand::Npm | BuildCommand::Bun => "dist"@,
        BuildCommand::Go => "bin"@,
    }
}

/// The characters of an optional list of strings.
pub open spec fn opt_vec_view(o: Option<Vec<String>>) -> Option<Seq<Seq<char>>> {
    match o {
        Some(v) => Some(v.deep_view()),
        None => None,
    }
}

/// A fully planned build: what to run, where, and where the result goes.
#[derive(Debug)]
pub struct BuildConfig {
    pub command: BuildCommand,
    pub args: Vec<String>,
    pub configure_args: Option<Vec<String>>,
    pub build_file_path: String,
    pub target_release_path: String,
    pub target_binary_install_path: String,
    pub binary_name: String,
}

/// One run of a build tool in the project directory.
#[derive(Debug)]
pub struct Invocation {
    pub command: BuildCommand,
    pub args: Vec<String>,
    pub current_dir: String,
}

/// The build tool that the first matching directory entry announces.
pub fn detect_build_command(names: &Vec<String>) -> (r: Option<BuildCommand>)
    ensures
        r == spec_detect(names.deep_view()),
{
    let n = names.len();
    let mut i: usize = 0;
    assert(names.deep_view().skip(0) =~= names.deep_view());
    while i < n
        invariant
            n == names.len(),
            i <= n,
            spec_detect(names.deep_view()) == spec_detect(names.deep_view().skip(i as int)),
        decreases n - i,
    {
        let lower = lowercase(names[i].as_str());
        let found = command_for_file(lower.as_str());
        assert(names.deep_view().skip(i as int)[0] == names[i as int]@);
        if found.is_some() {
            return found;
        }
        assert(names.deep_view().skip(i as int).drop_first() =~= names.deep_view().skip(
            i + 1,
        ));
        i = i + 1;
    }
    None
}

/// The build tool that a lower-cased file name announces.
pub fn command_for_file(lower: &str) -> (r: Option<BuildCommand>)
    ensures
        r == spec_command_for_file(lower@),
{
    if str_equal(lower, "cargo.toml") {
        Some(BuildCommand::Cargo)
    } else if str_equal(lower, "cmakelists.txt") {
        Some(BuildCommand::Cmake)
    } else if str_equal(lower, "pom.xml") {
        Some(BuildCommand::Maven)
    } else if str_equal(lower, "mvnw") || str_equal(lower, "mvnw.cmd") {
        Some(BuildCommand::MavenW)
    } else if str_equal(lower, "build.gradle") || str_equal(lower, "build.gradle.kts") {
        Some(BuildCommand::Gradle)
    } else if str_equal(lower, "gradlew") || str_equal(lower, "gradlew.bat") {
        Some(BuildCommand::GradleW)
    } else if str_equal(lower, "package.json") {
        Some(BuildCommand::Npm)
    } else if str_equal(lower, "bun.lockb") {
        Some(BuildCommand::Bun)
    } else if str_equal(lower, "build.zig") {
        Some(BuildCommand::Zig)
    } else if str_equal(lower, "go.mod") {
        Some(BuildCommand::Go)
    } else {
        None
    }
}

fn owned(s: &str) -> (r: String)
    ensures
        r@ == s@,
{
    String::from_str(s)
}

/// The arguments passed to the build tool when the user gave none.
pub fn default_args(cmd: BuildCommand, cores: &str, project: &str) -> (r: Vec<String>)
    ensures
        r.deep_view() == spec_default_args(cmd, cores@, project@),
{
    let r = match cmd {
        BuildCommand::Cargo => vec![owned("build"), owned("--release"), owned("-j"), owned(cores)],
        BuildCommand::Cmake => vec![
            owned("--build"),
            owned("build"),
            owned("--config"),
            owned("Release"),
            owned("-j"),
            owned(cores),
        ],
        BuildCommand::Zig => vec![
            owned("build"),
            owned("-Doptimize=ReleaseSafe"),
            owned("-j"),
            owned(cores),
        ],
        BuildCommand::Maven | BuildCommand::MavenW => vec![
            owned("clean"),
            owned("verify"),
            owned("-T"),
            owned(cores),
            owned("-DskipTests"),
            owned("-P"),
            owned("release"),
        ],
        BuildCommand::Gradle | BuildCommand::GradleW => vec![
            owned("clean"),
            owned("build"),
            owned("--configuration-cache"),
            owned("--parallel"),
            owned("--max-workers=").concat(cores),
            owned("-PbuildType=release"),
        ],
        BuildCommand::Npm | BuildCommand::Bun => vec![owned("run"), owned("build")],
        BuildCommand::Go => vec![
            owned("build"),
            owned("-p"),
            owned(cores),
            owned("-ldflags=-s -w"),
            owned("-o"),
            owned("bin/").concat(project),
            owned("."),
        ],
    };
    assert(r.deep_view() =~= spec_default_args(cmd, cores@, project@));
    r
}

/// The arguments of the CMake configure step.
pub fn cmake_configure_args() -> (r: Vec<String>)
    ensures
        r.deep_view() == spec_cmake_configure_args(),
{
    let r = vec![
        owned("-S"),
        owned("."),
        owned("-B"),
        owned("build"),
        owned("-DCMAKE_BUILD_TYPE=Release"),
    ];
    assert(r.deep_view() =~= spec_cmake_configure_args());
    r
}

/// Where, relative to the project directory, the build tool leaves its output.
pub fn output_dir(cmd: BuildCommand, platform: Platform, project_dir: &str) -> (r: String)
    ensures
        r@ == spec_output_dir(cmd, platform, project_dir@),
{
    match cmd {
        BuildCommand::Cargo => owned("target/release"),
        BuildCommand::Cmake => match platform {
            Platform::Windows => join("build", "Release"),
            Platform::Unix => owned("build"),
        },
        BuildCommand::Zig => owned("zig-out/bin"),
        BuildCommand::Maven | BuildCommand::MavenW => owned(project_dir),
        BuildCommand::Gradle | BuildCommand::GradleW => owned(project_dir),
        BuildCommand::Npm | BuildCommand::Bun => owned("dist"),
        BuildCommand::Go => owned("bin"),
    }
}

fn clone_strings(v: &Vec<String>) -> (r: Vec<String>)
    ensures
        r.deep_view() == v.deep_view(),
{
    let mut out: Vec<String> = Vec::new();
    let n = v.len();
    let mut i: usize = 0;
    while i < n
        invariant
            n == v.len(),
            i <= n,
            out@.len() == i,
            forall|j: int| 0 <= j < i ==> out@[j]@ == v@[j]@,
        decreases n - i,
    {
        let s = v[i].clone();
        out.push(s);
        i = i + 1;
    }
    assert(out.deep_view() =~= v.deep_view());
    out
}

impl BuildConfig {
    /// The planned build for a detected tool: the user's arguments when they
    /// gave any, otherwise the tool's defaults (and, for CMake, a configure
    /// step); the compiled binary is expected in the tool's output directory.
    pub open spec fn spec_planned(
        self,
        app: ApplicationConfig,
        command: BuildCommand,
        platform: Platform,
        project: Seq<char>,
        cores: Seq<char>,
    ) -> bool {
        let user_args = app.build_args.deep_view();
        let binary = match app.binary_name {
            Some(b) => b@,
            None => spec_binary_name(platform, project),
        };
        &&& self.command == command
        &&& self.args.deep_view() == if user_args.len() == 0 {
            spec_default_args(command, cores, spec_binary_name(platform, project))
        } else {
            user_args
        }
        &&& opt_vec_view(self.configure_args) == if user_args.len() == 0 && command
            == BuildCommand::Cmake {
            Some(spec_cmake_configure_args())
        } else {
            None
        }
        &&& self.build_file_path@ == app.build_file_path@
        &&& self.binary_name@ == binary
        &&& self.target_release_path@ == spec_join(
            spec_join(
                app.build_file_path@,
                spec_output_dir(command, platform, app.build_file_path@),
            ),
            binary,
        )
        &&& self.target_binary_install_path@ == app.binary_install_path@
    }

    /// Build arguments given by the user replace the tool's defaults
    /// entirely, for every tool: they are passed unchanged and no configure
    /// step is run.
    pub proof fn lemma_user_args_override(
        self,
        app: ApplicationConfig,
        command: BuildCommand,
        platform: Platform,
        project: Seq<char>,
        cores: Seq<char>,
    )
        requires
            self.spec_planned(app, command, platform, project, cores),
            app.build_args@.len() > 0,
        ensures
            self.args.deep_view() == app.build_args.deep_view(),
            self.configure_args is None,
    {
    }

    /// Without build arguments from the user, each tool runs with its
    /// release defaults: `cargo build --release -j N`; `cmake --build build
    /// --config Release -j N` after `cmake -S . -B build
    /// -DCMAKE_BUILD_TYPE=Release`; `zig build -Doptimize=ReleaseSafe -j N`;
    /// `mvn`/`mvnw clean verify -T N -DskipTests -P release`;
    /// `gradle`/`gradlew clean build --configuration-cache --parallel
    /// --max-workers=N -PbuildType=release`; `npm`/`bun run build`; and
    /// `go build -p N -ldflags=-s -w -o bin/<binary> .`. Only CMake has a
    /// configure step.
    pub proof fn lemma_default_build_args(
        self,
        app: ApplicationConfig,
        command: BuildCommand,
        platform: Platform,
        project: Seq<char>,
        cores: Seq<char>,
    )
        requires
            self.spec_planned(app, command, platform, project, cores),
            app.build_args@.len() == 0,
        ensures
            self.command == command,
            command == BuildCommand::Cargo ==> self.command.spec_program() == "cargo"@
                && self.args.deep_view() == seq!["build"@, "--release"@, "-j"@, cores],
            command == BuildCommand::Cmake ==> self.command.spec_program() == "cmake"@
                && self.args.deep_view() == seq![
                "--build"@,
                "build"@,
                "--config"@,
                "Release"@,
                "-j"@,
                cores,
            ] && opt_vec_view(self.configure_args) == Some(
                seq!["-S"@, "."@, "-B"@, "build"@, "-DCMAKE_BUILD_TYPE=Release"@],
            ),
            command != BuildCommand::Cmake ==> self.configure_args is None,
            command == BuildCommand::Zig ==> self.command.spec_program() == "zig"@
                && self.args.deep_view() == seq!["build"@, "-Doptimize=ReleaseSafe"@, "-j"@, cores],
            command == BuildCommand::Maven ==> self.command.spec_program() == "mvn"@,
            command == BuildCommand::MavenW ==> self.command.spec_program() == "mvnw"@,
            command == BuildCommand::Maven || command == BuildCommand::MavenW
                ==> self.args.deep_view() == seq![
                "clean"@,
                "verify"@,
                "-T"@,
                cores,
                "-DskipTests"@,
                "-P"@,
                "release"@,
            ],
            command == BuildCommand::Gradle ==> self.command.spec_program() == "gradle"@,
            command == BuildCommand::GradleW ==> self.command.spec_program() == "gradlew"@,
            command == BuildCommand::Gradle || command == BuildCommand::GradleW
                ==> self.args.deep_view() == seq![
                "clean"@,
                "build"@,
                "--configuration-cache"@,
                "--parallel"@,
                "--max-workers="@ + cores,
                "-PbuildType=release"@,
            ],
            command == BuildCommand::Npm ==> self.command.spec_program() == "npm"@,
            command == BuildCommand::Bun ==> self.command.spec_program() == "bun"@,
            command == BuildCommand::Npm || command == BuildCommand::Bun ==> self.args.deep_view()
                == seq!["run"@, "build"@],
            command == BuildCommand::Go ==> self.command.spec_program() == "go"@
                && self.args.deep_view() == seq![
                "build"@,
                "-p"@,
                cores,
                "-ldflags=-s -w"@,
                "-o"@,
                "bin/"@ + spec_binary_name(platform, project),
                "."@,
            ],
    {
    }

    /// The binary is expected where each tool leaves its release output,
    /// under the project directory: `target/release` for Cargo, `build` for
    /// CMake (`build/Release` on Windows), `zig-out/bin` for Zig, the project
    /// directory itself for Maven and Gradle, `dist` for npm and Bun, and
    /// `bin` for Go.
    pub proof fn lemma_release_output_location(
        self,
        app: ApplicationConfig,
        command: BuildCommand,
        platform: Platform,
        project: Seq<char>,
        cores: Seq<char>,
    )
        requires
            self.spec_planned(app, command, platform, project, cores),
        ensures
            self.target_release_path@ == spec_join(
                spec_join(
                    app.build_file_path@,
                    match command {
                        BuildCommand::Cargo => "target/release"@,
                        BuildCommand::Cmake => if platform == Platform::Windows {
                            spec_join("build"@, "Release"@)
                        } else {
                            "build"@
                        },
                        BuildCommand::Zig => "zig-out/bin"@,
                        BuildCommand::Maven | BuildCommand::MavenW | BuildCommand::Gradle
                        | BuildCommand::GradleW => app.build_file_path@,
                        BuildCommand::Npm | BuildCommand::Bun => "dist"@,
                        BuildCommand::Go => "bin"@,
                    },
                ),
                self.binary_name@,
            ),
    {
    }

    /// Plans the build of the project at `application_config.build_file_path`.
    ///
    /// `entries` is the listing of the project directory (entry names in
    /// listing order) and `cores` the available parallelism. When the plan
    /// has `configure_args`, the caller creates the project's `build`
    /// directory before building. `platform` is the system built for.
    pub fn build(
        application_config: ApplicationConfig,
        entries: Result<Vec<String>, std::io::Error>,
        cores: Result<usize, std::io::Error>,
        platform: Platform,
    ) -> (r: Result<BuildConfig, BuildError>)
        ensures
            spec_file_name(application_config.build_file_path@) is None ==> r matches Err(
                BuildError::InvalidPath,
            ),
            spec_file_name(application_config.build_file_path@) is Some ==> match entries {
                Err(e) => r == Err::<BuildConfig, BuildError>(BuildError::Io(e)),
                Ok(names) => match spec_detect(names.deep_view()) {
                    None => r matches Err(BuildError::UnsupportedBuildSystem(p)) && p@
                        == application_config.build_file_path@,
                    Some(command) => match cores {
                        Err(e) => r == Err::<BuildConfig, BuildError>(BuildError::Io(e)),
                        Ok(n) => r matches Ok(c) && c.spec_planned(
                            application_config,
                            command,
                            platform,
                            spec_file_name(application_config.build_file_path@).unwrap(),
                            spec_decimal(n as nat),
                        ),
                    },
                },
            },
    {
        let project = match file_name(application_config.build_file_path.as_str()) {
            Some(p) => p,
            None => return Err(BuildError::InvalidPath),
        };
        let names = match entries {
            Ok(names) => names,
            Err(e) => return Err(BuildError::Io(e)),
        };
        let command = match detect_build_command(&names) {
            Some(c) => c,
            None => return Err(
                BuildError::UnsupportedBuildSystem(application_config.build_file_path.clone()),
            ),
        };
        let num_cores = match cores {
            Ok(n) => decimal(n),
            Err(e) => return Err(BuildError::Io(e)),
        };
        let project_binary = binary_name_for(platform, project.as_str());
        let user_given = application_config.build_args.len() > 0;
        let args = if user_given {
            clone_strings(&application_config.build_args)
        } else {
            default_args(command, num_cores.as_str(), project_binary.as_str())
        };
        let configure_args = if !user_given && command == BuildCommand::Cmake {
            Some(cmake_configure_args())
        } else {
            None
        };
        let binary_name = match &application_config.binary_name {
            Some(b) => b.clone(),
            None => project_binary,
        };
        let out_dir = output_dir(command, platform, application_config.build_file_path.as_str());
        let release_dir = join(application_config.build_file_path.as_str(), out_dir.as_str());
        let target_release_path = join(release_dir.as_str(), binary_name.as_str());
        let ApplicationConfig { build_file_path, build_args: _, binary_install_path, binary_name: _ } =
            application_config;
        Ok(
            BuildConfig {
                command,
                args,
                configure_args,
                build_file_path,
                target_release_path,
                target_binary_install_path: binary_install_path,
                binary_name,
            },
        )
    }

    /// The build tool runs, in order, that building this plan takes: the
    /// configure step when there is one, then the build itself, all in the
    /// project directory. Running stops at the first that fails.
    pub fn invocations(&self) -> (r: Vec<Invocation>)
        ensures
            r.len() == if self.configure_args is Some { 2int } else { 1int },
            self.configure_args matches Some(cfg) ==> r[0].command == BuildCommand::Cmake
                && r[0].args.deep_view() == cfg.deep_view(),
            r[r.len() - 1].command == self.command,
            r[r.len() - 1].args.deep_view() == self.args.deep_view(),
            forall|i: int| 0 <= i < r.len() ==> r[i].current_dir@ == self.build_file_path@,
    {
        let mut r: Vec<Invocation> = Vec::new();
        match &self.configure_args {
            Some(cfg) => {
                r.push(
                    Invocation {
                        command: BuildCommand::Cmake,
                        args: clone_strings(cfg),
                        current_dir: self.build_file_path.clone(),
                    },
                );
            },
            None => {},
        }
        r.push(
            Invocation {
                command: self.command,
                args: clone_strings(&self.args),
                current_dir: self.build_file_path.clone(),
            },
        );
        r
    }
}

} // verus!

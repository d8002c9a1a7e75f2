//! The application configuration built from command-line arguments.
use vstd::prelude::*;

use crate::commands::{spec_command_listing, spec_flag_of, CommandList};
use crate::error::CliError;
use crate::paths::{
    expand_home, file_name, file_stem, join, opt_view, spec_expand_home, spec_file_name,
    spec_join, spec_stem_of,
};
use crate::text::{
    ends_with, lemma_split_whitespace_words, occurs_at, spec_ends_with, spec_is_word,
    spec_occurs_at, spec_split_whitespace, split_whitespace,
};

verus! {

/// What to build and where to install the result.
#[derive(Debug)]
pub struct ApplicationConfig {
    pub build_file_path: String,
    pub build_args: Vec<String>,
    pub binary_install_path: String,
    pub binary_name: Option<String>,
}

/// What the program does after reading its arguments.
#[derive(Debug)]
pub enum ApplicationAction {
    Build(ApplicationConfig),
    ListBinaries(Vec<String>),
    PrintMessage(String),
}


/// A setting read from the command line, in the order given.
#[derive(Debug)]
pub enum ArgDirective {
    /// `--build-path <path>`: the project directory, as typed.
    BuildPath(String),
    /// `--build-args "<args>"`: the value split on whitespace.
    BuildArgs(Vec<String>),
    /// `--compiled-path <path>`: the install directory, as typed.
    CompiledPath(String),
}

/// How the scan of the arguments ended.
#[derive(Debug)]
pub enum ScanEnd {
    /// Every argument was read: build with the settings gathered.
    Exhausted,
    /// `--list-binaries` was met.
    ListBinaries,
    /// `--version` was met.
    Version,
    /// `--help` was met.
    Help,
    /// An argument was refused.
    Failed(CliError),
}

/// The settings read from the command line, and how reading ended.
#[derive(Debug)]
pub struct ArgScan {
    pub directives: Vec<ArgDirective>,
    pub end: ScanEnd,
}

/// A setting read from the command line, as characters.
pub enum SpecDirective {
    BuildPath(Seq<char>),
    BuildArgs(Seq<Seq<char>>),
    CompiledPath(Seq<char>),
}

/// How reading the arguments ended, as characters.
pub enum SpecEnd {
    Exhausted,
    ListBinaries,
    Version,
    Help,
    MissingFlagValue(Seq<char>),
    UnknownArgument(Seq<char>),
}

impl View for ArgDirective {
    type V = SpecDirective;

    open spec fn view(&self) -> SpecDirective {
        match self {
            ArgDirective::BuildPath(p) => SpecDirective::BuildPath(p@),
            ArgDirective::BuildArgs(a) => SpecDirective::BuildArgs(a.deep_view()),
            ArgDirective::CompiledPath(p) => SpecDirective::CompiledPath(p@),
        }
    }
}

impl ScanEnd {
    /// This exec outcome is the spec outcome `e`.
    pub open spec fn agrees_with(&self, e: SpecEnd) -> bool {
        match (self, e) {
            (ScanEnd::Exhausted, SpecEnd::Exhausted) => true,
            (ScanEnd::ListBinaries, SpecEnd::ListBinaries) => true,
            (ScanEnd::Version, SpecEnd::Version) => true,
            (ScanEnd::Help, SpecEnd::Help) => true,
            (
                ScanEnd::Failed(CliError::MissingFlagValue { flag }),
                SpecEnd::MissingFlagValue(f),
            ) => flag@ == f,
            (
                ScanEnd::Failed(CliError::UnknownArgument { arg }),
                SpecEnd::UnknownArgument(a),
            ) => arg@ == a,
            _ => false,
        }
    }
}

/// The name under which a value-taking flag is reported when its value is missing.
pub open spec fn spec_value_flag_name(c: CommandList) -> Seq<char> {
    match c {
        CommandList::BuildPath => "--build-path"@,
        CommandList::BuildArgs => "--build-args"@,
        CommandList::CompiledPath => "--compiled-path"@,
        _ => Seq::empty(),
    }
}

/// Reading the arguments from the front: each value-taking flag consumes the
/// next argument; `--list-binaries`, `--version` and `--help` end the reading;
/// a missing value or an unrecognised argument is refused.
pub open spec fn spec_scan(args: Seq<Seq<char>>) -> (Seq<SpecDirective>, SpecEnd)
    decreases args.len(),
{
    if args.len() == 0 {
        (Seq::empty(), SpecEnd::Exhausted)
    } else {
        let a = args[0];
        let rest = args.drop_first();
        match spec_flag_of(a) {
            None => (Seq::empty(), SpecEnd::UnknownArgument(a)),
            Some(CommandList::ListBinaries) => (Seq::empty(), SpecEnd::ListBinaries),
            Some(CommandList::Version) => (Seq::empty(), SpecEnd::Version),
            Some(CommandList::Help) => (Seq::empty(), SpecEnd::Help),
            Some(flag) => if rest.len() == 0 {
                (Seq::empty(), SpecEnd::MissingFlagValue(spec_value_flag_name(flag)))
            } else {
                let v = rest[0];
                let tail = spec_scan(rest.drop_first());
                match flag {
                    CommandList::BuildPath => (
                        seq![SpecDirective::BuildPath(v)] + tail.0,
                        tail.1,
                    ),
                    CommandList::BuildArgs => (
                        seq![SpecDirective::BuildArgs(spec_split_whitespace(v))] + tail.0,
                        tail.1,
                    ),
                    _ => (seq![SpecDirective::CompiledPath(v)] + tail.0, tail.1),
                }
            },
        }
    }
}

/// The command line is a sequence of independent options: when a front part
/// `first` is read to its end, reading `first + rest` gives the settings of
/// `first` followed by those of `rest`, and ends as reading `rest` ends.
pub proof fn lemma_scan_concat(first: Seq<Seq<char>>, rest: Seq<Seq<char>>)
    requires
        spec_scan(first).1 is Exhausted,
    ensures
        spec_scan(first + rest).0 == spec_scan(first).0 + spec_scan(rest).0,
        spec_scan(first + rest).1 == spec_scan(rest).1,
    decreases first.len(),
{
    if first.len() == 0 {
        assert(first + rest =~= rest);
        assert(spec_scan(first).0 + spec_scan(rest).0 =~= spec_scan(rest).0);
    } else {
        let all = first + rest;
        assert(all[0] == first[0]);
        assert(all.drop_first()[0] == first.drop_first()[0]);
        assert(all.drop_first().drop_first() =~= first.drop_first().drop_first() + rest);
        lemma_scan_concat(first.drop_first().drop_first(), rest);
        let t1 = spec_scan(first.drop_first().drop_first()).0;
        let t2 = spec_scan(rest).0;
        assert forall|d: SpecDirective| seq![d] + (t1 + t2) =~= (seq![d] + t1) + t2 by {}
    }
}

/// Reading stops at `--list-binaries`, `--version`, `--help` and at a
/// refused argument: nothing after it is read.
pub proof fn lemma_scan_stops(first: Seq<Seq<char>>, rest: Seq<Seq<char>>)
    requires
        spec_scan(first).1 is ListBinaries || spec_scan(first).1 is Version || spec_scan(first).1 is Help
            || spec_scan(first).1 is UnknownArgument,
    ensures
        spec_scan(first + rest) == spec_scan(first),
    decreases first.len(),
{
    let all = first + rest;
    assert(all[0] == first[0]);
    if first.len() >= 2 {
        assert(all.drop_first()[0] == first.drop_first()[0]);
        assert(all.drop_first().drop_first() =~= first.drop_first().drop_first() + rest);
        let f = spec_flag_of(first[0]);
        if f is Some && !(f == Some(CommandList::ListBinaries) || f == Some(CommandList::Version)
            || f == Some(CommandList::Help)) {
            lemma_scan_stops(first.drop_first().drop_first(), rest);
        }
    }
}

/// The settings `args` hold, in order, and how reading them ends.
pub fn scan_arguments(args: &Vec<String>) -> (r: ArgScan)
    ensures
        r.directives@.map_values(|d: ArgDirective| d@) == spec_scan(args.deep_view()).0,
        r.end.agrees_with(spec_scan(args.deep_view()).1),
{
    let n = args.len();
    let ghost all = args.deep_view();
    let mut directives: Vec<ArgDirective> = Vec::new();
    let mut i: usize = 0;
    assert(all.skip(0) =~= all);
    while i < n
        invariant
            n == args.len(),
            all == args.deep_view(),
            i <= n,
            spec_scan(all).1 == spec_scan(all.skip(i as int)).1,
            spec_scan(all).0 == directives@.map_values(|d: ArgDirective| d@) + spec_scan(
                all.skip(i as int),
            ).0,
        decreases n - i,
    {
        let ghost rest = all.skip(i as int);
        let ghost before = directives@.map_values(|d: ArgDirective| d@);
        // Reading may stop here with the settings read so far.
        assert(before + Seq::<SpecDirective>::empty() =~= before);
        assert(rest[0] == args[i as int]@);
        assert(rest.drop_first() =~= all.skip(i + 1));
        let arg = args[i].as_str();
        let flag = CommandList::from_str(arg);
        let value_flag = match flag {
            None => {
                let end = ScanEnd::Failed(CliError::UnknownArgument { arg: args[i].clone() });
                return ArgScan { directives, end };
            },
            Some(CommandList::ListBinaries) => {
                return ArgScan { directives, end: ScanEnd::ListBinaries };
            },
            Some(CommandList::Version) => {
                return ArgScan { directives, end: ScanEnd::Version };
            },
            Some(CommandList::Help) => {
                return ArgScan { directives, end: ScanEnd::Help };
            },
            Some(f) => f,
        };
        if i + 1 >= n {
            let name: &'static str = match value_flag {
                CommandList::BuildPath => "--build-path",
                CommandList::BuildArgs => "--build-args",
                _ => "--compiled-path",
            };
            assert(name@ == spec_value_flag_name(value_flag));
            return ArgScan {
                directives,
                end: ScanEnd::Failed(CliError::MissingFlagValue { flag: name }),
            };
        }
        let value = args[i + 1].clone();
        assert(rest.drop_first()[0] == value@);
        assert(rest.drop_first().drop_first() =~= all.skip(i + 2));
        let directive = match value_flag {
            CommandList::BuildPath => ArgDirective::BuildPath(value),
            CommandList::BuildArgs => ArgDirective::BuildArgs(split_whitespace(value.as_str())),
            _ => ArgDirective::CompiledPath(value),
        };
        let ghost d = directive@;
        directives.push(directive);
        assert(directives@.map_values(|d: ArgDirective| d@) =~= before.push(d));
        assert(before + (seq![d] + spec_scan(all.skip(i + 2)).0) =~= before.push(d) + spec_scan(
            all.skip(i + 2),
        ).0);
        i = i + 2;
    }
    assert(all.skip(i as int) =~= Seq::<Seq<char>>::empty());
    assert(directives@.map_values(|d: ArgDirective| d@) + Seq::<SpecDirective>::empty()
        =~= directives@.map_values(|d: ArgDirective| d@));
    ArgScan { directives, end: ScanEnd::Exhausted }
}


/// A setting after its path, if it has one, was resolved and looked at.
#[derive(Debug)]
pub enum Setting {
    /// A `--build-path` value resolved to `path`; `is_dir` tells whether a
    /// directory is there.
    BuildPath { path: String, is_dir: bool },
    /// The words of a `--build-args` value.
    BuildArgs(Vec<String>),
    /// A `--compiled-path` value resolved to `path`; `is_dir` tells whether a
    /// directory is there.
    CompiledPath { path: String, is_dir: bool },
}

/// A resolved setting, as characters.
pub enum SpecSetting {
    BuildPath { path: Seq<char>, is_dir: bool },
    BuildArgs(Seq<Seq<char>>),
    CompiledPath { path: Seq<char>, is_dir: bool },
}

impl View for Setting {
    type V = SpecSetting;

    open spec fn view(&self) -> SpecSetting {
        match self {
            Setting::BuildPath { path, is_dir } => SpecSetting::BuildPath {
                path: path@,
                is_dir: *is_dir,
            },
            Setting::BuildArgs(w) => SpecSetting::BuildArgs(w.deep_view()),
            Setting::CompiledPath { path, is_dir } => SpecSetting::CompiledPath {
                path: path@,
                is_dir: *is_dir,
            },
        }
    }
}

/// The settings gathered so far while applying the command line.
#[derive(Debug)]
pub struct ArgState {
    pub build_file_path: String,
    pub build_args: Vec<String>,
    pub custom_install_base: Option<String>,
}

/// The gathered settings, as characters.
pub struct SpecArgState {
    pub build_file_path: Seq<char>,
    pub build_args: Seq<Seq<char>>,
    pub custom_install_base: Option<Seq<char>>,
}

impl View for ArgState {
    type V = SpecArgState;

    open spec fn view(&self) -> SpecArgState {
        SpecArgState {
            build_file_path: self.build_file_path@,
            build_args: self.build_args.deep_view(),
            custom_install_base: opt_view(self.custom_install_base),
        }
    }
}

/// A refused setting: the resolved path and the long spelling of its flag.
pub struct SpecRefusal {
    pub path: Seq<char>,
    pub flag: Seq<char>,
}

/// The state before any setting: build `current_dir` with the tool's defaults.
pub open spec fn spec_initial_state(current_dir: Seq<char>) -> SpecArgState {
    SpecArgState { build_file_path: current_dir, build_args: Seq::empty(), custom_install_base: None }
}

/// Applying one setting: a path that is a directory replaces the project or
/// install directory, a path that is not is refused under its flag's long
/// spelling, and build arguments are appended to those gathered so far.
pub open spec fn spec_apply(s: SpecArgState, setting: SpecSetting) -> Result<SpecArgState, SpecRefusal> {
    match setting {
        SpecSetting::BuildPath { path, is_dir } => if is_dir {
            Ok(SpecArgState { build_file_path: path, ..s })
        } else {
            Err(SpecRefusal { path, flag: "--build-path"@ })
        },
        SpecSetting::BuildArgs(words) => Ok(SpecArgState { build_args: s.build_args + words, ..s }),
        SpecSetting::CompiledPath { path, is_dir } => if is_dir {
            Ok(SpecArgState { custom_install_base: Some(path), ..s })
        } else {
            Err(SpecRefusal { path, flag: "--compiled-path"@ })
        },
    }
}

/// Applying settings in order, stopping at the first refusal.
pub open spec fn spec_apply_all(s: SpecArgState, settings: Seq<SpecSetting>) -> Result<
    SpecArgState,
    SpecRefusal,
>
    decreases settings.len(),
{
    if settings.len() == 0 {
        Ok(s)
    } else {
        match spec_apply(s, settings[0]) {
            Ok(t) => spec_apply_all(t, settings.drop_first()),
            Err(e) => Err(e),
        }
    }
}

/// Setting `k` is the setting read as directive `k`, with its path resolved:
/// of the same kind, and with the same words for build arguments.
pub open spec fn spec_resolves(setting: SpecSetting, directive: SpecDirective) -> bool {
    match (setting, directive) {
        (SpecSetting::BuildPath { .. }, SpecDirective::BuildPath(_)) => true,
        (SpecSetting::BuildArgs(w), SpecDirective::BuildArgs(v)) => w == v,
        (SpecSetting::CompiledPath { .. }, SpecDirective::CompiledPath(_)) => true,
        _ => false,
    }
}

/// The settings are the directives, in order, with their paths resolved.
pub open spec fn spec_all_resolve(settings: Seq<SpecSetting>, directives: Seq<SpecDirective>) -> bool {
    &&& settings.len() == directives.len()
    &&& forall|k: int| 0 <= k < settings.len() ==> spec_resolves(settings[k], directives[k])
}

/// The words of every `--build-args` value among the directives, in order.
pub open spec fn spec_build_words(directives: Seq<SpecDirective>) -> Seq<Seq<char>>
    decreases directives.len(),
{
    if directives.len() == 0 {
        Seq::empty()
    } else {
        let rest = spec_build_words(directives.drop_first());
        match directives[0] {
            SpecDirective::BuildArgs(w) => w + rest,
            _ => rest,
        }
    }
}

proof fn lemma_apply_all_build_words(
    s: SpecArgState,
    settings: Seq<SpecSetting>,
    directives: Seq<SpecDirective>,
)
    requires
        spec_all_resolve(settings, directives),
    ensures
        spec_apply_all(s, settings) matches Ok(t) ==> t.build_args == s.build_args
            + spec_build_words(directives),
    decreases settings.len(),
{
    if settings.len() == 0 {
        assert(s.build_args + spec_build_words(directives) =~= s.build_args);
    } else {
        assert(spec_resolves(settings[0], directives[0]));
        assert(spec_all_resolve(settings.drop_first(), directives.drop_first())) by {
            assert forall|k: int| 0 <= k < settings.len() - 1 implies spec_resolves(
                settings.drop_first()[k],
                directives.drop_first()[k],
            ) by {
                assert(spec_resolves(settings[k + 1], directives[k + 1]));
            }
        }
        if let Ok(t) = spec_apply(s, settings[0]) {
            lemma_apply_all_build_words(t, settings.drop_first(), directives.drop_first());
            match directives[0] {
                SpecDirective::BuildArgs(w) => {
                    assert(s.build_args + w + spec_build_words(directives.drop_first())
                        =~= s.build_args + (w + spec_build_words(directives.drop_first())));
                },
                _ => {},
            }
        }
    }
}

/// Every build argument that a command line yields is a word: none is
/// empty and none holds whitespace.
pub proof fn lemma_build_words_are_words(args: Seq<Seq<char>>)
    ensures
        forall|i: int|
            0 <= i < spec_build_words(spec_scan(args).0).len() ==> spec_is_word(
                #[trigger] spec_build_words(spec_scan(args).0)[i],
            ),
    decreases args.len(),
{
    if args.len() >= 2 {
        let f = spec_flag_of(args[0]);
        if f is Some && !(f == Some(CommandList::ListBinaries) || f == Some(CommandList::Version)
            || f == Some(CommandList::Help)) {
            let v = args.drop_first()[0];
            let tail = spec_scan(args.drop_first().drop_first()).0;
            lemma_build_words_are_words(args.drop_first().drop_first());
            let ds = spec_scan(args).0;
            assert(ds.drop_first() =~= tail);
            let tw = spec_build_words(tail);
            if f == Some(CommandList::BuildArgs) {
                let w = spec_split_whitespace(v);
                lemma_split_whitespace_words(v);
                assert(ds[0] == SpecDirective::BuildArgs(w));
                assert(spec_build_words(ds) == w + tw);
                assert forall|i: int| 0 <= i < (w + tw).len() implies spec_is_word(
                    #[trigger] (w + tw)[i],
                ) by {
                    if i >= w.len() {
                        assert((w + tw)[i] == tw[i - w.len()]);
                    }
                }
            } else {
                assert(spec_build_words(ds) == tw);
            }
        }
    }
}

/// The build arguments of a command line are the words of all its
/// `--build-args` values, in order: a later `--build-args` extends the
/// earlier ones, and without any the list is empty.
pub proof fn lemma_build_args_accumulate(
    current_dir: Seq<char>,
    args: Seq<Seq<char>>,
    settings: Seq<SpecSetting>,
)
    requires
        spec_all_resolve(settings, spec_scan(args).0),
    ensures
        spec_apply_all(spec_initial_state(current_dir), settings) matches Ok(t) ==> t.build_args
            == spec_build_words(spec_scan(args).0),
{
    lemma_apply_all_build_words(spec_initial_state(current_dir), settings, spec_scan(args).0);
    assert(Seq::<Seq<char>>::empty() + spec_build_words(spec_scan(args).0) =~= spec_build_words(
        spec_scan(args).0,
    ));
}

/// A command line that names, with `--build-path`/`--bp` or
/// `--compiled-path`/`--cp`, a path that resolves to something other than a
/// directory is refused with that resolved path and the flag's long spelling.
pub proof fn lemma_path_not_a_directory(
    current_dir: Seq<char>,
    args: Seq<Seq<char>>,
    setting: SpecSetting,
)
    requires
        args.len() == 2,
        spec_flag_of(args[0]) == Some(CommandList::BuildPath) || spec_flag_of(args[0]) == Some(
            CommandList::CompiledPath,
        ),
        spec_all_resolve(seq![setting], spec_scan(args).0),
        setting matches SpecSetting::BuildPath { is_dir, .. } ==> !is_dir,
        setting matches SpecSetting::CompiledPath { is_dir, .. } ==> !is_dir,
    ensures
        spec_scan(args).1 is Exhausted,
        spec_apply_all(spec_initial_state(current_dir), seq![setting]) matches Err(e) && e.flag == (
        if spec_flag_of(args[0]) == Some(CommandList::BuildPath) {
            "--build-path"@
        } else {
            "--compiled-path"@
        }) && e.path == match setting {
            SpecSetting::BuildPath { path, .. } => path,
            SpecSetting::CompiledPath { path, .. } => path,
            SpecSetting::BuildArgs(_) => Seq::empty(),
        },
{
    assert(args.drop_first().drop_first() =~= Seq::<Seq<char>>::empty());
    assert(spec_scan(args.drop_first().drop_first()).1 is Exhausted);
    assert(spec_resolves(seq![setting][0], spec_scan(args).0[0]));
}

/// The path of the last `--build-path` setting, or `current` when there is none.
pub open spec fn spec_last_build_path(settings: Seq<SpecSetting>, current: Seq<char>) -> Seq<char>
    decreases settings.len(),
{
    if settings.len() == 0 {
        current
    } else {
        spec_last_build_path(
            settings.drop_first(),
            match settings[0] {
                SpecSetting::BuildPath { path, .. } => path,
                _ => current,
            },
        )
    }
}

/// The path of the last `--compiled-path` setting, or `current` when there is none.
pub open spec fn spec_last_compiled_path(settings: Seq<SpecSetting>, current: Option<Seq<char>>) -> Option<
    Seq<char>,
>
    decreases settings.len(),
{
    if settings.len() == 0 {
        current
    } else {
        spec_last_compiled_path(
            settings.drop_first(),
            match settings[0] {
                SpecSetting::CompiledPath { path, .. } => Some(path),
                _ => current,
            },
        )
    }
}

/// Every path setting names a directory.
pub open spec fn spec_all_directories(settings: Seq<SpecSetting>) -> bool {
    forall|k: int|
        0 <= k < settings.len() ==> match #[trigger] settings[k] {
            SpecSetting::BuildPath { is_dir, .. } => is_dir,
            SpecSetting::CompiledPath { is_dir, .. } => is_dir,
            SpecSetting::BuildArgs(_) => true,
        }
}

/// Where the binary of a project gathered in `s` is installed: the
/// `--compiled-path` directory, or else `default_base`, joined with the
/// project directory's name; none when the project path has no file name.
pub open spec fn spec_install_path(s: SpecArgState, default_base: Seq<char>) -> Option<Seq<char>> {
    match spec_file_name(s.build_file_path) {
        Some(project) => Some(
            spec_join(
                match s.custom_install_base {
                    Some(b) => b,
                    None => default_base,
                },
                project,
            ),
        ),
        None => None,
    }
}

proof fn lemma_apply_all_fields(s: SpecArgState, settings: Seq<SpecSetting>)
    ensures
        spec_apply_all(s, settings) is Ok <==> spec_all_directories(settings),
        spec_apply_all(s, settings) matches Ok(t) ==> t.build_file_path == spec_last_build_path(
            settings,
            s.build_file_path,
        ) && t.custom_install_base == spec_last_compiled_path(settings, s.custom_install_base),
    decreases settings.len(),
{
    if settings.len() > 0 {
        let rest = settings.drop_first();
        assert(spec_all_directories(settings) <==> spec_all_directories(rest) && spec_all_directories(
            seq![settings[0]],
        )) by {
            if spec_all_directories(rest) && spec_all_directories(seq![settings[0]]) {
                assert forall|k: int| 0 <= k < settings.len() implies match #[trigger] settings[k] {
                    SpecSetting::BuildPath { is_dir, .. } => is_dir,
                    SpecSetting::CompiledPath { is_dir, .. } => is_dir,
                    SpecSetting::BuildArgs(_) => true,
                } by {
                    if k == 0 {
                        assert(seq![settings[0]][0] == settings[0]);
                    } else {
                        assert(rest[k - 1] == settings[k]);
                    }
                }
            }
            if spec_all_directories(settings) {
                assert forall|k: int| 0 <= k < rest.len() implies match #[trigger] rest[k] {
                    SpecSetting::BuildPath { is_dir, .. } => is_dir,
                    SpecSetting::CompiledPath { is_dir, .. } => is_dir,
                    SpecSetting::BuildArgs(_) => true,
                } by {
                    assert(rest[k] == settings[k + 1]);
                }
                assert(seq![settings[0]][0] == settings[0]);
            }
        }
        match spec_apply(s, settings[0]) {
            Ok(t) => {
                lemma_apply_all_fields(t, rest);
            },
            Err(_) => {},
        }
    }
}

/// The result of a whole command line whose settings are read in order and
/// whose paths are resolved: it is accepted exactly when every path names a
/// directory, and then the project directory is the last `--build-path`
/// (else the current directory), the install directory the last
/// `--compiled-path` (else the default), the build arguments all words of
/// all `--build-args` values in order (none empty, none holding
/// whitespace), and the binary is installed in the install directory under
/// the project directory's name.
pub proof fn lemma_command_line_result(
    current_dir: Seq<char>,
    args: Seq<Seq<char>>,
    settings: Seq<SpecSetting>,
    default_base: Seq<char>,
)
    requires
        spec_all_resolve(settings, spec_scan(args).0),
    ensures
        spec_apply_all(spec_initial_state(current_dir), settings) is Ok <==> spec_all_directories(
            settings,
        ),
        spec_apply_all(spec_initial_state(current_dir), settings) matches Ok(t) ==> {
            &&& t.build_file_path == spec_last_build_path(settings, current_dir)
            &&& t.custom_install_base == spec_last_compiled_path(settings, None)
            &&& t.build_args == spec_build_words(spec_scan(args).0)
            &&& forall|i: int| 0 <= i < t.build_args.len() ==> spec_is_word(#[trigger] t.build_args[i])
            &&& spec_install_path(t, default_base) == match spec_file_name(
                spec_last_build_path(settings, current_dir),
            ) {
                Some(project) => Some(
                    spec_join(
                        match spec_last_compiled_path(settings, None) {
                            Some(b) => b,
                            None => default_base,
                        },
                        project,
                    ),
                ),
                None => None,
            }
        },
{
    lemma_apply_all_fields(spec_initial_state(current_dir), settings);
    lemma_build_args_accumulate(current_dir, args, settings);
    lemma_build_words_are_words(args);
}

impl ArgState {
    /// Nothing given yet: build the current directory with the tool's defaults.
    pub fn new(current_dir: String) -> (r: ArgState)
        ensures
            r@ == spec_initial_state(current_dir@),
    {
        let r = ArgState {
            build_file_path: current_dir,
            build_args: Vec::new(),
            custom_install_base: None,
        };
        assert(r.build_args.deep_view() =~= Seq::<Seq<char>>::empty());
        r
    }

    /// Applies one resolved setting; a path that is not a directory is
    /// refused and leaves the state as it was.
    pub fn apply(&mut self, setting: Setting) -> (r: Result<(), CliError>)
        ensures
            match spec_apply(old(self)@, setting@) {
                Ok(t) => r is Ok && final(self)@ == t,
                Err(e) => *final(self) == *old(self) && (r matches Err(
                    CliError::PathNotADirectory { path, flag },
                ) && path@ == e.path && flag@ == e.flag),
            },
    {
        match setting {
            Setting::BuildPath { path, is_dir } => {
                if !is_dir {
                    return Err(CliError::PathNotADirectory { path, flag: "--build-path" });
                }
                self.build_file_path = path;
                Ok(())
            },
            Setting::BuildArgs(words) => {
                let ghost before = self.build_args.deep_view();
                let mut words = words;
                let ghost added = words.deep_view();
                self.build_args.append(&mut words);
                assert(self.build_args.deep_view() =~= before + added);
                Ok(())
            },
            Setting::CompiledPath { path, is_dir } => {
                if !is_dir {
                    return Err(CliError::PathNotADirectory { path, flag: "--compiled-path" });
                }
                self.custom_install_base = Some(path);
                Ok(())
            },
        }
    }

    /// The configuration to build with. The binary is installed, under the
    /// project directory's name, into the `--compiled-path` directory or
    /// else `default_install_base`; no binary name is chosen.
    pub fn finish(self, default_install_base: Result<String, std::io::Error>) -> (r: Result<
        ApplicationConfig,
        CliError,
    >)
        ensures
            spec_file_name(self.build_file_path@) is None ==> r matches Err(
                CliError::InvalidBuildPath,
            ),
            r matches Ok(c) ==> c.binary_install_path@ == spec_install_path(
                self@,
                match default_install_base {
                    Ok(b) => b@,
                    Err(_) => Seq::empty(),
                },
            ).unwrap(),
            spec_file_name(self.build_file_path@) matches Some(project) ==> match self.custom_install_base {
                Some(base) => r matches Ok(c) && c.build_file_path == self.build_file_path
                    && c.build_args == self.build_args && c.binary_name is None
                    && c.binary_install_path@ == spec_join(base@, project),
                None => match default_install_base {
                    Err(e) => r == Err::<ApplicationConfig, CliError>(CliError::Io(e)),
                    Ok(base) => r matches Ok(c) && c.build_file_path == self.build_file_path
                        && c.build_args == self.build_args && c.binary_name is None
                        && c.binary_install_path@ == spec_join(base@, project),
                },
            },
    {
        let project = match file_name(self.build_file_path.as_str()) {
            Some(p) => p,
            None => return Err(CliError::InvalidBuildPath),
        };
        let base = match self.custom_install_base {
            Some(b) => b,
            None => match default_install_base {
                Ok(b) => b,
                Err(e) => return Err(CliError::Io(e)),
            },
        };
        let binary_install_path = join(base.as_str(), project.as_str());
        Ok(
            ApplicationConfig {
                build_file_path: self.build_file_path,
                build_args: self.build_args,
                binary_install_path,
                binary_name: None,
            },
        )
    }
}

/// The default install directory on Windows, below the local application
/// data directory.
pub fn install_base_under_local_app_data(local_app_data: &str) -> (r: String)
    ensures
        r@ == spec_join(spec_join(local_app_data@, "Microsoft"@), "WindowsApps"@),
{
    let microsoft = join(local_app_data, "Microsoft");
    join(microsoft.as_str(), "WindowsApps")
}

/// The default install directory below a home directory.
pub fn install_base_under_home(home: &str) -> (r: String)
    ensures
        r@ == spec_join(home@, ".local/bin"@),
{
    join(home, ".local/bin")
}

/// The message printed for `--version`.
pub fn version_message(version: &str) -> (r: String)
    ensures
        r@ == "bti version "@ + version@,
{
    String::from_str("bti version ").concat(version)
}

/// The message printed for `--help`.
pub fn help_message() -> (r: String)
    ensures
        r@ == "Commandlist\n"@ + spec_command_listing(),
{
    let listing = CommandList::to_string();
    String::from_str("Commandlist\n").concat(listing.as_str())
}

/// How a `--build-path` value becomes a project directory.
#[derive(Debug)]
pub enum BuildPathPlan {
    /// A path starting with `~`, with the home directory put in its place;
    /// nothing on disk is touched.
    Expanded(String),
    /// A path without a file name; the text is the error message, and
    /// nothing on disk is touched.
    NoFileName(String),
    /// Any other path. The directory `scratch` is removed first if it
    /// exists; then, when `clone` holds the arguments of a `git` run, the
    /// value is cloned into `scratch`. The project directory is `project`.
    Scratch { scratch: String, clone: Option<Vec<String>>, project: String },
}

/// The value names a Git repository: it starts with `git` or ends with `.git`.
pub open spec fn spec_is_git_source(path: Seq<char>) -> bool {
    spec_occurs_at(path, "git"@, 0) || spec_ends_with(path, ".git"@)
}

/// A value names a Git source exactly when its first three characters are
/// `git` or its last four are `.git`; `git` elsewhere in it does not count.
pub proof fn lemma_git_source_by_its_ends(path: Seq<char>)
    ensures
        spec_is_git_source(path) <==> ((path.len() >= 3 && path[0] == 'g' && path[1] == 'i'
            && path[2] == 't') || (path.len() >= 4 && path[path.len() - 4] == '.' && path[path.len()
            - 3] == 'g' && path[path.len() - 2] == 'i' && path[path.len() - 1] == 't')),
{
    reveal_strlit("git");
    reveal_strlit(".git");
    let n = path.len() as int;
    if n >= 3 {
        let front = path.subrange(0, 3);
        assert(front[0] == path[0] && front[1] == path[1] && front[2] == path[2]);
        if path[0] == 'g' && path[1] == 'i' && path[2] == 't' {
            assert(front =~= "git"@);
        }
    }
    if n >= 4 {
        let back = path.subrange(n - 4, n);
        assert(back[0] == path[n - 4] && back[1] == path[n - 3] && back[2] == path[n - 2] && back[3]
            == path[n - 1]);
        if path[n - 4] == '.' && path[n - 3] == 'g' && path[n - 2] == 'i' && path[n - 1] == 't' {
            assert(back =~= ".git"@);
        }
    }
}

/// The arguments of the `git` run that fetches the repository `source` into
/// `dest`: a shallow clone with shallow submodules.
pub open spec fn spec_git_clone_args(source: Seq<char>, dest: Seq<char>) -> Seq<Seq<char>> {
    seq![
        "clone"@,
        "--depth"@,
        "1"@,
        "--recurse-submodules"@,
        "--shallow-submodules"@,
        source,
        dest,
    ]
}

/// How the `--build-path` value `path` is turned into a project directory,
/// with `temp_dir` the system's temporary directory. The only place on disk
/// that the plan may clear or fill is the directory named after the value's
/// file stem inside `temp_dir`; a Git source is cloned there and built
/// there, any other value is built where it is.
pub fn plan_build_path(path: &str, home: &Option<String>, temp_dir: &str) -> (r: BuildPathPlan)
    ensures
        (path@.len() > 0 && path@[0] == '~' && home is Some) ==> (r matches BuildPathPlan::Expanded(
            p,
        ) && p@ == spec_expand_home(path@, opt_view(*home))),
        !(path@.len() > 0 && path@[0] == '~' && home is Some) ==> match spec_file_name(path@) {
            None => r matches BuildPathPlan::NoFileName(m) && m@
                == "Could not determine filename from path: "@ + path@,
            Some(fname) => r matches BuildPathPlan::Scratch { scratch, clone, project } && {
                &&& scratch@ == spec_join(temp_dir@, spec_stem_of(fname))
                &&& (clone is Some <==> spec_is_git_source(path@))
                &&& (clone matches Some(args) ==> args.deep_view() == spec_git_clone_args(
                    path@,
                    scratch@,
                ))
                &&& project@ == if spec_is_git_source(path@) {
                    scratch@
                } else {
                    path@
                }
            },
        },
{
    let n = path.unicode_len();
    if n > 0 && path.get_char(0) == '~' && home.is_some() {
        return BuildPathPlan::Expanded(expand_home(path, home));
    }
    match file_stem(path) {
        None => BuildPathPlan::NoFileName(
            String::from_str("Could not determine filename from path: ").concat(path),
        ),
        Some(name) => {
            let scratch = join(temp_dir, name.as_str());
            if occurs_at(path, "git", 0) || ends_with(path, ".git") {
                let args = git_clone_args(path, scratch.as_str());
                let project = scratch.clone();
                BuildPathPlan::Scratch { scratch, clone: Some(args), project }
            } else {
                BuildPathPlan::Scratch { scratch, clone: None, project: String::from_str(path) }
            }
        },
    }
}

/// The arguments of the `git` run that fetches a repository into `dest`.
pub fn git_clone_args(source: &str, dest: &str) -> (r: Vec<String>)
    ensures
        r.deep_view() == spec_git_clone_args(source@, dest@),
{
    let r = vec![
        String::from_str("clone"),
        String::from_str("--depth"),
        String::from_str("1"),
        String::from_str("--recurse-submodules"),
        String::from_str("--shallow-submodules"),
        String::from_str(source),
        String::from_str(dest),
    ];
    assert(r.deep_view() =~= spec_git_clone_args(source@, dest@));
    r
}

} // verus!

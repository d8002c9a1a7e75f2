//! Choosing what to install after a build, and where.
use vstd::prelude::*;

use std::collections::VecDeque;

use crate::build_plan::{binary_name_for, spec_binary_name, BuildCommand, BuildConfig, Platform};
use crate::paths::{
    file_name, join, opt_view, parent, spec_file_name, spec_join, spec_parent,
};
use crate::text::{
    contains, count_char, ends_with, spec_contains, spec_count_char, spec_ends_with, str_equal,
};

verus! {

/// Directories deeper than this below a search root are not searched.
pub const MAX_DISCOVERY_DEPTH: usize = 6;

/// What `Path`'s `==` returns for two paths given as text (it compares
/// their components).
pub uninterp spec fn spec_path_eq(a: Seq<char>, b: Seq<char>) -> bool;

/// Calls `PartialEq::eq` on two `Path`s; the contract only names the result.
#[verifier::external_body]
fn path_eq(a: &str, b: &str) -> (r: bool)
    ensures
        r == spec_path_eq(a@, b@),
{
    std::path::Path::new(a) == std::path::Path::new(b)
}

/// The first step of installing a finished build.
#[derive(Debug)]
pub enum InstallPlan {
    /// Copy the expected build output to the install path.
    CopyRelease { from: String, to: String },
    /// The CMake output was not where expected: try `cmake --install` with
    /// the prefix (when one can be inferred), else search `build_dir` for the
    /// executable.
    CmakeFallback { prefix: Option<String>, build_dir: String },
}

/// The install prefix whose `bin`-like directory holds the install path:
/// the parent of its parent.
pub open spec fn spec_install_prefix(install_path: Seq<char>) -> Option<Seq<char>> {
    match spec_parent(install_path) {
        Some(dir) => spec_parent(dir),
        None => None,
    }
}

/// The install prefix for `cmake --install`, when the install path has a
/// grandparent.
pub fn cmake_install_prefix(install_path: &str) -> (r: Option<String>)
    ensures
        opt_view(r) == spec_install_prefix(install_path@),
{
    match parent(install_path) {
        Some(dir) => parent(dir.as_str()),
        None => None,
    }
}

/// How to install the binary of `config`: the expected output is copied
/// when it exists or when the tool is not CMake (a missing file is then
/// reported by the copy); a CMake build whose output is missing falls back.
pub fn plan_install(config: &BuildConfig, release_is_file: bool) -> (r: InstallPlan)
    ensures
        (release_is_file || config.command != BuildCommand::Cmake) ==> (r matches InstallPlan::CopyRelease {
            from,
            to,
        } && from == config.target_release_path && to == config.target_binary_install_path),
        !(release_is_file || config.command != BuildCommand::Cmake) ==> (
        r matches InstallPlan::CmakeFallback { prefix, build_dir } && opt_view(prefix)
            == spec_install_prefix(config.target_binary_install_path@) && build_dir@ == spec_join(
            config.build_file_path@,
            "build"@,
        )),
{
    if release_is_file || config.command != BuildCommand::Cmake {
        return InstallPlan::CopyRelease {
            from: config.target_release_path.clone(),
            to: config.target_binary_install_path.clone(),
        };
    }
    InstallPlan::CmakeFallback {
        prefix: cmake_install_prefix(config.target_binary_install_path.as_str()),
        build_dir: join(config.build_file_path.as_str(), "build"),
    }
}

/// The arguments of `cmake --install` into `prefix`.
pub fn cmake_install_args(prefix: &str) -> (r: Vec<String>)
    ensures
        r.deep_view() == seq!["--install"@, "build"@, "--prefix"@, prefix@],
{
    let r = vec![
        String::from_str("--install"),
        String::from_str("build"),
        String::from_str("--prefix"),
        String::from_str(prefix),
    ];
    assert(r.deep_view() =~= seq!["--install"@, "build"@, "--prefix"@, prefix@]);
    r
}

/// Directories that the executable search does not enter.
pub open spec fn spec_is_skipped_dir(name: Seq<char>) -> bool {
    name == "CMakeFiles"@ || name == ".git"@ || name == "Testing"@ || name == "_deps"@ || name
        == "deps"@
}

/// Whether the executable search skips a directory of this name.
pub fn is_skipped_dir(name: &str) -> (r: bool)
    ensures
        r == spec_is_skipped_dir(name@),
{
    str_equal(name, "CMakeFiles") || str_equal(name, ".git") || str_equal(name, "Testing")
        || str_equal(name, "_deps") || str_equal(name, "deps")
}

/// The search skips exactly the directories named `CMakeFiles`, `.git`,
/// `Testing`, `_deps` and `deps`; it enters every other directory.
pub proof fn lemma_skipped_dir_names(name: Seq<char>)
    ensures
        spec_is_skipped_dir(name) <==> set![
            "CMakeFiles"@,
            ".git"@,
            "Testing"@,
            "_deps"@,
            "deps"@,
        ].contains(name),
{
}

/// Files that are build by-products rather than executables.
pub open spec fn spec_is_skipped_file(name: Seq<char>) -> bool {
    spec_ends_with(name, ".o"@) || spec_ends_with(name, ".a"@) || spec_ends_with(name, ".so"@)
        || spec_contains(name, ".so."@) || spec_ends_with(name, ".dylib"@) || spec_ends_with(
        name,
        ".dll"@,
    ) || spec_ends_with(name, ".cmake"@) || name == "CMakeCache.txt"@
}

/// Whether the executable search ignores a file of this name.
pub fn is_skipped_file(name: &str) -> (r: bool)
    ensures
        r == spec_is_skipped_file(name@),
{
    ends_with(name, ".o") || ends_with(name, ".a") || ends_with(name, ".so") || contains(
        name,
        ".so.",
    ) || ends_with(name, ".dylib") || ends_with(name, ".dll") || ends_with(name, ".cmake")
        || str_equal(name, "CMakeCache.txt")
}

/// Whether a Unix permission mode lets anyone execute the file.
pub open spec fn spec_mode_is_executable(mode: u32) -> bool {
    mode & 0o111u32 != 0
}

/// Whether a Unix permission mode lets anyone execute the file.
pub fn mode_is_executable(mode: u32) -> (r: bool)
    ensures
        r == spec_mode_is_executable(mode),
{
    mode & 0o111u32 != 0
}

/// The preference score of a candidate executable: paths under a `rundir`
/// and under a `bin` directory are preferred, and shallower paths are
/// preferred over deeper ones.
pub open spec fn spec_score(path: Seq<char>) -> int {
    (if spec_contains(path, "/rundir/"@) {
        1000int
    } else {
        0int
    }) + (if spec_contains(path, "/bin/"@) {
        200int
    } else {
        0int
    }) - spec_count_char(path, '/')
}

/// Paths short enough for their score to fit in an `i64`; every path a
/// program can hold is.
pub open spec fn spec_scorable(path: Seq<char>) -> bool {
    path.len() <= 0x7fff_ffff_ffff_0000
}

proof fn lemma_count_char_bound(s: Seq<char>, c: char)
    ensures
        spec_count_char(s, c) <= s.len(),
    decreases s.len(),
{
    if s.len() > 0 {
        lemma_count_char_bound(s.drop_last(), c);
    }
}

/// The preference score of a candidate executable.
pub fn score_cmake_candidate(path: &str) -> (r: i64)
    requires
        spec_scorable(path@),
    ensures
        r == spec_score(path@),
{
    let mut score: i64 = 0;
    if contains(path, "/rundir/") {
        score = score + 1000;
    }
    if contains(path, "/bin/") {
        score = score + 200;
    }
    let slashes = count_char(path, '/');
    proof {
        lemma_count_char_bound(path@, '/');
    }
    score - slashes as i64
}

/// A built file that the executable search found.
#[derive(Debug)]
pub struct Candidate {
    /// The file's path.
    pub path: String,
    /// Its modification time, in nanoseconds relative to the Unix epoch.
    pub modified: i128,
}

/// Candidate `a` ranks strictly above candidate `b`: a higher score, or the
/// same score and a later modification time.
pub open spec fn spec_ranks_above(a: Candidate, b: Candidate) -> bool {
    spec_score(a.path@) > spec_score(b.path@) || (spec_score(a.path@) == spec_score(b.path@)
        && a.modified > b.modified)
}

/// Candidate `k` is the chosen one: no candidate ranks above it, and it
/// ranks above every candidate found before it.
pub open spec fn spec_is_choice(cands: Seq<Candidate>, k: int) -> bool {
    &&& 0 <= k < cands.len()
    &&& forall|j: int| 0 <= j < cands.len() ==> !spec_ranks_above(cands[j], cands[k])
    &&& forall|j: int| 0 <= j < k ==> spec_ranks_above(cands[k], cands[j])
}

/// The executable to install out of the files the search found, in the
/// order found: the best-ranked one, and the earliest of equally ranked ones.
pub fn choose_executable(cands: &Vec<Candidate>) -> (r: Option<usize>)
    requires
        forall|i: int| 0 <= i < cands.len() ==> spec_scorable(#[trigger] cands[i].path@),
    ensures
        r is None <==> cands.len() == 0,
        r matches Some(k) ==> spec_is_choice(cands@, k as int),
{
    let n = cands.len();
    if n == 0 {
        return None;
    }
    let mut best: usize = 0;
    let mut best_score = score_cmake_candidate(cands[0].path.as_str());
    let mut i: usize = 1;
    while i < n
        invariant
            n == cands.len(),
            1 <= i <= n,
            best < i,
            forall|k: int| 0 <= k < cands.len() ==> spec_scorable(#[trigger] cands[k].path@),
            best_score == spec_score(cands@[best as int].path@),
            forall|j: int| 0 <= j < i ==> !spec_ranks_above(cands@[j], cands@[best as int]),
            forall|j: int| 0 <= j < best ==> spec_ranks_above(cands@[best as int], cands@[j]),
        decreases n - i,
    {
        let score = score_cmake_candidate(cands[i].path.as_str());
        if score > best_score || (score == best_score && cands[i].modified
            > cands[best].modified) {
            best = i;
            best_score = score;
        }
        i = i + 1;
    }
    Some(best)
}

/// What the search learned about one directory entry.
#[derive(Debug)]
pub struct EntryInfo {
    /// The entry's path.
    pub path: String,
    /// The entry's file name.
    pub name: String,
    pub is_dir: bool,
    pub is_file: bool,
    /// When the entry's metadata could be read: whether it is executable,
    /// and its modification time in nanoseconds relative to the Unix epoch.
    pub meta: Option<(bool, i128)>,
}

/// A directory still to be searched and its depth below its search root.
pub open spec fn spec_dir_entry(e: (String, usize)) -> (Seq<char>, usize) {
    (e.0@, e.1)
}

/// The search for the executable a CMake build produced: each search root
/// in turn (the build directory's `rundir` when there is one, then the build
/// directory), breadth-first, down to `MAX_DISCOVERY_DEPTH` levels below the
/// root, skipping by-product directories and files.
#[derive(Debug)]
pub struct ExecutableSearch {
    roots: VecDeque<String>,
    queue: VecDeque<(String, usize)>,
    found: Vec<Candidate>,
}

/// The directory entry `e`, seen at depth `depth`, is searched further.
pub open spec fn spec_descends(depth: usize, e: EntryInfo) -> bool {
    e.is_dir && !spec_is_skipped_dir(e.name@) && depth < MAX_DISCOVERY_DEPTH
}

/// The directory entry `e` is a candidate executable.
pub open spec fn spec_is_candidate(e: EntryInfo) -> bool {
    &&& !e.is_dir
    &&& e.is_file
    &&& !spec_is_skipped_file(e.name@)
    &&& e.meta matches Some((executable, _))
    &&& executable
    &&& spec_scorable(e.path@)
}

impl ExecutableSearch {
    /// The directories still queued under the current root, in order.
    pub closed spec fn pending(&self) -> Seq<(Seq<char>, usize)> {
        self.queue@.map_values(|e: (String, usize)| spec_dir_entry(e))
    }

    /// The search roots not yet started, in order.
    pub closed spec fn roots_left(&self) -> Seq<Seq<char>> {
        self.roots@.map_values(|r: String| r@)
    }

    /// The candidate executables found so far, in the order found.
    pub closed spec fn found(&self) -> Seq<Candidate> {
        self.found@
    }

    /// The well-formedness of a search: nothing is queued deeper than the
    /// depth limit, and every candidate can be scored.
    pub closed spec fn valid(&self) -> bool {
        &&& forall|i: int|
            0 <= i < self.queue@.len() ==> (#[trigger] self.queue@[i]).1 <= MAX_DISCOVERY_DEPTH
        &&& forall|i: int|
            0 <= i < self.found@.len() ==> spec_scorable(#[trigger] self.found@[i].path@)
    }

    /// A search of `rundir` (when given) and then `build_dir`.
    pub fn new(build_dir: String, rundir: Option<String>) -> (r: ExecutableSearch)
        ensures
            r.valid(),
            r.pending().len() == 0,
            r.found().len() == 0,
            r.roots_left() == match rundir {
                Some(d) => seq![d@, build_dir@],
                None => seq![build_dir@],
            },
    {
        let mut roots: VecDeque<String> = VecDeque::new();
        match rundir {
            Some(d) => roots.push_back(d),
            None => {},
        }
        roots.push_back(build_dir);
        let r = ExecutableSearch { roots, queue: VecDeque::new(), found: Vec::new() };
        assert(r.roots_left() =~= match rundir {
            Some(d) => seq![d@, build_dir@],
            None => seq![build_dir@],
        });
        assert(r.pending() =~= Seq::<(Seq<char>, usize)>::empty());
        r
    }

    /// The next directory to list and its depth: the next queued one, or
    /// else the next search root (at depth 0, with a fresh queue); `None`
    /// when the search is over.
    pub fn next_directory(&mut self) -> (r: Option<(String, usize)>)
        requires
            old(self).valid(),
        ensures
            final(self).valid(),
            final(self).found() == old(self).found(),
            r matches Some(d) ==> d.1 <= MAX_DISCOVERY_DEPTH,
            old(self).pending().len() > 0 ==> (r matches Some(d) && spec_dir_entry(d) == old(
                self,
            ).pending()[0] && final(self).pending() == old(self).pending().drop_first()
                && final(self).roots_left() == old(self).roots_left()),
            old(self).pending().len() == 0 && old(self).roots_left().len() > 0 ==> (r matches Some(
                d,
            ) && spec_dir_entry(d) == (old(self).roots_left()[0], 0usize) && final(self).pending().len()
                == 0 && final(self).roots_left() == old(self).roots_left().drop_first()),
            old(self).pending().len() == 0 && old(self).roots_left().len() == 0 ==> r is None
                && final(self).pending().len() == 0 && final(self).roots_left().len() == 0,
    {
        let ghost before_queue = self.pending();
        let ghost before_roots = self.roots_left();
        match self.queue.pop_front() {
            Some(d) => {
                assert(self.pending() =~= before_queue.drop_first());
                assert(self.queue@.len() < old(self).queue@.len());
                assert forall|i: int| 0 <= i < self.queue@.len() implies (
                #[trigger] self.queue@[i]).1 <= MAX_DISCOVERY_DEPTH by {
                    assert(self.queue@[i] == old(self).queue@[i + 1]);
                }
                return Some(d);
            },
            None => {},
        }
        match self.roots.pop_front() {
            Some(root) => {
                assert(self.roots_left() =~= before_roots.drop_first());
                Some((root, 0))
            },
            None => None,
        }
    }

    /// Takes in one entry of a directory listed at `depth`: a directory that
    /// is searched further is queued one level deeper, and a candidate
    /// executable is recorded.
    pub fn visit(&mut self, depth: usize, entry: EntryInfo)
        requires
            old(self).valid(),
            depth <= MAX_DISCOVERY_DEPTH,
        ensures
            final(self).valid(),
            final(self).roots_left() == old(self).roots_left(),
            final(self).pending() == if spec_descends(depth, entry) {
                old(self).pending().push((entry.path@, (depth + 1) as usize))
            } else {
                old(self).pending()
            },
            final(self).found() == if spec_is_candidate(entry) {
                old(self).found().push(
                    Candidate { path: entry.path, modified: entry.meta.unwrap().1 },
                )
            } else {
                old(self).found()
            },
    {
        let ghost before = self.pending();
        if entry.is_dir {
            if !is_skipped_dir(entry.name.as_str()) && depth < MAX_DISCOVERY_DEPTH {
                self.queue.push_back((entry.path, depth + 1));
                assert(self.pending() =~= before.push((entry.path@, (depth + 1) as usize)));
            }
            return;
        }
        if !entry.is_file || is_skipped_file(entry.name.as_str()) {
            return;
        }
        match entry.meta {
            Some((executable, modified)) => {
                if executable && (entry.path.unicode_len() as u64) <= 0x7fff_ffff_ffff_0000u64 {
                    self.found.push(Candidate { path: entry.path, modified });
                }
            },
            None => {},
        }
    }

    /// The executable chosen among those found, as `choose_executable` ranks them.
    pub fn finish(self) -> (r: Option<String>)
        requires
            self.valid(),
        ensures
            r is None <==> self.found().len() == 0,
            r matches Some(p) ==> exists|k: int|
                spec_is_choice(self.found(), k) && p == #[trigger] self.found()[k].path,
    {
        match choose_executable(&self.found) {
            Some(k) => {
                let p = self.found[k].path.clone();
                assert(spec_is_choice(self.found(), k as int) && p == self.found()[k as int].path);
                Some(p)
            },
            None => None,
        }
    }
}

/// The executable's file name, or else the whole install path.
pub open spec fn spec_discovered_name(discovered: Seq<char>, install_path: Seq<char>) -> Seq<
    char,
> {
    match spec_file_name(discovered) {
        Some(n) => n,
        None => install_path,
    }
}

/// Where a discovered CMake executable is installed: the configured install
/// path when the configured binary name differs from the project's, and
/// otherwise the executable's own name in the install directory. Identical
/// texts name the same path, so they are compared as text first.
pub open spec fn spec_cmake_install_target(
    config: BuildConfig,
    discovered: Seq<char>,
    platform: Platform,
) -> Seq<char> {
    let project = match spec_file_name(config.build_file_path@) {
        Some(n) => n,
        None => Seq::empty(),
    };
    let default_binary = spec_binary_name(platform, project);
    if !(config.binary_name@ == default_binary || spec_path_eq(config.binary_name@, default_binary)) {
        config.target_binary_install_path@
    } else {
        let dir = match spec_parent(config.target_binary_install_path@) {
            Some(d) => d,
            None => "."@,
        };
        spec_join(dir, spec_discovered_name(discovered, config.target_binary_install_path@))
    }
}

/// Where a discovered CMake executable is installed.
pub fn cmake_install_target(config: &BuildConfig, discovered: &str, platform: Platform) -> (r:
    String)
    ensures
        r@ == spec_cmake_install_target(*config, discovered@, platform),
{
    let project = match file_name(config.build_file_path.as_str()) {
        Some(n) => n,
        None => String::new(),
    };
    let project_binary = binary_name_for(platform, project.as_str());
    if !(str_equal(config.binary_name.as_str(), project_binary.as_str()) || path_eq(
        config.binary_name.as_str(),
        project_binary.as_str(),
    )) {
        return config.target_binary_install_path.clone();
    }
    let dir = match parent(config.target_binary_install_path.as_str()) {
        Some(d) => d,
        None => String::from_str("."),
    };
    let name = match file_name(discovered) {
        Some(n) => n,
        None => config.target_binary_install_path.clone(),
    };
    join(dir.as_str(), name.as_str())
}

/// When no other binary name was chosen, that is when the plan's binary name
/// is the platform's default for the project (with `.exe` on Windows), the
/// discovered executable is installed under its own file name in the
/// install directory (the current directory when the install path has no
/// parent); a binary name that differs from the default, as a path, is
/// installed at the configured install path.
pub proof fn lemma_cmake_install_target_name(
    config: BuildConfig,
    discovered: Seq<char>,
    platform: Platform,
    project: Seq<char>,
)
    requires
        spec_file_name(config.build_file_path@) == Some(project),
    ensures
        config.binary_name@ == spec_binary_name(platform, project) ==> spec_cmake_install_target(
            config,
            discovered,
            platform,
        ) == spec_join(
            match spec_parent(config.target_binary_install_path@) {
                Some(d) => d,
                None => "."@,
            },
            match spec_file_name(discovered) {
                Some(n) => n,
                None => config.target_binary_install_path@,
            },
        ),
        config.binary_name@ != spec_binary_name(platform, project) && !spec_path_eq(
            config.binary_name@,
            spec_binary_name(platform, project),
        ) ==> spec_cmake_install_target(config, discovered, platform)
            == config.target_binary_install_path@,
{
}

} // verus!

//! The command-line flags that `bti` understands.
use vstd::prelude::*;

use crate::text::str_equal;

verus! {

/// A recognised command-line flag.
#[derive(Debug, Clone, Copy, PartialEq, Eq, Structural)]
pub enum CommandList {
    BuildPath,
    BuildArgs,
    CompiledPath,
    ListBinaries,
    Version,
    Help,
}

/// The flag (long or short spelling) that `s` names, if any.
pub open spec fn spec_flag_of(s: Seq<char>) -> Option<CommandList> {
    if s == "--build-path"@ || s == "--bp"@ {
        Some(CommandList::BuildPath)
    } else if s == "--build-args"@ || s == "--ba"@ {
        Some(CommandList::BuildArgs)
    } else if s == "--compiled-path"@ || s == "--cp"@ {
        Some(CommandList::CompiledPath)
    } else if s == "--list-binaries"@ || s == "--lb"@ {
        Some(CommandList::ListBinaries)
    } else if s == "--version"@ || s == "--v"@ {
        Some(CommandList::Version)
    } else if s == "--help"@ || s == "-h"@ {
        Some(CommandList::Help)
    } else {
        None
    }
}

/// The help listing: one line per flag, joined by newlines.
pub open spec fn spec_command_listing() -> Seq<char> {
    CommandList::BuildPath.spec_name() + "\n"@
        + CommandList::BuildArgs.spec_name() + "\n"@
        + CommandList::CompiledPath.spec_name() + "\n"@
        + CommandList::ListBinaries.spec_name() + "\n"@
        + CommandList::Version.spec_name() + "\n"@
        + CommandList::Help.spec_name()
}

/// The long spelling of a flag.
pub open spec fn spec_long_flag(c: CommandList) -> Seq<char> {
    match c {
        CommandList::BuildPath => "--build-path"@,
        CommandList::BuildArgs => "--build-args"@,
        CommandList::CompiledPath => "--compiled-path"@,
        CommandList::ListBinaries => "--list-binaries"@,
        CommandList::Version => "--version"@,
        CommandList::Help => "--help"@,
    }
}

/// The short spelling of a flag.
pub open spec fn spec_short_flag(c: CommandList) -> Seq<char> {
    match c {
        CommandList::BuildPath => "--bp"@,
        CommandList::BuildArgs => "--ba"@,
        CommandList::CompiledPath => "--cp"@,
        CommandList::ListBinaries => "--lb"@,
        CommandList::Version => "--v"@,
        CommandList::Help => "-h"@,
    }
}

proof fn lemma_flag_literals()
    ensures
        "--build-path"@.len() == 12,
        "--bp"@.len() == 4,
        "--build-args"@.len() == 12,
        "--ba"@.len() == 4,
        "--compiled-path"@.len() == 15,
        "--cp"@.len() == 4,
        "--list-binaries"@.len() == 15,
        "--lb"@.len() == 4,
        "--version"@.len() == 9,
        "--v"@.len() == 3,
        "--help"@.len() == 6,
        "-h"@.len() == 2,
        "--build-args"@[8] != "--build-path"@[8],
        "--ba"@[3] != "--bp"@[3],
        "--cp"@[2] != "--bp"@[2],
        "--cp"@[2] != "--ba"@[2],
        "--list-binaries"@[2] != "--compiled-path"@[2],
        "--lb"@[2] != "--bp"@[2],
        "--lb"@[2] != "--ba"@[2],
        "--lb"@[2] != "--cp"@[2],
{
    reveal_strlit("--build-path");
    reveal_strlit("--bp");
    reveal_strlit("--build-args");
    reveal_strlit("--ba");
    reveal_strlit("--compiled-path");
    reveal_strlit("--cp");
    reveal_strlit("--list-binaries");
    reveal_strlit("--lb");
    reveal_strlit("--version");
    reveal_strlit("--v");
    reveal_strlit("--help");
    reveal_strlit("-h");
}

/// Every flag is recognised under its long and its short spelling, and a
/// text is recognised as a flag only when it is one of these two spellings.
pub proof fn lemma_flags_recognised(c: CommandList)
    ensures
        spec_flag_of(spec_long_flag(c)) == Some(c),
        spec_flag_of(spec_short_flag(c)) == Some(c),
        forall|s: Seq<char>|
            #![trigger spec_flag_of(s)]
            spec_flag_of(s) == Some(c) <==> (s == spec_long_flag(c) || s == spec_short_flag(c)),
{
    lemma_flag_literals();
}

/// The text shown for a flag is its long spelling followed by its short
/// spelling in the form "<long> (or <short>)", so both names shown by the
/// help listing parse back to the flag.
pub proof fn lemma_shown_names_parse_back(c: CommandList)
    ensures
        c.spec_name() == spec_long_flag(c) + " (or "@ + spec_short_flag(c) + ")"@,
        spec_flag_of(spec_long_flag(c)) == Some(c),
        spec_flag_of(spec_short_flag(c)) == Some(c),
{
    lemma_flags_recognised(c);
    reveal_strlit(" (or ");
    reveal_strlit(")");
    match c {
        CommandList::BuildPath => {
            reveal_strlit("--build-path (or --bp)");
            reveal_strlit("--build-path");
            reveal_strlit("--bp");
            assert(c.spec_name() =~= spec_long_flag(c) + " (or "@ + spec_short_flag(c) + ")"@);
        },
        CommandList::BuildArgs => {
            reveal_strlit("--build-args (or --ba)");
            reveal_strlit("--build-args");
            reveal_strlit("--ba");
            assert(c.spec_name() =~= spec_long_flag(c) + " (or "@ + spec_short_flag(c) + ")"@);
        },
        CommandList::CompiledPath => {
            reveal_strlit("--compiled-path (or --cp)");
            reveal_strlit("--compiled-path");
            reveal_strlit("--cp");
            assert(c.spec_name() =~= spec_long_flag(c) + " (or "@ + spec_short_flag(c) + ")"@);
        },
        CommandList::ListBinaries => {
            reveal_strlit("--list-binaries (or --lb)");
            reveal_strlit("--list-binaries");
            reveal_strlit("--lb");
            assert(c.spec_name() =~= spec_long_flag(c) + " (or "@ + spec_short_flag(c) + ")"@);
        },
        CommandList::Version => {
            reveal_strlit("--version (or --v)");
            reveal_strlit("--version");
            reveal_strlit("--v");
            assert(c.spec_name() =~= spec_long_flag(c) + " (or "@ + spec_short_flag(c) + ")"@);
        },
        CommandList::Help => {
            reveal_strlit("--help (or -h)");
            reveal_strlit("--help");
            reveal_strlit("-h");
            assert(c.spec_name() =~= spec_long_flag(c) + " (or "@ + spec_short_flag(c) + ")"@);
        },
    }
}

impl CommandList {
    /// How the flag is shown to the user.
    pub open spec fn spec_name(self) -> Seq<char> {
        match self {
            CommandList::BuildPath => "--build-path (or --bp)"@,
            CommandList::BuildArgs => "--build-args (or --ba)"@,
            CommandList::CompiledPath => "--compiled-path (or --cp)"@,
            CommandList::ListBinaries => "--list-binaries (or --lb)"@,
            CommandList::Version => "--version (or --v)"@,
            CommandList::Help => "--help (or -h)"@,
        }
    }

    /// The text shown for this flag in help output.
    pub fn name(&self) -> (r: &'static str)
        ensures
            r@ == self.spec_name(),
    {
        match self {
            CommandList::BuildPath => "--build-path (or --bp)",
            CommandList::BuildArgs => "--build-args (or --ba)",
            CommandList::CompiledPath => "--compiled-path (or --cp)",
            CommandList::ListBinaries => "--list-binaries (or --lb)",
            CommandList::Version => "--version (or --v)",
            CommandList::Help => "--help (or -h)",
        }
    }

    /// Recognises a flag by its long or short spelling.
    pub fn from_str(s: &str) -> (r: Option<CommandList>)
        ensures
            r == spec_flag_of(s@),
    {
        if str_equal(s, "--build-path") || str_equal(s, "--bp") {
            Some(CommandList::BuildPath)
        } else if str_equal(s, "--build-args") || str_equal(s, "--ba") {
            Some(CommandList::BuildArgs)
        } else if str_equal(s, "--compiled-path") || str_equal(s, "--cp") {
            Some(CommandList::CompiledPath)
        } else if str_equal(s, "--list-binaries") || str_equal(s, "--lb") {
            Some(CommandList::ListBinaries)
        } else if str_equal(s, "--version") || str_equal(s, "--v") {
            Some(CommandList::Version)
        } else if str_equal(s, "--help") || str_equal(s, "-h") {
            Some(CommandList::Help)
        } else {
            None
        }
    }

    /// The command listing printed by `--help` and after an unknown argument.
    pub fn to_string() -> (r: String)
        ensures
            r@ == spec_command_listing(),
    {
        let mut out = String::from_str(CommandList::BuildPath.name());
        out.append("\n");
        out.append(CommandList::BuildArgs.name());
        out.append("\n");
        out.append(CommandList::CompiledPath.name());
        out.append("\n");
        out.append(CommandList::ListBinaries.name());
        out.append("\n");
        out.append(CommandList::Version.name());
        out.append("\n");
        out.append(CommandList::Help.name());
        out
    }
}

} // verus!

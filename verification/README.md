# bti

`bti` (build and install) builds the project in a directory with the build
tool it detects (Cargo, CMake, Maven, Gradle, npm, Bun, Zig, Go) and installs
the resulting binary (by default into `~/.local/bin`).

## Layout

- `src/` — the verified library (Verus):
  - `commands.rs`: the command-line flags, their spellings and the help listing;
  - `config.rs`: reading the command line into settings, the settings state,
    and the final application configuration;
  - `build_plan.rs`: build-system detection and the build commands per tool;
  - `install.rs`: install planning and the choice of a CMake executable;
  - `error.rs`: error types and their messages;
  - `paths.rs`, `text.rs`: text and path helpers.
- `app/` — the program: environment, file system, child processes, output.
- `tests/` — tests of the library.

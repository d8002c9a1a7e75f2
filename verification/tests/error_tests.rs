use bti::build_plan::BuildError;
use bti::error::{AppError, AppErrorSource, CliError};

#[test]
fn cli_error_messages() {
    assert_eq!(
        CliError::MissingFlagValue { flag: "--build-path" }.message(),
        "Missing value for --build-path"
    );
    assert_eq!(
        CliError::PathNotADirectory { path: String::from("/a"), flag: "--compiled-path" }.message(),
        "Input --compiled-path is not a directory: /a"
    );
    assert_eq!(
        CliError::UnknownArgument { arg: String::from("--x") }.message(),
        "Unknown argument '--x'\n\nCommand list: \n--build-path (or --bp)\n--build-args (or --ba)\n--compiled-path (or --cp)\n--list-binaries (or --lb)\n--version (or --v)\n--help (or -h)"
    );
    assert_eq!(CliError::InvalidBuildPath.message(), "Invalid build path");
    let io = std::io::Error::new(std::io::ErrorKind::Other, "disk gone");
    assert_eq!(CliError::Io(io).message(), "disk gone");
}

#[test]
fn only_io_errors_have_a_source() {
    let e = CliError::from(std::io::Error::new(std::io::ErrorKind::Other, "x"));
    assert!(e.io_source().is_some());
    assert!(CliError::InvalidBuildPath.io_source().is_none());
}

#[test]
fn app_error_messages() {
    let install = AppError::from(std::io::Error::new(std::io::ErrorKind::Other, "denied"));
    assert_eq!(install.message(), "Install I/O error: denied");
    assert_eq!(AppError::from(CliError::InvalidBuildPath).message(), "Invalid build path");
    assert_eq!(
        AppError::from(BuildError::InvalidPath).message(),
        "The provided path is not a valid directory."
    );
}

#[test]
fn build_error_messages() {
    assert_eq!(
        BuildError::BuildFailed { command: String::from("cargo"), status: String::from("exit status: 101") }
            .message(),
        "Build command 'cargo' failed with exit status: 101"
    );
    assert_eq!(
        BuildError::UnsupportedBuildSystem(String::from("/p")).message(),
        "No supported build system found in /p"
    );
    let io = std::io::Error::new(std::io::ErrorKind::Other, "boom");
    assert_eq!(BuildError::from(io).message(), "Build I/O error: boom");
}

#[test]
fn messages_for_a_given_io_text() {
    let io = || std::io::Error::new(std::io::ErrorKind::Other, "ignored");
    assert_eq!(CliError::Io(io()).message_with_io_text("no such file"), "no such file");
    assert_eq!(
        CliError::InvalidBuildPath.message_with_io_text("no such file"),
        "Invalid build path"
    );
    assert_eq!(
        BuildError::Io(io()).message_with_io_text("no such file"),
        "Build I/O error: no such file"
    );
    assert_eq!(
        AppError::Install(io()).message_with_io_text("no such file"),
        "Install I/O error: no such file"
    );
    assert_eq!(
        AppError::Build(BuildError::Io(io())).message_with_io_text("no such file"),
        "Build I/O error: no such file"
    );
}

#[test]
fn wrapped_errors_keep_their_message() {
    let io = || std::io::Error::new(std::io::ErrorKind::Other, "lost");
    assert_eq!(AppError::Cli(CliError::Io(io())).message(), CliError::Io(io()).message());
    assert_eq!(AppError::Build(BuildError::Io(io())).message(), BuildError::Io(io()).message());
    let missing = || CliError::MissingFlagValue { flag: "--build-args" };
    assert_eq!(AppError::Cli(missing()).message(), missing().message());
}

#[test]
fn app_errors_expose_what_they_wrap() {
    let cli = AppError::Cli(CliError::InvalidBuildPath);
    assert!(matches!(cli.source(), AppErrorSource::Cli(CliError::InvalidBuildPath)));
    let build = AppError::Build(BuildError::InvalidPath);
    assert!(matches!(build.source(), AppErrorSource::Build(BuildError::InvalidPath)));
    let install = AppError::Install(std::io::Error::new(std::io::ErrorKind::Other, "x"));
    assert!(matches!(install.source(), AppErrorSource::Io(e) if e.to_string() == "x"));
    assert!(install.inner_io_error().is_some());
    assert!(AppError::Cli(CliError::Io(std::io::Error::new(std::io::ErrorKind::Other, "y")))
        .inner_io_error()
        .is_some());
    assert!(cli.inner_io_error().is_none());
}

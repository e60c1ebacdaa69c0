use std::str::FromStr;

use clap_stdin::{Claimed, FileOrStdin, MaybeStdin, StdinError, StdinGuard};

const FILE_PATH: &str = "/tmp/input.txt";

/// Resolves one argument as a program would, with `piped` standing in for
/// the process's standard input.
fn maybe<T>(token: &str, guard: &mut StdinGuard, piped: &str) -> Result<MaybeStdin<T>, StdinError>
where
    T: FromStr,
    T::Err: std::fmt::Display,
{
    MaybeStdin::from_str(
        token,
        guard,
        |_| Ok(piped.to_string()),
        |t: &str| T::from_str(t).map_err(|e| e.to_string()),
    )
}

/// Reads a lazy input, with `piped` standing in for standard input and
/// `file` for the content of the file at `FILE_PATH`.
fn contents<T>(
    input: FileOrStdin<T>,
    guard: &mut StdinGuard,
    piped: &str,
    file: &str,
) -> Result<T, StdinError>
where
    T: FromStr,
    T::Err: std::fmt::Display,
{
    input.contents(
        guard,
        |from: Claimed| match from {
            Claimed::Stdin(_) => Ok(piped.to_string()),
            Claimed::File(path) if path == FILE_PATH => Ok(file.to_string()),
            Claimed::File(path) => Err(std::io::Error::new(std::io::ErrorKind::NotFound, path)),
        },
        |t: &str| T::from_str(t).map_err(|e| e.to_string()),
    )
}

#[test]
fn test_maybe_stdin_positional_arg() {
    let mut guard = StdinGuard::new();
    let first = maybe::<String>("FIRST", &mut guard, "").unwrap();
    assert_eq!(first.into_inner(), "FIRST");

    let mut guard = StdinGuard::new();
    let first = maybe::<String>("-", &mut guard, "TESTING").unwrap();
    assert!(first.is_stdin());
    assert_eq!(first.into_inner(), "TESTING");

    let mut guard = StdinGuard::new();
    let first = maybe::<String>("FIRST", &mut guard, "TESTING").unwrap();
    assert!(!first.is_stdin());
    assert_eq!(first.into_inner(), "FIRST");
}

#[test]
fn test_maybe_stdin_optional_arg() {
    let mut guard = StdinGuard::new();
    let second = maybe::<u32>("2", &mut guard, "").unwrap();
    assert_eq!(second.into_inner(), 2);

    let mut guard = StdinGuard::new();
    let second = maybe::<u32>("-", &mut guard, "2\n").unwrap();
    assert_eq!(second.into_inner(), 2);
}

#[test]
fn test_maybe_stdin_twice() {
    let mut guard = StdinGuard::new();
    let first = maybe::<String>("FIRST", &mut guard, "").unwrap();
    let second = maybe::<u32>("2", &mut guard, "").unwrap();
    assert_eq!(first.into_inner(), "FIRST");
    assert_eq!(second.into_inner(), 2);

    let mut guard = StdinGuard::new();
    let first = maybe::<String>("FIRST", &mut guard, "2").unwrap();
    let second = maybe::<u32>("-", &mut guard, "2").unwrap();
    assert_eq!(first.into_inner(), "FIRST");
    assert_eq!(second.into_inner(), 2);

    let mut guard = StdinGuard::new();
    let first = maybe::<String>("-", &mut guard, "3").unwrap();
    assert_eq!(first.into_inner(), "3");
    let second = maybe::<u32>("-", &mut guard, "3");
    let err = second.err().unwrap();
    assert!(matches!(err, StdinError::StdInRepeatedUse));
    assert_eq!(err.message(), StdinError::StdInRepeatedUse.message());
}

#[test]
fn test_file_or_stdin_positional_arg() {
    let mut guard = StdinGuard::new();
    let first: FileOrStdin = FileOrStdin::from_token(FILE_PATH);
    assert_eq!(contents(first, &mut guard, "", "FILE").unwrap(), "FILE");

    let mut guard = StdinGuard::new();
    let first: FileOrStdin = FileOrStdin::from_token("-");
    assert_eq!(contents(first, &mut guard, "STDIN", "FILE").unwrap(), "STDIN");

    let mut guard = StdinGuard::new();
    let first: FileOrStdin = FileOrStdin::from_token(FILE_PATH);
    assert_eq!(contents(first, &mut guard, "TESTING", "FILE").unwrap(), "FILE");
    assert!(!guard.is_claimed());
}

#[test]
fn test_file_or_stdin_optional_arg() {
    let mut guard = StdinGuard::new();
    let second: FileOrStdin<u32> = FileOrStdin::from_token(FILE_PATH);
    assert_eq!(contents(second, &mut guard, "", "2").unwrap(), 2);

    let mut guard = StdinGuard::new();
    let second: FileOrStdin<u32> = FileOrStdin::from_token("-");
    assert_eq!(contents(second, &mut guard, "2\n", "").unwrap(), 2);
}

#[test]
fn test_file_or_stdin_twice() {
    let mut guard = StdinGuard::new();
    let first: FileOrStdin = FileOrStdin::from_token(FILE_PATH);
    let second = maybe::<u32>("2", &mut guard, "").unwrap();
    assert_eq!(contents(first, &mut guard, "", "FILE").unwrap(), "FILE");
    assert_eq!(second.into_inner(), 2);

    let mut guard = StdinGuard::new();
    let first: FileOrStdin = FileOrStdin::from_token(FILE_PATH);
    let second = maybe::<u32>("-", &mut guard, "2").unwrap();
    assert_eq!(contents(first, &mut guard, "2", "FILE").unwrap(), "FILE");
    assert_eq!(second.into_inner(), 2);

    // The eager value takes standard input; the lazy one then finds it taken.
    let mut guard = StdinGuard::new();
    let first: FileOrStdin = FileOrStdin::from_token("-");
    let second = maybe::<u32>("-", &mut guard, "3").unwrap();
    assert_eq!(second.into_inner(), 3);
    let err = contents(first, &mut guard, "3", "").err().unwrap();
    assert!(matches!(err, StdinError::StdInRepeatedUse));
}

#[test]
fn test_is_stdin() {
    let mut guard = StdinGuard::new();
    let first: FileOrStdin = FileOrStdin::from_token(FILE_PATH);
    let second = maybe::<u32>("2", &mut guard, "").unwrap();
    assert!(!first.is_stdin());
    assert!(!second.is_stdin());

    let mut guard = StdinGuard::new();
    let first: FileOrStdin = FileOrStdin::from_token(FILE_PATH);
    let second = maybe::<u32>("-", &mut guard, "2").unwrap();
    assert!(!first.is_stdin());
    assert!(second.is_stdin());

    let mut guard = StdinGuard::new();
    let first: FileOrStdin = FileOrStdin::from_token("-");
    let second = maybe::<u32>("2", &mut guard, "testing").unwrap();
    assert!(first.is_stdin());
    assert!(!second.is_stdin());
}

use clap_stdin::{FileOrStdin, FileOrStdout};

#[test]
fn file_or_stdin_test_source_methods() {
    let val: FileOrStdin<String> = "-".parse().unwrap();
    assert!(val.is_stdin());
    assert!(!val.is_file());
    assert_eq!(val.filename(), "-");

    let val: FileOrStdin<String> = "/path/to/something".parse().unwrap();
    assert!(val.is_file());
    assert!(!val.is_stdin());
    assert_eq!(val.filename(), "/path/to/something");
}

#[test]
fn file_or_stdout_test_source_methods() {
    let val: FileOrStdout = "-".parse().unwrap();
    assert!(val.is_stdout());
    assert!(!val.is_file());
    assert_eq!(val.filename(), "-");

    let val: FileOrStdout = "/path/to/something".parse().unwrap();
    assert!(val.is_file());
    assert!(!val.is_stdout());
    assert_eq!(val.filename(), "/path/to/something");
}

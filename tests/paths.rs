use ipipe::names::{
    create_path, decimal_string, fifo_create_path, posix_create_path, posix_name_path,
    random_path, windows_create_path, windows_name_path, FIFO_SUFFIX_LEN, SUFFIX_LEN,
};
use ipipe::node::{existing, existing_path, prepare, prepare_path, Prepare, Stat, ENOENT};
use ipipe::Error;

#[test]
fn decimal_of_numbers() {
    assert_eq!(decimal_string(0), "0");
    assert_eq!(decimal_string(7), "7");
    assert_eq!(decimal_string(10), "10");
    assert_eq!(decimal_string(4096), "4096");
    assert_eq!(decimal_string(u32::MAX), "4294967295");
}

#[test]
fn name_paths() {
    assert_eq!(posix_name_path("test1"), "/tmp/test1");
    assert_eq!(windows_name_path("test1"), r"\\.\pipe\test1");
    assert_eq!(posix_name_path(""), "/tmp/");
}

#[test]
fn same_name_meets_same_resource() {
    let a = posix_name_path("test1");
    let b = posix_name_path("test1");
    assert_eq!(a, b);
    assert_eq!(windows_name_path("test1"), windows_name_path("test1"));
}

#[test]
fn random_path_layout() {
    assert_eq!(random_path("/tmp/", 42, "abcDEF123"), "/tmp/pipe_42_abcDEF123");
}

fn check_made_up(path: &str, dir: &str, pid: u32, len: usize) {
    let prefix = format!("{}pipe_{}_", dir, pid);
    assert!(path.starts_with(&prefix));
    let suffix = &path[prefix.len()..];
    assert_eq!(suffix.len(), len);
    assert!(suffix.chars().all(|c| c.is_ascii_alphanumeric()));
}

#[test]
fn made_up_paths() {
    check_made_up(&posix_create_path(1234), "/tmp/", 1234, SUFFIX_LEN);
    check_made_up(&fifo_create_path(9), "/tmp/", 9, FIFO_SUFFIX_LEN);
    check_made_up(&windows_create_path(77), r"\\.\pipe\", 77, SUFFIX_LEN);
    check_made_up(&create_path("/var/", 5, 3), "/var/", 5, 3);
    assert_eq!(SUFFIX_LEN, 15);
}

#[test]
fn made_up_paths_differ() {
    assert_ne!(posix_create_path(1), posix_create_path(1));
}

#[test]
fn prepare_cases() {
    assert_eq!(prepare(true, Stat::Fifo), Ok(Prepare::Open));
    assert_eq!(prepare(true, Stat::Missing), Ok(Prepare::CreateThenOpen));
    assert_eq!(prepare(true, Stat::Other), Err(Error::InvalidPath));
    assert_eq!(prepare(true, Stat::Failed(13)), Err(Error::Os(13)));
    assert_eq!(prepare(false, Stat::Fifo), Err(Error::InvalidPath));
}

#[test]
fn non_pipe_node_rejected() {
    for parent in [true, false] {
        assert_eq!(prepare(parent, Stat::Other), Err(Error::InvalidPath));
        assert_eq!(existing(parent, Stat::Other, Error::InvalidPath), Err(Error::InvalidPath));
    }
}

#[test]
fn existing_cases() {
    assert_eq!(existing(true, Stat::Fifo, Error::InvalidPath), Ok(()));
    assert_eq!(existing(true, Stat::Other, Error::Os(ENOENT)), Err(Error::Os(ENOENT)));
    assert_eq!(existing(true, Stat::Missing, Error::InvalidPath), Err(Error::Os(2)));
    assert_eq!(existing(true, Stat::Failed(20), Error::InvalidPath), Err(Error::Os(20)));
    assert_eq!(existing(false, Stat::Fifo, Error::InvalidPath), Err(Error::InvalidPath));
}

#[test]
fn paths_without_parent() {
    assert_eq!(prepare_path("", Stat::Missing), Err(Error::InvalidPath));
    assert_eq!(prepare_path("/", Stat::Fifo), Err(Error::InvalidPath));
    assert_eq!(prepare_path("/tmp/p", Stat::Missing), Ok(Prepare::CreateThenOpen));
    assert_eq!(existing_path("", Stat::Fifo, Error::InvalidPath), Err(Error::InvalidPath));
    assert_eq!(existing_path("/tmp/p", Stat::Fifo, Error::InvalidPath), Ok(()));
}

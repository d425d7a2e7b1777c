use ipipe::names::posix_create_path;
use ipipe::node::{prepare_path, Prepare, Stat};
use ipipe::posix::{Choice, Direction, Pipe};
use ipipe::OnCleanup;
use nix::fcntl::{open, OFlag};
use nix::sys::stat::{stat, Mode, SFlag};
use nix::unistd::{close, getpid, mkfifo, read, unlink};

fn stat_of(path: &str) -> Stat {
    match stat(path) {
        Ok(s) if s.st_mode & SFlag::S_IFIFO.bits() != 0 => Stat::Fifo,
        Ok(_) => Stat::Other,
        Err(nix::errno::Errno::ENOENT) => Stat::Missing,
        Err(e) => Stat::Failed(e as i32),
    }
}

fn mode() -> Mode {
    Mode::S_IWUSR | Mode::S_IRUSR | Mode::S_IRGRP | Mode::S_IWGRP
}

fn open_pipe(path: &str) -> Pipe {
    if prepare_path(path, stat_of(path)).unwrap() == Prepare::CreateThenOpen {
        mkfifo(path, mode()).unwrap();
    }
    let fd = open(path, OFlag::O_RDWR | OFlag::O_NOCTTY, mode()).unwrap();
    Pipe::from_descriptor(path, fd as i64, OnCleanup::Delete)
}

fn ready(c: Choice) -> i32 {
    match c {
        Choice::Ready(fd) => fd as i32,
        other => panic!("no descriptor: {:?}", other),
    }
}

#[test]
fn write_then_read_in_order() {
    let path = posix_create_path(getpid().as_raw() as u32);
    let mut writer = open_pipe(&path);
    let mut reader = open_pipe(&path);
    assert_eq!(prepare_path(&path, stat_of(&path)), Ok(Prepare::Open));
    let wfd = ready(writer.select(Direction::Write));
    assert_eq!(nix::unistd::write(wfd, b"hello").unwrap(), 5);
    let rfd = ready(reader.select(Direction::Read));
    let mut buf = [0u8; 16];
    let n = read(rfd, &mut buf).unwrap();
    assert_eq!(&buf[..n], b"hello");
    close(wfd).unwrap();
    close(rfd).unwrap();
    assert!(writer.teardown());
    unlink(path.as_str()).unwrap();
}

#[test]
fn regular_file_is_not_a_pipe() {
    let path = posix_create_path(getpid().as_raw() as u32);
    let fd = open(path.as_str(), OFlag::O_CREAT | OFlag::O_WRONLY, mode()).unwrap();
    close(fd).unwrap();
    assert_eq!(stat_of(&path), Stat::Other);
    assert_eq!(prepare_path(&path, stat_of(&path)), Err(ipipe::Error::InvalidPath));
    unlink(path.as_str()).unwrap();
}

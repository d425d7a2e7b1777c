//! The paths of named pipes: derived from a bare name, or made up of the
//! process id and a random alphanumeric suffix.
use vstd::prelude::*;

verus! {

/// The length of the random suffix of a pipe's made-up name.
pub const SUFFIX_LEN: usize = 15;

/// The length of the random suffix of a single-descriptor FIFO's name.
pub const FIFO_SUFFIX_LEN: usize = 10;

pub open spec fn digit(d: nat) -> char {
    seq!['0', '1', '2', '3', '4', '5', '6', '7', '8', '9'][d as int]
}

/// The decimal digits of `n`, most significant first, without leading zeros.
pub open spec fn decimal(n: nat) -> Seq<char>
    decreases n,
{
    if n < 10 {
        seq![digit(n)]
    } else {
        decimal(n / 10).push(digit(n % 10))
    }
}

/// The directory of POSIX FIFOs: `/tmp/`.
pub open spec fn posix_dir() -> Seq<char> {
    seq!['/', 't', 'm', 'p', '/']
}

/// The namespace of Windows named pipes: `\\.\pipe\`.
pub open spec fn windows_dir() -> Seq<char> {
    seq!['\\', '\\', '.', '\\', 'p', 'i', 'p', 'e', '\\']
}

/// The made-up name `pipe_<pid>_<suffix>`.
pub open spec fn random_name(pid: nat, suffix: Seq<char>) -> Seq<char> {
    seq!['p', 'i', 'p', 'e', '_'] + decimal(pid) + seq!['_'] + suffix
}

pub open spec fn is_alphanumeric(c: char) -> bool {
    ('a' <= c && c <= 'z') || ('A' <= c && c <= 'Z') || ('0' <= c && c <= '9')
}

pub open spec fn all_alphanumeric(s: Seq<char>) -> bool {
    forall|i: int| 0 <= i < s.len() ==> #[trigger] is_alphanumeric(s[i])
}

fn digit_str(d: u32) -> (r: &'static str)
    requires
        d < 10,
    ensures
        r@ == seq![digit(d as nat)],
{
    proof {
        reveal_strlit("0");
        reveal_strlit("1");
        reveal_strlit("2");
        reveal_strlit("3");
        reveal_strlit("4");
        reveal_strlit("5");
        reveal_strlit("6");
        reveal_strlit("7");
        reveal_strlit("8");
        reveal_strlit("9");
    }
    match d {
        0 => "0",
        1 => "1",
        2 => "2",
        3 => "3",
        4 => "4",
        5 => "5",
        6 => "6",
        7 => "7",
        8 => "8",
        _ => "9",
    }
}

/// The decimal form of `n`.
pub fn decimal_string(n: u32) -> (r: String)
    ensures
        r@ == decimal(n as nat),
    decreases n,
{
    if n < 10 {
        String::from_str(digit_str(n))
    } else {
        let mut s = decimal_string(n / 10);
        s.append(digit_str(n % 10));
        s
    }
}

/// The FIFO path for a bare name: `/tmp/<name>`.
pub fn posix_name_path(name: &str) -> (r: String)
    ensures
        r@ == posix_dir() + name@,
{
    proof {
        reveal_strlit("/tmp/");
    }
    let mut s = String::from_str("/tmp/");
    s.append(name);
    s
}

/// The named-pipe path for a bare name: `\\.\pipe\<name>`.
pub fn windows_name_path(name: &str) -> (r: String)
    ensures
        r@ == windows_dir() + name@,
{
    proof {
        reveal_strlit("\\\\.\\pipe\\");
    }
    let mut s = String::from_str("\\\\.\\pipe\\");
    s.append(name);
    s
}

/// The path `<dir>pipe_<pid>_<suffix>`.
pub fn random_path(dir: &str, pid: u32, suffix: &str) -> (r: String)
    ensures
        r@ == dir@ + random_name(pid as nat, suffix@),
{
    proof {
        reveal_strlit("pipe_");
        reveal_strlit("_");
    }
    let mut s = String::from_str(dir);
    s.append("pipe_");
    let digits = decimal_string(pid);
    s.append(digits.as_str());
    s.append("_");
    s.append(suffix);
    proof {
        assert(s@ =~= dir@ + random_name(pid as nat, suffix@));
    }
    s
}

/// Relies on rand's `Alphanumeric.sample_string` over `thread_rng`: `len`
/// characters, each an ASCII letter or digit.
#[verifier::external_body]
fn alphanumeric(len: usize) -> (r: String)
    ensures
        r@.len() == len,
        all_alphanumeric(r@),
{
    rand::distributions::DistString::sample_string(
        &rand::distributions::Alphanumeric,
        &mut rand::thread_rng(),
        len,
    )
}

/// A fresh path `<dir>pipe_<pid>_<suffix>`, with a random alphanumeric suffix
/// of `len` characters.
pub fn create_path(dir: &str, pid: u32, len: usize) -> (r: String)
    ensures
        exists|suffix: Seq<char>|
            suffix.len() == len && all_alphanumeric(suffix) && r@ == dir@ + random_name(
                pid as nat,
                suffix,
            ),
{
    let suffix = alphanumeric(len);
    let r = random_path(dir, pid, suffix.as_str());
    assert(r@ == dir@ + random_name(pid as nat, suffix@));
    r
}

/// A fresh FIFO path under `/tmp/` for the process `pid`.
pub fn posix_create_path(pid: u32) -> (r: String)
    ensures
        exists|suffix: Seq<char>|
            suffix.len() == SUFFIX_LEN && all_alphanumeric(suffix) && r@ == posix_dir()
                + random_name(pid as nat, suffix),
{
    proof {
        reveal_strlit("/tmp/");
    }
    create_path("/tmp/", pid, SUFFIX_LEN)
}

/// A fresh single-descriptor FIFO path under `/tmp/` for the process `pid`.
pub fn fifo_create_path(pid: u32) -> (r: String)
    ensures
        exists|suffix: Seq<char>|
            suffix.len() == FIFO_SUFFIX_LEN && all_alphanumeric(suffix) && r@ == posix_dir()
                + random_name(pid as nat, suffix),
{
    proof {
        reveal_strlit("/tmp/");
    }
    create_path("/tmp/", pid, FIFO_SUFFIX_LEN)
}

/// A fresh named-pipe path under `\\.\pipe\` for the process `pid`.
pub fn windows_create_path(pid: u32) -> (r: String)
    ensures
        exists|suffix: Seq<char>|
            suffix.len() == SUFFIX_LEN && all_alphanumeric(suffix) && r@ == windows_dir()
                + random_name(pid as nat, suffix),
{
    proof {
        reveal_strlit("\\\\.\\pipe\\");
    }
    create_path("\\\\.\\pipe\\", pid, SUFFIX_LEN)
}

} // verus!

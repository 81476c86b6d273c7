//! Well-known locations of the PID file and the two log files, and the
//! privilege check that guards writes to them.
use vstd::prelude::*;
use vstd::string::*;

verus! {

/// The two ways of running the supervisor.
#[derive(Clone, Copy, Debug, PartialEq, Eq, Structural)]
pub enum Platform {
    /// Detaches into the background; system paths; needs root.
    Unix,
    /// Stays in the foreground; files in the temporary directory.
    Windows,
}

/// Locations of the files that make up a running instance.
#[derive(Clone, Debug)]
pub struct DaemonPaths {
    pub pid_file: String,
    pub stdout_log: String,
    pub stderr_log: String,
}

pub const PID_PATH: &'static str = "/var/run/auth.pid";

pub const DEFAULT_STDOUT_PATH: &'static str = "/var/run/auth.out";

pub const DEFAULT_STDERR_PATH: &'static str = "/var/run/auth.err";

pub const PID_FILE_NAME: &'static str = "devicecheck.pid";

pub const STDOUT_FILE_NAME: &'static str = "devicecheck.out";

pub const STDERR_FILE_NAME: &'static str = "devicecheck.err";

/// `name` is a plain file name: letters, digits and dots only, with at least
/// one letter or digit.
pub open spec fn is_plain_file_name(name: Seq<char>) -> bool {
    &&& forall|i: int|
        0 <= i < name.len() ==> {
            let u = #[trigger] name[i] as u32;
            u == 46 || (48 <= u && u <= 57) || (65 <= u && u <= 90) || (97 <= u && u <= 122)
        }
    &&& exists|i: int| 0 <= i < name.len() && #[trigger] name[i] != '.'
}

/// The path of the file `name` inside the directory `dir`: a `/` goes
/// between them unless `dir` is empty or already ends in one.
pub open spec fn joined(dir: Seq<char>, name: Seq<char>) -> Seq<char> {
    if dir.len() == 0 || dir.last() == '/' {
        dir + name
    } else {
        dir + seq!['/'] + name
    }
}

/// Relies on `Path::join` (that is, `PathBuf::push`) as it behaves on Unix,
/// the only kind of system this library builds for (it depends on nix):
/// a relative name is appended, after a `/` where the directory is not
/// empty and does not end in one.
#[verifier::external_body]
fn join_path(dir: &str, name: &str) -> (r: String)
    requires
        is_plain_file_name(name@),
    ensures
        r@ == joined(dir@, name@),
{
    std::path::Path::new(dir).join(name).display().to_string()
}

/// The PID file inside the temporary directory `temp_dir`.
pub fn get_pid_path(temp_dir: &str) -> (r: String)
    ensures
        r@ == joined(temp_dir@, PID_FILE_NAME@),
{
    proof {
        reveal_strlit("devicecheck.pid");
        assert("devicecheck.pid"@[0] != '.');
    }
    join_path(temp_dir, PID_FILE_NAME)
}

/// The standard output log inside the temporary directory `temp_dir`.
pub fn get_stdout_path(temp_dir: &str) -> (r: String)
    ensures
        r@ == joined(temp_dir@, STDOUT_FILE_NAME@),
{
    proof {
        reveal_strlit("devicecheck.out");
        assert("devicecheck.out"@[0] != '.');
    }
    join_path(temp_dir, STDOUT_FILE_NAME)
}

/// The standard error log inside the temporary directory `temp_dir`.
pub fn get_stderr_path(temp_dir: &str) -> (r: String)
    ensures
        r@ == joined(temp_dir@, STDERR_FILE_NAME@),
{
    proof {
        reveal_strlit("devicecheck.err");
        assert("devicecheck.err"@[0] != '.');
    }
    join_path(temp_dir, STDERR_FILE_NAME)
}

/// The PID file's location on `platform`; `temp_dir` is used on `Windows` only.
pub fn get_pid_path_cross_platform(platform: Platform, temp_dir: &str) -> (r: String)
    ensures
        platform == Platform::Unix ==> r@ == PID_PATH@,
        platform == Platform::Windows ==> r@ == joined(temp_dir@, PID_FILE_NAME@),
{
    match platform {
        Platform::Unix => String::from_str(PID_PATH),
        Platform::Windows => get_pid_path(temp_dir),
    }
}

/// The standard output log's location on `platform`.
pub fn get_stdout_path_cross_platform(platform: Platform, temp_dir: &str) -> (r: String)
    ensures
        platform == Platform::Unix ==> r@ == DEFAULT_STDOUT_PATH@,
        platform == Platform::Windows ==> r@ == joined(temp_dir@, STDOUT_FILE_NAME@),
{
    match platform {
        Platform::Unix => String::from_str(DEFAULT_STDOUT_PATH),
        Platform::Windows => get_stdout_path(temp_dir),
    }
}

/// The standard error log's location on `platform`.
pub fn get_stderr_path_cross_platform(platform: Platform, temp_dir: &str) -> (r: String)
    ensures
        platform == Platform::Unix ==> r@ == DEFAULT_STDERR_PATH@,
        platform == Platform::Windows ==> r@ == joined(temp_dir@, STDERR_FILE_NAME@),
{
    match platform {
        Platform::Unix => String::from_str(DEFAULT_STDERR_PATH),
        Platform::Windows => get_stderr_path(temp_dir),
    }
}

impl DaemonPaths {
    /// All three locations for `platform`, resolved once.
    pub fn resolve(platform: Platform, temp_dir: &str) -> (r: DaemonPaths)
        ensures
            platform == Platform::Unix ==> r.pid_file@ == PID_PATH@ && r.stdout_log@
                == DEFAULT_STDOUT_PATH@ && r.stderr_log@ == DEFAULT_STDERR_PATH@,
            platform == Platform::Windows ==> r.pid_file@ == joined(temp_dir@, PID_FILE_NAME@)
                && r.stdout_log@ == joined(temp_dir@, STDOUT_FILE_NAME@) && r.stderr_log@ == joined(
                temp_dir@,
                STDERR_FILE_NAME@,
            ),
    {
        DaemonPaths {
            pid_file: get_pid_path_cross_platform(platform, temp_dir),
            stdout_log: get_stdout_path_cross_platform(platform, temp_dir),
            stderr_log: get_stderr_path_cross_platform(platform, temp_dir),
        }
    }
}

} // verus!

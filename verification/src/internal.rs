//! Shared helpers: decimal rendering of PIDs, the witness-file name, and the
//! resolution of a target's working directory.

use vstd::prelude::*;
use crate::AttachError;

verus! {

/// The character for one decimal digit.
pub open spec fn digit_char(d: int) -> char {
    if d == 0 {
        '0'
    } else if d == 1 {
        '1'
    } else if d == 2 {
        '2'
    } else if d == 3 {
        '3'
    } else if d == 4 {
        '4'
    } else if d == 5 {
        '5'
    } else if d == 6 {
        '6'
    } else if d == 7 {
        '7'
    } else if d == 8 {
        '8'
    } else {
        '9'
    }
}

/// The decimal rendering of a number, most significant digit first, with no
/// leading zeros (a single `'0'` for zero).
pub open spec fn decimal_chars(n: nat) -> Seq<char>
    decreases n,
{
    if n < 10 {
        seq![digit_char(n as int)]
    } else {
        decimal_chars(n / 10) + seq![digit_char((n % 10) as int)]
    }
}

/// A one-character string for one decimal digit.
fn digit_str(d: u32) -> (s: &'static str)
    requires
        d < 10,
    ensures
        s@.len() == 1,
        s@[0] == digit_char(d as int),
{
    proof {
        reveal_strlit("0");
        reveal_strlit("1");
        reveal_strlit("2");
        reveal_strlit("3");
        reveal_strlit("4");
        reveal_strlit("5");
        reveal_strlit("6");
        reveal_strlit("7");
        reveal_strlit("8");
        reveal_strlit("9");
    }
    match d {
        0 => "0",
        1 => "1",
        2 => "2",
        3 => "3",
        4 => "4",
        5 => "5",
        6 => "6",
        7 => "7",
        8 => "8",
        _ => "9",
    }
}

/// Renders a number in decimal.
pub fn u32_decimal(n: u32) -> (s: String)
    ensures
        s@ == decimal_chars(n as nat),
    decreases n,
{
    if n < 10 {
        let s = digit_str(n).to_owned();
        proof {
            assert(s@ =~= decimal_chars(n as nat));
        }
        s
    } else {
        let mut s = u32_decimal(n / 10);
        s.append(digit_str(n % 10));
        proof {
            assert(s@ =~= decimal_chars(n as nat));
        }
        s
    }
}

/// View of the witness-file name for a target PID.
pub open spec fn spec_attach_file_name(pid: u32) -> Seq<char> {
    ".teleop_attach_"@ + decimal_chars(pid as nat)
}

/// The name of the witness file for a target PID: `.teleop_attach_<pid>`.
pub fn attach_file_name(pid: u32) -> (name: String)
    ensures
        name@ == spec_attach_file_name(pid),
{
    let mut name = ".teleop_attach_".to_owned();
    let digits = u32_decimal(pid);
    name.append(digits.as_str());
    name
}

/// Relies on sysinfo's `System::new_all`, `System::process` and
/// `Process::cwd`: reads the OS process table and returns the working
/// directory of the given process, if the process exists and its working
/// directory is known. The result depends on the state of the system, so
/// nothing is promised of it.
#[verifier::external_body]
fn process_cwd(pid: u32) -> Option<String> {
    let s = sysinfo::System::new_all();
    s.process(sysinfo::Pid::from_u32(pid))
        .and_then(|p| p.cwd())
        .map(|c| c.to_string_lossy().into_owned())
}

/// The path of the witness file for a target PID inside the given working
/// directory.
pub fn attach_file_path_in(cwd: String, pid: u32) -> (p: String)
    ensures
        p@ == cwd@ + "/"@ + spec_attach_file_name(pid),
{
    let mut p = cwd;
    p.append("/");
    let name = attach_file_name(pid);
    p.append(name.as_str());
    p
}

/// The path of the witness file for a target PID, placed in that process's
/// working directory as read from the OS process table. Fails when the PID
/// cannot be resolved to a working directory.
pub fn attach_file_path(pid: u32) -> (r: Result<String, AttachError>)
    ensures
        r matches Ok(p) ==> exists|cwd: Seq<char>|
            p@ == #[trigger] (cwd + "/"@ + spec_attach_file_name(pid)),
        r matches Err(e) ==> e == AttachError::ResolveTargetCwd,
{
    match process_cwd(pid) {
        None => Err(AttachError::ResolveTargetCwd),
        Some(cwd) => {
            let ghost cwd_chars: Seq<char> = cwd@;
            let p = attach_file_path_in(cwd, pid);
            proof {
                assert(p@ == cwd_chars + "/"@ + spec_attach_file_name(pid));
            }
            Ok(p)
        },
    }
}

/// A record of a witness file owned by a signal handle: the path at which the
/// unverified shell created the file, and at which it removes it when the
/// handle is dropped.
pub struct AutoDropFile {
    path: String,
}

impl AutoDropFile {
    /// View of the recorded path.
    pub closed spec fn spec_path(&self) -> Seq<char> {
        self.path@
    }

    /// Records a witness file at the given path.
    pub fn new(path: String) -> (f: Self)
        ensures
            f.spec_path() == path@,
    {
        AutoDropFile { path }
    }

    /// The recorded path.
    pub fn path(&self) -> (p: &String)
        ensures
            p@ == self.spec_path(),
    {
        &self.path
    }

    /// Gives the path up, for removal of the file.
    pub fn into_path(self) -> (p: String)
        ensures
            p@ == self.spec_path(),
    {
        self.path
    }
}

} // verus!

//! The sync executor adapter: everything the transfer-tool invocation
//! needs that is a pure function of its inputs.
//!
//! The transfer tool itself runs outside this crate; here its command
//! lines are built and its outcome is classified. The remote destination
//! is derived deterministically from the watched root: a fixed namespace
//! prefix followed by the root's final path component.

use vstd::prelude::*;
use vstd::string::*;

verus! {

/// The path's last character closes a lone-dot component: the path is
/// exactly `.` or ends in `/.`.
pub open spec fn ends_with_cur_dir(p: Seq<char>) -> bool {
    p.len() >= 1 && p.last() == '.' && (p.len() == 1 || p[p.len() - 2] == '/')
}

/// The path with trailing separators and trailing lone-dot components
/// removed, character by character.
pub open spec fn strip_trailing(p: Seq<char>) -> Seq<char>
    decreases p.len(),
{
    if p.len() == 0 {
        p
    } else if p.last() == '/' || ends_with_cur_dir(p) {
        strip_trailing(p.drop_last())
    } else {
        p
    }
}

/// Index of the first character after the last path separator, or zero
/// when the path holds no separator.
pub open spec fn base_start(p: Seq<char>) -> int
    decreases p.len(),
{
    if p.len() == 0 {
        0
    } else if p.last() == '/' {
        p.len() as int
    } else {
        base_start(p.drop_last())
    }
}

/// The final component of a path, resolved as a file name is: trailing
/// separators and lone-dot components are ignored, and a path whose last
/// component is `..` — like a bare root or an empty path — has the empty
/// base name.
pub open spec fn base_name_of(p: Seq<char>) -> Seq<char> {
    let q = strip_trailing(p);
    let t = q.subrange(base_start(q), q.len() as int);
    if t == seq!['.', '.'] {
        Seq::<char>::empty()
    } else {
        t
    }
}

/// The character before index `m` of `path` is one that stripping
/// removes: a separator, or the dot of a lone-dot component.
fn strips_at(path: &str, m: usize) -> (b: bool)
    requires
        1 <= m <= path@.len(),
    ensures
        b == (path@.take(m as int).last() == '/' || ends_with_cur_dir(path@.take(m as int))),
{
    let c = path.get_char(m - 1);
    if c == '/' {
        true
    } else if c == '.' {
        if m == 1 {
            true
        } else {
            path.get_char(m - 2) == '/'
        }
    } else {
        false
    }
}

/// The base name of `path`: its final component, empty when the path has
/// none.
pub fn base_name(path: &str) -> (r: &str)
    ensures
        r@ == base_name_of(path@),
{
    let n = path.unicode_len();
    proof {
        assert(path@.take(n as int) =~= path@);
    }
    let mut m = n;
    while m > 0 && strips_at(path, m)
        invariant
            n == path@.len(),
            m <= n,
            strip_trailing(path@.take(m as int)) == strip_trailing(path@),
        decreases m,
    {
        proof {
            assert(path@.take(m as int).drop_last() =~= path@.take(m as int - 1));
        }
        m = m - 1;
    }
    let ghost q = strip_trailing(path@);
    proof {
        assert(q == path@.take(m as int));
    }
    let mut start: usize = 0;
    let mut i: usize = 0;
    while i < m
        invariant
            n == path@.len(),
            0 <= i <= m <= n,
            0 <= start <= i,
            start == base_start(path@.take(i as int)),
        decreases m - i,
    {
        proof {
            assert(path@.take(i + 1).drop_last() =~= path@.take(i as int));
        }
        if path.get_char(i) == '/' {
            start = i + 1;
        }
        i = i + 1;
    }
    let tail = path.substring_char(start, m);
    proof {
        assert(tail@ =~= q.subrange(base_start(q), q.len() as int));
    }
    if tail.unicode_len() == 2 && tail.get_char(0) == '.' && tail.get_char(1) == '.' {
        proof {
            assert(tail@ =~= seq!['.', '.']);
            reveal_strlit("");
            assert(""@ =~= Seq::<char>::empty());
        }
        ""
    } else {
        proof {
            assert(tail@ != seq!['.', '.']);
        }
        tail
    }
}

/// The remote destination for a watched root: the backup namespace prefix
/// followed by the root's base name.
pub fn remote_destination(local_path: &str) -> (r: String)
    ensures
        r@ == "gdrive:slynk_backup/"@ + base_name_of(local_path@),
{
    let prefix = String::from_str("gdrive:slynk_backup/");
    prefix.concat(base_name(local_path))
}

/// The transfer tool's configuration file inside the application data
/// directory.
pub fn config_file_path(data_dir: &str) -> (r: String)
    ensures
        r@ == data_dir@ + "/rclone.conf"@,
{
    let dir = String::from_str(data_dir);
    dir.concat("/rclone.conf")
}

/// The argument list of one sync invocation: copy the watched root to its
/// remote destination, with the given configuration file.
pub fn sync_args(config_path: &str, local_path: &str, remote_dest: &str) -> (r: Vec<String>)
    ensures
        r@.len() == 5,
        r@[0]@ == "--config"@,
        r@[1]@ == config_path@,
        r@[2]@ == "copy"@,
        r@[3]@ == local_path@,
        r@[4]@ == remote_dest@,
{
    let mut args: Vec<String> = Vec::new();
    args.push(String::from_str("--config"));
    args.push(String::from_str(config_path));
    args.push(String::from_str("copy"));
    args.push(String::from_str(local_path));
    args.push(String::from_str(remote_dest));
    args
}

/// The argument list that creates the remote in the transfer tool's
/// configuration file, scoped to files the tool itself created.
pub fn login_args(config_path: &str) -> (r: Vec<String>)
    ensures
        r@.len() == 7,
        r@[0]@ == "--config"@,
        r@[1]@ == config_path@,
        r@[2]@ == "config"@,
        r@[3]@ == "create"@,
        r@[4]@ == "gdrive"@,
        r@[5]@ == "drive"@,
        r@[6]@ == "scope=drive.file"@,
{
    let mut args: Vec<String> = Vec::new();
    args.push(String::from_str("--config"));
    args.push(String::from_str(config_path));
    args.push(String::from_str("config"));
    args.push(String::from_str("create"));
    args.push(String::from_str("gdrive"));
    args.push(String::from_str("drive"));
    args.push(String::from_str("scope=drive.file"));
    args
}

/// Outcome of one sync executor invocation: success, or failure with the
/// transfer tool's opaque error text. Only logged, never persisted.
#[derive(Debug, PartialEq, Eq)]
pub enum SyncResult {
    /// The transfer finished with a zero exit status.
    Success,
    /// The transfer failed; the text is what the tool wrote to its error
    /// stream.
    Failure(String),
}

/// Classify one finished invocation of the transfer tool: a zero exit
/// status is a success, anything else a failure carrying the tool's error
/// text.
pub fn classify_output(status_success: bool, stderr: String) -> (r: SyncResult)
    ensures
        status_success ==> r == SyncResult::Success,
        !status_success ==> r == SyncResult::Failure(stderr),
{
    if status_success {
        SyncResult::Success
    } else {
        SyncResult::Failure(stderr)
    }
}

} // verus!

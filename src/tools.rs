//! The pure parts of the small companion tools: the syscall greeting, the recent-file
//! listing and the directory watcher's event labels.

use vstd::prelude::*;
use vstd::string::*;

verus! {

/// Seconds in a day: a file modified more recently than this is listed.
pub const RECENT_SECS: u64 = 86400;

/// The line that the syscall greeter writes to standard output.
pub fn any_name_except_main() -> (r: String)
    ensures
        r@ == "Hello, world, using syscalls!\n"@,
{
    String::from_str("Hello, world, using syscalls!\n")
}

/// The return value of a write: the byte count, or -1 where the call failed.
pub fn write_status(written: Option<usize>) -> (r: isize)
    ensures
        match written {
            Some(n) => r == n as isize,
            None => r == -1,
        },
{
    match written {
        Some(n) => n as isize,
        None => -1,
    }
}

/// The check that runs before the tools start; it has nothing to report.
pub fn do_some_error() -> (r: Result<(), String>)
    ensures
        r is Ok,
{
    Ok(())
}

/// A directory entry is listed when it is a file modified less than a day ago.
pub fn is_recent_file(age_secs: u64, is_file: bool) -> (r: bool)
    ensures
        r == (age_secs < RECENT_SECS && is_file),
{
    age_secs < RECENT_SECS && is_file
}

/// The label of a change: created wins over deleted, deleted over modified.
pub open spec fn event_label_of(created: bool, deleted: bool, modified: bool, is_dir: bool) -> Option<
    Seq<char>,
> {
    let what = if is_dir {
        "Directory"@
    } else {
        "File"@
    };
    if created {
        Some(what + " created"@)
    } else if deleted {
        Some(what + " deleted"@)
    } else if modified {
        Some(what + " modified"@)
    } else {
        None
    }
}

/// Labels a watched change from its event flags; none for other events.
pub fn event_label(created: bool, deleted: bool, modified: bool, is_dir: bool) -> (r: Option<String>)
    ensures
        match r {
            Some(s) => event_label_of(created, deleted, modified, is_dir) == Some(s@),
            None => event_label_of(created, deleted, modified, is_dir) is None,
        },
{
    if !created && !deleted && !modified {
        return None;
    }
    let mut s = if is_dir {
        String::from_str("Directory")
    } else {
        String::from_str("File")
    };
    if created {
        s.append(" created");
    } else if deleted {
        s.append(" deleted");
    } else {
        s.append(" modified");
    }
    Some(s)
}

} // verus!

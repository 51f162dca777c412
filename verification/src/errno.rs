//! Error codes and their names and messages.
//!
//! An error code is an `i32` other than zero; the codes that the table lists
//! are negative. The table is fixed, and a code that it does not list
//! resolves to the name and message of [`UNKNOWN`].
use vstd::prelude::*;

verus! {

/// A descriptor handed to the poll is not valid.
pub const EBADF: i32 = -9;

/// The loop's state could not be allocated.
pub const ENOMEM: i32 = -12;

/// An argument is not one the operation accepts.
pub const EINVAL: i32 = -22;

/// The system-wide table of open files is full.
pub const ENFILE: i32 = -23;

/// The process has too many open files.
pub const EMFILE: i32 = -24;

/// The code that stands for every error the table does not list.
pub const UNKNOWN: i32 = -4094;

/// Whether the table lists `code`.
pub open spec fn is_known(code: i32) -> bool {
    code == EBADF || code == ENOMEM || code == EINVAL || code == ENFILE || code == EMFILE || code
        == UNKNOWN
}

/// The symbolic name of `code`.
pub open spec fn name_of(code: i32) -> Seq<char> {
    if code == EBADF {
        "EBADF"@
    } else if code == ENOMEM {
        "ENOMEM"@
    } else if code == EINVAL {
        "EINVAL"@
    } else if code == ENFILE {
        "ENFILE"@
    } else if code == EMFILE {
        "EMFILE"@
    } else {
        "UNKNOWN"@
    }
}

/// The message that describes `code`.
pub open spec fn message_of(code: i32) -> Seq<char> {
    if code == EBADF {
        "bad file descriptor"@
    } else if code == ENOMEM {
        "not enough memory"@
    } else if code == EINVAL {
        "invalid argument"@
    } else if code == ENFILE {
        "file table overflow"@
    } else if code == EMFILE {
        "too many open files"@
    } else {
        "unknown error"@
    }
}

/// Returns the symbolic name of `err`, and `"UNKNOWN"` for a code outside the
/// table.
pub fn err_name(err: i32) -> (name: &'static str)
    ensures
        name@ == name_of(err),
        !is_known(err) ==> name@ == name_of(UNKNOWN),
{
    if err == EBADF {
        "EBADF"
    } else if err == ENOMEM {
        "ENOMEM"
    } else if err == EINVAL {
        "EINVAL"
    } else if err == ENFILE {
        "ENFILE"
    } else if err == EMFILE {
        "EMFILE"
    } else {
        "UNKNOWN"
    }
}

/// Returns the message that describes `err`, and `"unknown error"` for a code
/// outside the table.
pub fn strerror(err: i32) -> (message: &'static str)
    ensures
        message@ == message_of(err),
        !is_known(err) ==> message@ == message_of(UNKNOWN),
{
    if err == EBADF {
        "bad file descriptor"
    } else if err == ENOMEM {
        "not enough memory"
    } else if err == EINVAL {
        "invalid argument"
    } else if err == ENFILE {
        "file table overflow"
    } else if err == EMFILE {
        "too many open files"
    } else {
        "unknown error"
    }
}

/// Each listed code has a name of its own, and a code outside the table has
/// the name of [`UNKNOWN`]: the name tells the listed codes apart.
pub proof fn law_names_tell_codes_apart(a: i32, b: i32)
    ensures
        is_known(a) && is_known(b) && name_of(a) == name_of(b) ==> a == b,
        !is_known(a) ==> name_of(a) == name_of(UNKNOWN) && message_of(a) == message_of(UNKNOWN),
        name_of(a).len() > 0,
        message_of(a).len() > 0,
{
    reveal_strlit("EBADF");
    reveal_strlit("ENOMEM");
    reveal_strlit("EINVAL");
    reveal_strlit("ENFILE");
    reveal_strlit("EMFILE");
    reveal_strlit("UNKNOWN");
    reveal_strlit("bad file descriptor");
    reveal_strlit("not enough memory");
    reveal_strlit("invalid argument");
    reveal_strlit("file table overflow");
    reveal_strlit("too many open files");
    reveal_strlit("unknown error");
    if is_known(a) && is_known(b) && a != b {
        let x = name_of(a);
        let y = name_of(b);
        assert(x.len() != y.len() || x[1] != y[1] || x[2] != y[2]);
    }
}

/// Turns a status reported by the poll backend into a result: zero is success,
/// any other value is the error itself.
pub fn check_status(status: i32) -> (r: Result<(), i32>)
    ensures
        r == status_result(status),
{
    if status == 0 {
        Ok(())
    } else {
        Err(status)
    }
}

/// What a backend status means: `Ok` for zero, else the status as the error.
pub open spec fn status_result(status: i32) -> Result<(), i32> {
    if status == 0 {
        Ok(())
    } else {
        Err(status)
    }
}

} // verus!

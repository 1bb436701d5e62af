//! Path text for the session's home directory layout, and the errors
//! reported when the filesystem side (outside the library) cannot
//! provide it.

use crate::events::{NativeError, NativeErrorKind, Severity};
use vstd::prelude::*;

verus! {

/// The session's home directory under the user's home directory.
pub fn elrust_home_dir(home_dir: &str) -> (r: String)
    ensures
        r@ == home_dir@ + "/.elrust"@,
{
    let mut out = home_dir.to_owned();
    out.append("/.elrust");
    out
}

/// The log configuration file inside the session's home directory.
pub fn elrust_log_config(home_dir: &str) -> (r: String)
    ensures
        r@ == home_dir@ + "/.elrust/log4rs_updater.yaml"@,
{
    let mut out = elrust_home_dir(home_dir);
    out.append("/log4rs_updater.yaml");
    proof {
        reveal_strlit("/.elrust");
        reveal_strlit("/log4rs_updater.yaml");
        reveal_strlit("/.elrust/log4rs_updater.yaml");
        assert(out@ =~= home_dir@ + "/.elrust/log4rs_updater.yaml"@);
    }
    out
}

/// The directory for stream files inside the session's home directory.
pub fn streams_dir(home_dir: &str) -> (r: String)
    ensures
        r@ == home_dir@ + "/.elrust/tmp"@,
{
    let mut out = elrust_home_dir(home_dir);
    out.append("/tmp");
    proof {
        reveal_strlit("/.elrust");
        reveal_strlit("/tmp");
        reveal_strlit("/.elrust/tmp");
        assert(out@ =~= home_dir@ + "/.elrust/tmp"@);
    }
    out
}

/// The error reported when no home directory can be found.
pub fn home_dir_error() -> (r: NativeError)
    ensures
        r.severity == Severity::ERROR,
        r.kind == NativeErrorKind::Io,
        r.message matches Some(m) && m@ == "Fail to find home folder"@,
{
    NativeError {
        severity: Severity::ERROR,
        kind: NativeErrorKind::Io,
        message: Some(String::from_str("Fail to find home folder")),
    }
}

/// The error reported when the streams directory cannot be created.
pub fn streams_dir_error(streams: &str, detail: &str) -> (r: NativeError)
    ensures
        r.severity == Severity::ERROR,
        r.kind == NativeErrorKind::Io,
        r.message matches Some(m) && m@ == "Fail to create streams folder "@ + streams@ + ": "@
            + detail@,
{
    let mut msg = String::from_str("Fail to create streams folder ");
    msg.append(streams);
    msg.append(": ");
    msg.append(detail);
    proof {
        assert(msg@ =~= "Fail to create streams folder "@ + streams@ + ": "@ + detail@);
    }
    NativeError {
        severity: Severity::ERROR,
        kind: NativeErrorKind::Io,
        message: Some(msg),
    }
}

} // verus!

//! Decisions of the command layer that do not touch the terminal or the
//! network: confirmation handling and the errors the commands report.

use vstd::prelude::*;
use vstd::string::*;

use crate::error::{Error, ErrorKind};
use crate::strutil::{concat_strs, str_eq};

verus! {

/// Whether a typed confirmation accepts a destructive operation: only `y`
/// and `Y` do.
pub fn confirmation_accepted(input: &str) -> (r: bool)
    ensures
        r == (input@ == ("y")@ || input@ == ("Y")@),
{
    str_eq(input, "y") || str_eq(input, "Y")
}

/// The error reported when the repository to delete cannot be found on the
/// remote.
pub fn delete_not_found_error(name: &str, remote_name: &str) -> (e: Error)
    ensures
        e.kind == ErrorKind::NotFound,
        e.message@ == ("Repository ")@ + name@ + (" not found on remote ")@ + remote_name@ + (".")@,
        e.status is None,
{
    let mut m = concat_strs("Repository ", name);
    m.append(" not found on remote ");
    m.append(remote_name);
    m.append(".");
    Error::not_found(m.as_str())
}

} // verus!

//! The name of the operating system, from what was detected of it.

use crate::error::Failure;
use crate::error::ProcessError;
use crate::utils::text::contains;
use crate::utils::text::contains_text;
use vstd::prelude::*;
use vstd::string::*;

verus! {

/// The name under which the supported distribution is reported.
pub const UBUNTU: &'static str = "Ubuntu";

/// The normalised name of a system: `Ubuntu` wherever the version text
/// mentions it, and else the name of the system's type.
pub open spec fn os_name(version: Seq<char>, os_type: Seq<char>) -> Seq<char> {
    if contains_text(version, UBUNTU@) {
        UBUNTU@
    } else {
        os_type
    }
}

/// Names the operating system from what was detected of it: the text of its
/// version and the name of its type. It never fails.
pub fn fetch_os(version: &str, os_type: &str) -> (r: Result<String, ProcessError>)
    ensures
        r matches Ok(name) && name@ == os_name(version@, os_type@),
{
    if contains(version, UBUNTU) {
        Ok(UBUNTU.to_string())
    } else {
        Ok(os_type.to_string())
    }
}

} // verus!

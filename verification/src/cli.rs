//! Decision helpers of the interactive command-line flow. The prompt
//! loop itself does terminal I/O and lives outside the library.

use vstd::prelude::*;
use crate::text::str_eq;

verus! {

/// The interactive project generator.
pub struct GenCli;

impl GenCli {
    pub fn new() -> Self {
        GenCli
    }
}

/// The default template for a project type.
pub open spec fn spec_default_template(project_type: Seq<char>) -> Seq<char> {
    if project_type == "java"@ {
        "spring-boot"@
    } else {
        "basic"@
    }
}

/// Picks the default template for a project type: "spring-boot" for
/// Java projects, "basic" for everything else.
pub fn default_template_for(project_type: &str) -> (r: String)
    ensures
        r@ == spec_default_template(project_type@),
{
    if str_eq(project_type, "java") {
        "spring-boot".to_owned()
    } else {
        "basic".to_owned()
    }
}

/// Whether a (trimmed, lowercased) confirmation answer counts as yes:
/// an empty answer, "y" or "yes".
pub fn is_affirmative(input: &str) -> (r: bool)
    ensures
        r == (input@ == ""@ || input@ == "y"@ || input@ == "yes"@),
{
    str_eq(input, "") || str_eq(input, "y") || str_eq(input, "yes")
}

} // verus!

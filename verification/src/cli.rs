//! The command-line surface: the four subcommands of the audit and their
//! options, as plain values. Argument parsing itself happens outside the
//! library and hands these in.

use vstd::prelude::*;

verus! {

/// One subcommand of the audit tool, with its options.
#[derive(Debug, PartialEq, Eq)]
pub enum Sub {
    /// List the unused roles as tabular rows.
    ListUnusedRoles {
        path_prefix: Option<String>,
        last_accessed: Option<u64>,
        include_service_roles: bool,
        exclude_last_accessed_none: bool,
    },
    /// Print the shell commands that delete the unused roles.
    PrintDeleteUnusedRolesScripts {
        path_prefix: Option<String>,
        last_accessed: Option<u64>,
        include_service_roles: bool,
        exclude_last_accessed_none: bool,
    },
    /// List the unused policies as tabular rows.
    ListUnusedPolicies { path_prefix: Option<String> },
    /// Print the shell commands that delete the unused policies.
    PrintDeleteUnusedPoliciesScripts { path_prefix: Option<String> },
}

/// The parsed invocation.
#[derive(Debug, PartialEq, Eq)]
pub struct Opt {
    pub sub: Sub,
}

} // verus!

//! Plugin installation bookkeeping: where plugins live under the user's
//! home directory, and at which scope they are enabled. The JSON and
//! repository handling is done by the surrounding command.

use vstd::prelude::*;

verus! {

/// Where a plugin installation is recorded: in the current project's
/// settings or in the user's.
#[derive(Debug, Clone, Copy, PartialEq, Eq)]
pub enum Scope {
    Project,
    User,
}

/// The plugins directory under the given settings home directory.
pub fn plugins_dir(settings_home: &str) -> (r: String)
    ensures
        r@ == settings_home@ + "/plugins"@,
{
    let mut s = settings_home.to_owned();
    s.append("/plugins");
    s
}

} // verus!

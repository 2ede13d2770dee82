//! Well-known locations inside the control-plane checkout, relative to a
//! root directory that the caller resolves.

use vstd::prelude::*;
use vstd::string::StringExecFns;

verus! {

/// Location of the project registry below `root`.
pub fn get_config_path(root: &str) -> (r: String)
    ensures
        r@ == root@ + "/configs/projects.json"@,
{
    let mut s = String::from_str(root);
    s.append("/configs/projects.json");
    s
}

/// Location of the persisted upstream-commit baseline below `root`.
pub fn get_upstream_path(root: &str) -> (r: String)
    ensures
        r@ == root@ + "/configs/upstream_commits.json"@,
{
    let mut s = String::from_str(root);
    s.append("/configs/upstream_commits.json");
    s
}

/// Scratch directory where project repositories are cloned below `root`.
pub fn get_workspace_dir(root: &str) -> (r: String)
    ensures
        r@ == root@ + "/kernel_workspace"@,
{
    let mut s = String::from_str(root);
    s.append("/kernel_workspace");
    s
}

/// Location of a named template file below `root`.
pub fn get_template_path(root: &str, name: &str) -> (r: String)
    ensures
        r@ == root@ + "/templates/"@ + name@,
{
    let mut s = String::from_str(root);
    s.append("/templates/");
    s.append(name);
    s
}

} // verus!

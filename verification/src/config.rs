//! Project registry data model: one `ProjectConfig` per kernel project,
//! the `_globals` notification settings, and the description of one
//! root-module fork.

use vstd::prelude::*;
use vstd::string::StringExecFns;

use crate::errors::CiError;
use crate::strings::str_eq;

verus! {

/// Configuration of one kernel project, keyed in the registry by a stable
/// project identifier such as `device_soc`.
pub struct ProjectConfig {
    pub repo: String,
    pub defconfig: String,
    pub localversion_base: String,
    pub lto: Option<String>,
    pub supported_ksu: Option<Vec<String>>,
    pub toolchain_urls: Option<Vec<String>>,
    pub toolchain_path_prefix: Option<String>,
    pub toolchain_path_exports: Option<Vec<String>>,
    pub anykernel_repo: Option<String>,
    pub anykernel_branch: Option<String>,
    pub zip_name_prefix: Option<String>,
    pub version_method: Option<String>,
    pub extra_host_env: Option<bool>,
    pub disable_security: Option<Vec<String>>,
    pub readme_placeholders: Option<Vec<(String, String)>>,
}

/// Notification settings kept under the registry's reserved `_globals` key.
pub struct GlobalConfig {
    pub broadcast_channel: Option<String>,
    pub resukisu_chat_id: Option<String>,
    pub resukisu_topic_id: Option<i32>,
}

/// One tracked root-module fork: its repository, watched branch, setup
/// script location and the arguments that script takes.
pub struct KsuConfigItem {
    pub repo: String,
    pub branch: String,
    pub setup_url: String,
    pub setup_args: Vec<String>,
}

/// A project registry held in memory: key/configuration pairs in a fixed
/// order. Keys beginning with `_` are reserved and never name a project.
pub type Registry = Vec<(String, ProjectConfig)>;

/// The configuration stored under `key`, by exact match; the first pair
/// wins when a key repeats. A missing project is a `NotFound` error.
pub fn lookup_project(registry: &Registry, key: &str) -> (r: Result<usize, CiError>)
    ensures
        match r {
            Ok(i) => 0 <= i < registry@.len() && registry@[i as int].0@ == key@ && forall|j: int|
                0 <= j < i ==> registry@[j].0@ != key@,
            Err(e) => (forall|j: int| 0 <= j < registry@.len() ==> registry@[j].0@ != key@)
                && (e matches CiError::NotFound { what } && what@ == key@),
        },
{
    let mut i: usize = 0;
    while i < registry.len()
        invariant
            0 <= i <= registry@.len(),
            forall|j: int| 0 <= j < i ==> registry@[j].0@ != key@,
        decreases registry@.len() - i,
    {
        if str_eq(registry[i].0.as_str(), key) {
            return Ok(i);
        }
        i = i + 1;
    }
    Err(CiError::NotFound { what: String::from_str(key) })
}

/// A fresh registry entry as the `add` command creates it: the three
/// current forks supported, the device names recorded for templating, and
/// an empty toolchain prefix treated as unset.
pub fn new_project(
    repo: String,
    defconfig: String,
    localversion: String,
    device_cn: String,
    device_en: String,
    ak3_repo: String,
    ak3_branch: String,
    zip_name: String,
    toolchain_prefix: String,
) -> (r: ProjectConfig)
    ensures
        r.repo == repo,
        r.defconfig == defconfig,
        r.localversion_base == localversion,
        r.lto is None,
        r.supported_ksu matches Some(sk) && sk@.len() == 3 && sk@[0]@ == "resukisu"@ && sk@[1]@
            == "mksu"@ && sk@[2]@ == "ksu"@,
        r.toolchain_urls is None,
        toolchain_prefix@.len() == 0 ==> r.toolchain_path_prefix is None,
        toolchain_prefix@.len() > 0 ==> r.toolchain_path_prefix == Some(toolchain_prefix),
        r.toolchain_path_exports is None,
        r.anykernel_repo == Some(ak3_repo),
        r.anykernel_branch == Some(ak3_branch),
        r.zip_name_prefix == Some(zip_name),
        r.version_method is None,
        r.extra_host_env is None,
        r.disable_security is None,
        r.readme_placeholders matches Some(ph) && ph@.len() == 2 && ph@[0].0@
            == "DEVICE_NAME_CN"@ && ph@[0].1 == device_cn && ph@[1].0@ == "DEVICE_NAME_EN"@
            && ph@[1].1 == device_en,
{
    let mut supported: Vec<String> = Vec::new();
    supported.push(String::from_str("resukisu"));
    supported.push(String::from_str("mksu"));
    supported.push(String::from_str("ksu"));

    let mut placeholders: Vec<(String, String)> = Vec::new();
    placeholders.push((String::from_str("DEVICE_NAME_CN"), device_cn));
    placeholders.push((String::from_str("DEVICE_NAME_EN"), device_en));

    let prefix = if toolchain_prefix.as_str().is_empty() {
        None
    } else {
        Some(toolchain_prefix)
    };

    ProjectConfig {
        repo,
        defconfig,
        localversion_base: localversion,
        lto: None,
        supported_ksu: Some(supported),
        toolchain_urls: None,
        toolchain_path_prefix: prefix,
        toolchain_path_exports: None,
        anykernel_repo: Some(ak3_repo),
        anykernel_branch: Some(ak3_branch),
        zip_name_prefix: Some(zip_name),
        version_method: None,
        extra_host_env: None,
        disable_security: None,
        readme_placeholders: Some(placeholders),
    }
}

} // verus!

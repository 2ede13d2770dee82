//! What the pipeline hands to its CI host: variable lines for the
//! append-only environment and output files, the build matrix branches,
//! and the registry values exported by the `parse` step.

use vstd::prelude::*;
use vstd::string::StringExecFns;

use crate::config::ProjectConfig;
use crate::strings::bool_str;
use crate::strings::bool_string;
use crate::strings::opt_str;
use crate::strings::pair_views;
use crate::strings::string_views;
use crate::strings::unwrap_or_str;
use crate::variant::normalize_variant;
use crate::variant::normalize_variant_spec;

verus! {

/// One `key=value` line of a CI variable or output file.
pub fn env_file_line(key: &str, value: &str) -> (r: String)
    ensures
        r@ == key@ + "="@ + value@,
{
    let mut s = String::from_str(key);
    s.append("=");
    s.append(value);
    s
}

/// One `export key='value'` line of the fallback shell variable file.
pub fn shell_export_line(key: &str, value: &str) -> (r: String)
    ensures
        r@ == "export "@ + key@ + "='"@ + value@ + "'"@,
{
    let mut s = String::from_str("export ");
    s.append(key);
    s.append("='");
    s.append(value);
    s.append("'");
    s
}

/// What serde_json's string serializer returns for a list of strings: the
/// JSON array holding those strings in order.
pub uninterp spec fn json_of_strings(items: Seq<Seq<char>>) -> Seq<char>;

/// Relies on serde_json::to_string: the JSON encoding of a vector of
/// strings, a function of the strings alone. Serializing strings cannot
/// fail — only a map with non-string keys or a failing Serialize
/// implementation can — so the result is always present.
#[verifier::external_body]
pub(crate) fn json_list(items: &Vec<String>) -> (r: String)
    ensures
        r@ == json_of_strings(string_views(items@)),
{
    serde_json::to_string(items).unwrap()
}

/// The build-matrix branches of one project: the stock `main` build first,
/// then every supported variant, the deprecated alias normalized.
pub fn matrix_branches(supported: &Option<Vec<String>>) -> (r: Vec<String>)
    ensures
        r@.len() == 1 + (match *supported {
            Some(s) => s@.len(),
            None => 0,
        }),
        r@[0]@ == "main"@,
        *supported matches Some(s) ==> forall|i: int|
            0 <= i < s@.len() ==> (#[trigger] r@[1 + i])@ == normalize_variant_spec((s@[i])@),
{
    let mut branches: Vec<String> = Vec::new();
    branches.push(String::from_str("main"));
    match supported {
        None => branches,
        Some(s) => {
            let mut i: usize = 0;
            while i < s.len()
                invariant
                    *supported is Some && supported->0 == *s,
                    0 <= i <= s@.len(),
                    branches@.len() == 1 + i,
                    branches@[0]@ == "main"@,
                    forall|j: int| 0 <= j < i ==> (#[trigger] branches@[1 + j])@
                        == normalize_variant_spec((s@[j])@),
                decreases s@.len() - i,
            {
                branches.push(normalize_variant(s[i].as_str()));
                i = i + 1;
            }
            branches
        },
    }
}

pub open spec fn opt_bool(o: Option<bool>) -> bool {
    match o {
        Some(b) => b,
        None => false,
    }
}

pub open spec fn opt_string_views(o: Option<Vec<String>>) -> Seq<Seq<char>> {
    match o {
        Some(v) => string_views(v@),
        None => Seq::empty(),
    }
}

/// The variables the `parse` step exports for one project, in order:
/// the mandatory fields, the LTO mode only when set, the defaulted
/// naming and packaging fields, and the JSON-encoded lists; the toolchain
/// locations are exported only when the project downloads a toolchain.
pub open spec fn parse_entries_spec(p: ProjectConfig) -> Seq<(Seq<char>, Seq<char>)> {
    seq![
        ("PROJECT_REPO"@, p.repo@),
        ("PROJECT_DEFCONFIG"@, p.defconfig@),
        ("PROJECT_LOCALVERSION_BASE"@, p.localversion_base@),
    ] + (match p.lto {
        Some(l) => seq![("PROJECT_LTO"@, l@)],
        None => Seq::empty(),
    }) + seq![
        ("PROJECT_TOOLCHAIN_PREFIX"@, opt_str(p.toolchain_path_prefix, Seq::empty())),
        ("PROJECT_ZIP_NAME_PREFIX"@, opt_str(p.zip_name_prefix, "Kernel"@)),
        ("PROJECT_AK3_REPO"@, opt_str(p.anykernel_repo, Seq::empty())),
        ("PROJECT_AK3_BRANCH"@, opt_str(p.anykernel_branch, Seq::empty())),
        ("PROJECT_VERSION_METHOD"@, opt_str(p.version_method, "param"@)),
        ("PROJECT_EXTRA_HOST_ENV"@, bool_str(opt_bool(p.extra_host_env))),
        ("PROJECT_TOOLCHAIN_EXPORTS"@, json_of_strings(opt_string_views(p.toolchain_path_exports))),
        ("PROJECT_DISABLE_SECURITY"@, json_of_strings(opt_string_views(p.disable_security))),
    ] + (match p.toolchain_urls {
        Some(u) => seq![("PROJECT_TOOLCHAIN_URLS"@, json_of_strings(string_views(u@)))],
        None => Seq::empty(),
    })
}

/// The `parse` step's exported variables for one project.
pub fn parse_entries(p: &ProjectConfig) -> (r: Vec<(String, String)>)
    ensures
        pair_views(r@) == parse_entries_spec(*p),
{
    let mut entries: Vec<(String, String)> = Vec::new();
    entries.push((String::from_str("PROJECT_REPO"), p.repo.clone()));
    entries.push((String::from_str("PROJECT_DEFCONFIG"), p.defconfig.clone()));
    entries.push((String::from_str("PROJECT_LOCALVERSION_BASE"), p.localversion_base.clone()));
    match &p.lto {
        Some(l) => {
            entries.push((String::from_str("PROJECT_LTO"), l.clone()));
        },
        None => {},
    }
    entries.push(
        (
            String::from_str("PROJECT_TOOLCHAIN_PREFIX"),
            unwrap_or_str(&p.toolchain_path_prefix, ""),
        ),
    );
    entries.push(
        (
            String::from_str("PROJECT_ZIP_NAME_PREFIX"),
            unwrap_or_str(&p.zip_name_prefix, "Kernel"),
        ),
    );
    entries.push(
        (String::from_str("PROJECT_AK3_REPO"), unwrap_or_str(&p.anykernel_repo, "")),
    );
    entries.push(
        (
            String::from_str("PROJECT_AK3_BRANCH"),
            unwrap_or_str(&p.anykernel_branch, ""),
        ),
    );
    entries.push(
        (
            String::from_str("PROJECT_VERSION_METHOD"),
            unwrap_or_str(&p.version_method, "param"),
        ),
    );
    let host_env = match p.extra_host_env {
        Some(b) => b,
        None => false,
    };
    entries.push(
        (String::from_str("PROJECT_EXTRA_HOST_ENV"), bool_string(host_env)),
    );
    let exports_json = match &p.toolchain_path_exports {
        Some(v) => json_list(v),
        None => {
            let empty: Vec<String> = Vec::new();
            proof {
                assert(string_views(empty@) =~= Seq::<Seq<char>>::empty());
            }
            json_list(&empty)
        },
    };
    entries.push((String::from_str("PROJECT_TOOLCHAIN_EXPORTS"), exports_json));
    let security_json = match &p.disable_security {
        Some(v) => json_list(v),
        None => {
            let empty: Vec<String> = Vec::new();
            proof {
                assert(string_views(empty@) =~= Seq::<Seq<char>>::empty());
            }
            json_list(&empty)
        },
    };
    entries.push((String::from_str("PROJECT_DISABLE_SECURITY"), security_json));
    match &p.toolchain_urls {
        Some(u) => {
            let urls_json = json_list(u);
            entries.push((String::from_str("PROJECT_TOOLCHAIN_URLS"), urls_json));
        },
        None => {},
    }
    proof {
        reveal_strlit("");
        assert(""@ =~= Seq::<char>::empty());
        assert(pair_views(entries@) =~= parse_entries_spec(*p));
    }
    entries
}

} // verus!

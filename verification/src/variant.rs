//! Variant resolution: the single source of truth mapping a branch or
//! variant token to its display suffix and to the root-module fork it
//! names. The deprecated `sukisuultra` alias resolves like `resukisu` at
//! every ingestion point.

use vstd::prelude::*;
use vstd::string::StringExecFns;

use crate::config::KsuConfigItem;
use crate::strings::str_eq;

verus! {

/// What `str::to_uppercase` returns: the Unicode uppercase form of the
/// characters, a function of the characters alone.
pub uninterp spec fn upper_of(s: Seq<char>) -> Seq<char>;

/// Relies on str::to_uppercase: the Unicode uppercase mapping, which
/// depends on the characters of the input alone.
#[verifier::external_body]
fn uppercase(s: &str) -> (r: String)
    ensures
        r@ == upper_of(s@),
{
    s.to_uppercase()
}

/// Canonical form of a variant token: the deprecated alias becomes
/// `resukisu`; every other token stands for itself.
pub open spec fn normalize_variant_spec(v: Seq<char>) -> Seq<char> {
    if v == "sukisuultra"@ {
        "resukisu"@
    } else {
        v
    }
}

pub fn normalize_variant(v: &str) -> (r: String)
    ensures
        r@ == normalize_variant_spec(v@),
{
    if str_eq(v, "sukisuultra") {
        String::from_str("resukisu")
    } else {
        String::from_str(v)
    }
}

/// Display suffix of a variant token: fixed names for the known tokens,
/// the uppercased token for anything else.
pub open spec fn variant_suffix_spec(v: Seq<char>) -> Seq<char> {
    if v == "main"@ || v == "lkm"@ {
        "LKM"@
    } else if v == "ksu"@ {
        "KSU"@
    } else if v == "mksu"@ {
        "MKSU"@
    } else if v == "resukisu"@ || v == "sukisuultra"@ {
        "ReSuki"@
    } else {
        upper_of(v)
    }
}

pub fn variant_suffix(v: &str) -> (r: String)
    ensures
        r@ == variant_suffix_spec(v@),
{
    if str_eq(v, "main") || str_eq(v, "lkm") {
        String::from_str("LKM")
    } else if str_eq(v, "ksu") {
        String::from_str("KSU")
    } else if str_eq(v, "mksu") {
        String::from_str("MKSU")
    } else if str_eq(v, "resukisu") || str_eq(v, "sukisuultra") {
        String::from_str("ReSuki")
    } else {
        uppercase(v)
    }
}

/// Variant resolution is total (the spec functions cover every token) and
/// stable under alias normalization: a token and its canonical form always
/// resolve to the same suffix, and normalizing twice changes nothing, so
/// registry matching, baseline keys and dispatch records agree.
pub proof fn lemma_variant_resolution_stable(v: Seq<char>)
    ensures
        variant_suffix_spec(normalize_variant_spec(v)) == variant_suffix_spec(v),
        normalize_variant_spec(normalize_variant_spec(v)) == normalize_variant_spec(v),
{
    reveal_strlit("sukisuultra");
    reveal_strlit("resukisu");
    reveal_strlit("main");
    reveal_strlit("lkm");
    reveal_strlit("ksu");
    reveal_strlit("mksu");
    assert("sukisuultra"@.len() == 11);
    assert("resukisu"@.len() == 8);
    assert("main"@.len() == 4);
    assert("lkm"@.len() == 3);
    assert("ksu"@.len() == 3);
    assert("mksu"@.len() == 4);
}

/// The tracked root-module forks, in the order the watcher scans them.
pub fn fork_variants() -> (r: Vec<String>)
    ensures
        r@.len() == 3,
        r@[0]@ == "ksu"@,
        r@[1]@ == "mksu"@,
        r@[2]@ == "resukisu"@,
{
    let mut v: Vec<String> = Vec::new();
    v.push(String::from_str("ksu"));
    v.push(String::from_str("mksu"));
    v.push(String::from_str("resukisu"));
    v
}

/// Repository, branch, setup script and setup arguments of the fork a
/// variant token names, after normalization; `None` for the stock build
/// and for unknown tokens.
pub fn ksu_fork_config(variant: &str) -> (r: Option<KsuConfigItem>)
    ensures
        match r {
            Some(c) => {
                let n = normalize_variant_spec(variant@);
                &&& (n == "ksu"@ || n == "mksu"@ || n == "resukisu"@)
                &&& c.branch@ == "main"@
                &&& (n == "ksu"@ ==> c.repo@ == "https://github.com/tiann/KernelSU.git"@
                    && c.setup_url@
                    == "https://raw.githubusercontent.com/tiann/KernelSU/main/kernel/setup.sh"@
                    && c.setup_args@.len() == 1 && c.setup_args@[0]@ == "main"@)
                &&& (n == "mksu"@ ==> c.repo@ == "https://github.com/5ec1cff/KernelSU.git"@
                    && c.setup_url@
                    == "https://raw.githubusercontent.com/5ec1cff/KernelSU/main/kernel/setup.sh"@
                    && c.setup_args@.len() == 1 && c.setup_args@[0]@ == "main"@)
                &&& (n == "resukisu"@ ==> c.repo@ == "https://github.com/ReSukiSU/ReSukiSU.git"@
                    && c.setup_url@
                    == "https://raw.githubusercontent.com/ReSukiSU/ReSukiSU/main/kernel/setup.sh"@
                    && c.setup_args@.len() == 1 && c.setup_args@[0]@ == "builtin"@)
            },
            None => normalize_variant_spec(variant@) != "ksu"@ && normalize_variant_spec(variant@)
                != "mksu"@ && normalize_variant_spec(variant@) != "resukisu"@,
        },
{
    proof {
        reveal_strlit("ksu");
        reveal_strlit("mksu");
        reveal_strlit("resukisu");
        assert("ksu"@.len() == 3 && "mksu"@.len() == 4 && "resukisu"@.len() == 8);
    }
    let n = normalize_variant(variant);
    if str_eq(n.as_str(), "ksu") {
        let mut args: Vec<String> = Vec::new();
        args.push(String::from_str("main"));
        Some(
            KsuConfigItem {
                repo: String::from_str("https://github.com/tiann/KernelSU.git"),
                branch: String::from_str("main"),
                setup_url: String::from_str(
                    "https://raw.githubusercontent.com/tiann/KernelSU/main/kernel/setup.sh",
                ),
                setup_args: args,
            },
        )
    } else if str_eq(n.as_str(), "mksu") {
        let mut args: Vec<String> = Vec::new();
        args.push(String::from_str("main"));
        Some(
            KsuConfigItem {
                repo: String::from_str("https://github.com/5ec1cff/KernelSU.git"),
                branch: String::from_str("main"),
                setup_url: String::from_str(
                    "https://raw.githubusercontent.com/5ec1cff/KernelSU/main/kernel/setup.sh",
                ),
                setup_args: args,
            },
        )
    } else if str_eq(n.as_str(), "resukisu") {
        let mut args: Vec<String> = Vec::new();
        args.push(String::from_str("builtin"));
        Some(
            KsuConfigItem {
                repo: String::from_str("https://github.com/ReSukiSU/ReSukiSU.git"),
                branch: String::from_str("main"),
                setup_url: String::from_str(
                    "https://raw.githubusercontent.com/ReSukiSU/ReSukiSU/main/kernel/setup.sh",
                ),
                setup_args: args,
            },
        )
    } else {
        None
    }
}

/// Setup-script location and pass-through argument used when installing a
/// fork's kernel module straight into a checked-out source tree; `None`
/// for the stock build and for unknown tokens.
pub fn fork_setup(branch: &str) -> (r: Option<(String, String)>)
    ensures
        match r {
            Some(p) => {
                let n = normalize_variant_spec(branch@);
                &&& (n == "ksu"@ || n == "mksu"@ || n == "resukisu"@)
                &&& (n == "ksu"@ ==> p.0@
                    == "https://raw.githubusercontent.com/tiann/KernelSU/main/kernel/setup.sh"@
                    && p.1@ == "-"@)
                &&& (n == "mksu"@ ==> p.0@
                    == "https://raw.githubusercontent.com/5ec1cff/KernelSU/main/kernel/setup.sh"@
                    && p.1@ == "-"@)
                &&& (n == "resukisu"@ ==> p.0@
                    == "https://raw.githubusercontent.com/ReSukiSU/ReSukiSU/main/kernel/setup.sh"@
                    && p.1@ == "builtin"@)
            },
            None => normalize_variant_spec(branch@) != "ksu"@ && normalize_variant_spec(branch@)
                != "mksu"@ && normalize_variant_spec(branch@) != "resukisu"@,
        },
{
    proof {
        reveal_strlit("ksu");
        reveal_strlit("mksu");
        reveal_strlit("resukisu");
        assert("ksu"@.len() == 3 && "mksu"@.len() == 4 && "resukisu"@.len() == 8);
    }
    let n = normalize_variant(branch);
    if str_eq(n.as_str(), "ksu") {
        Some(
            (
                String::from_str(
                    "https://raw.githubusercontent.com/tiann/KernelSU/main/kernel/setup.sh",
                ),
                String::from_str("-"),
            ),
        )
    } else if str_eq(n.as_str(), "mksu") {
        Some(
            (
                String::from_str(
                    "https://raw.githubusercontent.com/5ec1cff/KernelSU/main/kernel/setup.sh",
                ),
                String::from_str("-"),
            ),
        )
    } else if str_eq(n.as_str(), "resukisu") {
        Some(
            (
                String::from_str(
                    "https://raw.githubusercontent.com/ReSukiSU/ReSukiSU/main/kernel/setup.sh",
                ),
                String::from_str("builtin"),
            ),
        )
    } else {
        None
    }
}

} // verus!

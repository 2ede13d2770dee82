//! Build-pipeline stage decisions: the argument vectors and environment
//! overrides for defconfig generation, security-feature disabling, LTO
//! mode selection, local-version stamping and the compile itself.

use vstd::prelude::*;
use vstd::string::StringExecFns;

use crate::meta::target_soc;
use crate::meta::target_soc_spec;
use crate::strings::opt_str;
use crate::strings::str_eq;
use crate::strings::unwrap_or_str;

verus! {

/// The fixed make arguments of every build, ending with the `TARGET_SOC`
/// derived from the project key and the compiler routing: through the
/// compiler cache when one is available, plain `clang` otherwise.
pub fn base_make_args(project_key: &str, ccache: bool) -> (r: Vec<String>)
    ensures
        r@.len() == 6,
        r@[0]@ == "O=out"@,
        r@[1]@ == "ARCH=arm64"@,
        r@[2]@ == "LLVM=1"@,
        r@[3]@ == "LLVM_IAS=1"@,
        r@[4]@ == "TARGET_SOC="@ + target_soc_spec(project_key@),
        r@[5]@ == if ccache {
            "CC=ccache clang"@
        } else {
            "CC=clang"@
        },
{
    let mut args: Vec<String> = Vec::new();
    args.push(String::from_str("O=out"));
    args.push(String::from_str("ARCH=arm64"));
    args.push(String::from_str("LLVM=1"));
    args.push(String::from_str("LLVM_IAS=1"));
    let mut soc_arg = String::from_str("TARGET_SOC=");
    let soc = target_soc(project_key);
    soc_arg.append(soc.as_str());
    args.push(soc_arg);
    if ccache {
        args.push(String::from_str("CC=ccache clang"));
    } else {
        args.push(String::from_str("CC=clang"));
    }
    args
}

/// Environment overrides that route compilation through the compiler
/// cache, with the cache directory below the working directory.
pub fn ccache_env(cwd: &str) -> (r: Vec<(String, String)>)
    ensures
        r@.len() == 3,
        r@[0].0@ == "CC"@ && r@[0].1@ == "ccache clang"@,
        r@[1].0@ == "CXX"@ && r@[1].1@ == "ccache clang++"@,
        r@[2].0@ == "CCACHE_DIR"@ && r@[2].1@ == cwd@ + "/.ccache"@,
{
    let mut dir = String::from_str(cwd);
    dir.append("/.ccache");
    let mut env: Vec<(String, String)> = Vec::new();
    env.push((String::from_str("CC"), String::from_str("ccache clang")));
    env.push((String::from_str("CXX"), String::from_str("ccache clang++")));
    env.push((String::from_str("CCACHE_DIR"), dir));
    env
}

/// The command that caps the compiler cache at its fixed five-gigabyte
/// ceiling.
pub fn ccache_configure_command() -> (r: Vec<String>)
    ensures
        r@.len() == 3,
        r@[0]@ == "ccache"@,
        r@[1]@ == "-M"@,
        r@[2]@ == "5G"@,
{
    let mut cmd: Vec<String> = Vec::new();
    cmd.push(String::from_str("ccache"));
    cmd.push(String::from_str("-M"));
    cmd.push(String::from_str("5G"));
    cmd
}

/// The defconfig invocation: `make`, the shared arguments, then the
/// project's defconfig fragment.
pub fn defconfig_command(args: &Vec<String>, defconfig: &str) -> (r: Vec<String>)
    ensures
        r@.len() == args@.len() + 2,
        r@[0]@ == "make"@,
        forall|i: int| 0 <= i < args@.len() ==> (#[trigger] r@[1 + i])@ == (args@[i])@,
        r@[args@.len() as int + 1]@ == defconfig@,
{
    let mut cmd: Vec<String> = Vec::new();
    cmd.push(String::from_str("make"));
    let mut i: usize = 0;
    while i < args.len()
        invariant
            0 <= i <= args@.len(),
            cmd@.len() == i + 1,
            cmd@[0]@ == "make"@,
            forall|j: int| 0 <= j < i ==> (#[trigger] cmd@[1 + j])@ == (args@[j])@,
        decreases args@.len() - i,
    {
        cmd.push(args[i].clone());
        i = i + 1;
    }
    cmd.push(String::from_str(defconfig));
    cmd
}

/// The compile invocation: `make -j<threads>` then the shared arguments.
pub fn build_command(args: &Vec<String>, threads: &str) -> (r: Vec<String>)
    ensures
        r@.len() == args@.len() + 2,
        r@[0]@ == "make"@,
        r@[1]@ == "-j"@ + threads@,
        forall|i: int| 0 <= i < args@.len() ==> (#[trigger] r@[2 + i])@ == (args@[i])@,
{
    let mut cmd: Vec<String> = Vec::new();
    cmd.push(String::from_str("make"));
    let mut jobs = String::from_str("-j");
    jobs.append(threads);
    cmd.push(jobs);
    let mut i: usize = 0;
    while i < args.len()
        invariant
            0 <= i <= args@.len(),
            cmd@.len() == i + 2,
            cmd@[0]@ == "make"@,
            cmd@[1]@ == "-j"@ + threads@,
            forall|j: int| 0 <= j < i ==> (#[trigger] cmd@[2 + j])@ == (args@[j])@,
        decreases args@.len() - i,
    {
        cmd.push(args[i].clone());
        i = i + 1;
    }
    cmd
}

/// The security-feature symbols turned off in the generated configuration:
/// always the seven baseline symbols, in this order, followed by the
/// project's extra symbols — appended, never substituted.
pub fn disable_configs(extra: &Option<Vec<String>>) -> (r: Vec<String>)
    ensures
        r@.len() == 7 + (match *extra {
            Some(e) => e@.len(),
            None => 0,
        }),
        r@[0]@ == "UH"@,
        r@[1]@ == "RKP"@,
        r@[2]@ == "KDP"@,
        r@[3]@ == "SECURITY_DEFEX"@,
        r@[4]@ == "INTEGRITY"@,
        r@[5]@ == "FIVE"@,
        r@[6]@ == "TRIM_UNUSED_KSYMS"@,
        *extra matches Some(e) ==> forall|i: int| 0 <= i < e@.len() ==> #[trigger] r@[7 + i]
            == e@[i],
{
    let mut symbols: Vec<String> = Vec::new();
    symbols.push(String::from_str("UH"));
    symbols.push(String::from_str("RKP"));
    symbols.push(String::from_str("KDP"));
    symbols.push(String::from_str("SECURITY_DEFEX"));
    symbols.push(String::from_str("INTEGRITY"));
    symbols.push(String::from_str("FIVE"));
    symbols.push(String::from_str("TRIM_UNUSED_KSYMS"));
    match extra {
        None => symbols,
        Some(e) => {
            let mut i: usize = 0;
            while i < e.len()
                invariant
                    extra is Some && extra->0 == *e,
                    0 <= i <= e@.len(),
                    symbols@.len() == 7 + i,
                    symbols@[0]@ == "UH"@,
                    symbols@[1]@ == "RKP"@,
                    symbols@[2]@ == "KDP"@,
                    symbols@[3]@ == "SECURITY_DEFEX"@,
                    symbols@[4]@ == "INTEGRITY"@,
                    symbols@[5]@ == "FIVE"@,
                    symbols@[6]@ == "TRIM_UNUSED_KSYMS"@,
                    forall|j: int| 0 <= j < i ==> #[trigger] symbols@[7 + j] == e@[j],
                decreases e@.len() - i,
            {
                symbols.push(e[i].clone());
                i = i + 1;
            }
            symbols
        },
    }
}

/// The `scripts/config` invocation that disables one symbol in the
/// generated configuration.
pub fn disable_config_command(symbol: &str) -> (r: Vec<String>)
    ensures
        r@.len() == 5,
        r@[0]@ == "scripts/config"@,
        r@[1]@ == "--file"@,
        r@[2]@ == "out/.config"@,
        r@[3]@ == "--disable"@,
        r@[4]@ == symbol@,
{
    let mut cmd: Vec<String> = Vec::new();
    cmd.push(String::from_str("scripts/config"));
    cmd.push(String::from_str("--file"));
    cmd.push(String::from_str("out/.config"));
    cmd.push(String::from_str("--disable"));
    cmd.push(String::from_str(symbol));
    cmd
}

/// The `scripts/config` invocation that applies the project's LTO choice:
/// `thin` enables thin LTO and disables full LTO, `full` the inverse, and
/// anything else leaves the defconfig's own choice untouched.
pub fn lto_command(lto: &Option<String>) -> (r: Option<Vec<String>>)
    ensures
        match r {
            Some(c) => {
                &&& *lto is Some
                &&& (opt_str(*lto, Seq::empty()) == "thin"@ || opt_str(*lto, Seq::empty())
                    == "full"@)
                &&& c@.len() == 7
                &&& c@[0]@ == "scripts/config"@
                &&& c@[1]@ == "--file"@
                &&& c@[2]@ == "out/.config"@
                &&& c@[3]@ == "-e"@
                &&& c@[5]@ == "-d"@
                &&& (opt_str(*lto, Seq::empty()) == "thin"@ ==> c@[4]@ == "LTO_CLANG_THIN"@
                    && c@[6]@ == "LTO_CLANG_FULL"@)
                &&& (opt_str(*lto, Seq::empty()) == "full"@ ==> c@[4]@ == "LTO_CLANG_FULL"@
                    && c@[6]@ == "LTO_CLANG_THIN"@)
            },
            None => !(*lto is Some && (opt_str(*lto, Seq::empty()) == "thin"@ || opt_str(
                *lto,
                Seq::empty(),
            ) == "full"@)),
        },
{
    proof {
        reveal_strlit("thin");
        reveal_strlit("full");
        assert("thin"@.len() == 4 && "full"@.len() == 4);
        assert("thin"@[0] == 't' && "full"@[0] == 'f');
    }
    match lto {
        None => None,
        Some(mode) => {
            if str_eq(mode.as_str(), "thin") {
                let mut cmd: Vec<String> = Vec::new();
                cmd.push(String::from_str("scripts/config"));
                cmd.push(String::from_str("--file"));
                cmd.push(String::from_str("out/.config"));
                cmd.push(String::from_str("-e"));
                cmd.push(String::from_str("LTO_CLANG_THIN"));
                cmd.push(String::from_str("-d"));
                cmd.push(String::from_str("LTO_CLANG_FULL"));
                Some(cmd)
            } else if str_eq(mode.as_str(), "full") {
                let mut cmd: Vec<String> = Vec::new();
                cmd.push(String::from_str("scripts/config"));
                cmd.push(String::from_str("--file"));
                cmd.push(String::from_str("out/.config"));
                cmd.push(String::from_str("-e"));
                cmd.push(String::from_str("LTO_CLANG_FULL"));
                cmd.push(String::from_str("-d"));
                cmd.push(String::from_str("LTO_CLANG_THIN"));
                Some(cmd)
            } else {
                None
            }
        },
    }
}

/// How the local version reaches the build: the `file` method writes
/// `<localversion>-g<short_sha>` into the tree's `localversion` sentinel
/// file (blanked again after a successful compile); every other method
/// passes an empty `LOCALVERSION=` make argument and injects the value as
/// an environment override.
pub enum VersionStamp {
    File { content: String },
    Param { make_arg: String, localversion: String },
}

pub fn version_stamp(method: &Option<String>, localversion: &str, short_sha: &str) -> (r:
    VersionStamp)
    ensures
        match r {
            VersionStamp::File { content } => opt_str(*method, "param"@) == "file"@ && content@
                == localversion@ + "-g"@ + short_sha@,
            VersionStamp::Param { make_arg, localversion: lv } => opt_str(*method, "param"@)
                != "file"@ && make_arg@ == "LOCALVERSION="@ && lv@ == localversion@,
        },
{
    let m = unwrap_or_str(method, "param");
    if str_eq(m.as_str(), "file") {
        let mut content = String::from_str(localversion);
        content.append("-g");
        content.append(short_sha);
        VersionStamp::File { content }
    } else {
        VersionStamp::Param {
            make_arg: String::from_str("LOCALVERSION="),
            localversion: String::from_str(localversion),
        }
    }
}

} // verus!

//! Toolchain provisioning decisions: which of three best-effort archive
//! layouts a downloaded toolchain uses, and the cross-compilation
//! environment derived from the project's toolchain configuration.

use vstd::prelude::*;
use vstd::string::StrSliceExecFns;
use vstd::string::StringExecFns;

use crate::strings::contains_seq;
use crate::strings::contains_str;
use crate::strings::ends_with_str;
use crate::strings::opt_str;
use crate::strings::str_eq;
use crate::strings::string_views;
use crate::strings::unwrap_or_str;

verus! {

pub open spec fn is_ascii_digit(c: char) -> bool {
    '0' <= c && c <= '9'
}

/// A numeric multi-part archive piece: the name has `.tar.gz.` somewhere,
/// immediately followed by a digit (the shell pattern `*.tar.gz.[0-9]*`).
pub open spec fn numeric_part_name(s: Seq<char>) -> bool {
    exists|i: int|
        0 <= i && i + 9 <= s.len() && #[trigger] s.subrange(i, i + 8) == ".tar.gz."@
            && is_ascii_digit(s[i + 8])
}

/// An `aa`-style split archive piece, under any of the three naming
/// conventions the extractor recognizes.
pub open spec fn split_part_name(s: Seq<char>) -> bool {
    contains_seq(s, "part_aa"@) || "_aa.tar.gz"@.is_suffix_of(s) || ".tar.gz.aa"@.is_suffix_of(s)
}

pub fn has_numeric_part_suffix(name: &str) -> (r: bool)
    ensures
        r == numeric_part_name(name@),
{
    let nl = name.unicode_len();
    if nl < 9 {
        return false;
    }
    let mut i: usize = 0;
    while i <= nl - 9
        invariant
            nl == name@.len(),
            9 <= nl,
            0 <= i <= nl - 8,
            forall|j: int| 0 <= j < i && j + 9 <= nl ==> !(#[trigger] name@.subrange(j, j + 8)
                == ".tar.gz."@ && is_ascii_digit(name@[j + 8])),
        decreases nl - i,
    {
        let sub = name.substring_char(i, i + 8);
        let c = name.get_char(i + 8);
        if str_eq(sub, ".tar.gz.") && c >= '0' && c <= '9' {
            return true;
        }
        i = i + 1;
    }
    false
}

pub fn is_split_part_name(name: &str) -> (r: bool)
    ensures
        r == split_part_name(name@),
{
    contains_str(name, "part_aa") || ends_with_str(name, "_aa.tar.gz") || ends_with_str(
        name,
        ".tar.gz.aa",
    )
}

/// The three archive layouts the extractor knows, detected in this order:
/// numeric multi-part pieces concatenated and decompressed as one stream;
/// `aa`-style split pieces concatenated likewise; otherwise every
/// top-level `.tar.gz` extracted on its own. A best-effort shell-level
/// heuristic over downloaded file names, not a manifest-driven unpack.
#[derive(Debug, PartialEq, Eq, Structural)]
pub enum ExtractMode {
    MultiPartNumeric,
    SplitConcat,
    PerFile,
}

pub open spec fn any_numeric(fs: Seq<String>) -> bool {
    exists|i: int| 0 <= i < fs.len() && numeric_part_name((#[trigger] fs[i])@)
}

pub open spec fn any_split(fs: Seq<String>) -> bool {
    exists|i: int| 0 <= i < fs.len() && split_part_name((#[trigger] fs[i])@)
}

pub open spec fn extract_mode_spec(fs: Seq<String>) -> ExtractMode {
    if any_numeric(fs) {
        ExtractMode::MultiPartNumeric
    } else if any_split(fs) {
        ExtractMode::SplitConcat
    } else {
        ExtractMode::PerFile
    }
}

/// Which extraction mode the downloaded file names call for.
pub fn select_extract_mode(files: &Vec<String>) -> (r: ExtractMode)
    ensures
        r == extract_mode_spec(files@),
{
    let mut i: usize = 0;
    while i < files.len()
        invariant
            0 <= i <= files@.len(),
            forall|j: int| 0 <= j < i ==> !numeric_part_name((#[trigger] files@[j])@),
        decreases files@.len() - i,
    {
        if has_numeric_part_suffix(files[i].as_str()) {
            proof {
                assert(numeric_part_name((files@[i as int])@));
            }
            return ExtractMode::MultiPartNumeric;
        }
        i = i + 1;
    }
    let mut j: usize = 0;
    while j < files.len()
        invariant
            !any_numeric(files@),
            0 <= j <= files@.len(),
            forall|k: int| 0 <= k < j ==> !split_part_name((#[trigger] files@[k])@),
        decreases files@.len() - j,
    {
        if is_split_part_name(files[j].as_str()) {
            proof {
                assert(split_part_name((files@[j as int])@));
            }
            return ExtractMode::SplitConcat;
        }
        j = j + 1;
    }
    ExtractMode::PerFile
}

/// `PATH` after prepending `base/<export>` for each configured export in
/// listed order; each prepend lands in front of the previous result.
pub open spec fn path_with_exports(base: Seq<char>, exports: Seq<Seq<char>>, old: Seq<char>) -> Seq<
    char,
>
    decreases exports.len(),
{
    if exports.len() == 0 {
        old
    } else {
        base + "/"@ + exports.last() + ":"@ + path_with_exports(base, exports.drop_last(), old)
    }
}

/// The new `PATH`: explicit export subpaths win over the `bin` of a
/// configured prefix; with neither, the inherited `PATH` stays untouched.
pub open spec fn new_path_spec(
    base: Seq<char>,
    prefix: Option<String>,
    exports: Option<Vec<String>>,
    old: Seq<char>,
) -> Seq<char> {
    match exports {
        Some(es) => path_with_exports(base, string_views(es@), old),
        None => if opt_str(prefix, Seq::empty()).len() > 0 {
            base + "/bin"@ + ":"@ + old
        } else {
            old
        },
    }
}

/// The search path for the compiler invocation, derived from the resolved
/// toolchain base directory and the project's toolchain configuration.
pub fn derive_new_path(
    base: &str,
    prefix: &Option<String>,
    exports: &Option<Vec<String>>,
    old_path: &str,
) -> (r: String)
    ensures
        r@ == new_path_spec(base@, *prefix, *exports, old_path@),
{
    match exports {
        Some(es) => {
            let mut cur = String::from_str(old_path);
            proof {
                assert(string_views(es@.subrange(0, 0)) =~= Seq::<Seq<char>>::empty());
            }
            let mut i: usize = 0;
            while i < es.len()
                invariant
                    exports is Some && exports->0 == *es,
                    0 <= i <= es@.len(),
                    cur@ == path_with_exports(
                        base@,
                        string_views(es@.subrange(0, i as int)),
                        old_path@,
                    ),
                decreases es@.len() - i,
            {
                let mut np = String::from_str(base);
                np.append("/");
                np.append(es[i].as_str());
                np.append(":");
                np.append(cur.as_str());
                proof {
                    let svs = string_views(es@.subrange(0, i + 1));
                    assert(svs.drop_last() =~= string_views(es@.subrange(0, i as int)));
                    assert(svs.last() == (es@[i as int])@);
                }
                cur = np;
                i = i + 1;
            }
            proof {
                assert(es@.subrange(0, es@.len() as int) =~= es@);
            }
            cur
        },
        None => {
            let pfx = unwrap_or_str(prefix, "");
            proof {
                reveal_strlit("");
                assert(""@ =~= Seq::<char>::empty());
            }
            if pfx.as_str().is_empty() {
                String::from_str(old_path)
            } else {
                let mut s = String::from_str(base);
                s.append("/bin");
                s.append(":");
                s.append(old_path);
                s
            }
        },
    }
}

/// `base/kernel-build-tools/linux-x86`, the host-tool tree used when a
/// project layers extra host-compiler flags.
pub open spec fn kbt_spec(base: Seq<char>) -> Seq<char> {
    base + "/kernel-build-tools/linux-x86"@
}

/// The GCC sysroot below the toolchain base.
pub open spec fn sysroot_spec(base: Seq<char>) -> Seq<char> {
    base + "/gcc/linux-x86/host/x86_64-linux-glibc2.17-4.8/sysroot"@
}

pub open spec fn sysroot_flag_spec(base: Seq<char>) -> Seq<char> {
    "--sysroot="@ + sysroot_spec(base) + " "@
}

pub open spec fn ld_library_path_spec(base: Seq<char>, old_ld: Seq<char>) -> Seq<char> {
    old_ld + ":"@ + kbt_spec(base) + "/lib64"@
}

pub open spec fn hostcflags_spec(base: Seq<char>) -> Seq<char> {
    sysroot_flag_spec(base) + ("-I"@ + kbt_spec(base) + "/include "@)
}

pub open spec fn hostldflags_spec(base: Seq<char>) -> Seq<char> {
    sysroot_flag_spec(base) + ("-L "@ + kbt_spec(base) + "/lib64 -fuse-ld=lld --rtlib=compiler-rt"@)
}

/// The environment handed to every compiler invocation: the derived
/// `PATH`, the fixed cross-compilation variables (set for every variant),
/// and, when the project asks for extra host-tool flags, the additive
/// host sysroot entries — layered on top, never replacing the cross
/// toolchain.
pub fn build_environment(
    base: &str,
    prefix: &Option<String>,
    exports: &Option<Vec<String>>,
    old_path: &str,
    old_ld: &str,
    extra_host_env: bool,
) -> (r: Vec<(String, String)>)
    ensures
        r@.len() == if extra_host_env {
            8int
        } else {
            5int
        },
        r@[0].0@ == "PATH"@ && r@[0].1@ == new_path_spec(base@, *prefix, *exports, old_path@),
        r@[1].0@ == "ARCH"@ && r@[1].1@ == "arm64"@,
        r@[2].0@ == "CLANG_TRIPLE"@ && r@[2].1@ == "aarch64-linux-gnu-"@,
        r@[3].0@ == "CROSS_COMPILE"@ && r@[3].1@ == "aarch64-linux-gnu-"@,
        r@[4].0@ == "CROSS_COMPILE_COMPAT"@ && r@[4].1@ == "arm-linux-gnueabi-"@,
        extra_host_env ==> r@[5].0@ == "LD_LIBRARY_PATH"@ && r@[5].1@ == ld_library_path_spec(
            base@,
            old_ld@,
        ),
        extra_host_env ==> r@[6].0@ == "HOSTCFLAGS"@ && r@[6].1@ == hostcflags_spec(base@),
        extra_host_env ==> r@[7].0@ == "HOSTLDFLAGS"@ && r@[7].1@ == hostldflags_spec(base@),
{
    let new_path = derive_new_path(base, prefix, exports, old_path);
    let mut env: Vec<(String, String)> = Vec::new();
    env.push((String::from_str("PATH"), new_path));
    env.push((String::from_str("ARCH"), String::from_str("arm64")));
    env.push((String::from_str("CLANG_TRIPLE"), String::from_str("aarch64-linux-gnu-")));
    env.push((String::from_str("CROSS_COMPILE"), String::from_str("aarch64-linux-gnu-")));
    env.push((String::from_str("CROSS_COMPILE_COMPAT"), String::from_str("arm-linux-gnueabi-")));
    if extra_host_env {
        let mut kbt = String::from_str(base);
        kbt.append("/kernel-build-tools/linux-x86");
        let mut sysroot = String::from_str(base);
        sysroot.append("/gcc/linux-x86/host/x86_64-linux-glibc2.17-4.8/sysroot");

        let mut ld = String::from_str(old_ld);
        ld.append(":");
        ld.append(kbt.as_str());
        ld.append("/lib64");

        let mut sysroot_flag = String::from_str("--sysroot=");
        sysroot_flag.append(sysroot.as_str());
        sysroot_flag.append(" ");

        let mut cflags = String::from_str("-I");
        cflags.append(kbt.as_str());
        cflags.append("/include ");

        let mut ldflags = String::from_str("-L ");
        ldflags.append(kbt.as_str());
        ldflags.append("/lib64 -fuse-ld=lld --rtlib=compiler-rt");

        let mut hostcflags = sysroot_flag.clone();
        hostcflags.append(cflags.as_str());

        let mut hostldflags = sysroot_flag;
        hostldflags.append(ldflags.as_str());

        env.push((String::from_str("LD_LIBRARY_PATH"), ld));
        env.push((String::from_str("HOSTCFLAGS"), hostcflags));
        env.push((String::from_str("HOSTLDFLAGS"), hostldflags));
    }
    env
}

} // verus!

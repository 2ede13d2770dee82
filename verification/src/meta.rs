//! Derived build metadata: the `TARGET_SOC` value read positionally from
//! the project key, and the local version, release tag, archive name and
//! release title derived from prefix, variant suffix and timestamp.

use vstd::prelude::*;
use vstd::string::StrSliceExecFns;
use vstd::string::StringExecFns;

use crate::strings::char_index_from;
use crate::strings::find_char_from;
use crate::variant::variant_suffix;
use crate::variant::variant_suffix_spec;

verus! {

/// The SoC name embedded in a project key: the second `_`-separated token,
/// or the literal `unknown` for a key without `_`. A positional
/// convention kept for compatibility, isolated here so it stays visible
/// and swappable.
pub open spec fn target_soc_spec(s: Seq<char>) -> Seq<char> {
    let f = char_index_from(s, '_', 0);
    if f == -1 {
        "unknown"@
    } else {
        let g = char_index_from(s, '_', (f + 1) as nat);
        if g == -1 {
            s.subrange(f + 1, s.len() as int)
        } else {
            s.subrange(f + 1, g)
        }
    }
}

pub fn target_soc(key: &str) -> (r: String)
    ensures
        r@ == target_soc_spec(key@),
{
    let sl = key.unicode_len();
    match find_char_from(key, '_', 0) {
        None => String::from_str("unknown"),
        Some(f) => {
            match find_char_from(key, '_', f + 1) {
                None => {
                    let sub = key.substring_char(f + 1, sl);
                    String::from_str(sub)
                },
                Some(g) => {
                    let sub = key.substring_char(f + 1, g);
                    String::from_str(sub)
                },
            }
        },
    }
}

/// Version string embedded in the kernel: `<base>-<suffix>`.
pub open spec fn localversion_spec(base: Seq<char>, suffix: Seq<char>) -> Seq<char> {
    base + "-"@ + suffix
}

pub fn final_localversion(base: &str, suffix: &str) -> (r: String)
    ensures
        r@ == localversion_spec(base@, suffix@),
{
    let mut s = String::from_str(base);
    s.append("-");
    s.append(suffix);
    s
}

/// Release tag: `<prefix>-<suffix>-<stamp>`.
pub open spec fn release_tag_spec(prefix: Seq<char>, suffix: Seq<char>, stamp: Seq<char>) -> Seq<
    char,
> {
    prefix + "-"@ + suffix + "-"@ + stamp
}

pub fn release_tag(prefix: &str, suffix: &str, stamp: &str) -> (r: String)
    ensures
        r@ == release_tag_spec(prefix@, suffix@, stamp@),
{
    let mut s = String::from_str(prefix);
    s.append("-");
    s.append(suffix);
    s.append("-");
    s.append(stamp);
    s
}

/// Flashable archive name: the release tag with a `.zip` extension.
pub open spec fn zip_name_spec(prefix: Seq<char>, suffix: Seq<char>, stamp: Seq<char>) -> Seq<
    char,
> {
    release_tag_spec(prefix, suffix, stamp) + ".zip"@
}

pub fn zip_name(prefix: &str, suffix: &str, stamp: &str) -> (r: String)
    ensures
        r@ == zip_name_spec(prefix@, suffix@, stamp@),
{
    let mut s = release_tag(prefix, suffix, stamp);
    s.append(".zip");
    s
}

/// Release title: `<prefix> <suffix> Build (<stamp>)`.
pub open spec fn release_title_spec(prefix: Seq<char>, suffix: Seq<char>, stamp: Seq<char>) -> Seq<
    char,
> {
    prefix + " "@ + suffix + " Build ("@ + stamp + ")"@
}

pub fn release_title(prefix: &str, suffix: &str, stamp: &str) -> (r: String)
    ensures
        r@ == release_title_spec(prefix@, suffix@, stamp@),
{
    let mut s = String::from_str(prefix);
    s.append(" ");
    s.append(suffix);
    s.append(" Build (");
    s.append(stamp);
    s.append(")");
    s
}

/// Archive names, release tags and titles are deterministic functions of
/// the `(prefix, suffix, timestamp)` triple: equal triples give equal
/// names. In particular two builds of the same project and variant in the
/// same minute produce colliding names — a documented property of the
/// naming scheme, not silently repaired.
pub proof fn lemma_naming_deterministic(
    p1: Seq<char>,
    s1: Seq<char>,
    t1: Seq<char>,
    p2: Seq<char>,
    s2: Seq<char>,
    t2: Seq<char>,
)
    requires
        p1 == p2,
        s1 == s2,
        t1 == t2,
    ensures
        zip_name_spec(p1, s1, t1) == zip_name_spec(p2, s2, t2),
        release_tag_spec(p1, s1, t1) == release_tag_spec(p2, s2, t2),
        release_title_spec(p1, s1, t1) == release_title_spec(p2, s2, t2),
{
}

/// Everything the `meta` step derives for one build of one variant.
pub struct BuildMeta {
    pub suffix: String,
    pub localversion: String,
    pub release_tag: String,
    pub zip_name: String,
    pub release_title: String,
}

/// All metadata derived from the project's naming prefix and version base,
/// the branch token and a timestamp.
pub fn derive_meta(zip_prefix: &str, localversion_base: &str, branch: &str, stamp: &str) -> (m:
    BuildMeta)
    ensures
        m.suffix@ == variant_suffix_spec(branch@),
        m.localversion@ == localversion_spec(localversion_base@, variant_suffix_spec(branch@)),
        m.release_tag@ == release_tag_spec(zip_prefix@, variant_suffix_spec(branch@), stamp@),
        m.zip_name@ == zip_name_spec(zip_prefix@, variant_suffix_spec(branch@), stamp@),
        m.release_title@ == release_title_spec(zip_prefix@, variant_suffix_spec(branch@), stamp@),
{
    let suffix = variant_suffix(branch);
    let localversion = final_localversion(localversion_base, suffix.as_str());
    let tag = release_tag(zip_prefix, suffix.as_str(), stamp);
    let name = zip_name(zip_prefix, suffix.as_str(), stamp);
    let title = release_title(zip_prefix, suffix.as_str(), stamp);
    BuildMeta {
        suffix,
        localversion,
        release_tag: tag,
        zip_name: name,
        release_title: title,
    }
}

/// Relies on chrono's `Local::now` and `DateTime::format`: the current
/// local wall-clock time rendered with the `%Y%m%d-%H%M` strftime recipe.
/// The result depends on the clock, so nothing is promised of it.
#[verifier::external_body]
fn now_stamp() -> (r: String) {
    chrono::Local::now().format("%Y%m%d-%H%M").to_string()
}

/// All metadata for a build started now: as `derive_meta`, for some
/// timestamp taken from the wall clock.
pub fn derive_meta_now(zip_prefix: &str, localversion_base: &str, branch: &str) -> (m: BuildMeta)
    ensures
        m.suffix@ == variant_suffix_spec(branch@),
        m.localversion@ == localversion_spec(localversion_base@, variant_suffix_spec(branch@)),
        exists|stamp: Seq<char>|
            {
                &&& m.release_tag@ == #[trigger] release_tag_spec(
                    zip_prefix@,
                    variant_suffix_spec(branch@),
                    stamp,
                )
                &&& m.zip_name@ == zip_name_spec(zip_prefix@, variant_suffix_spec(branch@), stamp)
                &&& m.release_title@ == release_title_spec(
                    zip_prefix@,
                    variant_suffix_spec(branch@),
                    stamp,
                )
            },
{
    let stamp = now_stamp();
    let m = derive_meta(zip_prefix, localversion_base, branch, stamp.as_str());
    proof {
        assert(m.release_tag@ == release_tag_spec(
            zip_prefix@,
            variant_suffix_spec(branch@),
            stamp@,
        ));
    }
    m
}

} // verus!
